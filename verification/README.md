# yagpt_video_to_text

A Telegram bot that turns a lecture video into a readable text: it downloads
the video's audio, uploads it to object storage, has it transcribed by the
cloud's speech recognition, and has the transcript rewritten by a language
model in pieces of about 5000 bytes. The result is sent back as a Word
document.

Layout:

- `src/` — the verified library (Verus). It holds the decisions of the
  program: the order of the pipeline's steps and its progress messages
  (`video_to_text`), the batching of transcript lines into prompts and the
  assembly of the refined text, the polling rule for long-running cloud
  operations (`cloud_operation`), the dialogue rules of the bot (`telegram`,
  `telegram_executor`), and the exact shape of every request: ffmpeg
  arguments, download options, storage keys, recognition settings, the
  completion request, the JWT for the IAM token.
- `app/` — the program around it: configuration, gRPC calls, S3, ffmpeg,
  youtube-dl, pandoc and Telegram. It performs the actions the library asks
  for and hands the outcomes back.
- `tests/` — tests of the library on concrete values.
