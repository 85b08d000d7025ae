//! Verified core of a bot that turns a lecture video into a readable text:
//! the decisions of the download / transcription / refinement pipeline,
//! the prompt batching for the language model, the dialogue rules of the
//! Telegram front end and the shape of every request sent to the cloud.
//! Network, process and file work is done by the application around it.

pub mod text;
pub mod config;
pub mod download_video;
pub mod paths;
pub mod iam_generator;
pub mod video_to_text;
pub mod cloud_operation;
pub mod telegram;
pub mod telegram_executor;
pub mod upload;
pub mod convert_video_to_audio;
pub mod markdown_to_html;
pub mod speech_to_text;
pub mod gpt_processor;
