use yagpt_video_to_text::cloud_operation::{
    CloudOperation, OperationResult, OperationStatus, PollStep, DEFAULT_TIMEOUT_NANOS,
};
use yagpt_video_to_text::config::Config;
use yagpt_video_to_text::convert_video_to_audio::ffmpeg_args;
use yagpt_video_to_text::download_video::{download_plan, downloaded, video_title, DownloadError};
use yagpt_video_to_text::gpt_processor::{answer_text, AnswerMessage, GptError, GptProcessor};
use yagpt_video_to_text::markdown_to_html::{docx_path, markdown_document, DocumentSource, PandocOutcome};
use yagpt_video_to_text::speech_to_text::{recognition_settings, transcript_lines, AudioEncoding};
use yagpt_video_to_text::upload::{Uploader, LINK_EXPIRY_SECS};

fn config() -> Config {
    Config {
        video_path: "/data/video.m4a".to_string(),
        audio_path: "/data/audio.mp3".to_string(),
        transcribed_json: String::new(),
        transcribed_text: String::new(),
        refactored_md: String::new(),
        refactored_html: "/data/result.html".to_string(),
        model_uri: "gpt://b1g/yandexgpt/latest".to_string(),
        aws_access_key_id: "id".to_string(),
        aws_secret_access_key: "secret".to_string(),
        bucket_name: "lectures".to_string(),
        token_path: "/data/key.json".to_string(),
        telegram_bot_key: String::new(),
        telegram_user_secret: String::new(),
    }
}

#[test]
fn polling_decisions() {
    let op = CloudOperation::new();
    assert_eq!(op.timeout_nanos, DEFAULT_TIMEOUT_NANOS);
    assert_eq!(DEFAULT_TIMEOUT_NANOS, 120 * 1_000_000_000);
    let pending = || OperationStatus { done: false, result: None };
    assert!(matches!(op.poll_step(pending(), 5), PollStep::Wait));
    assert!(matches!(op.poll_step(pending(), DEFAULT_TIMEOUT_NANOS), PollStep::Wait));
    match op.poll_step(pending(), DEFAULT_TIMEOUT_NANOS + 1) {
        PollStep::Fail(m) => assert_eq!(m, "Cloud operation: execution timeout"),
        _ => panic!("past the timeout the wait fails"),
    }
    let failed = OperationStatus { done: false, result: Some(OperationResult::Error("Status { code: 3 }".to_string())) };
    match op.poll_step(failed, 0) {
        PollStep::Fail(m) => assert_eq!(m, "Cloud operation: execution error: Status { code: 3 }"),
        _ => panic!("an error fails at once"),
    }
    match op.poll_step(OperationStatus { done: true, result: None }, 0) {
        PollStep::Fail(m) => assert_eq!(m, "Cloud operation: result None"),
        _ => panic!("a result is needed"),
    }
    let ok = OperationStatus { done: true, result: Some(OperationResult::Response(vec![8, 1])) };
    match op.poll_step(ok, 0) {
        PollStep::Decode(b) => assert_eq!(b, vec![8, 1]),
        _ => panic!("a response is decoded"),
    }
    let longer = CloudOperation::new().set_timeout(10);
    assert!(matches!(longer.poll_step(pending(), 11), PollStep::Fail(_)));
}

#[test]
fn ffmpeg_command_line() {
    let args = ffmpeg_args("/data/video.m4a", "/data/audio.mp3");
    assert_eq!(args, vec!["-y", "-i", "/data/video.m4a", "-ac", "1", "-ab", "48k", "/data/audio.mp3"]);
}

#[test]
fn download_plans() {
    let plan = match download_plan("https://youtu.be/x".to_string(), "/data/video.m4a") {
        Ok(p) => p,
        Err(_) => panic!("a file path plans"),
    };
    assert_eq!(plan.url, "https://youtu.be/x");
    assert_eq!(plan.file_name, "video.m4a");
    assert_eq!(plan.dir, "/data");
    assert_eq!(plan.socket_timeout, "15");
    assert_eq!(plan.format, "m4a/bestaudio/best");
    assert!(matches!(download_plan("u".to_string(), "/"), Err(DownloadError::FileName)));
    assert!(matches!(download_plan("u".to_string(), "/data/.."), Err(DownloadError::FileName)));
    assert_eq!(video_title(Some(Some("Lecture".to_string()))), "Lecture");
    assert_eq!(video_title(Some(None)), "");
    assert_eq!(video_title(None), "");
    let v = downloaded("/data/video.m4a", "Lecture".to_string());
    assert_eq!(v.path, "/data/video.m4a");
    assert_eq!(v.name, "Lecture");
}

#[test]
fn upload_targets() {
    let u = Uploader::new(&config());
    let t = match u.target("/data/audio.mp3") {
        Ok(t) => t,
        Err(_) => panic!("a file path has a key"),
    };
    assert_eq!(t.bucket, "lectures");
    assert_eq!(t.key, "audio.mp3");
    assert_eq!(t.expires_secs, 3600 * 6);
    assert_eq!(LINK_EXPIRY_SECS, 21600);
    assert!(u.target("/").is_err());
}

#[test]
fn completion_request_shape() {
    let g = GptProcessor::new(&config());
    let req = g.completion_request("text of the lecture".to_string());
    assert_eq!(req.model_uri, "gpt://b1g/yandexgpt/latest");
    assert_eq!(req.max_tokens, 5000);
    assert!(!req.stream);
    assert_eq!(req.messages.len(), 3);
    assert_eq!(req.messages[0].role, "system");
    assert!(req.messages[0].text.starts_with("Это траскрибирование лекции"));
    assert_eq!(req.messages[1].role, "assistant");
    assert!(req.messages[1].text.starts_with("Переформулируй"));
    assert_eq!(req.messages[2].role, "system");
    assert_eq!(req.messages[2].text, "text of the lecture");
}

#[test]
fn answer_texts() {
    assert!(matches!(answer_text(Vec::new()), Err(GptError::NoAlternative)));
    assert!(matches!(answer_text(vec![None]), Err(GptError::NoMessage)));
    assert!(matches!(answer_text(vec![Some(AnswerMessage { text: None })]), Err(GptError::NoContent)));
    let r = answer_text(vec![
        Some(AnswerMessage { text: Some("first".to_string()) }),
        Some(AnswerMessage { text: Some("second".to_string()) }),
    ]);
    assert!(matches!(r, Ok(ref t) if t == "first"));
    assert_eq!(GptError::NoAlternative.message(), "Gpt processor: response None");
    assert_eq!(GptError::NoMessage.message(), "Gpt processor: response message None");
    assert_eq!(GptError::NoContent.message(), "Gpt processor: response message content None");
}

#[test]
fn recognition() {
    let s = recognition_settings("https://s3/obj".to_string());
    assert!(s.audio_encoding == AudioEncoding::Mp3);
    assert_eq!(s.sample_rate_hertz, 48000);
    assert_eq!(s.language_code, "ru-RU");
    assert_eq!(s.model, "general");
    assert_eq!(s.audio_channel_count, 1);
    assert!(s.literature_text && !s.profanity_filter && !s.partial_results);
    assert!(!s.single_utterance && !s.raw_results);
    assert_eq!(s.folder_id, "");
    assert_eq!(s.uri, "https://s3/obj");
    let chunks = vec![
        vec!["one".to_string(), "uno".to_string()],
        Vec::new(),
        vec!["three".to_string()],
    ];
    assert_eq!(transcript_lines(&chunks), vec!["one", "", "three"]);
}

#[test]
fn markdown_documents() {
    let path = docx_path(&config());
    assert_eq!(path, "/data/result.html.docx");
    let d = markdown_document(PandocOutcome::ToFile, path.clone());
    assert!(matches!(d.source, DocumentSource::File(ref p) if *p == path));
    assert_eq!(d.file_name, "result.docx");
    let d = markdown_document(PandocOutcome::ToBuffer("doc".to_string()), path.clone());
    assert!(matches!(d.source, DocumentSource::Text(ref t) if t == "doc"));
    assert_eq!(d.file_name, "result.docx");
    let d = markdown_document(PandocOutcome::ToBufferRaw(vec![1, 2]), path.clone());
    assert!(matches!(d.source, DocumentSource::Bytes(ref b) if *b == vec![1, 2]));
    let d = markdown_document(PandocOutcome::Failed("pandoc not found".to_string()), path);
    assert!(matches!(d.source, DocumentSource::Text(ref t) if t == "Pandoc error: pandoc not found"));
    assert_eq!(d.file_name, "error.txt");
}
