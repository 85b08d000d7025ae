use yagpt_video_to_text::config::Config;
use yagpt_video_to_text::download_video::VideoData;
use yagpt_video_to_text::video_to_text::{
    plan_prompts, video_to_text, Action, Event, Request, Stage, Step, MAX_PROMPT_SIZE,
};

fn config() -> Config {
    Config {
        video_path: "/data/video.m4a".to_string(),
        audio_path: "/data/audio.mp3".to_string(),
        transcribed_json: "/data/t.json".to_string(),
        transcribed_text: "/data/t.txt".to_string(),
        refactored_md: "/data/r.md".to_string(),
        refactored_html: "/data/r.html".to_string(),
        model_uri: "gpt://folder/yandexgpt/latest".to_string(),
        aws_access_key_id: "id".to_string(),
        aws_secret_access_key: "key".to_string(),
        bucket_name: "bucket".to_string(),
        token_path: "/data/key.json".to_string(),
        telegram_bot_key: "bot".to_string(),
        telegram_user_secret: "word".to_string(),
    }
}

fn expect_step(step: Option<Step>) -> Step {
    match step {
        Some(s) => s,
        None => panic!("the pipeline must accept the event it waits for"),
    }
}

#[test]
fn short_transcript_is_one_prompt() {
    let lines = vec!["hello".to_string(), "world".to_string()];
    let plan = plan_prompts(&lines);
    assert_eq!(plan.len(), 1);
    assert_eq!(plan[0].text, "hello\r\nworld\r\n");
    assert_eq!(plan[0].line_index, None);
    assert_eq!(plan[0].sent_bytes, 14);
}

#[test]
fn empty_transcript_has_no_prompt() {
    let plan = plan_prompts(&Vec::new());
    assert!(plan.is_empty());
}

#[test]
fn prompt_closes_when_over_limit() {
    let line = "a".repeat(3000);
    let lines = vec![line.clone(), line.clone(), line.clone()];
    let plan = plan_prompts(&lines);
    assert_eq!(plan.len(), 2);
    assert_eq!(plan[0].text, format!("{0}\r\n{0}\r\n", line));
    assert_eq!(plan[0].line_index, Some(1));
    assert_eq!(plan[0].sent_bytes, 6004);
    assert_eq!(plan[1].text, format!("{}\r\n", line));
    assert_eq!(plan[1].line_index, None);
    assert_eq!(plan[1].sent_bytes, 9006);
}

#[test]
fn limit_counts_bytes_not_characters() {
    // 2 500 Cyrillic letters are 5 000 bytes; with the line break, 5 002.
    let line = "ж".repeat(2500);
    let plan = plan_prompts(&vec![line.clone()]);
    assert_eq!(plan.len(), 1);
    assert_eq!(plan[0].line_index, Some(0));
    assert_eq!(plan[0].sent_bytes, 5002);
    // The same count of ASCII letters fits.
    let plan = plan_prompts(&vec!["a".repeat(2500)]);
    assert_eq!(plan[0].line_index, None);
}

#[test]
fn exactly_at_limit_stays_open() {
    let line = "a".repeat(MAX_PROMPT_SIZE - 2);
    let plan = plan_prompts(&vec![line.clone(), "b".to_string()]);
    assert_eq!(plan.len(), 1);
    assert_eq!(plan[0].line_index, Some(1));
    assert_eq!(plan[0].text.len(), MAX_PROMPT_SIZE + 3);
}

#[test]
fn prompts_put_together_give_the_lines() {
    let lines: Vec<String> = (0..40).map(|i| format!("line {} {}", i, "x".repeat(i * 97))).collect();
    let plan = plan_prompts(&lines);
    let joined: String = plan.iter().map(|p| p.text.clone()).collect();
    let expected: String = lines.iter().map(|l| format!("{}\r\n", l)).collect();
    assert_eq!(joined, expected);
    for (k, p) in plan.iter().enumerate() {
        match p.line_index {
            Some(_) => assert!(p.text.len() > MAX_PROMPT_SIZE),
            None => {
                assert_eq!(k, plan.len() - 1);
                assert!(p.text.len() <= MAX_PROMPT_SIZE);
            }
        }
    }
    assert_eq!(plan.last().unwrap().sent_bytes, expected.len());
}

#[test]
fn pipeline_runs_all_steps() {
    let (mut p, step) = video_to_text(&config(), Request { uri: "https://youtu.be/x".to_string() });
    assert_eq!(step.log, vec!["Downloading video"]);
    match step.action {
        Action::Download { uri, local_path } => {
            assert_eq!(uri, "https://youtu.be/x");
            assert_eq!(local_path, "/data/video.m4a");
        }
        _ => panic!("first the video is downloaded"),
    }
    assert!(p.stage() == Stage::Downloading);

    // An event the pipeline does not wait for is refused.
    assert!(p.advance(Event::TokenReady).is_none());
    assert!(p.stage() == Stage::Downloading);

    let s = expect_step(p.advance(Event::Downloaded(VideoData {
        path: "/data/video.m4a".to_string(),
        name: "Lecture \"1\"".to_string(),
    })));
    assert_eq!(s.log, vec!["Download complete: \"Lecture \\\"1\\\"\"", "Converting video to audio"]);
    match s.action {
        Action::Convert { video_path, audio_path } => {
            assert_eq!(video_path, "/data/video.m4a");
            assert_eq!(audio_path, "/data/audio.mp3");
        }
        _ => panic!("then converted"),
    }

    let s = expect_step(p.advance(Event::Converted { audio_path: "/data/audio.mp3".to_string() }));
    assert_eq!(s.log, vec!["Converting complete", "Uploading audio to S3"]);
    assert!(matches!(s.action, Action::Upload { ref audio_path } if audio_path == "/data/audio.mp3"));

    let s = expect_step(p.advance(Event::Uploaded { object_uri: "https://s3/obj".to_string() }));
    assert_eq!(s.log, vec!["Uploading complete", "Generating token"]);
    assert!(matches!(s.action, Action::LoadKey { ref key_path } if key_path == "/data/key.json"));

    let s = expect_step(p.advance(Event::KeyLoaded));
    assert_eq!(s.log, vec!["Generating\\.\\.\\."]);
    assert!(matches!(s.action, Action::GenerateToken));

    let s = expect_step(p.advance(Event::TokenReady));
    assert_eq!(s.log, vec!["Audio to text, it may be long!"]);
    assert!(matches!(s.action, Action::Transcribe { ref audio_uri } if audio_uri == "https://s3/obj"));

    let line = "a".repeat(3000);
    let s = expect_step(p.advance(Event::Transcribed { lines: vec![line.clone(), line.clone(), line.clone()] }));
    assert_eq!(s.log, vec!["Audio to text complete. Lines count: 3", "Starting"]);
    assert!(matches!(s.action, Action::StartModel));

    let s = expect_step(p.advance(Event::ModelReady));
    assert_eq!(s.log, vec!["Started gpt"]);
    match s.action {
        Action::Refine { prompt } => assert_eq!(prompt, format!("{0}\r\n{0}\r\n", line)),
        _ => panic!("then the first prompt is refined"),
    }

    let s = expect_step(p.advance(Event::Refined { text: "First.".to_string() }));
    assert_eq!(s.log, vec!["Gpt processor [6004] 1/3"]);
    match s.action {
        Action::Refine { prompt } => assert_eq!(prompt, format!("{}\r\n", line)),
        _ => panic!("then the second prompt"),
    }

    let s = expect_step(p.advance(Event::Refined { text: "Second.".to_string() }));
    assert_eq!(s.log, vec!["Gpt processor [9006] 3"]);
    match s.action {
        Action::Finish { output } => assert_eq!(output, "First.\r\n\r\nSecond."),
        _ => panic!("then the pipeline finishes"),
    }
    assert!(p.stage() == Stage::Finished);
    assert!(p.advance(Event::Refined { text: "late".to_string() }).is_none());
}

#[test]
fn pipeline_without_lines_finishes_empty() {
    let (mut p, _) = video_to_text(&config(), Request { uri: "u".to_string() });
    expect_step(p.advance(Event::Downloaded(VideoData { path: "v".to_string(), name: String::new() })));
    expect_step(p.advance(Event::Converted { audio_path: "a".to_string() }));
    expect_step(p.advance(Event::Uploaded { object_uri: "o".to_string() }));
    expect_step(p.advance(Event::KeyLoaded));
    expect_step(p.advance(Event::TokenReady));
    let s = expect_step(p.advance(Event::Transcribed { lines: Vec::new() }));
    assert_eq!(s.log, vec!["Audio to text complete. Lines count: 0", "Starting"]);
    let s = expect_step(p.advance(Event::ModelReady));
    assert_eq!(s.log, vec!["Started gpt", "Gpt processor [0] 0"]);
    assert!(matches!(s.action, Action::Finish { ref output } if output.is_empty()));
}

#[test]
fn closed_last_prompt_keeps_its_break() {
    let (mut p, _) = video_to_text(&config(), Request { uri: "u".to_string() });
    expect_step(p.advance(Event::Downloaded(VideoData { path: "v".to_string(), name: "n".to_string() })));
    expect_step(p.advance(Event::Converted { audio_path: "a".to_string() }));
    expect_step(p.advance(Event::Uploaded { object_uri: "o".to_string() }));
    expect_step(p.advance(Event::KeyLoaded));
    expect_step(p.advance(Event::TokenReady));
    expect_step(p.advance(Event::Transcribed { lines: vec!["b".repeat(6000)] }));
    expect_step(p.advance(Event::ModelReady));
    let s = expect_step(p.advance(Event::Refined { text: "Done".to_string() }));
    assert_eq!(s.log, vec!["Gpt processor [6002] 0/1", "Gpt processor [6002] 1"]);
    assert!(matches!(s.action, Action::Finish { ref output } if output == "Done\r\n\r\n"));
}
