use yagpt_video_to_text::telegram::{
    enqueue_reply, handle_message, receive_url, start, Reaction, SharedData, State,
};
use yagpt_video_to_text::telegram_executor::{deliver, RequestInfo};

fn data() -> SharedData {
    SharedData { secret_word: "open sesame".to_string() }
}

#[test]
fn secret_word_opens_dialogue() {
    match start(Some("open sesame".to_string()), &data()) {
        Reaction::Reply { next, text } => {
            assert!(next == State::ReceiveUrl);
            assert_eq!(text, "Введите *URL* видео");
        }
        _ => panic!("the secret word is answered"),
    }
}

#[test]
fn wrong_word_keeps_dialogue_closed() {
    match start(Some("open".to_string()), &data()) {
        Reaction::Reply { next, text } => {
            assert!(next == State::Start);
            assert_eq!(text, "Нужно секретное слово");
        }
        _ => panic!("a wrong word is answered"),
    }
    match handle_message(State::Start, None, 5, &data()) {
        Reaction::Reply { next, text } => {
            assert!(next == State::Start);
            assert_eq!(text, "Введите текст");
        }
        _ => panic!("a message without text is answered"),
    }
    // An address sent before the secret word is not queued.
    assert!(matches!(
        handle_message(State::Start, Some("https://youtu.be/x".to_string()), 5, &data()),
        Reaction::Reply { .. }
    ));
}

#[test]
fn open_dialogue_queues_addresses() {
    match handle_message(State::ReceiveUrl, Some("https://youtu.be/x".to_string()), 42, &data()) {
        Reaction::Enqueue(r) => {
            assert_eq!(r.uri, "https://youtu.be/x");
            assert_eq!(r.chat_id, 42);
        }
        _ => panic!("an address is queued"),
    }
    match receive_url(None, 42) {
        Reaction::Reply { next, text } => {
            assert!(next == State::ReceiveUrl);
            assert_eq!(text, "Нужна ссылка");
        }
        _ => panic!("a message without text is answered"),
    }
    assert_eq!(enqueue_reply(true), "Принято");
    assert_eq!(enqueue_reply(false), "Очередь занята, подождите");
}

#[test]
fn deliveries() {
    let d = deliver(RequestInfo::Message("Downloading video".to_string()));
    assert!(d.document.is_none());
    assert_eq!(d.text, "Downloading video");
    assert!(!d.finished);

    let d = deliver(RequestInfo::Done("# Lecture".to_string()));
    assert_eq!(d.document.as_deref(), Some("# Lecture"));
    assert_eq!(d.text, "Finish");
    assert!(d.finished);

    let d = deliver(RequestInfo::Error("Custom { kind: NotFound }".to_string()));
    assert!(d.document.is_none());
    assert_eq!(d.text, "ERROR: \"Custom { kind: NotFound }\"");
    assert!(d.finished);
}
