//! The dialogue of the Telegram bot: a user first sends the secret word,
//! then the addresses of videos, which are queued for processing. The bot
//! itself (network, dispatch, the queue) lives in the application; the rules
//! of the dialogue are here.

use vstd::prelude::*;

verus! {

/// Where a chat is in the dialogue.
#[derive(Clone, Copy, PartialEq, Eq, Structural)]
pub enum State {
    /// Waiting for the secret word.
    Start,
    /// The secret word was given: every text is a video address.
    ReceiveUrl,
}

/// A video to process, and the chat that asked for it.
#[derive(Clone)]
pub struct UserRequest {
    pub uri: String,
    pub chat_id: i64,
}

/// What the dialogue needs besides the message: the secret word.
#[derive(Clone)]
pub struct SharedData {
    pub secret_word: String,
}

/// The bot's answer to a message.
pub enum Reaction {
    /// Reply with `text`, and go on in state `next`.
    Reply { next: State, text: String },
    /// Queue this request; the reply depends on whether the queue took it
    /// (see `enqueue_reply`). The state stays `ReceiveUrl`.
    Enqueue(UserRequest),
}

/// A reaction as mathematical values.
pub enum ReactionSpec {
    Reply { next: State, text: Seq<char> },
    Enqueue { uri: Seq<char>, chat_id: i64 },
}

impl Reaction {
    pub open spec fn spec_view(&self) -> ReactionSpec {
        match self {
            Reaction::Reply { next, text } => ReactionSpec::Reply { next: *next, text: text@ },
            Reaction::Enqueue(r) => ReactionSpec::Enqueue { uri: r.uri@, chat_id: r.chat_id },
        }
    }
}

pub open spec fn ask_url_text() -> Seq<char> {
    "Введите *URL* видео"@
}

pub open spec fn need_secret_text() -> Seq<char> {
    "Нужно секретное слово"@
}

pub open spec fn need_text_text() -> Seq<char> {
    "Введите текст"@
}

pub open spec fn need_link_text() -> Seq<char> {
    "Нужна ссылка"@
}

pub open spec fn accepted_text() -> Seq<char> {
    "Принято"@
}

pub open spec fn queue_busy_text() -> Seq<char> {
    "Очередь занята, подождите"@
}

/// The rule in state `Start`: the secret word opens the dialogue.
pub open spec fn start_spec(text: Option<Seq<char>>, secret: Seq<char>) -> ReactionSpec {
    match text {
        Some(t) => if t == secret {
            ReactionSpec::Reply { next: State::ReceiveUrl, text: ask_url_text() }
        } else {
            ReactionSpec::Reply { next: State::Start, text: need_secret_text() }
        },
        None => ReactionSpec::Reply { next: State::Start, text: need_text_text() },
    }
}

/// The rule in state `ReceiveUrl`: every text is queued for its chat.
pub open spec fn receive_url_spec(text: Option<Seq<char>>, chat_id: i64) -> ReactionSpec {
    match text {
        Some(t) => ReactionSpec::Enqueue { uri: t, chat_id },
        None => ReactionSpec::Reply { next: State::ReceiveUrl, text: need_link_text() },
    }
}

/// The dialogue rule: the reaction to a message with text `text` (`None` for
/// a message without text) from chat `chat_id`, in state `state`.
pub open spec fn dialogue_spec(state: State, text: Option<Seq<char>>, chat_id: i64, secret: Seq<char>) -> ReactionSpec {
    match state {
        State::Start => start_spec(text, secret),
        State::ReceiveUrl => receive_url_spec(text, chat_id),
    }
}

/// The texts of an optional string.
pub open spec fn opt_view(text: Option<String>) -> Option<Seq<char>> {
    match text {
        Some(t) => Some(t@),
        None => None,
    }
}

/// A message in state `Start`: the secret word opens the dialogue; any other
/// text, or a message without text, is answered with a hint.
pub fn start(text: Option<String>, data: &SharedData) -> (r: Reaction)
    ensures
        r.spec_view() == start_spec(opt_view(text), data.secret_word@),
{
    match text {
        Some(t) => {
            if t == data.secret_word {
                Reaction::Reply { next: State::ReceiveUrl, text: "Введите *URL* видео".to_owned() }
            } else {
                Reaction::Reply { next: State::Start, text: "Нужно секретное слово".to_owned() }
            }
        },
        None => Reaction::Reply { next: State::Start, text: "Введите текст".to_owned() },
    }
}

/// A message in state `ReceiveUrl`: its text is queued as a video address of
/// this chat; a message without text is answered with a hint.
pub fn receive_url(text: Option<String>, chat_id: i64) -> (r: Reaction)
    ensures
        r.spec_view() == receive_url_spec(opt_view(text), chat_id),
{
    match text {
        Some(t) => Reaction::Enqueue(UserRequest { uri: t, chat_id }),
        None => Reaction::Reply { next: State::ReceiveUrl, text: "Нужна ссылка".to_owned() },
    }
}

/// The reaction to a message in any state.
pub fn handle_message(state: State, text: Option<String>, chat_id: i64, data: &SharedData) -> (r: Reaction)
    ensures
        r.spec_view() == dialogue_spec(state, opt_view(text), chat_id, data.secret_word@),
{
    match state {
        State::Start => start(text, data),
        State::ReceiveUrl => receive_url(text, chat_id),
    }
}

/// The reply after trying to queue a request: accepted, or the queue is full.
pub fn enqueue_reply(accepted: bool) -> (text: String)
    ensures
        text@ == (if accepted { accepted_text() } else { queue_busy_text() }),
{
    if accepted {
        "Принято".to_owned()
    } else {
        "Очередь занята, подождите".to_owned()
    }
}

/// Law: no video is queued before the secret word was given: in state
/// `Start` every message is answered, none is queued.
pub proof fn law_no_request_before_secret(text: Option<Seq<char>>, chat_id: i64, secret: Seq<char>)
    ensures
        dialogue_spec(State::Start, text, chat_id, secret) is Reply,
{
}

/// Law: the dialogue opens exactly on the secret word.
pub proof fn law_opens_only_on_secret(text: Option<Seq<char>>, chat_id: i64, secret: Seq<char>)
    ensures
        (dialogue_spec(State::Start, text, chat_id, secret) matches ReactionSpec::Reply { next, .. }
            && next == State::ReceiveUrl) <==> text == Some(secret),
{
}

/// Law: once open, the dialogue stays open, and every text is queued as it
/// was written, for the chat that wrote it.
pub proof fn law_open_dialogue_queues_text(text: Option<Seq<char>>, chat_id: i64, secret: Seq<char>)
    ensures
        dialogue_spec(State::ReceiveUrl, text, chat_id, secret) matches ReactionSpec::Reply { next, .. }
            ==> next == State::ReceiveUrl,
        text matches Some(t) ==> dialogue_spec(State::ReceiveUrl, text, chat_id, secret)
            == (ReactionSpec::Enqueue { uri: t, chat_id }),
{
}

} // verus!
