//! Refining a transcript with the language model: the completion request
//! sent for a piece of text, and the text read from the model's answer.
//! The application sends the request and waits for the operation.

use vstd::prelude::*;
use crate::config::Config;

verus! {

/// The language model service.
pub const LLM_ENDPOINT_URL: &'static str = "https://llm.api.cloud.yandex.net";

/// The most tokens the model may produce for one prompt.
pub const MAX_TOKENS: i64 = 5000;

/// The first system instruction: what the text is and what to do with it.
pub const SYSTEM_INSTRUCTION: &'static str = "Это траскрибирование лекции в университете, сделай текст читаемым, исправь знаки, повторы и ошибки и сформируй абзацы.";

/// The assistant instruction: how the refined text should read.
pub const ASSISTANT_INSTRUCTION: &'static str = "Переформулируй, чтобы это были не обрывистые высказывания преподавателя, а текст, который удобно читать, а большие связанные абзацы, без обращений к аудитории только суть лекции. Не сокращай, исходный и конечный объём должен быть примерно одинаковый. Если можешь, то разбей на логические блоки. Так же можешь добавить Markdown форматирование";

/// Sends text to one language model.
pub struct GptProcessor {
    pub model_uri: String,
}

/// One message of a completion request.
pub struct ChatMessage {
    pub role: String,
    pub text: String,
}

/// A completion request, without its sampling temperature (0.6, which the
/// application adds).
pub struct CompletionPrompt {
    pub model_uri: String,
    pub max_tokens: i64,
    pub stream: bool,
    pub messages: Vec<ChatMessage>,
}

/// The message of one alternative of the model's answer.
pub struct AnswerMessage {
    /// The text content, if the message has one.
    pub text: Option<String>,
}

/// Why no text could be read from an answer.
pub enum GptError {
    /// The answer has no alternative.
    NoAlternative,
    /// The first alternative has no message.
    NoMessage,
    /// The message of the first alternative has no content.
    NoContent,
}

/// The messages sent for `input`: the two instructions, then the input, with
/// the roles "system", "assistant" and "system".
pub open spec fn prompt_messages(input: Seq<char>) -> Seq<(Seq<char>, Seq<char>)> {
    seq![
        ("system"@, SYSTEM_INSTRUCTION@),
        ("assistant"@, ASSISTANT_INSTRUCTION@),
        ("system"@, input),
    ]
}

/// The error message of each error.
pub open spec fn gpt_error_text(e: GptError) -> Seq<char> {
    match e {
        GptError::NoAlternative => "Gpt processor: response None"@,
        GptError::NoMessage => "Gpt processor: response message None"@,
        GptError::NoContent => "Gpt processor: response message content None"@,
    }
}

impl GptError {
    /// The message reported for this error.
    pub fn message(&self) -> (m: String)
        ensures
            m@ == gpt_error_text(*self),
    {
        match self {
            GptError::NoAlternative => "Gpt processor: response None".to_owned(),
            GptError::NoMessage => "Gpt processor: response message None".to_owned(),
            GptError::NoContent => "Gpt processor: response message content None".to_owned(),
        }
    }
}

impl GptProcessor {
    /// A processor for the model of the configuration.
    pub fn new(config: &Config) -> (g: Self)
        ensures
            g.model_uri@ == config.model_uri@,
    {
        GptProcessor { model_uri: config.model_uri.clone() }
    }

    /// The request that asks the model to refine `input`: this model, at
    /// most 5000 tokens, no streaming, the instructions then the input.
    pub fn completion_request(&self, input: String) -> (req: CompletionPrompt)
        ensures
            req.model_uri@ == self.model_uri@,
            req.max_tokens == MAX_TOKENS,
            !req.stream,
            req.messages@.map_values(|m: ChatMessage| (m.role@, m.text@)) == prompt_messages(input@),
            req.messages@.len() == 3,
            req.messages@[0].role@ == "system"@ && req.messages@[0].text@ == SYSTEM_INSTRUCTION@,
            req.messages@[1].role@ == "assistant"@ && req.messages@[1].text@ == ASSISTANT_INSTRUCTION@,
            req.messages@[2].role@ == "system"@ && req.messages@[2].text@ == input@,
    {
        let mut messages: Vec<ChatMessage> = Vec::new();
        messages.push(ChatMessage { role: "system".to_owned(), text: SYSTEM_INSTRUCTION.to_owned() });
        messages.push(ChatMessage { role: "assistant".to_owned(), text: ASSISTANT_INSTRUCTION.to_owned() });
        messages.push(ChatMessage { role: "system".to_owned(), text: input });
        let req = CompletionPrompt {
            model_uri: self.model_uri.clone(),
            max_tokens: MAX_TOKENS,
            stream: false,
            messages,
        };
        assert(req.messages@.map_values(|m: ChatMessage| (m.role@, m.text@)) =~= prompt_messages(input@));
        proof {
            law_prompt_carries_input(input@);
        }
        req
    }
}

/// The text of the model's answer: the content of the message of its first
/// alternative; an error when there is no alternative, no message, or no
/// content.
pub fn answer_text(alternatives: Vec<Option<AnswerMessage>>) -> (r: Result<String, GptError>)
    ensures
        alternatives@.len() == 0 <==> r matches Err(GptError::NoAlternative),
        alternatives@.len() > 0 && alternatives@[0] is None <==> r matches Err(GptError::NoMessage),
        (alternatives@.len() > 0 && (alternatives@[0] matches Some(m) && m.text is None)) <==> r matches Err(
            GptError::NoContent,
        ),
        r matches Ok(t) ==> (alternatives@.len() > 0 && (alternatives@[0] matches Some(m)
            && (m.text matches Some(c) && c@ == t@))),
{
    let mut alternatives = alternatives;
    if alternatives.len() == 0 {
        return Err(GptError::NoAlternative);
    }
    let first = alternatives.swap_remove(0);
    match first {
        None => Err(GptError::NoMessage),
        Some(m) => match m.text {
            None => Err(GptError::NoContent),
            Some(t) => Ok(t),
        },
    }
}

/// Law: whatever its length or content, the text to refine is sent whole and
/// last, as a system message, after the two fixed instructions.
pub proof fn law_prompt_carries_input(input: Seq<char>)
    ensures
        prompt_messages(input).len() == 3,
        prompt_messages(input)[0] == ("system"@, SYSTEM_INSTRUCTION@),
        prompt_messages(input)[1] == ("assistant"@, ASSISTANT_INSTRUCTION@),
        prompt_messages(input)[2] == ("system"@, input),
        forall|other: Seq<char>| prompt_messages(other)[2].1 == input ==> other == input,
{
}

} // verus!
