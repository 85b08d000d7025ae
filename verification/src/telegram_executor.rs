//! Serving one queued request: what the chat is sent for each piece of news
//! from the running pipeline. The application runs the pipeline, renders
//! documents and talks to Telegram.

use vstd::prelude::*;
use crate::text::{concat2, debug_quoted, debug_string};

verus! {

/// News from a running request.
pub enum RequestInfo {
    /// A progress message.
    Message(String),
    /// The pipeline finished with this Markdown text.
    Done(String),
    /// The pipeline failed; the text is the debug rendering of the error.
    Error(String),
}

/// What to send to the chat for one piece of news.
pub struct Delivery {
    /// A Markdown text to send as a document first, if any.
    pub document: Option<String>,
    /// The text message to send.
    pub text: String,
    /// Whether the request is over after this delivery.
    pub finished: bool,
}

/// Progress is forwarded as it is; a finished request sends its text as a
/// document, then "Finish"; a failed one sends "ERROR: " and the debug
/// rendering of the error text.
pub fn deliver(info: RequestInfo) -> (d: Delivery)
    ensures
        match info {
            RequestInfo::Message(m) => d.document is None && d.text@ == m@ && !d.finished,
            RequestInfo::Done(md) => d.document matches Some(doc) && doc@ == md@ && d.text@ == "Finish"@
                && d.finished,
            RequestInfo::Error(e) => d.document is None && d.text@ == "ERROR: "@ + debug_quoted(e@)
                && d.finished,
        },
{
    match info {
        RequestInfo::Message(m) => Delivery { document: None, text: m, finished: false },
        RequestInfo::Done(md) => Delivery { document: Some(md), text: "Finish".to_owned(), finished: true },
        RequestInfo::Error(e) => {
            let quoted = debug_string(e.as_str());
            Delivery { document: None, text: concat2("ERROR: ", quoted.as_str()), finished: true }
        },
    }
}

} // verus!
