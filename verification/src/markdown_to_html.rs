//! Turning the refined Markdown into the document sent to the chat. The
//! application runs pandoc and builds the Telegram file from the decision.

use vstd::prelude::*;
use crate::config::Config;
use crate::text::concat2;

verus! {

/// What pandoc produced.
pub enum PandocOutcome {
    /// The document was written to the output file.
    ToFile,
    /// The document as text.
    ToBuffer(String),
    /// The document as bytes.
    ToBufferRaw(Vec<u8>),
    /// Pandoc failed; the text is the display rendering of its error.
    Failed(String),
}

/// Where the content of the sent document comes from.
pub enum DocumentSource {
    File(String),
    Text(String),
    Bytes(Vec<u8>),
}

/// The document sent to the chat.
pub struct Document {
    pub source: DocumentSource,
    pub file_name: String,
}

/// The file pandoc writes: the HTML path of the configuration with ".docx" added.
pub fn docx_path(config: &Config) -> (p: String)
    ensures
        p@ == config.refactored_html@ + ".docx"@,
{
    concat2(config.refactored_html.as_str(), ".docx")
}

/// The document for a pandoc outcome: the result, named "result.docx", from
/// the output file or from what pandoc returned; or, when pandoc failed, a
/// text "Pandoc error: " with the error, named "error.txt".
pub fn markdown_document(outcome: PandocOutcome, docx_path: String) -> (d: Document)
    ensures
        match outcome {
            PandocOutcome::ToFile => d.source matches DocumentSource::File(p) && p@ == docx_path@
                && d.file_name@ == "result.docx"@,
            PandocOutcome::ToBuffer(s) => d.source matches DocumentSource::Text(t) && t@ == s@
                && d.file_name@ == "result.docx"@,
            PandocOutcome::ToBufferRaw(b) => d.source matches DocumentSource::Bytes(c) && c@ == b@
                && d.file_name@ == "result.docx"@,
            PandocOutcome::Failed(e) => d.source matches DocumentSource::Text(t) && t@ == "Pandoc error: "@
                + e@ && d.file_name@ == "error.txt"@,
        },
{
    match outcome {
        PandocOutcome::ToFile => Document { source: DocumentSource::File(docx_path), file_name: "result.docx".to_owned() },
        PandocOutcome::ToBuffer(s) => Document { source: DocumentSource::Text(s), file_name: "result.docx".to_owned() },
        PandocOutcome::ToBufferRaw(b) => Document { source: DocumentSource::Bytes(b), file_name: "result.docx".to_owned() },
        PandocOutcome::Failed(e) => Document {
            source: DocumentSource::Text(concat2("Pandoc error: ", e.as_str())),
            file_name: "error.txt".to_owned(),
        },
    }
}

} // verus!
