//! Speech recognition of the uploaded audio: the recognition settings, how
//! long the recognition may take, and the lines read from its result. The
//! application sends the request and waits for the operation.

use vstd::prelude::*;

verus! {

/// The recognition service.
pub const STT_GRPC_URL: &'static str = "https://transcribe.api.cloud.yandex.net";

/// How long a recognition may take: 4800 seconds, in nanoseconds.
pub const RECOGNITION_TIMEOUT_NANOS: u128 = 4_800_000_000_000;

/// The encoding of the audio.
#[derive(Clone, Copy, PartialEq, Eq, Structural)]
pub enum AudioEncoding {
    Mp3,
}

/// The settings of a long-running recognition.
pub struct RecognitionSettings {
    pub audio_encoding: AudioEncoding,
    pub sample_rate_hertz: i64,
    pub language_code: String,
    pub profanity_filter: bool,
    pub model: String,
    pub partial_results: bool,
    pub single_utterance: bool,
    pub audio_channel_count: i64,
    pub raw_results: bool,
    pub literature_text: bool,
    pub folder_id: String,
    /// The address of the audio to recognize.
    pub uri: String,
}

/// The settings for recognizing the audio at `uri`: Russian speech in MP3,
/// 48 kHz, one channel, general model, literary text, no profanity filter,
/// no partial results.
pub fn recognition_settings(uri: String) -> (s: RecognitionSettings)
    ensures
        s.audio_encoding == AudioEncoding::Mp3,
        s.sample_rate_hertz == 48000,
        s.language_code@ == "ru-RU"@,
        !s.profanity_filter,
        s.model@ == "general"@,
        !s.partial_results,
        !s.single_utterance,
        s.audio_channel_count == 1,
        !s.raw_results,
        s.literature_text,
        s.folder_id@ == Seq::<char>::empty(),
        s.uri@ == uri@,
{
    RecognitionSettings {
        audio_encoding: AudioEncoding::Mp3,
        sample_rate_hertz: 48000,
        language_code: "ru-RU".to_owned(),
        profanity_filter: false,
        model: "general".to_owned(),
        partial_results: false,
        single_utterance: false,
        audio_channel_count: 1,
        raw_results: false,
        literature_text: true,
        folder_id: String::new(),
        uri,
    }
}

/// The line read from one recognized chunk: its first alternative, or the
/// empty text when it has none.
pub open spec fn chunk_line(alternatives: Seq<String>) -> Seq<char> {
    if alternatives.len() > 0 {
        alternatives[0]@
    } else {
        Seq::empty()
    }
}

/// The transcript: one line per recognized chunk, in order. Each chunk is
/// given by the texts of its alternatives.
pub fn transcript_lines(chunks: &Vec<Vec<String>>) -> (lines: Vec<String>)
    ensures
        lines@.len() == chunks@.len(),
        forall|i: int| 0 <= i < chunks@.len() ==> (#[trigger] lines@[i])@ == chunk_line(chunks@[i]@),
{
    let mut lines: Vec<String> = Vec::new();
    let n = chunks.len();
    for i in 0..n
        invariant
            n == chunks@.len(),
            lines@.len() == i,
            forall|j: int| 0 <= j < i ==> (#[trigger] lines@[j])@ == chunk_line(chunks@[j]@),
    {
        let alternatives = &chunks[i];
        if alternatives.len() > 0 {
            lines.push(alternatives[0].clone());
        } else {
            lines.push(String::new());
        }
    }
    lines
}

} // verus!
