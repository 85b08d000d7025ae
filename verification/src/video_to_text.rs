//! The video-to-text pipeline: the order of its steps, the progress messages
//! it reports, and the batching of transcribed lines into prompts.

use vstd::prelude::*;
use crate::config::Config;
use crate::download_video::VideoData;
use crate::text::{
    byte_len, concat2, debug_quoted, debug_string, decimal, decimal_string, lemma_utf8_len_concat,
    lemma_utf8_len_empty, utf8_len,
};

verus! {

/// A user's request: the address of the video.
#[derive(Clone)]
pub struct Request {
    pub uri: String,
}

/// A prompt is sent as soon as its text exceeds this many bytes.
pub const MAX_PROMPT_SIZE: usize = 5000;

/// The line terminator appended to every transcribed line.
pub open spec fn line_break() -> Seq<char> {
    "\r\n"@
}

/// The texts of a list of strings.
pub open spec fn text_views(lines: Seq<String>) -> Seq<Seq<char>> {
    lines.map_values(|l: String| l@)
}

/// All lines, each followed by a line break.
pub open spec fn joined_lines(lines: Seq<Seq<char>>) -> Seq<char>
    decreases lines.len(),
{
    if lines.len() == 0 {
        Seq::empty()
    } else {
        joined_lines(lines.drop_last()) + lines.last() + line_break()
    }
}

/// The concatenation of the texts of a list of prompts.
pub open spec fn concat_texts(prompts: Seq<(Seq<char>, int)>) -> Seq<char>
    decreases prompts.len(),
{
    if prompts.len() == 0 {
        Seq::empty()
    } else {
        concat_texts(prompts.drop_last()) + prompts.last().0
    }
}

/// Batching of the lines read so far: the text that waits to be sent and
/// the prompts already closed, each with the index of the line that closed it.
pub open spec fn batch_fold(lines: Seq<Seq<char>>) -> (Seq<char>, Seq<(Seq<char>, int)>)
    decreases lines.len(),
{
    if lines.len() == 0 {
        (Seq::empty(), Seq::empty())
    } else {
        let (pending, closed) = batch_fold(lines.drop_last());
        let text = pending + lines.last() + line_break();
        if utf8_len(text) > MAX_PROMPT_SIZE {
            (Seq::empty(), closed.push((text, lines.len() - 1)))
        } else {
            (text, closed)
        }
    }
}

/// A prompt of the plan, as mathematical values.
pub struct PromptSpec {
    pub text: Seq<char>,
    /// The index of the line that made the prompt exceed the limit; `None` for
    /// the last, shorter prompt.
    pub line_index: Option<int>,
    /// Bytes sent to the model up to and including this prompt.
    pub sent_bytes: nat,
}

/// The prompts sent to the model for the transcribed `lines`: the closed
/// prompts in order, then the remaining text if there is any.
pub open spec fn prompt_plan(lines: Seq<Seq<char>>) -> Seq<PromptSpec> {
    let (pending, closed) = batch_fold(lines);
    let full = Seq::new(
        closed.len(),
        |k: int|
            PromptSpec {
                text: closed[k].0,
                line_index: Some(closed[k].1),
                sent_bytes: utf8_len(concat_texts(closed.take(k + 1))),
            },
    );
    if pending.len() == 0 {
        full
    } else {
        full.push(PromptSpec { text: pending, line_index: None, sent_bytes: utf8_len(joined_lines(lines)) })
    }
}

/// Total bytes sent to the model for `lines`.
pub open spec fn total_sent(lines: Seq<Seq<char>>) -> nat {
    utf8_len(joined_lines(lines))
}

/// The concatenation of the texts of a list of planned prompts.
pub open spec fn concat_prompts(prompts: Seq<PromptSpec>) -> Seq<char>
    decreases prompts.len(),
{
    if prompts.len() == 0 {
        Seq::empty()
    } else {
        concat_prompts(prompts.drop_last()) + prompts.last().text
    }
}

/// The waiting text never exceeds the limit.
proof fn lemma_pending_fits(lines: Seq<Seq<char>>)
    ensures
        utf8_len(batch_fold(lines).0) <= MAX_PROMPT_SIZE,
    decreases lines.len(),
{
    if lines.len() == 0 {
        lemma_utf8_len_empty();
    } else {
        lemma_pending_fits(lines.drop_last());
        lemma_utf8_len_empty();
    }
}

/// Extending the lines keeps the prompts closed so far.
proof fn lemma_closed_prefix(lines: Seq<Seq<char>>, k: int)
    requires
        0 <= k < batch_fold(lines.drop_last()).1.len(),
        lines.len() > 0,
    ensures
        batch_fold(lines).1.len() > k,
        batch_fold(lines).1[k] == batch_fold(lines.drop_last()).1[k],
{
}

/// What a closed prompt is made of: the text that was waiting, which fit in
/// the limit, then the closing line and its line break; the whole exceeds the
/// limit.
proof fn lemma_closed_prompt(lines: Seq<Seq<char>>, k: int)
    requires
        0 <= k < batch_fold(lines).1.len(),
    ensures
        ({
            let (text, i) = batch_fold(lines).1[k];
            let pre = text.take(text.len() - lines[i].len() - 2);
            &&& 0 <= i < lines.len()
            &&& text.len() >= lines[i].len() + 2
            &&& text == pre + lines[i] + line_break()
            &&& utf8_len(pre) <= MAX_PROMPT_SIZE
            &&& utf8_len(text) > MAX_PROMPT_SIZE
        }),
    decreases lines.len(),
{
    reveal_strlit("\r\n");
    let prev = lines.drop_last();
    let (pending, closed) = batch_fold(prev);
    if k < closed.len() {
        lemma_closed_prompt(prev, k);
        lemma_closed_prefix(lines, k);
    } else {
        lemma_pending_fits(prev);
        let text = pending + lines.last() + line_break();
        assert(text.take(text.len() - lines.last().len() - 2) =~= pending);
    }
}

/// Prompts are closed by lines in increasing order.
proof fn lemma_closed_order(lines: Seq<Seq<char>>, j: int, k: int)
    requires
        0 <= j < k < batch_fold(lines).1.len(),
    ensures
        batch_fold(lines).1[j].1 < batch_fold(lines).1[k].1,
    decreases lines.len(),
{
    let prev = lines.drop_last();
    let closed = batch_fold(prev).1;
    lemma_closed_prompt(prev, j);
    if k < closed.len() {
        lemma_closed_order(prev, j, k);
        lemma_closed_prefix(lines, j);
        lemma_closed_prefix(lines, k);
    } else {
        lemma_closed_prefix(lines, j);
    }
}

proof fn lemma_concat_full_prompts(lines: Seq<Seq<char>>, m: int)
    requires
        0 <= m <= batch_fold(lines).1.len(),
    ensures
        concat_prompts(prompt_plan(lines).take(m)) == concat_texts(batch_fold(lines).1.take(m)),
    decreases m,
{
    if m > 0 {
        lemma_concat_full_prompts(lines, m - 1);
        assert(prompt_plan(lines).take(m).drop_last() =~= prompt_plan(lines).take(m - 1));
        assert(batch_fold(lines).1.take(m).drop_last() =~= batch_fold(lines).1.take(m - 1));
    } else {
        assert(prompt_plan(lines).take(0) =~= Seq::<PromptSpec>::empty());
        assert(batch_fold(lines).1.take(0) =~= Seq::<(Seq<char>, int)>::empty());
    }
}

/// Law: the prompts, put back together in order, are exactly the transcribed
/// lines, each followed by "\r\n": batching loses, adds and reorders nothing.
pub proof fn law_prompts_cover_lines(lines: Seq<Seq<char>>)
    ensures
        concat_prompts(prompt_plan(lines)) == joined_lines(lines),
{
    let (pending, closed) = batch_fold(lines);
    let plan = prompt_plan(lines);
    lemma_fold_concat(lines);
    lemma_concat_full_prompts(lines, closed.len() as int);
    assert(closed.take(closed.len() as int) =~= closed);
    if pending.len() == 0 {
        assert(plan.take(plan.len() as int) =~= plan);
        assert(concat_texts(closed) + pending =~= concat_texts(closed));
    } else {
        assert(plan.drop_last() =~= plan.take(closed.len() as int));
    }
}

/// Law: a prompt that a line closed exceeds the limit, and without that line
/// (and its line break) it would fit: each prompt is sent as soon as it is
/// over `MAX_PROMPT_SIZE` bytes, not later.
pub proof fn law_prompt_closed_on_overflow(lines: Seq<Seq<char>>, k: int)
    requires
        0 <= k < prompt_plan(lines).len(),
        prompt_plan(lines)[k].line_index is Some,
    ensures
        ({
            let p = prompt_plan(lines)[k];
            let i = p.line_index.unwrap();
            let pre = p.text.take(p.text.len() - lines[i].len() - 2);
            &&& 0 <= i < lines.len()
            &&& p.text == pre + lines[i] + line_break()
            &&& utf8_len(pre) <= MAX_PROMPT_SIZE
            &&& utf8_len(p.text) > MAX_PROMPT_SIZE
        }),
{
    lemma_closed_prompt(lines, k);
}

/// Law: only the last prompt may be one that no line closed, and it is a
/// non-empty text within the limit.
pub proof fn law_last_prompt_fits(lines: Seq<Seq<char>>, k: int)
    requires
        0 <= k < prompt_plan(lines).len(),
        prompt_plan(lines)[k].line_index is None,
    ensures
        k == prompt_plan(lines).len() - 1,
        prompt_plan(lines)[k].text.len() > 0,
        utf8_len(prompt_plan(lines)[k].text) <= MAX_PROMPT_SIZE,
{
    lemma_pending_fits(lines);
}

/// Law: the closing lines of the prompts come in the order of the transcript.
pub proof fn law_prompt_lines_increase(lines: Seq<Seq<char>>, j: int, k: int)
    requires
        0 <= j < k < prompt_plan(lines).len(),
        prompt_plan(lines)[k].line_index is Some,
    ensures
        prompt_plan(lines)[j].line_index is Some,
        prompt_plan(lines)[j].line_index.unwrap() < prompt_plan(lines)[k].line_index.unwrap(),
{
    lemma_closed_order(lines, j, k);
}

/// Law: the byte count reported with the last prompt is the size of the whole
/// transcript with its line breaks.
pub proof fn law_sent_bytes_total(lines: Seq<Seq<char>>)
    requires
        prompt_plan(lines).len() > 0,
    ensures
        prompt_plan(lines).last().sent_bytes == total_sent(lines),
{
    let (pending, closed) = batch_fold(lines);
    lemma_fold_concat(lines);
    if pending.len() == 0 {
        assert(closed.take(closed.len() as int) =~= closed);
        assert(concat_texts(closed) + pending =~= concat_texts(closed));
    }
}

/// Law: the bytes reported with each prompt are the running total: the size
/// of that prompt and of every prompt before it, put together.
pub proof fn law_sent_bytes_running_total(lines: Seq<Seq<char>>, k: int)
    requires
        0 <= k < prompt_plan(lines).len(),
    ensures
        prompt_plan(lines)[k].sent_bytes == utf8_len(concat_prompts(prompt_plan(lines).take(k + 1))),
{
    let (pending, closed) = batch_fold(lines);
    let plan = prompt_plan(lines);
    if k < closed.len() {
        lemma_concat_full_prompts(lines, k + 1);
    } else {
        law_prompts_cover_lines(lines);
        assert(plan.take(k + 1) =~= plan);
    }
}

/// Law: each prompt's byte count exceeds the previous one's by exactly the
/// size of that prompt.
pub proof fn law_sent_bytes_step(lines: Seq<Seq<char>>, k: int)
    requires
        0 < k < prompt_plan(lines).len(),
    ensures
        prompt_plan(lines)[k].sent_bytes == prompt_plan(lines)[k - 1].sent_bytes + utf8_len(
            prompt_plan(lines)[k].text,
        ),
{
    let plan = prompt_plan(lines);
    law_sent_bytes_running_total(lines, k);
    law_sent_bytes_running_total(lines, k - 1);
    assert(plan.take(k + 1).drop_last() =~= plan.take(k));
    assert(plan.take(k + 1).last() == plan[k]);
    lemma_utf8_len_concat(concat_prompts(plan.take(k)), plan[k].text);
}

/// A prompt to send to the model.
pub struct Prompt {
    pub text: String,
    /// The index of the line that closed this prompt; `None` for the last,
    /// shorter prompt.
    pub line_index: Option<usize>,
    /// Bytes sent up to and including this prompt.
    pub sent_bytes: usize,
}

impl Prompt {
    pub open spec fn spec_view(&self) -> PromptSpec {
        PromptSpec {
            text: self.text@,
            line_index: match self.line_index {
                Some(i) => Some(i as int),
                None => None,
            },
            sent_bytes: self.sent_bytes as nat,
        }
    }
}

/// The closed prompts recorded in `prompts`, as (text, closing line) pairs.
pub open spec fn closed_view(prompts: Seq<Prompt>) -> Seq<(Seq<char>, int)> {
    prompts.map_values(|p: Prompt| (p.text@, p.line_index.unwrap() as int))
}

proof fn lemma_text_views_take(lines: Seq<String>, i: int)
    requires
        0 <= i < lines.len(),
    ensures
        text_views(lines).take(i + 1).drop_last() =~= text_views(lines).take(i),
        text_views(lines).take(i + 1).last() == lines[i]@,
{
}

/// Batching keeps every byte: the closed prompts followed by the waiting text
/// are the lines with their line breaks.
proof fn lemma_fold_concat(lines: Seq<Seq<char>>)
    ensures
        concat_texts(batch_fold(lines).1) + batch_fold(lines).0 == joined_lines(lines),
    decreases lines.len(),
{
    if lines.len() > 0 {
        lemma_fold_concat(lines.drop_last());
        let (pending, closed) = batch_fold(lines.drop_last());
        let text = pending + lines.last() + line_break();
        if utf8_len(text) > MAX_PROMPT_SIZE {
            let c2 = closed.push((text, lines.len() - 1));
            assert(c2.drop_last() =~= closed);
            assert(concat_texts(c2) + Seq::<char>::empty() =~= concat_texts(closed) + pending
                + lines.last() + line_break());
        } else {
            assert(concat_texts(closed) + text =~= concat_texts(closed) + pending + lines.last()
                + line_break());
        }
    }
}

/// Joining a prefix of the lines gives a prefix of the joined text.
proof fn lemma_joined_prefix(lines: Seq<Seq<char>>, i: int)
    requires
        0 <= i <= lines.len(),
    ensures
        utf8_len(joined_lines(lines.take(i))) <= utf8_len(joined_lines(lines)),
    decreases lines.len() - i,
{
    if i < lines.len() {
        lemma_joined_prefix(lines, i + 1);
        let t = lines.take(i + 1);
        assert(t.drop_last() =~= lines.take(i));
        lemma_utf8_len_concat(joined_lines(lines.take(i)) + t.last(), line_break());
        lemma_utf8_len_concat(joined_lines(lines.take(i)), t.last());
    } else {
        assert(lines.take(i) =~= lines);
    }
}

/// Splits the transcribed lines into the prompts sent to the model: lines are
/// gathered, each followed by "\r\n", and a prompt is closed as soon as its text
/// exceeds `MAX_PROMPT_SIZE` bytes; what remains at the end forms one last prompt.
pub fn plan_prompts(lines: &Vec<String>) -> (plan: Vec<Prompt>)
    requires
        total_sent(text_views(lines@)) <= usize::MAX,
    ensures
        plan@.map_values(|p: Prompt| p.spec_view()) == prompt_plan(text_views(lines@)),
        forall|k: int|
            0 <= k < plan@.len() ==> (#[trigger] plan@[k]).sent_bytes == utf8_len(
                concat_prompts(prompt_plan(text_views(lines@)).take(k + 1)),
            ),
{
    let ghost views = text_views(lines@);
    let n = lines.len();
    let mut pending = String::new();
    let mut prompts: Vec<Prompt> = Vec::new();
    let mut sent: usize = 0;
    let mut i: usize = 0;
    while i < n
        invariant
            n == lines.len(),
            0 <= i <= n,
            views == text_views(lines@),
            total_sent(views) <= usize::MAX,
            batch_fold(views.take(i as int)).0 == pending@,
            batch_fold(views.take(i as int)).1 == closed_view(prompts@),
            forall|k: int| 0 <= k < prompts@.len() ==> (#[trigger] prompts@[k]).line_index is Some,
            forall|k: int|
                0 <= k < prompts@.len() ==> (#[trigger] prompts@[k]).sent_bytes == utf8_len(
                    concat_texts(closed_view(prompts@).take(k + 1)),
                ),
            sent == utf8_len(concat_texts(closed_view(prompts@))),
        decreases n - i,
    {
        proof {
            lemma_text_views_take(lines@, i as int);
            lemma_fold_concat(views.take(i + 1));
            lemma_fold_concat(views.take(i as int));
            lemma_joined_prefix(views, i + 1);
        }
        let ghost before = pending@;
        pending.append(lines[i].as_str());
        pending.append("\r\n");
        let ghost closed_before = closed_view(prompts@);
        proof {
            assert(joined_lines(views.take(i + 1)) == joined_lines(views.take(i as int))
                + lines[i as int]@ + line_break());
            assert(pending@ == before + lines[i as int]@ + line_break());
            assert(joined_lines(views.take(i + 1)) =~= concat_texts(closed_before) + pending@);
            lemma_utf8_len_concat(concat_texts(closed_before), pending@);
        }
        let len = byte_len(pending.as_str());
        if len > MAX_PROMPT_SIZE {
            sent = sent + len;
            let mut text = String::new();
            std::mem::swap(&mut text, &mut pending);
            let ghost old_prompts = prompts@;
            prompts.push(Prompt { text, line_index: Some(i), sent_bytes: sent });
            proof {
                assert(closed_view(prompts@) =~= closed_before.push((text@, i as int)));
                assert(closed_view(prompts@).drop_last() =~= closed_before);
                lemma_utf8_len_concat(concat_texts(closed_before), text@);
                assert forall|k: int| 0 <= k < prompts@.len() implies (#[trigger] prompts@[k]).sent_bytes
                    == utf8_len(concat_texts(closed_view(prompts@).take(k + 1))) by {
                    if k < old_prompts.len() {
                        assert(closed_view(prompts@).take(k + 1) =~= closed_before.take(k + 1));
                        assert(prompts@[k] == old_prompts[k]);
                    } else {
                        assert(closed_view(prompts@).take(k + 1) =~= closed_view(prompts@));
                    }
                }
            }
        }
        i = i + 1;
    }
    proof {
        assert(views.take(n as int) =~= views);
        lemma_fold_concat(views);
    }
    let ghost closed = closed_view(prompts@);
    let ghost full_len = prompts@.len();
    if !pending.as_str().is_empty() {
        proof {
            lemma_utf8_len_concat(concat_texts(closed), pending@);
        }
        let len = byte_len(pending.as_str());
        sent = sent + len;
        prompts.push(Prompt { text: pending, line_index: None, sent_bytes: sent });
    }
    proof {
        let spec_plan = prompt_plan(views);
        let got = prompts@.map_values(|p: Prompt| p.spec_view());
        assert(got.len() == spec_plan.len());
        assert forall|k: int| 0 <= k < got.len() implies got[k] == spec_plan[k] by {
            if k < full_len {
                let p = prompts@[k];
                assert(closed[k] == (p.text@, p.line_index.unwrap() as int));
            }
        }
        assert(got =~= spec_plan);
        assert forall|k: int| 0 <= k < prompts@.len() implies (#[trigger] prompts@[k]).sent_bytes
            == utf8_len(concat_prompts(spec_plan.take(k + 1))) by {
            law_sent_bytes_running_total(views, k);
            assert(got[k] == spec_plan[k]);
        }
    }
    prompts
}

/// The step the pipeline is at: what it waits for.
#[derive(Clone, Copy, PartialEq, Eq, Structural)]
pub enum Stage {
    Downloading,
    Converting,
    Uploading,
    LoadingKey,
    GeneratingToken,
    Transcribing,
    StartingModel,
    Refining,
    Finished,
}

/// What the application is asked to do next.
pub enum Action {
    /// Download the video at `uri` to `local_path`.
    Download { uri: String, local_path: String },
    /// Extract the audio of `video_path` into `audio_path`.
    Convert { video_path: String, audio_path: String },
    /// Upload the audio file and obtain a link to it.
    Upload { audio_path: String },
    /// Read the service-account key file.
    LoadKey { key_path: String },
    /// Obtain an IAM token with the key.
    GenerateToken,
    /// Recognize the speech of the uploaded audio.
    Transcribe { audio_uri: String },
    /// Connect to the language model.
    StartModel,
    /// Ask the model to refine this prompt.
    Refine { prompt: String },
    /// The pipeline is done; this is the refined text.
    Finish { output: String },
}

/// An action as mathematical values.
pub enum ActionSpec {
    Download { uri: Seq<char>, local_path: Seq<char> },
    Convert { video_path: Seq<char>, audio_path: Seq<char> },
    Upload { audio_path: Seq<char> },
    LoadKey { key_path: Seq<char> },
    GenerateToken,
    Transcribe { audio_uri: Seq<char> },
    StartModel,
    Refine { prompt: Seq<char> },
    Finish { output: Seq<char> },
}

impl Action {
    pub open spec fn spec_view(&self) -> ActionSpec {
        match self {
            Action::Download { uri, local_path } => ActionSpec::Download { uri: uri@, local_path: local_path@ },
            Action::Convert { video_path, audio_path } => ActionSpec::Convert {
                video_path: video_path@,
                audio_path: audio_path@,
            },
            Action::Upload { audio_path } => ActionSpec::Upload { audio_path: audio_path@ },
            Action::LoadKey { key_path } => ActionSpec::LoadKey { key_path: key_path@ },
            Action::GenerateToken => ActionSpec::GenerateToken,
            Action::Transcribe { audio_uri } => ActionSpec::Transcribe { audio_uri: audio_uri@ },
            Action::StartModel => ActionSpec::StartModel,
            Action::Refine { prompt } => ActionSpec::Refine { prompt: prompt@ },
            Action::Finish { output } => ActionSpec::Finish { output: output@ },
        }
    }
}

/// What the application reports back after doing an action.
pub enum Event {
    Downloaded(VideoData),
    Converted { audio_path: String },
    Uploaded { object_uri: String },
    KeyLoaded,
    TokenReady,
    /// The recognized lines of the audio.
    Transcribed { lines: Vec<String> },
    ModelReady,
    /// The model's answer to the prompt it was asked to refine.
    Refined { text: String },
}

/// An event as mathematical values.
pub enum EventSpec {
    Downloaded { path: Seq<char>, name: Seq<char> },
    Converted { audio_path: Seq<char> },
    Uploaded { object_uri: Seq<char> },
    KeyLoaded,
    TokenReady,
    Transcribed { lines: Seq<Seq<char>> },
    ModelReady,
    Refined { text: Seq<char> },
}

impl Event {
    pub open spec fn spec_view(&self) -> EventSpec {
        match self {
            Event::Downloaded(v) => EventSpec::Downloaded { path: v.path@, name: v.name@ },
            Event::Converted { audio_path } => EventSpec::Converted { audio_path: audio_path@ },
            Event::Uploaded { object_uri } => EventSpec::Uploaded { object_uri: object_uri@ },
            Event::KeyLoaded => EventSpec::KeyLoaded,
            Event::TokenReady => EventSpec::TokenReady,
            Event::Transcribed { lines } => EventSpec::Transcribed { lines: text_views(lines@) },
            Event::ModelReady => EventSpec::ModelReady,
            Event::Refined { text } => EventSpec::Refined { text: text@ },
        }
    }
}

/// The progress messages to report, then the action to do.
pub struct Step {
    pub log: Vec<String>,
    pub action: Action,
}

/// The state of the pipeline, as mathematical values.
pub struct PipelineSpec {
    pub stage: Stage,
    pub audio_path: Seq<char>,
    pub token_path: Seq<char>,
    pub object_uri: Seq<char>,
    pub line_count: nat,
    pub prompts: Seq<PromptSpec>,
    /// The prompt being refined.
    pub next: nat,
    /// The refined text so far.
    pub output: Seq<char>,
}

/// The separator after the answer to a prompt that a line closed.
pub open spec fn paragraph_break() -> Seq<char> {
    "\r\n\r\n"@
}

/// The message after the model refined a prompt closed by line `index`.
pub open spec fn progress_log(sent: nat, index: nat, line_count: nat) -> Seq<char> {
    "Gpt processor ["@ + decimal(sent) + "] "@ + decimal(index) + "/"@ + decimal(line_count)
}

/// The message when the refinement is over.
pub open spec fn final_log(sent: nat, line_count: nat) -> Seq<char> {
    "Gpt processor ["@ + decimal(sent) + "] "@ + decimal(line_count)
}

/// The bytes sent to the model by all prompts.
pub open spec fn sent_total(prompts: Seq<PromptSpec>) -> nat {
    if prompts.len() == 0 {
        0
    } else {
        prompts.last().sent_bytes
    }
}

/// The start of the pipeline for `request`: report "Downloading video" and
/// download the video to the configured video path.
pub open spec fn pipeline_start(video_path: Seq<char>, audio_path: Seq<char>, token_path: Seq<char>, uri: Seq<char>) -> (
    PipelineSpec,
    Seq<Seq<char>>,
    ActionSpec,
) {
    (
        PipelineSpec {
            stage: Stage::Downloading,
            audio_path,
            token_path,
            object_uri: Seq::empty(),
            line_count: 0,
            prompts: Seq::empty(),
            next: 0,
            output: Seq::empty(),
        },
        seq!["Downloading video"@],
        ActionSpec::Download { uri, local_path: video_path },
    )
}

/// The step after answering the prompt at `s.next` with `text`.
pub open spec fn refine_step(s: PipelineSpec, text: Seq<char>) -> (PipelineSpec, Seq<Seq<char>>, ActionSpec) {
    let p = s.prompts[s.next as int];
    let output = s.output + text + (if p.line_index is Some {
        paragraph_break()
    } else {
        Seq::empty()
    });
    let progress = match p.line_index {
        Some(i) => seq![progress_log(p.sent_bytes, i as nat, s.line_count)],
        None => Seq::empty(),
    };
    if s.next + 1 < s.prompts.len() {
        (
            PipelineSpec { next: s.next + 1, output, ..s },
            progress,
            ActionSpec::Refine { prompt: s.prompts[s.next + 1int].text },
        )
    } else {
        (
            PipelineSpec { stage: Stage::Finished, next: s.next + 1, output, ..s },
            progress.push(final_log(sent_total(s.prompts), s.line_count)),
            ActionSpec::Finish { output },
        )
    }
}

/// The pipeline's rule: the new state, the messages and the next action
/// after event `e` in state `s`; `None` when `s` does not wait for `e`.
pub open spec fn pipeline_next(s: PipelineSpec, e: EventSpec) -> Option<(PipelineSpec, Seq<Seq<char>>, ActionSpec)> {
    match e {
        EventSpec::Downloaded { path, name } => if s.stage == Stage::Downloading {
            Some(
                (
                    PipelineSpec { stage: Stage::Converting, ..s },
                    seq!["Download complete: "@ + debug_quoted(name), "Converting video to audio"@],
                    ActionSpec::Convert { video_path: path, audio_path: s.audio_path },
                ),
            )
        } else {
            None
        },
        EventSpec::Converted { audio_path } => if s.stage == Stage::Converting {
            Some(
                (
                    PipelineSpec { stage: Stage::Uploading, ..s },
                    seq!["Converting complete"@, "Uploading audio to S3"@],
                    ActionSpec::Upload { audio_path },
                ),
            )
        } else {
            None
        },
        EventSpec::Uploaded { object_uri } => if s.stage == Stage::Uploading {
            Some(
                (
                    PipelineSpec { stage: Stage::LoadingKey, object_uri, ..s },
                    seq!["Uploading complete"@, "Generating token"@],
                    ActionSpec::LoadKey { key_path: s.token_path },
                ),
            )
        } else {
            None
        },
        EventSpec::KeyLoaded => if s.stage == Stage::LoadingKey {
            Some(
                (
                    PipelineSpec { stage: Stage::GeneratingToken, ..s },
                    seq!["Generating\\.\\.\\."@],
                    ActionSpec::GenerateToken,
                ),
            )
        } else {
            None
        },
        EventSpec::TokenReady => if s.stage == Stage::GeneratingToken {
            Some(
                (
                    PipelineSpec { stage: Stage::Transcribing, ..s },
                    seq!["Audio to text, it may be long!"@],
                    ActionSpec::Transcribe { audio_uri: s.object_uri },
                ),
            )
        } else {
            None
        },
        EventSpec::Transcribed { lines } => if s.stage == Stage::Transcribing {
            Some(
                (
                    PipelineSpec {
                        stage: Stage::StartingModel,
                        line_count: lines.len(),
                        prompts: prompt_plan(lines),
                        ..s
                    },
                    seq!["Audio to text complete. Lines count: "@ + decimal(lines.len()), "Starting"@],
                    ActionSpec::StartModel,
                ),
            )
        } else {
            None
        },
        EventSpec::ModelReady => if s.stage == Stage::StartingModel {
            if s.prompts.len() == 0 {
                Some(
                    (
                        PipelineSpec { stage: Stage::Finished, ..s },
                        seq!["Started gpt"@, final_log(0, s.line_count)],
                        ActionSpec::Finish { output: s.output },
                    ),
                )
            } else {
                Some(
                    (
                        PipelineSpec { stage: Stage::Refining, next: 0, ..s },
                        seq!["Started gpt"@],
                        ActionSpec::Refine { prompt: s.prompts[0].text },
                    ),
                )
            }
        } else {
            None
        },
        EventSpec::Refined { text } => if s.stage == Stage::Refining && s.next < s.prompts.len() {
            Some(refine_step(s, text))
        } else {
            None
        },
    }
}

/// The texts of a list of strings, as a sequence.
pub open spec fn log_view(log: Vec<String>) -> Seq<Seq<char>> {
    text_views(log@)
}

/// The refined text for answers `results` to the first prompts: each answer,
/// followed by "\r\n\r\n" when a line closed its prompt.
pub open spec fn assembled(prompts: Seq<PromptSpec>, results: Seq<Seq<char>>) -> Seq<char>
    decreases results.len(),
{
    if results.len() == 0 {
        Seq::empty()
    } else {
        assembled(prompts, results.drop_last()) + results.last() + (if prompts[results.len() - 1].line_index is Some {
            paragraph_break()
        } else {
            Seq::empty()
        })
    }
}

/// Feeding answers `results`, one after the other, to the refinement step.
pub open spec fn run_refine(s: PipelineSpec, results: Seq<Seq<char>>) -> PipelineSpec
    decreases results.len(),
{
    if results.len() == 0 {
        s
    } else {
        refine_step(run_refine(s, results.drop_last()), results.last()).0
    }
}

proof fn lemma_run_refine(s: PipelineSpec, results: Seq<Seq<char>>)
    requires
        s.stage == Stage::Refining,
        s.next == 0,
        results.len() <= s.prompts.len(),
    ensures
        run_refine(s, results).next == results.len(),
        run_refine(s, results).output == s.output + assembled(s.prompts, results),
        run_refine(s, results).prompts == s.prompts,
        run_refine(s, results).line_count == s.line_count,
        run_refine(s, results).stage == (if results.len() == s.prompts.len() && results.len() > 0 {
            Stage::Finished
        } else {
            Stage::Refining
        }),
    decreases results.len(),
{
    if results.len() == 0 {
        assert(s.output + Seq::<char>::empty() =~= s.output);
    } else {
        lemma_run_refine(s, results.drop_last());
        let r = run_refine(s, results.drop_last());
        let p = s.prompts[results.len() - 1];
        let sep = if p.line_index is Some { paragraph_break() } else { Seq::<char>::empty() };
        assert(s.output + assembled(s.prompts, results) =~= s.output + assembled(s.prompts, results.drop_last())
            + results.last() + sep);
    }
}

/// Law: once the model is running, answering every prompt in turn finishes
/// the pipeline, and its text is the answers in the order of the prompts,
/// each answer to a prompt that a line closed followed by "\r\n\r\n".
pub proof fn law_refined_text(s: PipelineSpec, results: Seq<Seq<char>>)
    requires
        s.stage == Stage::Refining,
        s.next == 0,
        results.len() == s.prompts.len(),
        results.len() > 0,
    ensures
        run_refine(s, results).stage == Stage::Finished,
        run_refine(s, results).output == s.output + assembled(s.prompts, results),
        refine_step(run_refine(s, results.drop_last()), results.last()).2 == (ActionSpec::Finish {
            output: s.output + assembled(s.prompts, results),
        }),
{
    lemma_run_refine(s, results);
    lemma_run_refine(s, results.drop_last());
}

/// Law: after the model answers the prompt being refined, the next action
/// asks for exactly the following prompt of the plan, if there is one, and
/// otherwise finishes; the position moves on by one.
pub proof fn law_refine_asks_next_prompt(s: PipelineSpec, text: Seq<char>)
    requires
        s.stage == Stage::Refining,
        s.next < s.prompts.len(),
    ensures
        refine_step(s, text).0.next == s.next + 1,
        refine_step(s, text).0.prompts == s.prompts,
        s.next + 1 < s.prompts.len() ==> refine_step(s, text).2 == (ActionSpec::Refine {
            prompt: s.prompts[s.next + 1int].text,
        }),
        s.next + 1 < s.prompts.len() ==> refine_step(s, text).0.stage == Stage::Refining,
        s.next + 1 == s.prompts.len() ==> refine_step(s, text).2 is Finish,
        pipeline_next(s, EventSpec::Refined { text }) == Some(refine_step(s, text)),
{
}

/// Law: once the model is ready, the first prompt of the plan is asked for
/// (or, with no prompt, the pipeline finishes).
pub proof fn law_model_ready_asks_first_prompt(s: PipelineSpec)
    requires
        s.stage == Stage::StartingModel,
    ensures
        s.prompts.len() > 0 ==> (pipeline_next(s, EventSpec::ModelReady) matches Some((t, _, a)) && a
            == (ActionSpec::Refine { prompt: s.prompts[0].text }) && t.next == 0 && t.stage
            == Stage::Refining && t.prompts == s.prompts),
        s.prompts.len() == 0 ==> (pipeline_next(s, EventSpec::ModelReady) matches Some((_, _, a)) && a
            is Finish),
{
}

/// Law: over a whole refinement, the prompts asked for are the plan's
/// prompts in order, each once: after the answers to the first `j` prompts
/// the action asks for prompt `j`.
pub proof fn law_refine_sequence(s: PipelineSpec, results: Seq<Seq<char>>, j: int)
    requires
        s.stage == Stage::Refining,
        s.next == 0,
        0 < j < s.prompts.len(),
        results.len() >= j,
    ensures
        refine_step(run_refine(s, results.take(j - 1)), results[j - 1]).2 == (ActionSpec::Refine {
            prompt: s.prompts[j].text,
        }),
        run_refine(s, results.take(j)).next == j,
{
    lemma_run_refine(s, results.take(j - 1));
    lemma_run_refine(s, results.take(j));
    assert(results.take(j).drop_last() =~= results.take(j - 1));
    law_refine_asks_next_prompt(run_refine(s, results.take(j - 1)), results[j - 1]);
}

/// A running video-to-text request.
pub struct VideoToText {
    stage: Stage,
    audio_path: String,
    token_path: String,
    object_uri: String,
    line_count: usize,
    prompts: Vec<Prompt>,
    next: usize,
    output: String,
}

impl View for VideoToText {
    type V = PipelineSpec;

    closed spec fn view(&self) -> PipelineSpec {
        PipelineSpec {
            stage: self.stage,
            audio_path: self.audio_path@,
            token_path: self.token_path@,
            object_uri: self.object_uri@,
            line_count: self.line_count as nat,
            prompts: self.prompts@.map_values(|p: Prompt| p.spec_view()),
            next: self.next as nat,
            output: self.output@,
        }
    }
}

fn one_line(a: String) -> (v: Vec<String>)
    ensures
        log_view(v) == seq![a@],
{
    let mut v: Vec<String> = Vec::new();
    v.push(a);
    assert(log_view(v) =~= seq![a@]);
    v
}

fn two_lines(a: String, b: String) -> (v: Vec<String>)
    ensures
        log_view(v) == seq![a@, b@],
{
    let mut v: Vec<String> = Vec::new();
    v.push(a);
    v.push(b);
    assert(log_view(v) =~= seq![a@, b@]);
    v
}

fn final_message(sent: usize, line_count: usize) -> (m: String)
    ensures
        m@ == final_log(sent as nat, line_count as nat),
{
    let a = concat2("Gpt processor [", decimal_string(sent).as_str());
    let b = concat2(a.as_str(), "] ");
    concat2(b.as_str(), decimal_string(line_count).as_str())
}

fn progress_message(sent: usize, index: usize, line_count: usize) -> (m: String)
    ensures
        m@ == progress_log(sent as nat, index as nat, line_count as nat),
{
    let a = concat2("Gpt processor [", decimal_string(sent).as_str());
    let b = concat2(a.as_str(), "] ");
    let c = concat2(b.as_str(), decimal_string(index).as_str());
    let d = concat2(c.as_str(), "/");
    concat2(d.as_str(), decimal_string(line_count).as_str())
}

/// Starts the pipeline for `request`: it reports "Downloading video" and asks
/// for the video to be downloaded to the configured video path.
pub fn video_to_text(config: &Config, request: Request) -> (r: (VideoToText, Step))
    ensures
        (r.0@, log_view(r.1.log), r.1.action.spec_view()) == pipeline_start(
            config.video_path@,
            config.audio_path@,
            config.token_path@,
            request.uri@,
        ),
{
    let pipeline = VideoToText {
        stage: Stage::Downloading,
        audio_path: config.audio_path.clone(),
        token_path: config.token_path.clone(),
        object_uri: String::new(),
        line_count: 0,
        prompts: Vec::new(),
        next: 0,
        output: String::new(),
    };
    let step = Step {
        log: one_line("Downloading video".to_owned()),
        action: Action::Download { uri: request.uri, local_path: config.video_path.clone() },
    };
    proof {
        assert(pipeline@.prompts =~= Seq::<PromptSpec>::empty());
    }
    (pipeline, step)
}

impl VideoToText {
    /// Where the pipeline is.
    pub fn stage(&self) -> (s: Stage)
        ensures
            s == self@.stage,
    {
        self.stage
    }

    /// Takes in the outcome of the last action: returns the progress
    /// messages and the next action, or `None`, leaving the pipeline as it
    /// is, when the pipeline does not wait for this event.
    pub fn advance(&mut self, event: Event) -> (step: Option<Step>)
        requires
            event matches Event::Transcribed { lines } ==> total_sent(text_views(lines@)) <= usize::MAX,
        ensures
            match pipeline_next(old(self)@, event.spec_view()) {
                Some((s, log, action)) => step matches Some(st) && final(self)@ == s && log_view(st.log) == log
                    && st.action.spec_view() == action,
                None => step is None && final(self)@ == old(self)@,
            },
            old(self)@.stage == Stage::Refining && old(self)@.next + 1 < old(self)@.prompts.len() && event is Refined
                ==> (step matches Some(st) && st.action.spec_view() == (ActionSpec::Refine {
                prompt: old(self)@.prompts[old(self)@.next + 1int].text,
            }) && final(self)@.next == old(self)@.next + 1),
    {
        match event {
            Event::Downloaded(v) => {
                if self.stage != Stage::Downloading {
                    return None;
                }
                self.stage = Stage::Converting;
                let quoted = debug_string(v.name.as_str());
                let log = two_lines(concat2("Download complete: ", quoted.as_str()), "Converting video to audio".to_owned());
                Some(Step { log, action: Action::Convert { video_path: v.path, audio_path: self.audio_path.clone() } })
            },
            Event::Converted { audio_path } => {
                if self.stage != Stage::Converting {
                    return None;
                }
                self.stage = Stage::Uploading;
                let log = two_lines("Converting complete".to_owned(), "Uploading audio to S3".to_owned());
                Some(Step { log, action: Action::Upload { audio_path } })
            },
            Event::Uploaded { object_uri } => {
                if self.stage != Stage::Uploading {
                    return None;
                }
                self.stage = Stage::LoadingKey;
                self.object_uri = object_uri;
                let log = two_lines("Uploading complete".to_owned(), "Generating token".to_owned());
                Some(Step { log, action: Action::LoadKey { key_path: self.token_path.clone() } })
            },
            Event::KeyLoaded => {
                if self.stage != Stage::LoadingKey {
                    return None;
                }
                self.stage = Stage::GeneratingToken;
                let log = one_line("Generating\\.\\.\\.".to_owned());
                Some(Step { log, action: Action::GenerateToken })
            },
            Event::TokenReady => {
                if self.stage != Stage::GeneratingToken {
                    return None;
                }
                self.stage = Stage::Transcribing;
                let log = one_line("Audio to text, it may be long!".to_owned());
                Some(Step { log, action: Action::Transcribe { audio_uri: self.object_uri.clone() } })
            },
            Event::Transcribed { lines } => {
                if self.stage != Stage::Transcribing {
                    return None;
                }
                let prompts = plan_prompts(&lines);
                self.stage = Stage::StartingModel;
                self.line_count = lines.len();
                self.prompts = prompts;
                let count = concat2("Audio to text complete. Lines count: ", decimal_string(lines.len()).as_str());
                let log = two_lines(count, "Starting".to_owned());
                Some(Step { log, action: Action::StartModel })
            },
            Event::ModelReady => {
                if self.stage != Stage::StartingModel {
                    return None;
                }
                if self.prompts.len() == 0 {
                    self.stage = Stage::Finished;
                    let log = two_lines("Started gpt".to_owned(), final_message(0, self.line_count));
                    Some(Step { log, action: Action::Finish { output: self.output.clone() } })
                } else {
                    self.stage = Stage::Refining;
                    self.next = 0;
                    let log = one_line("Started gpt".to_owned());
                    Some(Step { log, action: Action::Refine { prompt: self.prompts[0].text.clone() } })
                }
            },
            Event::Refined { text } => {
                if self.stage != Stage::Refining || self.next >= self.prompts.len() {
                    return None;
                }
                proof {
                    law_refine_asks_next_prompt(self@, text@);
                }
                Some(self.refined(text))
            },
        }
    }

    fn refined(&mut self, text: String) -> (st: Step)
        requires
            old(self)@.stage == Stage::Refining,
            old(self)@.next < old(self)@.prompts.len(),
        ensures
            (final(self)@, log_view(st.log), st.action.spec_view()) == refine_step(old(self)@, text@),
    {
        let ghost s = self@;
        let k = self.next;
        let n = self.prompts.len();
        assert(k < n);
        self.output.append(text.as_str());
        let mut log: Vec<String> = Vec::new();
        match self.prompts[k].line_index {
            Some(i) => {
                self.output.append("\r\n\r\n");
                log.push(progress_message(self.prompts[k].sent_bytes, i, self.line_count));
            },
            None => {},
        }
        self.next = k + 1;
        if k + 1 < self.prompts.len() {
            Step { log, action: Action::Refine { prompt: self.prompts[k + 1].text.clone() } }
        } else {
            self.stage = Stage::Finished;
            log.push(final_message(self.prompts[k].sent_bytes, self.line_count));
            Step { log, action: Action::Finish { output: self.output.clone() } }
        }
    }
}

} // verus!
