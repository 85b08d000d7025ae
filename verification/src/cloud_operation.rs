//! Waiting for a long-running cloud operation: the decision taken after each
//! status poll. The application polls the operation service, sleeps between
//! polls and decodes the response the decision hands back.

use vstd::prelude::*;
use crate::text::concat2;

verus! {

/// Default time an operation may take: two minutes, in nanoseconds.
pub const DEFAULT_TIMEOUT_NANOS: u128 = 120_000_000_000;

/// Pause between two status polls, in milliseconds.
pub const POLL_INTERVAL_MILLIS: u64 = 1000;

/// How long to wait for a cloud operation.
pub struct CloudOperation {
    pub timeout_nanos: u128,
}

/// The result part of an operation status.
pub enum OperationResult {
    /// The operation failed; the text is the debug rendering of its error status.
    Error(String),
    /// The operation succeeded; the bytes are the encoded response message.
    Response(Vec<u8>),
}

/// One status of an operation, as the operation service reports it.
pub struct OperationStatus {
    pub done: bool,
    pub result: Option<OperationResult>,
}

/// What to do after a status poll.
pub enum PollStep {
    /// Sleep `POLL_INTERVAL_MILLIS` and poll again.
    Wait,
    /// Give up with this error message.
    Fail(String),
    /// Decode these bytes as the response message.
    Decode(Vec<u8>),
}

/// The decision after a poll, as mathematical values: `None` to wait, an
/// error message, or the response bytes.
pub enum PollSpec {
    Wait,
    Fail(Seq<char>),
    Decode(Seq<u8>),
}

impl PollStep {
    pub open spec fn spec_view(&self) -> PollSpec {
        match self {
            PollStep::Wait => PollSpec::Wait,
            PollStep::Fail(m) => PollSpec::Fail(m@),
            PollStep::Decode(b) => PollSpec::Decode(b@),
        }
    }
}

/// The decision for a status, after `elapsed` nanoseconds of waiting, with the
/// given timeout.
pub open spec fn poll_spec(done: bool, result: Option<OperationResult>, elapsed: u128, timeout: u128) -> PollSpec {
    match result {
        Some(OperationResult::Error(e)) => PollSpec::Fail("Cloud operation: execution error: "@ + e@),
        _ => if !done {
            if elapsed > timeout {
                PollSpec::Fail("Cloud operation: execution timeout"@)
            } else {
                PollSpec::Wait
            }
        } else {
            match result {
                Some(OperationResult::Response(b)) => PollSpec::Decode(b@),
                _ => PollSpec::Fail("Cloud operation: result None"@),
            }
        },
    }
}

impl CloudOperation {
    /// A waiter with the default timeout of two minutes.
    pub fn new() -> (op: Self)
        ensures
            op.timeout_nanos == DEFAULT_TIMEOUT_NANOS,
    {
        CloudOperation { timeout_nanos: DEFAULT_TIMEOUT_NANOS }
    }

    /// The same waiter with another timeout.
    pub fn set_timeout(self, timeout_nanos: u128) -> (op: Self)
        ensures
            op.timeout_nanos == timeout_nanos,
    {
        CloudOperation { timeout_nanos, ..self }
    }

    /// Decides what follows a status poll made `elapsed_nanos` after the wait
    /// started: an error result fails at once; an unfinished operation is
    /// waited for until the timeout is passed; a finished one is decoded, or
    /// fails when it carries no result.
    pub fn poll_step(&self, status: OperationStatus, elapsed_nanos: u128) -> (step: PollStep)
        ensures
            step.spec_view() == poll_spec(status.done, status.result, elapsed_nanos, self.timeout_nanos),
            !status.done && !(status.result matches Some(OperationResult::Error(_))) && elapsed_nanos
                <= self.timeout_nanos ==> step is Wait,
            status.done ==> !(step is Wait),
            status.result matches Some(OperationResult::Error(e)) ==> (step matches PollStep::Fail(m)
                && m@ == "Cloud operation: execution error: "@ + e@),
            status.done ==> (status.result matches Some(OperationResult::Response(b)) ==> (
            step matches PollStep::Decode(d) && d@ == b@)),
    {
        match status.result {
            Some(OperationResult::Error(e)) => {
                PollStep::Fail(concat2("Cloud operation: execution error: ", e.as_str()))
            },
            result => {
                if !status.done {
                    if elapsed_nanos > self.timeout_nanos {
                        PollStep::Fail("Cloud operation: execution timeout".to_owned())
                    } else {
                        PollStep::Wait
                    }
                } else {
                    match result {
                        Some(OperationResult::Response(b)) => PollStep::Decode(b),
                        _ => PollStep::Fail("Cloud operation: result None".to_owned()),
                    }
                }
            },
        }
    }
}

/// Law: polling goes on only while the operation is unfinished, reported no
/// error, and the timeout is not passed; so a wait never outlasts its timeout.
pub proof fn law_wait_within_timeout(done: bool, result: Option<OperationResult>, elapsed: u128, timeout: u128)
    requires
        poll_spec(done, result, elapsed, timeout) is Wait,
    ensures
        !done,
        elapsed <= timeout,
        !(result matches Some(OperationResult::Error(_))),
{
}

/// Law: a response is decoded only when the operation is done and succeeded,
/// and what is decoded is exactly the bytes it reported.
pub proof fn law_decode_only_success(done: bool, result: Option<OperationResult>, elapsed: u128, timeout: u128)
    requires
        poll_spec(done, result, elapsed, timeout) is Decode,
    ensures
        done,
        result matches Some(OperationResult::Response(b)) && poll_spec(done, result, elapsed, timeout)
            == PollSpec::Decode(b@),
{
}

/// Law: the decision after a poll, case by case. An error result fails with
/// its text; otherwise an unfinished operation is waited for exactly while the
/// elapsed time is within the timeout, and fails with a timeout after it; a
/// finished operation decodes exactly the bytes of its response, or fails when
/// it carries none.
pub proof fn law_poll_cases(done: bool, result: Option<OperationResult>, elapsed: u128, timeout: u128)
    ensures
        result matches Some(OperationResult::Error(e)) ==> poll_spec(done, result, elapsed, timeout)
            == PollSpec::Fail("Cloud operation: execution error: "@ + e@),
        !(result matches Some(OperationResult::Error(_))) && !done && elapsed <= timeout ==> poll_spec(
            done,
            result,
            elapsed,
            timeout,
        ) == PollSpec::Wait,
        !(result matches Some(OperationResult::Error(_))) && !done && elapsed > timeout ==> poll_spec(
            done,
            result,
            elapsed,
            timeout,
        ) == PollSpec::Fail("Cloud operation: execution timeout"@),
        done ==> (result matches Some(OperationResult::Response(b)) ==> poll_spec(done, result, elapsed, timeout)
            == PollSpec::Decode(b@)),
        done && result is None ==> poll_spec(done, result, elapsed, timeout) == PollSpec::Fail(
            "Cloud operation: result None"@,
        ),
{
}

/// Law: waiting never depends on how often the status was polled: an
/// unfinished operation polled at two times within the timeout is waited for
/// at both, and one polled after the timeout fails at any later time too.
pub proof fn law_wait_monotone(result: Option<OperationResult>, t1: u128, t2: u128, timeout: u128)
    requires
        !(result matches Some(OperationResult::Error(_))),
        t1 <= t2,
    ensures
        poll_spec(false, result, t2, timeout) is Wait ==> poll_spec(false, result, t1, timeout) is Wait,
        poll_spec(false, result, t1, timeout) is Fail ==> poll_spec(false, result, t2, timeout) is Fail,
{
}

} // verus!
