//! The external command gateway: what is run, what came of it, and how the
//! outcome of a process is judged.

use crate::text::texts;
use vstd::prelude::*;
use vstd::utf8::{decode_utf8, valid_utf8};

verus! {

/// A program, looked up on the search path, and the arguments handed to it.
#[derive(Clone, Debug, PartialEq, Eq)]
pub struct Invocation {
    pub program: String,
    pub args: Vec<String>,
}

/// What an `Invocation` says, as text.
pub struct InvocationView {
    pub program: Seq<char>,
    pub args: Seq<Seq<char>>,
}

impl View for Invocation {
    type V = InvocationView;

    open spec fn view(&self) -> InvocationView {
        InvocationView { program: self.program@, args: texts(self.args@) }
    }
}

/// What the operating system reported of one synchronous run of a program.
/// `code` is `None` where the process ended without an exit code.
#[derive(Clone, Debug, PartialEq, Eq)]
pub enum ProcessOutcome {
    NotStarted,
    Exited { code: Option<i32>, stdout: Vec<u8> },
}

/// What a `ProcessOutcome` says, with the output as a sequence of bytes.
pub enum ProcessOutcomeView {
    NotStarted,
    Exited { code: Option<i32>, stdout: Seq<u8> },
}

impl View for ProcessOutcome {
    type V = ProcessOutcomeView;

    open spec fn view(&self) -> ProcessOutcomeView {
        match *self {
            ProcessOutcome::NotStarted => ProcessOutcomeView::NotStarted,
            ProcessOutcome::Exited { code, stdout } => ProcessOutcomeView::Exited {
                code,
                stdout: stdout@,
            },
        }
    }
}

/// Why a command did not succeed.
#[derive(Clone, Copy, Debug, PartialEq, Eq)]
pub enum FailureReason {
    /// The program could not be found or executed.
    SpawnError,
    /// The process ran and ended otherwise than with exit code 0.
    NonZeroExit(Option<i32>),
    /// The process succeeded, but its output is not text.
    OutputParseError,
}

/// The result of a command: its output as text, or the reason it failed.
#[derive(Clone, Debug, PartialEq, Eq)]
pub enum CommandResult {
    Success(String),
    Failure(FailureReason),
}

/// What a `CommandResult` says, with the output as text.
pub enum CommandResultView {
    Success(Seq<char>),
    Failure(FailureReason),
}

impl View for CommandResult {
    type V = CommandResultView;

    open spec fn view(&self) -> CommandResultView {
        match *self {
            CommandResult::Success(text) => CommandResultView::Success(text@),
            CommandResult::Failure(reason) => CommandResultView::Failure(reason),
        }
    }
}

/// The result that an outcome amounts to. A process that did not start is a
/// spawn error; one that did not end with exit code 0 failed with the code
/// it gave, whatever it wrote; one that ended with 0 succeeded with its
/// output as text, or failed because the output is not UTF-8.
pub open spec fn result_of(outcome: ProcessOutcomeView) -> CommandResultView {
    match outcome {
        ProcessOutcomeView::NotStarted => CommandResultView::Failure(FailureReason::SpawnError),
        ProcessOutcomeView::Exited { code, stdout } => {
            if code != Some(0i32) {
                CommandResultView::Failure(FailureReason::NonZeroExit(code))
            } else if valid_utf8(stdout) {
                CommandResultView::Success(decode_utf8(stdout))
            } else {
                CommandResultView::Failure(FailureReason::OutputParseError)
            }
        },
    }
}

/// `String::from_utf8` of std, with its error dropped. std documents that it
/// succeeds exactly on valid UTF-8 and that the string then consists of the
/// given bytes; `decode_utf8` names the characters that such bytes encode.
#[verifier::external_body]
fn decode_text(bytes: Vec<u8>) -> (text: Option<String>)
    ensures
        text is Some <==> valid_utf8(bytes@),
        text matches Some(s) ==> s@ == decode_utf8(bytes@),
{
    match String::from_utf8(bytes) {
        Ok(s) => Some(s),
        Err(_) => None,
    }
}

/// Judges the outcome of a process.
pub fn command_result(outcome: ProcessOutcome) -> (result: CommandResult)
    ensures
        result@ == result_of(outcome@),
{
    match outcome {
        ProcessOutcome::NotStarted => CommandResult::Failure(FailureReason::SpawnError),
        ProcessOutcome::Exited { code, stdout } => {
            let succeeded = match code {
                Some(c) => c == 0,
                None => false,
            };
            if !succeeded {
                CommandResult::Failure(FailureReason::NonZeroExit(code))
            } else {
                match decode_text(stdout) {
                    Some(text) => CommandResult::Success(text),
                    None => CommandResult::Failure(FailureReason::OutputParseError),
                }
            }
        },
    }
}

} // verus!
