//! The one error value that providers, appliers and steps hand upward.

use crate::gateway::FailureReason;
use vstd::prelude::*;

verus! {

/// What is said of a program that could not be started.
pub const NOT_STARTED: &'static str = " could not be started";

/// What is said of a program that ran and reported failure.
pub const EXITED_NON_ZERO: &'static str = " exited with non-zero exit code ";

/// The hint that follows a reported failure: the usual cause is a lack of
/// privilege.
pub const PRIVILEGE_HINT: &'static str = "(are you root?)";

/// What is said of a program whose output is not text.
pub const OUTPUT_NOT_TEXT: &'static str = " produced output that is not valid text";

/// The kinds of failure that the wizard tells apart.
#[derive(Clone, Copy, Debug, PartialEq, Eq)]
pub enum ErrorKind {
    /// An external tool is missing or cannot be executed.
    SpawnError,
    /// An external tool ran and reported failure.
    NonZeroExit(Option<i32>),
    /// The output of an external tool is not text.
    OutputParseError,
    /// No option list could be produced at all.
    EnumerationError,
}

/// A failure with the message that is shown for it.
#[derive(Clone, Debug, PartialEq, Eq)]
pub struct Error {
    pub kind: ErrorKind,
    pub message: String,
}

/// What an `Error` says, with the message as text.
pub struct ErrorView {
    pub kind: ErrorKind,
    pub message: Seq<char>,
}

impl View for Error {
    type V = ErrorView;

    open spec fn view(&self) -> ErrorView {
        ErrorView { kind: self.kind, message: self.message@ }
    }
}

/// What a provider hands back, as text: the option list or the error.
pub open spec fn listed_view(listed: Result<Vec<String>, Error>) -> Result<
    Seq<Seq<char>>,
    ErrorView,
> {
    match listed {
        Ok(options) => Ok(crate::text::texts(options@)),
        Err(error) => Err(error@),
    }
}

/// What an applier hands back, as text: nothing or the error.
pub open spec fn applied_view(applied: Result<(), Error>) -> Result<(), ErrorView> {
    match applied {
        Ok(_) => Ok(()),
        Err(error) => Err(error@),
    }
}

/// The kind of error that a failed command becomes.
pub open spec fn kind_of(reason: FailureReason) -> ErrorKind {
    match reason {
        FailureReason::SpawnError => ErrorKind::SpawnError,
        FailureReason::NonZeroExit(code) => ErrorKind::NonZeroExit(code),
        FailureReason::OutputParseError => ErrorKind::OutputParseError,
    }
}

/// The message for a failure of `tool`: the tool's name, then the reason,
/// and after a reported failure the privilege hint.
pub open spec fn failure_message(tool: Seq<char>, reason: FailureReason) -> Seq<char> {
    match reason {
        FailureReason::SpawnError => tool + NOT_STARTED@,
        FailureReason::NonZeroExit(_) => tool + EXITED_NON_ZERO@ + PRIVILEGE_HINT@,
        FailureReason::OutputParseError => tool + OUTPUT_NOT_TEXT@,
    }
}

/// The error that a failure of `tool` becomes.
pub open spec fn failure_of(tool: Seq<char>, reason: FailureReason) -> ErrorView {
    ErrorView { kind: kind_of(reason), message: failure_message(tool, reason) }
}

/// `needle` stands somewhere in `text`, character for character.
pub open spec fn occurs_in(needle: Seq<char>, text: Seq<char>) -> bool {
    exists|i: int|
        0 <= i && i + needle.len() <= text.len() && #[trigger] text.subrange(
            i,
            i + needle.len(),
        ) == needle
}

/// What occurs in a text occurs in every text built around it.
pub proof fn lemma_occurs_in_surrounded(
    needle: Seq<char>,
    before: Seq<char>,
    text: Seq<char>,
    after: Seq<char>,
)
    requires
        occurs_in(needle, text),
    ensures
        occurs_in(needle, before + text + after),
{
    let i = choose|i: int|
        0 <= i && i + needle.len() <= text.len() && #[trigger] text.subrange(
            i,
            i + needle.len(),
        ) == needle;
    let whole = before + text + after;
    let at = before.len() + i;
    assert(whole.subrange(at, at + needle.len()) == needle);
}

/// The message for a tool that reported failure, whatever its name and
/// exit code, holds the privilege hint.
pub proof fn lemma_reported_failure_hints_at_privilege(tool: Seq<char>, code: Option<i32>)
    ensures
        occurs_in(PRIVILEGE_HINT@, failure_message(tool, FailureReason::NonZeroExit(code))),
{
    let hint = PRIVILEGE_HINT@;
    assert(hint.subrange(0, 0 + hint.len() as int) == hint);
    lemma_occurs_in_surrounded(hint, tool + EXITED_NON_ZERO@, hint, Seq::empty());
    assert(tool + EXITED_NON_ZERO@ + hint + Seq::<char>::empty() == tool + EXITED_NON_ZERO@
        + hint);
}

impl Error {
    /// The error for a command of `tool` that failed for `reason`.
    pub fn from_failure(tool: &str, reason: FailureReason) -> (error: Error)
        ensures
            error@ == failure_of(tool@, reason),
    {
        let mut message = String::from_str(tool);
        match reason {
            FailureReason::SpawnError => {
                message.append(NOT_STARTED);
                Error { kind: ErrorKind::SpawnError, message }
            },
            FailureReason::NonZeroExit(code) => {
                message.append(EXITED_NON_ZERO);
                message.append(PRIVILEGE_HINT);
                Error { kind: ErrorKind::NonZeroExit(code), message }
            },
            FailureReason::OutputParseError => {
                message.append(OUTPUT_NOT_TEXT);
                Error { kind: ErrorKind::OutputParseError, message }
            },
        }
    }

    /// The error for an option list that could not be produced, with the
    /// reason as its message.
    pub fn enumeration(detail: &str) -> (error: Error)
        ensures
            error@ == (ErrorView { kind: ErrorKind::EnumerationError, message: detail@ }),
    {
        Error { kind: ErrorKind::EnumerationError, message: String::from_str(detail) }
    }
}

} // verus!
