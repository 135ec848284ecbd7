//! The mutation appliers: a chosen value goes to the external tool that sets
//! it, and the tool's result is the only word on whether it was set.

use crate::error::{applied_view, failure_of, Error, ErrorView};
use crate::gateway::{
    command_result, result_of, CommandResult, CommandResultView, Invocation, InvocationView,
    ProcessOutcome, ProcessOutcomeView,
};
use crate::text::texts;
use vstd::prelude::*;

verus! {

/// The tool that loads a keyboard layout.
pub const KEYBOARD_TOOL: &'static str = "loadkeys";

/// The tool that lists and sets timezones.
pub const TIME_TOOL: &'static str = "timedatectl";

/// The argument that makes the time tool set a timezone.
pub const SET_TIMEZONE: &'static str = "set-timezone";

/// What an applier makes of the outcome of its tool: success where the
/// gateway reports success, else the gateway's failure as an error that
/// names the tool.
pub open spec fn applied_of(tool: Seq<char>, outcome: ProcessOutcomeView) -> Result<
    (),
    ErrorView,
> {
    match result_of(outcome) {
        CommandResultView::Success(_) => Ok(()),
        CommandResultView::Failure(reason) => Err(failure_of(tool, reason)),
    }
}

/// Judges the outcome of a run of `tool` that was to set a value.
fn applied(tool: &str, outcome: ProcessOutcome) -> (result: Result<(), Error>)
    ensures
        applied_view(result) == applied_of(tool@, outcome@),
{
    match command_result(outcome) {
        CommandResult::Success(_) => Ok(()),
        CommandResult::Failure(reason) => Err(Error::from_failure(tool, reason)),
    }
}

/// The command that sets the keyboard layout `layout`. The name is passed
/// on as it is: no list of known layouts is consulted.
pub fn keyboard_layout_command(layout: &str) -> (command: Invocation)
    ensures
        command@ == (InvocationView { program: KEYBOARD_TOOL@, args: seq![layout@] }),
{
    let mut args: Vec<String> = Vec::new();
    args.push(String::from_str(layout));
    assert(texts(args@) == seq![layout@]);
    Invocation { program: String::from_str(KEYBOARD_TOOL), args }
}

/// Whether the keyboard layout was set, from the outcome of the command
/// that was to set it.
pub fn set_keyboard_layout(outcome: ProcessOutcome) -> (result: Result<(), Error>)
    ensures
        applied_view(result) == applied_of(KEYBOARD_TOOL@, outcome@),
{
    applied(KEYBOARD_TOOL, outcome)
}

/// The command that sets the timezone `timezone`. The name is passed on as
/// it is: no list of known timezones is consulted.
pub fn timezone_command(timezone: &str) -> (command: Invocation)
    ensures
        command@ == (InvocationView {
            program: TIME_TOOL@,
            args: seq![SET_TIMEZONE@, timezone@],
        }),
{
    let mut args: Vec<String> = Vec::new();
    args.push(String::from_str(SET_TIMEZONE));
    args.push(String::from_str(timezone));
    assert(texts(args@) == seq![SET_TIMEZONE@, timezone@]);
    Invocation { program: String::from_str(TIME_TOOL), args }
}

/// Whether the timezone was set, from the outcome of the command that was
/// to set it.
pub fn set_timezone(outcome: ProcessOutcome) -> (result: Result<(), Error>)
    ensures
        applied_view(result) == applied_of(TIME_TOOL@, outcome@),
{
    applied(TIME_TOOL, outcome)
}

} // verus!
