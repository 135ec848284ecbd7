//! The timezone step: choose a timezone among those listed, and have it
//! set.

use crate::appliers::{timezone_command, SET_TIMEZONE, TIME_TOOL};
use crate::error::{applied_view, listed_view, Error};
use crate::gateway::{Invocation, InvocationView};
use crate::navigator::Screen;
use crate::wizard::Wizard;
use vstd::prelude::*;

verus! {

/// How the notice begins when the timezones could not be listed.
pub const LIST_FAILED: &'static str = "Failed to list timezones: ";

/// What the notice says when there is no timezone to choose from.
pub const NOTHING_FOUND: &'static str = "no timezones found";

/// How the notice begins when a timezone could not be set.
pub const SET_FAILED: &'static str = "Failed to set timezone: ";

/// Enters the timezone step with what the provider listed. With at least
/// one timezone the selection is shown. With none, or with an error, a
/// notice is raised and the live environment menu is shown instead.
pub fn setup(wizard: &mut Wizard, listed: Result<Vec<String>, Error>)
    ensures
        final(wizard).wf(),
        final(wizard)@ == old(wizard)@.entered(
            Screen::TimezoneSelect,
            listed_view(listed),
            LIST_FAILED@,
            NOTHING_FOUND@,
        ),
{
    wizard.enter(Screen::TimezoneSelect, listed, LIST_FAILED, NOTHING_FOUND);
}

/// The command to run for the timezone that the operator selected. Every
/// value gives its command, whether or not the wizard's options hold it.
pub fn select(wizard: &Wizard, timezone: &str) -> (command: Invocation)
    ensures
        command@ == (InvocationView {
            program: TIME_TOOL@,
            args: seq![SET_TIMEZONE@, timezone@],
        }),
{
    timezone_command(timezone)
}

/// Takes in the applier's result for the selected timezone. Success leads
/// back to the live environment menu; an error leaves the screen as it is
/// and raises a notice with the error's message.
pub fn settle(wizard: &mut Wizard, applied: Result<(), Error>)
    ensures
        old(wizard).wf() ==> final(wizard).wf(),
        final(wizard)@ == old(wizard)@.settled(applied_view(applied), SET_FAILED@),
{
    wizard.settle(applied, SET_FAILED);
}

} // verus!
