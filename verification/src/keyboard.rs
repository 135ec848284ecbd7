//! The keyboard step: choose a layout among those found, and have it set.

use crate::appliers::{keyboard_layout_command, KEYBOARD_TOOL};
use crate::error::{applied_view, listed_view, Error};
use crate::gateway::{Invocation, InvocationView};
use crate::navigator::Screen;
use crate::wizard::Wizard;
use vstd::prelude::*;

verus! {

/// How the notice begins when the layouts could not be listed.
pub const LIST_FAILED: &'static str = "Failed to list keyboard layout: ";

/// What the notice says when there is no layout to choose from.
pub const NOTHING_FOUND: &'static str = "no keyboard layouts found";

/// How the notice begins when a layout could not be set.
pub const SET_FAILED: &'static str = "Failed to set keyboard layout: ";

/// Enters the keyboard step with what the provider listed. With at least
/// one layout the selection is shown. With none, or with an error, a
/// notice is raised and the live environment menu is shown instead.
pub fn setup(wizard: &mut Wizard, listed: Result<Vec<String>, Error>)
    ensures
        final(wizard).wf(),
        final(wizard)@ == old(wizard)@.entered(
            Screen::KeyboardSelect,
            listed_view(listed),
            LIST_FAILED@,
            NOTHING_FOUND@,
        ),
{
    wizard.enter(Screen::KeyboardSelect, listed, LIST_FAILED, NOTHING_FOUND);
}

/// The command to run for the layout that the operator selected. Every
/// value gives its command, whether or not the wizard's options hold it.
pub fn select(wizard: &Wizard, layout: &str) -> (command: Invocation)
    ensures
        command@ == (InvocationView { program: KEYBOARD_TOOL@, args: seq![layout@] }),
{
    keyboard_layout_command(layout)
}

/// Takes in the applier's result for the selected layout. Success leads
/// back to the live environment menu; an error leaves the screen as it is
/// and raises a notice with the error's message.
pub fn settle(wizard: &mut Wizard, applied: Result<(), Error>)
    ensures
        old(wizard).wf() ==> final(wizard).wf(),
        final(wizard)@ == old(wizard)@.settled(applied_view(applied), SET_FAILED@),
{
    wizard.settle(applied, SET_FAILED);
}

} // verus!
