//! The screens that need no provider, and what each screen lets the
//! operator choose.

use crate::disks::DiskTool;
use crate::gateway::{Invocation, InvocationView};
use crate::navigator::Screen;
use crate::providers::list_timezones_command;
use crate::wizard::{Wizard, WizardView};
use vstd::prelude::*;

verus! {

/// Shows the intro screen in place of the active screen.
pub fn intro(wizard: &mut Wizard)
    ensures
        final(wizard).wf(),
        final(wizard)@ == old(wizard)@.moved_to(Screen::Intro),
{
    wizard.move_to(Screen::Intro);
}

/// Shows the live environment menu in place of the active screen. This is
/// where every step leads back to.
pub fn live_env_setup(wizard: &mut Wizard)
    ensures
        final(wizard).wf(),
        final(wizard)@ == old(wizard)@.moved_to(Screen::LiveEnvironmentMenu),
{
    wizard.move_to(Screen::LiveEnvironmentMenu);
}

/// Shows the disk setup screen in place of the active screen.
pub fn disks_setup(wizard: &mut Wizard)
    ensures
        final(wizard).wf(),
        final(wizard)@ == old(wizard)@.moved_to(Screen::DiskSetup),
{
    wizard.move_to(Screen::DiskSetup);
}

/// Something that a screen lets the operator choose, besides an option of
/// its list.
#[derive(Clone, Copy, Debug, PartialEq, Eq, Structural)]
pub enum Choice {
    Begin,
    KeyboardLayout,
    Timezone,
    Next,
    Back,
    Tool(DiskTool),
}

/// The choices that a screen offers, in the order shown.
pub open spec fn choices_of(screen: Screen) -> Seq<Choice> {
    match screen {
        Screen::Intro => seq![Choice::Begin],
        Screen::LiveEnvironmentMenu => seq![Choice::KeyboardLayout, Choice::Timezone, Choice::Next],
        Screen::KeyboardSelect => seq![Choice::Back],
        Screen::TimezoneSelect => seq![Choice::Back],
        Screen::DiskSetup => seq![
            Choice::Tool(DiskTool::Fdisk),
            Choice::Tool(DiskTool::Gdisk),
            Choice::Tool(DiskTool::Parted),
        ],
    }
}

/// The choices that `screen` offers, in the order shown.
pub fn choices(screen: Screen) -> (offered: Vec<Choice>)
    ensures
        offered@ == choices_of(screen),
{
    let mut offered: Vec<Choice> = Vec::new();
    match screen {
        Screen::Intro => {
            offered.push(Choice::Begin);
        },
        Screen::LiveEnvironmentMenu => {
            offered.push(Choice::KeyboardLayout);
            offered.push(Choice::Timezone);
            offered.push(Choice::Next);
        },
        Screen::KeyboardSelect => {
            offered.push(Choice::Back);
        },
        Screen::TimezoneSelect => {
            offered.push(Choice::Back);
        },
        Screen::DiskSetup => {
            offered.push(Choice::Tool(DiskTool::Fdisk));
            offered.push(Choice::Tool(DiskTool::Gdisk));
            offered.push(Choice::Tool(DiskTool::Parted));
        },
    }
    offered
}

/// What is to happen outside the wizard after a choice.
#[derive(Clone, Debug, PartialEq, Eq)]
pub enum Request {
    /// The wizard has moved: show its active screen.
    Show,
    /// Enumerate the keymap files, and enter the keyboard step with what
    /// was found.
    FindKeymaps,
    /// Run the command, and enter the timezone step with its outcome.
    ListTimezones(Invocation),
    /// Hand the terminal over to the command. Nothing comes back.
    HandOver(Invocation),
}

/// What a `Request` says, with its command as text.
pub enum RequestView {
    Show,
    FindKeymaps,
    ListTimezones(InvocationView),
    HandOver(InvocationView),
}

impl View for Request {
    type V = RequestView;

    open spec fn view(&self) -> RequestView {
        match *self {
            Request::Show => RequestView::Show,
            Request::FindKeymaps => RequestView::FindKeymaps,
            Request::ListTimezones(command) => RequestView::ListTimezones(command@),
            Request::HandOver(command) => RequestView::HandOver(command@),
        }
    }
}

/// The state after a choice. Beginning and going back lead to the live
/// environment menu, going on leads to the disk setup; the steps that need
/// a provider, and the disk tools, leave the state as it is.
pub open spec fn after_choice(wizard: WizardView, choice: Choice) -> WizardView {
    match choice {
        Choice::Begin => wizard.moved_to(Screen::LiveEnvironmentMenu),
        Choice::Back => wizard.moved_to(Screen::LiveEnvironmentMenu),
        Choice::Next => wizard.moved_to(Screen::DiskSetup),
        Choice::KeyboardLayout => wizard,
        Choice::Timezone => wizard,
        Choice::Tool(_) => wizard,
    }
}

/// What a choice asks for outside the wizard.
pub open spec fn request_of(choice: Choice) -> RequestView {
    match choice {
        Choice::Begin => RequestView::Show,
        Choice::Back => RequestView::Show,
        Choice::Next => RequestView::Show,
        Choice::KeyboardLayout => RequestView::FindKeymaps,
        Choice::Timezone => RequestView::ListTimezones(
            InvocationView {
                program: crate::appliers::TIME_TOOL@,
                args: seq![crate::providers::LIST_TIMEZONES@],
            },
        ),
        Choice::Tool(tool) => RequestView::HandOver(
            InvocationView { program: crate::disks::tool_name(tool), args: Seq::empty() },
        ),
    }
}

/// Follows a choice of the operator.
pub fn follow(wizard: &mut Wizard, choice: Choice) -> (request: Request)
    ensures
        old(wizard).wf() ==> final(wizard).wf(),
        final(wizard)@ == after_choice(old(wizard)@, choice),
        request@ == request_of(choice),
{
    match choice {
        Choice::Begin => {
            live_env_setup(wizard);
            Request::Show
        },
        Choice::Back => {
            live_env_setup(wizard);
            Request::Show
        },
        Choice::Next => {
            disks_setup(wizard);
            Request::Show
        },
        Choice::KeyboardLayout => Request::FindKeymaps,
        Choice::Timezone => Request::ListTimezones(list_timezones_command()),
        Choice::Tool(tool) => Request::HandOver(tool.command()),
    }
}

} // verus!
