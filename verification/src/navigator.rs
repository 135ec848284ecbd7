//! The screen stack and the single primitive that changes it.

use vstd::prelude::*;

verus! {

/// One full-panel step of the wizard.
#[derive(Clone, Copy, Debug, PartialEq, Eq, Structural)]
pub enum Screen {
    Intro,
    LiveEnvironmentMenu,
    KeyboardSelect,
    TimezoneSelect,
    DiskSetup,
}

/// Whether a screen is a step that offers a list of options to select from.
pub open spec fn offers_list(screen: Screen) -> bool {
    screen == Screen::KeyboardSelect || screen == Screen::TimezoneSelect
}

/// What `replace_top` makes of a stack: the top gives way to `screen`, and
/// an empty stack receives it as its only element.
pub open spec fn replaced(stack: Seq<Screen>, screen: Screen) -> Seq<Screen> {
    if stack.len() == 0 {
        seq![screen]
    } else {
        stack.drop_last().push(screen)
    }
}

/// What a run of `replace_top` calls, one for each of `screens` in order,
/// makes of a stack.
pub open spec fn replaced_all(stack: Seq<Screen>, screens: Seq<Screen>) -> Seq<Screen>
    decreases screens.len(),
{
    if screens.len() == 0 {
        stack
    } else {
        replaced(replaced_all(stack, screens.drop_last()), screens.last())
    }
}

/// However many times the top is replaced, a stack that holds a screen goes
/// on holding one: its depth stays what it was, what lies below the top
/// stays untouched, and the top is the screen that was put there last.
pub proof fn lemma_replacing_keeps_one_top(stack: Seq<Screen>, screens: Seq<Screen>)
    requires
        stack.len() >= 1,
    ensures
        replaced_all(stack, screens).len() == stack.len(),
        replaced_all(stack, screens).drop_last() == stack.drop_last(),
        replaced_all(stack, screens).last() == if screens.len() == 0 {
            stack.last()
        } else {
            screens.last()
        },
    decreases screens.len(),
{
    if screens.len() > 0 {
        lemma_replacing_keeps_one_top(stack, screens.drop_last());
    }
}

/// From the stack that a wizard starts with, every run of `replace_top`
/// calls leaves exactly one screen.
pub proof fn lemma_one_screen_from_the_start(screens: Seq<Screen>)
    ensures
        replaced_all(seq![Screen::Intro], screens).len() == 1,
{
    lemma_replacing_keeps_one_top(seq![Screen::Intro], screens);
}

/// Navigation history with the active screen on top.
pub struct Navigator {
    stack: Vec<Screen>,
}

impl View for Navigator {
    type V = Seq<Screen>;

    closed spec fn view(&self) -> Seq<Screen> {
        self.stack@
    }
}

impl Navigator {
    /// The stack holds at least one screen, so one is active.
    pub open spec fn wf(&self) -> bool {
        self@.len() >= 1
    }

    /// A navigator showing the intro screen and nothing below it.
    pub fn new() -> (nav: Navigator)
        ensures
            nav.wf(),
            nav@ == seq![Screen::Intro],
    {
        let mut stack: Vec<Screen> = Vec::new();
        stack.push(Screen::Intro);
        Navigator { stack }
    }

    /// The screen on top of the stack.
    pub fn active(&self) -> (screen: Screen)
        requires
            self.wf(),
        ensures
            screen == self@.last(),
    {
        self.stack[self.stack.len() - 1]
    }

    /// How many screens the stack holds.
    pub fn depth(&self) -> (n: usize)
        ensures
            n == self@.len(),
    {
        self.stack.len()
    }

    /// Puts `screen` in place of the active screen: the top is popped, if
    /// there is one, and `screen` is pushed.
    pub fn replace_top(&mut self, screen: Screen)
        ensures
            final(self).wf(),
            final(self)@ == replaced(old(self)@, screen),
    {
        self.stack.pop();
        self.stack.push(screen);
    }
}

} // verus!
