//! The context that the steps share: the screen stack, the options that the
//! active screen offers, and the notice that lies over it.

use crate::error::{
    failure_of, lemma_occurs_in_surrounded, lemma_reported_failure_hints_at_privilege, occurs_in,
    Error, ErrorView, PRIVILEGE_HINT,
};
use crate::gateway::FailureReason;
use crate::navigator::{offers_list, replaced, Navigator, Screen};
use crate::text::texts;
use vstd::prelude::*;

verus! {

/// The state of the wizard. The notice is an overlay: it is no screen and
/// the stack knows nothing of it.
pub struct Wizard {
    nav: Navigator,
    options: Vec<String>,
    notice: Option<String>,
}

/// The state of the wizard, as sequences and text.
pub struct WizardView {
    pub stack: Seq<Screen>,
    pub options: Seq<Seq<char>>,
    pub notice: Option<Seq<char>>,
}

impl WizardView {
    /// A state that the wizard can be in: a screen is active, and a screen
    /// that offers a list has at least one option in it.
    pub open spec fn wf(self) -> bool {
        &&& self.stack.len() >= 1
        &&& offers_list(self.stack.last()) ==> self.options.len() > 0
    }

    /// This state with `screen` in place of the active screen, which offers
    /// no options.
    pub open spec fn moved_to(self, screen: Screen) -> WizardView {
        WizardView { stack: replaced(self.stack, screen), options: Seq::empty(), notice: self.notice }
    }

    /// This state with `text` as its notice.
    pub open spec fn noticing(self, text: Seq<char>) -> WizardView {
        WizardView { stack: self.stack, options: self.options, notice: Some(text) }
    }

    /// The state after a step was entered with what its provider listed.
    /// A list with at least one option makes `screen` the active screen,
    /// offering the list. An empty list, or an error, puts the live
    /// environment menu in place of the active screen, under a notice:
    /// `failed` followed by `nothing`, or by the error's message.
    pub open spec fn entered(
        self,
        screen: Screen,
        listed: Result<Seq<Seq<char>>, ErrorView>,
        failed: Seq<char>,
        nothing: Seq<char>,
    ) -> WizardView {
        match listed {
            Ok(options) => if options.len() > 0 {
                WizardView { stack: replaced(self.stack, screen), options, notice: self.notice }
            } else {
                self.moved_to(Screen::LiveEnvironmentMenu).noticing(failed + nothing)
            },
            Err(error) => self.moved_to(Screen::LiveEnvironmentMenu).noticing(
                failed + error.message,
            ),
        }
    }

    /// The state after an applier gave its result. Success leads back to
    /// the live environment menu. An error leaves the stack and the options
    /// as they are, under a notice: `failed` followed by the error's
    /// message.
    pub open spec fn settled(self, applied: Result<(), ErrorView>, failed: Seq<char>) -> WizardView {
        match applied {
            Ok(_) => self.moved_to(Screen::LiveEnvironmentMenu),
            Err(error) => self.noticing(failed + error.message),
        }
    }
}

/// No step empties the stack or lets it grow, and none shows an empty
/// list: moving to a screen without a list, entering a step and taking in
/// an applier's result each lead from a state that the wizard can be in to
/// another, with the stack at the depth it had.
pub proof fn lemma_steps_keep_the_wizard_sound(
    wizard: WizardView,
    screen: Screen,
    plain: Screen,
    listed: Result<Seq<Seq<char>>, ErrorView>,
    applied: Result<(), ErrorView>,
    failed: Seq<char>,
    nothing: Seq<char>,
)
    requires
        wizard.wf(),
        !offers_list(plain),
    ensures
        wizard.moved_to(plain).wf(),
        wizard.entered(screen, listed, failed, nothing).wf(),
        wizard.settled(applied, failed).wf(),
        wizard.moved_to(plain).stack.len() == wizard.stack.len(),
        wizard.entered(screen, listed, failed, nothing).stack.len() == wizard.stack.len(),
        wizard.settled(applied, failed).stack.len() == wizard.stack.len(),
{
}

/// A step that cannot list its options never becomes the active screen:
/// with an error, or with nothing to choose from, the live environment menu
/// is active and a notice is up.
pub proof fn lemma_no_options_falls_back(
    wizard: WizardView,
    screen: Screen,
    listed: Result<Seq<Seq<char>>, ErrorView>,
    failed: Seq<char>,
    nothing: Seq<char>,
)
    requires
        listed is Err || listed->Ok_0.len() == 0,
    ensures
        wizard.entered(screen, listed, failed, nothing).stack.last()
            == Screen::LiveEnvironmentMenu,
        wizard.entered(screen, listed, failed, nothing).notice is Some,
{
}

/// When the tool reports failure, the screen and its options stay as they
/// are and the notice holds the privilege hint.
pub proof fn lemma_reported_failure_is_noticed(
    wizard: WizardView,
    tool: Seq<char>,
    code: Option<i32>,
    failed: Seq<char>,
)
    ensures
        ({
            let error = failure_of(tool, FailureReason::NonZeroExit(code));
            let after = wizard.settled(Err(error), failed);
            &&& after.stack == wizard.stack
            &&& after.options == wizard.options
            &&& after.notice matches Some(text) && occurs_in(PRIVILEGE_HINT@, text)
        }),
{
    let message = failure_of(tool, FailureReason::NonZeroExit(code)).message;
    lemma_reported_failure_hints_at_privilege(tool, code);
    lemma_occurs_in_surrounded(PRIVILEGE_HINT@, failed, message, Seq::empty());
    assert(failed + message + Seq::<char>::empty() == failed + message);
}

impl View for Wizard {
    type V = WizardView;

    closed spec fn view(&self) -> WizardView {
        WizardView {
            stack: self.nav@,
            options: texts(self.options@),
            notice: match self.notice {
                Some(text) => Some(text@),
                None => None,
            },
        }
    }
}

impl Wizard {
    /// The wizard is in a state that it can be in.
    pub open spec fn wf(&self) -> bool {
        self@.wf()
    }

    /// A wizard at its start: the intro screen alone, no options, no notice.
    pub fn new() -> (wizard: Wizard)
        ensures
            wizard.wf(),
            wizard@ == (WizardView {
                stack: seq![Screen::Intro],
                options: Seq::empty(),
                notice: None,
            }),
    {
        let options: Vec<String> = Vec::new();
        assert(texts(options@) == Seq::<Seq<char>>::empty());
        Wizard { nav: Navigator::new(), options, notice: None }
    }

    /// The screen that is shown.
    pub fn active(&self) -> (screen: Screen)
        requires
            self@.stack.len() >= 1,
        ensures
            screen == self@.stack.last(),
    {
        self.nav.active()
    }

    /// How many screens the stack holds.
    pub fn depth(&self) -> (n: usize)
        ensures
            n == self@.stack.len(),
    {
        self.nav.depth()
    }

    /// The options that the active screen offers.
    pub fn options(&self) -> (options: &Vec<String>)
        ensures
            texts(options@) == self@.options,
    {
        &self.options
    }

    /// The notice that lies over the active screen, if there is one.
    pub fn notice(&self) -> (notice: Option<&str>)
        ensures
            match notice {
                Some(text) => self@.notice == Some(text@),
                None => self@.notice is None,
            },
    {
        match &self.notice {
            Some(text) => Some(text.as_str()),
            None => None,
        }
    }

    /// Takes the notice away. The stack and the options stay.
    pub fn dismiss(&mut self)
        ensures
            old(self).wf() ==> final(self).wf(),
            final(self)@ == (WizardView { notice: None, ..old(self)@ }),
    {
        self.notice = None;
    }

    /// Puts `screen`, which offers no list, in place of the active screen.
    pub(crate) fn move_to(&mut self, screen: Screen)
        requires
            !offers_list(screen),
        ensures
            final(self).wf(),
            final(self)@ == old(self)@.moved_to(screen),
    {
        self.nav.replace_top(screen);
        self.options = Vec::new();
        assert(texts(self.options@) == Seq::<Seq<char>>::empty());
    }

    /// Enters the step that `screen` shows, with what its provider listed.
    pub(crate) fn enter(
        &mut self,
        screen: Screen,
        listed: Result<Vec<String>, Error>,
        failed: &str,
        nothing: &str,
    )
        ensures
            final(self).wf(),
            final(self)@ == old(self)@.entered(
                screen,
                crate::error::listed_view(listed),
                failed@,
                nothing@,
            ),
    {
        match listed {
            Ok(options) => {
                if options.len() > 0 {
                    self.nav.replace_top(screen);
                    self.options = options;
                } else {
                    self.move_to(Screen::LiveEnvironmentMenu);
                    let mut text = String::from_str(failed);
                    text.append(nothing);
                    self.notice = Some(text);
                }
            },
            Err(error) => {
                self.move_to(Screen::LiveEnvironmentMenu);
                let mut text = String::from_str(failed);
                text.append(error.message.as_str());
                self.notice = Some(text);
            },
        }
    }

    /// Takes in the result of an applier.
    pub(crate) fn settle(&mut self, applied: Result<(), Error>, failed: &str)
        ensures
            old(self).wf() ==> final(self).wf(),
            final(self)@ == old(self)@.settled(crate::error::applied_view(applied), failed@),
    {
        match applied {
            Ok(_) => {
                self.move_to(Screen::LiveEnvironmentMenu);
            },
            Err(error) => {
                let mut text = String::from_str(failed);
                text.append(error.message.as_str());
                self.notice = Some(text);
            },
        }
    }
}

} // verus!
