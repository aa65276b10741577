use vstd::prelude::*;


use crate::access::AccessStatus;

verus! {

/// One step of a command for the door controller.
pub enum Action {
    /// Unlock the door for the given number of seconds.
    OpenFor(u32),
    /// Show the text for the given number of seconds.
    DisplayTextFor(String, u32),
    /// Play the tone with the given id.
    PlaySound(u32),
}

/// What an action means, with its text as characters.
pub enum ActionView {
    OpenFor(u32),
    DisplayTextFor(Seq<char>, u32),
    PlaySound(u32),
}

impl View for Action {
    type V = ActionView;

    open spec fn view(&self) -> ActionView {
        match self {
            Action::OpenFor(s) => ActionView::OpenFor(*s),
            Action::DisplayTextFor(t, s) => ActionView::DisplayTextFor(t@, *s),
            Action::PlaySound(id) => ActionView::PlaySound(*id),
        }
    }
}

/// An ordered sequence of actions, sent to the controller as one line.
pub struct Command {
    actions: Vec<Action>,
}

impl View for Command {
    type V = Seq<ActionView>;

    closed spec fn view(&self) -> Seq<ActionView> {
        self.actions@.map_values(|a: Action| a@)
    }
}

impl Command {
    /// A command with no actions.
    pub fn new() -> (r: Command)
        ensures
            r@ == Seq::<ActionView>::empty(),
    {
        let r = Command { actions: Vec::new() };
        proof {
            assert(r@ =~= Seq::<ActionView>::empty());
        }
        r
    }

    fn append_action(self, a: Action) -> (r: Command)
        ensures
            r@ == self@.push(a@),
    {
        let mut actions = self.actions;
        actions.push(a);
        let r = Command { actions };
        proof {
            assert(r@ =~= self@.push(a@));
        }
        r
    }

    /// Appends an unlock of `seconds` seconds.
    pub fn open_for(self, seconds: u32) -> (r: Command)
        ensures
            r@ == self@.push(ActionView::OpenFor(seconds)),
    {
        self.append_action(Action::OpenFor(seconds))
    }

    /// Appends showing `text` for `seconds` seconds.
    pub fn display_text_for(self, text: String, seconds: u32) -> (r: Command)
        ensures
            r@ == self@.push(ActionView::DisplayTextFor(text@, seconds)),
    {
        self.append_action(Action::DisplayTextFor(text, seconds))
    }

    /// Appends playing the tone `id`.
    pub fn play_sound(self, id: u32) -> (r: Command)
        ensures
            r@ == self@.push(ActionView::PlaySound(id)),
    {
        self.append_action(Action::PlaySound(id))
    }

    /// The actions, in the order in which they were added.
    pub fn actions(&self) -> (r: &[Action])
        ensures
            r@.map_values(|a: Action| a@) == self@,
    {
        self.actions.as_slice()
    }

    /// The actions, in the order in which they were added.
    pub fn into_actions(self) -> (r: Vec<Action>)
        ensures
            r@.map_values(|a: Action| a@) == self@,
    {
        self.actions
    }
}

/// Seconds for which the door stays open, and feedback text stays shown.
pub const FEEDBACK_SECONDS: u32 = 10;

/// Text shown when access is granted.
pub const GRANTED_TEXT: &'static str = "Wejdz";

/// Text shown when access is denied.
pub const DENIED_TEXT: &'static str = "Odmowa dostepu";

/// Tone played when access is granted.
pub const GRANTED_SOUND: u32 = 1;

/// Tone played when access is denied.
pub const DENIED_SOUND: u32 = 2;

/// What the controller is told to do on each outcome of a decision: when
/// access is granted the door opens, a text shows and a tone plays; when it is
/// denied only a text and a tone follow.
pub open spec fn feedback_actions(status: AccessStatus) -> Seq<ActionView> {
    match status {
        AccessStatus::Granted => seq![
            ActionView::OpenFor(FEEDBACK_SECONDS),
            ActionView::DisplayTextFor(GRANTED_TEXT@, FEEDBACK_SECONDS),
            ActionView::PlaySound(GRANTED_SOUND),
        ],
        AccessStatus::Denied => seq![
            ActionView::DisplayTextFor(DENIED_TEXT@, FEEDBACK_SECONDS),
            ActionView::PlaySound(DENIED_SOUND),
        ],
    }
}

/// The command that the controller receives after a verdict on a scanned code.
pub fn feedback_command(status: AccessStatus) -> (r: Command)
    ensures
        r@ == feedback_actions(status),
{
    match status {
        AccessStatus::Granted => {
            let r = Command::new().open_for(FEEDBACK_SECONDS).display_text_for(
                String::from_str(GRANTED_TEXT),
                FEEDBACK_SECONDS,
            ).play_sound(GRANTED_SOUND);
            proof {
                assert(r@ =~= feedback_actions(status));
            }
            r
        },
        AccessStatus::Denied => {
            let r = Command::new().display_text_for(
                String::from_str(DENIED_TEXT),
                FEEDBACK_SECONDS,
            ).play_sound(DENIED_SOUND);
            proof {
                assert(r@ =~= feedback_actions(status));
            }
            r
        },
    }
}

} // verus!
