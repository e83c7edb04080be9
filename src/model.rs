use vstd::prelude::*;

use crate::event::{Event, KeyCode};
use crate::strings::{COMMIT_CMD_CLOSE, COMMIT_CMD_ENTER};

verus! {

/// The abstract state of the dialog: the draft message and whether the
/// dialog is shown.
pub struct DialogState {
    pub message: Seq<char>,
    pub visible: bool,
}

/// What one input event does: the state after it, whether the event was
/// consumed, and the message handed to the commit operation, if any.
pub struct Transition {
    pub state: DialogState,
    pub consumed: bool,
    pub commit: Option<Seq<char>>,
}

/// The state after `show()`.
pub open spec fn shown(s: DialogState) -> DialogState {
    DialogState { message: s.message, visible: true }
}

/// The state after `close()`.
pub open spec fn hidden(s: DialogState) -> DialogState {
    DialogState { message: s.message, visible: false }
}

/// An event that changes nothing and is not consumed.
pub open spec fn ignored(s: DialogState) -> Transition {
    Transition { state: s, consumed: false, commit: None }
}

/// An event that is consumed and hands nothing to the commit operation.
pub open spec fn edited(s: DialogState) -> Transition {
    Transition { state: s, consumed: true, commit: None }
}

/// The effect of one input event on the dialog.
pub open spec fn step(s: DialogState, ev: Event) -> Transition {
    if !s.visible {
        ignored(s)
    } else {
        match ev {
            Event::Key(KeyCode::Esc) => edited(hidden(s)),
            Event::Key(KeyCode::Char(c)) => edited(
                DialogState { message: s.message.push(c), visible: true },
            ),
            Event::Key(KeyCode::Enter) => if s.message.len() > 0 {
                Transition {
                    state: DialogState { message: Seq::empty(), visible: false },
                    consumed: true,
                    commit: Some(s.message),
                }
            } else {
                ignored(s)
            },
            Event::Key(KeyCode::Backspace) => if s.message.len() > 0 {
                edited(DialogState { message: s.message.drop_last(), visible: true })
            } else {
                ignored(s)
            },
            _ => ignored(s),
        }
    }
}

/// The state after handling the events one after another.
pub open spec fn run(s: DialogState, evs: Seq<Event>) -> DialogState
    decreases evs.len(),
{
    if evs.len() == 0 {
        s
    } else {
        run(step(s, evs[0]).state, evs.drop_first())
    }
}

/// The key press that types one character.
pub open spec fn char_key(c: char) -> Event {
    Event::Key(KeyCode::Char(c))
}

/// One key press for each character, in order.
pub open spec fn typed(cs: Seq<char>) -> Seq<Event> {
    Seq::new(cs.len(), |i: int| char_key(cs[i]))
}

/// `n` presses of the backspace key.
pub open spec fn backspaces(n: nat) -> Seq<Event> {
    Seq::new(n, |i: int| Event::Key(KeyCode::Backspace))
}

/// The commands offered in a state, as (name, enabled) pairs.
pub open spec fn command_list(s: DialogState) -> Seq<(Seq<char>, bool)> {
    if s.visible {
        seq![(COMMIT_CMD_ENTER@, s.message.len() > 0), (COMMIT_CMD_CLOSE@, true)]
    } else {
        Seq::empty()
    }
}

} // verus!
