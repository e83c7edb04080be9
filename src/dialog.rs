use vstd::prelude::*;

use crate::event::{Event, KeyCode};
use crate::model::{command_list, hidden, shown, step, DialogState};
use crate::strings::{COMMIT_CMD_CLOSE, COMMIT_CMD_ENTER, COMMIT_MSG, COMMIT_TITLE};

verus! {

/// A command the dialog offers, for a status line or a help overlay.
#[derive(Clone, Debug)]
pub struct CommandInfo {
    pub name: String,
    pub enabled: bool,
}

/// Whether the commands `v` are, in order, the (name, enabled) pairs `l`.
pub open spec fn commands_are(v: Seq<CommandInfo>, l: Seq<(Seq<char>, bool)>) -> bool {
    &&& v.len() == l.len()
    &&& forall|i: int| 0 <= i < v.len() ==> (#[trigger] v[i]).name@ == l[i].0 && v[i].enabled == l[i].1
}

/// How the text of the panel is styled.
#[derive(Clone, Copy, Debug, PartialEq, Eq, Structural)]
pub enum TextStyle {
    /// The terminal's default style, for the message itself.
    Plain,
    /// A muted colour, for the placeholder.
    Muted,
}

/// Width of the panel, in percent of the screen's width.
pub const PANEL_WIDTH_PERCENT: u16 = 60;

/// Height of the panel, in percent of the screen's height.
pub const PANEL_HEIGHT_PERCENT: u16 = 20;

/// What the dialog asks to have drawn: a bordered panel with a title,
/// centred on the screen, whose background is cleared before the text is
/// drawn into it.
#[derive(Clone, Debug)]
pub struct Overlay {
    pub title: String,
    pub text: String,
    pub style: TextStyle,
    pub width_percent: u16,
    pub height_percent: u16,
}

/// The panel that a shown dialog in state `s` asks for: its title, its
/// size, and the message, or the muted placeholder while the message is
/// empty.
pub open spec fn panel_shows(o: Overlay, s: DialogState) -> bool {
    &&& o.title@ == COMMIT_TITLE@
    &&& o.width_percent == PANEL_WIDTH_PERCENT
    &&& o.height_percent == PANEL_HEIGHT_PERCENT
    &&& if s.message.len() > 0 {
        o.text@ == s.message && o.style == TextStyle::Plain
    } else {
        o.text@ == COMMIT_MSG@ && o.style == TextStyle::Muted
    }
}

/// What came of one input event.
#[derive(Clone, Debug)]
pub struct EventOutcome {
    /// Whether the dialog consumed the event; if not, the host may pass it on.
    pub consumed: bool,
    /// The message to hand to the commit operation, exactly once.
    pub commit: Option<String>,
}

/// The view of an optional string.
pub open spec fn opt_view(o: Option<String>) -> Option<Seq<char>> {
    match o {
        Some(s) => Some(s@),
        None => None,
    }
}

/// The commit-message dialog. It starts hidden with an empty message.
pub struct CommitComponent {
    msg: String,
    visible: bool,
}

impl View for CommitComponent {
    type V = DialogState;

    closed spec fn view(&self) -> DialogState {
        DialogState { message: self.msg@, visible: self.visible }
    }
}

impl Default for CommitComponent {
    fn default() -> (r: Self)
        ensures
            r@.message.len() == 0,
            !r@.visible,
    {
        CommitComponent::new()
    }
}

impl CommitComponent {
    /// A hidden dialog with an empty message.
    pub fn new() -> (r: Self)
        ensures
            r@.message.len() == 0,
            !r@.visible,
    {
        CommitComponent { msg: String::new(), visible: false }
    }

    /// Whether the dialog is shown and owns the input focus.
    pub fn is_visible(&self) -> (r: bool)
        ensures
            r == self@.visible,
    {
        self.visible
    }

    /// The draft message.
    pub fn message(&self) -> (r: &str)
        ensures
            r@ == self@.message,
    {
        self.msg.as_str()
    }

    /// Shows the dialog. The draft message is kept.
    pub fn show(&mut self)
        ensures
            final(self)@ == shown(old(self)@),
    {
        self.visible = true;
    }

    /// Hides the dialog. The draft message is kept.
    pub fn close(&mut self)
        ensures
            final(self)@ == hidden(old(self)@),
    {
        self.visible = false;
    }

    /// Whether the message may be committed: it is not empty.
    pub fn can_commit(&self) -> (r: bool)
        ensures
            r == (self@.message.len() > 0),
    {
        !self.msg.as_str().is_empty()
    }

    /// Takes the message for the commit operation, clears it and hides the
    /// dialog.
    fn commit(&mut self) -> (r: String)
        ensures
            r@ == old(self)@.message,
            final(self)@ == (DialogState { message: Seq::empty(), visible: false }),
    {
        let m = self.msg.clone();
        self.msg = String::new();
        self.close();
        m
    }

    /// Handles one input event. While the dialog is hidden no event is
    /// consumed. While it is shown: `Esc` hides it; a character is appended
    /// to the message; `Enter` on a non-empty message hands the message to
    /// the commit operation, clears it and hides the dialog; `Backspace` on
    /// a non-empty message removes its last character. Everything else is
    /// not consumed and changes nothing.
    pub fn event(&mut self, ev: Event) -> (r: EventOutcome)
        ensures
            final(self)@ == step(old(self)@, ev).state,
            r.consumed == step(old(self)@, ev).consumed,
            opt_view(r.commit) == step(old(self)@, ev).commit,
    {
        let ignored = EventOutcome { consumed: false, commit: None };
        if !self.visible {
            return ignored;
        }
        match ev {
            Event::Key(KeyCode::Esc) => {
                self.close();
                EventOutcome { consumed: true, commit: None }
            },
            Event::Key(KeyCode::Char(c)) => {
                self.msg.push(c);
                EventOutcome { consumed: true, commit: None }
            },
            Event::Key(KeyCode::Enter) => {
                if self.can_commit() {
                    let m = self.commit();
                    EventOutcome { consumed: true, commit: Some(m) }
                } else {
                    ignored
                }
            },
            Event::Key(KeyCode::Backspace) => {
                if self.can_commit() {
                    let _ = self.msg.pop();
                    EventOutcome { consumed: true, commit: None }
                } else {
                    ignored
                }
            },
            _ => ignored,
        }
    }

    /// The commands offered: none while hidden; while shown, confirming the
    /// commit (enabled exactly when the message is not empty) and closing
    /// the dialog (always enabled).
    pub fn commands(&self) -> (r: Vec<CommandInfo>)
        ensures
            commands_are(r@, command_list(self@)),
    {
        if !self.visible {
            Vec::new()
        } else {
            let v = vec![
                CommandInfo { name: COMMIT_CMD_ENTER.to_owned(), enabled: self.can_commit() },
                CommandInfo { name: COMMIT_CMD_CLOSE.to_owned(), enabled: true },
            ];
            v
        }
    }

    /// What to draw: nothing while hidden; while shown, a panel titled
    /// with the dialog's title that holds the message, or a muted
    /// placeholder while the message is empty.
    pub fn overlay(&self) -> (r: Option<Overlay>)
        ensures
            !self@.visible ==> r is None,
            self@.visible ==> (r matches Some(o) && panel_shows(o, self@)),
    {
        if !self.visible {
            return None;
        }
        let (text, style) = if self.can_commit() {
            (self.msg.clone(), TextStyle::Plain)
        } else {
            (COMMIT_MSG.to_owned(), TextStyle::Muted)
        };
        Some(
            Overlay {
                title: COMMIT_TITLE.to_owned(),
                text,
                style,
                width_percent: PANEL_WIDTH_PERCENT,
                height_percent: PANEL_HEIGHT_PERCENT,
            },
        )
    }
}

} // verus!
