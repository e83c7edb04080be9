use vstd::prelude::*;

use crate::event::{Event, KeyCode};
use crate::model::{
    backspaces, char_key, command_list, edited, hidden, ignored, run, shown, step, typed, DialogState,
    Transition,
};
use crate::strings::{COMMIT_CMD_CLOSE, COMMIT_CMD_ENTER};

verus! {

/// A hidden dialog consumes no event and no event changes it.
pub proof fn lemma_hidden_is_inert(s: DialogState, ev: Event)
    requires
        !s.visible,
    ensures
        step(s, ev) == ignored(s),
{
}

/// Typing characters one key press at a time appends them to the message.
pub proof fn lemma_typing_appends(s: DialogState, cs: Seq<char>)
    requires
        s.visible,
    ensures
        run(s, typed(cs)) == (DialogState { message: s.message + cs, visible: true }),
    decreases cs.len(),
{
    if cs.len() > 0 {
        assert(typed(cs).drop_first() =~= typed(cs.drop_first()));
        let next = step(s, char_key(cs[0])).state;
        lemma_typing_appends(next, cs.drop_first());
        assert(next.message + cs.drop_first() =~= s.message + cs);
    } else {
        assert(s.message + cs =~= s.message);
    }
}

/// Each backspace removes one character from the end of the message.
pub proof fn lemma_backspaces_erase(s: DialogState, n: nat)
    requires
        s.visible,
        n <= s.message.len(),
    ensures
        run(s, backspaces(n)) == (DialogState {
            message: s.message.subrange(0, s.message.len() - n),
            visible: true,
        }),
    decreases n,
{
    if n > 0 {
        let next = step(s, backspaces(n)[0]).state;
        assert(backspaces(n).drop_first() =~= backspaces((n - 1) as nat));
        lemma_backspaces_erase(next, (n - 1) as nat);
        assert(next.message.subrange(0, next.message.len() - (n - 1)) =~= s.message.subrange(
            0,
            s.message.len() - n,
        ));
    } else {
        assert(s.message.subrange(0, s.message.len() as int) =~= s.message);
    }
}

/// A backspace on an empty message is not consumed and changes nothing.
pub proof fn lemma_backspace_on_empty(s: DialogState)
    requires
        s.message.len() == 0,
    ensures
        step(s, Event::Key(KeyCode::Backspace)) == ignored(s),
{
}

/// Typing characters and then pressing backspace as many times gives back
/// the state from before the typing.
pub proof fn lemma_append_remove_symmetry(s: DialogState, cs: Seq<char>)
    requires
        s.visible,
    ensures
        run(run(s, typed(cs)), backspaces(cs.len())) == s,
{
    lemma_typing_appends(s, cs);
    let t = run(s, typed(cs));
    lemma_backspaces_erase(t, cs.len());
    assert(t.message.subrange(0, t.message.len() - cs.len()) =~= s.message);
}

/// `Enter` on an empty message commits nothing and changes nothing; on a
/// non-empty message of a shown dialog it hands the whole message to the
/// commit operation once, clears the message and hides the dialog.
pub proof fn lemma_commit_gating(s: DialogState)
    ensures
        s.message.len() == 0 ==> step(s, Event::Key(KeyCode::Enter)) == ignored(s),
        s.visible && s.message.len() > 0 ==> step(s, Event::Key(KeyCode::Enter)) == (Transition {
            state: DialogState { message: Seq::empty(), visible: false },
            consumed: true,
            commit: Some(s.message),
        }),
{
}

/// `Esc` on a shown dialog hides it, is consumed, and keeps the draft.
pub proof fn lemma_cancel(s: DialogState)
    requires
        s.visible,
    ensures
        step(s, Event::Key(KeyCode::Esc)) == edited(hidden(s)),
        !step(s, Event::Key(KeyCode::Esc)).state.visible,
{
}

/// The command list is empty exactly when the dialog is hidden; while it is
/// shown, the first command is enabled exactly when the message is not
/// empty.
pub proof fn lemma_command_list_consistent(s: DialogState)
    ensures
        command_list(s).len() == 0 <==> !s.visible,
        s.visible ==> command_list(s)[0] == (COMMIT_CMD_ENTER@, s.message.len() > 0),
        s.visible ==> command_list(s)[1] == (COMMIT_CMD_CLOSE@, true),
{
}

/// Showing twice is showing once; closing twice is closing once.
pub proof fn lemma_show_close_idempotent(s: DialogState)
    ensures
        shown(shown(s)) == shown(s),
        hidden(hidden(s)) == hidden(s),
{
}

} // verus!
