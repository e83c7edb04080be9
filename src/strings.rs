use vstd::prelude::*;

verus! {

/// Placeholder shown while the message is empty.
pub const COMMIT_MSG: &'static str = "type commit message..";

/// Title of the dialog's panel.
pub const COMMIT_TITLE: &'static str = "Commit";

/// Name of the command that confirms the commit.
pub const COMMIT_CMD_ENTER: &'static str = "Commit [enter]";

/// Name of the command that closes the dialog.
pub const COMMIT_CMD_CLOSE: &'static str = "Close [esc]";

} // verus!
