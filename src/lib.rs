//! A modal commit-message dialog: visibility, a text buffer edited by key
//! events, the commands it offers, and what it asks to have drawn.

pub mod dialog;
pub mod event;
pub mod laws;
pub mod model;
pub mod strings;
mod text;
