//! Status-bar frontend for a software-update check: turns a persisted
//! snapshot of the last check into the text that a status bar shows.

pub mod formatting;
pub mod json;
pub mod state;
