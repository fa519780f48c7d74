//! The persona's long-lived faculties: its key-value memory, the
//! channel-setting commands, and the error taxonomy of event handling.

pub mod err;
pub mod state;
pub mod tools;
