//! The decision logic of the nospacekey text input processor.
//!
//! Everything a host document, a timer, a named pipe or the registry can do is
//! handed in as a plain value; the library answers with the next state and the
//! action that the surrounding shell has to perform.

pub mod clause;
pub mod engine;
pub mod prediction_state;
pub mod prediction_worker;
pub mod preedit_apply;
pub mod preedit_session;
pub mod reading_edit;
pub mod reading_monitor;
pub mod receipt_outbox;
pub mod register;
pub mod render;
pub mod text;
pub mod text_service;
pub mod theme;
pub mod utf16;
