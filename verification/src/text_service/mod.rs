//! The text service: the state behind the host's callbacks, and what each callback does to it.

pub mod behavior;
pub mod composition;
pub mod conversion;
pub mod engine_link;
pub mod engine_ops;
pub mod engine_start;
pub mod events;
pub mod feedback;
pub mod layout;
pub mod lifecycle;
pub mod llm;
pub mod logging;
pub mod mode;
pub mod owners;
pub mod prediction_ui;
pub mod preedit;
pub mod reconvert;
pub mod timer;
