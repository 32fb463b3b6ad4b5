//! Session state of a terminal control panel for a host's service manager:
//! unit filtering and selection, the log viewport with live tailing, the
//! pickers, and the confirm/execute/settle cycle of unit actions.

pub mod app;
pub mod chrome;
pub mod clock;
pub mod commands;
pub mod facts;
pub mod input;
pub mod inventory;
pub mod journal;
pub mod laws;
pub mod logline;
pub mod palette;
pub mod parse;
pub mod properties;
pub mod scan;
pub mod service;
pub mod text;
pub mod timefmt;
pub mod viewport;
