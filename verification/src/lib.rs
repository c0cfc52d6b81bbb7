//! Formatting removable block devices: the rules for a format request, the
//! state machine of a format job, and the events that report its progress.
//!
//! The library decides and performs nothing on a disk: whoever owns it asks
//! the disk service what `orchestrator` tells it to ask, and puts on the
//! event bus of `common` what the orchestrator reports. `lifecycle` states
//! what holds of every run. `utils` and `backends` hold the rules for a
//! request and the data that travels; `cli`, `config`, `style` and `gui`
//! hold what the command line and the window decide.

pub mod backends;
pub mod cli;
pub mod common;
pub mod config;
pub mod gui;
pub mod lifecycle;
pub mod orchestrator;
pub mod style;
pub mod text;
pub mod utils;
