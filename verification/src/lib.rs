//! Status viewer for a single Minecraft server: the decisions and the words
//! behind its one-shot commands, its watch loop and its terminal dashboard.
//!
//! Everything here works on plain values. Fetching, reading keys and drawing
//! are left to the caller, which performs the actions that the loops in
//! [`dashboard`] and [`watch`] ask for and reports back what happened.
//!
//! - [`status`]: what the two status sources report.
//! - [`command`]: the one-shot commands and the lines they print.
//! - [`mode`]: the persisted preference between command line and dashboard.
//! - [`watch`]: running a command once, or again and again.
//! - [`dashboard`]: the dashboard loop as a state machine.
//! - [`history`]: the bounded history of player counts.
//! - [`frame`]: what one frame of the dashboard shows.
//! - [`input`]: key strokes.
//! - [`style`]: styled text and its painting for a terminal.
//! - [`text`]: numbers and concatenation.
//! - [`upkeep`]: the words of `update` and `ping`.

pub mod command;
pub mod dashboard;
pub mod frame;
pub mod history;
pub mod input;
pub mod mode;
pub mod status;
pub mod style;
pub mod text;
pub mod upkeep;
pub mod watch;
