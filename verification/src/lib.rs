//! The navigation and command-handling core of a guided installer.
//!
//! The wizard walks an operator through a few configuration steps. What the
//! operator does and what the external tools report comes in as plain
//! values; what is to be shown and run goes out the same way. Nothing here
//! touches a terminal, a file or a process.

pub mod appliers;
pub mod disks;
pub mod error;
pub mod gateway;
pub mod keyboard;
pub mod navigator;
pub mod providers;
pub mod screens;
pub mod text;
pub mod timezone;
pub mod wizard;
