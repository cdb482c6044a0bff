//! Decision logic for launching a command in a fresh terminal window:
//! configuration, command classification, window geometry, the pause
//! decision, the command lines handed to each terminal, and the rules of
//! the backup that follows a run.

pub mod backup;
pub mod classify;
pub mod config;
pub mod geometry;
pub mod launch;
pub mod notify;
pub mod paths;
pub mod process;
pub mod session;
pub mod text;
