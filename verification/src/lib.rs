//! Core of a desktop application template: log levels and stored log
//! entries, the key-value settings store, the SQLite schema, and the
//! window-state decisions of the shell.

pub mod level;
pub mod logging;
pub mod sql;
pub mod clock;
pub mod db;
pub mod settings;
pub mod window;
