//! Tails web-server log files and turns every new line into a counter
//! increment. The crate holds the decisions of that engine: how a path
//! pattern is read and matched, how bursts of filesystem events are folded
//! into one signal, how a tailer moves between its states, and how counters
//! are kept per file label.

pub mod access_log_parser;
pub mod coalesce;
pub mod fs_watcher;
pub mod log_file_pattern;
pub mod log_file_watcher;
pub mod metrics;
pub mod startup;
pub mod tailer;
pub mod text;
pub mod web;
