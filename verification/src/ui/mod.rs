//! The decisions behind the panels: event log filtering and styling, and replay
//! playback stepping. Drawing is done outside this library.

pub mod event_log;
pub mod replay_panel;

pub use event_log::EventLogPanel;
