//! MaRTIni — the verified core of a Manhattan-mobility radio network simulator:
//! grid geometry, traffic profiles, handoff bookkeeping, scenario scheduling,
//! event logging and the declarative handoff-rule language.

pub mod app_state;
pub mod config;
pub mod sim;
pub mod text;
pub mod ui;
