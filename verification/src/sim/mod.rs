//! Simulation module — events, bounded histories, handoff bookkeeping, protocols and scenarios.

pub mod ab_test;
pub mod base;
pub mod engine;
pub mod history;
pub mod mobile;
pub mod protocol;
pub mod replay;
pub mod protocol_declarative;
pub mod protocol_native;
pub mod protocol_wasm;
pub mod scenario;
pub mod snapshot;

pub use mobile::Direction;
pub use protocol::HandoffDecision;
pub use scenario::Scenario;
pub use snapshot::{SimEvent, SimEventType};
