//! Configuration module — grid, radio technology, traffic profile and terrain kinds.

pub mod grid;
pub mod radio;
pub mod terrain;

pub use grid::GridConfig;
pub use radio::{RadioTechnology, TrafficProfile};
pub use terrain::TerrainType;
