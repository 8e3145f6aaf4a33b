//! Battery telemetry for power-supply devices: typed decoding of loosely
//! typed wire values, the per-device property record, the keyed store that
//! merges full reads with partial change notifications, and the decisions of
//! the aggregator that publishes a snapshot after every change.

pub mod controller;
pub mod display;
pub mod fetch;
pub mod module;
pub mod properties;
pub mod state;
pub mod store;
pub mod wire;
