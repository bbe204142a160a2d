//! Battery monitoring library.
//!
//! Reads of the power-supply attribute tree are modelled as plain data
//! (`AttrRead`, `Telemetry`, `Device`) handed in by the caller, so that
//! device classification, discovery, polling, remaining-time estimation
//! and the daemon's notification algorithm are all verified logic.
pub mod battery;
pub mod cli;
pub mod daemon;
pub mod device;
pub mod error;
pub mod poll;
pub mod status;
pub mod text;

pub use battery::Battery;
pub use battery::BatteryState;
pub use status::ChargingStatus;
