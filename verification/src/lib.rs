//! A safe, ownership-aware model of a depth/color camera runtime and the
//! capture-and-record control loop that drives it.
//!
//! The native runtime is reached only at the edge of the process; this crate
//! holds the logic: status-code classification, stream configuration,
//! command-line value parsing, the two-call buffer probe protocol, the
//! reference-counting discipline for native handles, capability-table
//! resolution, the recording sink's phase machine, and the recording
//! controller itself.

pub mod camera;
pub mod capability;
pub mod capture;
pub mod device;
pub mod enums;
pub mod error;
pub mod factory;
pub mod handle;
pub mod imu;
pub mod param;
pub mod record;
pub mod recorder;
pub mod runtime;
pub mod structs;
pub mod utility;
