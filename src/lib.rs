//! Control and monitoring logic for a software-defined-radio receiver: the
//! CAT serial protocol, the telemetry channel, frequency tuning, and device
//! selection rules.
pub mod cat;
pub mod telemetry;
pub mod tuning;
pub mod audio;
pub mod serial;
pub mod receiver;
