//! Verified core of a system-metrics collector: the arithmetic, parsing and
//! aggregation rules behind memory, disk, network, power-supply and GPU
//! readings, with the operating-system and vendor queries behind small
//! trusted wrappers.

pub mod decimal;
pub mod fraction;
pub mod battery;
pub mod memory;
pub mod disks;
pub mod network;
pub mod gpu;
pub mod thermal;
pub mod window_options;
pub mod monitor;
