//! Block-device-to-file backups: configuration validation, resolution of
//! devices by stable identifiers, the lifecycle of a destination filesystem
//! and the per-device retention engine, each stated and proved with Verus.

pub mod error;
pub mod config;
pub mod paths;
pub mod block_device;
pub mod naming;
pub mod filesystem;
pub mod device;
pub mod command;
pub mod backup;
pub mod backups;
pub mod back_up;
pub mod laws;
