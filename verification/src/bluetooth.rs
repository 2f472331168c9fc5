//! Start-up configuration of the Bluetooth controller on the co-processor.

pub mod config;
pub mod rom_config;

pub use config::{
    ActConfig, BleConfig, BleInitConfig, ControllerConfig, EmConfig, PatchData, RomConfig,
};
