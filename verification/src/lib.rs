//! Hardware-abstraction logic for the SF32LB52x dual-core SoC family.
//!
//! Every module works on plain values: register words, byte buffers and
//! small state records. Reading and writing the memory-mapped hardware is
//! left to the caller, which hands the observed words in and carries the
//! computed words out.

pub mod adc;
pub mod aud_pll;
pub mod audprc;
pub mod bluetooth;
pub mod carray;
pub mod dma;
pub mod efuse;
pub mod endian;
pub mod i2s;
pub mod lcdc;
pub mod mailbox;
pub mod patch;
pub mod pdm;
pub mod ram;
pub mod rcc;
pub mod regs;
pub mod syscfg;
pub mod time;
pub mod utils;
