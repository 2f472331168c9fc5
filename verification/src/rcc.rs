//! Reset and clock control: the clock tree and the clock multiplexers.

pub mod clock;
pub mod mux;
