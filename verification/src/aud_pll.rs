//! The audio PLL: its frequencies, its register sequences and the
//! calibration of its oscillator.

pub mod fields;
pub mod freq;
pub mod machine;
pub mod pll;
pub mod vco;

pub use freq::{AudPllFreq, SampleRate};
pub use pll::{is_enabled, measure_vco, set_sdm_freq, vco_calibrate, AudioPll};
