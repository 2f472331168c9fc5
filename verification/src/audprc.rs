//! The audio processor, as far as it depends on the audio PLL.
//!
//! The driver borrows the PLL for as long as it lives, so the PLL cannot
//! be switched off under it.

use crate::aud_pll::{AudioPll, SampleRate};
use vstd::prelude::*;

verus! {

/// Settings of the driver.
#[derive(Debug, Clone, Copy, PartialEq, Eq, Structural)]
pub struct Config {
    /// The sample rate to run at.
    pub sample_rate: SampleRate,
}

/// The audio processor.
pub struct AudPrc<'d> {
    pll: &'d AudioPll,
    sample_rate: SampleRate,
}

impl<'d> AudPrc<'d> {
    /// The PLL that the driver runs on.
    pub closed spec fn pll(&self) -> &AudioPll {
        self.pll
    }

    /// The sample rate that the driver runs at.
    pub closed spec fn rate(&self) -> SampleRate {
        self.sample_rate
    }

    /// A driver on the given PLL. The PLL must run at the frequency that
    /// the sample rate's family needs.
    pub fn new(pll: &'d AudioPll, config: Config) -> (r: AudPrc<'d>)
        requires
            pll.configured() == config.sample_rate.required(),
        ensures
            r.pll() == pll,
            r.rate() == config.sample_rate,
            r.pll().configured() == r.rate().required(),
    {
        pll.assert_compatible(config.sample_rate);
        AudPrc { pll, sample_rate: config.sample_rate }
    }

    /// The sample rate that the driver runs at.
    pub fn sample_rate(&self) -> (r: SampleRate)
        ensures
            r == self.rate(),
    {
        self.sample_rate
    }
}

} // verus!
