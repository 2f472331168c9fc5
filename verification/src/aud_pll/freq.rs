//! The audio PLL's output frequencies and the sample rates they serve.

use crate::time::Hertz;
use vstd::prelude::*;

verus! {

/// An output frequency of the audio PLL.
///
/// The PLL multiplies a 6 MHz reference by an integer word plus three and a
/// 20-bit fraction: `((FCW + 3) + SDIN / 2^20) * 6 MHz`.
#[derive(Debug, Clone, Copy, PartialEq, Eq, Structural)]
pub enum AudPllFreq {
    /// 49.152 MHz, for the 48 kHz family of sample rates.
    Mhz49_152,
    /// 45.1584 MHz, for the 44.1 kHz family of sample rates.
    Mhz45_1584,
    /// 44.1 MHz.
    Mhz44_1,
}

/// The reference frequency that the PLL multiplies.
pub const PLL_REF_HZ: u32 = 6_000_000;

/// The frequency that the divider words `fcw` and `sdin` synthesize from
/// the reference, rounded down to whole hertz.
pub open spec fn synthesized_hz(fcw: int, sdin: int) -> int {
    (((fcw + 3) * 0x10_0000 + sdin) * PLL_REF_HZ) / 0x10_0000
}

impl AudPllFreq {
    /// The frequency in hertz.
    pub open spec fn hz(&self) -> u32 {
        match self {
            AudPllFreq::Mhz49_152 => 49_152_000,
            AudPllFreq::Mhz45_1584 => 45_158_400,
            AudPllFreq::Mhz44_1 => 44_100_000,
        }
    }

    /// The integer divider word, 4 bits.
    pub open spec fn fcw_of(&self) -> u8 {
        match self {
            AudPllFreq::Mhz49_152 => 5,
            AudPllFreq::Mhz45_1584 => 4,
            AudPllFreq::Mhz44_1 => 4,
        }
    }

    /// The fractional divider word, 20 bits.
    pub open spec fn sdin_of(&self) -> u32 {
        match self {
            AudPllFreq::Mhz49_152 => 201_327,
            AudPllFreq::Mhz45_1584 => 551_970,
            AudPllFreq::Mhz44_1 => 366_874,
        }
    }

    /// The output frequency.
    pub fn freq(&self) -> (r: Hertz)
        ensures
            r.0 == self.hz(),
    {
        Hertz(
            match self {
                AudPllFreq::Mhz49_152 => 49_152_000,
                AudPllFreq::Mhz45_1584 => 45_158_400,
                AudPllFreq::Mhz44_1 => 44_100_000,
            },
        )
    }

    /// The integer divider word.
    pub fn fcw(&self) -> (r: u8)
        ensures
            r == self.fcw_of(),
            r < 16,
    {
        match self {
            AudPllFreq::Mhz49_152 => 5,
            AudPllFreq::Mhz45_1584 => 4,
            AudPllFreq::Mhz44_1 => 4,
        }
    }

    /// The fractional divider word.
    pub fn sdin(&self) -> (r: u32)
        ensures
            r == self.sdin_of(),
            r < 0x10_0000,
    {
        match self {
            AudPllFreq::Mhz49_152 => 201_327,
            AudPllFreq::Mhz45_1584 => 551_970,
            AudPllFreq::Mhz44_1 => 366_874,
        }
    }

    /// The divider words fit their register fields, and the frequency they
    /// synthesize is within one kilohertz of the nominal one.
    pub proof fn lemma_divider_words(freq: AudPllFreq)
        ensures
            freq.fcw_of() < 16,
            freq.sdin_of() < 0x10_0000,
            -1_000 < synthesized_hz(freq.fcw_of() as int, freq.sdin_of() as int) - freq.hz() < 1_000,
    {
    }
}

/// An audio sample rate.
#[derive(Debug, Clone, Copy, PartialEq, Eq, Structural)]
pub enum SampleRate {
    Hz8000,
    Hz11025,
    Hz12000,
    Hz16000,
    Hz22050,
    Hz24000,
    Hz32000,
    Hz44100,
    Hz48000,
    Hz96000,
    Hz192000,
}

impl SampleRate {
    /// The rate in hertz.
    pub open spec fn hz(&self) -> u32 {
        match self {
            SampleRate::Hz8000 => 8_000,
            SampleRate::Hz11025 => 11_025,
            SampleRate::Hz12000 => 12_000,
            SampleRate::Hz16000 => 16_000,
            SampleRate::Hz22050 => 22_050,
            SampleRate::Hz24000 => 24_000,
            SampleRate::Hz32000 => 32_000,
            SampleRate::Hz44100 => 44_100,
            SampleRate::Hz48000 => 48_000,
            SampleRate::Hz96000 => 96_000,
            SampleRate::Hz192000 => 192_000,
        }
    }

    /// The PLL frequency that the rate needs: 49.152 MHz for the rates that
    /// are multiples of 4 kHz, 45.1584 MHz for the multiples of 11.025 kHz.
    pub open spec fn required(&self) -> AudPllFreq {
        if self.hz() % 11_025 == 0 {
            AudPllFreq::Mhz45_1584
        } else {
            AudPllFreq::Mhz49_152
        }
    }

    /// The sample rate.
    pub fn freq(&self) -> (r: Hertz)
        ensures
            r.0 == self.hz(),
    {
        Hertz(
            match self {
                SampleRate::Hz8000 => 8_000,
                SampleRate::Hz11025 => 11_025,
                SampleRate::Hz12000 => 12_000,
                SampleRate::Hz16000 => 16_000,
                SampleRate::Hz22050 => 22_050,
                SampleRate::Hz24000 => 24_000,
                SampleRate::Hz32000 => 32_000,
                SampleRate::Hz44100 => 44_100,
                SampleRate::Hz48000 => 48_000,
                SampleRate::Hz96000 => 96_000,
                SampleRate::Hz192000 => 192_000,
            },
        )
    }

    /// The PLL frequency that the rate needs.
    pub fn pll_freq(&self) -> (r: AudPllFreq)
        ensures
            r == self.required(),
    {
        match self {
            SampleRate::Hz8000 => AudPllFreq::Mhz49_152,
            SampleRate::Hz12000 => AudPllFreq::Mhz49_152,
            SampleRate::Hz16000 => AudPllFreq::Mhz49_152,
            SampleRate::Hz24000 => AudPllFreq::Mhz49_152,
            SampleRate::Hz32000 => AudPllFreq::Mhz49_152,
            SampleRate::Hz48000 => AudPllFreq::Mhz49_152,
            SampleRate::Hz96000 => AudPllFreq::Mhz49_152,
            SampleRate::Hz192000 => AudPllFreq::Mhz49_152,
            SampleRate::Hz11025 => AudPllFreq::Mhz45_1584,
            SampleRate::Hz22050 => AudPllFreq::Mhz45_1584,
            SampleRate::Hz44100 => AudPllFreq::Mhz45_1584,
        }
    }

    /// Every rate belongs to exactly one family, and the PLL frequency of
    /// its family is a whole multiple of the rate.
    pub proof fn lemma_family(rate: SampleRate)
        ensures
            (rate.hz() % 4_000 == 0) != (rate.hz() % 11_025 == 0),
            rate.required() == AudPllFreq::Mhz49_152 <==> rate.hz() % 4_000 == 0,
            rate.required() == AudPllFreq::Mhz45_1584 <==> rate.hz() % 11_025 == 0,
            rate.required().hz() % rate.hz() == 0,
    {
    }
}

} // verus!
