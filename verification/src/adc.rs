//! The analog-to-digital converter: channels and results.

use crate::regs::{bit_of, bits_of, gpadc_irq_irsr, gpadc_rdata_even};
use vstd::prelude::*;

verus! {

/// Number of the channel that measures the battery voltage.
pub const VBAT_CHANNEL_ID: u8 = 7;

/// Number of the pin that is wired to channel 0.
pub const FIRST_CHANNEL_PIN: u8 = 28;

/// Timing of a conversion.
#[non_exhaustive]
#[derive(Debug, Clone, Copy, PartialEq, Eq, Structural)]
pub struct Config {
    /// Sample width in converter clock cycles.
    pub sample_width: u32,
    /// Conversion width in converter clock cycles.
    pub conv_width: u8,
    /// Delay of the data sample in bus clock cycles.
    pub data_samp_dly: u8,
}

impl Default for Config {
    /// The values that the registers hold after reset.
    fn default() -> (r: Config)
        ensures
            r.sample_width == 0x8000,
            r.conv_width == 0x80,
            r.data_samp_dly == 0x4,
    {
        Config { sample_width: 0x8000, conv_width: 0x80, data_samp_dly: 0x4 }
    }
}

/// Why a conversion gave no result.
#[derive(Debug, Clone, Copy, PartialEq, Eq, Structural)]
pub enum Error {
    /// The conversion failed.
    ConversionFailed,
}

/// One result of the converter: 12 bits from a single read, 13 from a
/// stream.
#[derive(Debug, Clone, Copy, PartialEq, Eq, Structural)]
pub struct Sample(pub u16);

impl Sample {
    /// The result as a number.
    pub fn value(&self) -> (r: u16)
        ensures
            r == self.0,
    {
        self.0
    }
}

/// An input of the converter: a pin or an internal source.
#[derive(Debug, Clone, Copy, PartialEq, Eq, Structural)]
pub struct Channel {
    pub id: u8,
}

impl Channel {
    /// The channel of the pin `pin`. Pin 28 is channel 0.
    pub fn new_pin(pin: u8) -> (r: Channel)
        requires
            pin >= FIRST_CHANNEL_PIN,
        ensures
            r.id == pin - FIRST_CHANNEL_PIN,
    {
        Channel { id: pin - FIRST_CHANNEL_PIN }
    }

    /// The channel that measures the battery voltage.
    pub fn new_vbat() -> (r: Channel)
        ensures
            r.id == VBAT_CHANNEL_ID,
    {
        Channel { id: VBAT_CHANNEL_ID }
    }

    /// Whether the channel needs the battery monitor switched on.
    pub fn needs_battery_monitor(&self) -> (r: bool)
        ensures
            r == (self.id == VBAT_CHANNEL_ID),
    {
        self.id == VBAT_CHANNEL_ID
    }
}

/// Whether a conversion has finished, from the word read from the
/// converter's interrupt register.
pub fn conversion_done(gpadc_irq: u32) -> (r: bool)
    ensures
        r == bit_of(gpadc_irq, 2),
{
    gpadc_irq_irsr(gpadc_irq)
}

/// The driver of the converter.
pub struct Adc {
    config: Config,
}

impl Adc {
    /// The timing that the driver was made with.
    pub closed spec fn config(&self) -> Config {
        self.config
    }

    /// A driver that converts with the given timing.
    pub fn new_blocking(config: Config) -> (r: Adc)
        ensures
            r.config() == config,
    {
        Adc { config }
    }

    /// The result of a single conversion, from the word read from the
    /// first result register: its even slot, 12 bits.
    pub fn read(&mut self, ch: &mut Channel, rdata: u32) -> (r: Result<u16, Error>)
        ensures
            r == Ok::<u16, Error>(bits_of(rdata, 0, 0x0fff) as u16),
            *final(ch) == *old(ch),
            final(self).config() == old(self).config(),
    {
        assert(bits_of(rdata, 0, 0x0fff) <= 0x0fff) by (bit_vector);
        Ok(gpadc_rdata_even(rdata))
    }
}

} // verus!
