//! Frequency values.

use vstd::prelude::*;

verus! {

/// A frequency in hertz.
#[derive(Clone, Copy, Debug, PartialEq, Eq, Structural)]
pub struct Hertz(pub u32);

impl Hertz {
    /// A frequency given in hertz.
    pub fn hz(hertz: u32) -> (r: Hertz)
        ensures
            r.0 == hertz,
    {
        Hertz(hertz)
    }

    /// A frequency given in kilohertz, when it fits in 32 bits.
    pub fn khz(kilohertz: u32) -> (r: Option<Hertz>)
        ensures
            r.is_some() <==> kilohertz * 1_000 <= u32::MAX,
            r.is_some() ==> r.unwrap().0 == kilohertz * 1_000,
    {
        match kilohertz.checked_mul(1_000) {
            Some(v) => Some(Hertz(v)),
            None => None,
        }
    }

    /// A frequency given in megahertz, when it fits in 32 bits.
    pub fn mhz(megahertz: u32) -> (r: Option<Hertz>)
        ensures
            r.is_some() <==> megahertz * 1_000_000 <= u32::MAX,
            r.is_some() ==> r.unwrap().0 == megahertz * 1_000_000,
    {
        match megahertz.checked_mul(1_000_000) {
            Some(v) => Some(Hertz(v)),
            None => None,
        }
    }

    /// The frequency divided by `divisor`, rounded down.
    pub fn div(self, divisor: u32) -> (r: Hertz)
        requires
            divisor != 0,
        ensures
            r.0 == self.0 / divisor,
    {
        Hertz(self.0 / divisor)
    }
}

} // verus!
