//! EFUSE controller: timing setup and decoding of the fuse banks.

pub mod bank1;
pub mod uid;

use crate::regs::{timr_set_tckhp, timr_set_thpck, timr_set_thrck, with_bits};
use crate::time::Hertz;
use vstd::prelude::*;

verus! {

/// Why the EFUSE controller could not be set up.
#[derive(Debug, Copy, Clone, PartialEq, Eq)]
pub enum Error {
    /// The peripheral clock's frequency is not known.
    PclkUnknown,
    /// The peripheral clock is faster than the controller supports.
    PclkTooFast { pclk_hz: u32 },
    /// A timing value does not fit its field of the timing register.
    TimingOutOfRange { field: &'static str, value: u32 },
}

/// The fastest peripheral clock that the controller supports.
pub const PCLK_LIMIT_HZ: u32 = 120_000_000;

/// The largest read hold time that fits its field.
pub const THRCK_MAX: u64 = 0x7f;

/// The largest program hold time that fits its field.
pub const THPCK_MAX: u64 = 0x07;

/// The largest program clock high period that fits its field.
pub const TCKHP_MAX: u64 = 0x07ff;

/// Read hold time in clock cycles: the cycles that 500 ns take, plus one.
pub open spec fn thrck_of(pclk_hz: int) -> int {
    (500 * pclk_hz) / 1_000_000_000 + 1
}

/// Program hold time in clock cycles: the cycles that 20 ns take, plus
/// one.
pub open spec fn thpck_of(pclk_hz: int) -> int {
    (20 * pclk_hz) / 1_000_000_000 + 1
}

/// Program clock high period in clock cycles: the cycles that 10 us take,
/// rounded to the nearest, then moved by one cycle towards 10 us where the
/// period in nanoseconds is above 11000 or below 9000.
pub open spec fn tckhp_of(pclk_hz: int) -> int {
    let cycles = (10 * pclk_hz + 500_000) / 1_000_000;
    let ns = (cycles * 1_000_000_000) / pclk_hz;
    if ns > 11_000 {
        if cycles > 0 {
            cycles - 1
        } else {
            0
        }
    } else if ns < 9_000 {
        cycles + 1
    } else {
        cycles
    }
}

/// The three timing values fit their fields.
pub open spec fn timings_fit(pclk_hz: int) -> bool {
    thrck_of(pclk_hz) <= THRCK_MAX && thpck_of(pclk_hz) <= THPCK_MAX && tckhp_of(pclk_hz)
        <= TCKHP_MAX
}

/// The timing register's word for the three timing values.
pub open spec fn timr_word(thrck: u8, thpck: u8, tckhp: u16) -> u32 {
    with_bits(
        with_bits(with_bits(0, 0, 0x7f, thrck as u32), 7, 0x07, thpck as u32),
        10,
        0x07ff,
        tckhp as u32,
    )
}

/// The result reports that the timing value `value` does not fit the
/// field named `name`.
pub open spec fn out_of_range(r: Result<(u8, u8, u16), Error>, name: Seq<char>, value: int) -> bool {
    match r {
        Err(Error::TimingOutOfRange { field, value: v }) => field@ == name && v == value,
        _ => false,
    }
}

/// The controller's timing values for a peripheral clock of `pclk_hz`:
/// read hold time, program hold time and program clock high period.
///
/// The first value that does not fit its field is reported, in the order
/// read hold time, program hold time, high period.
pub fn compute_timings(pclk_hz: u32) -> (r: Result<(u8, u8, u16), Error>)
    requires
        pclk_hz != 0,
    ensures
        r.is_ok() <==> timings_fit(pclk_hz as int),
        r matches Ok(t) ==> t.0 == thrck_of(pclk_hz as int) && t.1 == thpck_of(pclk_hz as int) && t.2
            == tckhp_of(pclk_hz as int),
        thrck_of(pclk_hz as int) > THRCK_MAX ==> out_of_range(
            r,
            "thrck"@,
            thrck_of(pclk_hz as int),
        ),
        thrck_of(pclk_hz as int) <= THRCK_MAX && thpck_of(pclk_hz as int) > THPCK_MAX
            ==> out_of_range(r, "thpck"@, thpck_of(pclk_hz as int)),
        thrck_of(pclk_hz as int) <= THRCK_MAX && thpck_of(pclk_hz as int) <= THPCK_MAX && tckhp_of(
            pclk_hz as int,
        ) > TCKHP_MAX ==> out_of_range(r, "tckhp"@, tckhp_of(pclk_hz as int)),
{
    let pclk: u64 = pclk_hz as u64;
    let rd_thrck: u64 = (500u64 * pclk) / 1_000_000_000u64 + 1;
    if rd_thrck > THRCK_MAX {
        return Err(Error::TimingOutOfRange { field: "thrck", value: rd_thrck as u32 });
    }
    let pgm_thpck: u64 = (20u64 * pclk) / 1_000_000_000u64 + 1;
    if pgm_thpck > THPCK_MAX {
        return Err(Error::TimingOutOfRange { field: "thpck", value: pgm_thpck as u32 });
    }
    let mut pgm_tckhp: u64 = ((10u64 * pclk) + 500_000) / 1_000_000u64;
    let pgm_tckhp_ns: u64 = (pgm_tckhp * 1_000_000_000u64) / pclk;
    if pgm_tckhp_ns > 11_000 {
        pgm_tckhp = if pgm_tckhp > 0 {
            pgm_tckhp - 1
        } else {
            0
        };
    } else if pgm_tckhp_ns < 9_000 {
        pgm_tckhp = pgm_tckhp + 1;
    }
    if pgm_tckhp > TCKHP_MAX {
        return Err(Error::TimingOutOfRange { field: "tckhp", value: pgm_tckhp as u32 });
    }
    Ok((rd_thrck as u8, pgm_thpck as u8, pgm_tckhp as u16))
}

/// What setting up the controller's timing for the peripheral clock
/// `pclk` gives: an unknown clock and one over the limit are refused,
/// else the timing values must fit.
pub open spec fn timr_outcome(pclk: Option<Hertz>) -> Result<u32, Error> {
    match pclk {
        None => Err(Error::PclkUnknown),
        Some(h) => if h.0 > PCLK_LIMIT_HZ {
            Err(Error::PclkTooFast { pclk_hz: h.0 })
        } else {
            Ok(
                timr_word(
                    thrck_of(h.0 as int) as u8,
                    thpck_of(h.0 as int) as u8,
                    tckhp_of(h.0 as int) as u16,
                ),
            )
        },
    }
}

/// Up to the clock limit all three timing values fit their fields, and
/// the hold times are longer than the 500 ns and 20 ns that they stand
/// for.
pub proof fn lemma_timings_within_limit(pclk_hz: u32)
    requires
        0 < pclk_hz <= PCLK_LIMIT_HZ,
    ensures
        timings_fit(pclk_hz as int),
        thrck_of(pclk_hz as int) * 1_000_000_000 > 500 * pclk_hz,
        thpck_of(pclk_hz as int) * 1_000_000_000 > 20 * pclk_hz,
{
    let cycles = (10 * pclk_hz + 500_000) / 1_000_000;
    assert(cycles <= 1_200);
}

/// The word to write to the timing register for the peripheral clock
/// `pclk`.
pub fn init_timr(pclk: Option<Hertz>) -> (r: Result<u32, Error>)
    requires
        pclk matches Some(h) ==> h.0 != 0,
    ensures
        r == timr_outcome(pclk),
{
    let pclk_hz: u32 = match pclk {
        Some(h) => h.0,
        None => {
            return Err(Error::PclkUnknown);
        },
    };
    if pclk_hz > PCLK_LIMIT_HZ {
        return Err(Error::PclkTooFast { pclk_hz });
    }
    proof {
        lemma_timings_within_limit(pclk_hz);
    }
    match compute_timings(pclk_hz) {
        Ok((thrck, thpck, tckhp)) => {
            let w0: u32 = timr_set_thrck(0, thrck);
            let w1: u32 = timr_set_thpck(w0, thpck);
            let w2: u32 = timr_set_tckhp(w1, tckhp);
            Ok(w2)
        },
        Err(e) => Err(e),
    }
}

/// The EFUSE controller with its timing set up.
#[derive(Debug, Clone, Copy)]
pub struct Efuse {
    timr: u32,
}

impl Efuse {
    /// The word of the timing register.
    pub closed spec fn timing(&self) -> u32 {
        self.timr
    }

    /// Sets up the controller for the peripheral clock `pclk`.
    pub fn new(pclk: Option<Hertz>) -> (r: Result<Efuse, Error>)
        requires
            pclk matches Some(h) ==> h.0 != 0,
        ensures
            r.is_ok() == timr_outcome(pclk).is_ok(),
            r matches Ok(e) ==> timr_outcome(pclk) == Ok::<u32, Error>(e.timing()),
            r matches Err(e) ==> timr_outcome(pclk) == Err::<u32, Error>(e),
    {
        match init_timr(pclk) {
            Ok(timr) => Ok(Efuse { timr }),
            Err(e) => Err(e),
        }
    }

    /// The word to write to the timing register.
    pub fn timr(&self) -> (r: u32)
        ensures
            r == self.timing(),
    {
        self.timr
    }
}

} // verus!
