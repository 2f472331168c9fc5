//! The clock multiplexers' selections.

use vstd::prelude::*;

verus! {

/// Source of the USB clock.
#[derive(Debug, Clone, Copy, PartialEq, Eq, Structural)]
pub enum Usbsel {
    SYSCLK,
    DLL2,
}

/// Source of the real-time clock.
#[derive(Debug, Clone, Copy, PartialEq, Eq, Structural)]
pub enum Rtcsel {
    LRC10,
    LXT32,
}

/// Source of the watchdog clock.
#[derive(Debug, Clone, Copy, PartialEq, Eq, Structural)]
pub enum Wdtsel {
    LRC10,
    LRC32,
}

/// Source of the peripheral clock.
#[derive(Debug, Clone, Copy, PartialEq, Eq, Structural)]
pub enum PeriSel {
    HRC48,
    HXT48,
}

/// Source of a memory interface clock.
#[derive(Debug, Clone, Copy, PartialEq, Eq, Structural)]
pub enum MpiSel {
    /// The peripheral clock.
    PERI,
    /// The second DLL.
    DLL2,
    /// The third DLL, on the models that have one.
    DLL3,
}

/// Source of the system tick.
#[allow(non_camel_case_types)]
#[derive(Debug, Clone, Copy, PartialEq, Eq, Structural)]
pub enum Ticksel {
    RTC,
    _RESERVED_1,
    HRC48,
    HXT48,
}

/// Source of the low-power system clock.
#[allow(non_camel_case_types)]
#[derive(Debug, Clone, Copy, PartialEq, Eq, Structural)]
pub enum Lpsel {
    SEL_SYS,
    WDT,
}

impl Usbsel {
    /// The selection's register encoding.
    pub fn bits(self) -> (r: u8)
        ensures
            r == (match self {
                Usbsel::SYSCLK => 0u8,
                Usbsel::DLL2 => 1u8,
            }),
    {
        match self {
            Usbsel::SYSCLK => 0,
            Usbsel::DLL2 => 1,
        }
    }
}

impl Rtcsel {
    /// The selection's register encoding.
    pub fn bits(self) -> (r: u8)
        ensures
            r == (match self {
                Rtcsel::LRC10 => 0u8,
                Rtcsel::LXT32 => 1u8,
            }),
    {
        match self {
            Rtcsel::LRC10 => 0,
            Rtcsel::LXT32 => 1,
        }
    }
}

impl Wdtsel {
    /// The selection's register encoding.
    pub fn bits(self) -> (r: u8)
        ensures
            r == (match self {
                Wdtsel::LRC10 => 0u8,
                Wdtsel::LRC32 => 1u8,
            }),
    {
        match self {
            Wdtsel::LRC10 => 0,
            Wdtsel::LRC32 => 1,
        }
    }
}

impl PeriSel {
    /// The selection's register encoding.
    pub fn bits(self) -> (r: u8)
        ensures
            r == (match self {
                PeriSel::HRC48 => 0u8,
                PeriSel::HXT48 => 1u8,
            }),
    {
        match self {
            PeriSel::HRC48 => 0,
            PeriSel::HXT48 => 1,
        }
    }
}

impl MpiSel {
    /// The selection's register encoding. The value 1 is not used.
    pub fn bits(self) -> (r: u8)
        ensures
            r == (match self {
                MpiSel::PERI => 0u8,
                MpiSel::DLL2 => 2u8,
                MpiSel::DLL3 => 3u8,
            }),
    {
        match self {
            MpiSel::PERI => 0,
            MpiSel::DLL2 => 2,
            MpiSel::DLL3 => 3,
        }
    }
}

impl Ticksel {
    /// The selection's register encoding.
    pub fn bits(self) -> (r: u8)
        ensures
            r == (match self {
                Ticksel::RTC => 0u8,
                Ticksel::_RESERVED_1 => 1u8,
                Ticksel::HRC48 => 2u8,
                Ticksel::HXT48 => 3u8,
            }),
    {
        match self {
            Ticksel::RTC => 0,
            Ticksel::_RESERVED_1 => 1,
            Ticksel::HRC48 => 2,
            Ticksel::HXT48 => 3,
        }
    }
}

impl Lpsel {
    /// The selection's register encoding.
    pub fn bits(self) -> (r: u8)
        ensures
            r == (match self {
                Lpsel::SEL_SYS => 0u8,
                Lpsel::WDT => 1u8,
            }),
    {
        match self {
            Lpsel::SEL_SYS => 0,
            Lpsel::WDT => 1,
        }
    }
}

/// One selection for each clock multiplexer.
#[non_exhaustive]
pub struct ClockMux {
    pub rtcsel: Rtcsel,
    pub wdtsel: Wdtsel,
    pub usbsel: Usbsel,
    pub perisel: PeriSel,
    pub mpi1sel: MpiSel,
    pub mpi2sel: MpiSel,
    pub ticksel: Ticksel,
    pub lpsel: Lpsel,
}

impl Default for ClockMux {
    /// The selections after reset.
    fn default() -> (r: ClockMux)
        ensures
            r.rtcsel == Rtcsel::LRC10,
            r.wdtsel == Wdtsel::LRC32,
            r.usbsel == Usbsel::SYSCLK,
            r.perisel == PeriSel::HXT48,
            r.mpi1sel == MpiSel::PERI,
            r.mpi2sel == MpiSel::DLL2,
            r.ticksel == Ticksel::RTC,
            r.lpsel == Lpsel::SEL_SYS,
    {
        ClockMux {
            rtcsel: Rtcsel::LRC10,
            wdtsel: Wdtsel::LRC32,
            usbsel: Usbsel::SYSCLK,
            perisel: PeriSel::HXT48,
            mpi1sel: MpiSel::PERI,
            mpi2sel: MpiSel::DLL2,
            ticksel: Ticksel::RTC,
            lpsel: Lpsel::SEL_SYS,
        }
    }
}

} // verus!
