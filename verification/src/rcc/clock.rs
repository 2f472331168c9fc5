//! The clock tree.
//!
//! Every clock's frequency is a function of a few register words: the
//! selectors choose an upstream source, the enable and ready bits say
//! whether that source runs, and the divider fields scale it. [`ClockRegs`]
//! holds the words as they were read; nothing here keeps them between
//! calls. A clock whose selected source is not running has no frequency.

use crate::regs::{
    acr_hrc48_rdy, acr_hxt48_rdy, bit_of, bits_of, cfgr_hdiv, cfgr_pdiv1, cfgr_pdiv2, csr_sel_peri,
    csr_sel_sys, csr_sel_usbc, dllcr_en, dllcr_out_div2_en, dllcr_stg, sel_peri_of, sel_sys_of,
    sel_usbc_of, usbcr_div,
};
use crate::time::Hertz;
use vstd::prelude::*;

verus! {

/// Source of the system clock.
#[derive(Debug, Clone, Copy, PartialEq, Eq, Structural)]
pub enum ClkSysSel {
    /// The 48 MHz RC oscillator.
    Hrc48,
    /// The 48 MHz crystal oscillator.
    Hxt48,
    /// Reserved: no clock is wired to this selection.
    Dbl96,
    /// The first DLL.
    Dll1,
}

/// Source of the peripheral clock.
#[derive(Debug, Clone, Copy, PartialEq, Eq, Structural)]
pub enum ClkPeriSel {
    /// The 48 MHz RC oscillator.
    Hrc48,
    /// The 48 MHz crystal oscillator.
    Hxt48,
}

/// Source of the USB clock.
#[derive(Debug, Clone, Copy, PartialEq, Eq, Structural)]
pub enum UsbSel {
    /// The system clock.
    ClkSys,
    /// The second DLL.
    Dll2,
}

/// The register words that the clock tree is read from.
#[derive(Debug, Clone, Copy, PartialEq, Eq, Structural)]
pub struct ClockRegs {
    /// Clock select register: the three selectors.
    pub csr: u32,
    /// Clock configuration register: the bus dividers.
    pub cfgr: u32,
    /// Control register of the first DLL.
    pub dllcr1: u32,
    /// Control register of the second DLL.
    pub dllcr2: u32,
    /// USB control register: the USB divider.
    pub usbcr: u32,
    /// Always-on control register: the oscillators' ready bits.
    pub acr: u32,
}

/// Nominal frequency of both 48 MHz oscillators.
pub const OSC48_HZ: u32 = 48_000_000;

/// Frequency of one DLL stage.
pub const DLL_STAGE_HZ: u32 = 24_000_000;

/// The cached frequencies of the clocks that the audio PLL drives.
///
/// No register tells the PLL's frequency: whoever brings the PLL up or
/// switches it off records it here, and the clock queries read it here.
#[derive(Debug, Clone, Copy, PartialEq, Eq, Structural)]
pub struct ClockCache {
    /// The PLL's output; none while the PLL is off.
    pub clk_aud_pll: Option<Hertz>,
    /// A sixteenth of the PLL's output; none while the PLL is off.
    pub clk_aud_pll_div16: Option<Hertz>,
}

/// A frequency divided by `d`, where there is one.
pub open spec fn divided(f: Option<Hertz>, d: int) -> Option<Hertz> {
    match f {
        Some(h) => Some(Hertz((h.0 as int / d) as u32)),
        None => None,
    }
}

/// Output of a DLL with control word `dllcr`: 24 MHz times the stage count
/// plus one, halved when the output divider is on; nothing when the DLL is
/// off.
pub open spec fn dll_freq(dllcr: u32) -> Option<Hertz> {
    if bit_of(dllcr, 0) {
        let stages = bits_of(dllcr, 2, 0x0f) + 1;
        let halving: int = if bit_of(dllcr, 13) { 2 } else { 1 };
        Some(Hertz(((DLL_STAGE_HZ * stages) / halving) as u32))
    } else {
        None
    }
}

impl ClockRegs {
    /// The system clock selector.
    pub open spec fn sel_sys(&self) -> ClkSysSel {
        sel_sys_of(bits_of(self.csr, 0, 0x03))
    }

    /// The peripheral clock selector.
    pub open spec fn sel_peri(&self) -> ClkPeriSel {
        sel_peri_of(bits_of(self.csr, 12, 0x01))
    }

    /// The USB clock selector.
    pub open spec fn sel_usbc(&self) -> UsbSel {
        sel_usbc_of(bits_of(self.csr, 15, 0x01))
    }

    /// The bus clock divider field.
    pub open spec fn hdiv(&self) -> int {
        bits_of(self.cfgr, 0, 0xff) as int
    }

    /// The first peripheral bus divisor, 2 to the power of its field.
    pub open spec fn pclk1_divisor(&self) -> int {
        (1u32 << bits_of(self.cfgr, 8, 0x07)) as int
    }

    /// The second peripheral bus divisor, 2 to the power of its field.
    pub open spec fn pclk2_divisor(&self) -> int {
        (1u32 << bits_of(self.cfgr, 12, 0x07)) as int
    }

    /// The USB divider field.
    pub open spec fn usb_div(&self) -> int {
        bits_of(self.usbcr, 0, 0x07) as int
    }

    /// The crystal oscillator: 48 MHz while its ready bit is set.
    pub open spec fn hxt48(&self) -> Option<Hertz> {
        if bit_of(self.acr, 31) {
            Some(Hertz(OSC48_HZ))
        } else {
            None
        }
    }

    /// The RC oscillator: 48 MHz while its ready bit is set.
    pub open spec fn hrc48(&self) -> Option<Hertz> {
        if bit_of(self.acr, 30) {
            Some(Hertz(OSC48_HZ))
        } else {
            None
        }
    }

    /// The first DLL.
    pub open spec fn dll1(&self) -> Option<Hertz> {
        dll_freq(self.dllcr1)
    }

    /// The second DLL.
    pub open spec fn dll2(&self) -> Option<Hertz> {
        dll_freq(self.dllcr2)
    }

    /// The system clock: the selected source. Nothing is said of the
    /// reserved selection, which no query accepts.
    pub open spec fn clk_sys(&self) -> Option<Hertz> {
        match self.sel_sys() {
            ClkSysSel::Hrc48 => self.hrc48(),
            ClkSysSel::Hxt48 => self.hxt48(),
            ClkSysSel::Dbl96 => arbitrary(),
            ClkSysSel::Dll1 => self.dll1(),
        }
    }

    /// The system clock can be asked for: its selector is not the reserved
    /// one.
    pub open spec fn sys_readable(&self) -> bool {
        self.sel_sys() != ClkSysSel::Dbl96
    }

    /// The bus clocks can be asked for: the system clock can, and where it
    /// runs the bus divider is not zero.
    pub open spec fn hclk_readable(&self) -> bool {
        self.sys_readable() && (self.clk_sys() is Some ==> self.hdiv() != 0)
    }

    /// The USB clock can be asked for: its source can, and where the
    /// source runs the USB divider is not zero.
    pub open spec fn usb_readable(&self) -> bool {
        (self.sel_usbc() == UsbSel::ClkSys ==> self.sys_readable()) && (self.usb_source() is Some
            ==> self.usb_div() != 0)
    }

    /// Every clock can be asked for.
    pub open spec fn readable(&self) -> bool {
        self.hclk_readable() && self.usb_readable()
    }

    /// The peripheral clock: the selected oscillator.
    pub open spec fn clk_peri(&self) -> Option<Hertz> {
        match self.sel_peri() {
            ClkPeriSel::Hxt48 => self.hxt48(),
            ClkPeriSel::Hrc48 => self.hrc48(),
        }
    }

    /// Half the peripheral clock.
    pub open spec fn clk_peri_div2(&self) -> Option<Hertz> {
        divided(self.clk_peri(), 2)
    }

    /// The bus clock: the system clock over the bus divider.
    pub open spec fn hclk(&self) -> Option<Hertz> {
        divided(self.clk_sys(), self.hdiv())
    }

    /// The first peripheral bus clock.
    pub open spec fn pclk1(&self) -> Option<Hertz> {
        divided(self.hclk(), self.pclk1_divisor())
    }

    /// The second peripheral bus clock.
    pub open spec fn pclk2(&self) -> Option<Hertz> {
        divided(self.hclk(), self.pclk2_divisor())
    }

    /// The source that the USB clock is derived from.
    pub open spec fn usb_source(&self) -> Option<Hertz> {
        match self.sel_usbc() {
            UsbSel::ClkSys => self.clk_sys(),
            UsbSel::Dll2 => self.dll2(),
        }
    }

    /// The USB clock: its source over the USB divider.
    pub open spec fn clk_usb(&self) -> Option<Hertz> {
        divided(self.usb_source(), self.usb_div())
    }
}

proof fn lemma_field_bounds(raw: u32)
    by (bit_vector)
    ensures
        (raw >> 2) & 0x0f <= 15,
        (raw >> 8) & 0x07 <= 7,
        (raw >> 12) & 0x07 <= 7,
        (raw >> 0) & 0x07 <= 7,
        (raw >> 0) & 0xff <= 255,
{
}

proof fn lemma_shift_bounds(p: u32)
    by (bit_vector)
    requires
        p <= 7,
    ensures
        1 <= (1u32 << p) <= 128,
{
}

fn dll_frequency(dllcr: u32) -> (r: Option<Hertz>)
    ensures
        r == dll_freq(dllcr),
{
    if dllcr_en(dllcr) {
        proof {
            lemma_field_bounds(dllcr);
        }
        let stages: u32 = dllcr_stg(dllcr) as u32 + 1;
        let halving: u32 = if dllcr_out_div2_en(dllcr) {
            2
        } else {
            1
        };
        Some(Hertz(DLL_STAGE_HZ * stages / halving))
    } else {
        None
    }
}

fn divide(f: Option<Hertz>, d: u32) -> (r: Option<Hertz>)
    requires
        d != 0,
    ensures
        r == divided(f, d as int),
{
    match f {
        Some(h) => Some(Hertz(h.0 / d)),
        None => None,
    }
}

/// Whether the system clock can be asked for.
pub fn sys_is_readable(regs: &ClockRegs) -> (r: bool)
    ensures
        r == regs.sys_readable(),
{
    match csr_sel_sys(regs.csr) {
        ClkSysSel::Dbl96 => false,
        _ => true,
    }
}

/// Whether the bus clocks can be asked for.
pub fn hclk_is_readable(regs: &ClockRegs) -> (r: bool)
    ensures
        r == regs.hclk_readable(),
{
    if !sys_is_readable(regs) {
        return false;
    }
    match get_clk_sys_freq(regs) {
        Some(_) => get_hclk_div(regs) != 0,
        None => true,
    }
}

/// Whether the USB clock can be asked for.
pub fn usb_is_readable(regs: &ClockRegs) -> (r: bool)
    ensures
        r == regs.usb_readable(),
{
    let source = match csr_sel_usbc(regs.csr) {
        UsbSel::ClkSys => {
            if !sys_is_readable(regs) {
                return false;
            }
            get_clk_sys_freq(regs)
        },
        UsbSel::Dll2 => get_clk_dll2_freq(regs),
    };
    match source {
        Some(_) => get_clk_usb_div(regs) != 0,
        None => true,
    }
}

/// Whether every clock can be asked for.
pub fn is_readable(regs: &ClockRegs) -> (r: bool)
    ensures
        r == regs.readable(),
{
    hclk_is_readable(regs) && usb_is_readable(regs)
}

/// Frequency of the system clock. The selector must not be the reserved
/// one.
pub fn get_clk_sys_freq(regs: &ClockRegs) -> (r: Option<Hertz>)
    requires
        regs.sys_readable(),
    ensures
        r == regs.clk_sys(),
{
    match csr_sel_sys(regs.csr) {
        ClkSysSel::Hrc48 => get_hrc48_freq(regs),
        ClkSysSel::Hxt48 => get_hxt48_freq(regs),
        ClkSysSel::Dll1 => get_clk_dll1_freq(regs),
        ClkSysSel::Dbl96 => None,
    }
}

/// Source of the system clock.
pub fn get_clk_sys_source(regs: &ClockRegs) -> (r: ClkSysSel)
    ensures
        r == regs.sel_sys(),
{
    csr_sel_sys(regs.csr)
}

/// Frequency of the peripheral clock.
pub fn get_clk_peri_freq(regs: &ClockRegs) -> (r: Option<Hertz>)
    ensures
        r == regs.clk_peri(),
{
    match csr_sel_peri(regs.csr) {
        ClkPeriSel::Hxt48 => get_hxt48_freq(regs),
        ClkPeriSel::Hrc48 => get_hrc48_freq(regs),
    }
}

/// Frequency of the halved peripheral clock.
pub fn get_clk_peri_div2_freq(regs: &ClockRegs) -> (r: Option<Hertz>)
    ensures
        r == regs.clk_peri_div2(),
{
    divide(get_clk_peri_freq(regs), 2)
}

/// Frequency of the bus clock: none where the system clock has none,
/// else the system clock over the bus divider, which must not be zero
/// then.
pub fn get_hclk_freq(regs: &ClockRegs) -> (r: Option<Hertz>)
    requires
        regs.hclk_readable(),
    ensures
        r == regs.hclk(),
{
    match get_clk_sys_freq(regs) {
        Some(clk_sys) => Some(Hertz(clk_sys.0 / (get_hclk_div(regs) as u32))),
        None => None,
    }
}

/// The bus clock divider field.
pub fn get_hclk_div(regs: &ClockRegs) -> (r: u8)
    ensures
        r == regs.hdiv(),
{
    cfgr_hdiv(regs.cfgr)
}

/// Frequency of the first peripheral bus clock.
pub fn get_pclk1_freq(regs: &ClockRegs) -> (r: Option<Hertz>)
    requires
        regs.hclk_readable(),
    ensures
        r == regs.pclk1(),
{
    let pdiv: u32 = cfgr_pdiv1(regs.cfgr) as u32;
    proof {
        lemma_field_bounds(regs.cfgr);
        lemma_shift_bounds(pdiv);
    }
    divide(get_hclk_freq(regs), 1u32 << pdiv)
}

/// Frequency of the second peripheral bus clock.
pub fn get_pclk2_freq(regs: &ClockRegs) -> (r: Option<Hertz>)
    requires
        regs.hclk_readable(),
    ensures
        r == regs.pclk2(),
{
    let pdiv: u32 = cfgr_pdiv2(regs.cfgr) as u32;
    proof {
        lemma_field_bounds(regs.cfgr);
        lemma_shift_bounds(pdiv);
    }
    divide(get_hclk_freq(regs), 1u32 << pdiv)
}

/// Frequency of the crystal oscillator.
pub fn get_hxt48_freq(regs: &ClockRegs) -> (r: Option<Hertz>)
    ensures
        r == regs.hxt48(),
{
    if acr_hxt48_rdy(regs.acr) {
        Some(Hertz(OSC48_HZ))
    } else {
        None
    }
}

/// Frequency of the RC oscillator.
pub fn get_hrc48_freq(regs: &ClockRegs) -> (r: Option<Hertz>)
    ensures
        r == regs.hrc48(),
{
    if acr_hrc48_rdy(regs.acr) {
        Some(Hertz(OSC48_HZ))
    } else {
        None
    }
}

/// Frequency of the first DLL.
pub fn get_clk_dll1_freq(regs: &ClockRegs) -> (r: Option<Hertz>)
    ensures
        r == regs.dll1(),
{
    dll_frequency(regs.dllcr1)
}

/// Frequency of the second DLL.
pub fn get_clk_dll2_freq(regs: &ClockRegs) -> (r: Option<Hertz>)
    ensures
        r == regs.dll2(),
{
    dll_frequency(regs.dllcr2)
}

/// Frequency of the audio PLL: what the cache holds, none while the PLL
/// is off.
pub fn get_clk_aud_pll_freq(clocks: &ClockCache) -> (r: Option<Hertz>)
    ensures
        r == clocks.clk_aud_pll,
{
    clocks.clk_aud_pll
}

/// A sixteenth of the audio PLL's frequency: what the cache holds, none
/// while the PLL is off.
pub fn get_clk_aud_pll_div16_freq(clocks: &ClockCache) -> (r: Option<Hertz>)
    ensures
        r == clocks.clk_aud_pll_div16,
{
    clocks.clk_aud_pll_div16
}

/// Frequency of the USB clock: none where its source has none, else the
/// source over the USB divider, which must not be zero then.
pub fn get_clk_usb_freq(regs: &ClockRegs) -> (r: Option<Hertz>)
    requires
        regs.usb_readable(),
    ensures
        r == regs.clk_usb(),
{
    let source = match csr_sel_usbc(regs.csr) {
        UsbSel::ClkSys => get_clk_sys_freq(regs),
        UsbSel::Dll2 => get_clk_dll2_freq(regs),
    };
    match source {
        Some(f) => Some(Hertz(f.0 / (get_clk_usb_div(regs) as u32))),
        None => None,
    }
}

/// Source of the USB clock.
pub fn get_clk_usb_source(regs: &ClockRegs) -> (r: UsbSel)
    ensures
        r == regs.sel_usbc(),
{
    csr_sel_usbc(regs.csr)
}

/// The USB clock divider field.
pub fn get_clk_usb_div(regs: &ClockRegs) -> (r: u8)
    ensures
        r == regs.usb_div(),
{
    usbcr_div(regs.usbcr)
}

/// How a clock's frequency reads in a report.
#[derive(Debug, Clone, Copy, PartialEq, Eq, Structural)]
pub enum ClockReading {
    /// The clock has no frequency: its source does not run.
    Disabled,
    /// A whole number of megahertz.
    Mhz(u32),
    /// Less than a megahertz: a number of kilohertz.
    Khz(u32),
    /// Megahertz and the kilohertz beyond them, to be shown with three
    /// decimals.
    MhzKhz(u32, u32),
}

/// One line of the clock report.
#[derive(Debug, Clone, Copy)]
pub struct ClockLine {
    /// The clock's name.
    pub name: &'static str,
    /// The clock's frequency, if it runs.
    pub freq: Option<Hertz>,
    /// How the frequency reads.
    pub reading: ClockReading,
}

/// How the frequency `f` reads: the hertz below a kilohertz are dropped,
/// whole megahertz are shown as such, less than a megahertz as kilohertz,
/// anything else as megahertz with the kilohertz beyond.
pub open spec fn reading_of(f: Option<Hertz>) -> ClockReading {
    match f {
        None => ClockReading::Disabled,
        Some(h) => {
            let khz = h.0 / 1_000;
            if khz % 1_000 == 0 {
                ClockReading::Mhz(khz / 1_000)
            } else if khz / 1_000 == 0 {
                ClockReading::Khz(khz % 1_000)
            } else {
                ClockReading::MhzKhz(khz / 1_000, khz % 1_000)
            }
        },
    }
}

/// The clocks of the report, in order: each one's name and frequency.
pub open spec fn report_of(regs: ClockRegs, clocks: ClockCache) -> Seq<
    (Seq<char>, Option<Hertz>),
> {
    seq![
        ("clk_sys"@, regs.clk_sys()),
        ("hclk"@, regs.hclk()),
        ("pclk1"@, regs.pclk1()),
        ("pclk2"@, regs.pclk2()),
        ("clk_peri"@, regs.clk_peri()),
        ("clk_peri_div2"@, regs.clk_peri_div2()),
        ("clk_dll1"@, regs.dll1()),
        ("clk_dll2"@, regs.dll2()),
        ("hxt48"@, regs.hxt48()),
        ("hrc48"@, regs.hrc48()),
        ("clk_usb"@, regs.clk_usb()),
        ("clk_aud_pll"@, clocks.clk_aud_pll),
        ("clk_aud_pll_div16"@, clocks.clk_aud_pll_div16),
    ]
}

/// How a frequency reads in a report.
pub fn describe(freq: Option<Hertz>) -> (r: ClockReading)
    ensures
        r == reading_of(freq),
{
    match freq {
        None => ClockReading::Disabled,
        Some(f) => {
            let freq_khz: u32 = f.0 / 1_000;
            let mhz_part: u32 = freq_khz / 1_000;
            let khz_part: u32 = freq_khz % 1_000;
            if khz_part == 0 {
                ClockReading::Mhz(mhz_part)
            } else if mhz_part == 0 {
                ClockReading::Khz(khz_part)
            } else {
                ClockReading::MhzKhz(mhz_part, khz_part)
            }
        },
    }
}

fn line(name: &'static str, freq: Option<Hertz>) -> (r: ClockLine)
    ensures
        r.name@ == name@,
        r.freq == freq,
        r.reading == reading_of(freq),
{
    ClockLine { name, freq, reading: describe(freq) }
}

/// The report of all clocks: one line for each, in a fixed order, with its
/// name, its frequency and how the frequency reads. A clock whose source
/// does not run reads as disabled.
pub fn test_print_clocks(regs: &ClockRegs, clocks: &ClockCache) -> (r: Vec<ClockLine>)
    requires
        regs.readable(),
    ensures
        r@.len() == report_of(*regs, *clocks).len(),
        forall|i: int|
            0 <= i < r@.len() ==> (#[trigger] r@[i]).name@ == report_of(*regs, *clocks)[i].0
                && r@[i].freq == report_of(*regs, *clocks)[i].1 && r@[i].reading == reading_of(
                r@[i].freq,
            ),
{
    let mut lines: Vec<ClockLine> = Vec::new();
    lines.push(line("clk_sys", get_clk_sys_freq(regs)));
    lines.push(line("hclk", get_hclk_freq(regs)));
    lines.push(line("pclk1", get_pclk1_freq(regs)));
    lines.push(line("pclk2", get_pclk2_freq(regs)));
    lines.push(line("clk_peri", get_clk_peri_freq(regs)));
    lines.push(line("clk_peri_div2", get_clk_peri_div2_freq(regs)));
    lines.push(line("clk_dll1", get_clk_dll1_freq(regs)));
    lines.push(line("clk_dll2", get_clk_dll2_freq(regs)));
    lines.push(line("hxt48", get_hxt48_freq(regs)));
    lines.push(line("hrc48", get_hrc48_freq(regs)));
    lines.push(line("clk_usb", get_clk_usb_freq(regs)));
    lines.push(line("clk_aud_pll", get_clk_aud_pll_freq(clocks)));
    lines.push(line("clk_aud_pll_div16", get_clk_aud_pll_div16_freq(clocks)));
    lines
}

impl ClockRegs {
    /// A clock without a frequency gives none to what is derived from it:
    /// the bus clocks follow the system clock, the halved peripheral clock
    /// follows the peripheral clock, and the USB clock follows its source.
    pub proof fn lemma_absence_propagates(regs: ClockRegs)
        ensures
            regs.clk_sys() is None ==> regs.hclk() is None && regs.pclk1() is None && regs.pclk2()
                is None,
            regs.hclk() is None ==> regs.pclk1() is None && regs.pclk2() is None,
            regs.clk_peri() is None ==> regs.clk_peri_div2() is None,
            regs.usb_source() is None ==> regs.clk_usb() is None,
            regs.clk_sys() is None && regs.sel_usbc() == UsbSel::ClkSys ==> regs.clk_usb() is None,
    {
    }

    /// A clock with a frequency gives one to what is derived from it.
    pub proof fn lemma_presence_propagates(regs: ClockRegs)
        ensures
            regs.clk_sys() is Some ==> regs.hclk() is Some && regs.pclk1() is Some && regs.pclk2()
                is Some,
            regs.clk_peri() is Some ==> regs.clk_peri_div2() is Some,
            regs.usb_source() is Some ==> regs.clk_usb() is Some,
    {
    }

    /// With the first DLL switched off, a system clock that is selected to
    /// it has no frequency, and neither have the bus clocks nor a USB clock
    /// that takes the system clock.
    pub proof fn lemma_dll1_off(regs: ClockRegs)
        requires
            !bit_of(regs.dllcr1, 0),
            regs.sel_sys() == ClkSysSel::Dll1,
        ensures
            regs.dll1() is None,
            regs.clk_sys() is None,
            regs.hclk() is None,
            regs.pclk1() is None,
            regs.pclk2() is None,
            regs.sel_usbc() == UsbSel::ClkSys ==> regs.clk_usb() is None,
    {
    }

    /// With the second DLL switched off, a USB clock that is selected to
    /// it has no frequency.
    pub proof fn lemma_dll2_off(regs: ClockRegs)
        requires
            !bit_of(regs.dllcr2, 0),
            regs.sel_usbc() == UsbSel::Dll2,
        ensures
            regs.dll2() is None,
            regs.clk_usb() is None,
    {
    }

    /// With an oscillator not ready, every clock that is selected to it has
    /// no frequency, and neither has anything derived from such a clock.
    pub proof fn lemma_oscillator_down(regs: ClockRegs)
        ensures
            !bit_of(regs.acr, 31) ==> regs.hxt48() is None,
            !bit_of(regs.acr, 30) ==> regs.hrc48() is None,
            !bit_of(regs.acr, 31) && regs.sel_sys() == ClkSysSel::Hxt48 ==> regs.clk_sys() is None
                && regs.hclk() is None && regs.pclk1() is None && regs.pclk2() is None,
            !bit_of(regs.acr, 30) && regs.sel_sys() == ClkSysSel::Hrc48 ==> regs.clk_sys() is None
                && regs.hclk() is None && regs.pclk1() is None && regs.pclk2() is None,
            !bit_of(regs.acr, 31) && regs.sel_peri() == ClkPeriSel::Hxt48 ==> regs.clk_peri()
                is None && regs.clk_peri_div2() is None,
            !bit_of(regs.acr, 30) && regs.sel_peri() == ClkPeriSel::Hrc48 ==> regs.clk_peri()
                is None && regs.clk_peri_div2() is None,
    {
    }

    /// Branches are independent: a clock depends on no register word but
    /// those of its own sources. Two register sets that agree on those
    /// words give the clock the same frequency, whatever else differs. So
    /// switching a DLL off leaves the oscillators and every clock that is
    /// not selected to that DLL as they were.
    pub proof fn lemma_branches_independent(a: ClockRegs, b: ClockRegs)
        ensures
            a.acr == b.acr ==> a.hxt48() == b.hxt48() && a.hrc48() == b.hrc48(),
            a.dllcr1 == b.dllcr1 ==> a.dll1() == b.dll1(),
            a.dllcr2 == b.dllcr2 ==> a.dll2() == b.dll2(),
            a.acr == b.acr && a.csr == b.csr ==> a.clk_peri() == b.clk_peri() && a.clk_peri_div2()
                == b.clk_peri_div2(),
            a.acr == b.acr && a.csr == b.csr && a.sel_sys() != ClkSysSel::Dll1 ==> a.clk_sys()
                == b.clk_sys(),
            a.acr == b.acr && a.csr == b.csr && a.cfgr == b.cfgr && a.sel_sys() != ClkSysSel::Dll1
                ==> a.hclk() == b.hclk() && a.pclk1() == b.pclk1() && a.pclk2() == b.pclk2(),
            a.acr == b.acr && a.csr == b.csr && a.dllcr1 == b.dllcr1 ==> a.clk_sys() == b.clk_sys(),
            a.csr == b.csr && a.dllcr2 == b.dllcr2 && a.usbcr == b.usbcr && a.sel_usbc()
                == UsbSel::Dll2 ==> a.clk_usb() == b.clk_usb(),
    {
    }

    /// A ready crystal oscillator runs at 48 MHz whatever the DLLs do.
    pub proof fn lemma_crystal_unaffected(regs: ClockRegs)
        requires
            bit_of(regs.acr, 31),
        ensures
            regs.hxt48() == Some(Hertz(OSC48_HZ)),
    {
    }
}

} // verus!
