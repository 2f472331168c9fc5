use sifli_hal::rcc::clock::{
    describe, get_clk_aud_pll_div16_freq, get_clk_aud_pll_freq, get_clk_dll1_freq,
    get_clk_dll2_freq, get_clk_peri_div2_freq, get_clk_peri_freq, get_clk_sys_freq,
    get_clk_sys_source, get_clk_usb_div, get_clk_usb_freq, get_clk_usb_source, get_hclk_div,
    get_hclk_freq, get_hrc48_freq, get_hxt48_freq, get_pclk1_freq, get_pclk2_freq,
    hclk_is_readable, is_readable, sys_is_readable, test_print_clocks, usb_is_readable, ClkSysSel,
    ClockCache, ClockReading, ClockRegs, UsbSel,
};
use sifli_hal::rcc::mux::{ClockMux, Lpsel, MpiSel, PeriSel, Rtcsel, Ticksel, Usbsel, Wdtsel};
use sifli_hal::time::Hertz;

const HXT_RDY: u32 = 1 << 31;
const HRC_RDY: u32 = 1 << 30;

fn dllcr(en: bool, stg: u32, div2: bool) -> u32 {
    (en as u32) | (stg << 2) | ((div2 as u32) << 13)
}

fn csr(sel_sys: u32, sel_peri: u32, sel_usbc: u32) -> u32 {
    sel_sys | (sel_peri << 12) | (sel_usbc << 15)
}

fn cfgr(hdiv: u32, pdiv1: u32, pdiv2: u32) -> u32 {
    hdiv | (pdiv1 << 8) | (pdiv2 << 12)
}

/// System clock from DLL1 at 240 MHz, bus clock undivided, USB from DLL2.
fn running() -> ClockRegs {
    ClockRegs {
        csr: csr(3, 1, 1),
        cfgr: cfgr(1, 1, 4),
        dllcr1: dllcr(true, 9, false),
        dllcr2: dllcr(true, 11, false),
        usbcr: 4,
        acr: HXT_RDY | HRC_RDY,
    }
}

#[test]
fn oscillators_follow_their_ready_bits() {
    let mut regs = running();
    assert_eq!(get_hxt48_freq(&regs), Some(Hertz(48_000_000)));
    assert_eq!(get_hrc48_freq(&regs), Some(Hertz(48_000_000)));
    regs.acr = HRC_RDY;
    assert_eq!(get_hxt48_freq(&regs), None);
    assert_eq!(get_hrc48_freq(&regs), Some(Hertz(48_000_000)));
    regs.acr = HXT_RDY;
    assert_eq!(get_hxt48_freq(&regs), Some(Hertz(48_000_000)));
    assert_eq!(get_hrc48_freq(&regs), None);
    regs.acr = !(HXT_RDY | HRC_RDY);
    assert_eq!(get_hxt48_freq(&regs), None);
    assert_eq!(get_hrc48_freq(&regs), None);
}

#[test]
fn dll_frequency_formula() {
    let mut regs = running();
    assert_eq!(get_clk_dll1_freq(&regs), Some(Hertz(240_000_000)));
    assert_eq!(get_clk_dll2_freq(&regs), Some(Hertz(288_000_000)));
    regs.dllcr1 = dllcr(true, 0, false);
    assert_eq!(get_clk_dll1_freq(&regs), Some(Hertz(24_000_000)));
    regs.dllcr1 = dllcr(true, 15, false);
    assert_eq!(get_clk_dll1_freq(&regs), Some(Hertz(384_000_000)));
    regs.dllcr1 = dllcr(true, 9, true);
    assert_eq!(get_clk_dll1_freq(&regs), Some(Hertz(120_000_000)));
    regs.dllcr1 = dllcr(true, 4, true) | 0xffff_c000 | (0x7f << 6);
    assert_eq!(get_clk_dll1_freq(&regs), Some(Hertz(60_000_000)));
    regs.dllcr1 = dllcr(false, 9, false);
    assert_eq!(get_clk_dll1_freq(&regs), None);
}

#[test]
fn system_clock_follows_its_selector() {
    let mut regs = running();
    assert_eq!(get_clk_sys_source(&regs), ClkSysSel::Dll1);
    assert_eq!(get_clk_sys_freq(&regs), Some(Hertz(240_000_000)));
    regs.csr = csr(0, 1, 1);
    assert_eq!(get_clk_sys_source(&regs), ClkSysSel::Hrc48);
    assert_eq!(get_clk_sys_freq(&regs), Some(Hertz(48_000_000)));
    regs.csr = csr(1, 1, 1);
    assert_eq!(get_clk_sys_source(&regs), ClkSysSel::Hxt48);
    assert_eq!(get_clk_sys_freq(&regs), Some(Hertz(48_000_000)));
}

#[test]
fn the_reserved_selection_cannot_be_asked_for() {
    let mut regs = running();
    assert!(sys_is_readable(&regs));
    assert!(is_readable(&regs));
    regs.csr = csr(2, 1, 1);
    assert_eq!(get_clk_sys_source(&regs), ClkSysSel::Dbl96);
    assert!(!sys_is_readable(&regs));
    assert!(!hclk_is_readable(&regs));
    // The USB clock is taken from the second DLL here.
    assert!(usb_is_readable(&regs));
    assert!(!is_readable(&regs));
    regs.csr = csr(2, 1, 0);
    assert!(!usb_is_readable(&regs));
}

#[test]
fn a_divider_of_zero_cannot_be_asked_for_while_its_source_runs() {
    let mut regs = running();
    regs.cfgr = cfgr(0, 0, 0);
    assert_eq!(get_hclk_div(&regs), 0);
    assert!(!hclk_is_readable(&regs));
    regs.dllcr1 = dllcr(false, 9, false);
    assert!(hclk_is_readable(&regs));
    assert_eq!(get_hclk_freq(&regs), None);

    let mut regs = running();
    regs.usbcr = 0;
    assert!(!usb_is_readable(&regs));
    assert!(!is_readable(&regs));
    regs.dllcr2 = dllcr(false, 11, false);
    assert!(usb_is_readable(&regs));
    assert_eq!(get_clk_usb_freq(&regs), None);
}

#[test]
fn bus_clocks_divide_the_system_clock() {
    let mut regs = running();
    assert_eq!(get_hclk_div(&regs), 1);
    assert_eq!(get_hclk_freq(&regs), Some(Hertz(240_000_000)));
    assert_eq!(get_pclk1_freq(&regs), Some(Hertz(120_000_000)));
    assert_eq!(get_pclk2_freq(&regs), Some(Hertz(15_000_000)));
    regs.cfgr = cfgr(2, 0, 7);
    assert_eq!(get_hclk_freq(&regs), Some(Hertz(120_000_000)));
    assert_eq!(get_pclk1_freq(&regs), Some(Hertz(120_000_000)));
    assert_eq!(get_pclk2_freq(&regs), Some(Hertz(937_500)));
    regs.cfgr = cfgr(7, 1, 1);
    assert_eq!(get_hclk_freq(&regs), Some(Hertz(34_285_714)));
    assert_eq!(get_pclk1_freq(&regs), Some(Hertz(17_142_857)));
    regs.cfgr = cfgr(255, 0, 0);
    assert_eq!(get_hclk_div(&regs), 255);
    assert_eq!(get_hclk_freq(&regs), Some(Hertz(941_176)));
}

#[test]
fn peripheral_clock_and_its_half() {
    let mut regs = running();
    assert_eq!(get_clk_peri_freq(&regs), Some(Hertz(48_000_000)));
    assert_eq!(get_clk_peri_div2_freq(&regs), Some(Hertz(24_000_000)));
    regs.acr = HRC_RDY;
    assert_eq!(get_clk_peri_freq(&regs), None);
    assert_eq!(get_clk_peri_div2_freq(&regs), None);
    regs.csr = csr(3, 0, 1);
    assert_eq!(get_clk_peri_freq(&regs), Some(Hertz(48_000_000)));
}

#[test]
fn usb_clock_divides_its_source() {
    let mut regs = running();
    assert_eq!(get_clk_usb_source(&regs), UsbSel::Dll2);
    assert_eq!(get_clk_usb_div(&regs), 4);
    assert_eq!(get_clk_usb_freq(&regs), Some(Hertz(72_000_000)));
    regs.dllcr2 = dllcr(true, 9, false);
    assert_eq!(get_clk_usb_freq(&regs), Some(Hertz(60_000_000)));
    regs.csr = csr(3, 1, 0);
    assert_eq!(get_clk_usb_source(&regs), UsbSel::ClkSys);
    assert_eq!(get_clk_usb_freq(&regs), Some(Hertz(60_000_000)));
    regs.usbcr = 0xffff_fff8 | 5;
    assert_eq!(get_clk_usb_div(&regs), 5);
    assert_eq!(get_clk_usb_freq(&regs), Some(Hertz(48_000_000)));
}

#[test]
fn disabling_dll1_silences_what_depends_on_it() {
    let mut regs = running();
    regs.csr = csr(3, 1, 0);
    regs.dllcr1 = dllcr(false, 9, false);
    assert_eq!(get_clk_dll1_freq(&regs), None);
    assert_eq!(get_clk_sys_freq(&regs), None);
    assert_eq!(get_hclk_freq(&regs), None);
    assert_eq!(get_pclk1_freq(&regs), None);
    assert_eq!(get_pclk2_freq(&regs), None);
    assert_eq!(get_clk_usb_freq(&regs), None);
    // Independent branches are unaffected.
    assert_eq!(get_hxt48_freq(&regs), Some(Hertz(48_000_000)));
    assert_eq!(get_hrc48_freq(&regs), Some(Hertz(48_000_000)));
    assert_eq!(get_clk_peri_freq(&regs), Some(Hertz(48_000_000)));
    assert_eq!(get_clk_dll2_freq(&regs), Some(Hertz(288_000_000)));
}

#[test]
fn disabling_dll2_leaves_the_system_clock() {
    let mut regs = running();
    regs.dllcr2 = dllcr(false, 11, false);
    assert_eq!(get_clk_usb_freq(&regs), None);
    assert_eq!(get_clk_sys_freq(&regs), Some(Hertz(240_000_000)));
    assert_eq!(get_hclk_freq(&regs), Some(Hertz(240_000_000)));
}

const PLL_OFF: ClockCache = ClockCache { clk_aud_pll: None, clk_aud_pll_div16: None };

#[test]
fn audio_pll_clocks_are_what_the_cache_holds() {
    assert_eq!(get_clk_aud_pll_freq(&PLL_OFF), None);
    assert_eq!(get_clk_aud_pll_div16_freq(&PLL_OFF), None);
    let on = ClockCache {
        clk_aud_pll: Some(Hertz(45_158_400)),
        clk_aud_pll_div16: Some(Hertz(2_822_400)),
    };
    assert_eq!(get_clk_aud_pll_freq(&on), Some(Hertz(45_158_400)));
    assert_eq!(get_clk_aud_pll_div16_freq(&on), Some(Hertz(2_822_400)));
}

#[test]
fn readings() {
    assert_eq!(describe(None), ClockReading::Disabled);
    assert_eq!(describe(Some(Hertz(48_000_000))), ClockReading::Mhz(48));
    assert_eq!(describe(Some(Hertz(3_072_000))), ClockReading::MhzKhz(3, 72));
    assert_eq!(describe(Some(Hertz(937_500))), ClockReading::Khz(937));
    assert_eq!(describe(Some(Hertz(999))), ClockReading::Mhz(0));
    assert_eq!(describe(Some(Hertz(49_152_999))), ClockReading::MhzKhz(49, 152));
}

#[test]
fn report_lists_every_clock_and_marks_absent_ones() {
    let mut regs = running();
    regs.dllcr2 = dllcr(false, 0, false);
    let pll = ClockCache {
        clk_aud_pll: Some(Hertz(49_152_000)),
        clk_aud_pll_div16: Some(Hertz(3_072_000)),
    };
    let lines = test_print_clocks(&regs, &pll);
    let names: Vec<&str> = lines.iter().map(|l| l.name).collect();
    assert_eq!(
        names,
        vec![
            "clk_sys",
            "hclk",
            "pclk1",
            "pclk2",
            "clk_peri",
            "clk_peri_div2",
            "clk_dll1",
            "clk_dll2",
            "hxt48",
            "hrc48",
            "clk_usb",
            "clk_aud_pll",
            "clk_aud_pll_div16"
        ]
    );
    assert_eq!(lines[0].freq, Some(Hertz(240_000_000)));
    assert_eq!(lines[0].reading, ClockReading::Mhz(240));
    assert_eq!(lines[7].freq, None);
    assert_eq!(lines[7].reading, ClockReading::Disabled);
    assert_eq!(lines[10].reading, ClockReading::Disabled);
    assert_eq!(lines[11].reading, ClockReading::MhzKhz(49, 152));
    assert_eq!(lines[12].reading, ClockReading::MhzKhz(3, 72));

    // While the PLL is off its two clocks read as disabled.
    let lines = test_print_clocks(&regs, &PLL_OFF);
    assert_eq!(lines[11].freq, None);
    assert_eq!(lines[11].reading, ClockReading::Disabled);
    assert_eq!(lines[12].reading, ClockReading::Disabled);
}

#[test]
fn report_of_a_dead_tree_does_not_fail() {
    let regs = ClockRegs { csr: 0, cfgr: 0, dllcr1: 0, dllcr2: 0, usbcr: 0, acr: 0 };
    assert!(is_readable(&regs));
    let lines = test_print_clocks(&regs, &PLL_OFF);
    assert_eq!(lines.len(), 13);
    for line in &lines {
        assert_eq!(line.reading, ClockReading::Disabled);
    }
}

#[test]
fn multiplexer_defaults_and_encodings() {
    let mux = ClockMux::default();
    assert_eq!(mux.usbsel, Usbsel::SYSCLK);
    assert_eq!(mux.perisel, PeriSel::HXT48);
    assert_eq!(mux.mpi1sel, MpiSel::PERI);
    assert_eq!(mux.mpi2sel, MpiSel::DLL2);
    assert_eq!(mux.ticksel, Ticksel::RTC);
    assert_eq!(mux.lpsel, Lpsel::SEL_SYS);
    assert_eq!(mux.rtcsel.bits(), 0);
    assert_eq!(mux.wdtsel.bits(), 1);
    assert_eq!(Rtcsel::LXT32.bits(), 1);
    assert_eq!(Wdtsel::LRC10.bits(), 0);
    assert_eq!(Usbsel::DLL2.bits(), 1);
    assert_eq!(PeriSel::HRC48.bits(), 0);
    assert_eq!(MpiSel::DLL2.bits(), 2);
    assert_eq!(MpiSel::DLL3.bits(), 3);
    assert_eq!(Ticksel::HXT48.bits(), 3);
    assert_eq!(Ticksel::_RESERVED_1.bits(), 1);
    assert_eq!(Lpsel::WDT.bits(), 1);
}

#[test]
fn hertz_constructors() {
    assert_eq!(Hertz::hz(5), Hertz(5));
    assert_eq!(Hertz::khz(32), Some(Hertz(32_000)));
    assert_eq!(Hertz::mhz(30), Some(Hertz(30_000_000)));
    assert_eq!(Hertz::mhz(4_295), None);
    assert_eq!(Hertz::khz(4_294_968), None);
    assert_eq!(Hertz(48_000_000).div(7), Hertz(6_857_142));
}
