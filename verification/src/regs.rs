//! Register words and their fields.
//!
//! A register is handed around as the 32-bit word that was read from it.
//! The fields are taken out of the word by the peripheral access crate's
//! own accessors; each function here states which bits its accessor reads.

use crate::rcc::clock::{ClkPeriSel, ClkSysSel, UsbSel};
use vstd::prelude::*;

verus! {

/// The bits of `raw` selected by `mask` after shifting right by `shift`.
pub open spec fn bits_of(raw: u32, shift: u32, mask: u32) -> u32 {
    (raw >> shift) & mask
}

/// Whether bit `bit` of `raw` is set.
pub open spec fn bit_of(raw: u32, bit: u32) -> bool {
    (raw >> bit) & 1 != 0
}

/// `sifli_pac::hpsys_cfg::regs::Idr::revid`: the revision ID, bits 7..=0 of
/// the ID register.
#[verifier::external_body]
pub(crate) fn idr_revid(raw: u32) -> (r: u8)
    ensures
        r == bits_of(raw, 0, 0xff),
{
    sifli_pac::hpsys_cfg::regs::Idr(raw).revid()
}

/// `sifli_pac::hpsys_cfg::regs::Idr::pid`: the package ID, bits 15..=8 of
/// the ID register.
#[verifier::external_body]
pub(crate) fn idr_pid(raw: u32) -> (r: u8)
    ensures
        r == bits_of(raw, 8, 0xff),
{
    sifli_pac::hpsys_cfg::regs::Idr(raw).pid()
}

/// `sifli_pac::hpsys_cfg::regs::Idr::cid`: the company ID, bits 23..=16 of
/// the ID register.
#[verifier::external_body]
pub(crate) fn idr_cid(raw: u32) -> (r: u8)
    ensures
        r == bits_of(raw, 16, 0xff),
{
    sifli_pac::hpsys_cfg::regs::Idr(raw).cid()
}

/// `sifli_pac::hpsys_cfg::regs::Idr::sid`: the series ID, bits 31..=24 of
/// the ID register.
#[verifier::external_body]
pub(crate) fn idr_sid(raw: u32) -> (r: u8)
    ensures
        r == bits_of(raw, 24, 0xff),
{
    sifli_pac::hpsys_cfg::regs::Idr(raw).sid()
}

/// The system clock source that a two-bit selector value stands for.
pub open spec fn sel_sys_of(v: u32) -> ClkSysSel {
    if v == 0 {
        ClkSysSel::Hrc48
    } else if v == 1 {
        ClkSysSel::Hxt48
    } else if v == 2 {
        ClkSysSel::Dbl96
    } else {
        ClkSysSel::Dll1
    }
}

/// The peripheral clock source that a one-bit selector value stands for.
pub open spec fn sel_peri_of(v: u32) -> ClkPeriSel {
    if v == 0 {
        ClkPeriSel::Hrc48
    } else {
        ClkPeriSel::Hxt48
    }
}

/// The USB clock source that a one-bit selector value stands for.
pub open spec fn sel_usbc_of(v: u32) -> UsbSel {
    if v == 0 {
        UsbSel::ClkSys
    } else {
        UsbSel::Dll2
    }
}

/// `sifli_pac::hpsys_rcc::regs::Csr::sel_sys`: the system clock selector,
/// bits 1..=0 of the clock select register, with the crate's four variants
/// mapped one for one.
#[verifier::external_body]
pub(crate) fn csr_sel_sys(raw: u32) -> (r: ClkSysSel)
    ensures
        r == sel_sys_of(bits_of(raw, 0, 0x03)),
{
    match sifli_pac::hpsys_rcc::regs::Csr(raw).sel_sys() {
        sifli_pac::hpsys_rcc::vals::SelSys::Hrc48 => ClkSysSel::Hrc48,
        sifli_pac::hpsys_rcc::vals::SelSys::Hxt48 => ClkSysSel::Hxt48,
        sifli_pac::hpsys_rcc::vals::SelSys::Dbl96 => ClkSysSel::Dbl96,
        sifli_pac::hpsys_rcc::vals::SelSys::Dll1 => ClkSysSel::Dll1,
    }
}

/// `sifli_pac::hpsys_rcc::regs::Csr::sel_peri`: the peripheral clock
/// selector, bit 12 of the clock select register.
#[verifier::external_body]
pub(crate) fn csr_sel_peri(raw: u32) -> (r: ClkPeriSel)
    ensures
        r == sel_peri_of(bits_of(raw, 12, 0x01)),
{
    match sifli_pac::hpsys_rcc::regs::Csr(raw).sel_peri() {
        sifli_pac::hpsys_rcc::vals::SelPeri::Hrc48 => ClkPeriSel::Hrc48,
        sifli_pac::hpsys_rcc::vals::SelPeri::Hxt48 => ClkPeriSel::Hxt48,
    }
}

/// `sifli_pac::hpsys_rcc::regs::Csr::sel_usbc`: the USB clock selector,
/// bit 15 of the clock select register.
#[verifier::external_body]
pub(crate) fn csr_sel_usbc(raw: u32) -> (r: UsbSel)
    ensures
        r == sel_usbc_of(bits_of(raw, 15, 0x01)),
{
    match sifli_pac::hpsys_rcc::regs::Csr(raw).sel_usbc() {
        sifli_pac::hpsys_rcc::vals::SelUsbc::ClkSys => UsbSel::ClkSys,
        sifli_pac::hpsys_rcc::vals::SelUsbc::Dll2 => UsbSel::Dll2,
    }
}

/// `sifli_pac::hpsys_rcc::regs::Cfgr::hdiv`: the bus clock divider, bits
/// 7..=0 of the clock configuration register.
#[verifier::external_body]
pub(crate) fn cfgr_hdiv(raw: u32) -> (r: u8)
    ensures
        r == bits_of(raw, 0, 0xff),
{
    sifli_pac::hpsys_rcc::regs::Cfgr(raw).hdiv()
}

/// `sifli_pac::hpsys_rcc::regs::Cfgr::pdiv1`: the first peripheral bus
/// divider exponent, bits 10..=8 of the clock configuration register.
#[verifier::external_body]
pub(crate) fn cfgr_pdiv1(raw: u32) -> (r: u8)
    ensures
        r == bits_of(raw, 8, 0x07),
{
    sifli_pac::hpsys_rcc::regs::Cfgr(raw).pdiv1()
}

/// `sifli_pac::hpsys_rcc::regs::Cfgr::pdiv2`: the second peripheral bus
/// divider exponent, bits 14..=12 of the clock configuration register.
#[verifier::external_body]
pub(crate) fn cfgr_pdiv2(raw: u32) -> (r: u8)
    ensures
        r == bits_of(raw, 12, 0x07),
{
    sifli_pac::hpsys_rcc::regs::Cfgr(raw).pdiv2()
}

/// `sifli_pac::hpsys_rcc::regs::Dllcr::en`: the enable bit, bit 0 of a DLL
/// control register.
#[verifier::external_body]
pub(crate) fn dllcr_en(raw: u32) -> (r: bool)
    ensures
        r == bit_of(raw, 0),
{
    sifli_pac::hpsys_rcc::regs::Dllcr(raw).en()
}

/// `sifli_pac::hpsys_rcc::regs::Dllcr::stg`: the stage field, bits 5..=2 of
/// a DLL control register.
#[verifier::external_body]
pub(crate) fn dllcr_stg(raw: u32) -> (r: u8)
    ensures
        r == bits_of(raw, 2, 0x0f),
{
    sifli_pac::hpsys_rcc::regs::Dllcr(raw).stg()
}

/// `sifli_pac::hpsys_rcc::regs::Dllcr::out_div2_en`: the output halving
/// bit, bit 13 of a DLL control register.
#[verifier::external_body]
pub(crate) fn dllcr_out_div2_en(raw: u32) -> (r: bool)
    ensures
        r == bit_of(raw, 13),
{
    sifli_pac::hpsys_rcc::regs::Dllcr(raw).out_div2_en()
}

/// `sifli_pac::hpsys_rcc::regs::Usbcr::div`: the USB clock divider, bits
/// 2..=0 of the USB control register.
#[verifier::external_body]
pub(crate) fn usbcr_div(raw: u32) -> (r: u8)
    ensures
        r == bits_of(raw, 0, 0x07),
{
    sifli_pac::hpsys_rcc::regs::Usbcr(raw).div()
}

/// `sifli_pac::hpsys_aon::regs::Acr::hrc48_rdy`: the RC oscillator's ready
/// bit, bit 30 of the always-on control register.
#[verifier::external_body]
pub(crate) fn acr_hrc48_rdy(raw: u32) -> (r: bool)
    ensures
        r == bit_of(raw, 30),
{
    sifli_pac::hpsys_aon::regs::Acr(raw).hrc48_rdy()
}

/// `sifli_pac::hpsys_aon::regs::Acr::hxt48_rdy`: the crystal oscillator's
/// ready bit, bit 31 of the always-on control register.
#[verifier::external_body]
pub(crate) fn acr_hxt48_rdy(raw: u32) -> (r: bool)
    ensures
        r == bit_of(raw, 31),
{
    sifli_pac::hpsys_aon::regs::Acr(raw).hxt48_rdy()
}

/// `sifli_pac::audcodec::regs::PllCfg0::en_ana`: the analog block's enable
/// bit, bit 15 of the PLL's first configuration register.
#[verifier::external_body]
pub(crate) fn pll_cfg0_en_ana(raw: u32) -> (r: bool)
    ensures
        r == bit_of(raw, 15),
{
    sifli_pac::audcodec::regs::PllCfg0(raw).en_ana()
}

/// `sifli_pac::audcodec::regs::PllCalCfg::done`: the calibration's done bit,
/// bit 1 of the calibration configuration register.
#[verifier::external_body]
pub(crate) fn pll_cal_cfg_done(raw: u32) -> (r: bool)
    ensures
        r == bit_of(raw, 1),
{
    sifli_pac::audcodec::regs::PllCalCfg(raw).done()
}

/// `sifli_pac::audcodec::regs::PllCalResult::pll_cnt`: the calibration
/// count, bits 31..=16 of the calibration result register.
#[verifier::external_body]
pub(crate) fn pll_cal_result_cnt(raw: u32) -> (r: u16)
    ensures
        r == bits_of(raw, 16, 0xffff),
{
    sifli_pac::audcodec::regs::PllCalResult(raw).pll_cnt()
}

/// `sifli_pac::audcodec::regs::PllStat::unlock`: the lock detector's
/// unlock bit, bit 0 of the PLL's status register.
#[verifier::external_body]
pub(crate) fn pll_stat_unlock(raw: u32) -> (r: bool)
    ensures
        r == bit_of(raw, 0),
{
    sifli_pac::audcodec::regs::PllStat(raw).unlock()
}

/// The word `raw` with `val`'s low bits, as many as `mask` has, written at
/// `shift`, and all other bits kept.
pub open spec fn with_bits(raw: u32, shift: u32, mask: u32, val: u32) -> u32 {
    (raw & !(mask << shift)) | ((val & mask) << shift)
}

/// `sifli_pac::efusec::regs::Timr::set_thrck`: writes the read hold time,
/// bits 6..=0 of the timing register.
#[verifier::external_body]
pub(crate) fn timr_set_thrck(raw: u32, val: u8) -> (r: u32)
    ensures
        r == with_bits(raw, 0, 0x7f, val as u32),
{
    let mut w = sifli_pac::efusec::regs::Timr(raw);
    w.set_thrck(val);
    w.0
}

/// `sifli_pac::efusec::regs::Timr::set_thpck`: writes the program hold
/// time, bits 9..=7 of the timing register.
#[verifier::external_body]
pub(crate) fn timr_set_thpck(raw: u32, val: u8) -> (r: u32)
    ensures
        r == with_bits(raw, 7, 0x07, val as u32),
{
    let mut w = sifli_pac::efusec::regs::Timr(raw);
    w.set_thpck(val);
    w.0
}

/// `sifli_pac::efusec::regs::Timr::set_tckhp`: writes the program clock
/// high period, bits 20..=10 of the timing register.
#[verifier::external_body]
pub(crate) fn timr_set_tckhp(raw: u32, val: u16) -> (r: u32)
    ensures
        r == with_bits(raw, 10, 0x07ff, val as u32),
{
    let mut w = sifli_pac::efusec::regs::Timr(raw);
    w.set_tckhp(val);
    w.0
}

/// `sifli_pac::lcdc::regs::Irq::eof_raw_stat`: the raw end-of-frame flag,
/// bit 16 of the display controller's interrupt register.
#[verifier::external_body]
pub(crate) fn lcdc_irq_eof_raw(raw: u32) -> (r: bool)
    ensures
        r == bit_of(raw, 16),
{
    sifli_pac::lcdc::regs::Irq(raw).eof_raw_stat()
}

/// `sifli_pac::lcdc::regs::Irq::icb_of_raw_stat`: the raw overflow flag,
/// bit 17 of the display controller's interrupt register.
#[verifier::external_body]
pub(crate) fn lcdc_irq_icb_of_raw(raw: u32) -> (r: bool)
    ensures
        r == bit_of(raw, 17),
{
    sifli_pac::lcdc::regs::Irq(raw).icb_of_raw_stat()
}

/// `sifli_pac::lcdc::regs::Irq::dpi_udr_raw_stat`: the raw underrun flag,
/// bit 19 of the display controller's interrupt register.
#[verifier::external_body]
pub(crate) fn lcdc_irq_dpi_udr_raw(raw: u32) -> (r: bool)
    ensures
        r == bit_of(raw, 19),
{
    sifli_pac::lcdc::regs::Irq(raw).dpi_udr_raw_stat()
}

/// `sifli_pac::lcdc::regs::LcdSingle::lcd_busy`: the busy flag of the
/// single access interface, bit 3 of its register.
#[verifier::external_body]
pub(crate) fn lcdc_single_busy(raw: u32) -> (r: bool)
    ensures
        r == bit_of(raw, 3),
{
    sifli_pac::lcdc::regs::LcdSingle(raw).lcd_busy()
}

/// `sifli_pac::lcdc::regs::Status::lcd_busy`: the busy flag of the data
/// path, bit 0 of the status register.
#[verifier::external_body]
pub(crate) fn lcdc_status_busy(raw: u32) -> (r: bool)
    ensures
        r == bit_of(raw, 0),
{
    sifli_pac::lcdc::regs::Status(raw).lcd_busy()
}

/// `sifli_pac::gpadc::regs::GpadcIrq::gpadc_irsr`: the raw conversion-done
/// flag, bit 2 of the converter's interrupt register.
#[verifier::external_body]
pub(crate) fn gpadc_irq_irsr(raw: u32) -> (r: bool)
    ensures
        r == bit_of(raw, 2),
{
    sifli_pac::gpadc::regs::GpadcIrq(raw).gpadc_irsr()
}

/// `sifli_pac::gpadc::regs::Rdata::even_slot_rdata`: the even slot's
/// result, bits 11..=0 of a result register.
#[verifier::external_body]
pub(crate) fn gpadc_rdata_even(raw: u32) -> (r: u16)
    ensures
        r == bits_of(raw, 0, 0x0fff),
{
    sifli_pac::gpadc::regs::Rdata(raw).even_slot_rdata()
}

} // verus!
