//! The register fields of the audio PLL and the operations on them.
//!
//! Bring-up and teardown are sequences of register accesses and waits.
//! One access changes one or several fields of one register: an
//! operation starts the access with its first field, and the operations
//! that follow it may add fields to the same access. [`PllRegs`] holds the
//! fields' values, a flag as 0 or 1. A [`PllDriver`] applies each
//! operation to its copy of the fields and keeps the operations in order,
//! so that they can be carried out on the hardware exactly as they were
//! decided.

use vstd::prelude::*;

verus! {

/// One field of the audio PLL's registers.
#[derive(Debug, Clone, Copy, PartialEq, Eq, Structural)]
pub enum PllField {
    /// The crystal buffer for the audio block (`PMUC.hxt_cr1`).
    BufAudEn,
    /// The clock gate of the audio codec.
    CodecClock,
    /// The bandgap RC filter (`bg_cfg0`).
    BgEnRcflt,
    /// The bandgap enable (`bg_cfg0`).
    BgEn,
    /// The bandgap sampling mode (`bg_cfg0`).
    BgEnSmpl,
    /// The the whole word `bg_cfg1`.
    BgCfg1,
    /// The the whole word `bg_cfg2`.
    BgCfg2,
    /// The reference generator enable (`refgen_cfg`).
    RefgenEn,
    /// The bias current array enable (`pll_cfg0`).
    EnIary,
    /// The oscillator enable (`pll_cfg0`).
    EnVco,
    /// The analog part enable (`pll_cfg0`).
    EnAna,
    /// The charge pump current (`pll_cfg0`).
    IcpSel,
    /// The open-loop mode (`pll_cfg0`).
    Open,
    /// The oscillator tuning code (`pll_cfg0`).
    FcVco,
    /// The loop filter R3 (`pll_cfg1`).
    R3Sel,
    /// The loop filter RZ (`pll_cfg1`).
    RzSel,
    /// The loop filter C2 (`pll_cfg1`).
    C2Sel,
    /// The loop filter CZ (`pll_cfg1`).
    CzSel,
    /// The lock detector reset (`pll_cfg1`).
    CsdRst,
    /// The lock detector enable (`pll_cfg1`).
    CsdEn,
    /// The digital part enable (`pll_cfg2`).
    EnDig,
    /// The loop filter control voltage input (`pll_cfg2`).
    EnLfVcin,
    /// The divider reset, active low (`pll_cfg2`).
    Rstb,
    /// The fractional divider input (`pll_cfg3`).
    Sdin,
    /// The integer divider word (`pll_cfg3`).
    Fcw,
    /// The modulator update strobe (`pll_cfg3`).
    SdmUpdate,
    /// The modulator input bypass (`pll_cfg3`).
    SdminBypass,
    /// The modulator mode (`pll_cfg3`).
    SdmMode,
    /// The modulator dither enable (`pll_cfg3`).
    EnSdmDither,
    /// The modulator dither (`pll_cfg3`).
    SdmDither,
    /// The modulator enable (`pll_cfg3`).
    EnSdm,
    /// The modulator clock polarity (`pll_cfg3`).
    SdmclkPol,
    /// The digital clock enable (`pll_cfg4`).
    EnClkDig,
    /// The calibration run enable (`pll_cal_cfg`).
    CalEn,
    /// The calibration window length (`pll_cal_cfg`).
    CalLen,
}

/// A register of the audio PLL.
#[derive(Debug, Clone, Copy, PartialEq, Eq, Structural)]
pub enum PllReg {
    /// The crystal control register `hxt_cr1` of the power unit.
    HxtCr1,
    /// The clock enable register that holds the codec's gate.
    ClockGate,
    /// The register `bg_cfg0`.
    BgCfg0,
    /// The register `bg_cfg1`.
    BgCfg1,
    /// The register `bg_cfg2`.
    BgCfg2,
    /// The register `refgen_cfg`.
    RefgenCfg,
    /// The register `pll_cfg0`.
    PllCfg0,
    /// The register `pll_cfg1`.
    PllCfg1,
    /// The register `pll_cfg2`.
    PllCfg2,
    /// The register `pll_cfg3`.
    PllCfg3,
    /// The register `pll_cfg4`.
    PllCfg4,
    /// The register `pll_cal_cfg`.
    PllCalCfg,
}

impl PllField {
    /// The register that holds the field.
    pub open spec fn reg(self) -> PllReg {
        match self {
            PllField::BufAudEn => PllReg::HxtCr1,
            PllField::CodecClock => PllReg::ClockGate,
            PllField::BgEnRcflt => PllReg::BgCfg0,
            PllField::BgEn => PllReg::BgCfg0,
            PllField::BgEnSmpl => PllReg::BgCfg0,
            PllField::BgCfg1 => PllReg::BgCfg1,
            PllField::BgCfg2 => PllReg::BgCfg2,
            PllField::RefgenEn => PllReg::RefgenCfg,
            PllField::EnIary => PllReg::PllCfg0,
            PllField::EnVco => PllReg::PllCfg0,
            PllField::EnAna => PllReg::PllCfg0,
            PllField::IcpSel => PllReg::PllCfg0,
            PllField::Open => PllReg::PllCfg0,
            PllField::FcVco => PllReg::PllCfg0,
            PllField::R3Sel => PllReg::PllCfg1,
            PllField::RzSel => PllReg::PllCfg1,
            PllField::C2Sel => PllReg::PllCfg1,
            PllField::CzSel => PllReg::PllCfg1,
            PllField::CsdRst => PllReg::PllCfg1,
            PllField::CsdEn => PllReg::PllCfg1,
            PllField::EnDig => PllReg::PllCfg2,
            PllField::EnLfVcin => PllReg::PllCfg2,
            PllField::Rstb => PllReg::PllCfg2,
            PllField::Sdin => PllReg::PllCfg3,
            PllField::Fcw => PllReg::PllCfg3,
            PllField::SdmUpdate => PllReg::PllCfg3,
            PllField::SdminBypass => PllReg::PllCfg3,
            PllField::SdmMode => PllReg::PllCfg3,
            PllField::EnSdmDither => PllReg::PllCfg3,
            PllField::SdmDither => PllReg::PllCfg3,
            PllField::EnSdm => PllReg::PllCfg3,
            PllField::SdmclkPol => PllReg::PllCfg3,
            PllField::EnClkDig => PllReg::PllCfg4,
            PllField::CalEn => PllReg::PllCalCfg,
            PllField::CalLen => PllReg::PllCalCfg,
        }
    }

    /// The register that holds the field.
    pub fn register(self) -> (r: PllReg)
        ensures
            r == self.reg(),
    {
        match self {
            PllField::BufAudEn => PllReg::HxtCr1,
            PllField::CodecClock => PllReg::ClockGate,
            PllField::BgEnRcflt => PllReg::BgCfg0,
            PllField::BgEn => PllReg::BgCfg0,
            PllField::BgEnSmpl => PllReg::BgCfg0,
            PllField::BgCfg1 => PllReg::BgCfg1,
            PllField::BgCfg2 => PllReg::BgCfg2,
            PllField::RefgenEn => PllReg::RefgenCfg,
            PllField::EnIary => PllReg::PllCfg0,
            PllField::EnVco => PllReg::PllCfg0,
            PllField::EnAna => PllReg::PllCfg0,
            PllField::IcpSel => PllReg::PllCfg0,
            PllField::Open => PllReg::PllCfg0,
            PllField::FcVco => PllReg::PllCfg0,
            PllField::R3Sel => PllReg::PllCfg1,
            PllField::RzSel => PllReg::PllCfg1,
            PllField::C2Sel => PllReg::PllCfg1,
            PllField::CzSel => PllReg::PllCfg1,
            PllField::CsdRst => PllReg::PllCfg1,
            PllField::CsdEn => PllReg::PllCfg1,
            PllField::EnDig => PllReg::PllCfg2,
            PllField::EnLfVcin => PllReg::PllCfg2,
            PllField::Rstb => PllReg::PllCfg2,
            PllField::Sdin => PllReg::PllCfg3,
            PllField::Fcw => PllReg::PllCfg3,
            PllField::SdmUpdate => PllReg::PllCfg3,
            PllField::SdminBypass => PllReg::PllCfg3,
            PllField::SdmMode => PllReg::PllCfg3,
            PllField::EnSdmDither => PllReg::PllCfg3,
            PllField::SdmDither => PllReg::PllCfg3,
            PllField::EnSdm => PllReg::PllCfg3,
            PllField::SdmclkPol => PllReg::PllCfg3,
            PllField::EnClkDig => PllReg::PllCfg4,
            PllField::CalEn => PllReg::PllCalCfg,
            PllField::CalLen => PllReg::PllCalCfg,
        }
    }
}

/// The values of the audio PLL's register fields.
#[derive(Debug, Clone, Copy, PartialEq, Eq, Structural)]
pub struct PllRegs {
    pub buf_aud_en: u32,
    pub codec_clock: u32,
    pub bg_en_rcflt: u32,
    pub bg_en: u32,
    pub bg_en_smpl: u32,
    pub bg_cfg1: u32,
    pub bg_cfg2: u32,
    pub refgen_en: u32,
    pub en_iary: u32,
    pub en_vco: u32,
    pub en_ana: u32,
    pub icp_sel: u32,
    pub open: u32,
    pub fc_vco: u32,
    pub r3_sel: u32,
    pub rz_sel: u32,
    pub c2_sel: u32,
    pub cz_sel: u32,
    pub csd_rst: u32,
    pub csd_en: u32,
    pub en_dig: u32,
    pub en_lf_vcin: u32,
    pub rstb: u32,
    pub sdin: u32,
    pub fcw: u32,
    pub sdm_update: u32,
    pub sdmin_bypass: u32,
    pub sdm_mode: u32,
    pub en_sdm_dither: u32,
    pub sdm_dither: u32,
    pub en_sdm: u32,
    pub sdmclk_pol: u32,
    pub en_clk_dig: u32,
    pub cal_en: u32,
    pub cal_len: u32,
}

/// One step of a register sequence.
#[derive(Debug, Clone, Copy, PartialEq, Eq, Structural)]
pub enum PllOp {
    /// Start an access that reads the field's register, changes `field` to
    /// `value` and writes the register back, keeping its other fields.
    Modify { field: PllField, value: u32 },
    /// Start an access that writes the field's register with `field` at
    /// `value` and all its other fields at zero.
    Store { field: PllField, value: u32 },
    /// Change one more field in the access that the operation before this
    /// one starts or continues. The field is of the same register.
    Also { field: PllField, value: u32 },
    /// Wait for the given number of microseconds.
    DelayUs(u32),
}

impl PllOp {
    /// The register that the operation accesses; none for a wait.
    pub open spec fn reg(self) -> Option<PllReg> {
        match self {
            PllOp::Modify { field, .. } => Some(field.reg()),
            PllOp::Store { field, .. } => Some(field.reg()),
            PllOp::Also { field, .. } => Some(field.reg()),
            PllOp::DelayUs(_) => None,
        }
    }

    /// The operation may follow `before`: one that adds a field to an
    /// access follows an operation on the same register.
    pub open spec fn follows(self, before: Option<PllOp>) -> bool {
        self is Also ==> before is Some && before.unwrap().reg() == self.reg()
    }
}

/// Every operation of `ops` that adds a field to an access stands behind
/// an operation on the same register.
pub open spec fn grouped(ops: Seq<PllOp>) -> bool {
    forall|i: int|
        0 <= i < ops.len() ==> (#[trigger] ops[i]).follows(
            if i > 0 {
                Some(ops[i - 1])
            } else {
                None
            },
        )
}

impl PllRegs {
    /// The value of `field`.
    pub open spec fn field(self, field: PllField) -> u32 {
        match field {
            PllField::BufAudEn => self.buf_aud_en,
            PllField::CodecClock => self.codec_clock,
            PllField::BgEnRcflt => self.bg_en_rcflt,
            PllField::BgEn => self.bg_en,
            PllField::BgEnSmpl => self.bg_en_smpl,
            PllField::BgCfg1 => self.bg_cfg1,
            PllField::BgCfg2 => self.bg_cfg2,
            PllField::RefgenEn => self.refgen_en,
            PllField::EnIary => self.en_iary,
            PllField::EnVco => self.en_vco,
            PllField::EnAna => self.en_ana,
            PllField::IcpSel => self.icp_sel,
            PllField::Open => self.open,
            PllField::FcVco => self.fc_vco,
            PllField::R3Sel => self.r3_sel,
            PllField::RzSel => self.rz_sel,
            PllField::C2Sel => self.c2_sel,
            PllField::CzSel => self.cz_sel,
            PllField::CsdRst => self.csd_rst,
            PllField::CsdEn => self.csd_en,
            PllField::EnDig => self.en_dig,
            PllField::EnLfVcin => self.en_lf_vcin,
            PllField::Rstb => self.rstb,
            PllField::Sdin => self.sdin,
            PllField::Fcw => self.fcw,
            PllField::SdmUpdate => self.sdm_update,
            PllField::SdminBypass => self.sdmin_bypass,
            PllField::SdmMode => self.sdm_mode,
            PllField::EnSdmDither => self.en_sdm_dither,
            PllField::SdmDither => self.sdm_dither,
            PllField::EnSdm => self.en_sdm,
            PllField::SdmclkPol => self.sdmclk_pol,
            PllField::EnClkDig => self.en_clk_dig,
            PllField::CalEn => self.cal_en,
            PllField::CalLen => self.cal_len,
        }
    }

    /// These values with `field` changed to `value`.
    pub open spec fn with(self, field: PllField, value: u32) -> PllRegs {
        match field {
            PllField::BufAudEn => PllRegs { buf_aud_en: value, ..self },
            PllField::CodecClock => PllRegs { codec_clock: value, ..self },
            PllField::BgEnRcflt => PllRegs { bg_en_rcflt: value, ..self },
            PllField::BgEn => PllRegs { bg_en: value, ..self },
            PllField::BgEnSmpl => PllRegs { bg_en_smpl: value, ..self },
            PllField::BgCfg1 => PllRegs { bg_cfg1: value, ..self },
            PllField::BgCfg2 => PllRegs { bg_cfg2: value, ..self },
            PllField::RefgenEn => PllRegs { refgen_en: value, ..self },
            PllField::EnIary => PllRegs { en_iary: value, ..self },
            PllField::EnVco => PllRegs { en_vco: value, ..self },
            PllField::EnAna => PllRegs { en_ana: value, ..self },
            PllField::IcpSel => PllRegs { icp_sel: value, ..self },
            PllField::Open => PllRegs { open: value, ..self },
            PllField::FcVco => PllRegs { fc_vco: value, ..self },
            PllField::R3Sel => PllRegs { r3_sel: value, ..self },
            PllField::RzSel => PllRegs { rz_sel: value, ..self },
            PllField::C2Sel => PllRegs { c2_sel: value, ..self },
            PllField::CzSel => PllRegs { cz_sel: value, ..self },
            PllField::CsdRst => PllRegs { csd_rst: value, ..self },
            PllField::CsdEn => PllRegs { csd_en: value, ..self },
            PllField::EnDig => PllRegs { en_dig: value, ..self },
            PllField::EnLfVcin => PllRegs { en_lf_vcin: value, ..self },
            PllField::Rstb => PllRegs { rstb: value, ..self },
            PllField::Sdin => PllRegs { sdin: value, ..self },
            PllField::Fcw => PllRegs { fcw: value, ..self },
            PllField::SdmUpdate => PllRegs { sdm_update: value, ..self },
            PllField::SdminBypass => PllRegs { sdmin_bypass: value, ..self },
            PllField::SdmMode => PllRegs { sdm_mode: value, ..self },
            PllField::EnSdmDither => PllRegs { en_sdm_dither: value, ..self },
            PllField::SdmDither => PllRegs { sdm_dither: value, ..self },
            PllField::EnSdm => PllRegs { en_sdm: value, ..self },
            PllField::SdmclkPol => PllRegs { sdmclk_pol: value, ..self },
            PllField::EnClkDig => PllRegs { en_clk_dig: value, ..self },
            PllField::CalEn => PllRegs { cal_en: value, ..self },
            PllField::CalLen => PllRegs { cal_len: value, ..self },
        }
    }

    /// These values with every field of the register `reg` at zero.
    pub open spec fn cleared(self, reg: PllReg) -> PllRegs {
        match reg {
            PllReg::HxtCr1 => PllRegs { buf_aud_en: 0, ..self },
            PllReg::ClockGate => PllRegs { codec_clock: 0, ..self },
            PllReg::BgCfg0 => PllRegs { bg_en_rcflt: 0, bg_en: 0, bg_en_smpl: 0, ..self },
            PllReg::BgCfg1 => PllRegs { bg_cfg1: 0, ..self },
            PllReg::BgCfg2 => PllRegs { bg_cfg2: 0, ..self },
            PllReg::RefgenCfg => PllRegs { refgen_en: 0, ..self },
            PllReg::PllCfg0 => PllRegs { en_iary: 0, en_vco: 0, en_ana: 0, icp_sel: 0, open: 0, fc_vco: 0, ..self },
            PllReg::PllCfg1 => PllRegs { r3_sel: 0, rz_sel: 0, c2_sel: 0, cz_sel: 0, csd_rst: 0, csd_en: 0, ..self },
            PllReg::PllCfg2 => PllRegs { en_dig: 0, en_lf_vcin: 0, rstb: 0, ..self },
            PllReg::PllCfg3 => PllRegs { sdin: 0, fcw: 0, sdm_update: 0, sdmin_bypass: 0, sdm_mode: 0, en_sdm_dither: 0, sdm_dither: 0, en_sdm: 0, sdmclk_pol: 0, ..self },
            PllReg::PllCfg4 => PllRegs { en_clk_dig: 0, ..self },
            PllReg::PllCalCfg => PllRegs { cal_en: 0, cal_len: 0, ..self },
        }
    }

    /// These values after one operation. A wait changes none.
    pub open spec fn after(self, op: PllOp) -> PllRegs {
        match op {
            PllOp::Modify { field, value } => self.with(field, value),
            PllOp::Store { field, value } => self.cleared(field.reg()).with(field, value),
            PllOp::Also { field, value } => self.with(field, value),
            PllOp::DelayUs(_) => self,
        }
    }

    /// The fields after reset: all zero.
    pub fn reset() -> (r: PllRegs)
        ensures
            forall|f: PllField| #[trigger] r.field(f) == 0,
    {
        PllRegs {
            buf_aud_en: 0,
            codec_clock: 0,
            bg_en_rcflt: 0,
            bg_en: 0,
            bg_en_smpl: 0,
            bg_cfg1: 0,
            bg_cfg2: 0,
            refgen_en: 0,
            en_iary: 0,
            en_vco: 0,
            en_ana: 0,
            icp_sel: 0,
            open: 0,
            fc_vco: 0,
            r3_sel: 0,
            rz_sel: 0,
            c2_sel: 0,
            cz_sel: 0,
            csd_rst: 0,
            csd_en: 0,
            en_dig: 0,
            en_lf_vcin: 0,
            rstb: 0,
            sdin: 0,
            fcw: 0,
            sdm_update: 0,
            sdmin_bypass: 0,
            sdm_mode: 0,
            en_sdm_dither: 0,
            sdm_dither: 0,
            en_sdm: 0,
            sdmclk_pol: 0,
            en_clk_dig: 0,
            cal_en: 0,
            cal_len: 0,
        }
    }

    /// Reads `field`.
    pub fn get(&self, field: PllField) -> (r: u32)
        ensures
            r == self.field(field),
    {
        match field {
            PllField::BufAudEn => self.buf_aud_en,
            PllField::CodecClock => self.codec_clock,
            PllField::BgEnRcflt => self.bg_en_rcflt,
            PllField::BgEn => self.bg_en,
            PllField::BgEnSmpl => self.bg_en_smpl,
            PllField::BgCfg1 => self.bg_cfg1,
            PllField::BgCfg2 => self.bg_cfg2,
            PllField::RefgenEn => self.refgen_en,
            PllField::EnIary => self.en_iary,
            PllField::EnVco => self.en_vco,
            PllField::EnAna => self.en_ana,
            PllField::IcpSel => self.icp_sel,
            PllField::Open => self.open,
            PllField::FcVco => self.fc_vco,
            PllField::R3Sel => self.r3_sel,
            PllField::RzSel => self.rz_sel,
            PllField::C2Sel => self.c2_sel,
            PllField::CzSel => self.cz_sel,
            PllField::CsdRst => self.csd_rst,
            PllField::CsdEn => self.csd_en,
            PllField::EnDig => self.en_dig,
            PllField::EnLfVcin => self.en_lf_vcin,
            PllField::Rstb => self.rstb,
            PllField::Sdin => self.sdin,
            PllField::Fcw => self.fcw,
            PllField::SdmUpdate => self.sdm_update,
            PllField::SdminBypass => self.sdmin_bypass,
            PllField::SdmMode => self.sdm_mode,
            PllField::EnSdmDither => self.en_sdm_dither,
            PllField::SdmDither => self.sdm_dither,
            PllField::EnSdm => self.en_sdm,
            PllField::SdmclkPol => self.sdmclk_pol,
            PllField::EnClkDig => self.en_clk_dig,
            PllField::CalEn => self.cal_en,
            PllField::CalLen => self.cal_len,
        }
    }

    /// Writes `value` to `field`.
    pub fn set(&mut self, field: PllField, value: u32)
        ensures
            *final(self) == old(self).with(field, value),
    {
        match field {
            PllField::BufAudEn => {
                self.buf_aud_en = value;
            },
            PllField::CodecClock => {
                self.codec_clock = value;
            },
            PllField::BgEnRcflt => {
                self.bg_en_rcflt = value;
            },
            PllField::BgEn => {
                self.bg_en = value;
            },
            PllField::BgEnSmpl => {
                self.bg_en_smpl = value;
            },
            PllField::BgCfg1 => {
                self.bg_cfg1 = value;
            },
            PllField::BgCfg2 => {
                self.bg_cfg2 = value;
            },
            PllField::RefgenEn => {
                self.refgen_en = value;
            },
            PllField::EnIary => {
                self.en_iary = value;
            },
            PllField::EnVco => {
                self.en_vco = value;
            },
            PllField::EnAna => {
                self.en_ana = value;
            },
            PllField::IcpSel => {
                self.icp_sel = value;
            },
            PllField::Open => {
                self.open = value;
            },
            PllField::FcVco => {
                self.fc_vco = value;
            },
            PllField::R3Sel => {
                self.r3_sel = value;
            },
            PllField::RzSel => {
                self.rz_sel = value;
            },
            PllField::C2Sel => {
                self.c2_sel = value;
            },
            PllField::CzSel => {
                self.cz_sel = value;
            },
            PllField::CsdRst => {
                self.csd_rst = value;
            },
            PllField::CsdEn => {
                self.csd_en = value;
            },
            PllField::EnDig => {
                self.en_dig = value;
            },
            PllField::EnLfVcin => {
                self.en_lf_vcin = value;
            },
            PllField::Rstb => {
                self.rstb = value;
            },
            PllField::Sdin => {
                self.sdin = value;
            },
            PllField::Fcw => {
                self.fcw = value;
            },
            PllField::SdmUpdate => {
                self.sdm_update = value;
            },
            PllField::SdminBypass => {
                self.sdmin_bypass = value;
            },
            PllField::SdmMode => {
                self.sdm_mode = value;
            },
            PllField::EnSdmDither => {
                self.en_sdm_dither = value;
            },
            PllField::SdmDither => {
                self.sdm_dither = value;
            },
            PllField::EnSdm => {
                self.en_sdm = value;
            },
            PllField::SdmclkPol => {
                self.sdmclk_pol = value;
            },
            PllField::EnClkDig => {
                self.en_clk_dig = value;
            },
            PllField::CalEn => {
                self.cal_en = value;
            },
            PllField::CalLen => {
                self.cal_len = value;
            },
        }
    }

    /// Sets every field of the register `reg` to zero.
    pub fn clear(&mut self, reg: PllReg)
        ensures
            *final(self) == old(self).cleared(reg),
    {
        match reg {
            PllReg::HxtCr1 => {
                self.buf_aud_en = 0;
            },
            PllReg::ClockGate => {
                self.codec_clock = 0;
            },
            PllReg::BgCfg0 => {
                self.bg_en_rcflt = 0;
                self.bg_en = 0;
                self.bg_en_smpl = 0;
            },
            PllReg::BgCfg1 => {
                self.bg_cfg1 = 0;
            },
            PllReg::BgCfg2 => {
                self.bg_cfg2 = 0;
            },
            PllReg::RefgenCfg => {
                self.refgen_en = 0;
            },
            PllReg::PllCfg0 => {
                self.en_iary = 0;
                self.en_vco = 0;
                self.en_ana = 0;
                self.icp_sel = 0;
                self.open = 0;
                self.fc_vco = 0;
            },
            PllReg::PllCfg1 => {
                self.r3_sel = 0;
                self.rz_sel = 0;
                self.c2_sel = 0;
                self.cz_sel = 0;
                self.csd_rst = 0;
                self.csd_en = 0;
            },
            PllReg::PllCfg2 => {
                self.en_dig = 0;
                self.en_lf_vcin = 0;
                self.rstb = 0;
            },
            PllReg::PllCfg3 => {
                self.sdin = 0;
                self.fcw = 0;
                self.sdm_update = 0;
                self.sdmin_bypass = 0;
                self.sdm_mode = 0;
                self.en_sdm_dither = 0;
                self.sdm_dither = 0;
                self.en_sdm = 0;
                self.sdmclk_pol = 0;
            },
            PllReg::PllCfg4 => {
                self.en_clk_dig = 0;
            },
            PllReg::PllCalCfg => {
                self.cal_en = 0;
                self.cal_len = 0;
            },
        }
    }

    /// Carries out one operation on the values.
    pub fn apply(&mut self, op: PllOp)
        ensures
            *final(self) == old(self).after(op),
    {
        match op {
            PllOp::Modify { field, value } => {
                self.set(field, value);
            },
            PllOp::Store { field, value } => {
                self.clear(field.register());
                self.set(field, value);
            },
            PllOp::Also { field, value } => {
                self.set(field, value);
            },
            PllOp::DelayUs(_) => {},
        }
    }
}

/// The values that `regs` become when `ops` are carried out in order.
pub open spec fn replay(ops: Seq<PllOp>, regs: PllRegs) -> PllRegs
    decreases ops.len(),
{
    if ops.len() == 0 {
        regs
    } else {
        replay(ops.drop_last(), regs).after(ops.last())
    }
}

/// Carrying out one more operation applies it to the values so far.
pub proof fn lemma_replay_push(ops: Seq<PllOp>, op: PllOp, regs: PllRegs)
    ensures
        replay(ops.push(op), regs) == replay(ops, regs).after(op),
{
    assert(ops.push(op).drop_last() =~= ops);
}

/// Carrying out two sequences one after the other is carrying out the
/// second on what the first left.
pub proof fn lemma_replay_concat(a: Seq<PllOp>, b: Seq<PllOp>, regs: PllRegs)
    ensures
        replay(a + b, regs) == replay(b, replay(a, regs)),
    decreases b.len(),
{
    if b.len() == 0 {
        assert(a + b =~= a);
    } else {
        lemma_replay_concat(a, b.drop_last(), regs);
        assert((a + b).drop_last() =~= a + b.drop_last());
    }
}

/// A copy of the PLL's register fields together with the operations that
/// were decided on it and not yet handed out.
///
/// The pending operations, carried out on the values the driver started
/// from, give the driver's current values.
pub struct PllDriver {
    regs: PllRegs,
    pending: Vec<PllOp>,
    origin: Ghost<PllRegs>,
}

impl PllDriver {
    #[verifier::type_invariant]
    spec fn inv(self) -> bool {
        replay(self.pending@, self.origin@) == self.regs && grouped(self.pending@)
    }

    /// The current values of the fields.
    pub closed spec fn regs(&self) -> PllRegs {
        self.regs
    }

    /// The operations decided since the last hand-out, in order.
    pub closed spec fn pending(&self) -> Seq<PllOp> {
        self.pending@
    }

    /// The values of the fields at the last hand-out.
    pub closed spec fn origin(&self) -> PllRegs {
        self.origin@
    }

    /// A driver that starts from the given field values, with nothing
    /// pending.
    pub fn new(regs: PllRegs) -> (r: PllDriver)
        ensures
            r.regs() == regs,
            r.origin() == regs,
            r.pending() == Seq::<PllOp>::empty(),
    {
        PllDriver { regs, pending: Vec::new(), origin: Ghost(regs) }
    }

    /// The operation that was decided last and not yet handed out.
    pub open spec fn last_op(&self) -> Option<PllOp> {
        if self.pending().len() > 0 {
            Some(self.pending().last())
        } else {
            None
        }
    }

    /// The current values of the fields.
    pub fn current(&self) -> (r: PllRegs)
        ensures
            r == self.regs(),
            replay(self.pending(), self.origin()) == self.regs(),
            grouped(self.pending()),
    {
        proof {
            use_type_invariant(self);
        }
        self.regs
    }

    /// Reads one field.
    pub fn get(&self, field: PllField) -> (r: u32)
        ensures
            r == self.regs().field(field),
    {
        self.regs.get(field)
    }

    /// Decides one operation: applies it to the fields and appends it to
    /// the pending ones.
    pub fn emit(&mut self, op: PllOp)
        requires
            op.follows(old(self).last_op()),
        ensures
            final(self).regs() == old(self).regs().after(op),
            final(self).pending() == old(self).pending().push(op),
            final(self).origin() == old(self).origin(),
    {
        proof {
            use_type_invariant(&*self);
            lemma_replay_push(self.pending@, op, self.origin@);
            let longer = self.pending@.push(op);
            assert forall|i: int| 0 <= i < longer.len() implies (#[trigger] longer[i]).follows(
                if i > 0 {
                    Some(longer[i - 1])
                } else {
                    None
                },
            ) by {
                if i < self.pending@.len() {
                    assert(longer[i] == self.pending@[i]);
                }
            }
        }
        let mut taken = PllDriver { regs: self.regs, pending: Vec::new(), origin: Ghost(self.regs) };
        core::mem::swap(self, &mut taken);
        let PllDriver { regs, pending, origin } = taken;
        let mut regs = regs;
        let mut pending = pending;
        regs.apply(op);
        pending.push(op);
        *self = PllDriver { regs, pending, origin };
    }

    /// Decides an access that changes `field` to `value` and keeps the
    /// register's other fields.
    pub fn modify(&mut self, field: PllField, value: u32)
        ensures
            final(self).regs() == old(self).regs().with(field, value),
            final(self).pending() == old(self).pending().push(PllOp::Modify { field, value }),
            final(self).origin() == old(self).origin(),
    {
        self.emit(PllOp::Modify { field, value });
    }

    /// Decides an access that writes `field` at `value` and the
    /// register's other fields at zero.
    pub fn store(&mut self, field: PllField, value: u32)
        ensures
            final(self).regs() == old(self).regs().cleared(field.reg()).with(field, value),
            final(self).pending() == old(self).pending().push(PllOp::Store { field, value }),
            final(self).origin() == old(self).origin(),
    {
        self.emit(PllOp::Store { field, value });
    }

    /// Decides that the access under way also changes `field` to `value`.
    /// The operation decided last must be on the field's register.
    pub fn also(&mut self, field: PllField, value: u32)
        requires
            old(self).last_op() is Some,
            old(self).last_op().unwrap().reg() == Some(field.reg()),
        ensures
            final(self).regs() == old(self).regs().with(field, value),
            final(self).pending() == old(self).pending().push(PllOp::Also { field, value }),
            final(self).origin() == old(self).origin(),
    {
        self.emit(PllOp::Also { field, value });
    }

    /// Decides a wait of `us` microseconds.
    pub fn delay_us(&mut self, us: u32)
        ensures
            final(self).regs() == old(self).regs(),
            final(self).pending() == old(self).pending().push(PllOp::DelayUs(us)),
            final(self).origin() == old(self).origin(),
    {
        self.emit(PllOp::DelayUs(us));
    }

    /// Hands out the pending operations. Carried out in order on the
    /// values of the last hand-out, they give the current values; from now
    /// on the current values are the starting point.
    pub fn take_ops(&mut self) -> (r: Vec<PllOp>)
        ensures
            r@ == old(self).pending(),
            replay(r@, old(self).origin()) == old(self).regs(),
            grouped(r@),
            final(self).regs() == old(self).regs(),
            final(self).origin() == old(self).regs(),
            final(self).pending() == Seq::<PllOp>::empty(),
    {
        proof {
            use_type_invariant(&*self);
        }
        let mut taken = PllDriver { regs: self.regs, pending: Vec::new(), origin: Ghost(self.regs) };
        core::mem::swap(self, &mut taken);
        let PllDriver { regs: _, pending, origin: _ } = taken;
        pending
    }
}

} // verus!
