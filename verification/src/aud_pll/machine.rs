//! The PLL's lifecycle as a sequence of stages.
//!
//! Bring-up is linear: bandgap, analog part, digital part, open-loop
//! calibration, closing the loop, programming the dividers. Teardown leads
//! from any stage to the end. Each step decides the register accesses of
//! its stage, with the fields that one access changes together; carrying
//! them out, and measuring between the steps of the calibration, is left
//! to the caller.

use crate::aud_pll::fields::{grouped, PllDriver, PllField, PllOp, PllRegs};
use crate::aud_pll::freq::AudPllFreq;
use crate::aud_pll::vco::CAL_LEN;
use vstd::prelude::*;

verus! {

/// A stage of the PLL's lifecycle.
#[derive(Debug, Clone, Copy, PartialEq, Eq, Structural)]
pub enum PllStage {
    /// Nothing is switched on.
    Uninitialized,
    /// The bandgap reference runs.
    BandgapEnabled,
    /// The analog part runs.
    AnalogPllEnabled,
    /// The digital part runs and the loop filter is set.
    DigitalPllEnabled,
    /// The loop is open and tuning codes are being measured.
    OpenLoopCalibrating,
    /// The loop is closed on the chosen tuning code; the dividers are not
    /// yet programmed.
    Calibrated,
    /// The dividers are programmed and the loop is closed.
    Running,
    /// The PLL was switched off.
    TornDown,
}

/// The operations that switch on the bandgap reference.
pub open spec fn bandgap_ops() -> Seq<PllOp> {
    seq![
        PllOp::Modify { field: PllField::BufAudEn, value: 1 },
        PllOp::Modify { field: PllField::CodecClock, value: 1 },
        PllOp::Modify { field: PllField::BgEnRcflt, value: 0 },
        PllOp::Modify { field: PllField::BgEn, value: 1 },
        PllOp::DelayUs(100),
        PllOp::Modify { field: PllField::BgEnSmpl, value: 0 },
        PllOp::DelayUs(100),
    ]
}

/// The operations that switch on the PLL's analog part.
pub open spec fn analog_ops() -> Seq<PllOp> {
    seq![
        PllOp::Modify { field: PllField::EnIary, value: 1 },
        PllOp::Modify { field: PllField::EnVco, value: 1 },
        PllOp::Modify { field: PllField::EnAna, value: 1 },
        PllOp::Modify { field: PllField::IcpSel, value: 8 },
    ]
}

/// The operations that switch on the PLL's digital part and set the
/// loop filter.
pub open spec fn digital_ops() -> Seq<PllOp> {
    seq![
        PllOp::Modify { field: PllField::EnDig, value: 1 },
        PllOp::Modify { field: PllField::EnSdm, value: 1 },
        PllOp::Modify { field: PllField::EnClkDig, value: 1 },
        PllOp::Modify { field: PllField::R3Sel, value: 3 },
        PllOp::Also { field: PllField::RzSel, value: 1 },
        PllOp::Also { field: PllField::C2Sel, value: 3 },
        PllOp::Also { field: PllField::CzSel, value: 6 },
        PllOp::Also { field: PllField::CsdRst, value: 0 },
        PllOp::Also { field: PllField::CsdEn, value: 0 },
        PllOp::DelayUs(50),
    ]
}

/// The operations that open the loop for calibration.
pub open spec fn open_loop_ops() -> Seq<PllOp> {
    seq![
        PllOp::Modify { field: PllField::Open, value: 1 },
        PllOp::Modify { field: PllField::EnLfVcin, value: 1 },
        PllOp::Store { field: PllField::CalEn, value: 0 },
        PllOp::Also { field: PllField::CalLen, value: CAL_LEN as u32 },
    ]
}

/// The operations that start a measurement at the code `fc_vco`.
pub open spec fn measure_begin_ops(fc_vco: u8) -> Seq<PllOp> {
    seq![
        PllOp::Modify { field: PllField::FcVco, value: fc_vco as u32 },
        PllOp::Modify { field: PllField::CalEn, value: 1 },
    ]
}

/// The operations that stop a measurement.
pub open spec fn measure_end_ops() -> Seq<PllOp> {
    seq![
        PllOp::Modify { field: PllField::CalEn, value: 0 },
    ]
}

/// The operations that set the chosen code `best_fc` and close the loop.
pub open spec fn close_loop_ops(best_fc: u8) -> Seq<PllOp> {
    seq![
        PllOp::Modify { field: PllField::FcVco, value: best_fc as u32 },
        PllOp::Modify { field: PllField::EnLfVcin, value: 0 },
        PllOp::Modify { field: PllField::Open, value: 0 },
        PllOp::DelayUs(50),
    ]
}

/// The operations that program the dividers for `freq` and arm the lock
/// detector.
pub open spec fn sdm_ops(freq: AudPllFreq) -> Seq<PllOp> {
    seq![
        PllOp::Modify { field: PllField::Rstb, value: 1 },
        PllOp::DelayUs(50),
        PllOp::Store { field: PllField::Sdin, value: freq.sdin_of() },
        PllOp::Also { field: PllField::Fcw, value: freq.fcw_of() as u32 },
        PllOp::Also { field: PllField::SdmUpdate, value: 0 },
        PllOp::Also { field: PllField::SdminBypass, value: 1 },
        PllOp::Also { field: PllField::SdmMode, value: 0 },
        PllOp::Also { field: PllField::EnSdmDither, value: 0 },
        PllOp::Also { field: PllField::SdmDither, value: 0 },
        PllOp::Also { field: PllField::EnSdm, value: 1 },
        PllOp::Also { field: PllField::SdmclkPol, value: 0 },
        PllOp::Modify { field: PllField::SdmUpdate, value: 1 },
        PllOp::Modify { field: PllField::SdminBypass, value: 0 },
        PllOp::Modify { field: PllField::Rstb, value: 0 },
        PllOp::DelayUs(50),
        PllOp::Modify { field: PllField::Rstb, value: 1 },
        PllOp::DelayUs(50),
        PllOp::Modify { field: PllField::CsdEn, value: 1 },
        PllOp::Also { field: PllField::CsdRst, value: 1 },
        PllOp::DelayUs(50),
        PllOp::Modify { field: PllField::CsdRst, value: 0 },
    ]
}

/// The operations that switch the lock detector off.
pub open spec fn lock_check_end_ops() -> Seq<PllOp> {
    seq![
        PllOp::Modify { field: PllField::CsdEn, value: 0 },
    ]
}

/// The operations that switch the PLL off.
pub open spec fn teardown_ops() -> Seq<PllOp> {
    seq![
        PllOp::Modify { field: PllField::EnIary, value: 0 },
        PllOp::Also { field: PllField::EnVco, value: 0 },
        PllOp::Also { field: PllField::EnAna, value: 0 },
        PllOp::Modify { field: PllField::EnDig, value: 0 },
        PllOp::Modify { field: PllField::EnSdm, value: 0 },
        PllOp::Modify { field: PllField::EnClkDig, value: 0 },
        PllOp::Modify { field: PllField::RefgenEn, value: 0 },
        PllOp::Store { field: PllField::BgCfg1, value: 0 },
        PllOp::Store { field: PllField::BgCfg2, value: 0 },
        PllOp::Modify { field: PllField::BgEn, value: 0 },
        PllOp::Also { field: PllField::BgEnSmpl, value: 0 },
    ]
}

/// The PLL's stage together with the driver of its register fields.
pub struct PllMachine {
    stage: PllStage,
    driver: PllDriver,
}

impl PllMachine {
    /// The stage that the PLL is in.
    pub closed spec fn stage(&self) -> PllStage {
        self.stage
    }

    /// The current values of the register fields.
    pub closed spec fn regs(&self) -> PllRegs {
        self.driver.regs()
    }

    /// The operations decided since the last hand-out, in order.
    pub closed spec fn pending(&self) -> Seq<PllOp> {
        self.driver.pending()
    }

    /// The values of the register fields at the last hand-out.
    pub closed spec fn origin(&self) -> PllRegs {
        self.driver.origin()
    }

    /// A PLL that was never switched on, with the given field values.
    pub fn new(regs: PllRegs) -> (r: PllMachine)
        ensures
            r.stage() == PllStage::Uninitialized,
            r.regs() == regs,
            r.origin() == regs,
            r.pending() == Seq::<PllOp>::empty(),
    {
        PllMachine { stage: PllStage::Uninitialized, driver: PllDriver::new(regs) }
    }

    /// The stage that the PLL is in.
    pub fn current_stage(&self) -> (r: PllStage)
        ensures
            r == self.stage(),
    {
        self.stage
    }

    /// The current values of the register fields.
    pub fn current_regs(&self) -> (r: PllRegs)
        ensures
            r == self.regs(),
    {
        self.driver.current()
    }

    /// Hands out the pending operations. Carried out in order on the
    /// values of the last hand-out, they give the current values.
    pub fn take_ops(&mut self) -> (r: Vec<PllOp>)
        ensures
            r@ == old(self).pending(),
            crate::aud_pll::fields::replay(r@, old(self).origin()) == old(self).regs(),
            grouped(r@),
            final(self).stage() == old(self).stage(),
            final(self).regs() == old(self).regs(),
            final(self).origin() == old(self).regs(),
            final(self).pending() == Seq::<PllOp>::empty(),
    {
        self.driver.take_ops()
    }

    /// Switches on the crystal buffer, the codec's clock and the bandgap
    /// reference, and lets the reference settle.
    pub fn enable_bandgap(&mut self)
        requires
            old(self).stage() == PllStage::Uninitialized || old(self).stage() == PllStage::TornDown,
        ensures
            final(self).stage() == PllStage::BandgapEnabled,
            final(self).regs() == (PllRegs { buf_aud_en: 1, codec_clock: 1, bg_en_rcflt: 0, bg_en: 1, bg_en_smpl: 0, ..old(self).regs() }),
            final(self).pending() == old(self).pending() + bandgap_ops(),
            final(self).origin() == old(self).origin(),
    {
        let ghost before = self.driver.pending();
        self.driver.modify(PllField::BufAudEn, 1);
        self.driver.modify(PllField::CodecClock, 1);
        self.driver.modify(PllField::BgEnRcflt, 0);
        self.driver.modify(PllField::BgEn, 1);
        self.driver.delay_us(100);
        self.driver.modify(PllField::BgEnSmpl, 0);
        self.driver.delay_us(100);
        self.stage = PllStage::BandgapEnabled;
        assert(self.driver.pending() =~= before + bandgap_ops());
    }

    /// Switches on the PLL's analog part: bias, oscillator, analog block and
    /// charge pump current.
    pub fn enable_analog(&mut self)
        requires
            old(self).stage() == PllStage::BandgapEnabled,
        ensures
            final(self).stage() == PllStage::AnalogPllEnabled,
            final(self).regs() == (PllRegs { en_iary: 1, en_vco: 1, en_ana: 1, icp_sel: 8, ..old(self).regs() }),
            final(self).pending() == old(self).pending() + analog_ops(),
            final(self).origin() == old(self).origin(),
    {
        let ghost before = self.driver.pending();
        self.driver.modify(PllField::EnIary, 1);
        self.driver.modify(PllField::EnVco, 1);
        self.driver.modify(PllField::EnAna, 1);
        self.driver.modify(PllField::IcpSel, 8);
        self.stage = PllStage::AnalogPllEnabled;
        assert(self.driver.pending() =~= before + analog_ops());
    }

    /// Switches on the PLL's digital part and sets the loop filter.
    pub fn enable_digital(&mut self)
        requires
            old(self).stage() == PllStage::AnalogPllEnabled,
        ensures
            final(self).stage() == PllStage::DigitalPllEnabled,
            final(self).regs() == (PllRegs { en_dig: 1, en_sdm: 1, en_clk_dig: 1, r3_sel: 3, rz_sel: 1, c2_sel: 3, cz_sel: 6, csd_rst: 0, csd_en: 0, ..old(self).regs() }),
            final(self).pending() == old(self).pending() + digital_ops(),
            final(self).origin() == old(self).origin(),
    {
        let ghost before = self.driver.pending();
        self.driver.modify(PllField::EnDig, 1);
        self.driver.modify(PllField::EnSdm, 1);
        self.driver.modify(PllField::EnClkDig, 1);
        self.driver.modify(PllField::R3Sel, 3);
        self.driver.also(PllField::RzSel, 1);
        self.driver.also(PllField::C2Sel, 3);
        self.driver.also(PllField::CzSel, 6);
        self.driver.also(PllField::CsdRst, 0);
        self.driver.also(PllField::CsdEn, 0);
        self.driver.delay_us(50);
        self.stage = PllStage::DigitalPllEnabled;
        assert(self.driver.pending() =~= before + digital_ops());
    }

    /// Opens the loop for calibration and sets the measurement window.
    pub fn enter_open_loop(&mut self)
        requires
            old(self).stage() == PllStage::DigitalPllEnabled,
        ensures
            final(self).stage() == PllStage::OpenLoopCalibrating,
            final(self).regs() == (PllRegs { open: 1, en_lf_vcin: 1, cal_en: 0, cal_len: CAL_LEN as u32, ..old(self).regs() }),
            final(self).pending() == old(self).pending() + open_loop_ops(),
            final(self).origin() == old(self).origin(),
    {
        let ghost before = self.driver.pending();
        self.driver.modify(PllField::Open, 1);
        self.driver.modify(PllField::EnLfVcin, 1);
        self.driver.store(PllField::CalEn, 0);
        self.driver.also(PllField::CalLen, CAL_LEN as u32);
        self.stage = PllStage::OpenLoopCalibrating;
        assert(self.driver.pending() =~= before + open_loop_ops());
    }

    /// Sets the tuning code `fc_vco` and starts a measurement.
    pub fn begin_measurement(&mut self, fc_vco: u8)
        requires
            old(self).stage() == PllStage::OpenLoopCalibrating,
        ensures
            final(self).stage() == PllStage::OpenLoopCalibrating,
            final(self).regs() == (PllRegs { fc_vco: fc_vco as u32, cal_en: 1, ..old(self).regs() }),
            final(self).pending() == old(self).pending() + measure_begin_ops(fc_vco),
            final(self).origin() == old(self).origin(),
    {
        let ghost before = self.driver.pending();
        self.driver.modify(PllField::FcVco, fc_vco as u32);
        self.driver.modify(PllField::CalEn, 1);
        self.stage = PllStage::OpenLoopCalibrating;
        assert(self.driver.pending() =~= before + measure_begin_ops(fc_vco));
    }

    /// Stops the measurement run once its count was read.
    pub fn end_measurement(&mut self)
        requires
            old(self).stage() == PllStage::OpenLoopCalibrating,
        ensures
            final(self).stage() == PllStage::OpenLoopCalibrating,
            final(self).regs() == (PllRegs { cal_en: 0, ..old(self).regs() }),
            final(self).pending() == old(self).pending() + measure_end_ops(),
            final(self).origin() == old(self).origin(),
    {
        let ghost before = self.driver.pending();
        self.driver.modify(PllField::CalEn, 0);
        self.stage = PllStage::OpenLoopCalibrating;
        assert(self.driver.pending() =~= before + measure_end_ops());
    }

    /// Sets the chosen tuning code `best_fc` and closes the loop.
    pub fn exit_open_loop(&mut self, best_fc: u8)
        requires
            old(self).stage() == PllStage::OpenLoopCalibrating,
        ensures
            final(self).stage() == PllStage::Calibrated,
            final(self).regs() == (PllRegs { fc_vco: best_fc as u32, en_lf_vcin: 0, open: 0, ..old(self).regs() }),
            final(self).pending() == old(self).pending() + close_loop_ops(best_fc),
            final(self).origin() == old(self).origin(),
    {
        let ghost before = self.driver.pending();
        self.driver.modify(PllField::FcVco, best_fc as u32);
        self.driver.modify(PllField::EnLfVcin, 0);
        self.driver.modify(PllField::Open, 0);
        self.driver.delay_us(50);
        self.stage = PllStage::Calibrated;
        assert(self.driver.pending() =~= before + close_loop_ops(best_fc));
    }

    /// Programs the dividers for `freq` and arms the lock detector.
    ///
    /// The divider reset is released, the divider words are written with
    /// the modulator input bypassed, the update strobe is raised and the
    /// bypass dropped, and the reset is pulsed so that the analog block
    /// latches the new words. The lock detector is then enabled and reset.
    pub fn program_sdm(&mut self, freq: AudPllFreq)
        requires
            old(self).stage() == PllStage::Calibrated,
        ensures
            final(self).stage() == PllStage::Running,
            final(self).regs() == (PllRegs { rstb: 1, sdin: freq.sdin_of(), fcw: freq.fcw_of() as u32, sdm_update: 1, sdmin_bypass: 0, sdm_mode: 0, en_sdm_dither: 0, sdm_dither: 0, en_sdm: 1, sdmclk_pol: 0, csd_en: 1, csd_rst: 0, ..old(self).regs() }),
            final(self).pending() == old(self).pending() + sdm_ops(freq),
            final(self).origin() == old(self).origin(),
    {
        let ghost before = self.driver.pending();
        self.driver.modify(PllField::Rstb, 1);
        self.driver.delay_us(50);
        self.driver.store(PllField::Sdin, freq.sdin());
        self.driver.also(PllField::Fcw, freq.fcw() as u32);
        self.driver.also(PllField::SdmUpdate, 0);
        self.driver.also(PllField::SdminBypass, 1);
        self.driver.also(PllField::SdmMode, 0);
        self.driver.also(PllField::EnSdmDither, 0);
        self.driver.also(PllField::SdmDither, 0);
        self.driver.also(PllField::EnSdm, 1);
        self.driver.also(PllField::SdmclkPol, 0);
        self.driver.modify(PllField::SdmUpdate, 1);
        self.driver.modify(PllField::SdminBypass, 0);
        self.driver.modify(PllField::Rstb, 0);
        self.driver.delay_us(50);
        self.driver.modify(PllField::Rstb, 1);
        self.driver.delay_us(50);
        self.driver.modify(PllField::CsdEn, 1);
        self.driver.also(PllField::CsdRst, 1);
        self.driver.delay_us(50);
        self.driver.modify(PllField::CsdRst, 0);
        self.stage = PllStage::Running;
        assert(self.driver.pending() =~= before + sdm_ops(freq));
    }

    /// Switches the lock detector off once its status was read.
    pub fn finish_lock_check(&mut self)
        requires
            old(self).stage() == PllStage::Running,
        ensures
            final(self).stage() == PllStage::Running,
            final(self).regs() == (PllRegs { csd_en: 0, ..old(self).regs() }),
            final(self).pending() == old(self).pending() + lock_check_end_ops(),
            final(self).origin() == old(self).origin(),
    {
        let ghost before = self.driver.pending();
        self.driver.modify(PllField::CsdEn, 0);
        self.stage = PllStage::Running;
        assert(self.driver.pending() =~= before + lock_check_end_ops());
    }

    /// Switches the PLL off from whatever stage it is in: the analog part,
    /// the digital part, the reference generator and the bandgap.
    pub fn teardown(&mut self)
        ensures
            final(self).stage() == PllStage::TornDown,
            final(self).regs() == (PllRegs { en_iary: 0, en_vco: 0, en_ana: 0, en_dig: 0, en_sdm: 0, en_clk_dig: 0, refgen_en: 0, bg_cfg1: 0, bg_cfg2: 0, bg_en: 0, bg_en_smpl: 0, ..old(self).regs() }),
            final(self).pending() == old(self).pending() + teardown_ops(),
            final(self).origin() == old(self).origin(),
    {
        let ghost before = self.driver.pending();
        self.driver.modify(PllField::EnIary, 0);
        self.driver.also(PllField::EnVco, 0);
        self.driver.also(PllField::EnAna, 0);
        self.driver.modify(PllField::EnDig, 0);
        self.driver.modify(PllField::EnSdm, 0);
        self.driver.modify(PllField::EnClkDig, 0);
        self.driver.modify(PllField::RefgenEn, 0);
        self.driver.store(PllField::BgCfg1, 0);
        self.driver.store(PllField::BgCfg2, 0);
        self.driver.modify(PllField::BgEn, 0);
        self.driver.also(PllField::BgEnSmpl, 0);
        self.stage = PllStage::TornDown;
        assert(self.driver.pending() =~= before + teardown_ops());
    }
}

} // verus!
