//! The audio PLL as a single owned resource.
//!
//! A [`PllHost`] stands for the system that the PLL lives in: the register
//! fields with their stage, the oscillator's response to each tuning code,
//! the lock detector's status, the single-instance flag and the cache of
//! the PLL's clock frequencies. [`AudioPll::new`] runs the whole bring-up
//! on a host; [`AudioPll::release`] reverses it.

use crate::aud_pll::fields::PllRegs;
use crate::aud_pll::freq::{AudPllFreq, SampleRate};
use crate::aud_pll::fields::PllOp;
use crate::aud_pll::machine::{
    analog_ops, bandgap_ops, close_loop_ops, digital_ops, lock_check_end_ops, measure_begin_ops,
    measure_end_ops, open_loop_ops, sdm_ops, teardown_ops, PllMachine, PllStage,
};
use crate::aud_pll::vco::{asked, calibrated, VcoCalibration, VcoPhase, CAL_LEN, MAX_CODE};
use crate::regs::{
    bit_of, bits_of, pll_cal_cfg_done, pll_cal_result_cnt, pll_cfg0_en_ana, pll_stat_unlock,
};
use crate::rcc::clock::ClockCache;
use crate::time::Hertz;
use vstd::prelude::*;

verus! {

impl ClockCache {
    /// The cache while the PLL is off.
    pub open spec fn off() -> ClockCache {
        ClockCache { clk_aud_pll: None, clk_aud_pll_div16: None }
    }

    /// The cache while the PLL runs at `freq`.
    pub open spec fn running(freq: AudPllFreq) -> ClockCache {
        ClockCache {
            clk_aud_pll: Some(Hertz(freq.hz())),
            clk_aud_pll_div16: Some(Hertz(freq.hz() / 16)),
        }
    }
}

/// The system that hosts the PLL.
pub struct PllHost {
    /// The PLL's stage and register fields.
    pub machine: PllMachine,
    /// The count that a measurement gives at each tuning code.
    pub counts: [u16; 32],
    /// Whether the lock detector reports that the loop did not lock.
    pub unlock: bool,
    /// Whether an [`AudioPll`] exists.
    pub taken: bool,
    /// The cached clock frequencies.
    pub clocks: ClockCache,
}

impl PllHost {
    /// The parts of the host that no register sequence touches are those
    /// of `other`.
    pub open spec fn same_surroundings(&self, other: &PllHost) -> bool {
        &&& self.counts@ == other.counts@
        &&& self.unlock == other.unlock
        &&& self.taken == other.taken
        &&& self.clocks == other.clocks
        &&& self.machine.origin() == other.machine.origin()
    }

    /// A host after reset: all register fields zero, no PLL taken, nothing
    /// cached.
    pub fn new(counts: [u16; 32], unlock: bool) -> (r: PllHost)
        ensures
            r.machine.stage() == PllStage::Uninitialized,
            forall|f: crate::aud_pll::fields::PllField| #[trigger] r.machine.regs().field(f) == 0,
            r.counts@ == counts@,
            r.unlock == unlock,
            !r.taken,
            r.clocks == ClockCache::off(),
    {
        PllHost {
            machine: PllMachine::new(PllRegs::reset()),
            counts,
            unlock,
            taken: false,
            clocks: ClockCache { clk_aud_pll: None, clk_aud_pll_div16: None },
        }
    }
}

/// Whether the PLL is enabled, from the word read from its first
/// configuration register: the analog block's enable bit.
pub fn is_enabled(pll_cfg0: u32) -> (r: bool)
    ensures
        r == bit_of(pll_cfg0, 15),
{
    pll_cfg0_en_ana(pll_cfg0)
}

/// Whether a measurement has finished, from the word read from the
/// calibration configuration register.
pub fn measurement_done(pll_cal_cfg: u32) -> (r: bool)
    ensures
        r == bit_of(pll_cal_cfg, 1),
{
    pll_cal_cfg_done(pll_cal_cfg)
}

/// The count of a finished measurement, from the word read from the
/// calibration result register.
pub fn measurement_count(pll_cal_result: u32) -> (r: u16)
    ensures
        r == bits_of(pll_cal_result, 16, 0xffff),
{
    pll_cal_result_cnt(pll_cal_result)
}

/// Whether the loop failed to lock, from the word read from the PLL's
/// status register. A failure is a warning: bring-up goes on.
pub fn lock_failed(pll_stat: u32) -> (r: bool)
    ensures
        r == bit_of(pll_stat, 0),
{
    pll_stat_unlock(pll_stat)
}

/// Measures the oscillator once at the tuning code `fc_vco`: sets the
/// code, runs the counter, and returns the host's count for that code.
pub fn measure_vco(host: &mut PllHost, fc_vco: u8) -> (r: u16)
    requires
        old(host).machine.stage() == PllStage::OpenLoopCalibrating,
        fc_vco <= MAX_CODE,
    ensures
        r == old(host).counts@[fc_vco as int],
        final(host).machine.stage() == PllStage::OpenLoopCalibrating,
        final(host).machine.regs() == (PllRegs {
            fc_vco: fc_vco as u32,
            cal_en: 0,
            ..old(host).machine.regs()
        }),
        final(host).machine.pending() == old(host).machine.pending() + measure_begin_ops(fc_vco)
            + measure_end_ops(),
        final(host).same_surroundings(old(host)),
{
    host.machine.begin_measurement(fc_vco);
    let pll_cnt: u16 = host.counts[fc_vco as usize];
    host.machine.end_measurement();
    pll_cnt
}

/// The operations of the measurements at the codes `codes`, in order.
pub open spec fn measure_ops_of(codes: Seq<int>) -> Seq<PllOp>
    decreases codes.len(),
{
    if codes.len() == 0 {
        Seq::<PllOp>::empty()
    } else {
        measure_ops_of(codes.drop_last()) + measure_begin_ops(codes.last() as u8)
            + measure_end_ops()
    }
}

/// The operations of a whole calibration for the table `counts`: opening
/// the loop, every measurement in order, then closing the loop on the
/// chosen code.
pub open spec fn calibration_ops(counts: Seq<u16>) -> Seq<PllOp> {
    open_loop_ops() + measure_ops_of(asked(counts)) + close_loop_ops(calibrated(counts) as u8)
}

/// The operations of a whole bring-up at `freq` for the table `counts`,
/// stage after stage.
pub open spec fn bring_up_ops(counts: Seq<u16>, freq: AudPllFreq) -> Seq<PllOp> {
    bandgap_ops() + analog_ops() + digital_ops() + calibration_ops(counts) + sdm_ops(freq)
        + lock_check_end_ops()
}

/// Calibrates the oscillator: opens the loop, searches for the tuning code
/// whose count is closest to the target, compares it with its neighbours,
/// sets the best code and closes the loop.
pub fn vco_calibrate(host: &mut PllHost) -> (r: u8)
    requires
        old(host).machine.stage() == PllStage::DigitalPllEnabled,
    ensures
        r == calibrated(old(host).counts@),
        r <= MAX_CODE,
        final(host).machine.stage() == PllStage::Calibrated,
        final(host).machine.regs() == (PllRegs {
            open: 0,
            en_lf_vcin: 0,
            cal_en: 0,
            cal_len: CAL_LEN as u32,
            fc_vco: r as u32,
            ..old(host).machine.regs()
        }),
        final(host).machine.pending() == old(host).machine.pending() + calibration_ops(
            old(host).counts@,
        ),
        final(host).same_surroundings(old(host)),
{
    let ghost before = *host;
    host.machine.enter_open_loop();
    let ghost entered = host.machine.regs();
    let ghost opened = host.machine.pending();
    let ghost codes = Seq::<int>::empty();

    let mut m = VcoCalibration::start();
    proof {
        assert(codes + m.to_ask(host.counts@) =~= asked(host.counts@));
        assert(opened + measure_ops_of(codes) =~= opened);
    }
    loop
        invariant
            host.machine.stage() == PllStage::OpenLoopCalibrating,
            host.machine.regs() == (PllRegs { fc_vco: host.machine.regs().fc_vco, ..entered }),
            host.same_surroundings(&before),
            entered.cal_en == 0,
            m.follows(host.counts@),
            codes + m.to_ask(host.counts@) == asked(host.counts@),
            host.machine.pending() == opened + measure_ops_of(codes),
        ensures
            host.machine.stage() == PllStage::OpenLoopCalibrating,
            host.machine.regs() == (PllRegs { fc_vco: host.machine.regs().fc_vco, ..entered }),
            host.same_surroundings(&before),
            m.phase() == VcoPhase::Done,
            m.follows(host.counts@),
            host.machine.pending() == opened + measure_ops_of(asked(host.counts@)),
        decreases m.remaining(),
    {
        match m.next_code() {
            None => {
                proof {
                    assert(codes + Seq::<int>::empty() =~= codes);
                }
                break ;
            },
            Some(code) => {
                let ghost prior = m;
                let ghost pending = host.machine.pending();
                let cnt: u16 = measure_vco(host, code);
                m.record(cnt);
                proof {
                    crate::aud_pll::vco::lemma_follows_step(prior, m, host.counts@, cnt);
                    let longer = codes.push(code as int);
                    assert(longer.drop_last() =~= codes);
                    assert(longer + m.to_ask(host.counts@) =~= codes + (seq![code as int]
                        + m.to_ask(host.counts@)));
                    assert(host.machine.pending() =~= opened + measure_ops_of(longer));
                    codes = longer;
                }
            },
        }
    }
    let best_fc: u8 = match m.best() {
        Some(code) => code,
        None => crate::aud_pll::vco::START_CODE,
    };
    host.machine.exit_open_loop(best_fc);
    proof {
        assert(host.machine.pending() =~= before.machine.pending() + calibration_ops(
            before.counts@,
        ));
    }
    best_fc
}

/// Programs the dividers for `freq` and checks the lock detector. Returns
/// whether the loop failed to lock, which is a warning and stops nothing.
pub fn set_sdm_freq(host: &mut PllHost, freq: AudPllFreq) -> (r: bool)
    requires
        old(host).machine.stage() == PllStage::Calibrated,
    ensures
        r == old(host).unlock,
        final(host).machine.stage() == PllStage::Running,
        final(host).machine.regs() == (PllRegs {
            rstb: 1,
            sdin: freq.sdin_of(),
            fcw: freq.fcw_of() as u32,
            sdm_update: 1,
            sdmin_bypass: 0,
            sdm_mode: 0,
            en_sdm_dither: 0,
            sdm_dither: 0,
            en_sdm: 1,
            sdmclk_pol: 0,
            csd_en: 0,
            csd_rst: 0,
            ..old(host).machine.regs()
        }),
        final(host).machine.pending() == old(host).machine.pending() + sdm_ops(freq)
            + lock_check_end_ops(),
        final(host).same_surroundings(old(host)),
{
    host.machine.program_sdm(freq);
    let warn: bool = host.unlock;
    host.machine.finish_lock_check();
    warn
}

/// Records in the cache that the PLL runs at `freq`.
pub fn update_clocks_cache(clocks: &mut ClockCache, freq: AudPllFreq)
    ensures
        *final(clocks) == ClockCache::running(freq),
{
    let pll_hz: Hertz = freq.freq();
    clocks.clk_aud_pll = Some(pll_hz);
    clocks.clk_aud_pll_div16 = Some(Hertz(pll_hz.0 / 16));
}

/// The register fields of a PLL that was brought up from `before` to run at
/// `freq` with the tuning code `fc_vco`.
pub open spec fn brought_up(before: PllRegs, freq: AudPllFreq, fc_vco: u32) -> PllRegs {
    PllRegs {
        buf_aud_en: 1,
        codec_clock: 1,
        bg_en_rcflt: 0,
        bg_en: 1,
        bg_en_smpl: 0,
        en_iary: 1,
        en_vco: 1,
        en_ana: 1,
        icp_sel: 8,
        en_dig: 1,
        en_clk_dig: 1,
        r3_sel: 3,
        rz_sel: 1,
        c2_sel: 3,
        cz_sel: 6,
        open: 0,
        en_lf_vcin: 0,
        cal_en: 0,
        cal_len: CAL_LEN as u32,
        fc_vco,
        rstb: 1,
        sdin: freq.sdin_of(),
        fcw: freq.fcw_of() as u32,
        sdm_update: 1,
        sdmin_bypass: 0,
        sdm_mode: 0,
        en_sdm_dither: 0,
        sdm_dither: 0,
        en_sdm: 1,
        sdmclk_pol: 0,
        csd_en: 0,
        csd_rst: 0,
        ..before
    }
}

/// The register fields of a PLL that was switched off from `before`: every
/// enable that bring-up set is cleared.
pub open spec fn torn_down(before: PllRegs) -> PllRegs {
    PllRegs {
        en_iary: 0,
        en_vco: 0,
        en_ana: 0,
        en_dig: 0,
        en_sdm: 0,
        en_clk_dig: 0,
        refgen_en: 0,
        bg_cfg1: 0,
        bg_cfg2: 0,
        bg_en: 0,
        bg_en_smpl: 0,
        ..before
    }
}

/// The handle of the running audio PLL. At most one exists per host.
pub struct AudioPll {
    freq: AudPllFreq,
}

impl AudioPll {
    /// The frequency that the PLL was brought up for.
    pub closed spec fn configured(&self) -> AudPllFreq {
        self.freq
    }

    /// Brings the PLL up at `freq` and takes the host's single instance.
    ///
    /// The stages follow one another in order: bandgap, analog part,
    /// digital part, calibration, dividers. A failed lock is left in the
    /// host's status and stops nothing.
    pub fn new(freq: AudPllFreq, host: &mut PllHost) -> (r: AudioPll)
        requires
            !old(host).taken,
            old(host).machine.stage() == PllStage::Uninitialized || old(host).machine.stage()
                == PllStage::TornDown,
        ensures
            r.configured() == freq,
            final(host).taken,
            final(host).machine.stage() == PllStage::Running,
            final(host).machine.regs() == brought_up(
                old(host).machine.regs(),
                freq,
                calibrated(old(host).counts@) as u32,
            ),
            final(host).machine.pending() == old(host).machine.pending() + bring_up_ops(
                old(host).counts@,
                freq,
            ),
            final(host).clocks == ClockCache::running(freq),
            final(host).counts@ == old(host).counts@,
            final(host).unlock == old(host).unlock,
            final(host).machine.origin() == old(host).machine.origin(),
    {
        host.taken = true;
        host.machine.enable_bandgap();
        host.machine.enable_analog();
        host.machine.enable_digital();
        let _best: u8 = vco_calibrate(host);
        let _warn: bool = set_sdm_freq(host, freq);
        update_clocks_cache(&mut host.clocks, freq);
        proof {
            assert(host.machine.pending() =~= old(host).machine.pending() + bring_up_ops(
                old(host).counts@,
                freq,
            ));
        }
        AudioPll { freq }
    }

    /// The handle of a PLL that was brought up step by step on the host's
    /// machine, which takes the host's single instance.
    ///
    /// The handle is given when no instance is taken and the machine runs
    /// with the divider words of `freq`, and only then; the host then
    /// counts as taken and its cache holds the frequencies of `freq`.
    /// Otherwise the host stays as it is.
    pub fn adopt(freq: AudPllFreq, host: &mut PllHost) -> (r: Option<AudioPll>)
        ensures
            r.is_some() <==> !old(host).taken && old(host).machine.stage() == PllStage::Running
                && old(host).machine.regs().fcw == freq.fcw_of() && old(host).machine.regs().sdin
                == freq.sdin_of(),
            r matches Some(pll) ==> pll.configured() == freq && final(host).taken
                && final(host).clocks == ClockCache::running(freq),
            r is None ==> final(host).taken == old(host).taken
                && final(host).clocks == old(host).clocks,
            final(host).machine == old(host).machine,
            final(host).counts@ == old(host).counts@,
            final(host).unlock == old(host).unlock,
    {
        let regs = host.machine.current_regs();
        if !host.taken && host.machine.current_stage() == PllStage::Running && regs.fcw
            == freq.fcw() as u32 && regs.sdin == freq.sdin() {
            host.taken = true;
            update_clocks_cache(&mut host.clocks, freq);
            Some(AudioPll { freq })
        } else {
            None
        }
    }

    /// The frequency that the PLL was brought up for.
    pub fn freq(&self) -> (r: AudPllFreq)
        ensures
            r == self.configured(),
    {
        self.freq
    }

    /// Whether the PLL serves the sample rate: its frequency is the one
    /// that the rate's family needs.
    pub fn is_compatible(&self, sample_rate: SampleRate) -> (r: bool)
        ensures
            r == (self.configured() == sample_rate.required()),
    {
        let required = sample_rate.pll_freq();
        self.freq == required
    }

    /// States that the PLL serves the sample rate. One PLL cannot serve
    /// both families: a rate of the other family must not get here.
    pub fn assert_compatible(&self, sample_rate: SampleRate)
        requires
            self.configured() == sample_rate.required(),
    {
    }

    /// Switches the PLL off and gives the host's single instance back.
    ///
    /// Every enable that bring-up set is cleared, the cached frequencies
    /// are dropped and the host is free for a new PLL. The handle is used
    /// up, so a PLL is switched off once.
    pub fn release(self, host: &mut PllHost)
        ensures
            !final(host).taken,
            final(host).machine.stage() == PllStage::TornDown,
            final(host).machine.regs() == torn_down(old(host).machine.regs()),
            final(host).machine.pending() == old(host).machine.pending() + teardown_ops(),
            final(host).clocks == ClockCache::off(),
            final(host).counts@ == old(host).counts@,
            final(host).unlock == old(host).unlock,
            final(host).machine.origin() == old(host).machine.origin(),
    {
        host.machine.teardown();
        host.clocks = ClockCache { clk_aud_pll: None, clk_aud_pll_div16: None };
        host.taken = false;
    }

    /// The clock queries see the PLL: while it runs at `freq` the cache
    /// gives that frequency and its sixteenth, and while it is off the
    /// cache gives none.
    pub proof fn lemma_cache_follows_pll(freq: AudPllFreq)
        ensures
            ClockCache::running(freq).clk_aud_pll == Some(Hertz(freq.hz())),
            ClockCache::running(freq).clk_aud_pll_div16 == Some(Hertz(freq.hz() / 16)),
            ClockCache::off().clk_aud_pll is None,
            ClockCache::off().clk_aud_pll_div16 is None,
    {
    }

    /// After bring-up and teardown no enable is left set, whatever the
    /// fields held before.
    pub proof fn lemma_teardown_reverses_bring_up(before: PllRegs, freq: AudPllFreq, fc_vco: u32)
        ensures
            ({
                let after = torn_down(brought_up(before, freq, fc_vco));
                &&& after.bg_en == 0
                &&& after.en_iary == 0
                &&& after.en_vco == 0
                &&& after.en_ana == 0
                &&& after.en_dig == 0
                &&& after.en_sdm == 0
                &&& after.en_clk_dig == 0
                &&& after.open == 0
                &&& after.cal_en == 0
                &&& after.csd_en == 0
            }),
    {
    }
}

} // verus!
