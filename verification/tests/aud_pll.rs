use sifli_hal::aud_pll::fields::{PllDriver, PllField, PllOp, PllReg, PllRegs};
use sifli_hal::aud_pll::machine::{PllMachine, PllStage};
use sifli_hal::aud_pll::pll::{
    is_enabled, lock_failed, measure_vco, measurement_count, measurement_done, set_sdm_freq,
    update_clocks_cache, vco_calibrate, AudioPll, PllHost,
};
use sifli_hal::rcc::clock::{get_clk_aud_pll_div16_freq, get_clk_aud_pll_freq, ClockCache};
use sifli_hal::aud_pll::vco::{deviation_of, refine, VcoCalibration, CAL_LEN, TARGET_CNT};
use sifli_hal::aud_pll::{AudPllFreq, SampleRate};
use sifli_hal::time::Hertz;

/// A count that rises by `slope` per code around `centre`.
fn linear(centre: i32, slope: i32) -> [u16; 32] {
    let mut t = [0u16; 32];
    for (code, cnt) in t.iter_mut().enumerate() {
        *cnt = (1838 + (code as i32 - centre) * slope).clamp(0, 65_535) as u16;
    }
    t
}

/// What a binary search alone ends on.
fn naive(counts: &[u16; 32]) -> u8 {
    let mut fc: u8 = 16;
    let mut delta: u8 = 8;
    while delta != 0 {
        let cnt = counts[fc as usize];
        if cnt < TARGET_CNT {
            fc += delta;
        } else if cnt > TARGET_CNT {
            fc -= delta;
        }
        delta >>= 1;
    }
    fc
}

fn dev(cnt: u16) -> u32 {
    (cnt as i32 - 1838).unsigned_abs()
}

#[test]
fn pll_frequencies_and_divider_words() {
    assert_eq!(AudPllFreq::Mhz49_152.freq(), Hertz(49_152_000));
    assert_eq!(AudPllFreq::Mhz45_1584.freq(), Hertz(45_158_400));
    assert_eq!(AudPllFreq::Mhz44_1.freq(), Hertz(44_100_000));
    assert_eq!(AudPllFreq::Mhz49_152.fcw(), 5);
    assert_eq!(AudPllFreq::Mhz45_1584.fcw(), 4);
    assert_eq!(AudPllFreq::Mhz44_1.fcw(), 4);
    assert_eq!(AudPllFreq::Mhz49_152.sdin(), 201_327);
    assert_eq!(AudPllFreq::Mhz45_1584.sdin(), 551_970);
    assert_eq!(AudPllFreq::Mhz44_1.sdin(), 366_874);
}

#[test]
fn divider_words_synthesize_the_nominal_frequency() {
    for f in [AudPllFreq::Mhz49_152, AudPllFreq::Mhz45_1584, AudPllFreq::Mhz44_1] {
        let words = ((f.fcw() as u64 + 3) << 20) + f.sdin() as u64;
        let hz = (words * 6_000_000) >> 20;
        assert!(hz.abs_diff(f.freq().0 as u64) < 1_000);
    }
}

#[test]
fn sample_rates_map_to_their_family() {
    let family_48k = [
        (SampleRate::Hz8000, 8_000),
        (SampleRate::Hz12000, 12_000),
        (SampleRate::Hz16000, 16_000),
        (SampleRate::Hz24000, 24_000),
        (SampleRate::Hz32000, 32_000),
        (SampleRate::Hz48000, 48_000),
        (SampleRate::Hz96000, 96_000),
        (SampleRate::Hz192000, 192_000),
    ];
    for (rate, hz) in family_48k {
        assert_eq!(rate.freq(), Hertz(hz));
        assert_eq!(rate.pll_freq(), AudPllFreq::Mhz49_152);
        assert_eq!(49_152_000 % hz, 0);
    }
    let family_44k = [
        (SampleRate::Hz11025, 11_025),
        (SampleRate::Hz22050, 22_050),
        (SampleRate::Hz44100, 44_100),
    ];
    for (rate, hz) in family_44k {
        assert_eq!(rate.freq(), Hertz(hz));
        assert_eq!(rate.pll_freq(), AudPllFreq::Mhz45_1584);
        assert_eq!(45_158_400 % hz, 0);
    }
}

#[test]
fn deviation_and_refinement() {
    assert_eq!(deviation_of(1838), 0);
    assert_eq!(deviation_of(1800), 38);
    assert_eq!(deviation_of(2000), 162);
    assert_eq!(deviation_of(0), 1838);
    // Lower neighbour wins ties, then the upper one, then the middle.
    assert_eq!(refine(10, 1840, 1840, 1840), 9);
    assert_eq!(refine(10, 1900, 1840, 1836), 11);
    assert_eq!(refine(10, 1900, 1838, 1900), 10);
    assert_eq!(refine(10, 1839, 1838, 1900), 10);
    assert_eq!(refine(10, 1837, 1800, 1839), 9);
    // The ends of the range have one neighbour only.
    assert_eq!(refine(31, 1900, 1850, 1850), 31);
    assert_eq!(refine(31, 1840, 1850, 1850), 30);
    assert_eq!(refine(0, 1838, 1838, 1900), 0);
}

#[test]
fn calibration_machine_measures_seven_times() {
    let counts = linear(21, 10);
    let mut m = VcoCalibration::start();
    let mut asked = Vec::new();
    while let Some(code) = m.next_code() {
        asked.push(code);
        assert_eq!(m.best(), None);
        m.record(counts[code as usize]);
    }
    assert_eq!(asked, vec![16, 24, 20, 22, 21, 20, 22]);
    assert_eq!(m.best(), Some(21));
    // A finished run takes no more counts.
    m.record(0);
    assert_eq!(m.best(), Some(21));
    assert_eq!(m.next_code(), None);
}

#[test]
fn calibration_hits_an_exact_match() {
    for centre in 1..=31 {
        let counts = linear(centre, 25);
        assert_eq!(VcoCalibration::run(&counts), centre as u8);
    }
}

#[test]
fn refinement_repairs_a_search_that_ends_one_off() {
    // The target lies between codes 20 and 21, nearer to 20; the search
    // walks past it and ends on 21.
    let mut counts = linear(20, 40);
    for (code, cnt) in counts.iter_mut().enumerate() {
        *cnt = (1838 + (code as i32 - 20) * 40 - 5) as u16;
    }
    assert_eq!(naive(&counts), 21);
    assert_eq!(VcoCalibration::run(&counts), 20);
}

#[test]
fn two_phases_are_never_worse_than_the_search_alone() {
    let mut seed: u32 = 0x1234_5678;
    let mut next = move || {
        seed ^= seed << 13;
        seed ^= seed >> 17;
        seed ^= seed << 5;
        seed
    };
    for _ in 0..2_000 {
        let slope = 5 + (next() % 60) as i32;
        let centre = (next() % 40) as i32 - 4;
        let mut counts = linear(centre, slope);
        for cnt in counts.iter_mut() {
            let noise = (next() % 31) as i32 - 15;
            *cnt = (*cnt as i32 + noise).clamp(0, 65_535) as u16;
        }
        let found = naive(&counts);
        let chosen = VcoCalibration::run(&counts);
        assert!(chosen <= 31);
        assert!(chosen.abs_diff(found) <= 1);
        assert!(dev(counts[chosen as usize]) <= dev(counts[found as usize]));
    }
}

#[test]
fn calibration_on_flat_tables_stays_in_range() {
    assert_eq!(VcoCalibration::run(&[0u16; 32]), 30);
    assert_eq!(VcoCalibration::run(&[65_535u16; 32]), 0);
    assert_eq!(VcoCalibration::run(&[1838u16; 32]), 15);
}

#[test]
fn hardware_words_are_decoded() {
    assert!(is_enabled(1 << 15));
    assert!(!is_enabled(!(1 << 15)));
    assert!(measurement_done(0b10));
    assert!(!measurement_done(0b01));
    assert_eq!(measurement_count(0x072e_ffff), 1838);
    assert_eq!(measurement_count(0x0000_ffff), 0);
    assert!(lock_failed(1));
    assert!(!lock_failed(0xffff_fffe));
}

#[test]
fn driver_keeps_the_operations_in_order() {
    let mut d = PllDriver::new(PllRegs::reset());
    d.modify(PllField::BgEn, 1);
    d.delay_us(100);
    d.modify(PllField::IcpSel, 8);
    d.modify(PllField::BgEn, 0);
    assert_eq!(d.get(PllField::BgEn), 0);
    assert_eq!(d.get(PllField::IcpSel), 8);
    let ops = d.take_ops();
    assert_eq!(
        ops,
        vec![
            PllOp::Modify { field: PllField::BgEn, value: 1 },
            PllOp::DelayUs(100),
            PllOp::Modify { field: PllField::IcpSel, value: 8 },
            PllOp::Modify { field: PllField::BgEn, value: 0 },
        ]
    );
    assert!(d.take_ops().is_empty());
    // Replaying the operations gives the driver's values.
    let mut regs = PllRegs::reset();
    for op in ops {
        regs.apply(op);
    }
    assert_eq!(regs, d.current());
}

#[test]
fn stages_follow_one_another() {
    let mut m = PllMachine::new(PllRegs::reset());
    assert_eq!(m.current_stage(), PllStage::Uninitialized);
    m.enable_bandgap();
    assert_eq!(m.current_stage(), PllStage::BandgapEnabled);
    assert_eq!(m.current_regs().bg_en, 1);
    m.enable_analog();
    assert_eq!(m.current_stage(), PllStage::AnalogPllEnabled);
    assert_eq!(m.current_regs().icp_sel, 8);
    m.enable_digital();
    assert_eq!(m.current_stage(), PllStage::DigitalPllEnabled);
    m.enter_open_loop();
    assert_eq!(m.current_stage(), PllStage::OpenLoopCalibrating);
    assert_eq!(m.current_regs().cal_len, CAL_LEN as u32);
    m.begin_measurement(16);
    assert_eq!(m.current_regs().cal_en, 1);
    assert_eq!(m.current_regs().fc_vco, 16);
    m.end_measurement();
    assert_eq!(m.current_regs().cal_en, 0);
    m.exit_open_loop(17);
    assert_eq!(m.current_stage(), PllStage::Calibrated);
    assert_eq!(m.current_regs().open, 0);
    m.program_sdm(AudPllFreq::Mhz45_1584);
    assert_eq!(m.current_stage(), PllStage::Running);
    assert_eq!(m.current_regs().sdin, 551_970);
    assert_eq!(m.current_regs().csd_en, 1);
    m.finish_lock_check();
    assert_eq!(m.current_regs().csd_en, 0);
    m.teardown();
    assert_eq!(m.current_stage(), PllStage::TornDown);
}

#[test]
fn divider_programming_pulses_the_reset() {
    let mut m = PllMachine::new(PllRegs::reset());
    m.enable_bandgap();
    m.enable_analog();
    m.enable_digital();
    m.enter_open_loop();
    m.exit_open_loop(12);
    let _ = m.take_ops();
    m.program_sdm(AudPllFreq::Mhz49_152);
    let ops = m.take_ops();
    let m = |field, value| PllOp::Modify { field, value };
    let s = |field, value| PllOp::Store { field, value };
    let a = |field, value| PllOp::Also { field, value };
    assert_eq!(
        ops,
        vec![
            m(PllField::Rstb, 1),
            PllOp::DelayUs(50),
            // One write of the whole divider register.
            s(PllField::Sdin, 201_327),
            a(PllField::Fcw, 5),
            a(PllField::SdmUpdate, 0),
            a(PllField::SdminBypass, 1),
            a(PllField::SdmMode, 0),
            a(PllField::EnSdmDither, 0),
            a(PllField::SdmDither, 0),
            a(PllField::EnSdm, 1),
            a(PllField::SdmclkPol, 0),
            m(PllField::SdmUpdate, 1),
            m(PllField::SdminBypass, 0),
            m(PllField::Rstb, 0),
            PllOp::DelayUs(50),
            m(PllField::Rstb, 1),
            PllOp::DelayUs(50),
            // The lock detector is enabled and reset in one access.
            m(PllField::CsdEn, 1),
            a(PllField::CsdRst, 1),
            PllOp::DelayUs(50),
            m(PllField::CsdRst, 0),
        ]
    );
}

/// The register accesses of a list of operations: for each the register
/// and the number of fields that it changes.
fn accesses(ops: &[PllOp]) -> Vec<(PllReg, usize)> {
    let mut out: Vec<(PllReg, usize)> = Vec::new();
    for op in ops {
        match op {
            PllOp::Modify { field, .. } | PllOp::Store { field, .. } => {
                out.push((field.register(), 1));
            }
            PllOp::Also { field, .. } => {
                let last = out.last_mut().unwrap();
                assert_eq!(last.0, field.register());
                last.1 += 1;
            }
            PllOp::DelayUs(_) => {}
        }
    }
    out
}

#[test]
fn fields_of_one_access_stay_together() {
    let mut m = PllMachine::new(PllRegs::reset());
    m.enable_bandgap();
    m.enable_analog();
    assert!(accesses(&m.take_ops()).iter().all(|a| a.1 == 1));
    m.enable_digital();
    assert_eq!(
        accesses(&m.take_ops()),
        vec![(PllReg::PllCfg2, 1), (PllReg::PllCfg3, 1), (PllReg::PllCfg4, 1), (PllReg::PllCfg1, 6)]
    );
    m.enter_open_loop();
    assert_eq!(
        accesses(&m.take_ops()),
        vec![(PllReg::PllCfg0, 1), (PllReg::PllCfg2, 1), (PllReg::PllCalCfg, 2)]
    );
    m.exit_open_loop(9);
    m.program_sdm(AudPllFreq::Mhz44_1);
    m.finish_lock_check();
    let _ = m.take_ops();
    m.teardown();
    let ops = m.take_ops();
    assert_eq!(
        accesses(&ops),
        vec![
            (PllReg::PllCfg0, 3),
            (PllReg::PllCfg2, 1),
            (PllReg::PllCfg3, 1),
            (PllReg::PllCfg4, 1),
            (PllReg::RefgenCfg, 1),
            (PllReg::BgCfg1, 1),
            (PllReg::BgCfg2, 1),
            (PllReg::BgCfg0, 2),
        ]
    );
    assert_eq!(ops[7], PllOp::Store { field: PllField::BgCfg1, value: 0 });
}

#[test]
fn a_store_clears_the_other_fields_of_its_register() {
    let mut regs = PllRegs::reset();
    regs.apply(PllOp::Modify { field: PllField::Sdin, value: 7 });
    regs.apply(PllOp::Modify { field: PllField::EnSdm, value: 1 });
    regs.apply(PllOp::Modify { field: PllField::Rstb, value: 1 });
    regs.apply(PllOp::Store { field: PllField::Fcw, value: 5 });
    assert_eq!((regs.sdin, regs.en_sdm, regs.fcw), (0, 0, 5));
    assert_eq!(regs.rstb, 1);
    regs.apply(PllOp::Also { field: PllField::Sdin, value: 9 });
    assert_eq!((regs.sdin, regs.en_sdm, regs.fcw), (9, 0, 5));
    regs.clear(PllReg::PllCfg2);
    assert_eq!(regs.rstb, 0);
    assert_eq!(regs.fcw, 5);
}

#[test]
fn clock_queries_see_the_pll() {
    let mut host = PllHost::new(linear(16, 20), false);
    assert_eq!(get_clk_aud_pll_freq(&host.clocks), None);
    assert_eq!(get_clk_aud_pll_div16_freq(&host.clocks), None);
    let pll = AudioPll::new(AudPllFreq::Mhz45_1584, &mut host);
    assert_eq!(get_clk_aud_pll_freq(&host.clocks), Some(Hertz(45_158_400)));
    assert_eq!(get_clk_aud_pll_div16_freq(&host.clocks), Some(Hertz(2_822_400)));
    pll.release(&mut host);
    assert_eq!(get_clk_aud_pll_freq(&host.clocks), None);
    assert_eq!(get_clk_aud_pll_div16_freq(&host.clocks), None);
    let pll = AudioPll::new(AudPllFreq::Mhz44_1, &mut host);
    assert_eq!(get_clk_aud_pll_freq(&host.clocks), Some(Hertz(44_100_000)));
    pll.release(&mut host);
    let _pll = AudioPll::new(AudPllFreq::Mhz49_152, &mut host);
    assert_eq!(get_clk_aud_pll_freq(&host.clocks), Some(Hertz(49_152_000)));
    assert_eq!(get_clk_aud_pll_div16_freq(&host.clocks), Some(Hertz(3_072_000)));
}

#[test]
fn a_machine_that_runs_is_adopted_once() {
    let mut host = PllHost::new(linear(16, 20), false);
    assert!(AudioPll::adopt(AudPllFreq::Mhz49_152, &mut host).is_none());
    host.machine.enable_bandgap();
    host.machine.enable_analog();
    host.machine.enable_digital();
    host.machine.enter_open_loop();
    host.machine.exit_open_loop(16);
    assert!(AudioPll::adopt(AudPllFreq::Mhz49_152, &mut host).is_none());
    host.machine.program_sdm(AudPllFreq::Mhz49_152);
    host.machine.finish_lock_check();
    assert!(!host.taken);
    assert_eq!(host.clocks.clk_aud_pll, None);

    // The divider words must be those of the frequency.
    assert!(AudioPll::adopt(AudPllFreq::Mhz45_1584, &mut host).is_none());
    assert!(!host.taken);

    let pll = AudioPll::adopt(AudPllFreq::Mhz49_152, &mut host).unwrap();
    assert_eq!(pll.freq(), AudPllFreq::Mhz49_152);
    assert!(host.taken);
    assert_eq!(host.clocks.clk_aud_pll, Some(Hertz(49_152_000)));

    // While the instance is taken there is no second handle.
    assert!(AudioPll::adopt(AudPllFreq::Mhz49_152, &mut host).is_none());
    assert!(host.taken);

    pll.release(&mut host);
    assert!(!host.taken);
    assert!(AudioPll::adopt(AudPllFreq::Mhz49_152, &mut host).is_none());
}

#[test]
fn bring_up_and_release_on_a_host() {
    let counts = linear(13, 30);
    let mut host = PllHost::new(counts, false);
    assert!(!host.taken);
    assert_eq!(host.clocks, ClockCache { clk_aud_pll: None, clk_aud_pll_div16: None });

    let pll = AudioPll::new(AudPllFreq::Mhz49_152, &mut host);
    assert!(host.taken);
    assert_eq!(pll.freq(), AudPllFreq::Mhz49_152);
    assert_eq!(host.machine.current_stage(), PllStage::Running);
    let regs = host.machine.current_regs();
    assert_eq!(regs.fc_vco, 13);
    assert_eq!(regs.fcw, 5);
    assert_eq!(regs.sdin, 201_327);
    assert_eq!((regs.bg_en, regs.en_ana, regs.en_dig, regs.en_sdm, regs.en_clk_dig), (1, 1, 1, 1, 1));
    assert_eq!((regs.open, regs.en_lf_vcin, regs.cal_en, regs.csd_en), (0, 0, 0, 0));
    assert_eq!((regs.r3_sel, regs.rz_sel, regs.c2_sel, regs.cz_sel), (3, 1, 3, 6));
    assert_eq!(regs.rstb, 1);
    assert_eq!(regs.sdm_update, 1);
    assert_eq!(host.clocks.clk_aud_pll, Some(Hertz(49_152_000)));
    assert_eq!(host.clocks.clk_aud_pll_div16, Some(Hertz(3_072_000)));

    assert!(pll.is_compatible(SampleRate::Hz48000));
    assert!(!pll.is_compatible(SampleRate::Hz44100));
    pll.assert_compatible(SampleRate::Hz16000);

    pll.release(&mut host);
    assert!(!host.taken);
    assert_eq!(host.machine.current_stage(), PllStage::TornDown);
    let regs = host.machine.current_regs();
    assert_eq!(
        (regs.bg_en, regs.en_iary, regs.en_vco, regs.en_ana, regs.en_dig, regs.en_sdm, regs.en_clk_dig),
        (0, 0, 0, 0, 0, 0, 0)
    );
    assert_eq!(host.clocks, ClockCache { clk_aud_pll: None, clk_aud_pll_div16: None });

    // The host is free for a new instance.
    let again = AudioPll::new(AudPllFreq::Mhz45_1584, &mut host);
    assert_eq!(again.freq(), AudPllFreq::Mhz45_1584);
    assert_eq!(host.machine.current_regs().sdin, 551_970);
    assert_eq!(host.clocks.clk_aud_pll_div16, Some(Hertz(2_822_400)));
}

#[test]
fn failed_lock_is_a_warning_only() {
    let mut host = PllHost::new(linear(16, 20), true);
    host.machine.enable_bandgap();
    host.machine.enable_analog();
    host.machine.enable_digital();
    assert_eq!(vco_calibrate(&mut host), 16);
    assert!(set_sdm_freq(&mut host, AudPllFreq::Mhz44_1));
    assert_eq!(host.machine.current_stage(), PllStage::Running);
    assert_eq!(host.machine.current_regs().sdin, 366_874);
    assert_eq!(host.machine.current_regs().fcw, 4);
}

#[test]
fn measurement_sets_the_code_and_reads_its_count() {
    let mut host = PllHost::new(linear(8, 10), false);
    host.machine.enable_bandgap();
    host.machine.enable_analog();
    host.machine.enable_digital();
    host.machine.enter_open_loop();
    assert_eq!(measure_vco(&mut host, 8), 1838);
    assert_eq!(measure_vco(&mut host, 31), 1838 + 230);
    assert_eq!(host.machine.current_regs().fc_vco, 31);
    assert_eq!(host.machine.current_regs().cal_en, 0);
}

#[test]
fn clock_cache_follows_the_frequency() {
    let mut cache = ClockCache { clk_aud_pll: None, clk_aud_pll_div16: None };
    update_clocks_cache(&mut cache, AudPllFreq::Mhz44_1);
    assert_eq!(cache.clk_aud_pll, Some(Hertz(44_100_000)));
    assert_eq!(cache.clk_aud_pll_div16, Some(Hertz(2_756_250)));
}

#[test]
fn bring_up_decides_every_operation_in_order() {
    let counts = linear(21, 10);
    let mut host = PllHost::new(counts, false);
    let _pll = AudioPll::new(AudPllFreq::Mhz49_152, &mut host);
    let ops = host.machine.take_ops();
    assert_eq!(ops.len(), 7 + 4 + 10 + 4 + 7 * 3 + 4 + 21 + 1);
    assert_eq!(ops[0], PllOp::Modify { field: PllField::BufAudEn, value: 1 });
    assert_eq!(ops[7], PllOp::Modify { field: PllField::EnIary, value: 1 });
    assert_eq!(ops[21], PllOp::Modify { field: PllField::Open, value: 1 });
    assert_eq!(ops[ops.len() - 1], PllOp::Modify { field: PllField::CsdEn, value: 0 });

    let codes: Vec<u32> = ops
        .iter()
        .filter_map(|op| match op {
            PllOp::Modify { field: PllField::FcVco, value } => Some(*value),
            _ => None,
        })
        .collect();
    assert_eq!(codes, vec![16, 24, 20, 22, 21, 20, 22, 21]);

    let waited: u32 = ops
        .iter()
        .map(|op| match op {
            PllOp::DelayUs(us) => *us,
            _ => 0,
        })
        .sum();
    assert_eq!(waited, 100 + 100 + 50 + 50 + 4 * 50);

    // Carried out in order on the reset values, the operations give the
    // values that the host reports.
    let mut regs = PllRegs::reset();
    for op in ops {
        regs.apply(op);
    }
    assert_eq!(regs, host.machine.current_regs());
}
