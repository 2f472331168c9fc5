use sifli_hal::efuse::bank1::{get_bits, set_bits, Bank1Calibration, Bank1Primary, Bank1Vol2};
use sifli_hal::efuse::uid::Uid;
use sifli_hal::efuse::{compute_timings, init_timr, Efuse, Error};
use sifli_hal::time::Hertz;

#[test]
fn get_bits_across_words() {
    let mut words = [0u32; 8];
    words[0] = 0x8000_0000;
    words[1] = 0x0000_0001;

    assert_eq!(get_bits(&words, 31, 2), 0b11);
}

#[test]
fn bank1_decode_matches_c_extraction() {
    let mut words = [0u32; 8];
    set_bits(&mut words, 125, 1, 1);
    set_bits(&mut words, 126, 2, 0b10);
    set_bits(&mut words, 128, 2, 0b01);
    set_bits(&mut words, 130, 1, 1);
    set_bits(&mut words, 131, 4, 0b1111);
    set_bits(&mut words, 135, 4, 0b1010);

    let cal = Bank1Calibration::decode(&words);
    assert!(cal.primary.edr_cal_done);
    assert_eq!(cal.primary.pa_bm, 0b10);
    assert_eq!(cal.primary.dac_lsb_cnt, 0b01);
    assert!(cal.primary.tmxcap_flag);
    assert_eq!(cal.primary.tmxcap_ch78, 0b1111);
    assert_eq!(cal.primary.tmxcap_ch00, 0b1010);
}

#[test]
fn uid_words_le_roundtrip() {
    let bank0_words = [
        0x1122_3344,
        0x5566_7788,
        0x99aa_bbcc,
        0xddee_ff00,
        0,
        0,
        0,
        0,
    ];

    let uid = Uid::from_bank0_words(&bank0_words);
    assert_eq!(
        uid.bytes(),
        &[
            0x44, 0x33, 0x22, 0x11, 0x88, 0x77, 0x66, 0x55, 0xcc, 0xbb, 0xaa, 0x99, 0x00,
            0xff, 0xee, 0xdd
        ]
    );
    assert_eq!(
        uid.words_le(),
        [0x1122_3344, 0x5566_7788, 0x99aa_bbcc, 0xddee_ff00]
    );
}

/// Shift-and-mask over the 256-bit value, computed with wide integers.
fn reference(words: &[u32; 8], pos: u16, bits: u8) -> u32 {
    let mut out: u32 = 0;
    for i in 0..bits as u16 {
        let k = (pos + i) as usize;
        let bit = (words[k / 32] >> (k % 32)) & 1;
        out |= bit << i;
    }
    out
}

#[test]
fn get_bits_matches_reference_everywhere() {
    let words = [
        0xdead_beef,
        0x0123_4567,
        0x89ab_cdef,
        0xffff_0000,
        0x0f0f_0f0f,
        0x8000_0001,
        0x5555_aaaa,
        0x7654_3210,
    ];
    for bits in 1..=32u8 {
        for pos in 0..=(256 - bits as u16) {
            assert_eq!(get_bits(&words, pos, bits), reference(&words, pos, bits));
        }
    }
}

#[test]
fn get_bits_full_word_and_last_field() {
    let mut words = [0u32; 8];
    words[3] = 0xcafe_f00d;
    words[7] = 0xf000_0000;
    assert_eq!(get_bits(&words, 96, 32), 0xcafe_f00d);
    assert_eq!(get_bits(&words, 252, 4), 0xf);
    assert_eq!(get_bits(&words, 223, 32), 0xe000_0000);
}

#[test]
fn set_bits_then_get_bits_round_trips() {
    let mut words = [0xffff_ffffu32; 8];
    set_bits(&mut words, 61, 5, 0b10101);
    assert_eq!(get_bits(&words, 61, 5), 0b10101);
    assert_eq!(words[0], 0xffff_ffff);
    assert_eq!(get_bits(&words, 56, 5), 0b11111);
    assert_eq!(get_bits(&words, 66, 12), 0xfff);
    set_bits(&mut words, 30, 4, 0);
    assert_eq!(words[0], 0x3fff_ffff);
    assert_eq!(words[1] & 0x3, 0);
}

#[test]
fn set_bits_ignores_bits_above_the_width() {
    let mut words = [0u32; 8];
    set_bits(&mut words, 8, 4, 0xffff_fff5);
    assert_eq!(words[0], 0x0000_0500);
}

#[test]
fn bank1_decode_of_zero_bank_is_all_zero() {
    let words = [0u32; 8];
    let cal = Bank1Calibration::decode(&words);
    assert!(!cal.is_io18);
    assert_eq!(cal.primary.vbat_step, 0);
    assert_eq!(cal.vol2.tmxcap_ch00, 0);
}

#[test]
fn bank1_decode_field_positions() {
    let mut words = [0u32; 8];
    set_bits(&mut words, 124, 1, 1);
    set_bits(&mut words, 32, 12, 0xabc);
    set_bits(&mut words, 49, 12, 0x123);
    set_bits(&mut words, 116, 8, 0x5a);
    set_bits(&mut words, 242, 4, 0x9);
    set_bits(&mut words, 210, 12, 0xfed);
    let cal = Bank1Calibration::decode(&words);
    assert!(cal.is_io18);
    assert_eq!(cal.primary.adc_vol1_reg, 0xabc);
    assert_eq!(cal.primary.adc_vol2_reg, 0x123);
    assert_eq!(cal.primary.vbat_step, 0x5a);
    assert_eq!(cal.vol2.tmxcap_ch00, 0x9);
    assert_eq!(cal.vol2.vbat_reg, 0xfed);
    let primary = Bank1Primary::decode(&words);
    let vol2 = Bank1Vol2::decode(&words);
    assert_eq!(primary, cal.primary);
    assert_eq!(vol2, cal.vol2);
}

#[test]
fn compute_timings_at_48_mhz() {
    // 500 ns are 24 cycles, 20 ns not quite one, 10 us are 480.
    assert_eq!(compute_timings(48_000_000), Ok((25, 1, 480)));
}

#[test]
fn compute_timings_at_120_mhz() {
    assert_eq!(compute_timings(120_000_000), Ok((61, 3, 1200)));
}

#[test]
fn compute_timings_slow_clock_rounds_high_period() {
    // 10 us at 32768 Hz round to zero cycles, which is moved up to one.
    assert_eq!(compute_timings(32_768), Ok((1, 1, 1)));
}

#[test]
fn compute_timings_reports_high_period_out_of_range() {
    assert_eq!(
        compute_timings(210_000_000),
        Err(Error::TimingOutOfRange { field: "tckhp", value: 2100 })
    );
}

#[test]
fn compute_timings_reports_read_hold_out_of_range() {
    assert_eq!(
        compute_timings(254_000_000),
        Err(Error::TimingOutOfRange { field: "thrck", value: 128 })
    );
}

#[test]
fn init_timr_packs_the_three_fields() {
    let word = init_timr(Some(Hertz(48_000_000))).unwrap();
    assert_eq!(word, 25 | (1 << 7) | (480 << 10));
    let word = init_timr(Some(Hertz(120_000_000))).unwrap();
    assert_eq!(word & 0x7f, 61);
    assert_eq!((word >> 7) & 0x7, 3);
    assert_eq!((word >> 10) & 0x7ff, 1200);
}

#[test]
fn init_timr_refuses_unknown_and_fast_clocks() {
    assert_eq!(init_timr(None), Err(Error::PclkUnknown));
    assert_eq!(
        init_timr(Some(Hertz(120_000_001))),
        Err(Error::PclkTooFast { pclk_hz: 120_000_001 })
    );
}

#[test]
fn efuse_new_holds_the_timing_word() {
    let efuse = Efuse::new(Some(Hertz(48_000_000))).unwrap();
    assert_eq!(efuse.timr(), 25 | (1 << 7) | (480 << 10));
    assert!(matches!(Efuse::new(None), Err(Error::PclkUnknown)));
}
