//! SF32LB52x EFUSE bank 1: factory calibration values.
//!
//! A bank is 256 bits, held as eight 32-bit words. Bit `k` of the bank is
//! bit `k % 32` of word `k / 32`.

use vstd::prelude::*;

verus! {

/// Bit `i` of a 32-bit word.
pub open spec fn word_bit(w: u32, i: int) -> bool {
    (w >> (i as u32)) & 1 == 1
}

/// Bit `k` of a bank held as 32-bit words, least significant word first.
pub open spec fn bank_bit(words: Seq<u32>, k: int) -> bool {
    word_bit(words[k / 32], k % 32)
}

/// Bank bit `pos + i`: place `i` of the run of bits that starts at `pos`.
pub open spec fn field_bit(words: Seq<u32>, pos: int, i: int) -> bool {
    bank_bit(words, pos + i)
}

/// The number whose binary digits are the `bits` bank bits that start at
/// `pos`, least significant first.
pub open spec fn field(words: Seq<u32>, pos: int, bits: nat) -> nat
    decreases bits,
{
    if bits == 0 {
        0
    } else {
        (if bank_bit(words, pos) { 1nat } else { 0nat })
            + 2 * field(words, pos + 1, (bits - 1) as nat)
    }
}

/// 2 to the power `n`.
pub open spec fn pow2(n: nat) -> nat
    decreases n,
{
    if n == 0 {
        1
    } else {
        2 * pow2((n - 1) as nat)
    }
}

/// A field of `bits` bits is below 2 to the power `bits`.
pub proof fn lemma_field_bound(words: Seq<u32>, pos: int, bits: nat)
    ensures
        field(words, pos, bits) < pow2(bits),
    decreases bits,
{
    if bits > 0 {
        lemma_field_bound(words, pos + 1, (bits - 1) as nat);
    }
}

proof fn lemma_pow2_values()
    ensures
        pow2(0) == 1,
        pow2(8) == 256,
        pow2(32) == 0x1_0000_0000,
{
    reveal_with_fuel(pow2, 33);
}

proof fn lemma_low_bit(x: u32)
    by (bit_vector)
    ensures
        x == (x & 1) + 2 * (x >> 1),
        x & 1 == 0 || x & 1 == 1,
{
}

proof fn lemma_shifted_bit(x: u32, i: u32)
    by (bit_vector)
    requires
        i < 32,
    ensures
        (((x >> 1) >> i) & 1 == 1) == (i < 31 && (x >> ((i + 1) as u32)) & 1 == 1),
{
}

proof fn lemma_bit_zero(x: u32)
    by (bit_vector)
    ensures
        ((x >> 0) & 1 == 1) == (x & 1 == 1),
{
}

proof fn lemma_half(x: u32)
    by (bit_vector)
    ensures
        x >> 1 == x / 2,
{
}

proof fn lemma_shl_step(n: u32)
    by (bit_vector)
    requires
        n < 31,
    ensures
        (1u32 << ((n + 1) as u32)) == 2 * (1u32 << n),
        (1u32 << 0) == 1,
{
}

/// Shifting one left by `n` places gives 2 to the power `n`.
proof fn lemma_shl_pow2(n: nat)
    requires
        n < 32,
    ensures
        (1u32 << (n as u32)) == pow2(n),
    decreases n,
{
    if n == 0 {
        lemma_shl_step(0);
    } else {
        lemma_shl_pow2((n - 1) as nat);
        lemma_shl_step((n - 1) as u32);
    }
}

/// A word below 2 to the power `bits` whose low `bits` bits are the bank
/// bits from `pos` on is the field's number.
proof fn lemma_bits_give_field(words: Seq<u32>, pos: int, bits: nat, x: u32)
    requires
        bits <= 32,
        x < pow2(bits),
        forall|i: int| 0 <= i < bits ==> #[trigger] word_bit(x, i) == bank_bit(words, pos + i),
    ensures
        x == field(words, pos, bits),
    decreases bits,
{
    if bits > 0 {
        let y: u32 = x >> 1;
        lemma_half(x);
        assert forall|i: int| 0 <= i < bits - 1 implies #[trigger] word_bit(y, i) == bank_bit(
            words,
            pos + 1 + i,
        ) by {
            lemma_shifted_bit(x, i as u32);
            assert(word_bit(x, i + 1) == bank_bit(words, pos + (i + 1)));
        }
        lemma_bits_give_field(words, pos + 1, (bits - 1) as nat, y);
        lemma_low_bit(x);
        lemma_bit_zero(x);
        assert(word_bit(x, 0) == bank_bit(words, pos + 0));
    }
}

proof fn lemma_masked_bound(v: u32, bits: u32)
    by (bit_vector)
    requires
        1 <= bits < 32,
    ensures
        v & (((1u32 << bits) - 1) as u32) < (1u32 << bits),
        1 <= (1u32 << bits),
{
}

proof fn lemma_extract_bit(lo: u32, hi: u32, b: u32, bits: u32, i: u32)
    by (bit_vector)
    requires
        b < 32,
        1 <= bits <= 32,
        i < 32,
    ensures
        ({
            let v = if bits > 32 - b {
                (lo >> b) | (hi << ((32 - b) as u32))
            } else {
                lo >> b
            };
            let r = if bits == 32 {
                v
            } else {
                v & (((1u32 << bits) - 1) as u32)
            };
            ((r >> i) & 1 == 1) == (i < bits && (if i + b < 32 {
                (lo >> ((i + b) as u32)) & 1 == 1
            } else {
                (hi >> ((i + b - 32) as u32)) & 1 == 1
            }))
        }),
{
}

/// Extracts the `bits`-wide field that starts at bank bit `pos`.
///
/// The field may straddle two words. Bit `i` of the result is bank bit
/// `pos + i` for `i < bits`, and zero above.
pub fn get_bits(words: &[u32; 8], pos: u16, bits: u8) -> (r: u32)
    requires
        1 <= bits <= 32,
        pos + bits <= 256,
    ensures
        r == field(words@, pos as int, bits as nat),
        forall|i: int| 0 <= i < 32 ==> #[trigger] word_bit(r, i) == (i < bits && bank_bit(words@, pos + i)),
{
    let word_index: usize = (pos / 32) as usize;
    let bit_index: u32 = (pos % 32) as u32;
    let width: u32 = bits as u32;

    let lo: u32 = words[word_index];
    let hi: u32 = if word_index + 1 < 8 {
        words[word_index + 1]
    } else {
        0
    };
    let bits_in_low: u32 = 32 - bit_index;
    let mut val: u32 = lo >> bit_index;
    if width > bits_in_low {
        val = val | (hi << bits_in_low);
    }
    let r: u32 = if width == 32 {
        val
    } else {
        proof {
            lemma_masked_bound(val, width);
            lemma_shl_pow2(width as nat);
        }
        val & ((1u32 << width) - 1)
    };
    proof {
        assert forall|i: int| 0 <= i < 32 implies #[trigger] word_bit(r, i) == (i < bits && bank_bit(
            words@,
            pos + i,
        )) by {
            lemma_extract_bit(lo, hi, bit_index, width, i as u32);
            if i < bits {
                let k = pos + i;
                if i + bit_index < 32 {
                    assert(k / 32 == word_index && k % 32 == i + bit_index);
                } else {
                    assert(k / 32 == word_index + 1 && k % 32 == i + bit_index - 32);
                }
            }
        }
        lemma_pow2_values();
        lemma_bits_give_field(words@, pos as int, bits as nat, r);
    }
    r
}

/// Smaller exponents give smaller powers of two.
pub proof fn lemma_pow2_monotone(a: nat, b: nat)
    requires
        a <= b,
    ensures
        pow2(a) <= pow2(b),
        pow2(a) >= 1,
    decreases b,
{
    if a < b {
        lemma_pow2_monotone(a, (b - 1) as nat);
    } else if a > 0 {
        lemma_pow2_monotone((a - 1) as nat, (a - 1) as nat);
    }
}

/// Two runs of bank bits that agree place by place give the same number.
pub proof fn lemma_field_agree(left: Seq<u32>, left_pos: int, right: Seq<u32>, right_pos: int, bits: nat)
    requires
        forall|i: int| 0 <= i < bits ==> #[trigger] field_bit(left, left_pos, i) == field_bit(right, right_pos, i),
    ensures
        field(left, left_pos, bits) == field(right, right_pos, bits),
    decreases bits,
{
    if bits > 0 {
        assert(field_bit(left, left_pos, 0) == field_bit(right, right_pos, 0));
        assert forall|i: int| 0 <= i < bits - 1 implies #[trigger] field_bit(left, left_pos + 1, i)
            == field_bit(right, right_pos + 1, i) by {
            assert(field_bit(left, left_pos, i + 1) == field_bit(right, right_pos, i + 1));
        }
        lemma_field_agree(left, left_pos + 1, right, right_pos + 1, (bits - 1) as nat);
    }
}

/// A field of `a + b` bits is its low `a` bits plus 2 to the power `a`
/// times the `b` bits above them.
pub proof fn lemma_field_split(words: Seq<u32>, pos: int, a: nat, b: nat)
    ensures
        field(words, pos, a + b) == field(words, pos, a) + pow2(a) * field(words, pos + a, b),
    decreases a,
{
    if a == 0 {
        assert(pow2(0) * field(words, pos, b) == field(words, pos, b)) by (nonlinear_arith)
            requires
                pow2(0) == 1,
        ;
    } else {
        let rest = field(words, pos + a, b);
        let half = pow2((a - 1) as nat);
        lemma_field_split(words, pos + 1, (a - 1) as nat, b);
        assert(field(words, pos + 1, (a - 1 + b) as nat) == field(words, pos + 1, (a - 1) as nat)
            + half * rest);
        assert(2 * (half * rest) == (2 * half) * rest) by (nonlinear_arith);
        assert((a + b - 1) as nat == (a - 1 + b) as nat);
    }
}

/// The 256-bit number that the eight words spell, least significant word
/// first.
pub open spec fn bank_value(words: Seq<u32>) -> nat {
    (words[0] as nat) + pow2(32) * (words[1] as nat) + pow2(64) * (words[2] as nat) + pow2(96) * (
    words[3] as nat) + pow2(128) * (words[4] as nat) + pow2(160) * (words[5] as nat) + pow2(192)
        * (words[6] as nat) + pow2(224) * (words[7] as nat)
}

/// Word `k` of a bank is the 32-bit field at bit `32 * k`.
proof fn lemma_word_is_field(words: Seq<u32>, k: int)
    requires
        0 <= k < words.len(),
    ensures
        words[k] == field(words, 32 * k, 32),
{
    lemma_pow2_values();
    assert forall|i: int| 0 <= i < 32 implies #[trigger] word_bit(words[k], i) == bank_bit(
        words,
        32 * k + i,
    ) by {
        assert((32 * k + i) / 32 == k && (32 * k + i) % 32 == i);
    }
    lemma_bits_give_field(words, 32 * k, 32, words[k]);
}

/// The bank's number is the field that covers all 256 bits.
proof fn lemma_bank_value_is_field(words: Seq<u32>)
    requires
        words.len() == 8,
    ensures
        bank_value(words) == field(words, 0, 256),
{
    lemma_word_is_field(words, 0);
    lemma_word_is_field(words, 1);
    lemma_word_is_field(words, 2);
    lemma_word_is_field(words, 3);
    lemma_word_is_field(words, 4);
    lemma_word_is_field(words, 5);
    lemma_word_is_field(words, 6);
    lemma_word_is_field(words, 7);
    lemma_field_split(words, 0, 224, 32);
    lemma_field_split(words, 0, 192, 32);
    lemma_field_split(words, 0, 160, 32);
    lemma_field_split(words, 0, 128, 32);
    lemma_field_split(words, 0, 96, 32);
    lemma_field_split(words, 0, 64, 32);
    lemma_field_split(words, 0, 32, 32);
}

/// Extraction is shift-and-mask on the 256-bit number: the field at `pos`
/// of width `bits` is the bank's number divided by 2 to the power `pos`,
/// taken modulo 2 to the power `bits`.
pub proof fn lemma_field_is_shift_and_mask(words: Seq<u32>, pos: nat, bits: nat)
    requires
        words.len() == 8,
        pos + bits <= 256,
    ensures
        pow2(pos) > 0,
        pow2(bits) > 0,
        field(words, pos as int, bits) == (bank_value(words) / pow2(pos)) % pow2(bits),
{
    let low = field(words, 0, pos);
    let high = field(words, pos as int, (256 - pos) as nat);
    let top = field(words, (pos + bits) as int, (256 - pos - bits) as nat);
    let f = field(words, pos as int, bits);
    lemma_bank_value_is_field(words);
    lemma_field_split(words, 0, pos, (256 - pos) as nat);
    lemma_field_split(words, pos as int, bits, (256 - pos - bits) as nat);
    lemma_field_bound(words, 0, pos);
    lemma_field_bound(words, pos as int, bits);
    lemma_pow2_monotone(0, pos);
    lemma_pow2_monotone(0, bits);
    assert((pos + (256 - pos) as nat) as nat == 256);
    assert((bits + (256 - pos - bits) as nat) as nat == (256 - pos) as nat);
    assert(bank_value(words) == low + pow2(pos) * high);
    assert(high == f + pow2(bits) * top);
    assert(pow2(pos) * high == high * pow2(pos)) by (nonlinear_arith);
    assert(pow2(bits) * top == top * pow2(bits)) by (nonlinear_arith);
    vstd::arithmetic::div_mod::lemma_fundamental_div_mod_converse(
        bank_value(words) as int,
        pow2(pos) as int,
        high as int,
        low as int,
    );
    vstd::arithmetic::div_mod::lemma_fundamental_div_mod_converse(
        high as int,
        pow2(bits) as int,
        top as int,
        f as int,
    );
}

fn get_u8(words: &[u32; 8], pos: u16, bits: u8) -> (r: u8)
    requires
        1 <= bits <= 8,
        pos + bits <= 256,
    ensures
        r == field(words@, pos as int, bits as nat),
{
    let v: u32 = get_bits(words, pos, bits);
    proof {
        lemma_field_bound(words@, pos as int, bits as nat);
        lemma_pow2_monotone(bits as nat, 8);
        lemma_pow2_values();
    }
    v as u8
}

fn get_u16(words: &[u32; 8], pos: u16, bits: u8) -> (r: u16)
    requires
        1 <= bits <= 16,
        pos + bits <= 256,
    ensures
        r == field(words@, pos as int, bits as nat),
{
    let v: u32 = get_bits(words, pos, bits);
    proof {
        lemma_field_bound(words@, pos as int, bits as nat);
        lemma_pow2_monotone(bits as nat, 16);
        reveal_with_fuel(pow2, 17);
    }
    v as u16
}

fn get_flag(words: &[u32; 8], pos: u16) -> (r: bool)
    requires
        pos < 256,
    ensures
        r == bank_bit(words@, pos as int),
{
    let v: u32 = get_bits(words, pos, 1);
    proof {
        reveal_with_fuel(field, 2);
    }
    v != 0
}


/// Bank 1 calibration fields at bit positions 0..=159.
#[derive(Debug, Copy, Clone, PartialEq, Eq, Structural)]
pub struct Bank1Primary {
    /// Bits 0..=2.
    pub buck_vos_trim: u8,
    /// Bit 3.
    pub buck_vos_polar: bool,
    /// Bits 4..=7.
    pub hpsys_ldo_vout: u8,
    /// Bits 8..=11.
    pub lpsys_ldo_vout: u8,
    /// Bits 12..=15.
    pub vret_trim: u8,
    /// Bits 16..=19.
    pub ldo18_vref_sel: u8,
    /// Bits 20..=23.
    pub vdd33_ldo2_vout: u8,
    /// Bits 24..=27.
    pub vdd33_ldo3_vout: u8,
    /// Bits 28..=31.
    pub aon_vos_trim: u8,
    /// Bit 31.
    pub aon_vos_polar: bool,
    /// Bits 32..=43.
    pub adc_vol1_reg: u16,
    /// Bits 44..=48.
    pub volt1_100mv: u8,
    /// Bits 49..=60.
    pub adc_vol2_reg: u16,
    /// Bits 61..=65.
    pub volt2_100mv: u8,
    /// Bits 66..=77.
    pub vbat_reg: u16,
    /// Bits 78..=83.
    pub vbat_volt_100mv: u8,
    /// Bits 84..=87.
    pub prog_v1p2: u8,
    /// Bits 88..=93.
    pub cv_vctrl: u8,
    /// Bits 94..=98.
    pub cc_mn: u8,
    /// Bits 99..=103.
    pub cc_mp: u8,
    /// Bits 104..=106.
    pub buck_vos_trim2: u8,
    /// Bit 107.
    pub buck_vos_polar2: bool,
    /// Bits 108..=111.
    pub hpsys_ldo_vout2: u8,
    /// Bits 112..=115.
    pub lpsys_ldo_vout2: u8,
    /// Bits 116..=123.
    pub vbat_step: u8,
    /// Bit 125.
    pub edr_cal_done: bool,
    /// Bits 126..=127.
    pub pa_bm: u8,
    /// Bits 128..=129.
    pub dac_lsb_cnt: u8,
    /// Bit 130.
    pub tmxcap_flag: bool,
    /// Bits 131..=134.
    pub tmxcap_ch78: u8,
    /// Bits 135..=138.
    pub tmxcap_ch00: u8,
    /// Bit 139.
    pub vref_flag: bool,
    /// Bits 140..=143.
    pub vref_reg: u8,
}

/// Bank 1 calibration fields at bit positions 160..=255.
#[derive(Debug, Copy, Clone, PartialEq, Eq, Structural)]
pub struct Bank1Vol2 {
    /// Bits 160..=162.
    pub buck_vos_trim: u8,
    /// Bit 163.
    pub buck_vos_polar: bool,
    /// Bits 164..=167.
    pub hpsys_ldo_vout: u8,
    /// Bits 168..=171.
    pub lpsys_ldo_vout: u8,
    /// Bits 172..=175.
    pub vret_trim: u8,
    /// Bits 176..=187.
    pub adc_vol1_reg: u16,
    /// Bits 188..=192.
    pub volt1_100mv: u8,
    /// Bits 193..=204.
    pub adc_vol2_reg: u16,
    /// Bits 205..=209.
    pub volt2_100mv: u8,
    /// Bits 210..=221.
    pub vbat_reg: u16,
    /// Bits 222..=227.
    pub vbat_volt_100mv: u8,
    /// Bits 228..=231.
    pub hpsys_ldo_vout2: u8,
    /// Bit 232.
    pub edr_cal_flag: bool,
    /// Bits 233..=234.
    pub pa_bm: u8,
    /// Bits 235..=236.
    pub dac_lsb_cnt: u8,
    /// Bit 237.
    pub tmxcap_flag: bool,
    /// Bits 238..=241.
    pub tmxcap_ch78: u8,
    /// Bits 242..=245.
    pub tmxcap_ch00: u8,
}

/// Decoded EFUSE bank 1 calibration values.
#[derive(Debug, Copy, Clone, PartialEq, Eq, Structural)]
pub struct Bank1Calibration {
    pub primary: Bank1Primary,
    pub vol2: Bank1Vol2,
    /// Bit 124: the I/O supply is 1.8 V.
    pub is_io18: bool,
}

impl Bank1Calibration {
    /// The calibration record that the bank's words spell.
    pub open spec fn decoded(words: Seq<u32>) -> Bank1Calibration {
        Bank1Calibration {
            primary: Bank1Primary::decoded(words),
            vol2: Bank1Vol2::decoded(words),
            is_io18: bank_bit(words, 124),
        }
    }

    /// Decodes the calibration record from the bank's eight words.
    pub fn decode(words: &[u32; 8]) -> (r: Bank1Calibration)
        ensures
            r == Bank1Calibration::decoded(words@),
    {
        Bank1Calibration {
            primary: Bank1Primary::decode(words),
            vol2: Bank1Vol2::decode(words),
            is_io18: get_flag(words, 124),
        }
    }
}

impl Bank1Primary {
    /// The record that the bank's words spell.
    pub open spec fn decoded(words: Seq<u32>) -> Bank1Primary {
        Bank1Primary {
            buck_vos_trim: field(words, 0, 3) as u8,
            buck_vos_polar: bank_bit(words, 3),
            hpsys_ldo_vout: field(words, 4, 4) as u8,
            lpsys_ldo_vout: field(words, 8, 4) as u8,
            vret_trim: field(words, 12, 4) as u8,
            ldo18_vref_sel: field(words, 16, 4) as u8,
            vdd33_ldo2_vout: field(words, 20, 4) as u8,
            vdd33_ldo3_vout: field(words, 24, 4) as u8,
            aon_vos_trim: field(words, 28, 4) as u8,
            aon_vos_polar: bank_bit(words, 31),
            adc_vol1_reg: field(words, 32, 12) as u16,
            volt1_100mv: field(words, 44, 5) as u8,
            adc_vol2_reg: field(words, 49, 12) as u16,
            volt2_100mv: field(words, 61, 5) as u8,
            vbat_reg: field(words, 66, 12) as u16,
            vbat_volt_100mv: field(words, 78, 6) as u8,
            prog_v1p2: field(words, 84, 4) as u8,
            cv_vctrl: field(words, 88, 6) as u8,
            cc_mn: field(words, 94, 5) as u8,
            cc_mp: field(words, 99, 5) as u8,
            buck_vos_trim2: field(words, 104, 3) as u8,
            buck_vos_polar2: bank_bit(words, 107),
            hpsys_ldo_vout2: field(words, 108, 4) as u8,
            lpsys_ldo_vout2: field(words, 112, 4) as u8,
            vbat_step: field(words, 116, 8) as u8,
            edr_cal_done: bank_bit(words, 125),
            pa_bm: field(words, 126, 2) as u8,
            dac_lsb_cnt: field(words, 128, 2) as u8,
            tmxcap_flag: bank_bit(words, 130),
            tmxcap_ch78: field(words, 131, 4) as u8,
            tmxcap_ch00: field(words, 135, 4) as u8,
            vref_flag: bank_bit(words, 139),
            vref_reg: field(words, 140, 4) as u8,
        }
    }

    /// Decodes the record from the bank's eight words.
    pub fn decode(words: &[u32; 8]) -> (r: Bank1Primary)
        ensures
            r == Bank1Primary::decoded(words@),
    {
        Bank1Primary {
            buck_vos_trim: get_u8(words, 0, 3),
            buck_vos_polar: get_flag(words, 3),
            hpsys_ldo_vout: get_u8(words, 4, 4),
            lpsys_ldo_vout: get_u8(words, 8, 4),
            vret_trim: get_u8(words, 12, 4),
            ldo18_vref_sel: get_u8(words, 16, 4),
            vdd33_ldo2_vout: get_u8(words, 20, 4),
            vdd33_ldo3_vout: get_u8(words, 24, 4),
            aon_vos_trim: get_u8(words, 28, 4),
            aon_vos_polar: get_flag(words, 31),
            adc_vol1_reg: get_u16(words, 32, 12),
            volt1_100mv: get_u8(words, 44, 5),
            adc_vol2_reg: get_u16(words, 49, 12),
            volt2_100mv: get_u8(words, 61, 5),
            vbat_reg: get_u16(words, 66, 12),
            vbat_volt_100mv: get_u8(words, 78, 6),
            prog_v1p2: get_u8(words, 84, 4),
            cv_vctrl: get_u8(words, 88, 6),
            cc_mn: get_u8(words, 94, 5),
            cc_mp: get_u8(words, 99, 5),
            buck_vos_trim2: get_u8(words, 104, 3),
            buck_vos_polar2: get_flag(words, 107),
            hpsys_ldo_vout2: get_u8(words, 108, 4),
            lpsys_ldo_vout2: get_u8(words, 112, 4),
            vbat_step: get_u8(words, 116, 8),
            edr_cal_done: get_flag(words, 125),
            pa_bm: get_u8(words, 126, 2),
            dac_lsb_cnt: get_u8(words, 128, 2),
            tmxcap_flag: get_flag(words, 130),
            tmxcap_ch78: get_u8(words, 131, 4),
            tmxcap_ch00: get_u8(words, 135, 4),
            vref_flag: get_flag(words, 139),
            vref_reg: get_u8(words, 140, 4),
        }
    }
}

impl Bank1Vol2 {
    /// The record that the bank's words spell.
    pub open spec fn decoded(words: Seq<u32>) -> Bank1Vol2 {
        Bank1Vol2 {
            buck_vos_trim: field(words, 160, 3) as u8,
            buck_vos_polar: bank_bit(words, 163),
            hpsys_ldo_vout: field(words, 164, 4) as u8,
            lpsys_ldo_vout: field(words, 168, 4) as u8,
            vret_trim: field(words, 172, 4) as u8,
            adc_vol1_reg: field(words, 176, 12) as u16,
            volt1_100mv: field(words, 188, 5) as u8,
            adc_vol2_reg: field(words, 193, 12) as u16,
            volt2_100mv: field(words, 205, 5) as u8,
            vbat_reg: field(words, 210, 12) as u16,
            vbat_volt_100mv: field(words, 222, 6) as u8,
            hpsys_ldo_vout2: field(words, 228, 4) as u8,
            edr_cal_flag: bank_bit(words, 232),
            pa_bm: field(words, 233, 2) as u8,
            dac_lsb_cnt: field(words, 235, 2) as u8,
            tmxcap_flag: bank_bit(words, 237),
            tmxcap_ch78: field(words, 238, 4) as u8,
            tmxcap_ch00: field(words, 242, 4) as u8,
        }
    }

    /// Decodes the record from the bank's eight words.
    pub fn decode(words: &[u32; 8]) -> (r: Bank1Vol2)
        ensures
            r == Bank1Vol2::decoded(words@),
    {
        Bank1Vol2 {
            buck_vos_trim: get_u8(words, 160, 3),
            buck_vos_polar: get_flag(words, 163),
            hpsys_ldo_vout: get_u8(words, 164, 4),
            lpsys_ldo_vout: get_u8(words, 168, 4),
            vret_trim: get_u8(words, 172, 4),
            adc_vol1_reg: get_u16(words, 176, 12),
            volt1_100mv: get_u8(words, 188, 5),
            adc_vol2_reg: get_u16(words, 193, 12),
            volt2_100mv: get_u8(words, 205, 5),
            vbat_reg: get_u16(words, 210, 12),
            vbat_volt_100mv: get_u8(words, 222, 6),
            hpsys_ldo_vout2: get_u8(words, 228, 4),
            edr_cal_flag: get_flag(words, 232),
            pa_bm: get_u8(words, 233, 2),
            dac_lsb_cnt: get_u8(words, 235, 2),
            tmxcap_flag: get_flag(words, 237),
            tmxcap_ch78: get_u8(words, 238, 4),
            tmxcap_ch00: get_u8(words, 242, 4),
        }
    }
}

proof fn lemma_write_bit(w: u32, b: u32, j: u32)
    by (bit_vector)
    requires
        b < 32,
        j < 32,
    ensures
        (((w | (1u32 << b)) >> j) & 1 == 1) == (j == b || (w >> j) & 1 == 1),
        (((w & !(1u32 << b)) >> j) & 1 == 1) == (j != b && (w >> j) & 1 == 1),
{
}

/// Writes the low `bits` bits of `value` into the bank at bit `pos`, one
/// bit at a time, and leaves every other bank bit as it was.
pub fn set_bits(words: &mut [u32; 8], pos: u16, bits: u8, value: u32)
    requires
        bits <= 32,
        pos + bits <= 256,
    ensures
        forall|k: int|
            0 <= k < 256 ==> #[trigger] bank_bit(final(words)@, k) == (if pos <= k < pos + bits {
                word_bit(value, k - pos)
            } else {
                bank_bit(old(words)@, k)
            }),
        field(final(words)@, pos as int, bits as nat) == field(seq![value], 0, bits as nat),
{
    let ghost before = words@;
    let mut i: u8 = 0;
    while i < bits
        invariant
            i <= bits <= 32,
            pos + bits <= 256,
            forall|k: int|
                0 <= k < 256 ==> #[trigger] bank_bit(words@, k) == (if pos <= k < pos + i {
                    word_bit(value, k - pos)
                } else {
                    bank_bit(before, k)
                }),
        decreases bits - i,
    {
        let bit_value: u32 = (value >> (i as u32)) & 1;
        let bit_pos: u16 = pos + i as u16;
        let word_index: usize = (bit_pos / 32) as usize;
        let bit_index: u32 = (bit_pos % 32) as u32;
        let ghost prev = words@;
        let old_word: u32 = words[word_index];
        let new_word: u32 = if bit_value != 0 {
            old_word | (1u32 << bit_index)
        } else {
            old_word & !(1u32 << bit_index)
        };
        words[word_index] = new_word;
        proof {
            assert(bit_value == 0 || bit_value == 1) by (bit_vector)
                requires
                    bit_value == (value >> (i as u32)) & 1,
            ;
            assert forall|k: int| 0 <= k < 256 implies #[trigger] bank_bit(words@, k) == (if pos
                <= k < pos + i + 1 {
                word_bit(value, k - pos)
            } else {
                bank_bit(before, k)
            }) by {
                assert(bank_bit(prev, k) == (if pos <= k < pos + i {
                    word_bit(value, k - pos)
                } else {
                    bank_bit(before, k)
                }));
                if k / 32 == word_index {
                    lemma_write_bit(old_word, bit_index, (k % 32) as u32);
                }
            }
        }
        i = i + 1;
    }
    proof {
        let single = seq![value];
        assert forall|j: int| 0 <= j < bits implies #[trigger] field_bit(words@, pos as int, j)
            == field_bit(single, 0, j) by {
            assert(bank_bit(words@, pos + j) == word_bit(value, pos + j - pos));
            assert((0 + j) / 32 == 0 && (0 + j) % 32 == j);
        }
        lemma_field_agree(words@, pos as int, single, 0, bits as nat);
    }
}

} // verus!
