//! Bit flags that several contexts may change at once, and iteration over
//! the set bits of a word.

use vstd::prelude::*;

verus! {

/// `portable_atomic::AtomicU8`: an integer that is read and changed
/// atomically. Nothing is known of its value from one access to the next.
#[verifier::external_type_specification]
#[verifier::external_body]
pub struct ExAtomicU8(portable_atomic::AtomicU8);

/// `portable_atomic::AtomicU8::new`: a new atomic integer. Nothing is
/// claimed of it.
#[verifier::external_body]
fn atomic8_new(v: u8) -> portable_atomic::AtomicU8 {
    portable_atomic::AtomicU8::new(v)
}

/// `portable_atomic::AtomicU8::fetch_or` with sequentially consistent
/// ordering; the previous value is dropped. Nothing is claimed of it.
#[verifier::external_body]
fn atomic8_fetch_or(a: &portable_atomic::AtomicU8, bits: u8) {
    a.fetch_or(bits, portable_atomic::Ordering::SeqCst);
}

/// `portable_atomic::AtomicU8::fetch_and` with sequentially consistent
/// ordering; the previous value is dropped. Nothing is claimed of it.
#[verifier::external_body]
fn atomic8_fetch_and(a: &portable_atomic::AtomicU8, bits: u8) {
    a.fetch_and(bits, portable_atomic::Ordering::SeqCst);
}

/// `portable_atomic::AtomicU8::load` with sequentially consistent
/// ordering. The value may have been changed by anybody: nothing is
/// claimed of it.
#[verifier::external_body]
fn atomic8_load(a: &portable_atomic::AtomicU8) -> u8 {
    a.load(portable_atomic::Ordering::SeqCst)
}

/// The mask of flag `idx` of 8 flags: bit `idx` alone.
pub open spec fn mask8(idx: u8) -> u8 {
    1u8 << (idx as u8)
}

/// Flag `idx` is set in the flags `value`: bit `idx` of `value` is one.
pub open spec fn has_flag8(value: u8, idx: u8) -> bool {
    (value >> (idx as u8)) & 1 == 1
}

/// The mask of flag `idx`.
pub fn flag_mask8(idx: u8) -> (r: u8)
    requires
        idx < 8,
    ensures
        r == mask8(idx),
        has_flag8(r, idx),
        forall|other: u8| other < 8 && other != idx ==> !has_flag8(r, other),
{
    let one: u8 = 1;
    let r: u8 = one << (idx as u8);
    proof {
        let i: u8 = idx as u8;
        assert(((1u8 << i) >> i) & 1 == 1) by (bit_vector)
            requires
                i < 8,
        ;
        assert forall|other: u8| other < 8 && other != idx implies !has_flag8(r, other) by {
            let j: u8 = other as u8;
            assert(((1u8 << i) >> j) & 1 != 1) by (bit_vector)
                requires
                    i < 8,
                    j < 8,
                    i != j,
            ;
        }
    }
    r
}

/// Whether flag `idx` is set in the flags `value`, which were read before.
pub fn flag_in8(value: u8, idx: u8) -> (r: bool)
    requires
        idx < 8,
    ensures
        r == has_flag8(value, idx),
{
    let mask: u8 = flag_mask8(idx);
    proof {
        let i: u8 = idx as u8;
        assert((value & (1u8 << i) != 0) == ((value >> i) & 1 == 1)) by (bit_vector)
            requires
                i < 8,
        ;
    }
    (value & mask) != 0
}

/// 8 flags that may be set and cleared from several contexts at once.
pub struct BitFlags8 {
    flags: portable_atomic::AtomicU8,
}

impl BitFlags8 {
    /// Flags that are made with the given value. The flags may be shared
    /// at once: what they hold later is for the reads to tell.
    pub fn new(initial_value: u8) -> BitFlags8 {
        BitFlags8 { flags: atomic8_new(initial_value) }
    }

    /// Sets the flag `idx`: the flags are or-ed with `mask8(idx)`.
    pub fn set_bit(&self, idx: u8)
        requires
            idx < 8,
    {
        atomic8_fetch_or(&self.flags, flag_mask8(idx));
    }

    /// Clears the flag `idx`: the flags are and-ed with the complement of
    /// `mask8(idx)`.
    pub fn clear_bit(&self, idx: u8)
        requires
            idx < 8,
    {
        atomic8_fetch_and(&self.flags, !flag_mask8(idx));
    }

    /// Sets the flags of `bits`.
    pub fn set_bits(&self, bits: u8) {
        atomic8_fetch_or(&self.flags, bits);
    }

    /// Clears the flags of `bits`.
    pub fn clear_bits(&self, bits: u8) {
        atomic8_fetch_and(&self.flags, !bits);
    }

    /// Whether the flag `idx` was set at the moment of the read: what
    /// `flag_in8` says of the value that was read.
    pub fn is_bit_set(&self, idx: u8) -> bool
        requires
            idx < 8,
    {
        flag_in8(atomic8_load(&self.flags), idx)
    }

    /// The flags at the moment of the read.
    pub fn get(&self) -> u8 {
        atomic8_load(&self.flags)
    }
}

/// `portable_atomic::AtomicU32`: an integer that is read and changed
/// atomically. Nothing is known of its value from one access to the next.
#[verifier::external_type_specification]
#[verifier::external_body]
pub struct ExAtomicU32(portable_atomic::AtomicU32);

/// `portable_atomic::AtomicU32::new`: a new atomic integer. Nothing is
/// claimed of it.
#[verifier::external_body]
fn atomic32_new(v: u32) -> portable_atomic::AtomicU32 {
    portable_atomic::AtomicU32::new(v)
}

/// `portable_atomic::AtomicU32::fetch_or` with sequentially consistent
/// ordering; the previous value is dropped. Nothing is claimed of it.
#[verifier::external_body]
fn atomic32_fetch_or(a: &portable_atomic::AtomicU32, bits: u32) {
    a.fetch_or(bits, portable_atomic::Ordering::SeqCst);
}

/// `portable_atomic::AtomicU32::fetch_and` with sequentially consistent
/// ordering; the previous value is dropped. Nothing is claimed of it.
#[verifier::external_body]
fn atomic32_fetch_and(a: &portable_atomic::AtomicU32, bits: u32) {
    a.fetch_and(bits, portable_atomic::Ordering::SeqCst);
}

/// `portable_atomic::AtomicU32::load` with sequentially consistent
/// ordering. The value may have been changed by anybody: nothing is
/// claimed of it.
#[verifier::external_body]
fn atomic32_load(a: &portable_atomic::AtomicU32) -> u32 {
    a.load(portable_atomic::Ordering::SeqCst)
}

/// The mask of flag `idx` of 32 flags: bit `idx` alone.
pub open spec fn mask32(idx: u8) -> u32 {
    1u32 << (idx as u32)
}

/// Flag `idx` is set in the flags `value`: bit `idx` of `value` is one.
pub open spec fn has_flag32(value: u32, idx: u8) -> bool {
    (value >> (idx as u32)) & 1 == 1
}

/// The mask of flag `idx`.
pub fn flag_mask32(idx: u8) -> (r: u32)
    requires
        idx < 32,
    ensures
        r == mask32(idx),
        has_flag32(r, idx),
        forall|other: u8| other < 32 && other != idx ==> !has_flag32(r, other),
{
    let one: u32 = 1;
    let r: u32 = one << (idx as u32);
    proof {
        let i: u32 = idx as u32;
        assert(((1u32 << i) >> i) & 1 == 1) by (bit_vector)
            requires
                i < 32,
        ;
        assert forall|other: u8| other < 32 && other != idx implies !has_flag32(r, other) by {
            let j: u32 = other as u32;
            assert(((1u32 << i) >> j) & 1 != 1) by (bit_vector)
                requires
                    i < 32,
                    j < 32,
                    i != j,
            ;
        }
    }
    r
}

/// Whether flag `idx` is set in the flags `value`, which were read before.
pub fn flag_in32(value: u32, idx: u8) -> (r: bool)
    requires
        idx < 32,
    ensures
        r == has_flag32(value, idx),
{
    let mask: u32 = flag_mask32(idx);
    proof {
        let i: u32 = idx as u32;
        assert((value & (1u32 << i) != 0) == ((value >> i) & 1 == 1)) by (bit_vector)
            requires
                i < 32,
        ;
    }
    (value & mask) != 0
}

/// 32 flags that may be set and cleared from several contexts at once.
pub struct BitFlags32 {
    flags: portable_atomic::AtomicU32,
}

impl BitFlags32 {
    /// Flags that are made with the given value. The flags may be shared
    /// at once: what they hold later is for the reads to tell.
    pub fn new(initial_value: u32) -> BitFlags32 {
        BitFlags32 { flags: atomic32_new(initial_value) }
    }

    /// Sets the flag `idx`: the flags are or-ed with `mask32(idx)`.
    pub fn set_bit(&self, idx: u8)
        requires
            idx < 32,
    {
        atomic32_fetch_or(&self.flags, flag_mask32(idx));
    }

    /// Clears the flag `idx`: the flags are and-ed with the complement of
    /// `mask32(idx)`.
    pub fn clear_bit(&self, idx: u8)
        requires
            idx < 32,
    {
        atomic32_fetch_and(&self.flags, !flag_mask32(idx));
    }

    /// Sets the flags of `bits`.
    pub fn set_bits(&self, bits: u32) {
        atomic32_fetch_or(&self.flags, bits);
    }

    /// Clears the flags of `bits`.
    pub fn clear_bits(&self, bits: u32) {
        atomic32_fetch_and(&self.flags, !bits);
    }

    /// Whether the flag `idx` was set at the moment of the read: what
    /// `flag_in32` says of the value that was read.
    pub fn is_bit_set(&self, idx: u8) -> bool
        requires
            idx < 32,
    {
        flag_in32(atomic32_load(&self.flags), idx)
    }

    /// The flags at the moment of the read.
    pub fn get(&self) -> u32 {
        atomic32_load(&self.flags)
    }
}

/// `portable_atomic::AtomicU64`: an integer that is read and changed
/// atomically. Nothing is known of its value from one access to the next.
#[verifier::external_type_specification]
#[verifier::external_body]
pub struct ExAtomicU64(portable_atomic::AtomicU64);

/// `portable_atomic::AtomicU64::new`: a new atomic integer. Nothing is
/// claimed of it.
#[verifier::external_body]
fn atomic64_new(v: u64) -> portable_atomic::AtomicU64 {
    portable_atomic::AtomicU64::new(v)
}

/// `portable_atomic::AtomicU64::fetch_or` with sequentially consistent
/// ordering; the previous value is dropped. Nothing is claimed of it.
#[verifier::external_body]
fn atomic64_fetch_or(a: &portable_atomic::AtomicU64, bits: u64) {
    a.fetch_or(bits, portable_atomic::Ordering::SeqCst);
}

/// `portable_atomic::AtomicU64::fetch_and` with sequentially consistent
/// ordering; the previous value is dropped. Nothing is claimed of it.
#[verifier::external_body]
fn atomic64_fetch_and(a: &portable_atomic::AtomicU64, bits: u64) {
    a.fetch_and(bits, portable_atomic::Ordering::SeqCst);
}

/// `portable_atomic::AtomicU64::load` with sequentially consistent
/// ordering. The value may have been changed by anybody: nothing is
/// claimed of it.
#[verifier::external_body]
fn atomic64_load(a: &portable_atomic::AtomicU64) -> u64 {
    a.load(portable_atomic::Ordering::SeqCst)
}

/// The mask of flag `idx` of 64 flags: bit `idx` alone.
pub open spec fn mask64(idx: u8) -> u64 {
    1u64 << (idx as u64)
}

/// Flag `idx` is set in the flags `value`: bit `idx` of `value` is one.
pub open spec fn has_flag64(value: u64, idx: u8) -> bool {
    (value >> (idx as u64)) & 1 == 1
}

/// The mask of flag `idx`.
pub fn flag_mask64(idx: u8) -> (r: u64)
    requires
        idx < 64,
    ensures
        r == mask64(idx),
        has_flag64(r, idx),
        forall|other: u8| other < 64 && other != idx ==> !has_flag64(r, other),
{
    let one: u64 = 1;
    let r: u64 = one << (idx as u64);
    proof {
        let i: u64 = idx as u64;
        assert(((1u64 << i) >> i) & 1 == 1) by (bit_vector)
            requires
                i < 64,
        ;
        assert forall|other: u8| other < 64 && other != idx implies !has_flag64(r, other) by {
            let j: u64 = other as u64;
            assert(((1u64 << i) >> j) & 1 != 1) by (bit_vector)
                requires
                    i < 64,
                    j < 64,
                    i != j,
            ;
        }
    }
    r
}

/// Whether flag `idx` is set in the flags `value`, which were read before.
pub fn flag_in64(value: u64, idx: u8) -> (r: bool)
    requires
        idx < 64,
    ensures
        r == has_flag64(value, idx),
{
    let mask: u64 = flag_mask64(idx);
    proof {
        let i: u64 = idx as u64;
        assert((value & (1u64 << i) != 0) == ((value >> i) & 1 == 1)) by (bit_vector)
            requires
                i < 64,
        ;
    }
    (value & mask) != 0
}

/// 64 flags that may be set and cleared from several contexts at once.
pub struct BitFlags64 {
    flags: portable_atomic::AtomicU64,
}

impl BitFlags64 {
    /// Flags that are made with the given value. The flags may be shared
    /// at once: what they hold later is for the reads to tell.
    pub fn new(initial_value: u64) -> BitFlags64 {
        BitFlags64 { flags: atomic64_new(initial_value) }
    }

    /// Sets the flag `idx`: the flags are or-ed with `mask64(idx)`.
    pub fn set_bit(&self, idx: u8)
        requires
            idx < 64,
    {
        atomic64_fetch_or(&self.flags, flag_mask64(idx));
    }

    /// Clears the flag `idx`: the flags are and-ed with the complement of
    /// `mask64(idx)`.
    pub fn clear_bit(&self, idx: u8)
        requires
            idx < 64,
    {
        atomic64_fetch_and(&self.flags, !flag_mask64(idx));
    }

    /// Sets the flags of `bits`.
    pub fn set_bits(&self, bits: u64) {
        atomic64_fetch_or(&self.flags, bits);
    }

    /// Clears the flags of `bits`.
    pub fn clear_bits(&self, bits: u64) {
        atomic64_fetch_and(&self.flags, !bits);
    }

    /// Whether the flag `idx` was set at the moment of the read: what
    /// `flag_in64` says of the value that was read.
    pub fn is_bit_set(&self, idx: u8) -> bool
        requires
            idx < 64,
    {
        flag_in64(atomic64_load(&self.flags), idx)
    }

    /// The flags at the moment of the read.
    pub fn get(&self) -> u64 {
        atomic64_load(&self.flags)
    }
}

/// The lowest set bit of a word cleared.
pub open spec fn without_lowest32(x: u32) -> u32 {
    x & !(1u32 << vstd::std_specs::bits::u32_trailing_zeros(x))
}

/// The lowest set bit of a word cleared.
pub open spec fn without_lowest64(x: u64) -> u64 {
    x & !(1u64 << (vstd::std_specs::bits::u64_trailing_zeros(x) as u64))
}

/// The set bits of a 32-bit word, from the lowest up.
pub struct BitIter(pub u32);

impl BitIter {
    /// The number of the lowest bit that is still set, which is then
    /// cleared; none when no bit is left.
    pub fn next(&mut self) -> (r: Option<u8>)
        ensures
            old(self).0 == 0 ==> r is None && final(self).0 == 0,
            old(self).0 != 0 ==> r == Some(
                vstd::std_specs::bits::u32_trailing_zeros(old(self).0) as u8,
            ) && r.unwrap() < 32 && final(self).0 == without_lowest32(old(self).0),
            old(self).0 != 0 ==> (old(self).0 >> (r.unwrap() as u32)) & 1 == 1,
            old(self).0 != 0 ==> forall|j: u32|
                j < r.unwrap() ==> #[trigger] (old(self).0 >> j) & 1 == 0,
    {
        let x: u32 = self.0;
        proof {
            vstd::std_specs::bits::axiom_u32_trailing_zeros(x);
        }
        let b: u32 = x.trailing_zeros();
        if b == 32 {
            None
        } else {
            self.0 = x & !(1u32 << b);
            Some(b as u8)
        }
    }
}

/// The set bits of a 64-bit word, from the lowest up.
pub struct BitIter64(pub u64);

impl BitIter64 {
    /// The number of the lowest bit that is still set, which is then
    /// cleared; none when no bit is left.
    pub fn next(&mut self) -> (r: Option<u8>)
        ensures
            old(self).0 == 0 ==> r is None && final(self).0 == 0,
            old(self).0 != 0 ==> r == Some(
                vstd::std_specs::bits::u64_trailing_zeros(old(self).0) as u8,
            ) && r.unwrap() < 64 && final(self).0 == without_lowest64(old(self).0),
            old(self).0 != 0 ==> (old(self).0 >> (r.unwrap() as u64)) & 1 == 1,
            old(self).0 != 0 ==> forall|j: u64|
                j < r.unwrap() ==> #[trigger] (old(self).0 >> j) & 1 == 0,
    {
        let x: u64 = self.0;
        proof {
            vstd::std_specs::bits::axiom_u64_trailing_zeros(x);
        }
        let b: u32 = x.trailing_zeros();
        if b == 64 {
            None
        } else {
            self.0 = x & !(1u64 << (b as u64));
            Some(b as u8)
        }
    }
}

} // verus!
