//! Installation of the co-processor's ROM patch.
//!
//! The chip revision selects one of two memory layouts. Early revisions
//! (A3) take a record list at a fixed address and the code in a region of
//! its own. The letter series takes a three-word header, followed by the
//! code. Either way the code region is cleared before the code is copied.

use crate::endian::le_byte;
use crate::ram::Ram;
use crate::syscfg::ChipRevision;
use vstd::prelude::*;

verus! {

/// A3 layout: address of the patch record list.
pub const A3_RECORD_ADDR: usize = 0x2040_5F00;

/// A3 layout: first address of the code region.
pub const A3_CODE_START: usize = 0x2040_6000;

/// A3 layout: capacity of the code region, in bytes.
pub const A3_TOTAL_SIZE: usize = 0x2000;

/// Letter-series layout: address of the header.
pub const LETTER_BUF_START: usize = 0x2040_5000;

/// Letter-series layout: first address of the code region, right after
/// the header.
pub const LETTER_CODE_START: usize = 0x2040_500C;

/// Letter-series layout: capacity of the code region, in bytes.
pub const LETTER_CODE_SIZE: usize = 0x2FF4;

/// Letter-series layout: the header's magic word, "PACH" in memory.
pub const LETTER_MAGIC: u32 = 0x4843_4150;

/// Letter-series layout: the header's entry count.
pub const LETTER_ENTRY_COUNT: u32 = 7;

/// Letter-series layout: the header's size, three 32-bit words.
pub const LETTER_HEADER_SIZE: usize = 12;

/// Why a patch was not installed.
#[derive(Debug, Clone, Copy, PartialEq, Eq, Structural)]
pub enum Error {
    /// The record list is empty.
    EmptyRecord,
    /// The code is empty.
    EmptyCode,
    /// The code does not fit in the layout's code region.
    CodeTooLarge {
        /// The code's size in bytes.
        size_bytes: usize,
        /// The region's capacity in bytes.
        max_bytes: usize,
    },
    /// The chip revision is not a known one.
    InvalidRevision {
        /// The revision ID.
        revid: u8,
    },
}

/// What installing a record list of `list_len` bytes and code of `bin_len`
/// bytes on `revision` returns.
///
/// Empty inputs are rejected first, then an unknown revision, then code
/// over the capacity of the layout that the revision selects.
pub open spec fn outcome(revision: ChipRevision, list_len: nat, bin_len: nat) -> Result<
    (),
    Error,
> {
    if list_len == 0 {
        Err(Error::EmptyRecord)
    } else if bin_len == 0 {
        Err(Error::EmptyCode)
    } else if !revision.valid() {
        Err(Error::InvalidRevision { revid: revision.raw() })
    } else if revision.letter_series() {
        if bin_len > LETTER_CODE_SIZE {
            Err(Error::CodeTooLarge { size_bytes: bin_len as usize, max_bytes: LETTER_CODE_SIZE })
        } else {
            Ok(())
        }
    } else {
        if bin_len > A3_TOTAL_SIZE {
            Err(Error::CodeTooLarge { size_bytes: bin_len as usize, max_bytes: A3_TOTAL_SIZE })
        } else {
            Ok(())
        }
    }
}

/// The third header word: the code's start address with the thumb bit set.
pub open spec fn letter_entry_word() -> u32 {
    (LETTER_CODE_START as u32) | 1
}

/// Byte `k` of the letter-series header: magic, entry count and entry
/// address, each least significant byte first.
pub open spec fn letter_header_byte(k: int) -> u8 {
    if k < 4 {
        le_byte(LETTER_MAGIC, k)
    } else if k < 8 {
        le_byte(LETTER_ENTRY_COUNT, k - 4)
    } else {
        le_byte(letter_entry_word(), k - 8)
    }
}

/// The byte of a code region at offset `k` once `bin` is installed: the
/// code, then zeros up to the capacity.
pub open spec fn code_byte(bin: Seq<u8>, k: int) -> u8 {
    if k < bin.len() {
        bin[k]
    } else {
        0
    }
}

/// The byte at address `a` after the A3 layout was written over `before`.
pub open spec fn a3_byte(list: Seq<u8>, bin: Seq<u8>, before: Ram, a: int) -> u8 {
    if A3_CODE_START <= a < A3_CODE_START + A3_TOTAL_SIZE {
        code_byte(bin, a - A3_CODE_START)
    } else if A3_RECORD_ADDR <= a < A3_RECORD_ADDR + list.len() {
        list[a - A3_RECORD_ADDR]
    } else {
        before.byte_at(a)
    }
}

/// The byte at address `a` after the letter-series layout was written
/// over `before`.
pub open spec fn letter_byte(bin: Seq<u8>, before: Ram, a: int) -> u8 {
    if LETTER_CODE_START <= a < LETTER_CODE_START + LETTER_CODE_SIZE {
        code_byte(bin, a - LETTER_CODE_START)
    } else if LETTER_BUF_START <= a < LETTER_BUF_START + LETTER_HEADER_SIZE {
        letter_header_byte(a - LETTER_BUF_START)
    } else {
        before.byte_at(a)
    }
}

/// The memory window holds what the layout of `revision` writes: for the
/// letter series the header and the code region, else the record list and
/// the code region.
pub open spec fn window_fits(revision: ChipRevision, list_len: nat, ram: Ram) -> bool {
    if revision.letter_series() {
        ram.covers(LETTER_BUF_START as int, LETTER_HEADER_SIZE + LETTER_CODE_SIZE)
    } else {
        ram.covers(A3_RECORD_ADDR as int, list_len as int) && ram.covers(
            A3_CODE_START as int,
            A3_TOTAL_SIZE as int,
        )
    }
}

/// Whether the memory window holds what the layout of `revision` writes.
pub fn can_install(revision: ChipRevision, list: &[u8], ram: &Ram) -> (r: bool)
    ensures
        r == window_fits(revision, list@.len(), *ram),
{
    if revision.is_letter_series() {
        ram.holds(LETTER_BUF_START, LETTER_HEADER_SIZE + LETTER_CODE_SIZE)
    } else {
        ram.holds(A3_RECORD_ADDR, list.len()) && ram.holds(A3_CODE_START, A3_TOTAL_SIZE)
    }
}

/// Installs the patch for a chip of the given revision.
///
/// On an error nothing is written. On success every byte of the window is
/// as the revision's layout says: the code region holds the code followed
/// by zeros, the record list (A3) or the header (letter series) stands at
/// its address, and all other bytes are as they were.
pub fn install(revision: ChipRevision, list: &[u8], bin: &[u8], ram: &mut Ram) -> (r: Result<
    (),
    Error,
>)
    requires
        outcome(revision, list@.len(), bin@.len()).is_ok() ==> window_fits(
            revision,
            list@.len(),
            *old(ram),
        ),
    ensures
        r == outcome(revision, list@.len(), bin@.len()),
        final(ram).same_extent(old(ram)),
        r.is_err() ==> *final(ram) == *old(ram),
        r.is_ok() && revision.letter_series() ==> forall|a: int|
            old(ram).covers(a, 1) ==> #[trigger] final(ram).byte_at(a) == letter_byte(
                bin@,
                *old(ram),
                a,
            ),
        r.is_ok() && !revision.letter_series() ==> forall|a: int|
            old(ram).covers(a, 1) ==> #[trigger] final(ram).byte_at(a) == a3_byte(
                list@,
                bin@,
                *old(ram),
                a,
            ),
{
    if list.len() == 0 {
        return Err(Error::EmptyRecord);
    }
    if bin.len() == 0 {
        return Err(Error::EmptyCode);
    }
    if !revision.is_valid() {
        return Err(Error::InvalidRevision { revid: revision.raw_value() });
    }
    if revision.is_letter_series() {
        install_letter(list, bin, ram)
    } else {
        install_a3(list, bin, ram)
    }
}

/// Writes the A3 layout: the record list, then the cleared code region,
/// then the code.
pub fn install_a3(list: &[u8], bin: &[u8], ram: &mut Ram) -> (r: Result<(), Error>)
    requires
        bin@.len() <= A3_TOTAL_SIZE ==> old(ram).covers(A3_RECORD_ADDR as int, list@.len() as int)
            && old(ram).covers(A3_CODE_START as int, A3_TOTAL_SIZE as int),
    ensures
        final(ram).same_extent(old(ram)),
        bin@.len() > A3_TOTAL_SIZE ==> r == Err::<(), Error>(
            Error::CodeTooLarge { size_bytes: bin@.len() as usize, max_bytes: A3_TOTAL_SIZE },
        ) && *final(ram) == *old(ram),
        bin@.len() <= A3_TOTAL_SIZE ==> r == Ok::<(), Error>(()) && forall|a: int|
            old(ram).covers(a, 1) ==> #[trigger] final(ram).byte_at(a) == a3_byte(
                list@,
                bin@,
                *old(ram),
                a,
            ),
{
    let code_size: usize = bin.len();
    if code_size > A3_TOTAL_SIZE {
        return Err(Error::CodeTooLarge { size_bytes: code_size, max_bytes: A3_TOTAL_SIZE });
    }
    ram.write_bytes(A3_RECORD_ADDR, list);
    ram.fill(A3_CODE_START, A3_TOTAL_SIZE, 0);
    ram.write_bytes(A3_CODE_START, bin);
    Ok(())
}

/// Writes the letter-series layout: the header, then the cleared code
/// region, then the code. The record list is not used.
pub fn install_letter(list: &[u8], bin: &[u8], ram: &mut Ram) -> (r: Result<(), Error>)
    requires
        bin@.len() <= LETTER_CODE_SIZE ==> old(ram).covers(
            LETTER_BUF_START as int,
            LETTER_HEADER_SIZE + LETTER_CODE_SIZE,
        ),
    ensures
        final(ram).same_extent(old(ram)),
        bin@.len() > LETTER_CODE_SIZE ==> r == Err::<(), Error>(
            Error::CodeTooLarge { size_bytes: bin@.len() as usize, max_bytes: LETTER_CODE_SIZE },
        ) && *final(ram) == *old(ram),
        bin@.len() <= LETTER_CODE_SIZE ==> r == Ok::<(), Error>(()) && forall|a: int|
            old(ram).covers(a, 1) ==> #[trigger] final(ram).byte_at(a) == letter_byte(
                bin@,
                *old(ram),
                a,
            ),
{
    let code_size: usize = bin.len();
    if code_size > LETTER_CODE_SIZE {
        return Err(Error::CodeTooLarge { size_bytes: code_size, max_bytes: LETTER_CODE_SIZE });
    }
    let entry: u32 = (LETTER_CODE_START as u32) | 1;
    ram.write_u32(LETTER_BUF_START, LETTER_MAGIC);
    ram.write_u32(LETTER_BUF_START + 4, LETTER_ENTRY_COUNT);
    ram.write_u32(LETTER_BUF_START + 8, entry);
    ram.fill(LETTER_CODE_START, LETTER_CODE_SIZE, 0);
    ram.write_bytes(LETTER_CODE_START, bin);
    Ok(())
}

} // verus!
