//! System configuration: chip identification and revision.

use crate::regs::{bits_of, idr_cid, idr_pid, idr_revid, idr_sid};
use vstd::prelude::*;

verus! {

/// The four identification fields of the chip's ID register.
#[derive(Debug, Clone, Copy, PartialEq, Eq, Structural)]
pub struct Syscfg {
    /// Revision ID, bits 7..=0.
    pub revid: u8,
    /// Package ID, bits 15..=8.
    pub pid: u8,
    /// Company ID, bits 23..=16.
    pub cid: u8,
    /// Series ID, bits 31..=24.
    pub sid: u8,
}

impl Syscfg {
    /// The fields that the ID register word `idr` holds.
    pub open spec fn of_idr(idr: u32) -> Syscfg {
        Syscfg {
            revid: bits_of(idr, 0, 0xff) as u8,
            pid: bits_of(idr, 8, 0xff) as u8,
            cid: bits_of(idr, 16, 0xff) as u8,
            sid: bits_of(idr, 24, 0xff) as u8,
        }
    }

    /// The ID register word that holds these fields.
    pub open spec fn raw(&self) -> u32 {
        ((self.sid as u32) << 24) | ((self.cid as u32) << 16) | ((self.pid as u32) << 8) | (
        self.revid as u32)
    }

    /// Takes the identification fields out of the ID register word.
    pub fn read(idr: u32) -> (r: Syscfg)
        ensures
            r == Syscfg::of_idr(idr),
    {
        Syscfg { revid: idr_revid(idr), pid: idr_pid(idr), cid: idr_cid(idr), sid: idr_sid(idr) }
    }

    /// The chip revision that the revision ID stands for.
    pub fn revision(&self) -> (r: ChipRevision)
        ensures
            r == ChipRevision::classify(self.revid),
    {
        ChipRevision::from_revid(self.revid)
    }

    /// The complete 32-bit ID register word.
    pub fn idr_raw(&self) -> (r: u32)
        ensures
            r == self.raw(),
    {
        ((self.sid as u32) << 24) | ((self.cid as u32) << 16) | ((self.pid as u32) << 8) | (
        self.revid as u32)
    }

    /// Splitting an ID word into fields and joining them gives the word
    /// back.
    pub proof fn lemma_raw_of_idr(idr: u32)
        ensures
            Syscfg::of_idr(idr).raw() == idr,
    {
        assert((((((idr >> 24) & 0xff) as u8) as u32) << 24) | (((((idr >> 16) & 0xff) as u8) as u32)
            << 16) | (((((idr >> 8) & 0xff) as u8) as u32) << 8) | ((((idr >> 0) & 0xff) as u8) as u32)
            == idr) by (bit_vector);
    }

    /// Joining fields into an ID word and splitting it gives the fields
    /// back.
    pub proof fn lemma_of_idr_raw(s: Syscfg)
        ensures
            Syscfg::of_idr(s.raw()) == s,
    {
        let (a, b, c, d) = (s.sid, s.cid, s.pid, s.revid);
        let w: u32 = ((a as u32) << 24) | ((b as u32) << 16) | ((c as u32) << 8) | (d as u32);
        assert((((w >> 24) & 0xff) as u8) == a && (((w >> 16) & 0xff) as u8) == b && (((w >> 8)
            & 0xff) as u8) == c && (((w >> 0) & 0xff) as u8) == d) by (bit_vector)
            requires
                w == ((a as u32) << 24) | ((b as u32) << 16) | ((c as u32) << 8) | (d as u32),
        ;
    }
}

/// The silicon revision that a revision ID stands for.
#[derive(Debug, Clone, Copy, PartialEq, Eq, Structural)]
pub enum ChipRevision {
    /// A3 and earlier revisions, IDs 0x00 to 0x03.
    A3OrEarlier(u8),
    /// A4, ID 0x07: letter series.
    A4,
    /// B4, ID 0x0F: letter series.
    B4,
    /// Any other ID.
    Invalid(u8),
}

/// The patch layout that a chip revision takes.
#[derive(Debug, Clone, Copy, PartialEq, Eq, Structural)]
pub enum PatchType {
    /// The layout of A3 and earlier revisions.
    A3,
    /// The layout of the letter series, A4 and B4.
    LetterSeries,
}

/// How the chip was started.
#[derive(Debug, Clone, Copy, PartialEq, Eq, Structural)]
pub enum BootMode {
    /// Normal start.
    Normal,
    /// Download or firmware update mode.
    Download,
}

impl ChipRevision {
    /// The revision that the ID `revid` stands for.
    pub open spec fn classify(revid: u8) -> ChipRevision {
        if revid <= 0x03 {
            ChipRevision::A3OrEarlier(revid)
        } else if revid == 0x07 {
            ChipRevision::A4
        } else if revid == 0x0F {
            ChipRevision::B4
        } else {
            ChipRevision::Invalid(revid)
        }
    }

    /// The revision is one that `classify` gives: an early revision holds
    /// an ID up to 0x03, an invalid one an ID that no revision has.
    pub open spec fn wf(&self) -> bool {
        match self {
            ChipRevision::A3OrEarlier(v) => *v <= 0x03,
            ChipRevision::A4 => true,
            ChipRevision::B4 => true,
            ChipRevision::Invalid(v) => *v > 0x03 && *v != 0x07 && *v != 0x0F,
        }
    }

    /// The revision is a known one.
    pub open spec fn valid(&self) -> bool {
        !(self is Invalid)
    }

    /// The revision is A4 or B4.
    pub open spec fn letter_series(&self) -> bool {
        self is A4 || self is B4
    }

    /// The ID that the revision was read from.
    pub open spec fn raw(&self) -> u8 {
        match self {
            ChipRevision::A3OrEarlier(v) => *v,
            ChipRevision::A4 => 0x07,
            ChipRevision::B4 => 0x0F,
            ChipRevision::Invalid(v) => *v,
        }
    }

    /// The patch layout of the revision, if it has one.
    pub open spec fn patch(&self) -> Option<PatchType> {
        match self {
            ChipRevision::A3OrEarlier(_) => Some(PatchType::A3),
            ChipRevision::A4 => Some(PatchType::LetterSeries),
            ChipRevision::B4 => Some(PatchType::LetterSeries),
            ChipRevision::Invalid(_) => None,
        }
    }

    /// The revision's name, as characters.
    pub open spec fn name_chars(&self) -> Seq<char> {
        match self {
            ChipRevision::A3OrEarlier(v) => if *v == 0x00 {
                "Pre-A3 (ES v0.0)"@
            } else if *v == 0x01 {
                "Pre-A3 (ES v0.1)"@
            } else if *v == 0x02 {
                "Pre-A3 (ES v0.2)"@
            } else if *v == 0x03 {
                "A3"@
            } else {
                "A3 or Earlier"@
            },
            ChipRevision::A4 => "A4 (Letter Series)"@,
            ChipRevision::B4 => "B4 (Letter Series)"@,
            ChipRevision::Invalid(_) => "Invalid"@,
        }
    }

    /// Classifies a revision ID. Every ID gets a revision.
    pub fn from_revid(revid: u8) -> (r: ChipRevision)
        ensures
            r == ChipRevision::classify(revid),
            r.wf(),
            r.raw() == revid,
    {
        if revid <= 0x03 {
            ChipRevision::A3OrEarlier(revid)
        } else if revid == 0x07 {
            ChipRevision::A4
        } else if revid == 0x0F {
            ChipRevision::B4
        } else {
            ChipRevision::Invalid(revid)
        }
    }

    /// Whether the revision is a known one.
    pub fn is_valid(&self) -> (r: bool)
        ensures
            r == self.valid(),
    {
        match self {
            ChipRevision::Invalid(_) => false,
            _ => true,
        }
    }

    /// Whether the revision is of the letter series, A4 or B4.
    pub fn is_letter_series(&self) -> (r: bool)
        ensures
            r == self.letter_series(),
    {
        match self {
            ChipRevision::A4 => true,
            ChipRevision::B4 => true,
            _ => false,
        }
    }

    /// The revision's name for people to read.
    pub fn name(&self) -> (r: &'static str)
        ensures
            r@ == self.name_chars(),
    {
        match self {
            ChipRevision::A3OrEarlier(0x00) => "Pre-A3 (ES v0.0)",
            ChipRevision::A3OrEarlier(0x01) => "Pre-A3 (ES v0.1)",
            ChipRevision::A3OrEarlier(0x02) => "Pre-A3 (ES v0.2)",
            ChipRevision::A3OrEarlier(0x03) => "A3",
            ChipRevision::A3OrEarlier(_) => "A3 or Earlier",
            ChipRevision::A4 => "A4 (Letter Series)",
            ChipRevision::B4 => "B4 (Letter Series)",
            ChipRevision::Invalid(_) => "Invalid",
        }
    }

    /// The revision ID that the revision was read from.
    pub fn raw_value(&self) -> (r: u8)
        ensures
            r == self.raw(),
    {
        match self {
            ChipRevision::A3OrEarlier(v) => *v,
            ChipRevision::A4 => 0x07,
            ChipRevision::B4 => 0x0F,
            ChipRevision::Invalid(v) => *v,
        }
    }

    /// The patch layout of the revision; none for an invalid one.
    pub fn patch_type(&self) -> (r: Option<PatchType>)
        ensures
            r == self.patch(),
            r.is_some() <==> self.valid(),
    {
        match self {
            ChipRevision::A3OrEarlier(_) => Some(PatchType::A3),
            ChipRevision::A4 => Some(PatchType::LetterSeries),
            ChipRevision::B4 => Some(PatchType::LetterSeries),
            ChipRevision::Invalid(_) => None,
        }
    }

    /// Classification is total, and exactly the IDs 0, 1, 2, 3, 7 and 15
    /// are valid. A revision has a patch layout if and only if it is valid:
    /// the A3 layout for 0 to 3, the letter-series layout for 7 and 15.
    pub proof fn lemma_classification(revid: u8)
        ensures
            ChipRevision::classify(revid).wf(),
            ChipRevision::classify(revid).raw() == revid,
            ChipRevision::classify(revid).valid() <==> (revid == 0 || revid == 1 || revid == 2
                || revid == 3 || revid == 7 || revid == 15),
            ChipRevision::classify(revid).patch().is_some() <==> ChipRevision::classify(
                revid,
            ).valid(),
            ChipRevision::classify(revid).patch() == Some(PatchType::A3) <==> revid <= 3,
            ChipRevision::classify(revid).patch() == Some(PatchType::LetterSeries) <==> (revid
                == 7 || revid == 15),
            ChipRevision::classify(revid).letter_series() <==> (revid == 7 || revid == 15),
    {
    }

    /// A well-formed revision is the classification of its own ID.
    pub proof fn lemma_classify_raw(rev: ChipRevision)
        requires
            rev.wf(),
        ensures
            ChipRevision::classify(rev.raw()) == rev,
    {
    }
}

} // verus!
