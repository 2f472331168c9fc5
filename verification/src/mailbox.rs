//! The inter-core mailbox.
//!
//! A mailbox has a few lanes. Each lane carries sixteen interrupt bits from
//! one core to the other, and one hardware mutex. A [`MailboxLane`] stands
//! for the lane's registers; a [`MailboxChannel`] is one core's handle on a
//! lane.
//!
//! Signalling is fire-and-forget: a trigger raises status bits, the enable
//! mask decides which of them are pending on the receiving side, and the
//! receiver clears what it has seen by writing those bits back.
//!
//! The mutex register is a test-and-set: reading it while it is free takes
//! it for the reading core, reading it while it is held tells the holder.
//! Only a write frees it, and the hardware does not check who writes.

use vstd::prelude::*;

verus! {

/// The owner of a lane's mutex, as the register's two ID bits give it.
#[derive(Debug, Clone, Copy, PartialEq, Eq, Structural)]
pub enum LockCore {
    /// Nobody holds the mutex.
    Unlocked,
    /// The high-power core holds it.
    Hcpu,
    /// The low-power core holds it.
    Lcpu,
    /// The Bluetooth core holds it.
    Bcpu,
}

/// What can be asked of a mutex owner.
pub trait LockCoreExt {
    /// Somebody holds the mutex.
    spec fn locked(&self) -> bool;

    /// Whether somebody holds the mutex.
    fn is_locked(&self) -> (r: bool)
        ensures
            r == self.locked(),
    ;
}

impl LockCoreExt for LockCore {
    open spec fn locked(&self) -> bool {
        !(self is Unlocked)
    }

    fn is_locked(&self) -> (r: bool) {
        match self {
            LockCore::Unlocked => false,
            _ => true,
        }
    }
}

impl LockCore {
    /// The owner that the two ID bits `id` stand for.
    pub open spec fn of_id(id: u32) -> LockCore {
        if id == 0 {
            LockCore::Unlocked
        } else if id == 1 {
            LockCore::Hcpu
        } else if id == 2 {
            LockCore::Lcpu
        } else {
            LockCore::Bcpu
        }
    }

    /// The two ID bits that stand for the owner.
    pub open spec fn id(&self) -> u32 {
        match self {
            LockCore::Unlocked => 0,
            LockCore::Hcpu => 1,
            LockCore::Lcpu => 2,
            LockCore::Bcpu => 3,
        }
    }

    /// Decodes the two ID bits; higher bits of `bits` are ignored.
    pub fn from_bits(bits: u8) -> (r: LockCore)
        ensures
            r == LockCore::of_id((bits & 0x03) as u32),
    {
        let id: u8 = bits & 0x03;
        if id == 0 {
            LockCore::Unlocked
        } else if id == 1 {
            LockCore::Hcpu
        } else if id == 2 {
            LockCore::Lcpu
        } else {
            LockCore::Bcpu
        }
    }

    /// The two ID bits of the owner.
    pub fn to_bits(&self) -> (r: u8)
        ensures
            r == self.id(),
            LockCore::of_id(r as u32) == *self,
    {
        match self {
            LockCore::Unlocked => 0,
            LockCore::Hcpu => 1,
            LockCore::Lcpu => 2,
            LockCore::Bcpu => 3,
        }
    }
}

/// The mask of interrupt bit `bit`.
pub open spec fn bit_mask(bit: u8) -> u32 {
    1u32 << (bit as u32)
}

/// The exclusive bit of a mutex word: set while the mutex is free.
pub open spec fn exr_free(word: u32) -> bool {
    word & 1 == 1
}

/// The owner that a mutex word names: nobody while the exclusive bit is
/// set, else the core of the ID bits 2..=1.
pub open spec fn exr_owner(word: u32) -> LockCore {
    if exr_free(word) {
        LockCore::Unlocked
    } else {
        LockCore::of_id((word >> 1) & 0x03)
    }
}

/// The mutex word of a mutex held by `core`: exclusive bit clear, ID bits
/// the core's.
pub open spec fn exr_held_by(core: LockCore) -> u32 {
    core.id() << 1
}

/// The mutex word of a free mutex.
pub const EXR_FREE: u32 = 1;

/// The mutex word after a read by `core`: a free mutex becomes the
/// core's, a held one stays as it is.
pub open spec fn exr_after_read(word: u32, core: LockCore) -> u32 {
    if exr_free(word) {
        exr_held_by(core)
    } else {
        word
    }
}

/// The mutex word after the cores of `readers` have read the register one
/// after the other, starting from `word`.
pub open spec fn exr_after_reads(word: u32, readers: Seq<LockCore>) -> u32
    decreases readers.len(),
{
    if readers.len() == 0 {
        word
    } else {
        exr_after_read(exr_after_reads(word, readers.drop_last()), readers.last())
    }
}

/// What the reader at place `i` of `readers` observes, when the cores read
/// the register one after the other, starting from `word`.
pub open spec fn observed(word: u32, readers: Seq<LockCore>, i: int) -> LockCore {
    exr_owner(exr_after_reads(word, readers.take(i)))
}

/// A mutex taken by a core names that core as its owner.
pub proof fn lemma_held_owner(core: LockCore)
    requires
        core.locked(),
    ensures
        !exr_free(exr_held_by(core)),
        exr_owner(exr_held_by(core)) == core,
{
    let id: u32 = core.id();
    assert((id << 1) & 1 == 0 && ((id << 1) >> 1) & 0x03 == id) by (bit_vector)
        requires
            1 <= id <= 3,
    ;
}

/// However many cores read a free mutex one after the other, the first
/// reader holds it after every read.
pub proof fn lemma_first_reader_holds(readers: Seq<LockCore>)
    requires
        readers.len() >= 1,
        forall|k: int| 0 <= k < readers.len() ==> (#[trigger] readers[k]).locked(),
    ensures
        exr_after_reads(EXR_FREE, readers) == exr_held_by(readers[0]),
    decreases readers.len(),
{
    assert(1u32 & 1 == 1) by (bit_vector);
    if readers.len() == 1 {
        assert(readers.drop_last().len() == 0);
        assert(exr_after_reads(EXR_FREE, readers.drop_last()) == EXR_FREE);
    } else {
        let head = readers.drop_last();
        assert(head[0] == readers[0]);
        assert forall|k: int| 0 <= k < head.len() implies (#[trigger] head[k]).locked() by {
            assert(head[k] == readers[k]);
        }
        lemma_first_reader_holds(head);
        lemma_held_owner(readers[0]);
    }
}

/// Mutual exclusion: when any number of cores try to take a free mutex,
/// in whatever order the hardware serves them, exactly the first one
/// served observes `Unlocked`. Every later one observes the first as the
/// owner, however many attempts follow.
pub proof fn lemma_mutex_exclusive(readers: Seq<LockCore>, i: int)
    requires
        0 <= i < readers.len(),
        forall|k: int| 0 <= k < readers.len() ==> (#[trigger] readers[k]).locked(),
    ensures
        observed(EXR_FREE, readers, i) == (if i == 0 {
            LockCore::Unlocked
        } else {
            readers[0]
        }),
        (observed(EXR_FREE, readers, i) == LockCore::Unlocked) <==> i == 0,
{
    assert(1u32 & 1 == 1) by (bit_vector);
    let earlier = readers.take(i);
    if i == 0 {
        assert(earlier.len() == 0);
    } else {
        assert(earlier[0] == readers[0]);
        assert forall|k: int| 0 <= k < earlier.len() implies (#[trigger] earlier[k]).locked() by {
            assert(earlier[k] == readers[k]);
        }
        lemma_first_reader_holds(earlier);
        lemma_held_owner(readers[0]);
    }
}

/// Signalling, bit by bit: a triggered bit that is enabled is pending; a
/// bit that is not enabled is never pending; a cleared bit is no longer
/// raised; and clearing leaves the bits outside the mask as they were.
pub proof fn lemma_signalling(raised: u32, enabled: u32, mask: u32)
    ensures
        mask & enabled == mask ==> ((raised | mask) & enabled) & mask == mask,
        mask & enabled == 0 ==> ((raised | mask) & enabled) & mask == 0,
        (raised & !mask) & mask == 0,
        (raised & !mask) & !mask == raised & !mask,
        (raised | mask) & !mask == raised & !mask,
{
    assert(mask & enabled == mask ==> ((raised | mask) & enabled) & mask == mask) by (bit_vector);
    assert(mask & enabled == 0 ==> ((raised | mask) & enabled) & mask == 0) by (bit_vector);
    assert((raised & !mask) & mask == 0) by (bit_vector);
    assert((raised & !mask) & !mask == raised & !mask) by (bit_vector);
    assert((raised | mask) & !mask == raised & !mask) by (bit_vector);
}

/// The word to write to a trigger register to raise interrupt bit `bit`.
pub fn trigger_word(bit: u8) -> (r: u32)
    requires
        bit < 16,
    ensures
        r == bit_mask(bit),
        0 < r < 0x1_0000,
{
    assert(0 < (1u32 << (bit as u32)) < 0x1_0000) by (bit_vector)
        requires
            bit < 16,
    ;
    1u32 << (bit as u32)
}

/// The enable word `ier` with interrupt bit `bit` switched on or off and
/// all other bits kept.
pub fn enable_word(ier: u32, bit: u8, on: bool) -> (r: u32)
    requires
        bit < 16,
    ensures
        r == (if on {
            ier | bit_mask(bit)
        } else {
            ier & !bit_mask(bit)
        }),
{
    if on {
        ier | (1u32 << (bit as u32))
    } else {
        ier & !(1u32 << (bit as u32))
    }
}

/// The owner that a word read from the mutex register names. `Unlocked`
/// means that this very read took the mutex.
pub fn decode_exr(word: u32) -> (r: LockCore)
    ensures
        r == exr_owner(word),
{
    if word & 1 == 1 {
        LockCore::Unlocked
    } else {
        let id: u32 = (word >> 1) & 0x03;
        assert(id <= 3) by (bit_vector)
            requires
                id == (word >> 1) & 0x03,
        ;
        let low: u8 = id as u8;
        assert(low & 0x03 == low) by (bit_vector)
            requires
                low <= 3,
        ;
        LockCore::from_bits(low)
    }
}

/// The registers of one mailbox lane.
pub struct MailboxLane {
    ier: u32,
    isr: u32,
    exr: u32,
}

impl MailboxLane {
    #[verifier::type_invariant]
    spec fn inv(self) -> bool {
        self.ier < 0x1_0000 && self.isr < 0x1_0000 && (self.exr == EXR_FREE || (self.exr & 1 == 0
            && self.exr < 8 && self.exr != 0))
    }

    /// The interrupt enable mask.
    pub closed spec fn enabled(&self) -> u32 {
        self.ier
    }

    /// The raw interrupt status: every bit that was triggered and not
    /// cleared.
    pub closed spec fn raised(&self) -> u32 {
        self.isr
    }

    /// The masked interrupt status: the raised bits that are enabled.
    pub open spec fn pending(&self) -> u32 {
        self.raised() & self.enabled()
    }

    /// The mutex register's word.
    pub closed spec fn exr(&self) -> u32 {
        self.exr
    }

    /// The core that holds the mutex; `Unlocked` while it is free.
    pub open spec fn holder(&self) -> LockCore {
        exr_owner(self.exr())
    }

    /// A lane after reset: nothing enabled, nothing raised, the mutex free.
    pub fn new() -> (r: MailboxLane)
        ensures
            r.enabled() == 0,
            r.raised() == 0,
            r.exr() == EXR_FREE,
            r.holder() == LockCore::Unlocked,
    {
        assert(1u32 & 1 == 1) by (bit_vector);
        MailboxLane { ier: 0, isr: 0, exr: EXR_FREE }
    }

    /// A write of `mask` to the trigger register: raises the bits of
    /// `mask`, keeps those already raised.
    pub fn write_itr(&mut self, mask: u32)
        requires
            mask < 0x1_0000,
        ensures
            final(self).raised() == old(self).raised() | mask,
            final(self).enabled() == old(self).enabled(),
            final(self).exr() == old(self).exr(),
    {
        proof {
            use_type_invariant(&*self);
        }
        let raised: u32 = self.isr;
        let isr: u32 = raised | mask;
        assert(isr < 0x1_0000) by (bit_vector)
            requires
                isr == raised | mask,
                raised < 0x1_0000,
                mask < 0x1_0000,
        ;
        *self = MailboxLane { ier: self.ier, isr, exr: self.exr };
    }

    /// A write of `mask` to the clear register: clears the raised bits that
    /// are set in `mask`, keeps all others.
    pub fn write_icr(&mut self, mask: u32)
        ensures
            final(self).raised() == old(self).raised() & !mask,
            final(self).enabled() == old(self).enabled(),
            final(self).exr() == old(self).exr(),
    {
        proof {
            use_type_invariant(&*self);
        }
        let raised: u32 = self.isr;
        let isr: u32 = raised & !mask;
        assert(isr < 0x1_0000) by (bit_vector)
            requires
                isr == raised & !mask,
                raised < 0x1_0000,
        ;
        *self = MailboxLane { ier: self.ier, isr, exr: self.exr };
    }

    /// A write of `word` to the enable register.
    pub fn write_ier(&mut self, word: u32)
        requires
            word < 0x1_0000,
        ensures
            final(self).enabled() == word,
            final(self).raised() == old(self).raised(),
            final(self).exr() == old(self).exr(),
    {
        proof {
            use_type_invariant(&*self);
        }
        *self = MailboxLane { ier: word, isr: self.isr, exr: self.exr };
    }

    /// A read of the enable register.
    pub fn read_ier(&self) -> (r: u32)
        ensures
            r == self.enabled(),
            r < 0x1_0000,
    {
        proof {
            use_type_invariant(self);
        }
        self.ier
    }

    /// A read of the raw status register.
    pub fn read_isr(&self) -> (r: u32)
        ensures
            r == self.raised(),
            r < 0x1_0000,
    {
        proof {
            use_type_invariant(self);
        }
        self.isr
    }

    /// A read of the masked status register.
    pub fn read_misr(&self) -> (r: u32)
        ensures
            r == self.pending(),
    {
        self.isr & self.ier
    }

    /// A read of the mutex register by `core`: a test-and-set.
    ///
    /// While the mutex is free the read returns the free word and the
    /// mutex becomes `core`'s. While it is held the read returns the
    /// holder's word and changes nothing.
    pub fn read_exr(&mut self, core: LockCore) -> (r: u32)
        requires
            core.locked(),
        ensures
            r == old(self).exr(),
            final(self).exr() == exr_after_read(old(self).exr(), core),
            final(self).holder() == (if old(self).holder() == LockCore::Unlocked {
                core
            } else {
                old(self).holder()
            }),
            final(self).holder().locked(),
            final(self).enabled() == old(self).enabled(),
            final(self).raised() == old(self).raised(),
    {
        proof {
            use_type_invariant(&*self);
        }
        let word: u32 = self.exr;
        assert(1u32 & 1 == 1) by (bit_vector);
        if word & 1 == 1 {
            let id: u32 = core.to_bits() as u32;
            let held: u32 = id << 1;
            assert(held & 1 == 0 && held < 8 && held != 0 && held != 1 && (held >> 1) & 0x03 == id)
                by (bit_vector)
                requires
                    held == id << 1,
                    1 <= id <= 3,
            ;
            *self = MailboxLane { ier: self.ier, isr: self.isr, exr: held };
        } else {
            assert((word >> 1) & 0x03 != 0) by (bit_vector)
                requires
                    word & 1 == 0,
                    word < 8,
                    word != 0,
            ;
        }
        word
    }

    /// A write to the mutex register that sets the exclusive bit: the
    /// mutex is free again, whoever held it.
    pub fn write_exr_free(&mut self)
        ensures
            final(self).exr() == EXR_FREE,
            final(self).holder() == LockCore::Unlocked,
            final(self).enabled() == old(self).enabled(),
            final(self).raised() == old(self).raised(),
    {
        proof {
            use_type_invariant(&*self);
        }
        assert(1u32 & 1 == 1) by (bit_vector);
        *self = MailboxLane { ier: self.ier, isr: self.isr, exr: EXR_FREE };
    }
}

/// One core's handle on a mailbox lane.
pub struct MailboxChannel {
    core: LockCore,
    index: usize,
}

impl MailboxChannel {
    #[verifier::type_invariant]
    spec fn inv(self) -> bool {
        self.core.locked()
    }

    /// The core that the handle belongs to.
    pub closed spec fn cpu(&self) -> LockCore {
        self.core
    }

    /// The lane's number within its mailbox, from 0.
    pub closed spec fn index(&self) -> usize {
        self.index
    }

    /// A handle of `core` on lane `index`.
    pub fn new(core: LockCore, index: usize) -> (r: MailboxChannel)
        requires
            core.locked(),
        ensures
            r.cpu() == core,
            r.index() == index,
    {
        MailboxChannel { core, index }
    }

    /// The lane's number within its mailbox.
    pub fn channel_index(&self) -> (r: usize)
        ensures
            r == self.index(),
    {
        self.index
    }

    /// The core that the handle belongs to.
    pub fn owner_core(&self) -> (r: LockCore)
        ensures
            r == self.cpu(),
            r.locked(),
    {
        proof {
            use_type_invariant(self);
        }
        self.core
    }

    /// Raises interrupt bit `bit` for the other core.
    pub fn trigger(&mut self, lane: &mut MailboxLane, bit: u8)
        requires
            bit < 16,
        ensures
            final(lane).raised() == old(lane).raised() | bit_mask(bit),
            final(lane).enabled() == old(lane).enabled(),
            final(lane).exr() == old(lane).exr(),
            *final(self) == *old(self),
    {
        lane.write_itr(trigger_word(bit));
    }

    /// Raises all interrupt bits of `mask` at once.
    pub fn trigger_mask(&mut self, lane: &mut MailboxLane, mask: u16)
        ensures
            final(lane).raised() == old(lane).raised() | (mask as u32),
            final(lane).enabled() == old(lane).enabled(),
            final(lane).exr() == old(lane).exr(),
            *final(self) == *old(self),
    {
        lane.write_itr(mask as u32);
    }

    /// Lets interrupt bit `bit` through to this core.
    pub fn enable_interrupt(&mut self, lane: &mut MailboxLane, bit: u8)
        requires
            bit < 16,
        ensures
            final(lane).enabled() == old(lane).enabled() | bit_mask(bit),
            final(lane).raised() == old(lane).raised(),
            final(lane).exr() == old(lane).exr(),
            *final(self) == *old(self),
    {
        let ier: u32 = lane.read_ier();
        let word: u32 = enable_word(ier, bit, true);
        assert(word < 0x1_0000) by (bit_vector)
            requires
                word == ier | (1u32 << (bit as u32)),
                ier < 0x1_0000,
                bit < 16,
        ;
        lane.write_ier(word);
    }

    /// Keeps interrupt bit `bit` from this core.
    pub fn disable_interrupt(&mut self, lane: &mut MailboxLane, bit: u8)
        requires
            bit < 16,
        ensures
            final(lane).enabled() == old(lane).enabled() & !bit_mask(bit),
            final(lane).raised() == old(lane).raised(),
            final(lane).exr() == old(lane).exr(),
            *final(self) == *old(self),
    {
        let ier: u32 = lane.read_ier();
        let word: u32 = enable_word(ier, bit, false);
        assert(word < 0x1_0000) by (bit_vector)
            requires
                word == ier & !(1u32 << (bit as u32)),
                ier < 0x1_0000,
        ;
        lane.write_ier(word);
    }

    /// The interrupt bits that are raised and enabled.
    pub fn pending(&self, lane: &MailboxLane) -> (r: u16)
        ensures
            r == lane.pending(),
    {
        let isr: u32 = lane.read_isr();
        let ier: u32 = lane.read_ier();
        let word: u32 = lane.read_misr();
        assert(word < 0x1_0000) by (bit_vector)
            requires
                word == isr & ier,
                isr < 0x1_0000,
        ;
        word as u16
    }

    /// Acknowledges the interrupt bits of `mask`: clears them and keeps all
    /// others raised.
    pub fn clear(&mut self, lane: &mut MailboxLane, mask: u16)
        ensures
            final(lane).raised() == old(lane).raised() & !(mask as u32),
            final(lane).enabled() == old(lane).enabled(),
            final(lane).exr() == old(lane).exr(),
            *final(self) == *old(self),
    {
        lane.write_icr(mask as u32);
    }

    /// Tries to take the lane's mutex for this core.
    ///
    /// Returns `Unlocked` if the mutex was free: it is this core's from
    /// now on. Otherwise returns the core that holds it, and nothing
    /// changes.
    pub fn try_lock(&mut self, lane: &mut MailboxLane) -> (r: LockCore)
        ensures
            r == old(lane).holder(),
            final(lane).holder() == (if r == LockCore::Unlocked {
                old(self).cpu()
            } else {
                r
            }),
            final(lane).holder().locked(),
            final(lane).enabled() == old(lane).enabled(),
            final(lane).raised() == old(lane).raised(),
            *final(self) == *old(self),
    {
        proof {
            use_type_invariant(&*self);
        }
        let exr: u32 = lane.read_exr(self.core);
        decode_exr(exr)
    }

    /// Frees the lane's mutex. Only the core that holds it may do so.
    pub fn unlock(&mut self, lane: &mut MailboxLane)
        requires
            old(lane).holder() == old(self).cpu(),
        ensures
            final(lane).holder() == LockCore::Unlocked,
            final(lane).exr() == EXR_FREE,
            final(lane).enabled() == old(lane).enabled(),
            final(lane).raised() == old(lane).raised(),
            *final(self) == *old(self),
    {
        lane.write_exr_free();
    }
}

/// The first mailbox: four lanes.
pub struct Mailbox1 {
    pub ch1: MailboxChannel,
    pub ch2: MailboxChannel,
    pub ch3: MailboxChannel,
    pub ch4: MailboxChannel,
}

impl Mailbox1 {
    /// The handles of `core` on the four lanes, numbered 0 to 3.
    pub fn new(core: LockCore) -> (r: Mailbox1)
        requires
            core.locked(),
        ensures
            r.ch1.cpu() == core && r.ch1.index() == 0,
            r.ch2.cpu() == core && r.ch2.index() == 1,
            r.ch3.cpu() == core && r.ch3.index() == 2,
            r.ch4.cpu() == core && r.ch4.index() == 3,
    {
        Mailbox1 {
            ch1: MailboxChannel::new(core, 0),
            ch2: MailboxChannel::new(core, 1),
            ch3: MailboxChannel::new(core, 2),
            ch4: MailboxChannel::new(core, 3),
        }
    }

    /// The four handles, each to be owned on its own.
    pub fn split(self) -> (r: (MailboxChannel, MailboxChannel, MailboxChannel, MailboxChannel))
        ensures
            r.0 == self.ch1,
            r.1 == self.ch2,
            r.2 == self.ch3,
            r.3 == self.ch4,
    {
        (self.ch1, self.ch2, self.ch3, self.ch4)
    }
}

/// The second mailbox: two lanes.
pub struct Mailbox2 {
    pub ch1: MailboxChannel,
    pub ch2: MailboxChannel,
}

impl Mailbox2 {
    /// The handles of `core` on the two lanes, numbered 0 and 1.
    pub fn new(core: LockCore) -> (r: Mailbox2)
        requires
            core.locked(),
        ensures
            r.ch1.cpu() == core && r.ch1.index() == 0,
            r.ch2.cpu() == core && r.ch2.index() == 1,
    {
        Mailbox2 { ch1: MailboxChannel::new(core, 0), ch2: MailboxChannel::new(core, 1) }
    }

    /// The two handles, each to be owned on its own.
    pub fn split(self) -> (r: (MailboxChannel, MailboxChannel))
        ensures
            r.0 == self.ch1,
            r.1 == self.ch2,
    {
        (self.ch1, self.ch2)
    }
}

} // verus!
