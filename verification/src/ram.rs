//! A window of byte-addressed memory.
//!
//! The co-processor's patch and configuration areas live at fixed physical
//! addresses. [`Ram`] stands for such an area: a base address and the bytes
//! that follow it. The installers write into a `Ram`; whoever owns the
//! hardware carries the bytes to and from the physical addresses.

use crate::endian::{byte_of, le_byte};
use vstd::prelude::*;

verus! {

/// A run of memory bytes that starts at a base address.
pub struct Ram {
    base: usize,
    bytes: Vec<u8>,
}

impl Ram {
    #[verifier::type_invariant]
    spec fn inv(self) -> bool {
        self.base + self.bytes.len() <= usize::MAX
    }

    /// The address of the window's first byte.
    pub closed spec fn base(&self) -> int {
        self.base as int
    }

    /// The number of bytes in the window.
    pub closed spec fn size(&self) -> int {
        self.bytes.len() as int
    }

    /// The window's bytes, in address order.
    pub closed spec fn contents(&self) -> Seq<u8> {
        self.bytes@
    }

    /// The window holds every address from `addr` up to `addr + len`.
    pub open spec fn covers(&self, addr: int, len: int) -> bool {
        0 <= len && self.base() <= addr && addr + len <= self.base() + self.size()
    }

    /// The byte at address `addr`.
    pub open spec fn byte_at(&self, addr: int) -> u8 {
        self.contents()[addr - self.base()]
    }

    /// Two windows over the same addresses.
    pub open spec fn same_extent(&self, other: &Ram) -> bool {
        self.base() == other.base() && self.size() == other.size()
    }

    /// A zero-filled window of `size` bytes at `base`.
    pub fn new(base: usize, size: usize) -> (r: Ram)
        requires
            base + size <= usize::MAX,
        ensures
            r.base() == base,
            r.size() == size,
            r.contents().len() == size,
            forall|a: int| r.covers(a, 1) ==> #[trigger] r.byte_at(a) == 0,
    {
        let mut bytes: Vec<u8> = Vec::new();
        let mut i: usize = 0;
        while i < size
            invariant
                i <= size,
                bytes.len() == i,
                forall|k: int| 0 <= k < i ==> bytes@[k] == 0,
            decreases size - i,
        {
            bytes.push(0);
            i = i + 1;
        }
        Ram { base, bytes }
    }

    /// The address of the window's first byte.
    pub fn base_address(&self) -> (r: usize)
        ensures
            r == self.base(),
    {
        self.base
    }

    /// The number of bytes in the window.
    pub fn len(&self) -> (r: usize)
        ensures
            r == self.size(),
            self.contents().len() == self.size(),
            self.base() + self.size() <= usize::MAX,
    {
        proof {
            use_type_invariant(self);
        }
        self.bytes.len()
    }

    /// Whether the window holds every address from `addr` up to `addr + len`.
    pub fn holds(&self, addr: usize, len: usize) -> (r: bool)
        ensures
            r == self.covers(addr as int, len as int),
    {
        proof {
            use_type_invariant(self);
        }
        addr >= self.base && len <= self.bytes.len() && addr - self.base <= self.bytes.len() - len
    }

    /// Reads the byte at `addr`.
    pub fn read(&self, addr: usize) -> (r: u8)
        requires
            self.covers(addr as int, 1),
        ensures
            r == self.byte_at(addr as int),
    {
        self.bytes[addr - self.base]
    }

    /// The window's bytes, in address order.
    pub fn as_bytes(&self) -> (r: &[u8])
        ensures
            r@ == self.contents(),
    {
        self.bytes.as_slice()
    }

    /// Writes one byte at `addr` and leaves all others as they were.
    pub fn write(&mut self, addr: usize, value: u8)
        requires
            old(self).covers(addr as int, 1),
        ensures
            final(self).same_extent(old(self)),
            final(self).contents().len() == old(self).contents().len(),
            forall|a: int|
                old(self).covers(a, 1) ==> #[trigger] final(self).byte_at(a) == (if a == addr {
                    value
                } else {
                    old(self).byte_at(a)
                }),
    {
        proof {
            use_type_invariant(&*self);
        }
        let offset: usize = addr - self.base;
        self.bytes[offset] = value;
    }

    /// Copies `data` to the addresses from `addr` on and leaves all other
    /// bytes as they were.
    pub fn write_bytes(&mut self, addr: usize, data: &[u8])
        requires
            old(self).covers(addr as int, data@.len() as int),
        ensures
            final(self).same_extent(old(self)),
            forall|a: int|
                old(self).covers(a, 1) ==> #[trigger] final(self).byte_at(a) == (if addr <= a < addr
                    + data@.len() {
                    data@[a - addr]
                } else {
                    old(self).byte_at(a)
                }),
    {
        let ghost before = *self;
        let n: usize = data.len();
        let mut i: usize = 0;
        while i < n
            invariant
                i <= n,
                n == data@.len(),
                self.same_extent(&before),
                before.covers(addr as int, n as int),
                forall|a: int|
                    before.covers(a, 1) ==> #[trigger] self.byte_at(a) == (if addr <= a < addr + i {
                        data@[a - addr]
                    } else {
                        before.byte_at(a)
                    }),
            decreases n - i,
        {
            proof {
                use_type_invariant(&*self);
            }
            self.write(addr + i, data[i]);
            i = i + 1;
        }
    }

    /// Sets the `len` bytes from `addr` on to `value` and leaves all other
    /// bytes as they were.
    pub fn fill(&mut self, addr: usize, len: usize, value: u8)
        requires
            old(self).covers(addr as int, len as int),
        ensures
            final(self).same_extent(old(self)),
            forall|a: int|
                old(self).covers(a, 1) ==> #[trigger] final(self).byte_at(a) == (if addr <= a < addr
                    + len {
                    value
                } else {
                    old(self).byte_at(a)
                }),
    {
        let ghost before = *self;
        let mut i: usize = 0;
        while i < len
            invariant
                i <= len,
                self.same_extent(&before),
                before.covers(addr as int, len as int),
                forall|a: int|
                    before.covers(a, 1) ==> #[trigger] self.byte_at(a) == (if addr <= a < addr + i {
                        value
                    } else {
                        before.byte_at(a)
                    }),
            decreases len - i,
        {
            proof {
                use_type_invariant(&*self);
            }
            self.write(addr + i, value);
            i = i + 1;
        }
    }

    /// Writes a 32-bit word at `addr`, least significant byte first, and
    /// leaves all other bytes as they were.
    pub fn write_u32(&mut self, addr: usize, word: u32)
        requires
            old(self).covers(addr as int, 4),
        ensures
            final(self).same_extent(old(self)),
            forall|a: int|
                old(self).covers(a, 1) ==> #[trigger] final(self).byte_at(a) == (if addr <= a < addr
                    + 4 {
                    le_byte(word, a - addr)
                } else {
                    old(self).byte_at(a)
                }),
    {
        proof {
            use_type_invariant(&*self);
        }
        self.write(addr, byte_of(word, 0));
        self.write(addr + 1, byte_of(word, 1));
        self.write(addr + 2, byte_of(word, 2));
        self.write(addr + 3, byte_of(word, 3));
    }

    /// Writes a 16-bit word at `addr`, least significant byte first, and
    /// leaves all other bytes as they were.
    pub fn write_u16(&mut self, addr: usize, word: u16)
        requires
            old(self).covers(addr as int, 2),
        ensures
            final(self).same_extent(old(self)),
            forall|a: int|
                old(self).covers(a, 1) ==> #[trigger] final(self).byte_at(a) == (if addr <= a < addr
                    + 2 {
                    le_byte(word as u32, a - addr)
                } else {
                    old(self).byte_at(a)
                }),
    {
        proof {
            use_type_invariant(&*self);
        }
        self.write(addr, byte_of(word as u32, 0));
        self.write(addr + 1, byte_of(word as u32, 1));
    }
}

} // verus!
