//! A window of physical memory: a borrowed byte span together with the
//! address of its first byte.
//!
//! The structures of the protocol point at each other by physical address.
//! A window turns such an address into a bounds-checked offset, so that a
//! pointer that leads outside the memory at hand is noticed instead of
//! followed.

use vstd::prelude::*;
use vstd::slice::slice_subrange;

verus! {

/// The bytes that lie at the addresses `base .. base + bytes.len()`.
#[derive(Clone, Copy, Debug)]
pub struct MemoryWindow<'a> {
    /// The address of `bytes[0]`.
    pub base: u64,
    /// The content of the window.
    pub bytes: &'a [u8],
}

impl<'a> MemoryWindow<'a> {
    /// Whether the `len` bytes from address `addr` on all lie inside the window.
    pub open spec fn covers(&self, addr: int, len: int) -> bool {
        &&& self.base <= addr
        &&& 0 <= len
        &&& addr - self.base + len <= self.bytes@.len()
    }

    /// The `len` bytes from address `addr` on.
    pub open spec fn span(&self, addr: int, len: int) -> Seq<u8>
        recommends
            self.covers(addr, len),
    {
        self.bytes@.subrange(addr - self.base, addr - self.base + len)
    }

    /// The bytes from address `addr` on, up to the end of the window.
    pub open spec fn tail(&self, addr: int) -> Seq<u8>
        recommends
            self.covers(addr, 0),
    {
        self.bytes@.skip(addr - self.base)
    }

    /// The byte at address `addr`.
    pub open spec fn byte_at(&self, addr: int) -> u8
        recommends
            self.covers(addr, 1),
    {
        self.bytes@[addr - self.base]
    }

    /// A window over `bytes`, whose first byte has the address `base`.
    pub fn new(base: u64, bytes: &'a [u8]) -> (window: Self)
        ensures
            window.base == base,
            window.bytes@ == bytes@,
    {
        MemoryWindow { base, bytes }
    }

    /// The offset in the window of an address that lies in it or just past
    /// its end.
    pub fn offset(&self, addr: u64) -> (offset: usize)
        requires
            self.covers(addr as int, 0),
        ensures
            offset == addr - self.base,
            self.bytes@.len() <= usize::MAX,
    {
        let total: usize = self.bytes.len();
        assert(addr - self.base <= total);
        (addr - self.base) as usize
    }

    /// The offset of address `addr` in the window, if `addr` is an address of
    /// the window or the address just past its end.
    pub fn offset_of(&self, addr: u64) -> (offset: Option<usize>)
        ensures
            offset is Some <==> self.covers(addr as int, 0),
            offset matches Some(o) ==> o == addr - self.base,
    {
        if addr < self.base {
            return None;
        }
        let distance: u64 = addr - self.base;
        if distance > self.bytes.len() as u64 {
            return None;
        }
        Some(distance as usize)
    }

    /// Whether the `len` bytes from address `addr` on all lie inside the window.
    pub fn contains(&self, addr: u64, len: usize) -> (inside: bool)
        ensures
            inside == self.covers(addr as int, len as int),
    {
        match self.offset_of(addr) {
            Some(offset) => len <= self.bytes.len() - offset,
            None => false,
        }
    }

    /// The `len` bytes from address `addr` on, borrowed from the window.
    pub fn slice(&self, addr: u64, len: usize) -> (bytes: &'a [u8])
        requires
            self.covers(addr as int, len as int),
        ensures
            bytes@ == self.span(addr as int, len as int),
    {
        let offset: usize = self.offset(addr);
        slice_subrange(self.bytes, offset, offset + len)
    }
}

} // verus!
