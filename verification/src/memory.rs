//! Memory map entries and the array they lie in.
//!
//! An entry is 24 bytes: `base: u64`, `length: u64`, `type: u32` and a
//! reserved `u32`. The root structure gives the address of the first entry
//! and their number; the entries follow each other without gaps.

use vstd::prelude::*;
use vstd::slice::slice_subrange;
use crate::wire::{
    le_bytes_u32, le_bytes_u64, le_u32, le_u64, lemma_le_u32_round_trip, lemma_le_u64_round_trip,
    read_le_u32, read_le_u64,
};
use crate::window::MemoryWindow;

verus! {

/// The size of a memory map entry in memory.
pub const MEMORY_MAP_ENTRY_SIZE: usize = 24;

/// The type of the memory map entry
#[derive(Clone, Copy, Debug, PartialEq, Eq, Structural)]
pub enum MemoryMapEntryType {
    /// Usable memory
    Usable,
    /// Memory reserved by the system
    Reserved,
    /// ACPI memory that can be reclaimed
    AcpiReclaimable,
    /// ACPI memory that cannot be reclaimed
    AcpiNvs,
    /// Memory marked as defective (bad RAM)
    BadMemory,
    /// Memory containing the kernel and any modules
    Kernel,
}

impl MemoryMapEntryType {
    /// The type that the number `raw` stands for in an entry, if any.
    pub open spec fn of_raw(raw: u32) -> Option<MemoryMapEntryType> {
        if raw == 1 {
            Some(MemoryMapEntryType::Usable)
        } else if raw == 2 {
            Some(MemoryMapEntryType::Reserved)
        } else if raw == 3 {
            Some(MemoryMapEntryType::AcpiReclaimable)
        } else if raw == 4 {
            Some(MemoryMapEntryType::AcpiNvs)
        } else if raw == 5 {
            Some(MemoryMapEntryType::BadMemory)
        } else if raw == 10 {
            Some(MemoryMapEntryType::Kernel)
        } else {
            None
        }
    }

    /// The number that stands for this type in an entry.
    pub open spec fn to_raw(self) -> u32 {
        match self {
            MemoryMapEntryType::Usable => 1,
            MemoryMapEntryType::Reserved => 2,
            MemoryMapEntryType::AcpiReclaimable => 3,
            MemoryMapEntryType::AcpiNvs => 4,
            MemoryMapEntryType::BadMemory => 5,
            MemoryMapEntryType::Kernel => 10,
        }
    }

    /// The type that the number `raw` stands for in an entry, if any.
    pub fn from_raw(raw: u32) -> (entry_type: Option<MemoryMapEntryType>)
        ensures
            entry_type == Self::of_raw(raw),
    {
        if raw == 1 {
            Some(MemoryMapEntryType::Usable)
        } else if raw == 2 {
            Some(MemoryMapEntryType::Reserved)
        } else if raw == 3 {
            Some(MemoryMapEntryType::AcpiReclaimable)
        } else if raw == 4 {
            Some(MemoryMapEntryType::AcpiNvs)
        } else if raw == 5 {
            Some(MemoryMapEntryType::BadMemory)
        } else if raw == 10 {
            Some(MemoryMapEntryType::Kernel)
        } else {
            None
        }
    }

    /// The number that stands for this type in an entry.
    pub fn raw(self) -> (raw: u32)
        ensures
            raw == self.to_raw(),
            Self::of_raw(raw) == Some(self),
    {
        match self {
            MemoryMapEntryType::Usable => 1,
            MemoryMapEntryType::Reserved => 2,
            MemoryMapEntryType::AcpiReclaimable => 3,
            MemoryMapEntryType::AcpiNvs => 4,
            MemoryMapEntryType::BadMemory => 5,
            MemoryMapEntryType::Kernel => 10,
        }
    }
}

/// The fields of a memory map entry.
pub struct MemoryMapRecord {
    /// The address where the region starts.
    pub base: u64,
    /// The size of the region.
    pub length: u64,
    /// The number that stands for the type of the region.
    pub entry_type: u32,
    /// The reserved field.
    pub reserved: u32,
}

impl MemoryMapRecord {
    /// The 24 bytes of the entry that holds these fields.
    pub open spec fn encode(self) -> Seq<u8> {
        le_bytes_u64(self.base) + le_bytes_u64(self.length) + le_bytes_u32(self.entry_type)
            + le_bytes_u32(self.reserved)
    }

    /// An entry is 24 bytes, and reading it gives back the fields that were
    /// written.
    pub proof fn lemma_decode_encode(self)
        ensures
            self.encode().len() == MEMORY_MAP_ENTRY_SIZE,
            decode_memory_map_entry(self.encode()) == self,
    {
        lemma_le_u64_round_trip(self.base);
        lemma_le_u64_round_trip(self.length);
        lemma_le_u32_round_trip(self.entry_type);
        lemma_le_u32_round_trip(self.reserved);
        let bytes = self.encode();
        assert(bytes.subrange(0, 8) == le_bytes_u64(self.base));
        assert(bytes.subrange(8, 16) == le_bytes_u64(self.length));
        assert(bytes.subrange(16, 20) == le_bytes_u32(self.entry_type));
        assert(bytes.subrange(20, 24) == le_bytes_u32(self.reserved));
    }
}

/// The fields that the 24 bytes of a memory map entry hold.
pub open spec fn decode_memory_map_entry(bytes: Seq<u8>) -> MemoryMapRecord
    recommends
        bytes.len() == MEMORY_MAP_ENTRY_SIZE,
{
    MemoryMapRecord {
        base: le_u64(bytes.subrange(0, 8)),
        length: le_u64(bytes.subrange(8, 16)),
        entry_type: le_u32(bytes.subrange(16, 20)),
        reserved: le_u32(bytes.subrange(20, 24)),
    }
}

/// Whether `bytes` are a memory map entry: 24 bytes, with a known type.
pub open spec fn is_memory_map_entry(bytes: Seq<u8>) -> bool {
    &&& bytes.len() == MEMORY_MAP_ENTRY_SIZE
    &&& MemoryMapEntryType::of_raw(decode_memory_map_entry(bytes).entry_type) is Some
}

/// A memory region: a view of its entry in memory.
#[derive(Clone, Copy, Debug)]
pub struct MemoryMapEntry<'a> {
    bytes: &'a [u8],
}

impl<'a> View for MemoryMapEntry<'a> {
    type V = MemoryMapRecord;

    open spec fn view(&self) -> MemoryMapRecord {
        decode_memory_map_entry(self.bytes())
    }
}

impl<'a> MemoryMapEntry<'a> {
    /// The bytes of the entry.
    pub closed spec fn bytes(&self) -> Seq<u8> {
        self.bytes@
    }

    /// A view lies over exactly one entry, and the entry has a known type.
    #[verifier::type_invariant]
    pub open spec fn well_formed(&self) -> bool {
        is_memory_map_entry(self.bytes())
    }

    /// Lays the view over `bytes`, which must be exactly one entry long and
    /// hold a known type.
    pub fn overlay(bytes: &'a [u8]) -> (entry: Option<Self>)
        ensures
            entry is Some <==> is_memory_map_entry(bytes@),
            entry matches Some(e) ==> e.bytes() == bytes@,
    {
        if bytes.len() != MEMORY_MAP_ENTRY_SIZE {
            return None;
        }
        match MemoryMapEntryType::from_raw(read_le_u32(bytes, 16)) {
            Some(_) => Some(MemoryMapEntry { bytes }),
            None => None,
        }
    }

    /// Get the address where the memory region starts
    pub fn start_address(&self) -> (address: u64)
        ensures
            address == self@.base,
    {
        proof {
            use_type_invariant(self);
        }
        read_le_u64(self.bytes, 0)
    }

    /// Get the address where the memory region ends
    ///
    /// Identical to `entry.start_address() + entry.size()`
    pub fn end_address(&self) -> (address: u64)
        requires
            self@.base + self@.length <= u64::MAX,
        ensures
            address == self@.base + self@.length,
    {
        self.start_address() + self.size()
    }

    /// Get the size of the memory region
    pub fn size(&self) -> (size: u64)
        ensures
            size == self@.length,
    {
        proof {
            use_type_invariant(self);
        }
        read_le_u64(self.bytes, 8)
    }

    /// Get the type of the memory region
    pub fn entry_type(&self) -> (entry_type: MemoryMapEntryType)
        ensures
            MemoryMapEntryType::of_raw(self@.entry_type) == Some(entry_type),
    {
        proof {
            use_type_invariant(self);
        }
        match MemoryMapEntryType::from_raw(read_le_u32(self.bytes, 16)) {
            Some(entry_type) => entry_type,
            None => unreached(),
        }
    }
}

/// The bytes of the entry with index `index` in the array at `addr`.
pub open spec fn entry_span(mem: MemoryWindow, addr: u64, index: int) -> Seq<u8> {
    mem.span(addr + MEMORY_MAP_ENTRY_SIZE * index, MEMORY_MAP_ENTRY_SIZE as int)
}

/// The entries of the array of `count` entries at `addr`, in array order,
/// each as its bytes.
pub open spec fn memory_map(mem: MemoryWindow, addr: u64, count: u64) -> Seq<Seq<u8>> {
    Seq::new(count as nat, |index: int| entry_span(mem, addr, index))
}

/// Whether the array of `count` entries at `addr` lies inside the window
/// and every entry of it has a known type. Of an array without entries
/// nothing is asked, wherever `addr` points.
pub open spec fn memory_map_readable(mem: MemoryWindow, addr: u64, count: u64) -> bool {
    count == 0 || {
        &&& mem.covers(addr as int, MEMORY_MAP_ENTRY_SIZE * count)
        &&& forall|index: int|
            0 <= index < count ==> is_memory_map_entry(#[trigger] entry_span(mem, addr, index))
    }
}

/// Tells whether the array of `count` entries at `addr` lies inside the
/// window and every entry of it has a known type.
pub fn check_memory_map(mem: &MemoryWindow, addr: u64, count: u64) -> (readable: bool)
    ensures
        readable == memory_map_readable(*mem, addr, count),
{
    if count == 0 {
        return true;
    }
    let start: usize = match mem.offset_of(addr) {
        Some(offset) => offset,
        None => { return false; },
    };
    let room: usize = mem.bytes.len() - start;
    if count > (room / MEMORY_MAP_ENTRY_SIZE) as u64 {
        return false;
    }
    let mut index: usize = 0;
    while index < count as usize
        invariant
            mem.covers(addr as int, MEMORY_MAP_ENTRY_SIZE * count),
            mem.bytes@.len() <= usize::MAX,
            start == addr - mem.base,
            index <= count,
            forall|i: int|
                0 <= i < index ==> is_memory_map_entry(#[trigger] entry_span(*mem, addr, i)),
        decreases count - index,
    {
        let at: usize = start + MEMORY_MAP_ENTRY_SIZE * index;
        let bytes: &[u8] = slice_subrange(mem.bytes, at, at + MEMORY_MAP_ENTRY_SIZE);
        assert(bytes@ == entry_span(*mem, addr, index as int));
        if MemoryMapEntry::overlay(bytes).is_none() {
            return false;
        }
        index += 1;
    }
    true
}

/// An iterator over all memory regions
#[derive(Clone, Copy, Debug)]
pub struct MemoryMapIter<'a> {
    mem: MemoryWindow<'a>,
    addr: u64,
    curr: u64,
    length: u64,
}

impl<'a> MemoryMapIter<'a> {
    #[verifier::type_invariant]
    spec fn well_formed(self) -> bool {
        &&& self.curr <= self.length
        &&& memory_map_readable(self.mem, self.addr, self.length)
    }

    /// The entries that are still to come, in order, each as its bytes.
    pub closed spec fn remaining(&self) -> Seq<Seq<u8>> {
        memory_map(self.mem, self.addr, self.length).skip(self.curr as int)
    }

    /// A traversal of the array of `length` entries at address `addr`.
    pub fn build(mem: MemoryWindow<'a>, addr: u64, length: u64) -> (iter: Self)
        requires
            memory_map_readable(mem, addr, length),
        ensures
            iter.remaining() == memory_map(mem, addr, length),
    {
        MemoryMapIter { mem, addr, curr: 0, length }
    }

    /// The next entry of the array, if one is left.
    pub fn next(&mut self) -> (entry: Option<MemoryMapEntry<'a>>)
        ensures
            entry is None <==> old(self).remaining().len() == 0,
            entry is None ==> final(self).remaining() == old(self).remaining(),
            entry matches Some(e) ==> {
                &&& e.bytes() == old(self).remaining()[0]
                &&& final(self).remaining() == old(self).remaining().drop_first()
            },
    {
        proof {
            use_type_invariant(&*self);
        }
        if self.curr < self.length {
            let start: usize = self.mem.offset(self.addr);
            let at: usize = start + MEMORY_MAP_ENTRY_SIZE * (self.curr as usize);
            let bytes: &'a [u8] = slice_subrange(self.mem.bytes, at, at + MEMORY_MAP_ENTRY_SIZE);
            assert(bytes@ == entry_span(self.mem, self.addr, self.curr as int));
            let entry = MemoryMapEntry { bytes };
            *self = MemoryMapIter {
                mem: self.mem,
                addr: self.addr,
                curr: self.curr + 1,
                length: self.length,
            };
            Some(entry)
        } else {
            None
        }
    }
}

/// A memory map that was written as an array of `records.len()` entries
/// at `addr`, each with a known type, can be read, and its traversal yields
/// exactly as many entries as were written, in array order, each with the
/// fields of the entry written at its place.
pub proof fn lemma_memory_map_of_array(mem: MemoryWindow, addr: u64, records: Seq<MemoryMapRecord>)
    requires
        records.len() <= u64::MAX,
        records.len() > 0 ==> mem.covers(addr as int, MEMORY_MAP_ENTRY_SIZE * records.len()),
        forall|index: int|
            0 <= index < records.len() ==> {
                &&& #[trigger] entry_span(mem, addr, index) == records[index].encode()
                &&& MemoryMapEntryType::of_raw(records[index].entry_type) is Some
            },
    ensures
        memory_map_readable(mem, addr, records.len() as u64),
        memory_map(mem, addr, records.len() as u64).len() == records.len(),
        forall|index: int|
            0 <= index < records.len() ==> decode_memory_map_entry(
                #[trigger] memory_map(mem, addr, records.len() as u64)[index],
            ) == records[index],
{
    assert forall|index: int| 0 <= index < records.len() implies {
        &&& is_memory_map_entry(#[trigger] entry_span(mem, addr, index))
        &&& decode_memory_map_entry(entry_span(mem, addr, index)) == records[index]
    } by {
        records[index].lemma_decode_encode();
    }
}

} // verus!
