//! Module records and the linked list they form.
//!
//! A record is 152 bytes: `start: u64`, `end: u64`, a 128-byte string field
//! and `next: u64`, the address of the following record. The list ends at a
//! record whose `next` is 0, or when the count that the root structure
//! declares is spent, whichever comes first.

use vstd::prelude::*;
use vstd::slice::slice_subrange;
use crate::wire::{le_u64, read_le_u64};
use crate::window::MemoryWindow;

verus! {

/// The size of a module record in memory.
pub const MODULE_SIZE: usize = 152;

/// The size of the string field of a module record.
pub const MODULE_STRING_CAPACITY: usize = 128;

/// The longest text that the string field of a module record yields.
pub const MODULE_STRING_LIMIT: usize = 127;

/// The fields of a module record.
pub struct ModuleRecord {
    /// The address where the module starts.
    pub start: u64,
    /// The address where the module ends.
    pub end: u64,
    /// The string field, all 128 bytes of it.
    pub string: Seq<u8>,
    /// The address of the next record, or 0.
    pub next: u64,
}

/// The fields that the 152 bytes of a module record hold.
pub open spec fn decode_module(bytes: Seq<u8>) -> ModuleRecord
    recommends
        bytes.len() == MODULE_SIZE,
{
    ModuleRecord {
        start: le_u64(bytes.subrange(0, 8)),
        end: le_u64(bytes.subrange(8, 16)),
        string: bytes.subrange(16, 144),
        next: le_u64(bytes.subrange(144, 152)),
    }
}

/// Whether the text in the string field `field` is `len` bytes long: no 0
/// comes before `len`, and at `len` stands a 0 or the limit is reached.
pub open spec fn string_ends_at(field: Seq<u8>, len: int) -> bool {
    &&& 0 <= len <= MODULE_STRING_LIMIT
    &&& forall|i: int| 0 <= i < len ==> field[i] != 0
    &&& (len == MODULE_STRING_LIMIT || field[len] == 0)
}

/// The length of the text in a string field is determined: the text ends
/// at one place only.
pub proof fn lemma_string_ends_at_unique(field: Seq<u8>, len1: int, len2: int)
    requires
        string_ends_at(field, len1),
        string_ends_at(field, len2),
    ensures
        len1 == len2,
{
    if len1 < len2 {
        assert(field[len1] != 0);
    } else if len2 < len1 {
        assert(field[len2] != 0);
    }
}

/// A module that the bootloader loaded: a view of its record in memory.
#[derive(Clone, Copy, Debug)]
pub struct Module<'a> {
    bytes: &'a [u8],
}

impl<'a> View for Module<'a> {
    type V = ModuleRecord;

    open spec fn view(&self) -> ModuleRecord {
        decode_module(self.bytes())
    }
}

impl<'a> Module<'a> {
    /// The bytes of the record.
    pub closed spec fn bytes(&self) -> Seq<u8> {
        self.bytes@
    }

    /// A view lies over exactly one record.
    #[verifier::type_invariant]
    pub open spec fn well_formed(&self) -> bool {
        self.bytes().len() == MODULE_SIZE
    }

    /// Lays the view over `bytes`, which must be exactly one record long.
    pub fn overlay(bytes: &'a [u8]) -> (module: Option<Self>)
        ensures
            module is Some <==> bytes@.len() == MODULE_SIZE,
            module matches Some(m) ==> m.bytes() == bytes@,
    {
        if bytes.len() == MODULE_SIZE {
            Some(Module { bytes })
        } else {
            None
        }
    }

    /// Get the address where the module starts
    pub fn start_address(&self) -> (address: u64)
        ensures
            address == self@.start,
    {
        proof {
            use_type_invariant(self);
        }
        read_le_u64(self.bytes, 0)
    }

    /// Get the address where the module ends
    pub fn end_address(&self) -> (address: u64)
        ensures
            address == self@.end,
    {
        proof {
            use_type_invariant(self);
        }
        read_le_u64(self.bytes, 8)
    }

    /// Get the size of the module: the distance from its start to its end
    pub fn size(&self) -> (size: u64)
        requires
            self@.start <= self@.end,
        ensures
            size == self@.end - self@.start,
    {
        self.end_address() - self.start_address()
    }

    /// Get the string passed to the module by the bootloader, if any
    ///
    /// The text is absent when the field starts with a 0. Otherwise it runs
    /// up to the first 0, and is cut at 127 bytes where none comes before.
    pub fn string(&self) -> (text: Option<&'a [u8]>)
        ensures
            text is None <==> self@.string[0] == 0,
            text matches Some(t) ==> {
                &&& string_ends_at(self@.string, t@.len() as int)
                &&& t@ == self@.string.take(t@.len() as int)
            },
    {
        proof {
            use_type_invariant(self);
        }
        let field: &[u8] = slice_subrange(self.bytes, 16, 144);
        if field[0] == 0 {
            return None;
        }
        let mut len: usize = 0;
        while len < MODULE_STRING_LIMIT && field[len] != 0
            invariant
                len <= MODULE_STRING_LIMIT,
                field@.len() == MODULE_STRING_CAPACITY,
                forall|i: int| 0 <= i < len ==> field@[i] != 0,
            decreases MODULE_STRING_LIMIT - len,
        {
            len += 1;
        }
        Some(slice_subrange(field, 0, len))
    }

    /// The address of the record that follows this one, or 0 at the end of
    /// the list.
    pub fn next(&self) -> (address: u64)
        ensures
            address == self@.next,
    {
        proof {
            use_type_invariant(self);
        }
        read_le_u64(self.bytes, 144)
    }
}

/// The address that the record at `addr` names as its successor.
pub open spec fn next_of(mem: MemoryWindow, addr: u64) -> u64
    recommends
        mem.covers(addr as int, MODULE_SIZE as int),
{
    decode_module(mem.span(addr as int, MODULE_SIZE as int)).next
}

/// The addresses of the records that a traversal from `head` visits when at
/// most `count` records are declared: it follows `next` until `count` is
/// spent or the address is 0.
pub open spec fn module_chain(mem: MemoryWindow, head: u64, count: nat) -> Seq<u64>
    decreases count,
{
    if count == 0 || head == 0 {
        Seq::empty()
    } else {
        seq![head] + module_chain(mem, next_of(mem, head), (count - 1) as nat)
    }
}

/// Whether every record that a traversal from `head` visits lies inside
/// the window.
pub open spec fn module_chain_readable(mem: MemoryWindow, head: u64, count: nat) -> bool
    decreases count,
{
    count == 0 || head == 0 || {
        &&& mem.covers(head as int, MODULE_SIZE as int)
        &&& module_chain_readable(mem, next_of(mem, head), (count - 1) as nat)
    }
}

/// Walks the list from `head` and tells whether every record that a
/// traversal of at most `count` records visits lies inside the window.
pub fn check_module_chain(mem: &MemoryWindow, head: u64, count: u64) -> (readable: bool)
    ensures
        readable == module_chain_readable(*mem, head, count as nat),
{
    let mut addr: u64 = head;
    let mut left: u64 = count;
    while left > 0 && addr != 0
        invariant
            module_chain_readable(*mem, head, count as nat) == module_chain_readable(
                *mem,
                addr,
                left as nat,
            ),
        decreases left,
    {
        if !mem.contains(addr, MODULE_SIZE) {
            return false;
        }
        let record: &[u8] = mem.slice(addr, MODULE_SIZE);
        addr = read_le_u64(record, 144);
        left -= 1;
    }
    true
}

/// An iterator over all the loaded modules
#[derive(Clone, Copy, Debug)]
pub struct ModuleIter<'a> {
    mem: MemoryWindow<'a>,
    next: u64,
    curr: u64,
    length: u64,
}

impl<'a> ModuleIter<'a> {
    #[verifier::type_invariant]
    spec fn well_formed(self) -> bool {
        &&& self.curr <= self.length
        &&& module_chain_readable(self.mem, self.next, (self.length - self.curr) as nat)
    }

    /// The memory that the list lies in.
    pub closed spec fn memory(&self) -> MemoryWindow<'a> {
        self.mem
    }

    /// The addresses of the records that are still to come, in order.
    pub closed spec fn remaining(&self) -> Seq<u64> {
        module_chain(self.mem, self.next, (self.length - self.curr) as nat)
    }

    /// A traversal of the list that starts at address `addr` and yields at
    /// most `length` modules.
    pub fn build(mem: MemoryWindow<'a>, addr: u64, length: u64) -> (iter: Self)
        requires
            module_chain_readable(mem, addr, length as nat),
        ensures
            iter.memory() == mem,
            iter.remaining() == module_chain(mem, addr, length as nat),
    {
        ModuleIter { mem, next: addr, curr: 0, length }
    }

    /// The next module of the list, if the count is not spent and the list
    /// has not ended.
    pub fn next(&mut self) -> (module: Option<Module<'a>>)
        ensures
            final(self).memory() == old(self).memory(),
            module is None <==> old(self).remaining().len() == 0,
            module is None ==> final(self).remaining() == old(self).remaining(),
            module matches Some(m) ==> {
                &&& m.bytes() == old(self).memory().span(
                    old(self).remaining()[0] as int,
                    MODULE_SIZE as int,
                )
                &&& final(self).remaining() == old(self).remaining().drop_first()
            },
    {
        proof {
            use_type_invariant(&*self);
        }
        if self.curr < self.length && self.next != 0 {
            let bytes: &'a [u8] = self.mem.slice(self.next, MODULE_SIZE);
            let module = Module { bytes };
            let next: u64 = module.next();
            *self = ModuleIter { mem: self.mem, next, curr: self.curr + 1, length: self.length };
            Some(module)
        } else {
            None
        }
    }
}

/// Whether `addrs` are the addresses of the records of a list in `mem`, in
/// list order: none is 0, every record lies inside the window, each but the
/// last names the next one as its successor, and the last names 0.
pub open spec fn is_module_list(mem: MemoryWindow, addrs: Seq<u64>) -> bool {
    forall|index: int|
        0 <= index < addrs.len() ==> {
            &&& (#[trigger] addrs[index]) != 0
            &&& mem.covers(addrs[index] as int, MODULE_SIZE as int)
            &&& next_of(mem, addrs[index]) == if index + 1 < addrs.len() {
                addrs[index + 1]
            } else {
                0
            }
        }
}

/// The address that leads to a list: that of its first record, or 0 where
/// the list has none.
pub open spec fn list_head(addrs: Seq<u64>) -> u64 {
    if addrs.len() == 0 {
        0
    } else {
        addrs[0]
    }
}

/// A traversal visits no more records than were declared, and never the
/// address 0.
pub proof fn lemma_module_chain_bounds(mem: MemoryWindow, head: u64, count: nat)
    ensures
        module_chain(mem, head, count).len() <= count,
        forall|index: int|
            0 <= index < module_chain(mem, head, count).len() ==> module_chain(
                mem,
                head,
                count,
            )[index] != 0,
    decreases count,
{
    if count != 0 && head != 0 {
        lemma_module_chain_bounds(mem, next_of(mem, head), (count - 1) as nat);
    }
}

/// Of a list of records that ends with a successor of 0, a traversal with
/// `count` declared yields the first `count` records where the list has
/// that many, and otherwise stops at the end of the list and yields all of
/// them. Either way every record it visits can be read.
pub proof fn lemma_traversal_of_list(mem: MemoryWindow, addrs: Seq<u64>, count: nat)
    requires
        is_module_list(mem, addrs),
    ensures
        module_chain_readable(mem, list_head(addrs), count),
        count <= addrs.len() ==> module_chain(mem, list_head(addrs), count) == addrs.take(
            count as int,
        ),
        count > addrs.len() ==> module_chain(mem, list_head(addrs), count) == addrs,
    decreases count,
{
    if count != 0 && addrs.len() != 0 {
        let rest = addrs.drop_first();
        assert forall|index: int| 0 <= index < rest.len() implies {
            &&& (#[trigger] rest[index]) != 0
            &&& mem.covers(rest[index] as int, MODULE_SIZE as int)
            &&& next_of(mem, rest[index]) == if index + 1 < rest.len() {
                rest[index + 1]
            } else {
                0
            }
        } by {
            assert(rest[index] == addrs[index + 1]);
        }
        assert(addrs[0] != 0);
        assert(next_of(mem, addrs[0]) == list_head(rest));
        lemma_traversal_of_list(mem, rest, (count - 1) as nat);
        if count <= addrs.len() {
            assert(seq![addrs[0]] + rest.take(count - 1) == addrs.take(count as int));
        } else {
            assert(seq![addrs[0]] + rest == addrs);
        }
    }
}

} // verus!
