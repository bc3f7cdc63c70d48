//! Typed, read-only views over the boot information block that a stivale
//! bootloader hands to a kernel, and the header a kernel embeds for the
//! bootloader to find.
//!
//! The bootloader leaves a root structure in memory and passes its address.
//! The root structure holds a few numbers and the addresses of further
//! tables: the command line, the memory map and the list of modules. The
//! views here read all of them in place, from a [`MemoryWindow`] over the
//! memory that the bootloader wrote, and never touch a byte outside it.
//!
//! Nothing is copied and nothing is written: every accessor reads the
//! memory again when it is called. The views can be shared between threads
//! as long as nobody writes to the memory under them.

use vstd::prelude::*;
use crate::cstring::{check_cstring, has_cstring, read_cstring, terminated_at};
use crate::framebuffer::{decode_framebuffer, FramebufferRecord};
use crate::memory::{check_memory_map, memory_map, memory_map_readable};
use crate::module::{check_module_chain, module_chain, module_chain_readable};
use crate::wire::{le_u64, read_le_u64};

pub mod cstring;
pub mod framebuffer;
pub mod header;
pub mod memory;
pub mod module;
pub mod window;
pub mod wire;

pub use crate::framebuffer::FramebufferInfo;
pub use crate::header::{StivaleHeader, StivaleHeaderFlag, StivaleHeaderFlags};
pub use crate::memory::MemoryMapIter;
pub use crate::module::ModuleIter;
pub use crate::window::MemoryWindow;

verus! {

/// The value a stivale bootloader passes alongside the structure pointer:
/// the ASCII bytes of "stivale!".
pub const STIVALE_SIGNATURE: u64 = 0x73746976616c6521;

/// The size of the root structure in memory.
pub const STRUCTURE_SIZE: usize = 80;

/// Checks if the value matches the ASCII "stivale!" signature (0x73746976616c6521)
pub fn check_signature(signature: u64) -> (matches: bool)
    ensures
        matches == (signature == STIVALE_SIGNATURE),
{
    signature == STIVALE_SIGNATURE
}

/// One of the things that the bootloader tells the kernel about the boot.
#[derive(Clone, Copy, Debug, PartialEq, Eq, Structural)]
pub enum StivaleFlag {
    /// The machine was booted through BIOS, not UEFI.
    BiosBoot,
}

impl StivaleFlag {
    /// The bit that stands for this flag in the root structure.
    pub open spec fn mask(self) -> u64 {
        match self {
            StivaleFlag::BiosBoot => 0x1,
        }
    }

    /// The bit that stands for this flag in the root structure.
    pub fn bit(self) -> (bit: u64)
        ensures
            bit == self.mask(),
    {
        match self {
            StivaleFlag::BiosBoot => 0x1,
        }
    }
}

/// The set of flags that the bootloader passed, kept as the bits of the
/// root structure's flags field.
#[derive(Clone, Copy, Debug, PartialEq, Eq, Structural)]
pub struct StivaleFlags {
    /// The flags field.
    pub bits: u64,
}

impl View for StivaleFlags {
    type V = Set<StivaleFlag>;

    /// The flags whose bit is set.
    open spec fn view(&self) -> Set<StivaleFlag> {
        Set::new(|flag: StivaleFlag| self.bits & flag.mask() != 0)
    }
}

impl StivaleFlags {
    /// The set without any flag.
    pub fn empty() -> (flags: Self)
        ensures
            flags.bits == 0,
            flags@ == Set::<StivaleFlag>::empty(),
    {
        let flags = StivaleFlags { bits: 0 };
        proof {
            assert forall|flag: StivaleFlag| !flags@.contains(flag) by {
                let mask: u64 = flag.mask();
                assert(0u64 & mask == 0) by (bit_vector);
            }
            assert(flags@ =~= Set::<StivaleFlag>::empty());
        }
        flags
    }

    /// The set that the flags field `bits` stands for. Bits that stand for
    /// no flag are kept as they are.
    pub fn from_bits(bits: u64) -> (flags: Self)
        ensures
            flags.bits == bits,
    {
        StivaleFlags { bits }
    }

    /// The flags field that stands for this set.
    pub fn bits(&self) -> (bits: u64)
        ensures
            bits == self.bits,
    {
        self.bits
    }

    /// Whether `flag` is in the set.
    pub fn contains(&self, flag: StivaleFlag) -> (inside: bool)
        ensures
            inside == self@.contains(flag),
    {
        self.bits & flag.bit() != 0
    }

    /// The set with `flag` added.
    pub fn with(self, flag: StivaleFlag) -> (flags: Self)
        ensures
            flags.bits == self.bits | flag.mask(),
            flags@ == self@.insert(flag),
    {
        let flags = StivaleFlags { bits: self.bits | flag.bit() };
        proof {
            let (a, mask): (u64, u64) = (self.bits, flag.mask());
            assert((a | mask) & mask != 0) by (bit_vector)
                requires
                    mask == 1,
            ;
            assert(flags@ =~= self@.insert(flag));
        }
        flags
    }

    /// The set of the flags that are in `self` or in `other`.
    pub fn union(self, other: Self) -> (flags: Self)
        ensures
            flags.bits == self.bits | other.bits,
            flags@ == self@.union(other@),
    {
        let flags = StivaleFlags { bits: self.bits | other.bits };
        proof {
            assert forall|flag: StivaleFlag|
                flags@.contains(flag) == (self@.contains(flag) || other@.contains(flag)) by {
                let (a, b, mask): (u64, u64, u64) = (self.bits, other.bits, flag.mask());
                assert(((a | b) & mask != 0) == (a & mask != 0 || b & mask != 0)) by (bit_vector);
            }
            assert(flags@ =~= self@.union(other@));
        }
        flags
    }
}

/// The fields of the root structure.
pub struct StivaleRecord {
    /// The address of the command line, a text that ends at the first 0.
    pub cmdline: u64,
    /// The address of the first memory map entry.
    pub memory_map_addr: u64,
    /// The number of memory map entries.
    pub memory_map_entries: u64,
    /// The framebuffer description.
    pub framebuffer: FramebufferRecord,
    /// The address of the ACPI RSDP structure.
    pub rsdp: u64,
    /// The number of modules that the bootloader declares.
    pub module_count: u64,
    /// The address of the first module record, or 0.
    pub modules: u64,
    /// The UNIX epoch at boot.
    pub epoch: u64,
    /// The flags field.
    pub flags: u64,
}

/// The fields that the 80 bytes of a root structure hold.
pub open spec fn decode_structure(bytes: Seq<u8>) -> StivaleRecord
    recommends
        bytes.len() == STRUCTURE_SIZE,
{
    StivaleRecord {
        cmdline: le_u64(bytes.subrange(0, 8)),
        memory_map_addr: le_u64(bytes.subrange(8, 16)),
        memory_map_entries: le_u64(bytes.subrange(16, 24)),
        framebuffer: decode_framebuffer(bytes.subrange(24, 40)),
        rsdp: le_u64(bytes.subrange(40, 48)),
        module_count: le_u64(bytes.subrange(48, 56)),
        modules: le_u64(bytes.subrange(56, 64)),
        epoch: le_u64(bytes.subrange(64, 72)),
        flags: le_u64(bytes.subrange(72, 80)),
    }
}

/// Whether the tables that the root structure `root` points at can be read
/// from `mem`: the command line has its end inside the window, the memory
/// map lies inside it and holds known types only, and so does every module
/// record that a traversal of the list visits.
pub open spec fn tables_readable(mem: MemoryWindow, root: StivaleRecord) -> bool {
    &&& has_cstring(mem, root.cmdline)
    &&& memory_map_readable(mem, root.memory_map_addr, root.memory_map_entries)
    &&& module_chain_readable(mem, root.modules, root.module_count as nat)
}

/// Whether a root structure lies at `address` in `mem`, together with all
/// that it points at.
pub open spec fn valid_image(mem: MemoryWindow, address: u64) -> bool {
    &&& mem.covers(address as int, STRUCTURE_SIZE as int)
    &&& tables_readable(mem, decode_structure(mem.span(address as int, STRUCTURE_SIZE as int)))
}

/// Tells whether a root structure lies at `address` in `mem`, together with
/// all that it points at. This is what [`load`] asks of its caller.
pub fn validate(mem: &MemoryWindow, address: usize) -> (valid: bool)
    ensures
        valid == valid_image(*mem, address as u64),
{
    if !mem.contains(address as u64, STRUCTURE_SIZE) {
        return false;
    }
    let inner: &[u8] = mem.slice(address as u64, STRUCTURE_SIZE);
    check_cstring(mem, read_le_u64(inner, 0)) && check_memory_map(
        mem,
        read_le_u64(inner, 8),
        read_le_u64(inner, 16),
    ) && check_module_chain(mem, read_le_u64(inner, 56), read_le_u64(inner, 48))
}

/// Load the stivale structure from an address
///
/// `mem` is the memory that the bootloader wrote, and `address` the
/// structure pointer that it passed. The caller vouches that a root
/// structure lies there with all that it points at; [`validate`] tells
/// whether one does.
pub fn load<'a>(mem: MemoryWindow<'a>, address: usize) -> (structure: StivaleStructure<'a>)
    requires
        valid_image(mem, address as u64),
    ensures
        structure.memory() == mem,
        structure.bytes() == mem.span(address as int, STRUCTURE_SIZE as int),
{
    let inner: &'a [u8] = mem.slice(address as u64, STRUCTURE_SIZE);
    StivaleStructure { mem, inner }
}

/// The stivale structure
#[derive(Clone, Copy, Debug)]
pub struct StivaleStructure<'a> {
    mem: MemoryWindow<'a>,
    inner: &'a [u8],
}

impl<'a> View for StivaleStructure<'a> {
    type V = StivaleRecord;

    open spec fn view(&self) -> StivaleRecord {
        decode_structure(self.bytes())
    }
}

impl<'a> StivaleStructure<'a> {
    /// The memory that the structure and its tables lie in.
    pub closed spec fn memory(&self) -> MemoryWindow<'a> {
        self.mem
    }

    /// The bytes of the root structure.
    pub closed spec fn bytes(&self) -> Seq<u8> {
        self.inner@
    }

    /// A view lies over exactly one root structure, and the tables that the
    /// structure points at can be read from the memory.
    #[verifier::type_invariant]
    pub open spec fn well_formed(&self) -> bool {
        &&& self.bytes().len() == STRUCTURE_SIZE
        &&& tables_readable(self.memory(), self@)
    }

    /// Get the command line passed in the structure by the bootloader, if any
    ///
    /// The command line is absent when it starts with a 0. Otherwise it is
    /// the bytes before the first 0.
    pub fn cmdline(&self) -> (text: Option<&'a [u8]>)
        ensures
            text is None <==> self.memory().byte_at(self@.cmdline as int) == 0,
            text matches Some(t) ==> {
                &&& terminated_at(self.memory().tail(self@.cmdline as int), t@.len() as int)
                &&& t@ == self.memory().span(self@.cmdline as int, t@.len() as int)
            },
    {
        proof {
            use_type_invariant(self);
        }
        read_cstring(&self.mem, read_le_u64(self.inner, 0))
    }

    /// Get the video framebuffer info
    pub fn framebuffer(&self) -> (info: FramebufferInfo<'a>)
        ensures
            info.bytes() == self.bytes().subrange(24, 40),
            info@ == self@.framebuffer,
    {
        proof {
            use_type_invariant(self);
        }
        match FramebufferInfo::overlay(vstd::slice::slice_subrange(self.inner, 24, 40)) {
            Some(info) => info,
            None => unreached(),
        }
    }

    /// Get the ACPI RSDP structure pointer
    ///
    /// Where an address is narrower than the 64 bits of the field, the
    /// upper bits are cut off.
    pub fn rsdp(&self) -> (address: usize)
        ensures
            address == self@.rsdp as usize,
    {
        proof {
            use_type_invariant(self);
        }
        #[verifier::truncate]
        (read_le_u64(self.inner, 40) as usize)
    }

    /// Get the current UNIX epoch during boot
    pub fn epoch(&self) -> (epoch: u64)
        ensures
            epoch == self@.epoch,
    {
        proof {
            use_type_invariant(self);
        }
        read_le_u64(self.inner, 64)
    }

    /// Get the flags passed by the bootloader
    pub fn flags(&self) -> (flags: StivaleFlags)
        ensures
            flags.bits == self@.flags,
    {
        proof {
            use_type_invariant(self);
        }
        StivaleFlags::from_bits(read_le_u64(self.inner, 72))
    }

    /// Get an iterator over the memory map
    pub fn memory_map_iter(&self) -> (iter: MemoryMapIter<'a>)
        ensures
            iter.remaining() == memory_map(
                self.memory(),
                self@.memory_map_addr,
                self@.memory_map_entries,
            ),
    {
        proof {
            use_type_invariant(self);
        }
        MemoryMapIter::build(self.mem, read_le_u64(self.inner, 8), read_le_u64(self.inner, 16))
    }

    /// Get an iterator over all the modules loaded by the bootloader
    pub fn module_iter(&self) -> (iter: ModuleIter<'a>)
        ensures
            iter.memory() == self.memory(),
            iter.remaining() == module_chain(
                self.memory(),
                self@.modules,
                self@.module_count as nat,
            ),
    {
        proof {
            use_type_invariant(self);
        }
        ModuleIter::build(self.mem, read_le_u64(self.inner, 56), read_le_u64(self.inner, 48))
    }
}

} // verus!
