//! The header that a kernel embeds in its image, for the bootloader to read
//! before it hands over control: where the stack is, what the kernel asks
//! for, and where to enter it.

use vstd::prelude::*;

verus! {

/// One of the requests that a kernel can make of the bootloader.
#[derive(Clone, Copy, Debug, PartialEq, Eq, Structural)]
pub enum StivaleHeaderFlag {
    /// Ask for a graphical framebuffer instead of text mode.
    FramebufferMode,
    /// Ask for 5-level paging.
    FiveLevelPaging,
    /// Ask for a randomised load address.
    Kaslr,
}

impl StivaleHeaderFlag {
    /// The bit that stands for this request in the header.
    pub open spec fn mask(self) -> u64 {
        match self {
            StivaleHeaderFlag::FramebufferMode => 0x1,
            StivaleHeaderFlag::FiveLevelPaging => 0x2,
            StivaleHeaderFlag::Kaslr => 0x4,
        }
    }

    /// The bit that stands for this request in the header.
    pub fn bit(self) -> (bit: u64)
        ensures
            bit == self.mask(),
    {
        match self {
            StivaleHeaderFlag::FramebufferMode => 0x1,
            StivaleHeaderFlag::FiveLevelPaging => 0x2,
            StivaleHeaderFlag::Kaslr => 0x4,
        }
    }
}

/// A set of requests to the bootloader, kept as the bits of the header's
/// flags field.
#[derive(Clone, Copy, Debug, PartialEq, Eq, Structural)]
pub struct StivaleHeaderFlags {
    /// The flags field.
    pub bits: u64,
}

impl View for StivaleHeaderFlags {
    type V = Set<StivaleHeaderFlag>;

    /// The requests whose bit is set.
    open spec fn view(&self) -> Set<StivaleHeaderFlag> {
        Set::new(|flag: StivaleHeaderFlag| self.bits & flag.mask() != 0)
    }
}

impl StivaleHeaderFlags {
    /// The set without any request.
    pub fn empty() -> (flags: Self)
        ensures
            flags.bits == 0,
            flags@ == Set::<StivaleHeaderFlag>::empty(),
    {
        let flags = StivaleHeaderFlags { bits: 0 };
        proof {
            assert forall|flag: StivaleHeaderFlag| !flags@.contains(flag) by {
                let mask: u64 = flag.mask();
                assert(0u64 & mask == 0) by (bit_vector);
            }
            assert(flags@ =~= Set::<StivaleHeaderFlag>::empty());
        }
        flags
    }

    /// The set that the flags field `bits` stands for. Bits that stand for
    /// no request are kept as they are.
    pub fn from_bits(bits: u64) -> (flags: Self)
        ensures
            flags.bits == bits,
    {
        StivaleHeaderFlags { bits }
    }

    /// The flags field that stands for this set.
    pub fn bits(&self) -> (bits: u64)
        ensures
            bits == self.bits,
    {
        self.bits
    }

    /// Whether `flag` is in the set.
    pub fn contains(&self, flag: StivaleHeaderFlag) -> (inside: bool)
        ensures
            inside == self@.contains(flag),
    {
        self.bits & flag.bit() != 0
    }

    /// The set with `flag` added.
    pub fn with(self, flag: StivaleHeaderFlag) -> (flags: Self)
        ensures
            flags.bits == self.bits | flag.mask(),
            flags@ == self@.insert(flag),
    {
        let added = StivaleHeaderFlags { bits: flag.bit() };
        proof {
            lemma_single(flag);
        }
        self.union(added)
    }

    /// The set of the requests that are in `self` or in `other`.
    pub fn union(self, other: Self) -> (flags: Self)
        ensures
            flags.bits == self.bits | other.bits,
            flags@ == self@.union(other@),
    {
        let flags = StivaleHeaderFlags { bits: self.bits | other.bits };
        proof {
            assert forall|flag: StivaleHeaderFlag|
                flags@.contains(flag) == (self@.contains(flag) || other@.contains(flag)) by {
                let (a, b, mask): (u64, u64, u64) = (self.bits, other.bits, flag.mask());
                assert(((a | b) & mask != 0) == (a & mask != 0 || b & mask != 0)) by (bit_vector);
            }
            assert(flags@ =~= self@.union(other@));
        }
        flags
    }
}

/// The set whose flags field is the bit of `flag` holds `flag` and nothing
/// else.
proof fn lemma_single(flag: StivaleHeaderFlag)
    ensures
        (StivaleHeaderFlags { bits: flag.mask() })@ == Set::<StivaleHeaderFlag>::empty().insert(flag),
{
    let single = StivaleHeaderFlags { bits: flag.mask() };
    assert(0x1u64 & 0x1u64 != 0 && 0x1u64 & 0x2u64 == 0 && 0x1u64 & 0x4u64 == 0) by (bit_vector);
    assert(0x2u64 & 0x1u64 == 0 && 0x2u64 & 0x2u64 != 0 && 0x2u64 & 0x4u64 == 0) by (bit_vector);
    assert(0x4u64 & 0x1u64 == 0 && 0x4u64 & 0x2u64 == 0 && 0x4u64 & 0x4u64 != 0) by (bit_vector);
    assert forall|other: StivaleHeaderFlag| single@.contains(other) == (other == flag) by {}
    assert(single@ =~= Set::<StivaleHeaderFlag>::empty().insert(flag));
}

/// What a header holds.
pub struct HeaderFields {
    /// The address of the top of the stack that the kernel starts on.
    pub stack: u64,
    /// The requests to the bootloader.
    pub flags: StivaleHeaderFlags,
    /// The width of the framebuffer that the kernel asks for, in pixels.
    pub framebuffer_width: u16,
    /// The height of the framebuffer that the kernel asks for, in pixels.
    pub framebuffer_height: u16,
    /// The bits per pixel of the framebuffer that the kernel asks for.
    pub framebuffer_bpp: u16,
    /// The address where the bootloader enters the kernel, or 0 for the
    /// entry point of the image.
    pub entry_point: u64,
}

impl HeaderFields {
    /// A header with a stack and requests, and nothing else asked for.
    pub open spec fn new(stack: u64, flags: StivaleHeaderFlags) -> HeaderFields {
        HeaderFields {
            stack,
            flags,
            framebuffer_width: 0,
            framebuffer_height: 0,
            framebuffer_bpp: 0,
            entry_point: 0,
        }
    }

    /// The same header with the entry point `entry_point`.
    pub open spec fn with_entry_point(self, entry_point: u64) -> HeaderFields {
        HeaderFields { entry_point, ..self }
    }

    /// The same header with a framebuffer of the given geometry asked for.
    pub open spec fn with_framebuffer(self, width: u16, height: u16, bpp: u16) -> HeaderFields {
        HeaderFields {
            framebuffer_width: width,
            framebuffer_height: height,
            framebuffer_bpp: bpp,
            ..self
        }
    }
}

/// The header of a kernel image.
#[derive(Clone, Copy, Debug)]
pub struct StivaleHeader {
    stack: u64,
    flags: StivaleHeaderFlags,
    framebuffer_width: u16,
    framebuffer_height: u16,
    framebuffer_bpp: u16,
    entry_point: u64,
}

impl View for StivaleHeader {
    type V = HeaderFields;

    closed spec fn view(&self) -> HeaderFields {
        HeaderFields {
            stack: self.stack,
            flags: self.flags,
            framebuffer_width: self.framebuffer_width,
            framebuffer_height: self.framebuffer_height,
            framebuffer_bpp: self.framebuffer_bpp,
            entry_point: self.entry_point,
        }
    }
}

impl StivaleHeader {
    /// A header for a kernel whose stack has its top at address `stack`,
    /// with the requests `flags`. No entry point is set and no framebuffer
    /// geometry is asked for.
    pub fn new(stack: u64, flags: StivaleHeaderFlags) -> (header: Self)
        ensures
            header@ == HeaderFields::new(stack, flags),
    {
        StivaleHeader {
            stack,
            flags,
            framebuffer_width: 0,
            framebuffer_height: 0,
            framebuffer_bpp: 0,
            entry_point: 0,
        }
    }

    /// The same header with the entry point at address `entry_point`.
    pub fn with_entry_point(self, entry_point: u64) -> (header: Self)
        ensures
            header@ == self@.with_entry_point(entry_point),
    {
        let mut header = self;
        header.entry_point = entry_point;
        header
    }

    /// The same header with a framebuffer of the given geometry asked for.
    pub fn with_framebuffer(self, width: u16, height: u16, bpp: u16) -> (header: Self)
        ensures
            header@ == self@.with_framebuffer(width, height, bpp),
    {
        let mut header = self;
        header.framebuffer_width = width;
        header.framebuffer_height = height;
        header.framebuffer_bpp = bpp;
        header
    }

    /// The address of the top of the stack.
    pub fn stack(&self) -> (stack: u64)
        ensures
            stack == self@.stack,
    {
        self.stack
    }

    /// The requests to the bootloader.
    pub fn flags(&self) -> (flags: StivaleHeaderFlags)
        ensures
            flags == self@.flags,
    {
        self.flags
    }

    /// The address of the entry point, or 0 if none was set.
    pub fn entry_point(&self) -> (entry_point: u64)
        ensures
            entry_point == self@.entry_point,
    {
        self.entry_point
    }

    /// The width of the framebuffer asked for, in pixels.
    pub fn framebuffer_width(&self) -> (width: u16)
        ensures
            width == self@.framebuffer_width,
    {
        self.framebuffer_width
    }

    /// The height of the framebuffer asked for, in pixels.
    pub fn framebuffer_height(&self) -> (height: u16)
        ensures
            height == self@.framebuffer_height,
    {
        self.framebuffer_height
    }

    /// The bits per pixel of the framebuffer asked for.
    pub fn framebuffer_bpp(&self) -> (bpp: u16)
        ensures
            bpp == self@.framebuffer_bpp,
    {
        self.framebuffer_bpp
    }
}

/// Building a header and reading it back gives exactly what was supplied:
/// the stack and the requests handed to `new`, the entry point handed to
/// `with_entry_point` and the geometry handed to `with_framebuffer`, in
/// whichever order the last two were called.
pub proof fn lemma_builder_round_trip(
    stack: u64,
    flags: StivaleHeaderFlags,
    entry_point: u64,
    width: u16,
    height: u16,
    bpp: u16,
)
    ensures
        ({
            let header = HeaderFields::new(stack, flags).with_entry_point(
                entry_point,
            ).with_framebuffer(width, height, bpp);
            &&& header.stack == stack
            &&& header.flags == flags
            &&& header.entry_point == entry_point
            &&& header.framebuffer_width == width
            &&& header.framebuffer_height == height
            &&& header.framebuffer_bpp == bpp
        }),
        HeaderFields::new(stack, flags).with_framebuffer(width, height, bpp).with_entry_point(
            entry_point,
        ) == HeaderFields::new(stack, flags).with_entry_point(entry_point).with_framebuffer(
            width,
            height,
            bpp,
        ),
{
}

} // verus!
