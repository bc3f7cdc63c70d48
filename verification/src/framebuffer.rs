//! The framebuffer description that lies inside the root structure.
//!
//! It is 16 bytes: `address: u64`, then `pitch`, `width`, `height` and
//! `bpp`, each a `u16`.

use vstd::prelude::*;
use crate::wire::{le_u16, le_u64, read_le_u16, read_le_u64};

verus! {

/// The size of the framebuffer description in memory.
pub const FRAMEBUFFER_INFO_SIZE: usize = 16;

/// The fields of a framebuffer description.
pub struct FramebufferRecord {
    /// The address of the first byte of the framebuffer.
    pub address: u64,
    /// The bytes per line.
    pub pitch: u16,
    /// The width in pixels.
    pub width: u16,
    /// The height in pixels.
    pub height: u16,
    /// The bits per pixel.
    pub bpp: u16,
}

impl FramebufferRecord {
    /// The size of the framebuffer in bytes: the pitch, times the height,
    /// times the whole bytes of a pixel. Bits beyond a whole number of
    /// bytes per pixel do not count.
    pub open spec fn size(self) -> int {
        self.pitch * self.height * (self.bpp / 8)
    }
}

/// The fields that the 16 bytes of a framebuffer description hold.
pub open spec fn decode_framebuffer(bytes: Seq<u8>) -> FramebufferRecord
    recommends
        bytes.len() == FRAMEBUFFER_INFO_SIZE,
{
    FramebufferRecord {
        address: le_u64(bytes.subrange(0, 8)),
        pitch: le_u16(bytes.subrange(8, 10)),
        width: le_u16(bytes.subrange(10, 12)),
        height: le_u16(bytes.subrange(12, 14)),
        bpp: le_u16(bytes.subrange(14, 16)),
    }
}

/// The framebuffer info passed by the bootloader
/// and based on the configuration in the stivale header
///
/// The fields mean nothing if the kernel did not ask for a graphical
/// framebuffer.
#[derive(Clone, Copy, Debug)]
pub struct FramebufferInfo<'a> {
    bytes: &'a [u8],
}

impl<'a> View for FramebufferInfo<'a> {
    type V = FramebufferRecord;

    open spec fn view(&self) -> FramebufferRecord {
        decode_framebuffer(self.bytes())
    }
}

impl<'a> FramebufferInfo<'a> {
    /// The bytes of the description.
    pub closed spec fn bytes(&self) -> Seq<u8> {
        self.bytes@
    }

    /// A view lies over exactly one description.
    #[verifier::type_invariant]
    pub open spec fn well_formed(&self) -> bool {
        self.bytes().len() == FRAMEBUFFER_INFO_SIZE
    }

    /// Lays the view over `bytes`, which must be exactly one description
    /// long.
    pub fn overlay(bytes: &'a [u8]) -> (info: Option<Self>)
        ensures
            info is Some <==> bytes@.len() == FRAMEBUFFER_INFO_SIZE,
            info matches Some(i) ==> i.bytes() == bytes@,
    {
        if bytes.len() == FRAMEBUFFER_INFO_SIZE {
            Some(FramebufferInfo { bytes })
        } else {
            None
        }
    }

    /// The address field as it stands in memory.
    fn address(&self) -> (address: u64)
        ensures
            address == self@.address,
    {
        proof {
            use_type_invariant(self);
        }
        read_le_u64(self.bytes, 0)
    }

    /// Get the start address of the framebuffer
    ///
    /// Where an address is narrower than the 64 bits of the field, the
    /// upper bits are cut off.
    pub fn start_address(&self) -> (address: usize)
        ensures
            address == self@.address as usize,
    {
        #[verifier::truncate]
        (self.address() as usize)
    }

    /// Get the end address of the framebuffer
    ///
    /// Identical to `framebuffer_info.start_address() + framebuffer_info.size()`
    pub fn end_address(&self) -> (address: usize)
        requires
            self@.address + self@.size() <= usize::MAX,
        ensures
            address == self@.address + self@.size(),
    {
        proof {
            Self::lemma_size_bounds(self@);
        }
        self.start_address() + self.size()
    }

    /// Get the size of the framebuffer
    pub fn size(&self) -> (size: usize)
        requires
            self@.size() <= usize::MAX,
        ensures
            size == self@.size(),
    {
        let pitch: usize = self.pitch() as usize;
        let height: usize = self.height() as usize;
        let bytes_per_pixel: usize = self.bpp() as usize / 8;
        proof {
            Self::lemma_size_bounds(self@);
        }
        pitch * height * bytes_per_pixel
    }

    /// Get the width of the framebuffer in pixels
    pub fn width(&self) -> (width: u16)
        ensures
            width == self@.width,
    {
        proof {
            use_type_invariant(self);
        }
        read_le_u16(self.bytes, 10)
    }

    /// Get the height of the framebuffer in pixels
    pub fn height(&self) -> (height: u16)
        ensures
            height == self@.height,
    {
        proof {
            use_type_invariant(self);
        }
        read_le_u16(self.bytes, 12)
    }

    /// Get the bytes per line of the framebuffer
    pub fn pitch(&self) -> (pitch: u16)
        ensures
            pitch == self@.pitch,
    {
        proof {
            use_type_invariant(self);
        }
        read_le_u16(self.bytes, 8)
    }

    /// Get the bits per pixel of the framebuffer
    pub fn bpp(&self) -> (bpp: u16)
        ensures
            bpp == self@.bpp,
    {
        proof {
            use_type_invariant(self);
        }
        read_le_u16(self.bytes, 14)
    }

    /// A line times the height always fits in 32 bits, and the size is
    /// never negative.
    proof fn lemma_size_bounds(record: FramebufferRecord)
        ensures
            0 <= record.pitch * record.height <= 0xffff_ffff,
            0 <= record.size(),
    {
        let (pitch, height): (int, int) = (record.pitch as int, record.height as int);
        let bytes_per_pixel: int = (record.bpp / 8) as int;
        assert(0 <= pitch * height <= 0xffff_ffff) by (nonlinear_arith)
            requires
                0 <= pitch <= 0xffff,
                0 <= height <= 0xffff,
        ;
        assert(0 <= (pitch * height) * bytes_per_pixel) by (nonlinear_arith)
            requires
                0 <= pitch * height,
                0 <= bytes_per_pixel,
        ;
    }
}

} // verus!
