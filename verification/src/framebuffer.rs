//! A framebuffer record: its header and the bytes of its colour description.

use crate::color_info::{decode, decode_spec, decodes_to, FramebufferError, FramebufferType};
use crate::header::{header_of, FramebufferInfoTag, HEADER_SIZE};
use vstd::prelude::*;
use vstd::slice::slice_subrange;

verus! {

/// A framebuffer record over the bytes it was handed. The header is decoded
/// once; the colour description stays in place until it is asked for.
#[derive(Clone, Copy, Debug, PartialEq, Eq)]
pub struct FramebufferInfo<'a> {
    /// The fixed header.
    pub tag: FramebufferInfoTag,
    /// The bytes after the header, which hold the colour description.
    pub color_info: &'a [u8],
}

impl<'a> FramebufferInfo<'a> {
    /// Splits `record` into its header and what follows it.
    ///
    /// The declared `size` is not held against `record`: the region handed in
    /// is what bounds every later read.
    pub fn new(record: &'a [u8]) -> (info: Self)
        requires
            record.len() >= HEADER_SIZE,
        ensures
            info.tag == header_of(record@),
            info.color_info@ == record@.skip(HEADER_SIZE as int),
    {
        FramebufferInfo {
            tag: FramebufferInfoTag::parse(record),
            color_info: slice_subrange(record, HEADER_SIZE, record.len()),
        }
    }

    /// Physical address of the framebuffer, at the width of this machine's
    /// addresses: the field has 64 bits, and those that do not fit are cut off.
    pub fn framebuffer_addr(&self) -> (addr: usize)
        ensures
            addr == (self.tag.framebuffer_addr as int) % (usize::MAX + 1),
            self.tag.framebuffer_addr <= usize::MAX ==> addr == self.tag.framebuffer_addr,
    {
        let wide: u64 = self.tag.framebuffer_addr;
        proof {
            // The word of all ones is the largest address, on either word size.
            let top: usize = usize::MAX;
            assert(top <= !0usize) by (bit_vector);
            assert((wide as usize) as int == (wide as int) % ((!0usize) as int + 1))
                by (bit_vector);
        }
        #[verifier::truncate]
        (wide as usize)
    }

    /// Bytes from the start of one row to the start of the next.
    pub fn framebuffer_pitch(&self) -> (pitch: u32)
        ensures
            pitch == self.tag.framebuffer_pitch,
    {
        self.tag.framebuffer_pitch
    }

    /// Width and height, in that order: in characters for EGA text, in pixels
    /// for every other framebuffer type.
    pub fn framebuffer_dimensions(&self) -> (dimensions: (u32, u32))
        ensures
            dimensions == (self.tag.framebuffer_width, self.tag.framebuffer_height),
    {
        (self.tag.framebuffer_width, self.tag.framebuffer_height)
    }

    /// Bits that one pixel takes.
    pub fn framebuffer_bpp(&self) -> (bpp: u8)
        ensures
            bpp == self.tag.framebuffer_bpp,
    {
        self.tag.framebuffer_bpp
    }

    /// The kind of framebuffer, with its colour description decoded from the
    /// bytes after the header. A record that is cut short or names an
    /// unknown type gives an error, never a panic.
    pub fn framebuffer_type(&self) -> (result: Result<FramebufferType, FramebufferError>)
        ensures
            decodes_to(result, decode_spec(self.tag.framebuffer_type, self.color_info@)),
    {
        decode(self.tag.framebuffer_type, self.color_info)
    }
}

} // verus!
