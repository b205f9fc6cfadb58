//! The fixed header that every framebuffer record starts with.
//!
//! | offset | size | field                |
//! |--------|------|----------------------|
//! | 0      | 4    | `typ`                |
//! | 4      | 4    | `size`               |
//! | 8      | 8    | `framebuffer_addr`   |
//! | 16     | 4    | `framebuffer_pitch`  |
//! | 20     | 4    | `framebuffer_width`  |
//! | 24     | 4    | `framebuffer_height` |
//! | 28     | 1    | `framebuffer_bpp`    |
//! | 29     | 1    | `framebuffer_type`   |
//! | 30     | 1    | `reserved`           |

use crate::bytes::{le_u32, le_u64, read_u32_le, read_u64_le};
use vstd::prelude::*;

verus! {

/// Bytes taken by the fixed header; the colour description starts here.
pub const HEADER_SIZE: usize = 31;

/// The fields of the fixed header, as the record's bytes give them. None of
/// them is validated here.
#[derive(Clone, Copy, Debug, PartialEq, Eq, Structural)]
pub struct FramebufferInfoTag {
    /// Kind of the record within the stream it was found in.
    pub typ: u32,
    /// Declared length of the whole record in bytes, header included.
    pub size: u32,
    /// Physical address of the framebuffer.
    pub framebuffer_addr: u64,
    /// Bytes per row.
    pub framebuffer_pitch: u32,
    /// Width in pixels, or in characters for EGA text.
    pub framebuffer_width: u32,
    /// Height in pixels, or in characters for EGA text.
    pub framebuffer_height: u32,
    /// Bits per pixel.
    pub framebuffer_bpp: u8,
    /// Selects the shape of the colour description.
    pub framebuffer_type: u8,
    /// Carried along and never interpreted.
    pub reserved: u8,
}

/// The header that the first [`HEADER_SIZE`] bytes of `record` encode.
///
/// Each field is a little-endian value of exactly the field's width, so no
/// cast below loses anything.
pub open spec fn header_of(record: Seq<u8>) -> FramebufferInfoTag
    recommends
        record.len() >= HEADER_SIZE,
{
    FramebufferInfoTag {
        typ: le_u32(record, 0) as u32,
        size: le_u32(record, 4) as u32,
        framebuffer_addr: le_u64(record, 8) as u64,
        framebuffer_pitch: le_u32(record, 16) as u32,
        framebuffer_width: le_u32(record, 20) as u32,
        framebuffer_height: le_u32(record, 24) as u32,
        framebuffer_bpp: record[28],
        framebuffer_type: record[29],
        reserved: record[30],
    }
}

impl FramebufferInfoTag {
    /// Reads the header from the start of `record`. The bytes may sit at any
    /// address: every field is assembled byte by byte.
    pub fn parse(record: &[u8]) -> (tag: Self)
        requires
            record.len() >= HEADER_SIZE,
        ensures
            tag == header_of(record@),
    {
        FramebufferInfoTag {
            typ: read_u32_le(record, 0),
            size: read_u32_le(record, 4),
            framebuffer_addr: read_u64_le(record, 8),
            framebuffer_pitch: read_u32_le(record, 16),
            framebuffer_width: read_u32_le(record, 20),
            framebuffer_height: read_u32_le(record, 24),
            framebuffer_bpp: record[28],
            framebuffer_type: record[29],
            reserved: record[30],
        }
    }
}

} // verus!
