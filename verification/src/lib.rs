//! Decoder for the framebuffer descriptor that a bootloader hands to a kernel.
//!
//! The record is a fixed header of [`HEADER_SIZE`] bytes followed by a colour
//! description whose shape the header's type byte selects. Every multi-byte
//! field is little-endian and the record carries no padding.
//!
//! [`FramebufferInfo::new`] splits a record into its header and the bytes
//! after it; [`FramebufferInfo::framebuffer_type`], or [`decode`] on a region
//! of the caller's own, turns those bytes into a [`FramebufferType`]. The
//! bytes come from outside and are trusted for nothing: a count that points
//! past the region and a type that is not known are reported as a
//! [`FramebufferError`].

pub mod bytes;
pub mod color_info;
pub mod framebuffer;
pub mod header;

pub use color_info::{decode, ColorInfoPaletteEntry, FramebufferError, FramebufferType};
pub use framebuffer::FramebufferInfo;
pub use header::{FramebufferInfoTag, HEADER_SIZE};
