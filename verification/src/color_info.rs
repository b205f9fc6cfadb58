//! The colour description that follows the fixed header.
//!
//! Its shape depends on the header's framebuffer type:
//!
//! - type 0, indexed colour: a palette, that is a little-endian `u32` count
//!   followed by `count` entries of three bytes each (red, green, blue);
//! - type 1, direct RGB: six bytes, the bit position and the bit width of
//!   red, of green and of blue, in that order;
//! - type 2, EGA text: nothing.
//!
//! The count of a palette comes from the record itself and is held against
//! the region before any entry is read.

use crate::bytes::{le_u32, read_u32_le};
use vstd::prelude::*;

verus! {

/// Framebuffer type of an indexed-colour framebuffer, described by a palette.
pub const FRAMEBUFFER_TYPE_INDEXED: u8 = 0;

/// Framebuffer type of a direct RGB framebuffer.
pub const FRAMEBUFFER_TYPE_RGB: u8 = 1;

/// Framebuffer type of EGA text mode.
pub const FRAMEBUFFER_TYPE_EGA_TEXT: u8 = 2;

/// One colour of a palette.
#[derive(Clone, Copy, Debug, PartialEq, Eq, Structural)]
pub struct ColorInfoPaletteEntry {
    pub red_value: u8,
    pub green_value: u8,
    pub blue_value: u8,
}

/// The decoded colour description. The palette is copied out of the record,
/// so the value stays valid after the bytes it was decoded from are gone.
#[derive(Debug, PartialEq, Eq)]
pub enum FramebufferType {
    IndexedColor(Vec<ColorInfoPaletteEntry>),
    DirectRgb {
        framebuffer_red_field_position: u8,
        framebuffer_red_mask_size: u8,
        framebuffer_green_field_position: u8,
        framebuffer_green_mask_size: u8,
        framebuffer_blue_field_position: u8,
        framebuffer_blue_mask_size: u8,
    },
    EGAText,
}

/// Why a colour description could not be decoded.
#[derive(Clone, Copy, Debug, PartialEq, Eq, Structural)]
pub enum FramebufferError {
    /// The description needs more bytes than the region holds.
    TruncatedPayload,
    /// The framebuffer type is none of the three known ones; it is carried along.
    UnknownFramebufferType(u8),
}

/// The mathematical value of a [`FramebufferType`].
pub enum FramebufferTypeView {
    IndexedColor(Seq<ColorInfoPaletteEntry>),
    DirectRgb {
        framebuffer_red_field_position: u8,
        framebuffer_red_mask_size: u8,
        framebuffer_green_field_position: u8,
        framebuffer_green_mask_size: u8,
        framebuffer_blue_field_position: u8,
        framebuffer_blue_mask_size: u8,
    },
    EGAText,
}

impl View for FramebufferType {
    type V = FramebufferTypeView;

    open spec fn view(&self) -> FramebufferTypeView {
        match *self {
            FramebufferType::IndexedColor(entries) => FramebufferTypeView::IndexedColor(entries@),
            FramebufferType::DirectRgb {
                framebuffer_red_field_position,
                framebuffer_red_mask_size,
                framebuffer_green_field_position,
                framebuffer_green_mask_size,
                framebuffer_blue_field_position,
                framebuffer_blue_mask_size,
            } => FramebufferTypeView::DirectRgb {
                framebuffer_red_field_position,
                framebuffer_red_mask_size,
                framebuffer_green_field_position,
                framebuffer_green_mask_size,
                framebuffer_blue_field_position,
                framebuffer_blue_mask_size,
            },
            FramebufferType::EGAText => FramebufferTypeView::EGAText,
        }
    }
}

/// The number of entries that a palette description declares.
pub open spec fn palette_count(payload: Seq<u8>) -> int
    recommends
        payload.len() >= 4,
{
    le_u32(payload, 0)
}

/// Whether `payload` holds its entry count and every entry that the count declares.
pub open spec fn palette_fits(payload: Seq<u8>) -> bool {
    &&& payload.len() >= 4
    &&& payload.len() >= 4 + 3 * palette_count(payload)
}

/// Entry `i` of the palette in `payload`: the three bytes from offset `4 + 3 * i`.
pub open spec fn palette_entry(payload: Seq<u8>, i: int) -> ColorInfoPaletteEntry {
    ColorInfoPaletteEntry {
        red_value: payload[4 + 3 * i],
        green_value: payload[4 + 3 * i + 1],
        blue_value: payload[4 + 3 * i + 2],
    }
}

/// The palette in `payload`, as many entries as it declares.
pub open spec fn palette(payload: Seq<u8>) -> Seq<ColorInfoPaletteEntry>
    recommends
        palette_fits(payload),
{
    Seq::new(palette_count(payload) as nat, |i: int| palette_entry(payload, i))
}

/// The channel layout in the first six bytes of `payload`.
pub open spec fn rgb_layout(payload: Seq<u8>) -> FramebufferTypeView
    recommends
        payload.len() >= 6,
{
    FramebufferTypeView::DirectRgb {
        framebuffer_red_field_position: payload[0],
        framebuffer_red_mask_size: payload[1],
        framebuffer_green_field_position: payload[2],
        framebuffer_green_mask_size: payload[3],
        framebuffer_blue_field_position: payload[4],
        framebuffer_blue_mask_size: payload[5],
    }
}

/// What the colour description in `payload` says for framebuffer type `fb_type`.
pub open spec fn decode_spec(fb_type: u8, payload: Seq<u8>) -> Result<
    FramebufferTypeView,
    FramebufferError,
> {
    if fb_type == FRAMEBUFFER_TYPE_INDEXED {
        if palette_fits(payload) {
            Ok(FramebufferTypeView::IndexedColor(palette(payload)))
        } else {
            Err(FramebufferError::TruncatedPayload)
        }
    } else if fb_type == FRAMEBUFFER_TYPE_RGB {
        if payload.len() >= 6 {
            Ok(rgb_layout(payload))
        } else {
            Err(FramebufferError::TruncatedPayload)
        }
    } else if fb_type == FRAMEBUFFER_TYPE_EGA_TEXT {
        Ok(FramebufferTypeView::EGAText)
    } else {
        Err(FramebufferError::UnknownFramebufferType(fb_type))
    }
}

/// Whether `result` is the outcome that `expected` describes: the same error,
/// or a value with the expected view.
pub open spec fn decodes_to(
    result: Result<FramebufferType, FramebufferError>,
    expected: Result<FramebufferTypeView, FramebufferError>,
) -> bool {
    match expected {
        Ok(info) => result is Ok && result->Ok_0@ == info,
        Err(error) => result is Err && result->Err_0 == error,
    }
}

/// Copies the palette out of `trailing`, after checking that the declared
/// number of entries lies within the region.
fn decode_palette(trailing: &[u8]) -> (result: Result<
    Vec<ColorInfoPaletteEntry>,
    FramebufferError,
>)
    ensures
        palette_fits(trailing@) ==> result is Ok && result->Ok_0@ == palette(trailing@),
        !palette_fits(trailing@) ==> result is Err && result->Err_0
            == FramebufferError::TruncatedPayload,
{
    if trailing.len() < 4 {
        return Err(FramebufferError::TruncatedPayload);
    }
    let declared: u32 = read_u32_le(trailing, 0);
    let needed: u64 = 4 + 3 * (declared as u64);
    if (trailing.len() as u64) < needed {
        return Err(FramebufferError::TruncatedPayload);
    }
    let count: usize = declared as usize;
    let mut entries: Vec<ColorInfoPaletteEntry> = Vec::with_capacity(count);
    let mut i: usize = 0;
    while i < count
        invariant
            i <= count,
            count == palette_count(trailing@),
            4 + 3 * count <= trailing.len(),
            entries@.len() == i,
            forall|j: int| 0 <= j < i ==> entries@[j] == palette_entry(trailing@, j),
        decreases count - i,
    {
        let at: usize = 4 + 3 * i;
        entries.push(
            ColorInfoPaletteEntry {
                red_value: trailing[at],
                green_value: trailing[at + 1],
                blue_value: trailing[at + 2],
            },
        );
        i += 1;
    }
    Ok(entries)
}

/// Reads the channel layout from the first six bytes of `trailing`.
fn decode_rgb_layout(trailing: &[u8]) -> (result: Result<FramebufferType, FramebufferError>)
    ensures
        trailing@.len() >= 6 ==> result is Ok && result->Ok_0@ == rgb_layout(trailing@),
        trailing@.len() < 6 ==> result is Err && result->Err_0
            == FramebufferError::TruncatedPayload,
{
    if trailing.len() < 6 {
        return Err(FramebufferError::TruncatedPayload);
    }
    Ok(
        FramebufferType::DirectRgb {
            framebuffer_red_field_position: trailing[0],
            framebuffer_red_mask_size: trailing[1],
            framebuffer_green_field_position: trailing[2],
            framebuffer_green_mask_size: trailing[3],
            framebuffer_blue_field_position: trailing[4],
            framebuffer_blue_mask_size: trailing[5],
        },
    )
}

/// Decodes the colour description of a framebuffer of type `fb_type` from
/// `trailing`, the bytes that follow the fixed header.
///
/// Nothing beyond `trailing` is read, and of `trailing` only what the
/// description occupies: the rest is ignored.
pub fn decode(fb_type: u8, trailing: &[u8]) -> (result: Result<FramebufferType, FramebufferError>)
    ensures
        decodes_to(result, decode_spec(fb_type, trailing@)),
        // Text mode succeeds on any region, an empty one included.
        fb_type == FRAMEBUFFER_TYPE_EGA_TEXT ==> result is Ok
            && result->Ok_0@ == FramebufferTypeView::EGAText,
        // A palette that lies within the region comes out entry by entry.
        fb_type == FRAMEBUFFER_TYPE_INDEXED && palette_fits(trailing@) ==> (
            result matches Ok(FramebufferType::IndexedColor(entries))
            && entries@.len() == palette_count(trailing@)
            && forall|i: int| 0 <= i < entries@.len() ==>
                (#[trigger] entries@[i]).red_value == trailing@[4 + 3 * i]
                && entries@[i].green_value == trailing@[4 + 3 * i + 1]
                && entries@[i].blue_value == trailing@[4 + 3 * i + 2]
        ),
        // A palette that declares more entries than the region holds is refused.
        fb_type == FRAMEBUFFER_TYPE_INDEXED && !palette_fits(trailing@) ==> result is Err
            && result->Err_0 == FramebufferError::TruncatedPayload,
        // A channel layout is the first six bytes, whatever follows them.
        fb_type == FRAMEBUFFER_TYPE_RGB && trailing@.len() >= 6 ==> result is Ok
            && result->Ok_0@ == rgb_layout(trailing@),
        fb_type == FRAMEBUFFER_TYPE_RGB && trailing@.len() < 6 ==> result is Err
            && result->Err_0 == FramebufferError::TruncatedPayload,
        // Any other type is reported with its value.
        fb_type > FRAMEBUFFER_TYPE_EGA_TEXT ==> result is Err
            && result->Err_0 == FramebufferError::UnknownFramebufferType(fb_type),
{
    if fb_type == FRAMEBUFFER_TYPE_INDEXED {
        match decode_palette(trailing) {
            Ok(entries) => Ok(FramebufferType::IndexedColor(entries)),
            Err(error) => Err(error),
        }
    } else if fb_type == FRAMEBUFFER_TYPE_RGB {
        decode_rgb_layout(trailing)
    } else if fb_type == FRAMEBUFFER_TYPE_EGA_TEXT {
        Ok(FramebufferType::EGAText)
    } else {
        Err(FramebufferError::UnknownFramebufferType(fb_type))
    }
}

/// A palette region of exactly the declared size decodes to `count` entries,
/// each made of the three bytes at its offset.
pub proof fn lemma_palette_of_exact_length(payload: Seq<u8>, count: int)
    requires
        palette_count(payload) == count,
        payload.len() == 4 + 3 * count,
    ensures
        decode_spec(FRAMEBUFFER_TYPE_INDEXED, payload) matches Ok(
            FramebufferTypeView::IndexedColor(entries),
        ) && entries.len() == count && forall|i: int| 0 <= i < count ==>
            (#[trigger] entries[i]).red_value == payload[4 + 3 * i]
            && entries[i].green_value == payload[4 + 3 * i + 1]
            && entries[i].blue_value == payload[4 + 3 * i + 2],
{
}

/// A channel layout is decided by the first six bytes alone.
pub proof fn lemma_rgb_layout_reads_six_bytes(payload: Seq<u8>)
    requires
        payload.len() >= 6,
    ensures
        decode_spec(FRAMEBUFFER_TYPE_RGB, payload) == decode_spec(
            FRAMEBUFFER_TYPE_RGB,
            payload.take(6),
        ),
{
}

/// Bytes after a colour description do not change what it decodes to.
pub proof fn lemma_decode_ignores_appended_bytes(fb_type: u8, payload: Seq<u8>, extra: Seq<u8>)
    requires
        decode_spec(fb_type, payload) is Ok,
    ensures
        decode_spec(fb_type, payload + extra) == decode_spec(fb_type, payload),
{
    if fb_type == FRAMEBUFFER_TYPE_INDEXED {
        assert(palette(payload + extra) =~= palette(payload));
    }
}

} // verus!
