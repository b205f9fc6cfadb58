use framebuffer_info::{
    decode, ColorInfoPaletteEntry, FramebufferError, FramebufferInfo, FramebufferType,
};

fn entry(red_value: u8, green_value: u8, blue_value: u8) -> ColorInfoPaletteEntry {
    ColorInfoPaletteEntry { red_value, green_value, blue_value }
}

/// A record whose header holds `fb_type` and zeroes elsewhere, followed by `trailing`.
fn record(fb_type: u8, trailing: &[u8]) -> Vec<u8> {
    let mut bytes = vec![0u8; 31];
    bytes[29] = fb_type;
    bytes.extend_from_slice(trailing);
    bytes
}

/// A palette region of exactly `count` entries, with bytes that count upwards.
fn exact_palette(count: u32) -> Vec<u8> {
    let mut bytes = count.to_le_bytes().to_vec();
    let mut next: u8 = 1;
    while bytes.len() < 4 + 3 * count as usize {
        bytes.push(next);
        next = next.wrapping_add(1);
    }
    bytes
}

#[test]
fn direct_rgb_scenario() {
    let expected = FramebufferType::DirectRgb {
        framebuffer_red_field_position: 3,
        framebuffer_red_mask_size: 8,
        framebuffer_green_field_position: 11,
        framebuffer_green_mask_size: 8,
        framebuffer_blue_field_position: 19,
        framebuffer_blue_mask_size: 8,
    };
    let bytes = record(1, &[3, 8, 11, 8, 19, 8]);
    assert_eq!(FramebufferInfo::new(&bytes).framebuffer_type(), Ok(expected));
}

#[test]
fn indexed_color_scenario() {
    let bytes = record(0, &[2, 0, 0, 0, 255, 0, 0, 0, 255, 0]);
    assert_eq!(
        FramebufferInfo::new(&bytes).framebuffer_type(),
        Ok(FramebufferType::IndexedColor(vec![entry(255, 0, 0), entry(0, 255, 0)]))
    );
}

#[test]
fn decode_agrees_with_framebuffer_type() {
    let trailing = [2, 0, 0, 0, 255, 0, 0, 0, 255, 0];
    for fb_type in [0u8, 1, 2, 3, 200] {
        let bytes = record(fb_type, &trailing);
        assert_eq!(FramebufferInfo::new(&bytes).framebuffer_type(), decode(fb_type, &trailing));
    }
}

#[test]
fn text_mode_decodes_without_trailing_bytes() {
    assert_eq!(decode(2, &[]), Ok(FramebufferType::EGAText));
    let bytes = record(2, &[]);
    assert_eq!(FramebufferInfo::new(&bytes).framebuffer_type(), Ok(FramebufferType::EGAText));
}

#[test]
fn text_mode_ignores_trailing_bytes() {
    assert_eq!(decode(2, &[0xff]), Ok(FramebufferType::EGAText));
    assert_eq!(decode(2, &[0xff, 0xff, 0xff, 0xff]), Ok(FramebufferType::EGAText));
    assert_eq!(decode(2, &[7; 64]), Ok(FramebufferType::EGAText));
}

#[test]
fn palette_of_exact_length_yields_its_bytes() {
    let bytes = exact_palette(5);
    assert_eq!(bytes.len(), 19);
    assert_eq!(
        decode(0, &bytes),
        Ok(FramebufferType::IndexedColor(vec![
            entry(1, 2, 3),
            entry(4, 5, 6),
            entry(7, 8, 9),
            entry(10, 11, 12),
            entry(13, 14, 15),
        ]))
    );
}

#[test]
fn palette_entries_sit_at_four_plus_three_times_index() {
    let bytes = exact_palette(300);
    let Ok(FramebufferType::IndexedColor(entries)) = decode(0, &bytes) else {
        panic!("a palette of exact length must decode");
    };
    assert_eq!(entries.len(), 300);
    for (i, e) in entries.iter().enumerate() {
        assert_eq!(*e, entry(bytes[4 + 3 * i], bytes[5 + 3 * i], bytes[6 + 3 * i]));
    }
}

#[test]
fn palette_of_one_entry() {
    assert_eq!(
        decode(0, &[1, 0, 0, 0, 0x10, 0x20, 0x30]),
        Ok(FramebufferType::IndexedColor(vec![entry(0x10, 0x20, 0x30)]))
    );
}

#[test]
fn empty_palette_decodes_to_no_entries() {
    assert_eq!(decode(0, &[0, 0, 0, 0]), Ok(FramebufferType::IndexedColor(vec![])));
}

#[test]
fn palette_count_is_little_endian() {
    let mut bytes = vec![0x02, 0x01, 0x00, 0x00];
    bytes.resize(4 + 3 * 258, 0x7f);
    let Ok(FramebufferType::IndexedColor(entries)) = decode(0, &bytes) else {
        panic!("258 entries fit");
    };
    assert_eq!(entries.len(), 258);
    assert_eq!(entries[257], entry(0x7f, 0x7f, 0x7f));
}

#[test]
fn palette_ignores_bytes_after_the_last_entry() {
    let exact = [2, 0, 0, 0, 255, 0, 0, 0, 255, 0];
    let mut longer = exact.to_vec();
    longer.extend_from_slice(&[9, 9, 9, 9, 9]);
    assert_eq!(decode(0, &longer), decode(0, &exact));
    assert_eq!(
        decode(0, &longer),
        Ok(FramebufferType::IndexedColor(vec![entry(255, 0, 0), entry(0, 255, 0)]))
    );
}

#[test]
fn palette_without_a_whole_count_is_truncated() {
    assert_eq!(decode(0, &[]), Err(FramebufferError::TruncatedPayload));
    assert_eq!(decode(0, &[0]), Err(FramebufferError::TruncatedPayload));
    assert_eq!(decode(0, &[0, 0, 0]), Err(FramebufferError::TruncatedPayload));
}

#[test]
fn palette_declaring_too_many_entries_is_truncated() {
    assert_eq!(
        decode(0, &[3, 0, 0, 0, 255, 0, 0, 0, 255, 0]),
        Err(FramebufferError::TruncatedPayload)
    );
    assert_eq!(decode(0, &[1, 0, 0, 0]), Err(FramebufferError::TruncatedPayload));
}

#[test]
fn palette_one_byte_short_is_truncated() {
    let mut bytes = exact_palette(4);
    bytes.pop();
    assert_eq!(decode(0, &bytes), Err(FramebufferError::TruncatedPayload));
}

#[test]
fn palette_with_the_largest_count_is_truncated() {
    assert_eq!(
        decode(0, &[0xff, 0xff, 0xff, 0xff, 1, 2, 3]),
        Err(FramebufferError::TruncatedPayload)
    );
}

#[test]
fn palette_size_does_not_wrap_at_32_bits() {
    // 4 + 3 * 0x5555_5555 is 3 modulo 2^32, and 4 + 3 * 0x5555_5556 is 6.
    assert_eq!(
        decode(0, &[0x55, 0x55, 0x55, 0x55, 1, 2, 3, 4, 5, 6]),
        Err(FramebufferError::TruncatedPayload)
    );
    assert_eq!(
        decode(0, &[0x56, 0x55, 0x55, 0x55, 1, 2, 3, 4, 5, 6]),
        Err(FramebufferError::TruncatedPayload)
    );
}

#[test]
fn direct_rgb_with_fewer_than_six_bytes_is_truncated() {
    assert_eq!(decode(1, &[]), Err(FramebufferError::TruncatedPayload));
    assert_eq!(decode(1, &[3]), Err(FramebufferError::TruncatedPayload));
    assert_eq!(decode(1, &[3, 8, 11, 8, 19]), Err(FramebufferError::TruncatedPayload));
}

#[test]
fn direct_rgb_reads_six_fields_in_order() {
    assert_eq!(
        decode(1, &[1, 2, 3, 4, 5, 6]),
        Ok(FramebufferType::DirectRgb {
            framebuffer_red_field_position: 1,
            framebuffer_red_mask_size: 2,
            framebuffer_green_field_position: 3,
            framebuffer_green_mask_size: 4,
            framebuffer_blue_field_position: 5,
            framebuffer_blue_mask_size: 6,
        })
    );
}

#[test]
fn direct_rgb_ignores_bytes_after_the_sixth() {
    let six = decode(1, &[16, 8, 8, 8, 0, 8]);
    assert_eq!(decode(1, &[16, 8, 8, 8, 0, 8, 0xaa]), six);
    assert_eq!(decode(1, &[16, 8, 8, 8, 0, 8, 1, 2, 3, 4, 5, 6, 7, 8]), six);
    assert_eq!(
        six,
        Ok(FramebufferType::DirectRgb {
            framebuffer_red_field_position: 16,
            framebuffer_red_mask_size: 8,
            framebuffer_green_field_position: 8,
            framebuffer_green_mask_size: 8,
            framebuffer_blue_field_position: 0,
            framebuffer_blue_mask_size: 8,
        })
    );
}

#[test]
fn unknown_type_is_reported_with_its_value() {
    assert_eq!(decode(3, &[]), Err(FramebufferError::UnknownFramebufferType(3)));
    assert_eq!(decode(4, &[1, 2, 3]), Err(FramebufferError::UnknownFramebufferType(4)));
    assert_eq!(decode(255, &[0; 32]), Err(FramebufferError::UnknownFramebufferType(255)));
}

#[test]
fn every_type_above_two_is_unknown() {
    let trailing = [2, 0, 0, 0, 255, 0, 0, 0, 255, 0];
    for fb_type in 3..=255u8 {
        assert_eq!(
            decode(fb_type, &trailing),
            Err(FramebufferError::UnknownFramebufferType(fb_type))
        );
    }
}

#[test]
fn unknown_type_in_a_header_is_an_error_not_a_panic() {
    let bytes = record(9, &[1, 2, 3, 4, 5, 6]);
    assert_eq!(
        FramebufferInfo::new(&bytes).framebuffer_type(),
        Err(FramebufferError::UnknownFramebufferType(9))
    );
}

#[test]
fn truncated_record_is_an_error_not_a_panic() {
    let bytes = record(0, &[200, 0, 0, 0, 1, 2, 3]);
    assert_eq!(
        FramebufferInfo::new(&bytes).framebuffer_type(),
        Err(FramebufferError::TruncatedPayload)
    );
    let bytes = record(1, &[3, 8, 11]);
    assert_eq!(
        FramebufferInfo::new(&bytes).framebuffer_type(),
        Err(FramebufferError::TruncatedPayload)
    );
}

#[test]
fn same_bytes_decode_differently_by_type() {
    let trailing = [1, 0, 0, 0, 10, 20, 30];
    assert_eq!(
        decode(0, &trailing),
        Ok(FramebufferType::IndexedColor(vec![entry(10, 20, 30)]))
    );
    assert_eq!(
        decode(1, &trailing),
        Ok(FramebufferType::DirectRgb {
            framebuffer_red_field_position: 1,
            framebuffer_red_mask_size: 0,
            framebuffer_green_field_position: 0,
            framebuffer_green_mask_size: 0,
            framebuffer_blue_field_position: 10,
            framebuffer_blue_mask_size: 20,
        })
    );
    assert_eq!(decode(2, &trailing), Ok(FramebufferType::EGAText));
}
