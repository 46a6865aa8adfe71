use hid_enumerate::util::{
    decode_utf16_lossy, push_decimal, string_from_utf16_ptr, vec_from_utf16_ptr,
};

fn wide(text: &str) -> Vec<u16> {
    let mut units: Vec<u16> = text.encode_utf16().collect();
    units.push(0);
    units
}

#[test]
fn scan_stops_at_first_terminator() {
    let buffer = [0x61, 0x62, 0, 0x63, 0, 0x64];
    assert_eq!(vec_from_utf16_ptr(&buffer), vec![0x61, 0x62]);
}

#[test]
fn scan_ignores_what_follows_the_terminator() {
    let one = [0x48, 0x49, 0, 0xFFFF, 0xD800, 7];
    let other = [0x48, 0x49, 0];
    assert_eq!(vec_from_utf16_ptr(&one), vec_from_utf16_ptr(&other));
    assert_eq!(string_from_utf16_ptr(&one), "HI");
}

#[test]
fn scan_of_buffer_without_terminator_is_whole_buffer() {
    let buffer = [0x61, 0x62, 0x63];
    assert_eq!(vec_from_utf16_ptr(&buffer), vec![0x61, 0x62, 0x63]);
    assert_eq!(string_from_utf16_ptr(&buffer), "abc");
}

#[test]
fn scan_of_empty_buffer_is_empty() {
    assert_eq!(vec_from_utf16_ptr(&[]), Vec::<u16>::new());
    assert_eq!(string_from_utf16_ptr(&[]), "");
}

#[test]
fn scan_with_terminator_first_is_empty() {
    assert_eq!(vec_from_utf16_ptr(&[0, 0x61, 0x62]), Vec::<u16>::new());
}

#[test]
fn scan_is_idempotent() {
    let buffer = [0x61, 0x62, 0, 0x63];
    let once = vec_from_utf16_ptr(&buffer);
    let twice = vec_from_utf16_ptr(&once);
    assert_eq!(once, twice);
}

#[test]
fn zeroed_buffer_decodes_to_empty_text() {
    assert_eq!(string_from_utf16_ptr(&[0u16; 127]), "");
    assert_eq!(string_from_utf16_ptr(&[0u16; 1]), "");
}

#[test]
fn plain_text_is_decoded_unit_by_unit() {
    assert_eq!(string_from_utf16_ptr(&wide("HID-compliant mouse")), "HID-compliant mouse");
    assert_eq!(string_from_utf16_ptr(&wide("Gerät ÄÖÜ ß €")), "Gerät ÄÖÜ ß €");
    assert_eq!(decode_utf16_lossy(&[0xD7FF, 0xE000, 0xFFFF]), "\u{D7FF}\u{E000}\u{FFFF}");
}

#[test]
fn surrogate_pair_is_one_character() {
    assert_eq!(decode_utf16_lossy(&[0xD83D, 0xDE00]), "\u{1F600}");
    assert_eq!(decode_utf16_lossy(&[0xD800, 0xDC00]), "\u{10000}");
    assert_eq!(decode_utf16_lossy(&[0xDBFF, 0xDFFF]), "\u{10FFFF}");
    assert_eq!(string_from_utf16_ptr(&wide("a\u{1F600}b")), "a\u{1F600}b");
}

#[test]
fn unpaired_surrogate_is_replaced() {
    assert_eq!(decode_utf16_lossy(&[0xD800]), "\u{FFFD}");
    assert_eq!(decode_utf16_lossy(&[0xDC00]), "\u{FFFD}");
    assert_eq!(decode_utf16_lossy(&[0x61, 0xD800, 0x62]), "a\u{FFFD}b");
    assert_eq!(decode_utf16_lossy(&[0xDC00, 0xD800]), "\u{FFFD}\u{FFFD}");
    assert_eq!(decode_utf16_lossy(&[0xD800, 0xD83D, 0xDE00]), "\u{FFFD}\u{1F600}");
    assert_eq!(decode_utf16_lossy(&[0xD83D, 0xDE00, 0xDE00]), "\u{1F600}\u{FFFD}");
    assert_eq!(string_from_utf16_ptr(&[0x61, 0xDBFF, 0, 0xDC00]), "a\u{FFFD}");
}

#[test]
fn decoding_agrees_with_std() {
    let interesting: [u16; 12] = [
        0, 0x41, 0x7F, 0x80, 0x7FF, 0xD7FF, 0xD800, 0xDBFF, 0xDC00, 0xDFFF, 0xE000, 0xFFFF,
    ];
    for &a in interesting.iter() {
        assert_eq!(decode_utf16_lossy(&[a]), String::from_utf16_lossy(&[a]));
        for &b in interesting.iter() {
            assert_eq!(decode_utf16_lossy(&[a, b]), String::from_utf16_lossy(&[a, b]));
            for &c in interesting.iter() {
                let units = [a, b, c];
                assert_eq!(decode_utf16_lossy(&units), String::from_utf16_lossy(&units));
                let units = [c, a, 0x61, b];
                assert_eq!(decode_utf16_lossy(&units), String::from_utf16_lossy(&units));
            }
        }
    }
}

#[test]
fn decoding_agrees_with_std_on_scattered_units() {
    let mut seed: u32 = 0x2545_F491;
    for round in 0..2000 {
        let len = round % 17;
        let mut units: Vec<u16> = Vec::new();
        for _ in 0..len {
            seed = seed.wrapping_mul(1_664_525).wrapping_add(1_013_904_223);
            let unit = (seed >> 16) as u16;
            // Half of the units are drawn from the surrogate range.
            units.push(if seed & 0x100 == 0 { 0xD800 | (unit & 0x7FF) } else { unit });
        }
        assert_eq!(decode_utf16_lossy(&units), String::from_utf16_lossy(&units));
    }
}

#[test]
fn text_has_between_half_and_all_of_the_units() {
    let samples: [&[u16]; 4] =
        [&[0x61], &[0xD83D, 0xDE00], &[0xD83D, 0xDE00, 0xD800], &[0x61, 0x62, 0x63]];
    for units in samples.iter() {
        let count = decode_utf16_lossy(units).chars().count();
        assert!(count <= units.len() && units.len() <= 2 * count);
    }
}

#[test]
fn decimal_is_written_without_leading_zeros() {
    for value in [0u32, 7, 9, 10, 87, 122, 259, 1000, 4_294_967_295] {
        let mut text = String::from("code ");
        push_decimal(&mut text, value);
        assert_eq!(text, format!("code {}", value));
    }
    let mut text = String::new();
    push_decimal(&mut text, 5);
    assert_eq!(text, "5");
}
