use procmem::strings::{decode_string, get_string_auto, get_string_utf16, get_string_utf8,
    zero_terminate, StringType};
use procmem::values::{i32_from_bytes, i32_to_bytes, i64_from_bytes, i64_to_bytes,
    u16_buf_from_bytes, u16_from_bytes, u16_to_bytes, u16_units, u16s_to_bytes, u32_from_bytes,
    u32_to_bytes, u64_from_bytes, u64_to_bytes, u8_from_bytes};

#[test]
fn value_round_trip_u16() {
    for v in [0u16, 1, 0x100, 0xABCD, u16::MAX] {
        let bytes = u16_to_bytes(v);
        assert_eq!(u16_from_bytes(&bytes), Some(v));
    }
}

#[test]
fn value_round_trip_u32() {
    for v in [0u32, 1, 0xDEADBEEF, u32::MAX] {
        let bytes = u32_to_bytes(v);
        assert_eq!(u32_from_bytes(&bytes), Some(v));
    }
}

#[test]
fn value_round_trip_u64() {
    for v in [0u64, 1, 0x0123_4567_89AB_CDEF, u64::MAX] {
        let bytes = u64_to_bytes(v);
        assert_eq!(u64_from_bytes(&bytes), Some(v));
    }
}

#[test]
fn value_round_trip_i32() {
    for v in [0i32, -1, -123_456, i32::MIN, i32::MAX] {
        assert_eq!(i32_from_bytes(&i32_to_bytes(v)), Some(v));
    }
}

#[test]
fn value_round_trip_i64() {
    for v in [0i64, -1, -0x0123_4567_89AB_CDEF, i64::MIN, i64::MAX] {
        assert_eq!(i64_from_bytes(&i64_to_bytes(v)), Some(v));
    }
}

#[test]
fn signed_layout_is_twos_complement() {
    assert_eq!(i32_to_bytes(-1), vec![0xFF; 4]);
    assert_eq!(i64_from_bytes(&[0xFF; 8]), Some(-1));
    assert_eq!(i32_from_bytes(&[0, 0, 0, 0x80]), Some(i32::MIN));
    assert_eq!(i64_to_bytes(i64::MIN), vec![0, 0, 0, 0, 0, 0, 0, 0x80]);
}

#[test]
fn value_layout_is_little_endian() {
    assert_eq!(u32_to_bytes(0x0403_0201), vec![1, 2, 3, 4]);
    assert_eq!(u16_to_bytes(0x0201), vec![1, 2]);
    assert_eq!(u64_to_bytes(0x0807_0605_0403_0201), vec![1, 2, 3, 4, 5, 6, 7, 8]);
    assert_eq!(u32_from_bytes(&[0x78, 0x56, 0x34, 0x12]), Some(0x1234_5678));
    assert_eq!(u16_from_bytes(&[0xCD, 0xAB]), Some(0xABCD));
    assert_eq!(u8_from_bytes(&[0x7F]), Some(0x7F));
}

#[test]
fn short_transfer_yields_no_value() {
    assert_eq!(u8_from_bytes(&[]), None);
    assert_eq!(u16_from_bytes(&[1]), None);
    assert_eq!(u32_from_bytes(&[1, 2, 3]), None);
    assert_eq!(u32_from_bytes(&[1, 2, 3, 4, 5]), None);
    assert_eq!(u64_from_bytes(&[1, 2, 3, 4, 5, 6, 7]), None);
}

#[test]
fn short_transfer_yields_no_buffer() {
    assert_eq!(u16_buf_from_bytes(&[1, 0, 2], 2), None);
    assert_eq!(u16_buf_from_bytes(&[1, 0, 2, 0], 3), None);
    assert_eq!(u16_buf_from_bytes(&[1, 0, 2, 0], 2), Some(vec![1u16, 2u16]));
    assert_eq!(u16_buf_from_bytes(&[], 0), Some(vec![]));
}

#[test]
fn buffer_round_trip_u16() {
    let units = [0x0041u16, 0xFFEE, 0, 7];
    let bytes = u16s_to_bytes(&units);
    assert_eq!(bytes, vec![0x41, 0, 0xEE, 0xFF, 0, 0, 7, 0]);
    assert_eq!(u16_buf_from_bytes(&bytes, 4), Some(units.to_vec()));
}

#[test]
fn unit_pairing_is_little_endian() {
    assert_eq!(u16_units(&[0x41, 0x00, 0x42, 0x00]), vec![0x41u16, 0x42u16]);
    assert_eq!(u16_units(&[0x01, 0x02, 0x03]), vec![0x0201u16]);
    assert_eq!(u16_units(&[]), Vec::<u16>::new());
}

#[test]
fn utf8_decode_stops_at_terminator() {
    let buf = [b'A', b'B', 0, 0, 0, b'X'];
    assert_eq!(get_string_utf8(&buf), Some("AB".to_string()));
}

#[test]
fn utf8_decode_without_terminator_takes_whole_buffer() {
    assert_eq!(get_string_utf8(b"ABC"), Some("ABC".to_string()));
    assert_eq!(get_string_utf8(&[]), Some(String::new()));
}

#[test]
fn utf8_decode_rejects_invalid_sequences() {
    assert_eq!(get_string_utf8(&[0xFF, 0xFE, 0x41]), None);
    assert_eq!(get_string_utf8(&[0xC3]), None);
}

#[test]
fn utf8_decode_accepts_multibyte() {
    let bytes = "caf\u{00E9}".as_bytes();
    assert_eq!(get_string_utf8(bytes), Some("caf\u{00E9}".to_string()));
}

#[test]
fn utf16_decode_stops_at_terminator() {
    let buf = [0x41u16, 0x42, 0, 0x58];
    assert_eq!(get_string_utf16(&buf), Some("AB".to_string()));
}

#[test]
fn utf16_decode_rejects_unpaired_surrogate() {
    assert_eq!(get_string_utf16(&[0xD800u16, 0x41]), None);
}

#[test]
fn ascii_bytes_decode_alike_in_utf8_and_auto_mode() {
    let mut buf = vec![b'A', b'B'];
    buf.resize(16, 0);
    let under_utf8 = get_string_utf8(&buf);
    let under_auto = get_string_auto(&buf);
    assert_eq!(under_utf8, Some("AB".to_string()));
    assert_eq!(under_auto, under_utf8);
}

#[test]
fn wide_ascii_bytes_decode_alike_in_utf16_and_auto_mode() {
    let mut buf = vec![b'A', 0, b'B', 0];
    buf.resize(16, 0);
    let units = u16_units(&buf);
    let under_utf16 = get_string_utf16(&units);
    let under_auto = get_string_auto(&buf);
    assert_eq!(under_utf16, Some("AB".to_string()));
    assert_eq!(under_auto, under_utf16);
    // The same raw bytes read as UTF-8 stop at the embedded zero instead.
    assert_ne!(get_string_utf8(&buf), under_auto);
}

#[test]
fn decode_string_dispatches_by_mode() {
    let mut wide = vec![b'H', 0, b'i', 0];
    wide.resize(12, 0);
    assert_eq!(decode_string(&wide, StringType::UTF16), Some("Hi".to_string()));
    assert_eq!(decode_string(&wide, StringType::Auto), Some("Hi".to_string()));
    let mut narrow = vec![b'H', b'i'];
    narrow.resize(12, 0);
    assert_eq!(decode_string(&narrow, StringType::UTF8), Some("Hi".to_string()));
    assert_eq!(decode_string(&narrow, StringType::Auto), Some("Hi".to_string()));
}

#[test]
fn auto_mode_misclassifies_non_ascii_wide_text() {
    // UTF-16 text whose units hold no zero byte is taken for UTF-8: the
    // heuristic is a tie-break for ASCII-range wide strings, not a general
    // encoding sniffer, and callers rely on this exact failure mode.
    let buf = [0x01, 0x01, 0x01, 0x01, 0, 0];
    let under_auto = get_string_auto(&buf);
    let under_utf16 = get_string_utf16(&u16_units(&buf));
    assert_eq!(under_utf16, Some("\u{0101}\u{0101}".to_string()));
    assert_ne!(under_auto, under_utf16);
    assert_eq!(under_auto, Some("\u{0001}\u{0001}\u{0001}\u{0001}".to_string()));
}

#[test]
fn zero_terminate_clears_stale_capacity() {
    let mut buf = vec![0x41u16, 0x42, 0x41, 0x41];
    zero_terminate(&mut buf, 2);
    assert_eq!(buf, vec![0x41, 0x42, 0, 0]);
    let mut untouched = vec![7u16, 7];
    zero_terminate(&mut untouched, 5);
    assert_eq!(untouched, vec![7, 7]);
}
