use env_edit::env_writer::value_data_bytes;
use env_edit::win_strings::to_wide_null;
use env_edit::win_strings::utf16_from_bytes;
use env_edit::win_strings::utf16_units_from_bytes;
use env_edit::win_strings::wide_to_bytes;

#[test]
fn units_from_le_bytes() {
    let bytes: Vec<u8> = vec![0x41, 0x00, 0x3A, 0x04];
    let units = utf16_units_from_bytes(&bytes);
    assert_eq!(units, vec![0x0041u16, 0x043A]);
}

#[test]
fn units_ignore_trailing_odd_byte() {
    let bytes: Vec<u8> = vec![0x41, 0x00, 0x42];
    let units = utf16_units_from_bytes(&bytes);
    assert_eq!(units, vec![0x0041u16]);
}

#[test]
fn wide_to_bytes_is_little_endian() {
    let units: Vec<u16> = vec![0x0041, 0x043A];
    assert_eq!(wide_to_bytes(&units), vec![0x41u8, 0x00, 0x3A, 0x04]);
}

#[test]
fn decode_stops_at_first_null() {
    let bytes: Vec<u8> = vec![0x41, 0x00, 0x42, 0x00, 0x00, 0x00, 0x43, 0x00];
    assert_eq!(utf16_from_bytes(&bytes), "AB");
}

#[test]
fn decode_empty_buffer_is_empty_string() {
    let bytes: Vec<u8> = Vec::new();
    assert_eq!(utf16_from_bytes(&bytes), "");
}

#[test]
fn decode_replaces_unpaired_surrogate() {
    // a lone high surrogate, then 'A'
    let bytes: Vec<u8> = vec![0x00, 0xD8, 0x41, 0x00];
    assert_eq!(utf16_from_bytes(&bytes), "\u{FFFD}A");
}

#[test]
fn decode_recombines_surrogate_pair() {
    // U+1D11E as the pair D834 DD1E
    let bytes: Vec<u8> = vec![0x34, 0xD8, 0x1E, 0xDD];
    assert_eq!(utf16_from_bytes(&bytes), "\u{1D11E}");
}

#[test]
fn to_wide_null_appends_terminator() {
    assert_eq!(to_wide_null("AB"), vec![0x41u16, 0x42, 0]);
    assert_eq!(to_wide_null(""), vec![0u16]);
}

#[test]
fn to_wide_null_encodes_astral_plane() {
    assert_eq!(to_wide_null("\u{1D11E}"), vec![0xD834u16, 0xDD1E, 0]);
}

#[test]
fn value_round_trip_empty() {
    let data = value_data_bytes("");
    assert_eq!(data, vec![0u8, 0]);
    assert_eq!(utf16_from_bytes(&data), "");
}

#[test]
fn value_round_trip_ascii() {
    let data = value_data_bytes("C:\\Windows");
    assert_eq!(utf16_from_bytes(&data), "C:\\Windows");
}

#[test]
fn value_round_trip_non_ascii() {
    let data = value_data_bytes("héllo wörld \u{1D11E}\u{4E2D}");
    assert_eq!(utf16_from_bytes(&data), "héllo wörld \u{1D11E}\u{4E2D}");
}
