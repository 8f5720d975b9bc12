use base64::engine::general_purpose::STANDARD;
use base64::Engine;
use create_process_rust::codec::{decode_utf16le_base64, units_from_le_bytes};
use create_process_rust::error::CommandLineError;
use create_process_rust::text::{to_str, to_text};

fn w(text: &str) -> Vec<u16> {
    text.encode_utf16().collect()
}

#[test]
fn base64_round_trip_of_two_units() {
    let source = w("AB");
    let mut bytes: Vec<u8> = Vec::new();
    for unit in &source {
        bytes.push((unit & 0xff) as u8);
        bytes.push((unit >> 8) as u8);
    }
    let text = STANDARD.encode(&bytes);
    assert_eq!(text, "QQBCAA==");
    assert_eq!(decode_utf16le_base64(&w(&text)), Ok(vec![0x41, 0x42]));
}

#[test]
fn base64_low_byte_comes_first() {
    // bytes 0x3d 0xd8 0x00 0xde
    assert_eq!(decode_utf16le_base64(&w("PdgA3g==")), Ok(vec![0xd83d, 0xde00]));
}

#[test]
fn base64_of_nothing_is_nothing() {
    assert_eq!(decode_utf16le_base64(&[]), Ok(Vec::new()));
}

#[test]
fn base64_text_that_is_not_unicode_is_refused() {
    assert_eq!(decode_utf16le_base64(&[0x51, 0xD800, 0x51]), Err(CommandLineError::NotUtf8));
}

#[test]
fn base64_outside_the_alphabet_is_refused() {
    assert_eq!(decode_utf16le_base64(&w("QQ!CAA==")), Err(CommandLineError::InvalidBase64));
    assert_eq!(decode_utf16le_base64(&w("QQBCAA")), Err(CommandLineError::InvalidBase64));
    assert_eq!(decode_utf16le_base64(&w("\u{e9}")), Err(CommandLineError::InvalidBase64));
}

#[test]
fn base64_of_odd_byte_count_is_refused() {
    // "QUJD" is the three bytes "ABC"
    assert_eq!(decode_utf16le_base64(&w("QUJD")), Err(CommandLineError::OddByteCount));
}

#[test]
fn bytes_pair_up_low_byte_first() {
    assert_eq!(units_from_le_bytes(&[0x34, 0x12, 0xff, 0x00, 0x00, 0xff]), Ok(vec![0x1234, 0x00ff, 0xff00]));
    assert_eq!(units_from_le_bytes(&[]), Ok(Vec::new()));
}

#[test]
fn odd_number_of_bytes_is_refused() {
    assert_eq!(units_from_le_bytes(&[1]), Err(CommandLineError::OddByteCount));
    assert_eq!(units_from_le_bytes(&[1, 2, 3]), Err(CommandLineError::OddByteCount));
}

#[test]
fn well_formed_units_convert_exactly() {
    let converted = to_text(&w("h\u{e9}llo \u{1f600}"));
    assert_eq!(converted.text, "h\u{e9}llo \u{1f600}");
    assert!(!converted.lossy);
    assert_eq!(to_str(&w("abc")), Some("abc".to_string()));
}

#[test]
fn lone_surrogate_converts_lossily_and_says_so() {
    let converted = to_text(&[0x61, 0xD83D, 0x62]);
    assert_eq!(converted.text, "a\u{fffd}b");
    assert!(converted.lossy);
    assert_eq!(to_str(&[0x61, 0xD83D, 0x62]), None);
    assert_eq!(to_str(&[0xDE00, 0xD83D]), None);
    assert_eq!(to_str(&[0xD83D]), None);
}
