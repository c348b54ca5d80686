use ucra::error::Error;
use ucra::info::{info_from_reply, info_text, nul_position, INFO_CAPACITY};

fn filled(text: &[u8]) -> Vec<u8> {
    let mut buffer = vec![0u8; INFO_CAPACITY];
    buffer[..text.len()].copy_from_slice(text);
    buffer
}

#[test]
fn engine_info() {
    let buffer = filled(b"UCRA Reference Engine v1.0");
    let info = info_from_reply(0, &buffer).unwrap();
    assert!(info.contains("UCRA Reference Engine"));
}

#[test]
fn info_is_exactly_the_text_before_the_zero_byte() {
    let buffer = filled(b"UCRA Reference Engine v1.0");
    assert_eq!(buffer.len(), 128);
    assert_eq!(info_text(&buffer), "UCRA Reference Engine v1.0");
}

#[test]
fn info_ignores_what_follows_the_zero_byte() {
    let mut buffer = filled(b"engine");
    for byte in buffer[7..].iter_mut() {
        *byte = b'x';
    }
    assert_eq!(info_text(&buffer), "engine");
    assert_eq!(info_from_reply(0, &buffer), Ok(String::from("engine")));
}

#[test]
fn info_without_zero_byte_is_the_whole_buffer() {
    assert_eq!(info_text(b"abc"), "abc");
    let full = vec![b'a'; INFO_CAPACITY];
    assert_eq!(info_text(&full).len(), 128);
}

#[test]
fn info_of_empty_or_zeroed_buffer_is_empty() {
    assert_eq!(info_text(&[]), "");
    assert_eq!(info_text(&[0u8; 128]), "");
    assert_eq!(info_text(&[0, b'a', b'b']), "");
}

#[test]
fn malformed_bytes_are_replaced() {
    assert_eq!(info_text(&[b'f', 0xff, b'o', 0, b'z']), "f\u{fffd}o");
    assert_eq!(info_text(&[0xc3]), "\u{fffd}");
    assert_eq!(info_from_reply(0, &[0x80, 0]), Ok(String::from("\u{fffd}")));
}

#[test]
fn well_formed_bytes_are_decoded() {
    assert_eq!(info_text(&[0xc3, 0xa9, 0xe2, 0x82, 0xac, 0]), "\u{e9}\u{20ac}");
}

#[test]
fn failed_query_gives_the_error_of_its_code() {
    let buffer = filled(b"UCRA Reference Engine");
    assert_eq!(info_from_reply(1, &buffer), Err(Error::InvalidArgument));
    assert_eq!(info_from_reply(2, &buffer), Err(Error::OutOfMemory));
    assert_eq!(info_from_reply(3, &buffer), Err(Error::NotSupported));
    assert_eq!(info_from_reply(4, &buffer), Err(Error::Internal));
    assert_eq!(info_from_reply(5, &buffer), Err(Error::FileNotFound));
    assert_eq!(info_from_reply(6, &buffer), Err(Error::InvalidJson));
    assert_eq!(info_from_reply(7, &buffer), Err(Error::InvalidManifest));
    assert_eq!(info_from_reply(99, &buffer), Err(Error::Unknown(99)));
    assert_eq!(info_from_reply(-3, &buffer), Err(Error::Unknown(-3)));
}

#[test]
fn nul_position_is_the_first_zero_byte() {
    assert_eq!(nul_position(&[]), 0);
    assert_eq!(nul_position(&[0]), 0);
    assert_eq!(nul_position(&[1, 2, 3]), 3);
    assert_eq!(nul_position(&[1, 2, 0, 3, 0]), 2);
    assert_eq!(nul_position(&filled(b"UCRA")), 4);
}
