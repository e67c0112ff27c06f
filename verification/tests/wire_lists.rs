use impersonate::bytes::{put_be16, put_be32, read_be16, read_be32};
use impersonate::hello::{cipher_suites, signature_algorithms, supported_groups};
use impersonate::hello_wire::{encode_codes, read_codes, MAX_CODES};
use impersonate::registry::{resolve, Impersonate};
use impersonate::text::{bytes_eq, str_eq};

#[test]
fn code_list_has_its_byte_length_in_front() {
    assert_eq!(encode_codes(&Vec::new()), Some(vec![0, 0]));
    assert_eq!(encode_codes(&vec![0x1301]), Some(vec![0, 2, 0x13, 0x01]));
    assert_eq!(
        encode_codes(&vec![0x0a0a, 0x6399, 29]),
        Some(vec![0, 6, 0x0a, 0x0a, 0x63, 0x99, 0, 29])
    );
}

#[test]
fn code_list_holds_at_most_32767_codes() {
    let full = vec![7u16; MAX_CODES];
    let bytes = encode_codes(&full).unwrap();
    assert_eq!(bytes.len(), 2 + 2 * MAX_CODES);
    assert_eq!(&bytes[..2], &[0xff, 0xfe]);
    assert_eq!(read_codes(&bytes), Some(full));
    assert_eq!(encode_codes(&vec![7u16; MAX_CODES + 1]), None);
}

#[test]
fn code_list_reads_back() {
    for codes in [vec![], vec![0u16], vec![0xffff, 0, 0x0102], vec![1, 1, 1, 1]] {
        assert_eq!(read_codes(&encode_codes(&codes).unwrap()), Some(codes));
    }
}

#[test]
fn bytes_that_are_no_code_list_are_refused() {
    assert_eq!(read_codes(&[]), None);
    assert_eq!(read_codes(&[0]), None);
    assert_eq!(read_codes(&[0, 2, 1]), None);
    assert_eq!(read_codes(&[0, 2, 1, 2, 3]), None);
    assert_eq!(read_codes(&[0, 1, 9]), None);
    assert_eq!(read_codes(&[0, 3, 1, 2, 3]), None);
    assert_eq!(read_codes(&[0, 0]), Some(Vec::new()));
}

#[test]
fn chrome130_lists_match_a_capture() {
    let profile = resolve(Impersonate::Chrome130);
    let tls = profile.tls();
    // cipher_suites of a Chrome 130 ClientHello, its GREASE value being 0xdada
    let captured: [u8; 34] = [
        0x00, 0x20, 0xda, 0xda, 0x13, 0x01, 0x13, 0x02, 0x13, 0x03, 0xc0, 0x2b, 0xc0, 0x2f, 0xc0,
        0x2c, 0xc0, 0x30, 0xcc, 0xa9, 0xcc, 0xa8, 0xc0, 0x13, 0xc0, 0x14, 0x00, 0x9c, 0x00, 0x9d,
        0x00, 0x2f, 0x00, 0x35,
    ];
    assert_eq!(encode_codes(&cipher_suites(tls, 13)).unwrap(), captured);
    let read = read_codes(&captured).unwrap();
    assert_eq!(read[1..], cipher_suites(tls, 0)[1..]);
    // supported_groups, GREASE 0x2a2a
    let captured: [u8; 12] =
        [0x00, 0x0a, 0x2a, 0x2a, 0x63, 0x99, 0x00, 0x1d, 0x00, 0x17, 0x00, 0x18];
    assert_eq!(encode_codes(&supported_groups(tls, 2)).unwrap(), captured);
    // signature_algorithms
    let captured: [u8; 18] = [
        0x00, 0x10, 0x04, 0x03, 0x08, 0x04, 0x04, 0x01, 0x05, 0x03, 0x08, 0x05, 0x05, 0x01, 0x08,
        0x06, 0x06, 0x01,
    ];
    assert_eq!(encode_codes(&signature_algorithms(tls)).unwrap(), captured);
}

#[test]
fn chrome130_prelude_matches_a_capture() {
    let profile = resolve(Impersonate::Chrome130);
    let mut captured = b"PRI * HTTP/2.0\r\n\r\nSM\r\n\r\n".to_vec();
    // SETTINGS 1:65536 2:0 4:6291456 6:262144, then WINDOW_UPDATE 15663105
    captured.extend_from_slice(&[0x00, 0x00, 0x18, 0x04, 0x00, 0x00, 0x00, 0x00, 0x00]);
    captured.extend_from_slice(&[0x00, 0x01, 0x00, 0x01, 0x00, 0x00]);
    captured.extend_from_slice(&[0x00, 0x02, 0x00, 0x00, 0x00, 0x00]);
    captured.extend_from_slice(&[0x00, 0x04, 0x00, 0x60, 0x00, 0x00]);
    captured.extend_from_slice(&[0x00, 0x06, 0x00, 0x04, 0x00, 0x00]);
    captured.extend_from_slice(&[0x00, 0x00, 0x04, 0x08, 0x00, 0x00, 0x00, 0x00, 0x00]);
    captured.extend_from_slice(&[0x00, 0xef, 0x00, 0x01]);
    assert_eq!(profile.http2_prelude().unwrap(), captured);
}

#[test]
fn numbers_are_written_most_significant_byte_first() {
    let mut out = vec![0xaa];
    put_be16(&mut out, 0x0102);
    put_be32(&mut out, 0x0304_0506);
    put_be32(&mut out, u32::MAX);
    put_be16(&mut out, 0);
    assert_eq!(out, vec![0xaa, 1, 2, 3, 4, 5, 6, 0xff, 0xff, 0xff, 0xff, 0, 0]);
    assert_eq!(read_be16(&out, 1), 0x0102);
    assert_eq!(read_be32(&out, 3), 0x0304_0506);
    assert_eq!(read_be32(&out, 7), u32::MAX);
    assert_eq!(read_be16(&out, 11), 0);
}

#[test]
fn strings_compare_character_for_character() {
    assert!(str_eq("", ""));
    assert!(str_eq("h2", "h2"));
    assert!(!str_eq("h2", "H2"));
    assert!(!str_eq("h2", "h2 "));
    assert!(str_eq("\u{e9}t\u{e9}", "\u{e9}t\u{e9}"));
    assert!(!str_eq("\u{e9}", "e"));
    assert!(bytes_eq(b"abc", b"abc"));
    assert!(!bytes_eq(b"abc", b"abd"));
    assert!(!bytes_eq(b"abc", b"ab"));
}
