use magnet_torrent::errors::ErrorKind;
use magnet_torrent::magnet::{convert_magnet, parse_magnet, to_file_info};

#[test]
fn parse_returns_exact_hash() {
    assert_eq!(
        parse_magnet("magnet:?xt=urn:btih:abcdef1234"),
        Ok(String::from("abcdef1234"))
    );
}

#[test]
fn parse_ignores_trailing_content() {
    // The run of hash characters ends at the first '&'; trackers are ignored.
    assert_eq!(
        parse_magnet("magnet:?xt=urn:btih:abc123&tr=udp://tracker.example/announce"),
        Ok(String::from("abc123"))
    );
}

#[test]
fn parse_takes_maximal_run() {
    // Digits directly after the hash belong to the hash.
    assert_eq!(
        parse_magnet("magnet:?xt=urn:btih:a1b2c3d4"),
        Ok(String::from("a1b2c3d4"))
    );
}

#[test]
fn parse_rejects_non_magnet() {
    assert_eq!(
        parse_magnet("http://example.com"),
        Err(ErrorKind::InvalidMagnetFormat)
    );
}

#[test]
fn parse_rejects_empty_and_prefix_only() {
    assert_eq!(parse_magnet(""), Err(ErrorKind::InvalidMagnetFormat));
    // Prefix without a single hash character is rejected.
    assert_eq!(
        parse_magnet("magnet:?xt=urn:btih:"),
        Err(ErrorKind::InvalidMagnetFormat)
    );
}

#[test]
fn parse_rejects_uppercase_hash() {
    // The hash class is lowercase letters and digits only.
    assert_eq!(
        parse_magnet("magnet:?xt=urn:btih:ABCDEF"),
        Err(ErrorKind::InvalidMagnetFormat)
    );
}

#[test]
fn parse_rejects_wrong_prefix_case() {
    assert_eq!(
        parse_magnet("MAGNET:?xt=urn:btih:abcdef"),
        Err(ErrorKind::InvalidMagnetFormat)
    );
}

#[test]
fn filename_invariant() {
    let fi = to_file_info("/tmp", "abc123", "magnet:?xt=urn:btih:abc123");
    assert_eq!(fi.name, "/tmp/meta-abc123.torrent");
}

#[test]
fn end_to_end_example() {
    let magnet = "magnet:?xt=urn:btih:abcdef1234";
    assert_eq!(parse_magnet(magnet), Ok(String::from("abcdef1234")));
    let fi = convert_magnet("/data", magnet).unwrap();
    assert_eq!(fi.name, "/data/meta-abcdef1234.torrent");
    // The declared length is the byte count of the magnet string: 30 here.
    assert_eq!(magnet.len(), 30);
    assert_eq!(
        fi.data,
        b"d10:magnet-uri30:magnet:?xt=urn:btih:abcdef1234e".to_vec()
    );
}

#[test]
fn convert_rejects_without_building() {
    assert_eq!(
        convert_magnet("/data", "http://example.com").map(|fi| fi.name),
        Err(ErrorKind::InvalidMagnetFormat)
    );
}

#[test]
fn encode_is_deterministic() {
    let a = to_file_info("/srv", "feed99", "magnet:?xt=urn:btih:feed99");
    let b = to_file_info("/srv", "feed99", "magnet:?xt=urn:btih:feed99");
    assert_eq!(a.name, b.name);
    assert_eq!(a.data, b.data);
}

#[test]
fn payload_length_counts_bytes_not_chars() {
    // A two-byte character must be counted by bytes in the length prefix.
    let magnet = "a\u{e9}";
    assert_eq!(magnet.len(), 3);
    let fi = to_file_info("/d", "h", magnet);
    let mut expected = b"d10:magnet-uri3:".to_vec();
    expected.extend_from_slice(magnet.as_bytes());
    expected.push(b'e');
    assert_eq!(fi.data, expected);
}

#[test]
fn payload_of_empty_value() {
    let fi = to_file_info("/d", "h", "");
    assert_eq!(fi.data, b"d10:magnet-uri0:e".to_vec());
}

/// Decodes a payload as a one-key bencoded dictionary, returning the declared
/// length and the value bytes of the `magnet-uri` key.
fn decode_payload(p: &[u8]) -> Option<(usize, Vec<u8>)> {
    let head = b"d10:magnet-uri";
    if p.len() < head.len() || &p[..head.len()] != head {
        return None;
    }
    let mut i = head.len();
    let mut digits = Vec::new();
    while i < p.len() && p[i].is_ascii_digit() {
        digits.push(p[i]);
        i += 1;
    }
    if digits.is_empty() || (digits.len() > 1 && digits[0] == b'0') {
        return None;
    }
    if i >= p.len() || p[i] != b':' {
        return None;
    }
    let n: usize = std::str::from_utf8(&digits).ok()?.parse().ok()?;
    i += 1;
    if p.len() != i + n + 1 || p[p.len() - 1] != b'e' {
        return None;
    }
    Some((n, p[i..i + n].to_vec()))
}

#[test]
fn payload_round_trip() {
    let magnet = "magnet:?xt=urn:btih:0f9a8b7c6d&dn=example";
    let fi = convert_magnet("/tmp", magnet).unwrap();
    let (declared, value) = decode_payload(&fi.data).expect("payload must decode");
    assert_eq!(declared, magnet.len());
    assert_eq!(value, magnet.as_bytes().to_vec());
}

#[test]
fn payload_round_trip_long_value() {
    // A declared length needing several digits.
    let mut magnet = String::from("magnet:?xt=urn:btih:aa");
    magnet.push_str(&"x".repeat(150));
    let fi = to_file_info("/tmp", "aa", &magnet);
    let (declared, value) = decode_payload(&fi.data).expect("payload must decode");
    assert_eq!(declared, magnet.len());
    assert_eq!(value, magnet.as_bytes().to_vec());
}

#[test]
fn invalid_magnet_message() {
    assert_eq!(
        ErrorKind::InvalidMagnetFormat.message(),
        "Input must match '^magnet:\\?xt=urn:btih:[a-z0-9]+.*'"
    );
}
