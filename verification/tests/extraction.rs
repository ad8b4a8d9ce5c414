use spotify_adblock::extract::{
    bounded_narrow, bounded_wide, extract_narrow, extract_wide, text_or, MAX_TEXT_UNITS,
};

fn wide(text: &str) -> Vec<u16> {
    text.encode_utf16().collect()
}

#[test]
fn absent_narrow_buffer_is_empty_text() {
    assert_eq!(extract_narrow(None), "");
}

#[test]
fn narrow_buffer_is_decoded() {
    assert_eq!(extract_narrow(Some(b"api-dealer.spotify.com")), "api-dealer.spotify.com");
    assert_eq!(extract_narrow(Some("b\u{fc}cher.example".as_bytes())), "b\u{fc}cher.example");
    assert_eq!(extract_narrow(Some(b"")), "");
}

#[test]
fn malformed_narrow_buffer_is_empty_text() {
    assert_eq!(extract_narrow(Some(&[0xff, 0xfe])), "");
    assert_eq!(extract_narrow(Some(&[b'a', 0xc3])), "");
    assert_eq!(extract_narrow(Some(&[0xc0, 0x80])), "");
    assert_eq!(extract_narrow(Some(&[0xed, 0xa0, 0x80])), "");
}

#[test]
fn oversized_narrow_buffer_is_cut() {
    assert_eq!(MAX_TEXT_UNITS, 2048);
    let long = vec![b'a'; 3000];
    assert_eq!(extract_narrow(Some(&long)), "a".repeat(2048));
    let exact = vec![b'a'; 2048];
    assert_eq!(extract_narrow(Some(&exact)), "a".repeat(2048));
}

#[test]
fn narrow_cut_does_not_split_a_character() {
    let mut bytes = vec![b'a'; 2047];
    bytes.extend_from_slice("\u{e9}zz".as_bytes());
    assert_eq!(bytes.len(), 2051);
    assert_eq!(extract_narrow(Some(&bytes)), "a".repeat(2047));
    let mut bytes = vec![b'a'; 2046];
    bytes.extend_from_slice("\u{e9}zz".as_bytes());
    assert_eq!(extract_narrow(Some(&bytes)), format!("{}\u{e9}", "a".repeat(2046)));
}

#[test]
fn malformed_tail_beyond_the_bound_is_not_read() {
    let mut bytes = vec![b'a'; 2048];
    bytes.extend_from_slice(&[0xff, 0xff]);
    assert_eq!(extract_narrow(Some(&bytes)), "a".repeat(2048));
}

#[test]
fn bounded_narrow_prefixes() {
    assert_eq!(bounded_narrow(b"hello", 10), b"hello");
    assert_eq!(bounded_narrow(b"hello", 5), b"hello");
    assert_eq!(bounded_narrow(b"hello", 3), b"hel");
    assert_eq!(bounded_narrow(b"hello", 0), b"");
    assert_eq!(bounded_narrow("h\u{e9}llo".as_bytes(), 2), b"h");
    assert_eq!(bounded_narrow(&[0x80, 0x80, 0x80, 0x80], 2), b"");
    assert_eq!(bounded_narrow(&[b'a', 0x80, 0x80, 0x80], 2), b"");
    assert_eq!(bounded_narrow(&[b'a', b'b', 0x80, 0x80], 2), b"a");
    assert_eq!(bounded_narrow(&[b'a', 0xc3, 0xa9, b'z'], 3), &[b'a', 0xc3, 0xa9]);
}

#[test]
fn bounded_wide_prefixes() {
    assert_eq!(bounded_wide(&[1, 2, 3], 5), &[1, 2, 3]);
    assert_eq!(bounded_wide(&[1, 2, 3], 3), &[1, 2, 3]);
    assert_eq!(bounded_wide(&[1, 2, 3], 2), &[1, 2]);
    assert_eq!(bounded_wide(&[1, 2, 3], 0), &[] as &[u16]);
    assert_eq!(bounded_wide(&[0x61, 0xd83d, 0xde00], 2), &[0x61]);
    assert_eq!(bounded_wide(&[0x61, 0xd83d, 0xde00], 3), &[0x61, 0xd83d, 0xde00]);
    assert_eq!(bounded_wide(&[0xd83d, 0xde00, 0x61], 1), &[] as &[u16]);
    assert_eq!(bounded_wide(&[0xdbff, 0x61], 1), &[] as &[u16]);
    assert_eq!(bounded_wide(&[0xdc00, 0x61], 1), &[0xdc00]);
    assert_eq!(bounded_wide(&[0xd7ff, 0x61], 1), &[0xd7ff]);
}

#[test]
fn absent_wide_buffer_is_the_placeholder() {
    assert_eq!(extract_wide(None, "UNKNOWN"), "UNKNOWN");
    assert_eq!(extract_wide(None, ""), "");
}

#[test]
fn empty_wide_buffer_is_empty_text() {
    assert_eq!(extract_wide(Some(&[]), "UNKNOWN"), "");
}

#[test]
fn wide_buffer_is_decoded() {
    let units = wide("https://example.com/\u{fc}ber?q=\u{1f600}");
    assert_eq!(extract_wide(Some(&units), ""), "https://example.com/\u{fc}ber?q=\u{1f600}");
    assert_eq!(extract_wide(Some(&wide("GET")), "UNKNOWN"), "GET");
    assert_eq!(extract_wide(Some(&[0x0047, 0x0045, 0x0054]), "UNKNOWN"), "GET");
}

#[test]
fn malformed_wide_buffer_is_the_placeholder() {
    assert_eq!(extract_wide(Some(&[0xd800]), "UNKNOWN"), "UNKNOWN");
    assert_eq!(extract_wide(Some(&[0x61, 0xdc00, 0x62]), "UNKNOWN"), "UNKNOWN");
    assert_eq!(extract_wide(Some(&[0xd800, 0x61]), ""), "");
}

#[test]
fn oversized_wide_buffer_is_cut() {
    let long = vec![0x61u16; 5000];
    assert_eq!(extract_wide(Some(&long), "UNKNOWN"), "a".repeat(2048));
    let mut tail = vec![0x61u16; 2048];
    tail.push(0xd800);
    assert_eq!(extract_wide(Some(&tail), "UNKNOWN"), "a".repeat(2048));
}

#[test]
fn wide_cut_does_not_split_a_pair() {
    let mut units = vec![0x61u16; 2047];
    units.extend_from_slice(&[0xd83d, 0xde00, 0x62]);
    assert_eq!(extract_wide(Some(&units), "UNKNOWN"), "a".repeat(2047));
    let mut units = vec![0x61u16; 2046];
    units.extend_from_slice(&[0xd83d, 0xde00, 0x62]);
    assert_eq!(extract_wide(Some(&units), "UNKNOWN"), format!("{}\u{1f600}", "a".repeat(2046)));
}

#[test]
fn lone_lead_surrogate_that_fits_is_malformed() {
    let mut units = vec![0x61u16; 2047];
    units.push(0xd83d);
    assert_eq!(units.len(), 2048);
    assert_eq!(extract_wide(Some(&units), "UNKNOWN"), "UNKNOWN");
}

#[test]
fn decoded_text_or_placeholder() {
    assert_eq!(text_or(Some(String::from("GET")), "UNKNOWN"), "GET");
    assert_eq!(text_or(Some(String::new()), "UNKNOWN"), "");
    assert_eq!(text_or(None, "UNKNOWN"), "UNKNOWN");
}
