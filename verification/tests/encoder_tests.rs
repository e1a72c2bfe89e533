//! Tests of the tag encoder: concrete fragments and the round trip.

use booru_fetch::encode::encode_tags;

fn bv(s: &str) -> Vec<u8> {
    s.as_bytes().to_vec()
}

/// Percent-decodes one segment, as the round-trip law reads it.
fn percent_decode(s: &[u8]) -> Vec<u8> {
    let mut out = Vec::new();
    let mut i = 0;
    while i < s.len() {
        if s[i] == b'%' && i + 2 < s.len() {
            let hi = (s[i + 1] as char).to_digit(16).unwrap();
            let lo = (s[i + 2] as char).to_digit(16).unwrap();
            out.push((hi * 16 + lo) as u8);
            i += 3;
        } else {
            out.push(s[i]);
            i += 1;
        }
    }
    out
}

#[test]
fn encodes_plain_tag_unchanged() {
    let fragment = encode_tags(&vec![bv("blue_sky")]);
    assert_eq!(fragment, bv("blue_sky"));
}

#[test]
fn encodes_space_and_punctuation() {
    let fragment = encode_tags(&vec![bv("blue sky!")]);
    assert_eq!(fragment, bv("blue%20sky%21"));
}

#[test]
fn joins_tags_with_plus() {
    let fragment = encode_tags(&vec![bv("blue sky"), bv("tag_1")]);
    assert_eq!(fragment, bv("blue%20sky+tag_1"));
}

#[test]
fn encodes_unicode_bytes_with_uppercase_hex() {
    let fragment = encode_tags(&vec![bv("日")]);
    assert_eq!(fragment, bv("%E6%97%A5"));
}

#[test]
fn empty_tag_list_gives_empty_fragment() {
    let fragment = encode_tags(&Vec::new());
    assert_eq!(fragment, Vec::<u8>::new());
}

#[test]
fn round_trip_recovers_tags_in_order() {
    let tags = vec![bv("blue sky"), bv("c++"), bv("日foo"), bv("plain")];
    let fragment = encode_tags(&tags);
    let recovered: Vec<Vec<u8>> = fragment
        .split(|&b| b == b'+')
        .map(percent_decode)
        .collect();
    assert_eq!(recovered, tags);
}
