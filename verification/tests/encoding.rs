use clipbox::tools::encoding::{
    decode_wide, decode_wide_lossy, encode_wide, string_from_chars, trim_end_nul_chars, wcslen,
    WideChar,
};

fn units(s: &str) -> Vec<u16> {
    s.encode_utf16().collect()
}

#[test]
fn wide_from_ascii_is_nul_terminated() {
    let w = WideChar::from("ClipBox");
    assert_eq!(w.as_ptr(), &[67u16, 108, 105, 112, 66, 111, 120, 0][..]);
}

#[test]
fn wide_from_empty_is_single_nul() {
    let w = WideChar::from("");
    assert_eq!(w.as_ptr(), &[0u16][..]);
}

#[test]
fn wide_from_astral_uses_surrogate_pair() {
    let w = WideChar::from("a\u{1F600}");
    assert_eq!(w.as_ptr(), &[0x61u16, 0xD83D, 0xDE00, 0][..]);
}

#[test]
fn encode_wide_matches_std() {
    for s in ["", "abc", "Grüße", "日本語", "x\u{10FFFF}y\u{FFFF}", "C:\\Users\\box_1"] {
        assert_eq!(encode_wide(s), units(s));
    }
}

#[test]
fn wide_round_trip_strict_and_lossy() {
    for s in ["ClipBox", "Grüße", "\u{1F600}\u{1F601}", "", "a\u{E000}b"] {
        let w = WideChar::from(s);
        assert_eq!(w.to_string(), s);
        assert_eq!(w.to_string_lossy(), s);
    }
}

#[test]
fn wide_text_stops_at_interior_nul() {
    let w = WideChar::from("a\0b");
    assert_eq!(w.as_ptr(), &[0x61u16, 0, 0x62, 0][..]);
    assert_eq!(w.to_string(), "a");
    assert_eq!(w.to_string_lossy(), "a");
}

#[test]
fn from_ptr_copies_up_to_first_nul() {
    let w = WideChar::from_ptr(&[0x41, 0x42, 0, 0x43, 0]);
    assert_eq!(w.as_ptr(), &[0x41u16, 0x42, 0][..]);
    assert_eq!(w.to_string(), "AB");
}

#[test]
fn from_ptr_of_as_ptr_keeps_text() {
    let w = WideChar::from("Explorer");
    let copy = WideChar::from_ptr(w.as_ptr());
    assert_eq!(copy.as_ptr(), w.as_ptr());
    assert_eq!(copy.to_string(), "Explorer");
}

#[test]
fn lossy_replaces_unpaired_surrogates() {
    let w = WideChar::from_ptr(&[0x61, 0xD800, 0x62, 0xDC00, 0xD83D, 0]);
    assert_eq!(w.to_string_lossy(), "a\u{FFFD}b\u{FFFD}\u{FFFD}");
}

#[test]
fn lossy_decoding_matches_std() {
    let cases: Vec<Vec<u16>> = vec![
        vec![],
        vec![0x61, 0x62],
        vec![0xD800],
        vec![0xDC00, 0x61],
        vec![0xD83D, 0xDE00],
        vec![0xD83D, 0xD83D, 0xDE00],
        vec![0xDBFF, 0xDFFF, 0xD800, 0x41],
        vec![0, 0x41, 0],
    ];
    for c in cases {
        let ours: String = decode_wide_lossy(&c).into_iter().collect();
        assert_eq!(ours, String::from_utf16_lossy(&c));
    }
}

#[test]
fn strict_decoding_matches_std() {
    let cases: Vec<Vec<u16>> = vec![
        vec![],
        vec![0x61, 0x62],
        vec![0xD800],
        vec![0xDC00, 0x61],
        vec![0xD83D, 0xDE00],
        vec![0xD83D, 0xD83D, 0xDE00],
        vec![0xDBFF, 0xDFFF],
    ];
    for c in cases {
        let ours: Option<String> = decode_wide(&c).map(|v| v.into_iter().collect());
        assert_eq!(ours, String::from_utf16(&c).ok());
    }
}

#[test]
fn strict_decoding_rejects_lone_high_surrogate() {
    assert_eq!(decode_wide(&[0x41, 0xD801, 0x42]), None);
    assert_eq!(decode_wide(&[0x41, 0x42]), Some(vec!['A', 'B']));
}

#[test]
fn wcslen_counts_units_before_nul() {
    assert_eq!(wcslen(&[1, 2, 0, 3]), 2);
    assert_eq!(wcslen(&[0]), 0);
    assert_eq!(WideChar::wcslen(&[7, 7, 7, 0]), 3);
}

#[test]
fn trim_end_nul_chars_removes_only_trailing_nuls() {
    let mut cs = vec!['\0', 'a', '\0', 'b', '\0', '\0'];
    trim_end_nul_chars(&mut cs);
    assert_eq!(cs, vec!['\0', 'a', '\0', 'b']);
    let mut all = vec!['\0', '\0'];
    trim_end_nul_chars(&mut all);
    assert!(all.is_empty());
}

#[test]
fn string_from_chars_keeps_order() {
    assert_eq!(string_from_chars(&['b', 'o', 'x', '\u{1F600}']), "box\u{1F600}");
    assert_eq!(string_from_chars(&[]), "");
}

#[test]
fn valid_units_decode_the_same_strictly_and_lossily() {
    let u = units("a\u{1F600}ß\u{E000}");
    let strict = decode_wide(&u).unwrap();
    assert_eq!(strict, decode_wide_lossy(&u));
    let text: String = strict.into_iter().collect();
    assert_eq!(encode_wide(&text), u);
}
