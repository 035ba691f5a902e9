use cpcsp::ffi_helpers::string::{
    from_ansi, from_wide, from_wide_lossy, to_ansi, to_c_string, to_wide, to_wide_secure,
};

#[test]
fn test_to_wide_ascii() {
    let wide = to_wide("Hello");
    assert_eq!(wide, vec![b'H' as u16, b'e' as u16, b'l' as u16, b'l' as u16, b'o' as u16, 0]);
}

#[test]
fn test_to_wide_unicode() {
    let wide = to_wide("Привет");
    assert_eq!(wide.len(), 7);
    assert_eq!(wide[6], 0);
}

#[test]
fn test_to_ansi_ascii() {
    let ansi = to_ansi("Hello");
    assert_eq!(ansi, vec![b'H', b'e', b'l', b'l', b'o', 0]);
}

#[test]
fn wide_surrogate_pairs() {
    let wide = to_wide("a😀");
    assert_eq!(wide, vec![0x61, 0xD83D, 0xDE00, 0]);
}

#[test]
fn wide_round_trip() {
    for s in ["", "Hello", "Привет, мир", "日本語 😀 text"] {
        assert_eq!(from_wide(&to_wide(s)), Some(s.to_string()));
    }
}

#[test]
fn from_wide_stops_at_zero_and_rejects_lone_surrogates() {
    assert_eq!(from_wide(&[0x41, 0x42, 0, 0x43]), Some("AB".to_string()));
    assert_eq!(from_wide(&[0x41, 0x42]), Some("AB".to_string()));
    assert_eq!(from_wide(&[0xD800, 0x41, 0]), None);
    assert_eq!(from_wide(&[0xDC00, 0]), None);
}

#[test]
fn from_wide_lossy_replaces_lone_surrogates() {
    assert_eq!(from_wide_lossy(&[0x41, 0xD800, 0x42, 0]), "A\u{FFFD}B".to_string());
    assert_eq!(from_wide_lossy(&[0xDE00, 0]), "\u{FFFD}".to_string());
    assert_eq!(from_wide_lossy(&[0xD83D, 0xDE00, 0]), "😀".to_string());
}

#[test]
fn ansi_round_trip_and_invalid_utf8() {
    for s in ["", "Hello", "Привет"] {
        assert_eq!(from_ansi(&to_ansi(s)), Some(s.to_string()));
    }
    assert_eq!(from_ansi(&[0x41, 0, 0xFF]), Some("A".to_string()));
    assert_eq!(from_ansi(&[0xFF, 0x41, 0]), None);
}

#[test]
fn c_string_rejects_interior_nul() {
    assert_eq!(to_c_string("abc").unwrap(), vec![b'a', b'b', b'c', 0]);
    let e = to_c_string("a\0b").unwrap_err();
    assert_eq!(e.code(), 0x57);
}

#[test]
fn secure_wide_holds_terminated_units() {
    let z = to_wide_secure("pw");
    assert_eq!(z.as_units(), &[b'p' as u16, b'w' as u16, 0]);
}
