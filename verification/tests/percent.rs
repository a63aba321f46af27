use sidex::percent::{hex_val, percent_decode};

#[test]
fn hex_val_digits_and_letters() {
    assert_eq!(hex_val(b'0'), Some(0));
    assert_eq!(hex_val(b'9'), Some(9));
    assert_eq!(hex_val(b'a'), Some(10));
    assert_eq!(hex_val(b'f'), Some(15));
    assert_eq!(hex_val(b'A'), Some(10));
    assert_eq!(hex_val(b'F'), Some(15));
}

#[test]
fn hex_val_rejects_other_bytes() {
    assert_eq!(hex_val(b'g'), None);
    assert_eq!(hex_val(b'G'), None);
    assert_eq!(hex_val(b'/'), None);
    assert_eq!(hex_val(b':'), None);
    assert_eq!(hex_val(b'%'), None);
    assert_eq!(hex_val(0xff), None);
}

#[test]
fn decodes_escapes() {
    assert_eq!(percent_decode("%41"), "A");
    assert_eq!(percent_decode("a%20b"), "a b");
    assert_eq!(percent_decode("%2f%2F"), "//");
    assert_eq!(percent_decode("/docs/My%20File.txt"), "/docs/My File.txt");
}

#[test]
fn plain_path_is_unchanged() {
    assert_eq!(percent_decode("/assets/index-abc123.js"), "/assets/index-abc123.js");
    assert_eq!(percent_decode(""), "");
}

#[test]
fn invalid_escape_is_kept() {
    assert_eq!(percent_decode("%zz"), "%zz");
    assert_eq!(percent_decode("%4g"), "%4g");
    assert_eq!(percent_decode("100%!x"), "100%!x");
}

#[test]
fn truncated_escape_pads_with_zero() {
    // A missing digit counts as '0'.
    assert_eq!(percent_decode("%"), "\u{0}");
    assert_eq!(percent_decode("%4"), "@");
    assert_eq!(percent_decode("%z"), "%z0");
    assert_eq!(percent_decode("ab%"), "ab\u{0}");
}

#[test]
fn decoded_bytes_read_as_latin1() {
    // "%C3%A9" is the UTF-8 of 'é', but each byte becomes its own char.
    assert_eq!(percent_decode("%C3%A9"), "\u{c3}\u{a9}");
    assert_eq!(percent_decode("é"), "\u{c3}\u{a9}");
    assert_eq!(percent_decode("%ff"), "\u{ff}");
}

#[test]
fn law_latin1_output_on_samples() {
    for input in ["%ff%FE", "日本", "%e6%97%a5", "%%%", "abc"] {
        let out = percent_decode(input);
        assert!(out.chars().all(|c| (c as u32) < 256), "{input}");
    }
}

#[test]
fn law_hex_digits_read_back_both_cases() {
    for v in 0u8..16 {
        assert_eq!(hex_val(b"0123456789abcdef"[v as usize]), Some(v));
        assert_eq!(hex_val(b"0123456789ABCDEF"[v as usize]), Some(v));
    }
}

#[test]
fn law_twenty_two_hex_digits_concrete() {
    assert_eq!((0u8..=255).filter(|b| hex_val(*b).is_some()).count(), 22);
}

#[test]
fn law_escape_encoding_decodes_back_concrete() {
    let bytes: Vec<u8> = (0u8..=255).collect();
    let lower: String = bytes.iter().map(|b| format!("%{:02x}", b)).collect();
    let upper: String = bytes.iter().map(|b| format!("%{:02X}", b)).collect();
    let expected: String = bytes.iter().map(|b| *b as char).collect();
    assert_eq!(percent_decode(&lower), expected);
    assert_eq!(percent_decode(&upper), expected);
    let s = "/docs/a b?c";
    let enc: String = s.bytes().map(|b| format!("%{:02X}", b)).collect();
    assert_eq!(percent_decode(&enc), s);
}

#[test]
fn law_decode_splits_after_plain_prefix_concrete() {
    for (a, b) in [("abc", "%41%"), ("/x/é", "%zz%4"), ("", "%20"), ("日本", "%e6")] {
        let joined = format!("{a}{b}");
        assert_eq!(percent_decode(&joined), percent_decode(a) + &percent_decode(b));
    }
}
