//! Percent-decoding of request paths.

use vstd::prelude::*;
use vstd::utf8::{encode_scalar, encode_utf8, is_ascii_chars, is_ascii_chars_encode_utf8};
use crate::text::push_char;

verus! {

/// The value of an ASCII hexadecimal digit, either case; `None` for any
/// other byte.
pub open spec fn hex_digit(b: u8) -> Option<u8> {
    if ('0' as u8) <= b && b <= ('9' as u8) {
        Some((b - ('0' as u8)) as u8)
    } else if ('a' as u8) <= b && b <= ('f' as u8) {
        Some((b - ('a' as u8) + 10) as u8)
    } else if ('A' as u8) <= b && b <= ('F' as u8) {
        Some((b - ('A' as u8) + 10) as u8)
    } else {
        None
    }
}

/// The characters that one escape `%` `hi` `lo` stands for: the byte
/// `16 * hi + lo` when both are hex digits, else the three bytes unchanged.
pub open spec fn escape_chars(hi: u8, lo: u8) -> Seq<char> {
    match (hex_digit(hi), hex_digit(lo)) {
        (Some(h), Some(l)) => seq![((h * 16 + l) as u8) as char],
        _ => seq!['%', hi as char, lo as char],
    }
}

/// Byte-wise percent-decoding. Every byte outside an escape becomes the
/// character with the same number (so the result reads the input as
/// Latin-1). A `%` takes the next two bytes as its digits; where the input
/// ends before them, a missing digit counts as `'0'`.
pub open spec fn decode_bytes(s: Seq<u8>) -> Seq<char>
    decreases s.len(),
{
    if s.len() == 0 {
        Seq::empty()
    } else if s[0] == ('%' as u8) {
        let hi = if s.len() > 1 { s[1] } else { ('0' as u8) };
        let lo = if s.len() > 2 { s[2] } else { ('0' as u8) };
        let rest = if s.len() > 3 { s.subrange(3, s.len() as int) } else { Seq::<u8>::empty() };
        escape_chars(hi, lo) + decode_bytes(rest)
    } else {
        seq![s[0] as char] + decode_bytes(s.subrange(1, s.len() as int))
    }
}

/// What `percent_decode` returns for a string: the decoding of its UTF-8
/// bytes.
pub open spec fn spec_percent_decode(input: Seq<char>) -> Seq<char> {
    decode_bytes(encode_utf8(input))
}

/// A byte sequence without `%` decodes to the same sequence read as
/// characters, byte for byte.
pub proof fn lemma_decode_without_escapes(s: Seq<u8>)
    requires
        forall|i: int| 0 <= i < s.len() ==> s[i] != ('%' as u8),
    ensures
        decode_bytes(s) == s.map_values(|b: u8| b as char),
    decreases s.len(),
{
    if s.len() > 0 {
        let rest = s.subrange(1, s.len() as int);
        lemma_decode_without_escapes(rest);
        assert(decode_bytes(s) =~= s.map_values(|b: u8| b as char));
    } else {
        assert(decode_bytes(s) =~= s.map_values(|b: u8| b as char));
    }
}

/// Law: an ASCII path without `%` is left unchanged by `percent_decode`.
pub proof fn law_plain_ascii_path_unchanged(input: Seq<char>)
    requires
        is_ascii_chars(input),
        !input.contains('%'),
    ensures
        spec_percent_decode(input) == input,
{
    let bytes = encode_utf8(input);
    is_ascii_chars_encode_utf8(input);
    assert forall|i: int| 0 <= i < bytes.len() implies bytes[i] != ('%' as u8) by {
        assert(input[i] as u8 == bytes[i]);
        if bytes[i] == ('%' as u8) {
            assert(input[i] == '%');
            assert(input.contains('%'));
        }
    }
    lemma_decode_without_escapes(bytes);
    assert forall|i: int| 0 <= i < input.len() implies input[i] == (bytes[i] as char) by {
        assert(input[i] as u8 == bytes[i]);
    }
    assert(spec_percent_decode(input) =~= input);
}

/// Law: every character that percent-decoding yields lies in U+0000..=U+00FF,
/// whatever the input.
pub proof fn law_decoded_chars_are_latin1(s: Seq<u8>)
    ensures
        forall|i: int| 0 <= i < decode_bytes(s).len() ==> (decode_bytes(s)[i] as int) < 256,
    decreases s.len(),
{
    if s.len() > 0 {
        if s[0] == ('%' as u8) {
            let hi = if s.len() > 1 { s[1] } else { ('0' as u8) };
            let lo = if s.len() > 2 { s[2] } else { ('0' as u8) };
            let rest = if s.len() > 3 { s.subrange(3, s.len() as int) } else { Seq::<u8>::empty() };
            law_decoded_chars_are_latin1(rest);
            let head = escape_chars(hi, lo);
            assert forall|i: int| 0 <= i < head.len() implies (head[i] as int) < 256 by {}
            assert(decode_bytes(s) == head + decode_bytes(rest));
        } else {
            let rest = s.subrange(1, s.len() as int);
            law_decoded_chars_are_latin1(rest);
            let head = seq![s[0] as char];
            assert((head[0] as int) < 256);
            assert(decode_bytes(s) == head + decode_bytes(rest));
        }
    }
}

/// The hexadecimal digit byte for `d < 16`, in upper or lower case.
pub open spec fn hex_digit_char(d: u8, upper: bool) -> u8 {
    if d < 10 {
        (d + 48) as u8
    } else if upper {
        (d + 55) as u8
    } else {
        (d + 87) as u8
    }
}

/// Law: the digit bytes of both cases read back as their values.
pub proof fn law_hex_digits_read_back(v: u8)
    requires
        v < 16,
    ensures
        hex_digit(hex_digit_char(v, false)) == Some(v),
        hex_digit(hex_digit_char(v, true)) == Some(v),
{
}

/// Law: exactly 22 byte values are hexadecimal digits: `0-9`, `a-f`, `A-F`.
pub proof fn law_twenty_two_hex_digits()
    ensures
        Set::new(|b: u8| hex_digit(b) is Some) == set![
            48u8, 49u8, 50u8, 51u8, 52u8, 53u8, 54u8, 55u8, 56u8, 57u8,
            97u8, 98u8, 99u8, 100u8, 101u8, 102u8,
            65u8, 66u8, 67u8, 68u8, 69u8, 70u8,
        ],
        Set::new(|b: u8| hex_digit(b) is Some).len() == 22,
{
    let s = Set::new(|b: u8| hex_digit(b) is Some);
    let t = set![
        48u8, 49u8, 50u8, 51u8, 52u8, 53u8, 54u8, 55u8, 56u8, 57u8,
        97u8, 98u8, 99u8, 100u8, 101u8, 102u8,
        65u8, 66u8, 67u8, 68u8, 69u8, 70u8,
    ];
    assert(s =~= t);
    assert(t.len() == 22);
}

/// The escape encoding of a byte sequence: each byte as `%` and its two
/// hexadecimal digits, the case of the digit at position `k` given by
/// `upper(k)`.
pub open spec fn escape_encode(bs: Seq<u8>, upper: spec_fn(int) -> bool) -> Seq<u8>
    decreases bs.len(),
{
    if bs.len() == 0 {
        Seq::empty()
    } else {
        let b = bs[0];
        seq![('%' as u8), hex_digit_char(b >> 4u8, upper(0)), hex_digit_char(b & 15u8, upper(1))]
            + escape_encode(bs.subrange(1, bs.len() as int), |k: int| upper(k + 2))
    }
}

proof fn lemma_split_byte(b: u8)
    ensures
        (b >> 4u8) < 16,
        (b & 15u8) < 16,
        (b >> 4u8) * 16 + (b & 15u8) == b,
{
    assert((b >> 4u8) < 16 && (b & 15u8) < 16 && (b >> 4u8) * 16 + (b & 15u8) == b) by (bit_vector);
}

/// Law: decoding the full escape encoding of any bytes, with digits in
/// either case, gives back those bytes, each read as a character.
pub proof fn law_escape_encoding_decodes_back(bs: Seq<u8>, upper: spec_fn(int) -> bool)
    ensures
        decode_bytes(escape_encode(bs, upper)) == bs.map_values(|b: u8| b as char),
    decreases bs.len(),
{
    if bs.len() == 0 {
        assert(decode_bytes(escape_encode(bs, upper)) =~= bs.map_values(|b: u8| b as char));
    } else {
        let b = bs[0];
        let rest = bs.subrange(1, bs.len() as int);
        let up2 = |k: int| upper(k + 2);
        let enc = escape_encode(bs, upper);
        let tail = escape_encode(rest, up2);
        lemma_split_byte(b);
        law_hex_digits_read_back(b >> 4u8);
        law_hex_digits_read_back(b & 15u8);
        law_escape_encoding_decodes_back(rest, up2);
        assert(enc.len() >= 3);
        assert(enc.len() > 3 ==> enc.subrange(3, enc.len() as int) =~= tail);
        assert(enc.len() == 3 ==> tail =~= Seq::<u8>::empty());
        assert(escape_chars(enc[1], enc[2]) =~= seq![b as char]);
        assert(decode_bytes(enc) =~= bs.map_values(|b: u8| b as char));
    }
}

/// Law: a string whose UTF-8 bytes are the full escape encoding of some
/// bytes decodes to those bytes, each read as a character.
pub proof fn law_percent_decode_of_escape_encoding(input: Seq<char>, bs: Seq<u8>, upper: spec_fn(int) -> bool)
    requires
        encode_utf8(input) == escape_encode(bs, upper),
    ensures
        spec_percent_decode(input) == bs.map_values(|b: u8| b as char),
{
    law_escape_encoding_decodes_back(bs, upper);
}

/// Law: decoding the full escape encoding of an ASCII string gives the
/// string back.
pub proof fn law_escaped_ascii_string_decodes_back(input: Seq<char>, s: Seq<char>, upper: spec_fn(int) -> bool)
    requires
        is_ascii_chars(s),
        encode_utf8(input) == escape_encode(encode_utf8(s), upper),
    ensures
        spec_percent_decode(input) == s,
{
    law_escape_encoding_decodes_back(encode_utf8(s), upper);
    is_ascii_chars_encode_utf8(s);
    let m = encode_utf8(s).map_values(|b: u8| b as char);
    assert forall|i: int| 0 <= i < s.len() implies m[i] == s[i] by {
        assert(s[i] as u8 == encode_utf8(s)[i]);
    }
    assert(m =~= s);
}

/// Decoding splits after a prefix without `%`, byte-wise.
pub proof fn lemma_decode_split(a: Seq<u8>, b: Seq<u8>)
    requires
        forall|i: int| 0 <= i < a.len() ==> a[i] != ('%' as u8),
    ensures
        decode_bytes(a + b) == decode_bytes(a) + decode_bytes(b),
    decreases a.len(),
{
    if a.len() == 0 {
        assert(a + b =~= b);
        assert(decode_bytes(a) + decode_bytes(b) =~= decode_bytes(b));
    } else {
        let a1 = a.subrange(1, a.len() as int);
        lemma_decode_split(a1, b);
        assert((a + b).subrange(1, (a + b).len() as int) =~= a1 + b);
        assert((a + b)[0] == a[0]);
        assert(seq![a[0] as char] + (decode_bytes(a1) + decode_bytes(b))
            =~= (seq![a[0] as char] + decode_bytes(a1)) + decode_bytes(b));
    }
}

proof fn lemma_encode_utf8_concat(a: Seq<char>, b: Seq<char>)
    ensures
        encode_utf8(a + b) == encode_utf8(a) + encode_utf8(b),
    decreases a.len(),
{
    if a.len() == 0 {
        assert(a + b =~= b);
        assert(encode_utf8(a) + encode_utf8(b) =~= encode_utf8(b));
    } else {
        lemma_encode_utf8_concat(a.drop_first(), b);
        assert((a + b).drop_first() =~= a.drop_first() + b);
        assert((a + b)[0] == a[0]);
        assert(encode_scalar(a[0] as u32) + (encode_utf8(a.drop_first()) + encode_utf8(b))
            =~= (encode_scalar(a[0] as u32) + encode_utf8(a.drop_first())) + encode_utf8(b));
    }
}

proof fn lemma_scalar_has_no_percent_byte(c: char)
    requires
        c != '%',
    ensures
        forall|i: int| 0 <= i < encode_scalar(c as u32).len() ==> #[trigger] encode_scalar(c as u32)[i] != ('%' as u8),
{
    let v = c as u32;
    assert(v != 37);
    assert(v <= 0x7F ==> (v & 0x7F) as u8 != 37u8) by (bit_vector)
        requires
            v != 37,
    ;
    assert(forall|x: u8| #[trigger] (0x80u8 | x) != 37u8) by (bit_vector);
    assert(forall|x: u8| #[trigger] (0xC0u8 | x) != 37u8) by (bit_vector);
    assert(forall|x: u8| #[trigger] (0xE0u8 | x) != 37u8) by (bit_vector);
    assert(forall|x: u8| #[trigger] (0xF0u8 | x) != 37u8) by (bit_vector);
}

proof fn lemma_utf8_has_no_percent_byte(a: Seq<char>)
    requires
        !a.contains('%'),
    ensures
        forall|i: int| 0 <= i < encode_utf8(a).len() ==> #[trigger] encode_utf8(a)[i] != ('%' as u8),
    decreases a.len(),
{
    if a.len() > 0 {
        let a1 = a.drop_first();
        assert(!a1.contains('%')) by {
            if a1.contains('%') {
                let k = choose|k: int| 0 <= k < a1.len() && a1[k] == '%';
                assert(a[k + 1] == '%');
            }
        }
        assert(a[0] != '%') by {
            if a[0] == '%' {
                assert(a.contains('%'));
            }
        }
        lemma_utf8_has_no_percent_byte(a1);
        lemma_scalar_has_no_percent_byte(a[0]);
        let e = encode_scalar(a[0] as u32);
        let r = encode_utf8(a1);
        assert forall|i: int| 0 <= i < (e + r).len() implies #[trigger] (e + r)[i] != ('%' as u8) by {
            if i < e.len() {
                assert((e + r)[i] == e[i]);
            } else {
                assert((e + r)[i] == r[i - e.len()]);
            }
        }
    }
}

/// Law: decoding splits after a prefix without `%`: decoding `a` followed
/// by `b` is decoding `a` followed by decoding `b`.
pub proof fn law_decode_splits_after_plain_prefix(a: Seq<char>, b: Seq<char>)
    requires
        !a.contains('%'),
    ensures
        spec_percent_decode(a + b) == spec_percent_decode(a) + spec_percent_decode(b),
{
    lemma_encode_utf8_concat(a, b);
    lemma_utf8_has_no_percent_byte(a);
    lemma_decode_split(encode_utf8(a), encode_utf8(b));
}

/// Whether a byte sequence is made of whole units: plain bytes other than
/// `%`, and escapes `%` followed by two more bytes (the input never ends
/// inside an escape).
pub open spec fn whole_units(a: Seq<u8>) -> bool
    decreases a.len(),
{
    if a.len() == 0 {
        true
    } else if a[0] == ('%' as u8) {
        a.len() >= 3 && whole_units(a.subrange(3, a.len() as int))
    } else {
        whole_units(a.subrange(1, a.len() as int))
    }
}

/// Law: decoding is compositional. When `a` does not end inside an escape,
/// decoding `a` followed by `b` is decoding `a` followed by decoding `b`,
/// whatever `b` is.
pub proof fn law_decode_is_compositional(a: Seq<u8>, b: Seq<u8>)
    requires
        whole_units(a),
    ensures
        decode_bytes(a + b) == decode_bytes(a) + decode_bytes(b),
    decreases a.len(),
{
    let ab = a + b;
    if a.len() == 0 {
        assert(ab =~= b);
        assert(decode_bytes(a) + decode_bytes(b) =~= decode_bytes(b));
    } else {
        let k: int = if a[0] == ('%' as u8) { 3 } else { 1 };
        let a1 = a.subrange(k, a.len() as int);
        law_decode_is_compositional(a1, b);
        assert(ab.subrange(k, ab.len() as int) =~= a1 + b);
        assert(ab[0] == a[0]);
        if a[0] == ('%' as u8) {
            assert(ab[1] == a[1] && ab[2] == a[2]);
            let head = escape_chars(a[1], a[2]);
            if a.len() == 3 {
                assert(a1 =~= Seq::<u8>::empty());
                assert(decode_bytes(a1) =~= Seq::<char>::empty());
            }
            if ab.len() == 3 {
                assert(b =~= Seq::<u8>::empty());
                assert(decode_bytes(ab.subrange(3, 3)) =~= Seq::<char>::empty());
            }
            assert(decode_bytes(ab) == head + decode_bytes(a1 + b));
            assert(decode_bytes(a) == head + decode_bytes(a1));
            assert(head + (decode_bytes(a1) + decode_bytes(b)) =~= (head + decode_bytes(a1)) + decode_bytes(b));
        } else {
            let head = seq![a[0] as char];
            assert(head + (decode_bytes(a1) + decode_bytes(b)) =~= (head + decode_bytes(a1)) + decode_bytes(b));
        }
    }
}

/// Law: a valid escape followed by any bytes decodes to the escaped byte
/// followed by the decoding of those bytes.
pub proof fn law_valid_escape_then_rest(hi: u8, lo: u8, rest: Seq<u8>)
    requires
        hex_digit(hi) is Some,
        hex_digit(lo) is Some,
    ensures
        decode_bytes(seq![('%' as u8), hi, lo] + rest) == seq![
            ((hex_digit(hi).unwrap() * 16 + hex_digit(lo).unwrap()) as u8) as char,
        ] + decode_bytes(rest),
{
    let e = seq![('%' as u8), hi, lo];
    assert(e.subrange(3, 3) =~= Seq::<u8>::empty());
    assert(whole_units(e.subrange(3, 3)));
    assert(whole_units(e));
    law_decode_is_compositional(e, rest);
    assert(decode_bytes(Seq::<u8>::empty()) =~= Seq::<char>::empty());
    assert(decode_bytes(e) =~= seq![((hex_digit(hi).unwrap() * 16 + hex_digit(lo).unwrap()) as u8) as char]);
}

/// Law: for strings, `percent_decode` of `a` followed by `b` is the decoding
/// of `a` followed by the decoding of `b` whenever the bytes of `a` do not
/// end inside an escape.
pub proof fn law_percent_decode_is_compositional(a: Seq<char>, b: Seq<char>)
    requires
        whole_units(encode_utf8(a)),
    ensures
        spec_percent_decode(a + b) == spec_percent_decode(a) + spec_percent_decode(b),
{
    lemma_encode_utf8_concat(a, b);
    law_decode_is_compositional(encode_utf8(a), encode_utf8(b));
}

/// The value of a hexadecimal digit byte (`0-9`, `a-f`, `A-F`).
pub fn hex_val(b: u8) -> (r: Option<u8>)
    ensures
        r == hex_digit(b),
        r matches Some(v) ==> v < 16,
{
    if ('0' as u8) <= b && b <= ('9' as u8) {
        Some(b - ('0' as u8))
    } else if ('a' as u8) <= b && b <= ('f' as u8) {
        Some(b - ('a' as u8) + 10)
    } else if ('A' as u8) <= b && b <= ('F' as u8) {
        Some(b - ('A' as u8) + 10)
    } else {
        None
    }
}

proof fn lemma_combine_digits(h: u8, l: u8)
    requires
        h < 16,
        l < 16,
    ensures
        (h << 4u8) | l == h * 16 + l,
{
    assert((h << 4u8) | l == h * 16 + l) by (bit_vector)
        requires
            h < 16,
            l < 16,
    ;
}

/// Decodes `%XX` escapes in a request path, byte by byte.
pub fn percent_decode(input: &str) -> (r: String)
    ensures
        r@ == spec_percent_decode(input@),
{
    let bytes = input.as_bytes();
    let n = bytes.len();
    let ghost all = bytes@;
    let mut result = String::new();
    let mut i: usize = 0;
    assert(all.subrange(0, n as int) == all);
    while i < n
        invariant
            n == all.len(),
            all == bytes@,
            all == encode_utf8(input@),
            i <= n,
            result@ + decode_bytes(all.subrange(i as int, n as int)) == decode_bytes(all),
        decreases n - i,
    {
        let ghost tail = all.subrange(i as int, n as int);
        let b = bytes[i];
        if b == ('%' as u8) {
            let hi = if n - i > 1 { bytes[i + 1] } else { ('0' as u8) };
            let lo = if n - i > 2 { bytes[i + 2] } else { ('0' as u8) };
            let ghost next: int = if i + 3 < n { i + 3 } else { n as int };
            assert(tail.len() > 3 ==> tail.subrange(3, tail.len() as int) == all.subrange(next, n as int));
            assert(tail.len() <= 3 ==> all.subrange(next, n as int) == Seq::<u8>::empty());
            match (hex_val(hi), hex_val(lo)) {
                (Some(h), Some(l)) => {
                    proof {
                        lemma_combine_digits(h, l);
                    }
                    push_char(&mut result, ((h << 4u8) | l) as char);
                },
                _ => {
                    push_char(&mut result, '%');
                    push_char(&mut result, hi as char);
                    push_char(&mut result, lo as char);
                },
            }
            i = if n - i > 3 { i + 3 } else { n };
        } else {
            assert(tail.subrange(1, tail.len() as int) == all.subrange(i + 1, n as int));
            push_char(&mut result, b as char);
            i = i + 1;
        }
    }
    result
}

} // verus!
