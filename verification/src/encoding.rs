//! Text encodings of bytes used on the wire and in the Shell UX: base64 for
//! envelope fields, unpadded base32 for Link Keys.
use base64::Engine as _;
use data_encoding::BASE32_NOPAD;
use vstd::prelude::*;

verus! {

/// The character of the standard base64 alphabet (`A`-`Z`, `a`-`z`, `0`-`9`,
/// `+`, `/`) for a value below 64.
pub open spec fn base64_char(n: int) -> char {
    if n < 26 {
        (65 + n) as char
    } else if n < 52 {
        (71 + n) as char
    } else if n < 62 {
        (n - 4) as char
    } else if n == 62 {
        '+'
    } else {
        '/'
    }
}

/// Standard base64 (with padding) of `b`: each group of three bytes becomes
/// four characters of six bits each, high bits first; a final group of one or
/// two bytes is filled with zero bits and padded with `=` to four characters.
pub open spec fn base64_encode_spec(b: Seq<u8>) -> Seq<char>
    decreases b.len(),
{
    if b.len() == 0 {
        seq![]
    } else {
        let x = b[0] as int;
        let y = if b.len() > 1 { b[1] as int } else { 0 };
        let z = if b.len() > 2 { b[2] as int } else { 0 };
        let c0 = base64_char(x / 4);
        let c1 = base64_char((x % 4) * 16 + y / 16);
        let c2 = base64_char((y % 16) * 4 + z / 64);
        let c3 = base64_char(z % 64);
        if b.len() == 1 {
            seq![c0, c1, '=', '=']
        } else if b.len() == 2 {
            seq![c0, c1, c2, '=']
        } else {
            seq![c0, c1, c2, c3] + base64_encode_spec(b.subrange(3, b.len() as int))
        }
    }
}

/// Standard base64 decoding of `s`: the bytes whose standard padded base64
/// is `s`, or `None` when there are none (`s` is not canonical padded
/// standard base64).
pub open spec fn base64_decode_spec(s: Seq<char>) -> Option<Seq<u8>> {
    if exists|b: Seq<u8>| #[trigger] base64_encode_spec(b) == s {
        Some(choose|b: Seq<u8>| #[trigger] base64_encode_spec(b) == s)
    } else {
        None
    }
}

/// Optional bytes seen as an optional sequence.
pub open spec fn opt_bytes(r: Option<Vec<u8>>) -> Option<Seq<u8>> {
    match r {
        Some(v) => Some(v@),
        None => None,
    }
}

/// `base64::engine::general_purpose::STANDARD.encode`. Trusted: the result
/// is the standard padded base64 of the input, as `base64_encode_spec` states.
#[verifier::external_body]
pub(crate) fn base64_encode(b: &[u8]) -> (r: String)
    ensures
        r@ == base64_encode_spec(b@),
{
    base64::engine::general_purpose::STANDARD.encode(b)
}

/// `base64::engine::general_purpose::STANDARD.decode`. Trusted: it accepts
/// exactly the canonical padded standard base64 texts (`=` only as the final
/// padding, and zero trailing bits), so what it returns encodes back to `s`,
/// and decoding what `encode` produced gives the bytes back.
#[verifier::external_body]
fn base64_standard_decode(s: &str) -> (r: Option<Vec<u8>>)
    ensures
        opt_bytes(r) matches Some(b) ==> base64_encode_spec(b) == s@,
        forall|b: Seq<u8>| #[trigger] base64_encode_spec(b) == s@ ==> opt_bytes(r) == Some(b),
{
    base64::engine::general_purpose::STANDARD.decode(s).ok()
}

/// Standard base64 decoding: the bytes whose encoding is `s`, or `None`.
pub(crate) fn base64_decode(s: &str) -> (r: Option<Vec<u8>>)
    ensures
        opt_bytes(r) == base64_decode_spec(s@),
        forall|b: Seq<u8>| #[trigger] base64_encode_spec(b) == s@ ==> opt_bytes(r) == Some(b),
{
    let r = base64_standard_decode(s);
    proof {
        if exists|b: Seq<u8>| #[trigger] base64_encode_spec(b) == s@ {
            let c = choose|b: Seq<u8>| #[trigger] base64_encode_spec(b) == s@;
            assert(opt_bytes(r) == Some(c));
        }
    }
    r
}

/// The character of the base32 alphabet (`A`-`Z`, `2`-`7`) for a value below 32.
pub open spec fn base32_char(n: int) -> char {
    if n < 26 {
        (65 + n) as char
    } else {
        (24 + n) as char
    }
}

/// Unpadded RFC 4648 base32 of `b`: each group of five bytes (40 bits)
/// becomes eight characters of five bits each, high bits first; a final group
/// of one to four bytes is filled with zero bits and gives only the 2, 4, 5 or
/// 7 characters that carry its bits, without padding.
pub open spec fn base32_encode_spec(b: Seq<u8>) -> Seq<char>
    decreases b.len(),
{
    if b.len() == 0 {
        seq![]
    } else {
        let byte = |i: int| if i < b.len() { b[i] as int } else { 0 };
        let v = byte(0) * 4294967296 + byte(1) * 16777216 + byte(2) * 65536 + byte(3) * 256 + byte(4);
        let group = seq![
            base32_char(v / 34359738368 % 32),
            base32_char(v / 1073741824 % 32),
            base32_char(v / 33554432 % 32),
            base32_char(v / 1048576 % 32),
            base32_char(v / 32768 % 32),
            base32_char(v / 1024 % 32),
            base32_char(v / 32 % 32),
            base32_char(v % 32),
        ];
        if b.len() >= 5 {
            group + base32_encode_spec(b.subrange(5, b.len() as int))
        } else if b.len() == 1 {
            group.subrange(0, 2)
        } else if b.len() == 2 {
            group.subrange(0, 4)
        } else if b.len() == 3 {
            group.subrange(0, 5)
        } else {
            group.subrange(0, 7)
        }
    }
}

/// Unpadded RFC 4648 base32 decoding of the ASCII bytes `s`: the bytes whose
/// unpadded base32 is `s`, or `None` when there are none.
pub open spec fn base32_decode_spec(s: Seq<u8>) -> Option<Seq<u8>> {
    if exists|b: Seq<u8>| #[trigger] vstd::utf8::encode_utf8(base32_encode_spec(b)) == s {
        Some(choose|b: Seq<u8>| #[trigger] vstd::utf8::encode_utf8(base32_encode_spec(b)) == s)
    } else {
        None
    }
}

/// A character of the base32 alphabet: `A`-`Z` or `2`-`7`.
pub open spec fn is_base32_char(c: char) -> bool {
    ('A' <= c && c <= 'Z') || ('2' <= c && c <= '7')
}

/// Unpadded base32 is written with the alphabet `A`-`Z`, `2`-`7` only.
pub proof fn lemma_base32_alphabet(b: Seq<u8>)
    ensures
        forall|i: int| 0 <= i < base32_encode_spec(b).len() ==> is_base32_char(#[trigger] base32_encode_spec(b)[i]),
    decreases b.len(),
{
    if b.len() > 0 {
        let e = base32_encode_spec(b);
        assert forall|n: int| 0 <= n < 32 implies is_base32_char(#[trigger] base32_char(n)) by {}
        if b.len() >= 5 {
            lemma_base32_alphabet(b.subrange(5, b.len() as int));
        }
        assert forall|i: int| 0 <= i < e.len() implies is_base32_char(#[trigger] e[i]) by {
            if b.len() >= 5 && i >= 8 {
                assert(e[i] == base32_encode_spec(b.subrange(5, b.len() as int))[i - 8]);
            }
        }
    }
}

/// `data_encoding::BASE32_NOPAD.encode`. Trusted: the result is the unpadded
/// base32 of the input as `base32_encode_spec` states.
#[verifier::external_body]
pub(crate) fn base32_encode(b: &[u8]) -> (r: String)
    ensures
        r@ == base32_encode_spec(b@),
{
    BASE32_NOPAD.encode(b)
}

/// The bytes of a successful result.
pub open spec fn ok_bytes(r: Result<Vec<u8>, String>) -> Option<Seq<u8>> {
    match r {
        Ok(v) => Some(v@),
        Err(_) => None,
    }
}

/// `data_encoding::BASE32_NOPAD.decode`, with its error as text. Trusted: it
/// accepts exactly the canonical unpadded base32 texts (symbols `A`-`Z`,
/// `2`-`7` only, a length that is not 1, 3 or 6 modulo 8, zero trailing
/// bits), so what it returns encodes back to `s`, and decoding the (ASCII)
/// text that `encode` produced gives the bytes back. The error text is the
/// crate's own message and nothing is stated of it.
#[verifier::external_body]
fn base32_nopad_decode(s: &[u8]) -> (r: Result<Vec<u8>, String>)
    ensures
        ok_bytes(r) matches Some(b) ==> vstd::utf8::encode_utf8(base32_encode_spec(b)) == s@,
        forall|b: Seq<u8>|
            #[trigger] vstd::utf8::encode_utf8(base32_encode_spec(b)) == s@ ==> ok_bytes(r) == Some(b),
{
    match BASE32_NOPAD.decode(s) {
        Ok(v) => Ok(v),
        Err(e) => Err(e.to_string()),
    }
}

/// Unpadded base32 decoding of the ASCII bytes `s`: the bytes whose encoding
/// is `s`, or an error text.
pub(crate) fn base32_decode(s: &[u8]) -> (r: Result<Vec<u8>, String>)
    ensures
        ok_bytes(r) == base32_decode_spec(s@),
        forall|b: Seq<u8>|
            #[trigger] vstd::utf8::encode_utf8(base32_encode_spec(b)) == s@ ==> ok_bytes(r) == Some(b),
{
    let r = base32_nopad_decode(s);
    proof {
        if exists|b: Seq<u8>| #[trigger] vstd::utf8::encode_utf8(base32_encode_spec(b)) == s@ {
            let c = choose|b: Seq<u8>| #[trigger] vstd::utf8::encode_utf8(base32_encode_spec(b)) == s@;
            assert(ok_bytes(r) == Some(c));
        }
    }
    r
}

/// Unicode `White_Space` (the property `char::is_whitespace` tests).
pub open spec fn is_unicode_whitespace(c: char) -> bool {
    let u = c as u32;
    ||| (0x09 <= u && u <= 0x0d)
    ||| u == 0x20
    ||| u == 0x85
    ||| u == 0xa0
    ||| u == 0x1680
    ||| (0x2000 <= u && u <= 0x200a)
    ||| u == 0x2028
    ||| u == 0x2029
    ||| u == 0x202f
    ||| u == 0x205f
    ||| u == 0x3000
}

/// Whether `c` has the Unicode `White_Space` property.
pub fn is_whitespace(c: char) -> (r: bool)
    ensures
        r == is_unicode_whitespace(c),
{
    let u = c as u32;
    (0x09 <= u && u <= 0x0d) || u == 0x20 || u == 0x85 || u == 0xa0 || u == 0x1680 || (0x2000
        <= u && u <= 0x200a) || u == 0x2028 || u == 0x2029 || u == 0x202f || u == 0x205f || u
        == 0x3000
}

} // verus!
