//! Link Key to channel id and AEAD key via HKDF-SHA256.
use crate::bytes::vec_to_array;
use crate::text::string_push;
use crate::envelope::LinkKey;
use hkdf::Hkdf;
use sha2::Sha256;
use vstd::prelude::*;
use crate::relay::{is_lower_hex_byte, valid_channel_id};
use vstd::utf8::{encode_utf8, is_ascii_chars, is_ascii_chars_encode_utf8};

verus! {

/// The output keying material of HKDF-SHA256 (extract with `salt`, then expand
/// `info` to `len` bytes).
pub uninterp spec fn hkdf_sha256(salt: Seq<u8>, ikm: Seq<u8>, info: Seq<u8>, len: usize) -> Seq<u8>;

/// HKDF-SHA256 (`hkdf::Hkdf::<Sha256>::new` then `expand`). Trusted: the
/// output is the HKDF output named by `hkdf_sha256` for these arguments, and
/// has the requested length; `expand` fails only above 255 * 32 bytes.
#[verifier::external_body]
fn hkdf_sha256_expand(salt: &[u8], ikm: &[u8], info: &[u8], len: usize) -> (okm: Vec<u8>)
    requires
        len <= 255 * 32,
    ensures
        okm@ == hkdf_sha256(salt@, ikm@, info@, len),
        okm@.len() == len,
{
    let mut okm = vec![0u8; len];
    Hkdf::<Sha256>::new(Some(salt), ikm).expand(info, &mut okm).expect("length within 255 blocks");
    okm
}

/// HKDF `info` label for the channel id.
pub open spec fn channel_id_label() -> Seq<u8> {
    encode_utf8("sync-clip/v0/channel-id"@)
}

/// HKDF `info` label for the Clip AEAD key.
pub open spec fn aead_key_label() -> Seq<u8> {
    encode_utf8("sync-clip/v0/clip-aead-key"@)
}

/// The public 16-byte channel id of a Link Key (empty salt).
pub open spec fn spec_channel_id(link_key: Seq<u8>) -> Seq<u8> {
    hkdf_sha256(Seq::empty(), link_key, channel_id_label(), 16)
}

/// The private 32-byte Clip AEAD key of a Link Key (empty salt).
pub open spec fn spec_aead_key(link_key: Seq<u8>) -> Seq<u8> {
    hkdf_sha256(Seq::empty(), link_key, aead_key_label(), 32)
}

/// Derive the public 16-byte Sync Group channel id from a Link Key.
pub fn derive_channel_id(link_key: &LinkKey) -> (r: [u8; 16])
    ensures
        r@ == spec_channel_id(link_key.0@),
{
    let salt: Vec<u8> = Vec::new();
    let okm = hkdf_sha256_expand(
        salt.as_slice(),
        link_key.0.as_slice(),
        "sync-clip/v0/channel-id".as_bytes(),
        16,
    );
    proof {
        assert(salt@ =~= Seq::<u8>::empty());
    }
    vec_to_array(&okm)
}

/// Derive the private 32-byte Clip AEAD key from a Link Key.
pub fn derive_aead_key(link_key: &LinkKey) -> (r: [u8; 32])
    ensures
        r@ == spec_aead_key(link_key.0@),
{
    let salt: Vec<u8> = Vec::new();
    let okm = hkdf_sha256_expand(
        salt.as_slice(),
        link_key.0.as_slice(),
        "sync-clip/v0/clip-aead-key".as_bytes(),
        32,
    );
    proof {
        assert(salt@ =~= Seq::<u8>::empty());
    }
    vec_to_array(&okm)
}

/// Lowercase hexadecimal digit for a value below 16.
pub open spec fn hex_digit(n: int) -> char {
    if n < 10 {
        (48 + n) as char
    } else {
        (87 + n) as char
    }
}

/// Lowercase hex of `b`: two digits per byte, high nibble first.
pub open spec fn hex_lower(b: Seq<u8>) -> Seq<char>
    decreases b.len(),
{
    if b.len() == 0 {
        seq![]
    } else {
        seq![hex_digit(b[0] as int / 16), hex_digit(b[0] as int % 16)] + hex_lower(b.drop_first())
    }
}

/// Hex of a concatenation is the concatenation of the hex.
proof fn lemma_hex_lower_append(a: Seq<u8>, b: Seq<u8>)
    ensures
        hex_lower(a + b) == hex_lower(a) + hex_lower(b),
    decreases a.len(),
{
    if a.len() == 0 {
        assert(a + b =~= b);
        assert(hex_lower(a) + hex_lower(b) =~= hex_lower(b));
    } else {
        assert((a + b).drop_first() =~= a.drop_first() + b);
        lemma_hex_lower_append(a.drop_first(), b);
        let head = seq![hex_digit(a[0] as int / 16), hex_digit(a[0] as int % 16)];
        assert(head + (hex_lower(a.drop_first()) + hex_lower(b)) =~= (head + hex_lower(a.drop_first()))
            + hex_lower(b));
    }
}

/// The lowercase hex digit for a value below 16.
fn hex_char(n: u8) -> (c: char)
    requires
        n < 16,
    ensures
        c == hex_digit(n as int),
{
    if n < 10 {
        let b: u8 = n + 48u8;
        b as char
    } else {
        let b: u8 = n + 87u8;
        b as char
    }
}

/// Lowercase hex encoding: two digits per byte, high nibble first.
pub(crate) fn hex_encode(data: &[u8]) -> (r: String)
    ensures
        r@ == hex_lower(data@),
{
    let mut r = String::new();
    let mut i: usize = 0;
    assert(data@.subrange(0, 0) =~= Seq::<u8>::empty());
    while i < data.len()
        invariant
            i <= data@.len(),
            r@ == hex_lower(data@.subrange(0, i as int)),
        decreases data@.len() - i,
    {
        let b = data[i];
        string_push(&mut r, hex_char(b / 16));
        string_push(&mut r, hex_char(b % 16));
        proof {
            let one = seq![b];
            assert(one.drop_first() =~= Seq::<u8>::empty());
            assert(hex_lower(Seq::<u8>::empty()) =~= Seq::<char>::empty());
            assert(one[0] == b);
            assert(hex_lower(one) =~= seq![hex_digit(b as int / 16), hex_digit(b as int % 16)]);
            assert(data@.subrange(0, i + 1) =~= data@.subrange(0, i as int) + one);
            lemma_hex_lower_append(data@.subrange(0, i as int), one);
        }
        i = i + 1;
    }
    assert(data@.subrange(0, data@.len() as int) =~= data@);
    r
}

/// A lowercase hex digit character.
pub open spec fn is_hex_char(c: char) -> bool {
    ('0' <= c && c <= '9') || ('a' <= c && c <= 'f')
}

proof fn lemma_hex_lower(b: Seq<u8>)
    ensures
        hex_lower(b).len() == 2 * b.len(),
        forall|i: int| 0 <= i < hex_lower(b).len() ==> is_hex_char(#[trigger] hex_lower(b)[i]),
    decreases b.len(),
{
    if b.len() > 0 {
        lemma_hex_lower(b.drop_first());
        let head = seq![hex_digit(b[0] as int / 16), hex_digit(b[0] as int % 16)];
        assert forall|i: int| 0 <= i < hex_lower(b).len() implies is_hex_char(#[trigger] hex_lower(b)[i]) by {
            if i >= 2 {
                assert(hex_lower(b)[i] == hex_lower(b.drop_first())[i - 2]);
            }
        }
    }
}

/// Lowercase hex encoding of the channel id (32 hex chars) for the wire; the
/// relay accepts it as a channel id.
pub fn channel_id_hex(link_key: &LinkKey) -> (r: String)
    ensures
        r@ == hex_lower(spec_channel_id(link_key.0@)),
        valid_channel_id(r@),
{
    let id = derive_channel_id(link_key);
    let r = hex_encode(id.as_slice());
    proof {
        lemma_hex_lower(id@);
        assert(is_ascii_chars(r@));
        is_ascii_chars_encode_utf8(r@);
        assert forall|i: int| 0 <= i < encode_utf8(r@).len() implies is_lower_hex_byte(#[trigger] encode_utf8(r@)[i]) by {
            assert(is_hex_char(r@[i]));
            assert(r@[i] as u8 == encode_utf8(r@)[i]);
        }
    }
    r
}

} // verus!
