//! Deterministic CBOR encoding of Clip plaintext (the AEAD input).
//!
//! The Clip is a definite-length map whose text keys appear in sorted order:
//! `created_at`, `id`, optional `image` (`bytes`, `mime`), `schema_version`,
//! `sender_ephemeral_id`, `text`. Every head uses its shortest form.
use vstd::prelude::*;
use vstd::utf8::*;
use vstd::seq_lib::lemma_concat_associative;
use crate::envelope::{clip_result_view, image_view, ClipImage, EnvelopeError, ErrorKind, TextClip};
use vstd::array::*;
use vstd::slice::*;
use vstd::string::*;

verus! {

/// The `n` low-order bytes of `a`, most significant first.
pub open spec fn be_bytes(a: int, n: nat) -> Seq<u8>
    decreases n,
{
    if n == 0 {
        seq![]
    } else {
        be_bytes(a / 256, (n - 1) as nat).push((a % 256) as u8)
    }
}

/// Additional-information value and argument width of the shortest head for `arg`.
pub open spec fn head_shape(arg: u64) -> (int, nat) {
    if arg < 24 {
        (arg as int, 0)
    } else if arg < 256 {
        (24, 1)
    } else if arg < 65536 {
        (25, 2)
    } else if arg < 0x1_0000_0000 {
        (26, 4)
    } else {
        (27, 8)
    }
}

/// Encoded CBOR head: major type in the top three bits, argument in the
/// shortest big-endian form.
pub open spec fn head(major: u8, arg: u64) -> Seq<u8> {
    let (info, n) = head_shape(arg);
    seq![(major as int * 32 + info) as u8] + be_bytes(arg as int, n)
}

/// Big-endian value of `n` bytes of `b` starting at `p`.
pub open spec fn be_value(b: Seq<u8>, p: int, n: nat) -> int
    decreases n,
{
    if n == 0 {
        0
    } else {
        be_value(b, p, (n - 1) as nat) * 256 + b[p + n - 1] as int
    }
}

/// Reads one head at position `p`; rejects heads that are not in shortest form.
pub open spec fn parse_head(b: Seq<u8>, p: int) -> Option<(u8, u64, int)> {
    if p < 0 || p >= b.len() {
        None
    } else {
        let major = (b[p] / 32) as u8;
        let info = b[p] % 32;
        if info < 24 {
            Some((major, info as u64, p + 1))
        } else if info == 24 {
            if p + 2 <= b.len() && b[p + 1] >= 24 {
                Some((major, b[p + 1] as u64, p + 2))
            } else {
                None
            }
        } else if info == 25 {
            if p + 3 <= b.len() && be_value(b, p + 1, 2) >= 256 {
                Some((major, be_value(b, p + 1, 2) as u64, p + 3))
            } else {
                None
            }
        } else if info == 26 {
            if p + 5 <= b.len() && be_value(b, p + 1, 4) >= 65536 {
                Some((major, be_value(b, p + 1, 4) as u64, p + 5))
            } else {
                None
            }
        } else if info == 27 {
            if p + 9 <= b.len() && be_value(b, p + 1, 8) >= 0x1_0000_0000 {
                Some((major, be_value(b, p + 1, 8) as u64, p + 9))
            } else {
                None
            }
        } else {
            None
        }
    }
}

/// Appends the `n` low-order bytes of `a`, most significant first.
fn push_be(out: &mut Vec<u8>, a: u64, n: usize)
    requires
        n <= 8,
    ensures
        final(out)@ == old(out)@ + be_bytes(a as int, n as nat),
    decreases n,
{
    if n > 0 {
        push_be(out, a / 256, n - 1);
        out.push((a % 256) as u8);
        assert(final(out)@ =~= old(out)@ + be_bytes(a as int, n as nat));
    } else {
        assert(final(out)@ =~= old(out)@ + be_bytes(a as int, n as nat));
    }
}

/// Appends the head `(major, arg)` to `out`.
fn push_head(out: &mut Vec<u8>, major: u8, arg: u64)
    requires
        major < 8,
    ensures
        final(out)@ == old(out)@ + head(major, arg),
{
    let m: u8 = major * 32;
    let ghost start = out@;
    if arg < 24 {
        out.push(m + arg as u8);
        push_be(out, arg, 0);
    } else if arg < 256 {
        out.push(m + 24);
        push_be(out, arg, 1);
    } else if arg < 65536 {
        out.push(m + 25);
        push_be(out, arg, 2);
    } else if arg < 0x1_0000_0000 {
        out.push(m + 26);
        push_be(out, arg, 4);
    } else {
        out.push(m + 27);
        push_be(out, arg, 8);
    }
    assert(final(out)@ =~= start + head(major, arg));
}

/// Reads the big-endian value of `n` bytes of `b` from `p`.
fn read_be(b: &[u8], p: usize, n: usize) -> (r: u64)
    requires
        n <= 8,
        p + n <= b@.len(),
    ensures
        r as int == be_value(b@, p as int, n as nat),
{
    let mut acc: u64 = 0;
    let mut i: usize = 0;
    let len = b.len();
    while i < n
        invariant
            len == b@.len(),
            i <= n <= 8,
            p + n <= b@.len(),
            acc as int == be_value(b@, p as int, i as nat),
            acc < pow256(i as nat),
        decreases n - i,
    {
        proof {
            lemma_pow256_step(i as nat);
        }
        assert(acc * 256 + b@[p + i] < pow256((i + 1) as nat)) by (nonlinear_arith)
            requires
                acc < pow256(i as nat),
                b@[p + i] < 256,
                pow256((i + 1) as nat) == pow256(i as nat) * 256,
        ;
        assert(acc * 256 + b@[p + i] <= u64::MAX);
        acc = acc * 256 + b[p + i] as u64;
        i = i + 1;
    }
    acc
}

/// `256^n`.
pub open spec fn pow256(n: nat) -> int
    decreases n,
{
    if n == 0 {
        1
    } else {
        pow256((n - 1) as nat) * 256
    }
}

proof fn lemma_pow256_step(n: nat)
    requires
        n < 8,
    ensures
        pow256(n + 1) == pow256(n) * 256,
        pow256(n + 1) <= 0x1_0000_0000_0000_0000,
{
    reveal_with_fuel(pow256, 9);
    assert(pow256(8) == 0x1_0000_0000_0000_0000);
    lemma_pow256_mono(n + 1, 8);
}

proof fn lemma_pow256_mono(a: nat, b: nat)
    requires
        a <= b,
    ensures
        pow256(a) <= pow256(b),
        pow256(a) >= 1,
    decreases b,
{
    if a < b {
        lemma_pow256_mono(a, (b - 1) as nat);
    } else if a > 0 {
        lemma_pow256_mono((a - 1) as nat, (a - 1) as nat);
    }
}

/// Reads one head at position `p`.
fn read_head(b: &[u8], p: usize) -> (r: Option<(u8, u64, usize)>)
    ensures
        match r {
            Some((m, a, q)) => parse_head(b@, p as int) == Some((m, a, q as int)),
            None => parse_head(b@, p as int) is None,
        },
{
    if p >= b.len() {
        return None;
    }
    let b0 = b[p];
    let major = b0 / 32;
    let info = b0 % 32;
    if info < 24 {
        Some((major, info as u64, p + 1))
    } else if info == 24 {
        if b.len() - p >= 2 && b[p + 1] >= 24 {
            Some((major, b[p + 1] as u64, p + 2))
        } else {
            None
        }
    } else if info == 25 {
        if b.len() - p >= 3 {
            let a = read_be(b, p + 1, 2);
            if a >= 256 { Some((major, a, p + 3)) } else { None }
        } else {
            None
        }
    } else if info == 26 {
        if b.len() - p >= 5 {
            let a = read_be(b, p + 1, 4);
            if a >= 65536 { Some((major, a, p + 5)) } else { None }
        } else {
            None
        }
    } else if info == 27 {
        if b.len() - p >= 9 {
            let a = read_be(b, p + 1, 8);
            if a >= 0x1_0000_0000 { Some((major, a, p + 9)) } else { None }
        } else {
            None
        }
    } else {
        None
    }
}

/// The length of the head `(major, arg)` in bytes.
pub open spec fn head_len(arg: u64) -> int {
    1 + head_shape(arg).1 as int
}

proof fn lemma_be_bytes_len(a: int, n: nat)
    ensures
        be_bytes(a, n).len() == n,
    decreases n,
{
    if n > 0 {
        lemma_be_bytes_len(a / 256, (n - 1) as nat);
    }
}

proof fn lemma_head_len(major: u8, arg: u64)
    ensures
        head(major, arg).len() == head_len(arg),
{
    lemma_be_bytes_len(arg as int, head_shape(arg).1);
}

proof fn lemma_be_value_bounds(b: Seq<u8>, p: int, n: nat)
    ensures
        0 <= be_value(b, p, n) < pow256(n),
    decreases n,
{
    if n > 0 {
        lemma_be_value_bounds(b, p, (n - 1) as nat);
        let v = be_value(b, p, (n - 1) as nat);
        assert(v * 256 + b[p + n - 1] < pow256((n - 1) as nat) * 256) by (nonlinear_arith)
            requires
                0 <= v < pow256((n - 1) as nat),
                0 <= b[p + n - 1] < 256,
        ;
    }
}

/// Writing the bytes of `a` and reading them back gives `a`.
proof fn lemma_be_value_of_bytes(b: Seq<u8>, p: int, a: int, n: nat)
    requires
        0 <= a < pow256(n),
        0 <= p,
        p + n <= b.len(),
        b.subrange(p, p + n) == be_bytes(a, n),
    ensures
        be_value(b, p, n) == a,
    decreases n,
{
    if n > 0 {
        lemma_be_bytes_len(a / 256, (n - 1) as nat);
        let prev = be_bytes(a / 256, (n - 1) as nat);
        assert(b.subrange(p, p + n - 1) =~= prev) by {
            assert(b.subrange(p, p + n) == prev.push((a % 256) as u8));
            assert forall|i: int| 0 <= i < n - 1 implies #[trigger] b.subrange(p, p + n - 1)[i]
                == prev[i] by {
                assert(b.subrange(p, p + n)[i] == prev[i]);
            }
        }
        assert(b[p + n - 1] == (a % 256) as u8) by {
            assert(b.subrange(p, p + n)[n - 1] == (a % 256) as u8);
        }
        assert(a / 256 < pow256((n - 1) as nat)) by (nonlinear_arith)
            requires
                0 <= a < pow256((n - 1) as nat) * 256,
        ;
        lemma_be_value_of_bytes(b, p, a / 256, (n - 1) as nat);
    }
}

/// Reading bytes as a number and writing the number back gives the bytes.
proof fn lemma_bytes_of_be_value(b: Seq<u8>, p: int, n: nat)
    requires
        0 <= p,
        p + n <= b.len(),
    ensures
        be_bytes(be_value(b, p, n), n) == b.subrange(p, p + n),
    decreases n,
{
    if n > 0 {
        let v = be_value(b, p, (n - 1) as nat);
        lemma_be_value_bounds(b, p, (n - 1) as nat);
        let a = v * 256 + b[p + n - 1];
        assert(a / 256 == v);
        assert(a % 256 == b[p + n - 1]);
        lemma_bytes_of_be_value(b, p, (n - 1) as nat);
        assert(b.subrange(p, p + n) =~= b.subrange(p, p + n - 1).push(b[p + n - 1]));
    }
}

proof fn lemma_pow256_values()
    ensures
        pow256(0) == 1,
        pow256(1) == 256,
        pow256(2) == 65536,
        pow256(4) == 0x1_0000_0000,
        pow256(8) == 0x1_0000_0000_0000_0000,
{
    reveal_with_fuel(pow256, 9);
}

/// Reading a head back at the place where it was written gives its major
/// type and argument, and the position right after it.
pub proof fn lemma_parse_head_complete(b: Seq<u8>, p: int, major: u8, arg: u64)
    requires
        major < 8,
        0 <= p,
        p + head_len(arg) <= b.len(),
        b.subrange(p, p + head_len(arg)) == head(major, arg),
    ensures
        parse_head(b, p) == Some((major, arg, p + head_len(arg))),
{
    let (info, n) = head_shape(arg);
    let h = head(major, arg);
    lemma_head_len(major, arg);
    lemma_pow256_values();
    assert(b[p] == h[0]);
    assert(b[p] / 32 == major);
    assert(b[p] % 32 == info);
    assert(b.subrange(p + 1, p + 1 + n) =~= be_bytes(arg as int, n)) by {
        assert forall|i: int| 0 <= i < n implies #[trigger] b.subrange(p + 1, p + 1 + n)[i]
            == be_bytes(arg as int, n)[i] by {
            assert(b.subrange(p, p + head_len(arg))[i + 1] == h[i + 1]);
        }
    }
    if n > 0 {
        lemma_be_value_of_bytes(b, p + 1, arg as int, n);
    }
}

/// A head that reads successfully spells out exactly the bytes it covers.
pub proof fn lemma_parse_head_sound(b: Seq<u8>, p: int)
    requires
        parse_head(b, p) is Some,
    ensures
        ({
            let (m, a, q) = parse_head(b, p)->0;
            &&& m < 8
            &&& q == p + head_len(a)
            &&& 0 <= p
            &&& q <= b.len()
            &&& b.subrange(p, q) == head(m, a)
        }),
{
    let (m, a, q) = parse_head(b, p)->0;
    lemma_pow256_values();
    let info = b[p] % 32;
    let n: nat = (q - p - 1) as nat;
    lemma_be_value_bounds(b, p + 1, n);
    lemma_bytes_of_be_value(b, p + 1, n);
    lemma_head_len(m, a);
    assert(head_shape(a) == (info as int, n));
    assert(b.subrange(p, q) =~= head(m, a));
}

/// A definite-length byte string (major 2) or text string (major 3) item.
pub open spec fn string_item(major: u8, payload: Seq<u8>) -> Seq<u8> {
    head(major, payload.len() as u64) + payload
}

/// A text string item carrying the UTF-8 encoding of `t`.
pub open spec fn text_item(t: Seq<char>) -> Seq<u8> {
    string_item(3, encode_utf8(t))
}

/// A signed integer item (major 0 for `v >= 0`, major 1 for `v < 0`).
pub open spec fn int_item(v: i64) -> Seq<u8> {
    if v >= 0 {
        head(0, v as u64)
    } else {
        head(1, (-1 - v) as u64)
    }
}

/// Reads a string item of the given major type; yields its payload.
pub open spec fn parse_string(b: Seq<u8>, p: int, major: u8) -> Option<(Seq<u8>, int)> {
    match parse_head(b, p) {
        Some((m, a, q)) => if m == major && q + a <= b.len() {
            Some((b.subrange(q, q + a), q + a))
        } else {
            None
        },
        None => None,
    }
}

/// Reads a text item holding valid UTF-8; yields its characters.
pub open spec fn parse_text(b: Seq<u8>, p: int) -> Option<(Seq<char>, int)> {
    match parse_string(b, p, 3) {
        Some((s, q)) => if valid_utf8(s) {
            Some((decode_utf8(s), q))
        } else {
            None
        },
        None => None,
    }
}

/// Reads an integer item that fits an `i64`.
pub open spec fn parse_int(b: Seq<u8>, p: int) -> Option<(i64, int)> {
    match parse_head(b, p) {
        Some((m, a, q)) => if m == 0 && a <= i64::MAX {
            Some((a as i64, q))
        } else if m == 1 && a <= i64::MAX {
            Some(((-1 - a) as i64, q))
        } else {
            None
        },
        None => None,
    }
}

/// Reads an unsigned integer item that fits a `u8`.
pub open spec fn parse_small(b: Seq<u8>, p: int) -> Option<(u8, int)> {
    match parse_head(b, p) {
        Some((m, a, q)) => if m == 0 && a <= 255 {
            Some((a as u8, q))
        } else {
            None
        },
        None => None,
    }
}

/// Matches the exact bytes `lit` at position `p`.
pub open spec fn parse_literal(b: Seq<u8>, p: int, lit: Seq<u8>) -> Option<int> {
    if 0 <= p && p + lit.len() <= b.len() && b.subrange(p, p + lit.len()) == lit {
        Some(p + lit.len())
    } else {
        None
    }
}

/// `b` read from `p` to its end starts with `x` and continues with `rest`.
proof fn lemma_split(b: Seq<u8>, p: int, x: Seq<u8>, rest: Seq<u8>)
    requires
        0 <= p <= b.len(),
        b.subrange(p, b.len() as int) == x + rest,
    ensures
        p + x.len() <= b.len(),
        b.subrange(p, p + x.len()) == x,
        b.subrange(p + x.len(), b.len() as int) == rest,
{
    let t = b.subrange(p, b.len() as int);
    assert(t.len() == x.len() + rest.len());
    assert forall|i: int| 0 <= i < x.len() implies #[trigger] b.subrange(p, p + x.len())[i]
        == x[i] by {
        assert(t[i] == (x + rest)[i]);
    }
    assert(b.subrange(p, p + x.len()) =~= x);
    assert forall|i: int| 0 <= i < rest.len() implies #[trigger] b.subrange(
        p + x.len(),
        b.len() as int,
    )[i] == rest[i] by {
        assert(t[x.len() + i] == (x + rest)[x.len() + i]);
    }
    assert(b.subrange(p + x.len(), b.len() as int) =~= rest);
}

/// Joining the piece `[p, q)` with the tail from `q` gives the tail from `p`.
proof fn lemma_join(b: Seq<u8>, p: int, q: int)
    requires
        0 <= p <= q <= b.len(),
    ensures
        b.subrange(p, b.len() as int) == b.subrange(p, q) + b.subrange(q, b.len() as int),
{
    assert(b.subrange(p, b.len() as int) =~= b.subrange(p, q) + b.subrange(q, b.len() as int));
}

proof fn lemma_parse_string_complete(b: Seq<u8>, p: int, major: u8, s: Seq<u8>)
    requires
        major < 8,
        s.len() <= u64::MAX,
        0 <= p,
        p + string_item(major, s).len() <= b.len(),
        b.subrange(p, p + string_item(major, s).len()) == string_item(major, s),
    ensures
        parse_string(b, p, major) == Some((s, p + string_item(major, s).len())),
{
    let h = head(major, s.len() as u64);
    lemma_head_len(major, s.len() as u64);
    assert(b.subrange(p, p + h.len()) =~= h) by {
        assert forall|i: int| 0 <= i < h.len() implies #[trigger] b.subrange(p, p + h.len())[i]
            == h[i] by {
            assert(b.subrange(p, p + string_item(major, s).len())[i] == string_item(major, s)[i]);
        }
    }
    lemma_parse_head_complete(b, p, major, s.len() as u64);
    let q = p + h.len();
    assert(b.subrange(q, q + s.len()) =~= s) by {
        assert forall|i: int| 0 <= i < s.len() implies #[trigger] b.subrange(q, q + s.len())[i]
            == s[i] by {
            assert(b.subrange(p, p + string_item(major, s).len())[h.len() + i] == string_item(
                major,
                s,
            )[h.len() + i]);
        }
    }
}

proof fn lemma_parse_string_sound(b: Seq<u8>, p: int, major: u8)
    requires
        parse_string(b, p, major) is Some,
    ensures
        ({
            let (s, q) = parse_string(b, p, major)->0;
            &&& major < 8
            &&& 0 <= p <= q <= b.len()
            &&& s.len() <= u64::MAX
            &&& q == p + string_item(major, s).len()
            &&& b.subrange(p, q) == string_item(major, s)
        }),
{
    lemma_parse_head_sound(b, p);
    let (m, a, q0) = parse_head(b, p)->0;
    let (s, q) = parse_string(b, p, major)->0;
    lemma_head_len(m, a);
    assert(s.len() == a);
    assert(b.subrange(p, q) =~= b.subrange(p, q0) + b.subrange(q0, q));
}

proof fn lemma_parse_text_complete(b: Seq<u8>, p: int, t: Seq<char>)
    requires
        encode_utf8(t).len() <= u64::MAX,
        0 <= p,
        p + text_item(t).len() <= b.len(),
        b.subrange(p, p + text_item(t).len()) == text_item(t),
    ensures
        parse_text(b, p) == Some((t, p + text_item(t).len())),
{
    lemma_parse_string_complete(b, p, 3, encode_utf8(t));
    encode_utf8_valid_utf8(t);
    encode_utf8_decode_utf8(t);
}

proof fn lemma_parse_text_sound(b: Seq<u8>, p: int)
    requires
        parse_text(b, p) is Some,
    ensures
        ({
            let (t, q) = parse_text(b, p)->0;
            &&& 0 <= p <= q <= b.len()
            &&& encode_utf8(t).len() <= u64::MAX
            &&& q == p + text_item(t).len()
            &&& b.subrange(p, q) == text_item(t)
        }),
{
    lemma_parse_string_sound(b, p, 3);
    let (s, q) = parse_string(b, p, 3)->0;
    decode_utf8_encode_utf8(s);
}

proof fn lemma_parse_int_complete(b: Seq<u8>, p: int, v: i64)
    requires
        0 <= p,
        p + int_item(v).len() <= b.len(),
        b.subrange(p, p + int_item(v).len()) == int_item(v),
    ensures
        parse_int(b, p) == Some((v, p + int_item(v).len())),
{
    if v >= 0 {
        lemma_head_len(0, v as u64);
        lemma_parse_head_complete(b, p, 0, v as u64);
    } else {
        lemma_head_len(1, (-1 - v) as u64);
        lemma_parse_head_complete(b, p, 1, (-1 - v) as u64);
    }
}

proof fn lemma_parse_int_sound(b: Seq<u8>, p: int)
    requires
        parse_int(b, p) is Some,
    ensures
        ({
            let (v, q) = parse_int(b, p)->0;
            &&& 0 <= p <= q <= b.len()
            &&& q == p + int_item(v).len()
            &&& b.subrange(p, q) == int_item(v)
        }),
{
    lemma_parse_head_sound(b, p);
    let (m, a, q0) = parse_head(b, p)->0;
    lemma_head_len(m, a);
}

proof fn lemma_parse_small_complete(b: Seq<u8>, p: int, v: u8)
    requires
        0 <= p,
        p + head(0, v as u64).len() <= b.len(),
        b.subrange(p, p + head(0, v as u64).len()) == head(0, v as u64),
    ensures
        parse_small(b, p) == Some((v, p + head(0, v as u64).len())),
{
    lemma_head_len(0, v as u64);
    lemma_parse_head_complete(b, p, 0, v as u64);
}

proof fn lemma_parse_small_sound(b: Seq<u8>, p: int)
    requires
        parse_small(b, p) is Some,
    ensures
        ({
            let (v, q) = parse_small(b, p)->0;
            &&& 0 <= p <= q <= b.len()
            &&& q == p + head(0, v as u64).len()
            &&& b.subrange(p, q) == head(0, v as u64)
        }),
{
    lemma_parse_head_sound(b, p);
    let (m, a, q0) = parse_head(b, p)->0;
    lemma_head_len(m, a);
}

/// Keys of the Clip map and of its `image` map.
pub enum FieldKey {
    CreatedAt,
    Id,
    Image,
    SchemaVersion,
    SenderEphemeralId,
    Text,
    Bytes,
    Mime,
}

/// ASCII spelling of each key.
pub open spec fn key_name(k: FieldKey) -> Seq<u8> {
    match k {
        FieldKey::CreatedAt => seq![99u8, 114, 101, 97, 116, 101, 100, 95, 97, 116],
        FieldKey::Id => seq![105u8, 100],
        FieldKey::Image => seq![105u8, 109, 97, 103, 101],
        FieldKey::SchemaVersion => seq![
            115u8, 99, 104, 101, 109, 97, 95, 118, 101, 114, 115, 105, 111, 110,
        ],
        FieldKey::SenderEphemeralId => seq![
            115u8, 101, 110, 100, 101, 114, 95, 101, 112, 104, 101, 109, 101, 114, 97, 108, 95,
            105, 100,
        ],
        FieldKey::Text => seq![116u8, 101, 120, 116],
        FieldKey::Bytes => seq![98u8, 121, 116, 101, 115],
        FieldKey::Mime => seq![109u8, 105, 109, 101],
    }
}

/// A key as it appears on the wire: a text item.
pub open spec fn key_item(k: FieldKey) -> Seq<u8> {
    string_item(3, key_name(k))
}

/// Clip fields as the CBOR map carries them (ids not yet checked for length).
pub struct WireClip {
    pub created_at: i64,
    pub id: Seq<u8>,
    pub image: Option<(Seq<u8>, Seq<char>)>,
    pub schema_version: u8,
    pub sender_ephemeral_id: Seq<u8>,
    pub text: Seq<char>,
}

/// The `image` entry of the Clip map, or nothing when the Clip has no image.
pub open spec fn image_part(image: Option<(Seq<u8>, Seq<char>)>) -> Seq<u8> {
    match image {
        Some((bytes, mime)) => key_item(FieldKey::Image) + (head(5, 2) + (key_item(FieldKey::Bytes)
            + (string_item(2, bytes) + (key_item(FieldKey::Mime) + text_item(mime))))),
        None => seq![],
    }
}

/// The entries of the Clip map after `image`.
pub open spec fn tail_part(schema_version: u8, sender: Seq<u8>, text: Seq<char>) -> Seq<u8> {
    key_item(FieldKey::SchemaVersion) + (head(0, schema_version as u64) + (key_item(
        FieldKey::SenderEphemeralId,
    ) + (string_item(2, sender) + (key_item(FieldKey::Text) + text_item(text)))))
}

/// The canonical encoding of a Clip: a map of five entries, or six with an image.
pub open spec fn encode_wire(w: WireClip) -> Seq<u8> {
    head(5, if w.image is Some { 6 } else { 5 }) + (key_item(FieldKey::CreatedAt) + (int_item(
        w.created_at,
    ) + (key_item(FieldKey::Id) + (string_item(2, w.id) + (image_part(w.image) + tail_part(
        w.schema_version,
        w.sender_ephemeral_id,
        w.text,
    ))))))
}

/// Every length in the Clip fits a CBOR argument.
pub open spec fn wire_fits(w: WireClip) -> bool {
    &&& w.id.len() <= u64::MAX
    &&& w.sender_ephemeral_id.len() <= u64::MAX
    &&& encode_utf8(w.text).len() <= u64::MAX
    &&& match w.image {
        Some((bytes, mime)) => bytes.len() <= u64::MAX && encode_utf8(mime).len() <= u64::MAX,
        None => true,
    }
}

/// Reads the `image` entry when the map announced six entries.
pub open spec fn parse_image(b: Seq<u8>, p: int, present: bool) -> Option<
    (Option<(Seq<u8>, Seq<char>)>, int),
> {
    if !present {
        Some((None, p))
    } else {
        match parse_literal(b, p, key_item(FieldKey::Image)) {
            Some(p1) => match parse_literal(b, p1, head(5, 2)) {
                Some(p2) => match parse_literal(b, p2, key_item(FieldKey::Bytes)) {
                    Some(p3) => match parse_string(b, p3, 2) {
                        Some((bytes, p4)) => match parse_literal(b, p4, key_item(FieldKey::Mime)) {
                            Some(p5) => match parse_text(b, p5) {
                                Some((mime, p6)) => Some((Some((bytes, mime)), p6)),
                                None => None,
                            },
                            None => None,
                        },
                        None => None,
                    },
                    None => None,
                },
                None => None,
            },
            None => None,
        }
    }
}

/// Reads the entries after `image`, which must end exactly at the end of `b`.
pub open spec fn parse_tail(b: Seq<u8>, p: int) -> Option<(u8, Seq<u8>, Seq<char>)> {
    match parse_literal(b, p, key_item(FieldKey::SchemaVersion)) {
        Some(p1) => match parse_small(b, p1) {
            Some((sv, p2)) => match parse_literal(b, p2, key_item(FieldKey::SenderEphemeralId)) {
                Some(p3) => match parse_string(b, p3, 2) {
                    Some((sender, p4)) => match parse_literal(b, p4, key_item(FieldKey::Text)) {
                        Some(p5) => match parse_text(b, p5) {
                            Some((text, p6)) => if p6 == b.len() {
                                Some((sv, sender, text))
                            } else {
                                None
                            },
                            None => None,
                        },
                        None => None,
                    },
                    None => None,
                },
                None => None,
            },
            None => None,
        },
        None => None,
    }
}

/// Reads a whole Clip map.
pub open spec fn parse_wire(b: Seq<u8>) -> Option<WireClip> {
    match parse_head(b, 0) {
        Some((m, n, p0)) => if m == 5 && (n == 5 || n == 6) {
            match parse_literal(b, p0, key_item(FieldKey::CreatedAt)) {
                Some(p1) => match parse_int(b, p1) {
                    Some((created_at, p2)) => match parse_literal(b, p2, key_item(FieldKey::Id)) {
                        Some(p3) => match parse_string(b, p3, 2) {
                            Some((id, p4)) => match parse_image(b, p4, n == 6) {
                                Some((image, p5)) => match parse_tail(b, p5) {
                                    Some((sv, sender, text)) => Some(
                                        WireClip {
                                            created_at,
                                            id,
                                            image,
                                            schema_version: sv,
                                            sender_ephemeral_id: sender,
                                            text,
                                        },
                                    ),
                                    None => None,
                                },
                                None => None,
                            },
                            None => None,
                        },
                        None => None,
                    },
                    None => None,
                },
                None => None,
            }
        } else {
            None
        },
        None => None,
    }
}

proof fn lemma_image_complete(
    b: Seq<u8>,
    p: int,
    image: Option<(Seq<u8>, Seq<char>)>,
    rest: Seq<u8>,
)
    requires
        0 <= p <= b.len(),
        b.subrange(p, b.len() as int) == image_part(image) + rest,
        match image {
            Some((bytes, mime)) => bytes.len() <= u64::MAX && encode_utf8(mime).len() <= u64::MAX,
            None => true,
        },
    ensures
        parse_image(b, p, image is Some) == Some((image, p + image_part(image).len())),
        b.subrange(p + image_part(image).len(), b.len() as int) == rest,
{
    match image {
        Some((bytes, mime)) => {
            let k1 = key_item(FieldKey::Image);
            let h = head(5, 2);
            let k2 = key_item(FieldKey::Bytes);
            let sb = string_item(2, bytes);
            let k3 = key_item(FieldKey::Mime);
            let tm = text_item(mime);
            assert(image_part(image) + rest =~= k1 + (h + (k2 + (sb + (k3 + (tm + rest))))));
            lemma_split(b, p, k1, h + (k2 + (sb + (k3 + (tm + rest)))));
            let p1 = p + k1.len();
            lemma_split(b, p1, h, k2 + (sb + (k3 + (tm + rest))));
            let p2 = p1 + h.len();
            lemma_split(b, p2, k2, sb + (k3 + (tm + rest)));
            let p3 = p2 + k2.len();
            lemma_split(b, p3, sb, k3 + (tm + rest));
            lemma_parse_string_complete(b, p3, 2, bytes);
            let p4 = p3 + sb.len();
            lemma_split(b, p4, k3, tm + rest);
            let p5 = p4 + k3.len();
            lemma_split(b, p5, tm, rest);
            lemma_parse_text_complete(b, p5, mime);
        },
        None => {
            assert(image_part(image) + rest =~= rest);
        },
    }
}

proof fn lemma_image_sound(b: Seq<u8>, p: int, present: bool)
    requires
        0 <= p <= b.len(),
        parse_image(b, p, present) is Some,
    ensures
        ({
            let (image, q) = parse_image(b, p, present)->0;
            &&& p <= q <= b.len()
            &&& (image is Some <==> present)
            &&& b.subrange(p, q) == image_part(image)
            &&& match image {
                Some((bytes, mime)) => bytes.len() <= u64::MAX && encode_utf8(mime).len()
                    <= u64::MAX,
                None => true,
            }
        }),
{
    if present {
        let p1 = parse_literal(b, p, key_item(FieldKey::Image))->0;
        let p2 = parse_literal(b, p1, head(5, 2))->0;
        let p3 = parse_literal(b, p2, key_item(FieldKey::Bytes))->0;
        lemma_parse_string_sound(b, p3, 2);
        let (bytes, p4) = parse_string(b, p3, 2)->0;
        let p5 = parse_literal(b, p4, key_item(FieldKey::Mime))->0;
        lemma_parse_text_sound(b, p5);
        let (mime, p6) = parse_text(b, p5)->0;
        assert(b.subrange(p, p6) =~= b.subrange(p, p1) + (b.subrange(p1, p2) + (b.subrange(p2, p3)
            + (b.subrange(p3, p4) + (b.subrange(p4, p5) + b.subrange(p5, p6))))));
    } else {
        assert(b.subrange(p, p) =~= Seq::<u8>::empty());
    }
}

proof fn lemma_tail_complete(b: Seq<u8>, p: int, sv: u8, sender: Seq<u8>, text: Seq<char>)
    requires
        0 <= p <= b.len(),
        b.subrange(p, b.len() as int) == tail_part(sv, sender, text),
        sender.len() <= u64::MAX,
        encode_utf8(text).len() <= u64::MAX,
    ensures
        parse_tail(b, p) == Some((sv, sender, text)),
{
    let k1 = key_item(FieldKey::SchemaVersion);
    let hs = head(0, sv as u64);
    let k2 = key_item(FieldKey::SenderEphemeralId);
    let ss = string_item(2, sender);
    let k3 = key_item(FieldKey::Text);
    let tt = text_item(text);
    let e = Seq::<u8>::empty();
    assert(tail_part(sv, sender, text) =~= k1 + (hs + (k2 + (ss + (k3 + (tt + e))))));
    lemma_split(b, p, k1, hs + (k2 + (ss + (k3 + (tt + e)))));
    let p1 = p + k1.len();
    lemma_split(b, p1, hs, k2 + (ss + (k3 + (tt + e))));
    lemma_parse_small_complete(b, p1, sv);
    let p2 = p1 + hs.len();
    lemma_split(b, p2, k2, ss + (k3 + (tt + e)));
    let p3 = p2 + k2.len();
    lemma_split(b, p3, ss, k3 + (tt + e));
    lemma_parse_string_complete(b, p3, 2, sender);
    let p4 = p3 + ss.len();
    lemma_split(b, p4, k3, tt + e);
    let p5 = p4 + k3.len();
    lemma_split(b, p5, tt, e);
    lemma_parse_text_complete(b, p5, text);
}

proof fn lemma_tail_sound(b: Seq<u8>, p: int)
    requires
        0 <= p <= b.len(),
        parse_tail(b, p) is Some,
    ensures
        ({
            let (sv, sender, text) = parse_tail(b, p)->0;
            &&& b.subrange(p, b.len() as int) == tail_part(sv, sender, text)
            &&& sender.len() <= u64::MAX
            &&& encode_utf8(text).len() <= u64::MAX
        }),
{
    let p1 = parse_literal(b, p, key_item(FieldKey::SchemaVersion))->0;
    lemma_parse_small_sound(b, p1);
    let (sv, p2) = parse_small(b, p1)->0;
    let p3 = parse_literal(b, p2, key_item(FieldKey::SenderEphemeralId))->0;
    lemma_parse_string_sound(b, p3, 2);
    let (sender, p4) = parse_string(b, p3, 2)->0;
    let p5 = parse_literal(b, p4, key_item(FieldKey::Text))->0;
    lemma_parse_text_sound(b, p5);
    let (text, p6) = parse_text(b, p5)->0;
    assert(b.subrange(p, b.len() as int) =~= b.subrange(p, p1) + (b.subrange(p1, p2) + (
    b.subrange(p2, p3) + (b.subrange(p3, p4) + (b.subrange(p4, p5) + b.subrange(p5, p6))))));
}

/// Reading the canonical encoding of a Clip gives that Clip back.
#[verifier::spinoff_prover]
#[verifier::rlimit(50)]
pub proof fn lemma_parse_encode_wire(w: WireClip)
    requires
        wire_fits(w),
    ensures
        parse_wire(encode_wire(w)) == Some(w),
{
    let b = encode_wire(w);
    let n: u64 = if w.image is Some { 6 } else { 5 };
    let h = head(5, n);
    let k1 = key_item(FieldKey::CreatedAt);
    let ic = int_item(w.created_at);
    let k2 = key_item(FieldKey::Id);
    let si = string_item(2, w.id);
    let ip = image_part(w.image);
    let tp = tail_part(w.schema_version, w.sender_ephemeral_id, w.text);
    assert(b.subrange(0, b.len() as int) =~= b);
    lemma_split(b, 0, h, k1 + (ic + (k2 + (si + (ip + tp)))));
    lemma_head_len(5, n);
    lemma_parse_head_complete(b, 0, 5, n);
    let p0 = h.len() as int;
    lemma_split(b, p0, k1, ic + (k2 + (si + (ip + tp))));
    let p1 = p0 + k1.len();
    lemma_split(b, p1, ic, k2 + (si + (ip + tp)));
    lemma_parse_int_complete(b, p1, w.created_at);
    let p2 = p1 + ic.len();
    lemma_split(b, p2, k2, si + (ip + tp));
    let p3 = p2 + k2.len();
    lemma_split(b, p3, si, ip + tp);
    lemma_parse_string_complete(b, p3, 2, w.id);
    let p4 = p3 + si.len();
    lemma_image_complete(b, p4, w.image, tp);
    let p5 = p4 + ip.len();
    lemma_tail_complete(b, p5, w.schema_version, w.sender_ephemeral_id, w.text);
}

/// Whatever reads as a Clip is exactly that Clip's canonical encoding.
#[verifier::spinoff_prover]
#[verifier::rlimit(50)]
pub proof fn lemma_encode_parse_wire(b: Seq<u8>)
    requires
        parse_wire(b) is Some,
    ensures
        encode_wire(parse_wire(b)->0) == b,
        wire_fits(parse_wire(b)->0),
{
    let w = parse_wire(b)->0;
    lemma_parse_head_sound(b, 0);
    let (m, n, p0) = parse_head(b, 0)->0;
    let p1 = parse_literal(b, p0, key_item(FieldKey::CreatedAt))->0;
    lemma_parse_int_sound(b, p1);
    let (ca, p2) = parse_int(b, p1)->0;
    let p3 = parse_literal(b, p2, key_item(FieldKey::Id))->0;
    lemma_parse_string_sound(b, p3, 2);
    let (id, p4) = parse_string(b, p3, 2)->0;
    lemma_image_sound(b, p4, n == 6);
    let (image, p5) = parse_image(b, p4, n == 6)->0;
    lemma_tail_sound(b, p5);
    let len = b.len() as int;
    lemma_join(b, p4, p5);
    lemma_join(b, p3, p4);
    lemma_join(b, p2, p3);
    lemma_join(b, p1, p2);
    lemma_join(b, p0, p1);
    lemma_join(b, 0, p0);
    assert(b.subrange(0, len) =~= b);
    assert(w.id == id && w.image == image && w.created_at == ca);
}

/// Appends all of `src` to `out`.
fn append_slice(out: &mut Vec<u8>, src: &[u8])
    ensures
        final(out)@ == old(out)@ + src@,
{
    let ghost start = out@;
    let mut i: usize = 0;
    while i < src.len()
        invariant
            i <= src@.len(),
            out@ == start + src@.subrange(0, i as int),
        decreases src@.len() - i,
    {
        out.push(src[i]);
        i = i + 1;
        assert(out@ =~= start + src@.subrange(0, i as int));
    }
    assert(src@.subrange(0, src@.len() as int) =~= src@);
}

/// Appends a byte string (major 2) or text string (major 3) item.
fn push_string(out: &mut Vec<u8>, major: u8, payload: &[u8])
    requires
        major < 8,
    ensures
        final(out)@ == old(out)@ + string_item(major, payload@),
{
    let ghost start = out@;
    push_head(out, major, payload.len() as u64);
    append_slice(out, payload);
    assert(out@ =~= start + string_item(major, payload@));
}

/// Appends a text item holding the UTF-8 encoding of `s`.
fn push_text(out: &mut Vec<u8>, s: &str)
    ensures
        final(out)@ == old(out)@ + text_item(s@),
{
    push_string(out, 3, s.as_bytes());
}

/// Appends an integer item.
fn push_int(out: &mut Vec<u8>, v: i64)
    ensures
        final(out)@ == old(out)@ + int_item(v),
{
    if v >= 0 {
        push_head(out, 0, v as u64);
    } else {
        push_head(out, 1, (-1 - v) as u64);
    }
}

/// The ASCII spelling of a key.
fn key_name_vec(k: &FieldKey) -> (r: Vec<u8>)
    ensures
        r@ == key_name(*k),
{
    let r = match k {
        FieldKey::CreatedAt => vec![99u8, 114, 101, 97, 116, 101, 100, 95, 97, 116],
        FieldKey::Id => vec![105u8, 100],
        FieldKey::Image => vec![105u8, 109, 97, 103, 101],
        FieldKey::SchemaVersion => vec![
            115u8, 99, 104, 101, 109, 97, 95, 118, 101, 114, 115, 105, 111, 110,
        ],
        FieldKey::SenderEphemeralId => vec![
            115u8, 101, 110, 100, 101, 114, 95, 101, 112, 104, 101, 109, 101, 114, 97, 108, 95,
            105, 100,
        ],
        FieldKey::Text => vec![116u8, 101, 120, 116],
        FieldKey::Bytes => vec![98u8, 121, 116, 101, 115],
        FieldKey::Mime => vec![109u8, 105, 109, 101],
    };
    assert(r@ =~= key_name(*k));
    r
}

/// Appends a key item.
fn push_key(out: &mut Vec<u8>, k: FieldKey)
    ensures
        final(out)@ == old(out)@ + key_item(k),
{
    let name = key_name_vec(&k);
    push_string(out, 3, name.as_slice());
}

/// The complete wire form of a key item.
fn key_item_vec(k: FieldKey) -> (r: Vec<u8>)
    ensures
        r@ == key_item(k),
{
    let mut out: Vec<u8> = Vec::new();
    push_key(&mut out, k);
    assert(out@ =~= key_item(k));
    out
}

proof fn lemma_assoc4(a: Seq<u8>, b: Seq<u8>, c: Seq<u8>, d: Seq<u8>, x: Seq<u8>)
    ensures
        (a + (b + (c + d))) + x == a + (b + (c + (d + x))),
{
    lemma_concat_associative(a, b + (c + d), x);
    lemma_concat_associative(b, c + d, x);
    lemma_concat_associative(c, d, x);
}

fn push_image_part(out: &mut Vec<u8>, image: &Option<ClipImage>)
    ensures
        final(out)@ == old(out)@ + image_part(image_view(*image)),
{
    let ghost a1 = out@;
    match image {
        Some(img) => {
            push_key(out, FieldKey::Image);
            push_head(out, 5, 2);
            push_key(out, FieldKey::Bytes);
            push_string(out, 2, img.bytes.as_slice());
            push_key(out, FieldKey::Mime);
            push_text(out, img.mime.as_str());
            assert(out@ =~= a1 + image_part(image_view(*image)));
        },
        None => {
            assert(out@ =~= a1 + image_part(image_view(*image)));
        },
    }
}

fn push_tail_part(out: &mut Vec<u8>, schema_version: u8, sender: &[u8; 16], text: &str)
    ensures
        final(out)@ == old(out)@ + tail_part(schema_version, sender@, text@),
{
    let ghost a2 = out@;
    push_key(out, FieldKey::SchemaVersion);
    push_head(out, 0, schema_version as u64);
    push_key(out, FieldKey::SenderEphemeralId);
    push_string(out, 2, sender.as_slice());
    push_key(out, FieldKey::Text);
    push_text(out, text);
    assert(out@ =~= a2 + tail_part(schema_version, sender@, text@));
}

fn push_front_part(out: &mut Vec<u8>, created_at: i64, id: &[u8; 16])
    ensures
        final(out)@ == old(out)@ + (key_item(FieldKey::CreatedAt) + (int_item(created_at) + (
        key_item(FieldKey::Id) + string_item(2, id@)))),
{
    let ghost a0 = out@;
    push_key(out, FieldKey::CreatedAt);
    push_int(out, created_at);
    push_key(out, FieldKey::Id);
    push_string(out, 2, id.as_slice());
    assert(out@ =~= a0 + (key_item(FieldKey::CreatedAt) + (int_item(created_at) + (key_item(
        FieldKey::Id,
    ) + string_item(2, id@)))));
}

/// Encodes a Clip as canonical CBOR; only `schema_version` 1 is accepted.
pub fn encode_clip_cbor(clip: &TextClip) -> (r: Result<Vec<u8>, EnvelopeError>)
    ensures
        clip.schema_version != 1 ==> (r matches Err(EnvelopeError::Schema(v)) && v
            == clip.schema_version),
        clip.schema_version == 1 ==> (r matches Ok(b) && b@ == encode_wire(clip@)),
{
    if clip.schema_version != 1 {
        return Err(EnvelopeError::Schema(clip.schema_version));
    }
    let mut out: Vec<u8> = Vec::new();
    let entries: u64 = if clip.image.is_some() { 6 } else { 5 };
    push_head(&mut out, 5, entries);
    let ghost h = out@;
    push_front_part(&mut out, clip.created_at, &clip.id);
    let ghost f = out@;
    push_image_part(&mut out, &clip.image);
    let ghost i = out@;
    push_tail_part(&mut out, clip.schema_version, &clip.sender_ephemeral_id, clip.text.as_str());
    let ghost front = key_item(FieldKey::CreatedAt) + (int_item(clip.created_at) + (key_item(
        FieldKey::Id,
    ) + string_item(2, clip.id@)));
    let ghost ip = image_part(image_view(clip.image));
    let ghost tp = tail_part(clip.schema_version, clip.sender_ephemeral_id@, clip.text@);
    proof {
        let h0 = head(5, entries);
        assert(out@ == ((h0 + front) + ip) + tp);
        lemma_concat_associative(h0 + front, ip, tp);
        lemma_concat_associative(h0, front, ip + tp);
        lemma_assoc4(
            key_item(FieldKey::CreatedAt),
            int_item(clip.created_at),
            key_item(FieldKey::Id),
            string_item(2, clip.id@),
            ip + tp,
        );
    }
    Ok(out)
}

/// Decodes UTF-8 bytes into a `String` (`std::string::String::from_utf8`):
/// succeeds exactly on valid UTF-8, yielding the characters the bytes encode.
#[verifier::external_body]
fn string_from_utf8(bytes: Vec<u8>) -> (r: Option<String>)
    ensures
        r is Some <==> valid_utf8(bytes@),
        r matches Some(s) ==> s@ == decode_utf8(bytes@),
{
    String::from_utf8(bytes).ok()
}

/// Matches the bytes `lit` at position `p`.
fn match_literal(b: &[u8], p: usize, lit: &[u8]) -> (r: Option<usize>)
    ensures
        match r {
            Some(q) => parse_literal(b@, p as int, lit@) == Some(q as int),
            None => parse_literal(b@, p as int, lit@) is None,
        },
{
    if p > b.len() || lit.len() > b.len() - p {
        return None;
    }
    let mut i: usize = 0;
    let blen = b.len();
    while i < lit.len()
        invariant
            blen == b@.len(),
            p + lit@.len() <= b@.len(),
            i <= lit@.len(),
            forall|j: int| 0 <= j < i ==> b@[p + j] == lit@[j],
        decreases lit@.len() - i,
    {
        if b[p + i] != lit[i] {
            assert(b@.subrange(p as int, p + lit@.len())[i as int] != lit@[i as int]);
            return None;
        }
        i = i + 1;
    }
    assert(b@.subrange(p as int, p + lit@.len()) =~= lit@);
    Some(p + lit.len())
}

/// Matches a key item at position `p`.
fn match_key(b: &[u8], p: usize, k: FieldKey) -> (r: Option<usize>)
    ensures
        match r {
            Some(q) => parse_literal(b@, p as int, key_item(k)) == Some(q as int),
            None => parse_literal(b@, p as int, key_item(k)) is None,
        },
{
    let lit = key_item_vec(k);
    match_literal(b, p, lit.as_slice())
}

/// Reads a string item of major type `major`; yields the payload's range.
fn read_string(b: &[u8], p: usize, major: u8) -> (r: Option<(usize, usize)>)
    ensures
        match r {
            Some((q, e)) => q <= e <= b@.len() && parse_string(b@, p as int, major) == Some(
                (b@.subrange(q as int, e as int), e as int),
            ),
            None => parse_string(b@, p as int, major) is None,
        },
{
    match read_head(b, p) {
        Some((m, a, q)) => {
            proof {
                lemma_parse_head_sound(b@, p as int);
            }
            if m == major && a <= (b.len() - q) as u64 {
                Some((q, q + a as usize))
            } else {
                None
            }
        },
        None => None,
    }
}

/// Reads a byte string item into a fresh vector.
fn read_bytes(b: &[u8], p: usize) -> (r: Option<(Vec<u8>, usize)>)
    ensures
        match r {
            Some((v, e)) => parse_string(b@, p as int, 2) == Some((v@, e as int)),
            None => parse_string(b@, p as int, 2) is None,
        },
{
    match read_string(b, p, 2) {
        Some((q, e)) => Some((slice_to_vec(slice_subrange(b, q, e)), e)),
        None => None,
    }
}

/// Reads a text item into a `String`.
fn read_text(b: &[u8], p: usize) -> (r: Option<(String, usize)>)
    ensures
        match r {
            Some((t, e)) => parse_text(b@, p as int) == Some((t@, e as int)),
            None => parse_text(b@, p as int) is None,
        },
{
    match read_string(b, p, 3) {
        Some((q, e)) => {
            let v = slice_to_vec(slice_subrange(b, q, e));
            match string_from_utf8(v) {
                Some(t) => Some((t, e)),
                None => None,
            }
        },
        None => None,
    }
}

/// Reads an integer item that fits an `i64`.
fn read_int(b: &[u8], p: usize) -> (r: Option<(i64, usize)>)
    ensures
        match r {
            Some((v, e)) => parse_int(b@, p as int) == Some((v, e as int)),
            None => parse_int(b@, p as int) is None,
        },
{
    match read_head(b, p) {
        Some((m, a, q)) => {
            if m == 0 && a <= i64::MAX as u64 {
                Some((a as i64, q))
            } else if m == 1 && a <= i64::MAX as u64 {
                Some((-1 - a as i64, q))
            } else {
                None
            }
        },
        None => None,
    }
}

/// Reads an unsigned integer item that fits a `u8`.
fn read_small(b: &[u8], p: usize) -> (r: Option<(u8, usize)>)
    ensures
        match r {
            Some((v, e)) => parse_small(b@, p as int) == Some((v, e as int)),
            None => parse_small(b@, p as int) is None,
        },
{
    match read_head(b, p) {
        Some((m, a, q)) => {
            if m == 0 && a <= 255 {
                Some((a as u8, q))
            } else {
                None
            }
        },
        None => None,
    }
}

/// Reads the `image` entry when the map announced six entries.
fn read_image(b: &[u8], p: usize, present: bool) -> (r: Option<(Option<ClipImage>, usize)>)
    ensures
        match r {
            Some((img, e)) => parse_image(b@, p as int, present) == Some(
                (image_view(img), e as int),
            ),
            None => parse_image(b@, p as int, present) is None,
        },
{
    if !present {
        return Some((None, p));
    }
    let p1 = match match_key(b, p, FieldKey::Image) {
        Some(q) => q,
        None => return None,
    };
    let mut lit: Vec<u8> = Vec::new();
    push_head(&mut lit, 5, 2);
    assert(lit@ =~= head(5, 2));
    let p2 = match match_literal(b, p1, lit.as_slice()) {
        Some(q) => q,
        None => return None,
    };
    let p3 = match match_key(b, p2, FieldKey::Bytes) {
        Some(q) => q,
        None => return None,
    };
    let (bytes, p4) = match read_bytes(b, p3) {
        Some(x) => x,
        None => return None,
    };
    let p5 = match match_key(b, p4, FieldKey::Mime) {
        Some(q) => q,
        None => return None,
    };
    let (mime, p6) = match read_text(b, p5) {
        Some(x) => x,
        None => return None,
    };
    Some((Some(ClipImage { bytes, mime }), p6))
}

/// Reads the entries after `image`, which must end exactly at the end of `b`.
fn read_tail(b: &[u8], p: usize) -> (r: Option<(u8, Vec<u8>, String)>)
    ensures
        match r {
            Some((sv, sender, text)) => parse_tail(b@, p as int) == Some((sv, sender@, text@)),
            None => parse_tail(b@, p as int) is None,
        },
{
    let p1 = match match_key(b, p, FieldKey::SchemaVersion) {
        Some(q) => q,
        None => return None,
    };
    let (sv, p2) = match read_small(b, p1) {
        Some(x) => x,
        None => return None,
    };
    let p3 = match match_key(b, p2, FieldKey::SenderEphemeralId) {
        Some(q) => q,
        None => return None,
    };
    let (sender, p4) = match read_bytes(b, p3) {
        Some(x) => x,
        None => return None,
    };
    let p5 = match match_key(b, p4, FieldKey::Text) {
        Some(q) => q,
        None => return None,
    };
    let (text, p6) = match read_text(b, p5) {
        Some(x) => x,
        None => return None,
    };
    if p6 == b.len() {
        Some((sv, sender, text))
    } else {
        None
    }
}

/// A decoded Clip map before the 16-byte checks on the ids.
struct DecodedWire {
    created_at: i64,
    id: Vec<u8>,
    image: Option<ClipImage>,
    schema_version: u8,
    sender_ephemeral_id: Vec<u8>,
    text: String,
}

impl View for DecodedWire {
    type V = WireClip;

    closed spec fn view(&self) -> WireClip {
        WireClip {
            created_at: self.created_at,
            id: self.id@,
            image: image_view(self.image),
            schema_version: self.schema_version,
            sender_ephemeral_id: self.sender_ephemeral_id@,
            text: self.text@,
        }
    }
}

/// Reads a whole Clip map.
fn read_wire(b: &[u8]) -> (r: Option<DecodedWire>)
    ensures
        match r {
            Some(w) => parse_wire(b@) == Some(w@),
            None => parse_wire(b@) is None,
        },
{
    let (m, n, p0) = match read_head(b, 0) {
        Some(x) => x,
        None => return None,
    };
    if !(m == 5 && (n == 5 || n == 6)) {
        return None;
    }
    let p1 = match match_key(b, p0, FieldKey::CreatedAt) {
        Some(q) => q,
        None => return None,
    };
    let (created_at, p2) = match read_int(b, p1) {
        Some(x) => x,
        None => return None,
    };
    let p3 = match match_key(b, p2, FieldKey::Id) {
        Some(q) => q,
        None => return None,
    };
    let (id, p4) = match read_bytes(b, p3) {
        Some(x) => x,
        None => return None,
    };
    let (image, p5) = match read_image(b, p4, n == 6) {
        Some(x) => x,
        None => return None,
    };
    let (schema_version, sender_ephemeral_id, text) = match read_tail(b, p5) {
        Some(x) => x,
        None => return None,
    };
    Some(DecodedWire { created_at, id, image, schema_version, sender_ephemeral_id, text })
}

/// The outcome of decoding `b`: the Clip whose canonical encoding `b` is,
/// a schema error for any other `schema_version`, and a CBOR error for
/// anything else (including ids that are not 16 bytes long).
pub open spec fn decode_outcome(b: Seq<u8>) -> Result<WireClip, ErrorKind> {
    match parse_wire(b) {
        None => Err(ErrorKind::Cbor),
        Some(w) => if w.schema_version != 1 {
            Err(ErrorKind::Schema(w.schema_version))
        } else if w.id.len() != 16 || w.sender_ephemeral_id.len() != 16 {
            Err(ErrorKind::Cbor)
        } else {
            Ok(w)
        },
    }
}

/// Copies 16 bytes into an array.
fn to_array16(v: &Vec<u8>) -> (r: [u8; 16])
    requires
        v@.len() == 16,
    ensures
        r@ == v@,
{
    let mut a = [0u8; 16];
    let mut i: usize = 0;
    while i < 16
        invariant
            v@.len() == 16,
            i <= 16,
            forall|j: int| 0 <= j < i ==> a@[j] == v@[j],
        decreases 16 - i,
    {
        a[i] = v[i];
        i = i + 1;
    }
    assert(a@ =~= v@);
    a
}

/// The message for an id that is not 16 bytes long.
fn length_message(len: usize) -> (r: String)
    ensures
        r@ == "expected 16 bytes, got "@ + crate::text::decimal(len as nat),
{
    let mut s = "expected 16 bytes, got ".to_owned();
    crate::text::push_decimal(&mut s, len as u64);
    s
}

/// Decodes Clip plaintext from its canonical CBOR encoding.
pub fn decode_clip_cbor(bytes: &[u8]) -> (r: Result<TextClip, EnvelopeError>)
    ensures
        clip_result_view(r) == decode_outcome(bytes@),
{
    let w = match read_wire(bytes) {
        Some(w) => w,
        None => return Err(EnvelopeError::Cbor(String::from_str("malformed Clip CBOR"))),
    };
    if w.schema_version != 1 {
        return Err(EnvelopeError::Schema(w.schema_version));
    }
    if w.id.len() != 16 {
        return Err(EnvelopeError::Cbor(length_message(w.id.len())));
    }
    if w.sender_ephemeral_id.len() != 16 {
        return Err(EnvelopeError::Cbor(length_message(w.sender_ephemeral_id.len())));
    }
    let id = to_array16(&w.id);
    let sender_ephemeral_id = to_array16(&w.sender_ephemeral_id);
    Ok(
        TextClip {
            created_at: w.created_at,
            id,
            image: w.image,
            schema_version: w.schema_version,
            sender_ephemeral_id,
            text: w.text,
        },
    )
}

/// A Clip with `schema_version` 1 and 16-byte ids decodes from its canonical
/// encoding to itself.
pub proof fn lemma_clip_cbor_roundtrip(w: WireClip)
    requires
        wire_fits(w),
        w.schema_version == 1,
        w.id.len() == 16,
        w.sender_ephemeral_id.len() == 16,
    ensures
        decode_outcome(encode_wire(w)) == Ok::<WireClip, ErrorKind>(w),
{
    lemma_parse_encode_wire(w);
}

/// Decoding succeeds only on the canonical encoding of the Clip it returns.
pub proof fn lemma_clip_cbor_canonical(b: Seq<u8>)
    requires
        decode_outcome(b) is Ok,
    ensures
        encode_wire(decode_outcome(b)->Ok_0) == b,
{
    lemma_encode_parse_wire(b);
}

/// An encoding that fits in memory has every length within a CBOR argument.
pub proof fn lemma_encoded_fits(w: WireClip)
    requires
        encode_wire(w).len() <= u64::MAX,
    ensures
        wire_fits(w),
{
    let b = encode_wire(w);
    let h = head(5, if w.image is Some { 6 } else { 5 });
    let k1 = key_item(FieldKey::CreatedAt);
    let ic = int_item(w.created_at);
    let k2 = key_item(FieldKey::Id);
    let si = string_item(2, w.id);
    let ip = image_part(w.image);
    let tp = tail_part(w.schema_version, w.sender_ephemeral_id, w.text);
    assert(b.len() == h.len() + k1.len() + ic.len() + k2.len() + si.len() + ip.len() + tp.len());
    assert(si.len() >= w.id.len());
    let k3 = key_item(FieldKey::SchemaVersion);
    let hs = head(0, w.schema_version as u64);
    let k4 = key_item(FieldKey::SenderEphemeralId);
    let ss = string_item(2, w.sender_ephemeral_id);
    let k5 = key_item(FieldKey::Text);
    let tt = text_item(w.text);
    assert(tp.len() == k3.len() + hs.len() + k4.len() + ss.len() + k5.len() + tt.len());
    assert(ss.len() >= w.sender_ephemeral_id.len());
    assert(tt.len() >= encode_utf8(w.text).len());
    match w.image {
        Some((bytes, mime)) => {
            let sb = string_item(2, bytes);
            let tm = text_item(mime);
            assert(ip.len() == key_item(FieldKey::Image).len() + head(5, 2).len() + key_item(
                FieldKey::Bytes,
            ).len() + sb.len() + key_item(FieldKey::Mime).len() + tm.len());
            assert(sb.len() >= bytes.len());
            assert(tm.len() >= encode_utf8(mime).len());
        },
        None => {},
    }
}

} // verus!
