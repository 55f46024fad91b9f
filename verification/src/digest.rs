//! Byte encodings: SHA-256 digests, lowercase hex and unpadded URL-safe
//! base64.
use vstd::prelude::*;
use sha2::{Digest, Sha256};

verus! {

/// The SHA-256 digest of a byte string (as computed by the `sha2` crate).
pub uninterp spec fn sha256_spec(data: Seq<u8>) -> Seq<u8>;

/// `Sha256::digest` of the `sha2` crate.  Claimed: the result is the
/// digest of exactly `data`, and a SHA-256 digest is 32 bytes long.
#[verifier::external_body]
fn sha256_digest(data: &[u8]) -> (r: Vec<u8>)
    ensures
        r@ == sha256_spec(data@),
        r@.len() == 32,
{
    Sha256::digest(data).to_vec()
}

/// The lowercase hex digit of a value below 16.
pub open spec fn hex_digit(d: nat) -> char {
    if d < 10 {
        (('0' as u32) + d) as char
    } else {
        (('a' as u32) + (d - 10)) as char
    }
}

/// Two lowercase hex digits per byte, high nibble first.
pub open spec fn hex_spec(bytes: Seq<u8>) -> Seq<char>
    decreases bytes.len(),
{
    if bytes.len() == 0 {
        Seq::empty()
    } else {
        let b = bytes.last();
        hex_spec(bytes.drop_last()) + seq![hex_digit((b / 16) as nat), hex_digit((b % 16) as nat)]
    }
}

/// Whether a character is a lowercase hex digit.
pub open spec fn is_lower_hex(c: char) -> bool {
    ('0' <= c && c <= '9') || ('a' <= c && c <= 'f')
}

/// Hex encoding doubles the length and uses only lowercase hex digits.
pub proof fn lemma_hex_shape(bytes: Seq<u8>)
    ensures
        hex_spec(bytes).len() == 2 * bytes.len(),
        forall|i: int| 0 <= i < hex_spec(bytes).len() ==> is_lower_hex(#[trigger] hex_spec(bytes)[i]),
    decreases bytes.len(),
{
    if bytes.len() > 0 {
        lemma_hex_shape(bytes.drop_last());
    }
}

/// The lowercase hex digit of a value below 16.
pub fn hex_char_of(d: u8) -> (c: char)
    requires
        d < 16,
    ensures
        c == hex_digit(d as nat),
{
    if d < 10 {
        char_of(0x30 + d as u32)
    } else {
        char_of(0x61 + (d as u32 - 10))
    }
}

/// Lowercase hex of a byte string.
pub fn hex_lower(bytes: &[u8]) -> (s: String)
    ensures
        s@ == hex_spec(bytes@),
{
    let mut s = String::new();
    let mut i: usize = 0;
    while i < bytes.len()
        invariant
            i <= bytes@.len(),
            s@ == hex_spec(bytes@.take(i as int)),
        decreases bytes.len() - i,
    {
        let b = bytes[i];
        crate::text::push_char(&mut s, hex_char_of(b / 16));
        crate::text::push_char(&mut s, hex_char_of(b % 16));
        assert(bytes@.take(i + 1).drop_last() == bytes@.take(i as int));
        i += 1;
    }
    assert(bytes@.take(bytes@.len() as int) == bytes@);
    s
}

/// The lowercase hex SHA-256 digest of a byte string: 64 hex digits.
pub fn sha256_hex(data: &[u8]) -> (s: String)
    ensures
        s@ == hex_spec(sha256_spec(data@)),
        s@.len() == 64,
        forall|i: int| 0 <= i < s@.len() ==> is_lower_hex(#[trigger] s@[i]),
{
    let d = sha256_digest(data);
    proof {
        lemma_hex_shape(d@);
    }
    hex_lower(d.as_slice())
}

/// The URL-safe base64 alphabet.
pub open spec fn b64_char(v: nat) -> char {
    if v < 26 {
        (('A' as u32) + v) as char
    } else if v < 52 {
        (('a' as u32) + (v - 26)) as char
    } else if v < 62 {
        (('0' as u32) + (v - 52)) as char
    } else if v == 62 {
        '-'
    } else {
        '_'
    }
}

/// Whether a character belongs to the URL-safe base64 alphabet.
pub open spec fn is_b64url_char(c: char) -> bool {
    ('A' <= c && c <= 'Z') || ('a' <= c && c <= 'z') || ('0' <= c && c <= '9') || c == '-' || c
        == '_'
}

/// The encoding of one group of one to three bytes: every 6 bits become
/// one character, and no padding is written.
pub open spec fn b64_group(g: Seq<u8>) -> Seq<char> {
    let b0 = g[0] as nat;
    let b1 = if g.len() > 1 { g[1] as nat } else { 0 };
    let b2 = if g.len() > 2 { g[2] as nat } else { 0 };
    let c0 = b64_char(b0 / 4);
    let c1 = b64_char((b0 % 4) * 16 + b1 / 16);
    let c2 = b64_char((b1 % 16) * 4 + b2 / 64);
    let c3 = b64_char(b2 % 64);
    if g.len() == 1 {
        seq![c0, c1]
    } else if g.len() == 2 {
        seq![c0, c1, c2]
    } else {
        seq![c0, c1, c2, c3]
    }
}

/// Unpadded URL-safe base64 of a byte string, three bytes at a time.
pub open spec fn b64url_spec(bytes: Seq<u8>) -> Seq<char>
    decreases bytes.len(),
{
    if bytes.len() == 0 {
        Seq::empty()
    } else if bytes.len() <= 3 {
        b64_group(bytes)
    } else {
        b64_group(bytes.take(3)) + b64url_spec(bytes.skip(3))
    }
}

proof fn lemma_b64_group_alphabet(g: Seq<u8>)
    requires
        1 <= g.len() <= 3,
    ensures
        forall|i: int| 0 <= i < b64_group(g).len() ==> is_b64url_char(#[trigger] b64_group(g)[i]),
        b64_group(g).len() == g.len() + 1,
{
    let b0 = g[0] as nat;
    let b1: nat = if g.len() > 1 { g[1] as nat } else { 0 };
    let b2: nat = if g.len() > 2 { g[2] as nat } else { 0 };
    assert((b0 % 4) * 16 + b1 / 16 < 64) by (nonlinear_arith)
        requires
            b1 < 256,
    ;
    assert((b1 % 16) * 4 + b2 / 64 < 64) by (nonlinear_arith)
        requires
            b2 < 256,
    ;
}

/// The encoding has only URL-safe characters and about 4/3 the length.
pub proof fn lemma_b64url_shape(bytes: Seq<u8>)
    ensures
        forall|i: int| 0 <= i < b64url_spec(bytes).len() ==> is_b64url_char(#[trigger] b64url_spec(bytes)[i]),
        b64url_spec(bytes).len() == bytes.len() + (bytes.len() + 2) / 3,
    decreases bytes.len(),
{
    if bytes.len() == 0 {
    } else if bytes.len() <= 3 {
        lemma_b64_group_alphabet(bytes);
    } else {
        lemma_b64_group_alphabet(bytes.take(3));
        lemma_b64url_shape(bytes.skip(3));
        let a = b64_group(bytes.take(3));
        let r = b64url_spec(bytes.skip(3));
        assert forall|i: int| 0 <= i < (a + r).len() implies is_b64url_char(#[trigger] (a + r)[i]) by {
            if i < a.len() {
                assert((a + r)[i] == a[i]);
            } else {
                assert((a + r)[i] == r[i - a.len()]);
            }
        }
    }
}

fn b64_char_exec(v: u32) -> (c: char)
    requires
        v < 64,
    ensures
        c == b64_char(v as nat),
{
    if v < 26 {
        char_of(0x41 + v)
    } else if v < 52 {
        char_of(0x61 + (v - 26))
    } else if v < 62 {
        char_of(0x30 + (v - 52))
    } else if v == 62 {
        '-'
    } else {
        '_'
    }
}

fn char_of(v: u32) -> (c: char)
    requires
        v < 128,
    ensures
        c == v as char,
{
    (v as u8) as char
}

fn push_b64_group(out: &mut String, bytes: &[u8], i: usize, n: usize)
    requires
        1 <= n <= 3,
        i + n <= bytes@.len(),
    ensures
        final(out)@ == old(out)@ + b64_group(bytes@.subrange(i as int, i + n)),
{
    let ghost g = bytes@.subrange(i as int, i + n);
    let b0 = bytes[i] as u32;
    let b1: u32 = if n > 1 { bytes[i + 1] as u32 } else { 0 };
    let b2: u32 = if n > 2 { bytes[i + 2] as u32 } else { 0 };
    assert((b0 % 4) * 16 + b1 / 16 < 64) by (nonlinear_arith)
        requires
            b1 < 256,
    ;
    assert((b1 % 16) * 4 + b2 / 64 < 64) by (nonlinear_arith)
        requires
            b2 < 256,
    ;
    crate::text::push_char(out, b64_char_exec(b0 / 4));
    crate::text::push_char(out, b64_char_exec((b0 % 4) * 16 + b1 / 16));
    if n >= 2 {
        crate::text::push_char(out, b64_char_exec((b1 % 16) * 4 + b2 / 64));
    }
    if n == 3 {
        crate::text::push_char(out, b64_char_exec(b2 % 64));
    }
    assert(final(out)@ =~= old(out)@ + b64_group(g)) by {
        assert(g[0] == bytes@[i as int]);
        if n > 1 {
            assert(g[1] == bytes@[i + 1]);
        }
        if n > 2 {
            assert(g[2] == bytes@[i + 2]);
        }
    }
}

/// Unpadded URL-safe base64 of a byte string.
pub fn base64_url_no_pad(bytes: &[u8]) -> (s: String)
    ensures
        s@ == b64url_spec(bytes@),
{
    let mut out = String::new();
    let mut i: usize = 0;
    assert(bytes@.skip(0) == bytes@);
    assert(out@ + b64url_spec(bytes@) =~= b64url_spec(bytes@));
    while i < bytes.len()
        invariant
            i <= bytes@.len(),
            out@ + b64url_spec(bytes@.skip(i as int)) == b64url_spec(bytes@),
        decreases bytes.len() - i,
    {
        let rest = bytes.len() - i;
        let n: usize = if rest >= 3 { 3 } else { rest };
        let ghost before = out@;
        let ghost tail = bytes@.skip(i as int);
        push_b64_group(&mut out, bytes, i, n);
        proof {
            if rest <= 3 {
                assert(bytes@.subrange(i as int, i + n) == tail);
                assert(bytes@.skip(i + n).len() == 0);
                assert(b64url_spec(bytes@.skip(i + n)) == Seq::<char>::empty());
                assert(out@ + b64url_spec(bytes@.skip(i + n)) == before + b64url_spec(tail));
            } else {
                assert(bytes@.subrange(i as int, i + n) == tail.take(3));
                assert(tail.skip(3) == bytes@.skip(i + n));
                assert(b64url_spec(tail) == b64_group(tail.take(3)) + b64url_spec(tail.skip(3)));
                assert(out@ + b64url_spec(bytes@.skip(i + n)) == before + b64url_spec(tail));
            }
        }
        i = i + n;
    }
    assert(bytes@.skip(i as int).len() == 0);
    assert(b64url_spec(bytes@.skip(i as int)) == Seq::<char>::empty());
    assert(out@ + Seq::<char>::empty() == out@);
    out
}

} // verus!
