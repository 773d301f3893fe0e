//! Byte-level primitives of the wire format: network-byte-order (big-endian)
//! integers and length-prefixed text fields, with exact specifications.
use vstd::prelude::*;

verus! {

use vstd::slice::{slice_index_get, slice_subrange, slice_to_vec};
use vstd::string::StrSliceExecFns;
use vstd::utf8::{decode_utf8, encode_utf8, encode_utf8_decode_utf8, encode_utf8_valid_utf8,
    valid_utf8};

/// The big-endian byte rendering of a 32-bit unsigned integer.
pub open spec fn be_bytes_u32(x: u32) -> Seq<u8> {
    seq![
        ((x >> 24) & 0xff) as u8,
        ((x >> 16) & 0xff) as u8,
        ((x >> 8) & 0xff) as u8,
        (x & 0xff) as u8,
    ]
}

/// The big-endian byte rendering of a 64-bit unsigned integer.
pub open spec fn be_bytes_u64(x: u64) -> Seq<u8> {
    seq![
        ((x >> 56) & 0xff) as u8,
        ((x >> 48) & 0xff) as u8,
        ((x >> 40) & 0xff) as u8,
        ((x >> 32) & 0xff) as u8,
        ((x >> 24) & 0xff) as u8,
        ((x >> 16) & 0xff) as u8,
        ((x >> 8) & 0xff) as u8,
        (x & 0xff) as u8,
    ]
}

/// The 32-bit value held big-endian in the four bytes of `b` starting at `i`.
pub open spec fn u32_at(b: Seq<u8>, i: int) -> u32
    recommends
        0 <= i,
        i + 4 <= b.len(),
{
    ((b[i] as u32) << 24) | ((b[i + 1] as u32) << 16) | ((b[i + 2] as u32) << 8) | (b[i
        + 3] as u32)
}

/// The 64-bit value held big-endian in the eight bytes of `b` starting at `i`.
pub open spec fn u64_at(b: Seq<u8>, i: int) -> u64
    recommends
        0 <= i,
        i + 8 <= b.len(),
{
    ((b[i] as u64) << 56) | ((b[i + 1] as u64) << 48) | ((b[i + 2] as u64) << 40) | ((b[i
        + 3] as u64) << 32) | ((b[i + 4] as u64) << 24) | ((b[i + 5] as u64) << 16) | ((b[i
        + 6] as u64) << 8) | (b[i + 7] as u64)
}

/// True when `p` occurs in `b` as the bytes starting at position `i`.
pub open spec fn bytes_at(b: Seq<u8>, i: int, p: Seq<u8>) -> bool {
    0 <= i && i + p.len() <= b.len() && b.subrange(i, i + p.len()) == p
}

/// A prefix pair found at `i` splits into the first part at `i` and the second
/// part right after it.
pub proof fn lemma_bytes_at_concat(b: Seq<u8>, i: int, p: Seq<u8>, q: Seq<u8>)
    requires
        bytes_at(b, i, p + q),
    ensures
        bytes_at(b, i, p),
        bytes_at(b, i + p.len(), q),
{
    let n = p.len() as int;
    let m = q.len() as int;
    let pq = p + q;
    assert(forall|k: int| 0 <= k < n + m ==> b[i + k] == #[trigger] pq[k]) by {
        assert(forall|k: int|
            0 <= k < n + m ==> b[i + k] == #[trigger] b.subrange(i, i + n + m)[k]);
    }
    assert(b.subrange(i, i + n) =~= p) by {
        assert(forall|k: int| 0 <= k < n ==> #[trigger] pq[k] == p[k]);
    }
    assert(b.subrange(i + n, i + n + m) =~= q) by {
        assert(forall|k: int| 0 <= k < m ==> #[trigger] q[k] == pq[n + k]);
    }
}

proof fn lemma_be32_recompose(x: u32)
    by (bit_vector)
    ensures
        (((((x >> 24) & 0xff) as u8) as u32) << 24) | (((((x >> 16) & 0xff) as u8) as u32) << 16)
            | (((((x >> 8) & 0xff) as u8) as u32) << 8) | ((((x & 0xff) as u8) as u32)) == x,
{
}

proof fn lemma_be64_recompose(x: u64)
    by (bit_vector)
    ensures
        (((((x >> 56) & 0xff) as u8) as u64) << 56) | (((((x >> 48) & 0xff) as u8) as u64) << 48)
            | (((((x >> 40) & 0xff) as u8) as u64) << 40) | (((((x >> 32) & 0xff) as u8) as u64)
            << 32) | (((((x >> 24) & 0xff) as u8) as u64) << 24) | (((((x >> 16)
            & 0xff) as u8) as u64) << 16) | (((((x >> 8) & 0xff) as u8) as u64) << 8) | ((((x
            & 0xff) as u8) as u64)) == x,
{
}

/// Reading four bytes that render `x` big-endian yields `x` again.
pub proof fn lemma_u32_at_be_bytes(b: Seq<u8>, i: int, x: u32)
    requires
        bytes_at(b, i, be_bytes_u32(x)),
    ensures
        u32_at(b, i) == x,
{
    assert(b[i] == be_bytes_u32(x)[0] && b[i + 1] == be_bytes_u32(x)[1] && b[i + 2] == be_bytes_u32(
        x,
    )[2] && b[i + 3] == be_bytes_u32(x)[3]) by {
        assert(forall|k: int|
            0 <= k < 4 ==> b.subrange(i, i + 4)[k] == #[trigger] b[i + k]);
    }
    lemma_be32_recompose(x);
}

/// Reading eight bytes that render `x` big-endian yields `x` again.
pub proof fn lemma_u64_at_be_bytes(b: Seq<u8>, i: int, x: u64)
    requires
        bytes_at(b, i, be_bytes_u64(x)),
    ensures
        u64_at(b, i) == x,
{
    assert(forall|k: int| 0 <= k < 8 ==> b.subrange(i, i + 8)[k] == #[trigger] b[i + k]);
    assert(b[i] == be_bytes_u64(x)[0]);
    assert(b[i + 1] == be_bytes_u64(x)[1]);
    assert(b[i + 2] == be_bytes_u64(x)[2]);
    assert(b[i + 3] == be_bytes_u64(x)[3]);
    assert(b[i + 4] == be_bytes_u64(x)[4]);
    assert(b[i + 5] == be_bytes_u64(x)[5]);
    assert(b[i + 6] == be_bytes_u64(x)[6]);
    assert(b[i + 7] == be_bytes_u64(x)[7]);
    lemma_be64_recompose(x);
}

/// Appends the big-endian rendering of `x` to `out`.
pub fn append_u32_be(out: &mut Vec<u8>, x: u32)
    ensures
        final(out)@ == old(out)@ + be_bytes_u32(x),
{
    out.push(((x >> 24) & 0xff) as u8);
    out.push(((x >> 16) & 0xff) as u8);
    out.push(((x >> 8) & 0xff) as u8);
    out.push((x & 0xff) as u8);
    proof {
        assert(out@ =~= old(out)@ + be_bytes_u32(x));
    }
}

/// Appends the big-endian rendering of `x` to `out`.
pub fn append_u64_be(out: &mut Vec<u8>, x: u64)
    ensures
        final(out)@ == old(out)@ + be_bytes_u64(x),
{
    out.push(((x >> 56) & 0xff) as u8);
    out.push(((x >> 48) & 0xff) as u8);
    out.push(((x >> 40) & 0xff) as u8);
    out.push(((x >> 32) & 0xff) as u8);
    out.push(((x >> 24) & 0xff) as u8);
    out.push(((x >> 16) & 0xff) as u8);
    out.push(((x >> 8) & 0xff) as u8);
    out.push((x & 0xff) as u8);
    proof {
        assert(out@ =~= old(out)@ + be_bytes_u64(x));
    }
}

/// Reads the big-endian 32-bit value at `i`, with the position after it;
/// `None` when fewer than four bytes remain.
pub fn read_u32_at(buf: &[u8], i: usize) -> (r: Option<(u32, usize)>)
    ensures
        i + 4 <= buf@.len() ==> (r matches Some(p) && p.0 == u32_at(buf@, i as int) && p.1 == i
            + 4),
        i + 4 > buf@.len() ==> r is None,
{
    if buf.len() >= 4 && i <= buf.len() - 4 {
        let b0 = *slice_index_get(buf, i);
        let b1 = *slice_index_get(buf, i + 1);
        let b2 = *slice_index_get(buf, i + 2);
        let b3 = *slice_index_get(buf, i + 3);
        let v = ((b0 as u32) << 24) | ((b1 as u32) << 16) | ((b2 as u32) << 8) | (b3 as u32);
        Some((v, i + 4))
    } else {
        None
    }
}

/// Reads the big-endian 64-bit value at `i`, with the position after it;
/// `None` when fewer than eight bytes remain.
pub fn read_u64_at(buf: &[u8], i: usize) -> (r: Option<(u64, usize)>)
    ensures
        i + 8 <= buf@.len() ==> (r matches Some(p) && p.0 == u64_at(buf@, i as int) && p.1 == i
            + 8),
        i + 8 > buf@.len() ==> r is None,
{
    if buf.len() >= 8 && i <= buf.len() - 8 {
        let b0 = *slice_index_get(buf, i);
        let b1 = *slice_index_get(buf, i + 1);
        let b2 = *slice_index_get(buf, i + 2);
        let b3 = *slice_index_get(buf, i + 3);
        let b4 = *slice_index_get(buf, i + 4);
        let b5 = *slice_index_get(buf, i + 5);
        let b6 = *slice_index_get(buf, i + 6);
        let b7 = *slice_index_get(buf, i + 7);
        let v = ((b0 as u64) << 56) | ((b1 as u64) << 48) | ((b2 as u64) << 40) | ((b3 as u64)
            << 32) | ((b4 as u64) << 24) | ((b5 as u64) << 16) | ((b6 as u64) << 8) | (b7 as u64);
        Some((v, i + 8))
    } else {
        None
    }
}

/// What the wire text decoder yields for arbitrary field bytes that are not
/// valid UTF-8: a deterministic replacement-character rendering of the bytes.
pub uninterp spec fn lossy_decode(bytes: Seq<u8>) -> Seq<char>;

/// The characters decoded from a text field's bytes: valid UTF-8 decodes to
/// exactly its characters, anything else through lossy replacement.
pub open spec fn decoded_text(bytes: Seq<u8>) -> Seq<char> {
    if valid_utf8(bytes) {
        decode_utf8(bytes)
    } else {
        lossy_decode(bytes)
    }
}

/// Relies on `String::from_utf8_lossy`: a byte sequence that is valid UTF-8
/// decodes to exactly its characters, and any other byte sequence is turned
/// into characters by replacing invalid sequences, a function of the bytes
/// alone, named `lossy_decode` here.
#[verifier::external_body]
fn bytes_to_string(bytes: Vec<u8>) -> (r: String)
    ensures
        r@ == decoded_text(bytes@),
        !valid_utf8(bytes@) ==> r@ == lossy_decode(bytes@),
{
    String::from_utf8_lossy(&bytes).into_owned()
}

/// True when a text field holding `s` can be framed: its byte length fits the
/// four-byte length prefix.
pub open spec fn text_fits(s: Seq<char>) -> bool {
    encode_utf8(s).len() <= u32::MAX
}

/// The framing of one text field: the byte length as four big-endian bytes,
/// then the UTF-8 bytes themselves.
pub open spec fn text_encoded(s: Seq<char>) -> Seq<u8> {
    be_bytes_u32(encode_utf8(s).len() as u32) + encode_utf8(s)
}

/// The text field parsed at position `i` of `b`, with the position after it;
/// `None` when the length prefix or the field bytes run past the end.
pub open spec fn text_at(b: Seq<u8>, i: int) -> Option<(Seq<char>, int)> {
    if i < 0 || i + 4 > b.len() {
        None
    } else {
        let n = u32_at(b, i) as int;
        if i + 4 + n > b.len() {
            None
        } else {
            Some((decoded_text(b.subrange(i + 4, i + 4 + n)), i + 4 + n))
        }
    }
}

/// Appends the framing of the text field `s` to `out`.
pub fn append_text(out: &mut Vec<u8>, s: &str)
    requires
        text_fits(s@),
    ensures
        final(out)@ == old(out)@ + text_encoded(s@),
{
    let n = s.len();
    append_u32_be(out, n as u32);
    let mut bytes = s.as_bytes_vec();
    out.append(&mut bytes);
    proof {
        assert(out@ =~= old(out)@ + text_encoded(s@));
    }
}

/// Reads the text field at `i`, with the position after it; `None` exactly
/// where the field is truncated.
pub fn read_text_at(buf: &[u8], i: usize) -> (r: Option<(String, usize)>)
    ensures
        text_at(buf@, i as int) matches Some(q) ==> (r matches Some(p) && p.0@ == q.0 && p.1
            == q.1),
        text_at(buf@, i as int) is None ==> r is None,
{
    match read_u32_at(buf, i) {
        None => None,
        Some((n32, j)) => {
            let n = n32 as usize;
            if n <= buf.len() - j {
                let field = slice_subrange(buf, j, j + n);
                let text = bytes_to_string(slice_to_vec(field));
                Some((text, j + n))
            } else {
                None
            }
        },
    }
}

/// A text field framed at `i` parses back to exactly its characters.
pub proof fn lemma_text_at_encoded(b: Seq<u8>, i: int, s: Seq<char>)
    requires
        text_fits(s),
        bytes_at(b, i, text_encoded(s)),
    ensures
        text_at(b, i) == Some((s, i + 4 + encode_utf8(s).len())),
{
    let body = encode_utf8(s);
    let n32 = body.len() as u32;
    lemma_bytes_at_concat(b, i, be_bytes_u32(n32), body);
    lemma_u32_at_be_bytes(b, i, n32);
    assert(u32_at(b, i) as int == body.len());
    assert(b.subrange(i + 4, i + 4 + body.len()) =~= body);
    assert(valid_utf8(body)) by {
        encode_utf8_valid_utf8(s);
    }
    assert(decoded_text(body) == s) by {
        encode_utf8_decode_utf8(s);
    }
}

} // verus!
