//! The byte format of stored fields: integers, byte strings and text.
//!
//! Every field is written by an `enc_*` function and read back from the
//! front of a byte sequence by the matching `dec_*` function, which also
//! gives the bytes that follow the field.
use vstd::prelude::*;
use vstd::bytes::{spec_u64_from_le_bytes, spec_u64_to_le_bytes, u64_from_le_bytes, u64_to_le_bytes};
use vstd::bytes::lemma_auto_spec_u64_to_from_le_bytes;
use vstd::slice::slice_subrange;
use vstd::utf8::{decode_utf8, encode_utf8, valid_utf8};
use vstd::utf8::{encode_utf8_decode_utf8, encode_utf8_valid_utf8};

verus! {

/// A 64-bit integer: eight bytes, least significant first.
pub open spec fn enc_u64(x: u64) -> Seq<u8> {
    spec_u64_to_le_bytes(x)
}

pub open spec fn dec_u64(s: Seq<u8>) -> Option<(u64, Seq<u8>)> {
    if s.len() >= 8 {
        Some((spec_u64_from_le_bytes(s.subrange(0, 8)), s.skip(8)))
    } else {
        None
    }
}

/// A byte string: its length as an integer, then the bytes.
pub open spec fn enc_bytes(b: Seq<u8>) -> Seq<u8> {
    enc_u64(b.len() as u64) + b
}

pub open spec fn dec_bytes(s: Seq<u8>) -> Option<(Seq<u8>, Seq<u8>)> {
    match dec_u64(s) {
        Some((n, rest)) => if rest.len() >= n {
            Some((rest.take(n as int), rest.skip(n as int)))
        } else {
            None
        },
        None => None,
    }
}

/// Text: the byte string of its UTF-8 encoding.
pub open spec fn enc_text(t: Seq<char>) -> Seq<u8> {
    enc_bytes(encode_utf8(t))
}

pub open spec fn dec_text(s: Seq<u8>) -> Option<(Seq<char>, Seq<u8>)> {
    match dec_bytes(s) {
        Some((b, rest)) => if valid_utf8(b) {
            Some((decode_utf8(b), rest))
        } else {
            None
        },
        None => None,
    }
}

/// Concatenation of byte sequences is associative.
pub proof fn lemma_concat_assoc(a: Seq<u8>, b: Seq<u8>, c: Seq<u8>)
    ensures
        (a + b) + c == a + (b + c),
{
    assert((a + b) + c =~= a + (b + c));
}

/// An integer is read back from the front of what was written.
pub proof fn lemma_dec_u64(x: u64, rest: Seq<u8>)
    ensures
        dec_u64(enc_u64(x) + rest) == Some((x, rest)),
        enc_u64(x).len() == 8,
{
    lemma_auto_spec_u64_to_from_le_bytes();
    let s = enc_u64(x) + rest;
    assert(s.subrange(0, 8) =~= enc_u64(x));
    assert(s.skip(8) =~= rest);
}

/// A byte string is read back from the front of what was written.
pub proof fn lemma_dec_bytes(b: Seq<u8>, rest: Seq<u8>)
    requires
        b.len() <= u64::MAX,
    ensures
        dec_bytes(enc_bytes(b) + rest) == Some((b, rest)),
{
    let n = b.len() as u64;
    lemma_concat_assoc(enc_u64(n), b, rest);
    lemma_dec_u64(n, b + rest);
    assert((b + rest).take(n as int) =~= b);
    assert((b + rest).skip(n as int) =~= rest);
}

/// Text is read back from the front of what was written.
pub proof fn lemma_dec_text(t: Seq<char>, rest: Seq<u8>)
    requires
        encode_utf8(t).len() <= u64::MAX,
    ensures
        dec_text(enc_text(t) + rest) == Some((t, rest)),
{
    lemma_dec_bytes(encode_utf8(t), rest);
    encode_utf8_valid_utf8(t);
    encode_utf8_decode_utf8(t);
}

/// Appends an integer.
pub fn put_u64(out: &mut Vec<u8>, x: u64)
    ensures
        final(out)@ == old(out)@ + enc_u64(x),
{
    let piece = u64_to_le_bytes(x);
    out.extend_from_slice(piece.as_slice());
    assert(out@ =~= old(out)@ + enc_u64(x));
}

/// Appends a byte string.
pub fn put_bytes(out: &mut Vec<u8>, b: &Vec<u8>)
    ensures
        final(out)@ == old(out)@ + enc_bytes(b@),
{
    put_u64(out, b.len() as u64);
    let ghost mid = out@;
    out.extend_from_slice(b.as_slice());
    assert(out@ =~= mid + b@);
    proof {
        lemma_concat_assoc(old(out)@, enc_u64(b@.len() as u64), b@);
    }
}

/// Appends text.
pub fn put_text(out: &mut Vec<u8>, t: &String)
    ensures
        final(out)@ == old(out)@ + enc_text(t@),
        encode_utf8(t@).len() <= u64::MAX,
{
    let bytes = t.as_str().as_bytes();
    put_u64(out, bytes.len() as u64);
    let ghost mid = out@;
    out.extend_from_slice(bytes);
    assert(out@ =~= mid + bytes@);
    proof {
        lemma_concat_assoc(old(out)@, enc_u64(bytes@.len() as u64), bytes@);
    }
}

/// Reads an integer at `pos`; gives it with the position after it.
pub fn take_u64(buf: &Vec<u8>, pos: usize) -> (r: Option<(u64, usize)>)
    requires
        pos <= buf@.len(),
    ensures
        match dec_u64(buf@.skip(pos as int)) {
            Some((x, rest)) => r matches Some((got, end)) && got == x && end == pos + 8 && end
                <= buf@.len() && rest == buf@.skip(end as int),
            None => r is None,
        },
{
    if buf.len() - pos < 8 {
        return None;
    }
    let piece = slice_subrange(buf.as_slice(), pos, pos + 8);
    let x = u64_from_le_bytes(piece);
    proof {
        let s = buf@.skip(pos as int);
        assert(s.subrange(0, 8) =~= piece@);
        assert(s.skip(8) =~= buf@.skip(pos + 8));
    }
    Some((x, pos + 8))
}

/// Reads a byte string at `pos`; gives it with the position after it.
pub fn take_bytes(buf: &Vec<u8>, pos: usize) -> (r: Option<(Vec<u8>, usize)>)
    requires
        pos <= buf@.len(),
    ensures
        match dec_bytes(buf@.skip(pos as int)) {
            Some((b, rest)) => r matches Some((got, end)) && got@ == b && pos <= end <= buf@.len()
                && rest == buf@.skip(end as int),
            None => r is None,
        },
{
    let (n, p) = match take_u64(buf, pos) {
        Some(v) => v,
        None => { return None; },
    };
    let room: u64 = (buf.len() - p) as u64;
    if room < n {
        return None;
    }
    let len = n as usize;
    let piece = slice_subrange(buf.as_slice(), p, p + len);
    let mut b: Vec<u8> = Vec::new();
    b.extend_from_slice(piece);
    proof {
        let rest = buf@.skip(p as int);
        assert(b@ =~= rest.take(n as int));
        assert(rest.skip(n as int) =~= buf@.skip(p + len));
    }
    Some((b, p + len))
}

/// `String::from_utf8`: succeeds exactly on well-formed UTF-8 and then
/// gives the text that the bytes encode.
#[verifier::external_body]
fn text_from_utf8(bytes: Vec<u8>) -> (r: Option<String>)
    ensures
        r is Some <==> valid_utf8(bytes@),
        r is Some ==> r->0@ == decode_utf8(bytes@),
{
    match String::from_utf8(bytes) {
        Ok(s) => Some(s),
        Err(_) => None,
    }
}

/// Reads text at `pos`; gives it with the position after it.
pub fn take_text(buf: &Vec<u8>, pos: usize) -> (r: Option<(String, usize)>)
    requires
        pos <= buf@.len(),
    ensures
        match dec_text(buf@.skip(pos as int)) {
            Some((t, rest)) => r matches Some((got, end)) && got@ == t && pos <= end <= buf@.len()
                && rest == buf@.skip(end as int),
            None => r is None,
        },
{
    let (b, p) = match take_bytes(buf, pos) {
        Some(v) => v,
        None => { return None; },
    };
    match text_from_utf8(b) {
        Some(t) => Some((t, p)),
        None => None,
    }
}

} // verus!
