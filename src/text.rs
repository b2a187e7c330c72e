//! Text as the graphics driver takes and gives it: NUL-terminated strings in, and
//! log buffers out.

use vstd::prelude::*;
use vstd::string::StringSliceAdditionalSpecFns;
use vstd::utf8::{decode_utf8, valid_utf8};

verus! {

/// The bytes that a C string holding `text` carries: the text followed by one NUL.
pub open spec fn nul_terminated(text: Seq<u8>) -> Seq<u8> {
    text.push(0u8)
}

/// True when some byte of `b` is NUL.
pub open spec fn has_nul(b: Seq<u8>) -> bool {
    exists|i: int| 0 <= i < b.len() && b[i] == 0u8
}

/// The number of bytes in front of the first NUL of `b` (all of them, if there is none).
pub open spec fn nul_index(b: Seq<u8>) -> nat
    decreases b.len(),
{
    if b.len() == 0 {
        0
    } else if b[0] == 0u8 {
        0
    } else {
        1 + nul_index(b.drop_first())
    }
}

/// The text that a log buffer filled by the driver holds: what stands before its first NUL.
pub open spec fn log_text(buf: Seq<u8>) -> Seq<u8> {
    buf.take(nul_index(buf) as int)
}

proof fn lemma_nul_index(b: Seq<u8>, k: int)
    requires
        0 <= k <= b.len(),
        forall|j: int| 0 <= j < k ==> b[j] != 0u8,
        k == b.len() || b[k] == 0u8,
    ensures
        nul_index(b) == k,
    decreases b.len(),
{
    if b.len() > 0 && b[0] != 0u8 {
        let rest = b.drop_first();
        assert forall|j: int| 0 <= j < k - 1 implies rest[j] != 0u8 by {
            assert(rest[j] == b[j + 1]);
        }
        if k < b.len() {
            assert(rest[k - 1] == b[k]);
        }
        lemma_nul_index(rest, k - 1);
    }
}

/// The bytes of `text` as a C string takes them, or `None` where `text` holds a NUL
/// and so cannot be handed to the driver whole.
pub fn c_string(text: &str) -> (r: Option<Vec<u8>>)
    ensures
        r is None <==> has_nul(text.spec_bytes()),
        r matches Some(v) ==> v@ == nul_terminated(text.spec_bytes()),
{
    let bytes = text.as_bytes();
    let mut out: Vec<u8> = Vec::new();
    let mut i: usize = 0;
    while i < bytes.len()
        invariant
            bytes@ == text.spec_bytes(),
            i <= bytes@.len(),
            out@ == bytes@.take(i as int),
            forall|j: int| 0 <= j < i ==> bytes@[j] != 0u8,
        decreases bytes@.len() - i,
    {
        if bytes[i] == 0u8 {
            return None;
        }
        out.push(bytes[i]);
        i = i + 1;
        assert(out@ =~= bytes@.take(i as int));
    }
    assert(bytes@.take(i as int) =~= bytes@);
    out.push(0u8);
    Some(out)
}

/// The text in front of the first NUL of a log buffer that the driver filled.
pub fn log_bytes(buf: &Vec<u8>) -> (r: Vec<u8>)
    ensures
        r@ == log_text(buf@),
{
    let mut out: Vec<u8> = Vec::new();
    let mut i: usize = 0;
    while i < buf.len() && buf[i] != 0u8
        invariant
            i <= buf@.len(),
            out@ == buf@.take(i as int),
            forall|j: int| 0 <= j < i ==> buf@[j] != 0u8,
        decreases buf@.len() - i,
    {
        out.push(buf[i]);
        i = i + 1;
        assert(out@ =~= buf@.take(i as int));
    }
    proof {
        lemma_nul_index(buf@, i as int);
    }
    out
}

/// Relies on `String::from_utf8`: it succeeds exactly on valid UTF-8 and then holds
/// the characters that the bytes encode.
#[verifier::external_body]
fn decode_utf8_bytes(bytes: Vec<u8>) -> (r: Option<String>)
    ensures
        r is Some <==> valid_utf8(bytes@),
        r matches Some(s) ==> s@ == decode_utf8(bytes@),
{
    String::from_utf8(bytes).ok()
}

/// The text of a log buffer that the driver filled, or `None` where that text is not UTF-8.
pub fn log_string(buf: &Vec<u8>) -> (r: Option<String>)
    ensures
        r is Some <==> valid_utf8(log_text(buf@)),
        r matches Some(s) ==> s@ == decode_utf8(log_text(buf@)),
{
    decode_utf8_bytes(log_bytes(buf))
}

/// The capacity of the buffer to ask a log into, from the length that the driver reported
/// (a length below zero asks for none).
pub fn log_capacity(reported: i32) -> (r: usize)
    ensures
        r == (if reported > 0 { reported as int } else { 0 }),
{
    if reported > 0 {
        reported as usize
    } else {
        0
    }
}

} // verus!
