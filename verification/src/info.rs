//! Reading the text that the engine writes into the info buffer.
//!
//! The engine fills a buffer of bytes handed to it with a text and ends the
//! text with a zero byte. What follows the zero byte is not part of the text.

use crate::error::{check, outcome, Error};
use vstd::prelude::*;
use vstd::slice::slice_subrange;
use vstd::utf8::{decode_utf8, encode_utf8, is_ascii_chars, valid_utf8};

verus! {

/// The length of the buffer that the engine is handed for its info text.
pub const INFO_CAPACITY: usize = 128;

/// The index of the first zero byte of `bytes`, or the length of `bytes` where
/// no byte is zero.
pub open spec fn first_nul(bytes: Seq<u8>) -> int
    decreases bytes.len(),
{
    if bytes.len() == 0 || bytes[0] == 0 {
        0
    } else {
        1 + first_nul(bytes.drop_first())
    }
}

/// The bytes of the text in a buffer: all that stands before the first zero
/// byte, or the whole buffer where no byte is zero.
pub open spec fn text_bytes(buffer: Seq<u8>) -> Seq<u8> {
    buffer.subrange(0, first_nul(buffer))
}

/// The characters that permissive UTF-8 decoding makes of `bytes`: each
/// well-formed sequence gives its character, and what is malformed gives
/// U+FFFD in its place.
pub uninterp spec fn utf8_lossy(bytes: Seq<u8>) -> Seq<char>;

/// The characters with the same numbers as the given bytes.
pub open spec fn bytes_as_chars(bytes: Seq<u8>) -> Seq<char> {
    Seq::new(bytes.len(), |i: int| bytes[i] as char)
}

/// `first_nul` is within the sequence, no byte before it is zero, and the
/// byte at it, if there is one, is zero.
pub proof fn lemma_first_nul_bounds(bytes: Seq<u8>)
    ensures
        0 <= first_nul(bytes) <= bytes.len(),
        forall|i: int| 0 <= i < first_nul(bytes) ==> bytes[i] != 0,
        first_nul(bytes) < bytes.len() ==> bytes[first_nul(bytes)] == 0,
    decreases bytes.len(),
{
    if bytes.len() == 0 || bytes[0] == 0 {
    } else {
        let rest = bytes.drop_first();
        lemma_first_nul_bounds(rest);
        assert forall|i: int| 0 <= i < first_nul(bytes) implies bytes[i] != 0 by {
            if i > 0 {
                assert(bytes[i] == rest[i - 1]);
            }
        }
        if first_nul(bytes) < bytes.len() {
            assert(bytes[first_nul(bytes)] == rest[first_nul(rest)]);
        }
    }
}

/// An index is `first_nul` as soon as no byte before it is zero and the byte
/// at it, if there is one, is zero.
pub proof fn lemma_first_nul_unique(bytes: Seq<u8>, n: int)
    requires
        0 <= n <= bytes.len(),
        forall|i: int| 0 <= i < n ==> bytes[i] != 0,
        n < bytes.len() ==> bytes[n] == 0,
    ensures
        first_nul(bytes) == n,
{
    lemma_first_nul_bounds(bytes);
    let m = first_nul(bytes);
    if m < n {
        assert(bytes[m] != 0);
    } else if n < m {
        assert(bytes[n] == 0);
    }
}

/// What follows the first zero byte has no part in the text: two buffers that
/// agree up to and including their first zero byte hold the same text.
pub proof fn lemma_text_ignores_tail(a: Seq<u8>, b: Seq<u8>)
    requires
        first_nul(a) < a.len(),
        first_nul(a) < b.len(),
        forall|i: int| 0 <= i <= first_nul(a) ==> a[i] == b[i],
    ensures
        text_bytes(a) == text_bytes(b),
{
    lemma_first_nul_bounds(a);
    lemma_first_nul_unique(b, first_nul(a));
    assert(text_bytes(a) =~= text_bytes(b));
}

/// Bytes below 128 are well-formed UTF-8 and decode to the characters with
/// the same numbers.
pub proof fn lemma_ascii_decodes_bytewise(bytes: Seq<u8>)
    requires
        forall|i: int| 0 <= i < bytes.len() ==> bytes[i] < 128,
    ensures
        valid_utf8(bytes),
        decode_utf8(bytes) == bytes_as_chars(bytes),
{
    let chars = bytes_as_chars(bytes);
    assert(is_ascii_chars(chars));
    vstd::utf8::is_ascii_chars_encode_utf8(chars);
    assert(encode_utf8(chars) =~= bytes) by {
        assert forall|i: int| 0 <= i < bytes.len() implies encode_utf8(chars)[i] == bytes[i] by {
            assert(chars[i] as u8 == encode_utf8(chars)[i]);
            assert(chars[i] == bytes[i] as char);
        }
    }
    vstd::utf8::encode_utf8_valid_utf8(chars);
    vstd::utf8::encode_utf8_decode_utf8(chars);
}

/// A buffer of [`INFO_CAPACITY`] zero bytes for the engine to write its text
/// into. As it stands it holds the empty text.
pub fn info_buffer() -> (buffer: Vec<u8>)
    ensures
        buffer@ == Seq::new(INFO_CAPACITY as nat, |i: int| 0u8),
        text_bytes(buffer@) == Seq::<u8>::empty(),
{
    let mut buffer: Vec<u8> = Vec::new();
    while buffer.len() < INFO_CAPACITY
        invariant
            buffer@.len() <= INFO_CAPACITY,
            forall|i: int| 0 <= i < buffer@.len() ==> buffer@[i] == 0,
        decreases INFO_CAPACITY - buffer@.len(),
    {
        buffer.push(0);
    }
    assert(buffer@ =~= Seq::new(INFO_CAPACITY as nat, |i: int| 0u8));
    assert(text_bytes(buffer@) =~= Seq::<u8>::empty());
    buffer
}

/// Finds the end of the text in a buffer.
pub fn nul_position(buffer: &[u8]) -> (n: usize)
    ensures
        n == first_nul(buffer@),
        n <= buffer@.len(),
        forall|i: int| 0 <= i < n ==> buffer@[i] != 0,
        n < buffer@.len() ==> buffer@[n as int] == 0,
{
    let mut n: usize = 0;
    while n < buffer.len() && buffer[n] != 0
        invariant
            n <= buffer@.len(),
            forall|i: int| 0 <= i < n ==> buffer@[i] != 0,
        decreases buffer@.len() - n,
    {
        n = n + 1;
    }
    proof {
        lemma_first_nul_unique(buffer@, n as int);
    }
    n
}

/// Permissive UTF-8 decoding by `String::from_utf8_lossy` of the standard
/// library.
///
/// Taken on trust: the result is a function of the bytes alone, named
/// [`utf8_lossy`], and for well-formed UTF-8 it is the text that the bytes
/// encode.
#[verifier::external_body]
fn decode_lossy(bytes: &[u8]) -> (text: String)
    ensures
        text@ == utf8_lossy(bytes@),
        valid_utf8(bytes@) ==> text@ == decode_utf8(bytes@),
{
    String::from_utf8_lossy(bytes).into_owned()
}

/// Reads the text out of a buffer that the engine has filled.
///
/// The text ends before the first zero byte. Bytes that are not well-formed
/// UTF-8 never make the call fail: they are replaced.
pub fn info_text(buffer: &[u8]) -> (text: String)
    ensures
        text@ == utf8_lossy(text_bytes(buffer@)),
        valid_utf8(text_bytes(buffer@)) ==> text@ == decode_utf8(text_bytes(buffer@)),
{
    let end = nul_position(buffer);
    decode_lossy(slice_subrange(buffer, 0, end))
}

/// Turns the reply to an info query into its result: the text of the buffer
/// where the engine reported success, and the error of its code where it did
/// not. After a failure the buffer is not read.
pub fn info_from_reply(code: i32, buffer: &[u8]) -> (r: Result<String, Error>)
    ensures
        match r {
            Ok(text) => {
                &&& code == 0
                &&& text@ == utf8_lossy(text_bytes(buffer@))
                &&& valid_utf8(text_bytes(buffer@)) ==> text@ == decode_utf8(text_bytes(buffer@))
            },
            Err(e) => outcome(code) == Err::<(), Error>(e),
        },
{
    match check(code) {
        Ok(()) => Ok(info_text(buffer)),
        Err(e) => Err(e),
    }
}

} // verus!
