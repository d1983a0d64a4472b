//! Byte strings on the wire: a length, the bytes, and zero padding up to the
//! next multiple of eight.

use crate::error::Error;
use crate::wire::{
    append, lemma_word, lemma_word_stable, parse_word, word, Encode, Parsed, Wire,
};
use serde_bytes::ByteBuf;
use vstd::prelude::*;
use vstd::slice::{slice_subrange, slice_to_vec};

verus! {

/// The byte buffer of `serde_bytes`, held by the string types of the protocol.
#[verifier::external_type_specification]
#[verifier::external_body]
pub struct ExByteBuf(serde_bytes::ByteBuf);

/// The bytes that a buffer holds, in order.
pub uninterp spec fn byte_buf_bytes(b: ByteBuf) -> Seq<u8>;

/// `ByteBuf::from` on a vector: the buffer takes the vector as its contents,
/// unchanged.
#[verifier::external_body]
pub(crate) fn byte_buf_from_vec(bytes: Vec<u8>) -> (b: ByteBuf)
    ensures
        byte_buf_bytes(b) == bytes@,
{
    ByteBuf::from(bytes)
}

/// `ByteBuf::as_ref`: a view of the buffer's contents as a slice.
#[verifier::external_body]
pub(crate) fn byte_buf_as_slice(b: &ByteBuf) -> (s: &[u8])
    ensures
        s@ == byte_buf_bytes(*b),
{
    b.as_ref()
}

/// `ByteBuf::into_vec`: hands out the vector that the buffer wraps.
#[verifier::external_body]
pub(crate) fn byte_buf_into_vec(b: ByteBuf) -> (bytes: Vec<u8>)
    ensures
        bytes@ == byte_buf_bytes(b),
{
    b.into_vec()
}

/// `ByteBuf::clone`: the copy holds the same bytes.
pub assume_specification[ <ByteBuf as Clone>::clone ](b: &ByteBuf) -> (copy: ByteBuf)
    ensures
        byte_buf_bytes(copy) == byte_buf_bytes(*b),
;

/// The longest byte string a reader accepts: 4 GiB.
pub const MAX_STRING_LEN: u64 = 0x1_0000_0000;

/// The number of pad bytes behind a string of `n` bytes.
pub open spec fn padding(n: nat) -> nat {
    ((8 - n % 8) % 8) as nat
}

/// `n` zero bytes.
pub open spec fn zeros(n: nat) -> Seq<u8> {
    Seq::new(n, |i: int| 0u8)
}

/// The bytes written for the string `s`.
pub open spec fn string_encoding(s: Seq<u8>) -> Seq<u8> {
    word(s.len() as u64) + s + zeros(padding(s.len()))
}

/// Reads a string off the front of `s`. What the pad bytes hold is not looked at.
pub open spec fn parse_string(s: Seq<u8>) -> Parsed<Seq<u8>> {
    match parse_word(s) {
        Err(e) => Err(e),
        Ok((len, _)) => if len > MAX_STRING_LEN {
            Err(Error::MessageTooLarge(len))
        } else if s.len() < 8 + len + padding(len as nat) {
            Err(Error::UnexpectedEof)
        } else {
            Ok((s.subrange(8, 8 + len), 8 + len as nat + padding(len as nat)))
        },
    }
}

/// A string of `n` bytes takes `8 + n + ((8 - n mod 8) mod 8)` bytes on the
/// wire, which is a multiple of eight.
pub proof fn lemma_string_encoding_len(s: Seq<u8>)
    ensures
        string_encoding(s).len() == 8 + s.len() + (8 - s.len() % 8) % 8,
        string_encoding(s).len() % 8 == 0,
{
    lemma_word(s.len() as u64);
}

/// The number of pad bytes behind a string of `len` bytes.
pub fn pad_len(len: u64) -> (pad: u64)
    ensures
        pad == padding(len as nat),
        pad < 8,
{
    (8 - len % 8) % 8
}

impl Encode for ByteBuf {
    type Model = Seq<u8>;

    open spec fn model(&self) -> Seq<u8> {
        byte_buf_bytes(*self)
    }

    open spec fn encoding(m: Seq<u8>) -> Seq<u8> {
        string_encoding(m)
    }

    proof fn lemma_encoding_aligned(m: Seq<u8>) {
        lemma_string_encoding_len(m);
    }

    fn encode(&self, out: &mut Vec<u8>) {
        let bytes = byte_buf_as_slice(self);
        let len: u64 = bytes.len() as u64;
        len.encode(out);
        append(out, bytes);
        let pad = pad_len(len);
        let mut i: u64 = 0;
        while i < pad
            invariant
                i <= pad,
                out@ == old(out)@ + word(len) + bytes@ + zeros(i as nat),
            decreases pad - i,
        {
            out.push(0u8);
            assert(zeros(i as nat).push(0u8) =~= zeros((i + 1) as nat));
            i = i + 1;
        }
        assert(out@ =~= old(out)@ + string_encoding(bytes@));
    }
}

impl Wire for ByteBuf {
    open spec fn encodable(m: Seq<u8>) -> bool {
        m.len() <= MAX_STRING_LEN
    }

    open spec fn parse(s: Seq<u8>) -> Parsed<Seq<u8>> {
        parse_string(s)
    }

    proof fn lemma_parse_within(s: Seq<u8>) {
    }

    proof fn lemma_parse_stable(s: Seq<u8>, more: Seq<u8>) {
        lemma_word_stable(s, more);
        if let Ok((value, n)) = parse_string(s) {
            let len = value.len();
            assert((s + more).subrange(8, 8 + len as int) =~= s.subrange(8, 8 + len as int));
        }
    }

    proof fn lemma_round_trip(m: Seq<u8>, rest: Seq<u8>) {
        let len = m.len() as u64;
        let input = string_encoding(m) + rest;
        lemma_word(len);
        assert(input.take(8) =~= word(len));
        assert(input.subrange(8, 8 + len) =~= m);
    }

    fn decode(buf: &[u8], pos: usize) -> (r: Result<(ByteBuf, usize), Error>) {
        let (len, start) = match u64::decode(buf, pos) {
            Err(e) => {
                return Err(e);
            },
            Ok(found) => found,
        };
        if len > MAX_STRING_LEN {
            return Err(Error::MessageTooLarge(len));
        }
        let need: u64 = len + pad_len(len);
        if ((buf.len() - start) as u64) < need {
            return Err(Error::UnexpectedEof);
        }
        let end: usize = start + len as usize;
        let bytes = slice_to_vec(slice_subrange(buf, start, end));
        assert(buf@.subrange(start as int, end as int) =~= buf@.skip(pos as int).subrange(
            8,
            8 + len,
        ));
        Ok((byte_buf_from_vec(bytes), start + need as usize))
    }
}

} // verus!
