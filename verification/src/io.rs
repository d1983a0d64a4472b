//! The two halves of a connection as byte buffers. The caller moves bytes
//! between these buffers and the real stream; everything in between is decided
//! here, on bytes that are already in memory.

use crate::byte_string::{byte_buf_into_vec, string_encoding, parse_string};
use crate::error::Error;
use crate::wire::{append, bool_word, parse_word, word, Encode, Wire};
use serde_bytes::ByteBuf;
use vstd::prelude::*;
use vstd::slice::slice_subrange;

verus! {

/// Whether two byte slices hold the same bytes.
pub fn same_bytes(a: &[u8], b: &[u8]) -> (same: bool)
    ensures
        same == (a@ == b@),
{
    if a.len() != b.len() {
        return false;
    }
    let mut i: usize = 0;
    while i < a.len()
        invariant
            i <= a@.len(),
            a@.len() == b@.len(),
            a@.take(i as int) == b@.take(i as int),
        decreases a@.len() - i,
    {
        if a[i] != b[i] {
            return false;
        }
        assert(a@.take(i + 1) =~= a@.take(i as int).push(a@[i as int]));
        assert(b@.take(i + 1) =~= b@.take(i as int).push(b@[i as int]));
        i = i + 1;
    }
    assert(a@.take(i as int) =~= a@);
    assert(b@.take(i as int) =~= b@);
    true
}

/// The number of bytes that a value of type `T` takes at the front of `s`,
/// where one is there and those bytes are the ones a conforming writer would
/// have written for it.
pub open spec fn faithful<T: Wire>(s: Seq<u8>) -> Result<nat, Error> {
    match T::parse(s) {
        Err(e) => Err(e),
        Ok((m, n)) => if T::encoding(m) == s.take(n as int) {
            Ok(n)
        } else {
            Err(Error::CodecMismatch)
        },
    }
}

/// What a conforming writer writes for a value is read back as that value
/// and is written again as the same bytes: re-encoding what was decoded gives
/// back the input, byte for byte, whatever follows it.
pub proof fn lemma_conforming_is_faithful<T: Wire>(m: T::Model, rest: Seq<u8>)
    requires
        T::encodable(m),
    ensures
        faithful::<T>(T::encoding(m) + rest) == Ok::<nat, Error>(T::encoding(m).len()),
{
    T::lemma_round_trip(m, rest);
    assert((T::encoding(m) + rest).take(T::encoding(m).len() as int) =~= T::encoding(m));
}

/// The read half: the bytes that have arrived and have not been consumed yet.
pub struct NixStoreRead {
    inner: Vec<u8>,
    pos: usize,
    ended: bool,
}

impl NixStoreRead {
    /// The read position lies within the buffer. Every method keeps this.
    pub closed spec fn wf(&self) -> bool {
        self.pos <= self.inner@.len()
    }

    /// The bytes that have arrived and are still to be read.
    pub closed spec fn remaining(&self) -> Seq<u8> {
        self.inner@.skip(self.pos as int)
    }

    /// Whether the peer has closed its side, so that no more bytes will come.
    pub closed spec fn at_end(&self) -> bool {
        self.ended
    }

    /// The number of bytes that the buffer keeps in memory: those that are
    /// still to be read, and those that have been read and not forgotten
    /// yet. Reading leaves it as it is; only `feed` adds to it and only
    /// `compact` takes from it.
    pub closed spec fn held(&self) -> nat {
        self.inner@.len()
    }

    /// A read half with nothing in it, still open.
    pub fn new() -> (r: Self)
        ensures
            r.wf(),
            r.remaining() == Seq::<u8>::empty(),
            r.held() == 0,
            !r.at_end(),
    {
        let r = NixStoreRead { inner: Vec::new(), pos: 0, ended: false };
        assert(r.inner@.skip(0) =~= Seq::<u8>::empty());
        r
    }

    /// Takes in bytes that have arrived from the peer.
    pub fn feed(&mut self, bytes: &[u8])
        requires
            old(self).wf(),
        ensures
            final(self).wf(),
            final(self).remaining() == old(self).remaining() + bytes@,
            final(self).held() == old(self).held() + bytes@.len(),
            final(self).at_end() == old(self).at_end(),
    {
        append(&mut self.inner, bytes);
        assert(self.inner@.skip(self.pos as int) =~= old(self).inner@.skip(self.pos as int)
            + bytes@);
    }

    /// Records that the peer has closed its side.
    pub fn close(&mut self)
        requires
            old(self).wf(),
        ensures
            final(self).wf(),
            final(self).remaining() == old(self).remaining(),
            final(self).held() == old(self).held(),
            final(self).at_end(),
    {
        self.ended = true;
    }

    /// Whether the peer has closed its side.
    pub fn is_closed(&self) -> (b: bool)
        ensures
            b == self.at_end(),
    {
        self.ended
    }

    /// The number of bytes that are still to be read.
    pub fn available(&self) -> (n: usize)
        requires
            self.wf(),
        ensures
            n == self.remaining().len(),
    {
        self.inner.len() - self.pos
    }

    /// The number of bytes that the buffer keeps in memory, read or not.
    pub fn held_len(&self) -> (n: usize)
        requires
            self.wf(),
        ensures
            n == self.held(),
            self.remaining().len() <= n,
    {
        self.inner.len()
    }

    /// Forgets the bytes that have been read, so that the buffer keeps no
    /// more than what is still to be read. What remains is unchanged.
    pub fn compact(&mut self)
        requires
            old(self).wf(),
        ensures
            final(self).wf(),
            final(self).remaining() == old(self).remaining(),
            final(self).held() == old(self).remaining().len(),
            final(self).at_end() == old(self).at_end(),
    {
        let rest = self.inner.split_off(self.pos);
        assert(rest@ =~= old(self).remaining());
        self.inner = rest;
        self.pos = 0;
        assert(self.inner@.skip(0) =~= self.inner@);
    }

    /// Reads one value. On success the value's bytes are consumed; on failure
    /// nothing is, so the same read can be tried again when more has arrived.
    pub fn read<T: Wire>(&mut self) -> (r: Result<T, Error>)
        requires
            old(self).wf(),
        ensures
            final(self).wf(),
            final(self).at_end() == old(self).at_end(),
            final(self).held() == old(self).held(),
            match T::parse(old(self).remaining()) {
                Ok((m, n)) => r matches Ok(v) && v.model() == m && final(self).remaining() == old(
                    self,
                ).remaining().skip(n as int),
                Err(e) => r matches Err(e2) && e2 == e && final(self).remaining() == old(
                    self,
                ).remaining(),
            },
    {
        match T::decode(self.inner.as_slice(), self.pos) {
            Err(e) => Err(e),
            Ok((v, p)) => {
                assert(self.inner@.skip(self.pos as int).skip(p - self.pos) =~= self.inner@.skip(
                    p as int,
                ));
                self.pos = p;
                Ok(v)
            },
        }
    }

    /// Looks at the value at the front of what remains, without taking it.
    pub fn peek<T: Wire>(&self) -> (r: Result<T, Error>)
        requires
            self.wf(),
        ensures
            match T::parse(self.remaining()) {
                Ok((m, _)) => r matches Ok(v) && v.model() == m,
                Err(e) => r matches Err(e2) && e2 == e,
            },
    {
        match T::decode(self.inner.as_slice(), self.pos) {
            Err(e) => Err(e),
            Ok((v, _)) => Ok(v),
        }
    }

    /// Moves everything that remains to the end of `out`.
    pub fn drain(&mut self, out: &mut Vec<u8>)
        requires
            old(self).wf(),
        ensures
            final(self).wf(),
            final(self).at_end() == old(self).at_end(),
            final(self).held() == old(self).held(),
            final(out)@ == old(out)@ + old(self).remaining(),
            final(self).remaining() == Seq::<u8>::empty(),
    {
        let there = self.available();
        self.read_raw(there as u64, out);
        proof {
            let all = old(self).remaining();
            assert(all.take(all.len() as int) =~= all);
            assert(all.skip(all.len() as int) =~= Seq::<u8>::empty());
        }
    }

    /// Reads one word.
    pub fn read_u64(&mut self) -> (r: Result<u64, Error>)
        requires
            old(self).wf(),
        ensures
            final(self).wf(),
            final(self).at_end() == old(self).at_end(),
            final(self).held() == old(self).held(),
            match parse_word(old(self).remaining()) {
                Ok((n, k)) => r == Ok::<u64, Error>(n) && final(self).remaining() == old(
                    self,
                ).remaining().skip(8),
                Err(e) => r == Err::<u64, Error>(e) && final(self).remaining() == old(
                    self,
                ).remaining(),
            },
    {
        self.read::<u64>()
    }

    /// Reads one boolean: a word, where anything but zero counts as true.
    pub fn read_bool(&mut self) -> (r: Result<bool, Error>)
        requires
            old(self).wf(),
        ensures
            final(self).wf(),
            final(self).at_end() == old(self).at_end(),
            final(self).held() == old(self).held(),
            match parse_word(old(self).remaining()) {
                Ok((n, k)) => r == Ok::<bool, Error>(n != 0) && final(self).remaining() == old(
                    self,
                ).remaining().skip(8),
                Err(e) => r == Err::<bool, Error>(e) && final(self).remaining() == old(
                    self,
                ).remaining(),
            },
    {
        self.read::<bool>()
    }

    /// Reads one byte string and hands out its bytes, without the padding.
    pub fn read_string(&mut self) -> (r: Result<Vec<u8>, Error>)
        requires
            old(self).wf(),
        ensures
            final(self).wf(),
            final(self).at_end() == old(self).at_end(),
            final(self).held() == old(self).held(),
            match parse_string(old(self).remaining()) {
                Ok((s, n)) => r matches Ok(v) && v@ == s && final(self).remaining() == old(
                    self,
                ).remaining().skip(n as int),
                Err(e) => r matches Err(e2) && e2 == e && final(self).remaining() == old(
                    self,
                ).remaining(),
            },
    {
        match self.read::<ByteBuf>() {
            Ok(b) => Ok(byte_buf_into_vec(b)),
            Err(e) => Err(e),
        }
    }

    /// Moves up to `limit` bytes, as many as there are, from the front of what
    /// remains to the end of `out`, and says how many that were.
    pub fn read_raw(&mut self, limit: u64, out: &mut Vec<u8>) -> (taken: u64)
        requires
            old(self).wf(),
        ensures
            final(self).wf(),
            final(self).at_end() == old(self).at_end(),
            final(self).held() == old(self).held(),
            taken == if limit <= old(self).remaining().len() {
                limit as int
            } else {
                old(self).remaining().len() as int
            },
            final(out)@ == old(out)@ + old(self).remaining().take(taken as int),
            final(self).remaining() == old(self).remaining().skip(taken as int),
    {
        let there: usize = self.inner.len() - self.pos;
        let taken: usize = if limit <= there as u64 {
            limit as usize
        } else {
            there
        };
        let end: usize = self.pos + taken;
        append(out, slice_subrange(self.inner.as_slice(), self.pos, end));
        proof {
            assert(self.inner@.subrange(self.pos as int, end as int) =~= self.remaining().take(
                taken as int,
            ));
            assert(self.inner@.skip(end as int) =~= self.remaining().skip(taken as int));
        }
        self.pos = end;
        taken as u64
    }

    /// Reads one value and passes its bytes on to `forward` as they came, after
    /// checking that the value, written again, gives those same bytes. Where
    /// it does not, nothing is consumed or passed on.
    pub fn read_through<T: Wire>(&mut self, forward: &mut NixStoreWrite) -> (r: Result<T, Error>)
        requires
            old(self).wf(),
        ensures
            final(self).wf(),
            final(self).at_end() == old(self).at_end(),
            final(self).held() == old(self).held(),
            match faithful::<T>(old(self).remaining()) {
                Ok(n) => {
                    &&& r matches Ok(v) && T::parse(old(self).remaining()) == Ok::<
                        (T::Model, nat),
                        Error,
                    >((v.model(), n))
                    &&& final(self).remaining() == old(self).remaining().skip(n as int)
                    &&& final(forward)@ == old(forward)@ + old(self).remaining().take(n as int)
                },
                Err(e) => {
                    &&& r matches Err(e2) && e2 == e
                    &&& final(self).remaining() == old(self).remaining()
                    &&& final(forward)@ == old(forward)@
                },
            },
    {
        match T::decode(self.inner.as_slice(), self.pos) {
            Err(e) => Err(e),
            Ok((v, p)) => {
                let mut again: Vec<u8> = Vec::new();
                v.encode(&mut again);
                let seen = slice_subrange(self.inner.as_slice(), self.pos, p);
                assert(seen@ =~= self.remaining().take(p - self.pos));
                assert(again@ =~= T::encoding(v.model()));
                if !same_bytes(again.as_slice(), seen) {
                    return Err(Error::CodecMismatch);
                }
                append(&mut forward.inner, seen);
                assert(self.inner@.skip(self.pos as int).skip(p - self.pos) =~= self.inner@.skip(
                    p as int,
                ));
                self.pos = p;
                Ok(v)
            },
        }
    }
}

/// The write half: the bytes that are to be sent and have not been handed out
/// yet.
pub struct NixStoreWrite {
    pub inner: Vec<u8>,
}

impl View for NixStoreWrite {
    type V = Seq<u8>;

    open spec fn view(&self) -> Seq<u8> {
        self.inner@
    }
}

impl NixStoreWrite {
    /// A write half with nothing in it.
    pub fn new() -> (w: Self)
        ensures
            w@ == Seq::<u8>::empty(),
    {
        NixStoreWrite { inner: Vec::new() }
    }

    /// Writes one value.
    pub fn write<T: Encode>(&mut self, value: &T)
        ensures
            final(self)@ == old(self)@ + T::encoding(value.model()),
    {
        value.encode(&mut self.inner);
    }

    /// Writes one word.
    pub fn write_u64(&mut self, n: u64)
        ensures
            final(self)@ == old(self)@ + word(n),
    {
        n.encode(&mut self.inner);
    }

    /// Writes one boolean: the word one for true, zero for false.
    pub fn write_bool(&mut self, b: bool)
        ensures
            final(self)@ == old(self)@ + word(bool_word(b)),
    {
        b.encode(&mut self.inner);
    }

    /// Writes `s` as a byte string: its length, its bytes, and zero bytes up
    /// to the next multiple of eight.
    pub fn write_string(&mut self, s: &[u8])
        ensures
            final(self)@ == old(self)@ + string_encoding(s@),
            final(self)@.len() == old(self)@.len() + 8 + s@.len() + (8 - s@.len() % 8) % 8,
    {
        let len: u64 = s.len() as u64;
        len.encode(&mut self.inner);
        append(&mut self.inner, s);
        if s.len() % 8 > 0 {
            let padding: usize = 8 - s.len() % 8;
            let pad_buf = [0u8; 8];
            append(&mut self.inner, slice_subrange(pad_buf.as_slice(), 0, padding));
        }
        proof {
            crate::byte_string::lemma_string_encoding_len(s@);
            assert(self@ =~= old(self)@ + string_encoding(s@));
        }
    }

    /// Hands out everything written so far, for the caller to send, and
    /// leaves the buffer empty.
    pub fn flush(&mut self) -> (bytes: Vec<u8>)
        ensures
            bytes@ == old(self)@,
            final(self)@ == Seq::<u8>::empty(),
    {
        let mut bytes: Vec<u8> = Vec::new();
        bytes.append(&mut self.inner);
        assert(bytes@ =~= old(self)@);
        bytes
    }
}

} // verus!
