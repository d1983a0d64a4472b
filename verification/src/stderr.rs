//! The side channel that runs between a request and its reply. The server
//! may send any number of frames on it, each behind the word that names its
//! kind, and ends it with `Last`; the reply follows.

use crate::error::Error;
use crate::io::NixStoreWrite;
use crate::wire::{lemma_word, lemma_word_stable, parse_word, word, Encode, Parsed, Wire};
use vstd::prelude::*;

verus! {

/// The kinds of frame on the side channel.
#[derive(Clone, Copy, Debug, PartialEq, Eq, Structural)]
pub enum Opcode {
    /// A line for the client's log.
    Next,
    /// A request for input from a source that the client holds.
    Read,
    /// Bytes for a sink that the client holds.
    Write,
    /// The end of the side channel. It has no body; the reply follows.
    Last,
    /// An error, in place of the reply.
    Error,
    /// An activity has started.
    StartActivity,
    /// An activity has ended.
    StopActivity,
    /// An activity reports a result.
    Result,
}

pub const STDERR_NEXT: u64 = 0x6f6c6d67;

pub const STDERR_READ: u64 = 0x64617461;

pub const STDERR_WRITE: u64 = 0x64617416;

pub const STDERR_LAST: u64 = 0x616c7473;

pub const STDERR_ERROR: u64 = 0x63787470;

pub const STDERR_START_ACTIVITY: u64 = 0x53545254;

pub const STDERR_STOP_ACTIVITY: u64 = 0x53544f50;

pub const STDERR_RESULT: u64 = 0x52534c54;

impl Opcode {
    /// The word that stands for this kind of frame.
    pub open spec fn tag(self) -> u64 {
        match self {
            Opcode::Next => STDERR_NEXT,
            Opcode::Read => STDERR_READ,
            Opcode::Write => STDERR_WRITE,
            Opcode::Last => STDERR_LAST,
            Opcode::Error => STDERR_ERROR,
            Opcode::StartActivity => STDERR_START_ACTIVITY,
            Opcode::StopActivity => STDERR_STOP_ACTIVITY,
            Opcode::Result => STDERR_RESULT,
        }
    }

    /// The kind of frame that `tag` stands for, if it stands for one.
    pub open spec fn of_tag(tag: u64) -> Option<Opcode> {
        if tag == STDERR_NEXT {
            Some(Opcode::Next)
        } else if tag == STDERR_READ {
            Some(Opcode::Read)
        } else if tag == STDERR_WRITE {
            Some(Opcode::Write)
        } else if tag == STDERR_LAST {
            Some(Opcode::Last)
        } else if tag == STDERR_ERROR {
            Some(Opcode::Error)
        } else if tag == STDERR_START_ACTIVITY {
            Some(Opcode::StartActivity)
        } else if tag == STDERR_STOP_ACTIVITY {
            Some(Opcode::StopActivity)
        } else if tag == STDERR_RESULT {
            Some(Opcode::Result)
        } else {
            None
        }
    }

    /// The word that stands for this kind of frame.
    pub fn to_u64(self) -> (tag: u64)
        ensures
            tag == self.tag(),
    {
        match self {
            Opcode::Next => STDERR_NEXT,
            Opcode::Read => STDERR_READ,
            Opcode::Write => STDERR_WRITE,
            Opcode::Last => STDERR_LAST,
            Opcode::Error => STDERR_ERROR,
            Opcode::StartActivity => STDERR_START_ACTIVITY,
            Opcode::StopActivity => STDERR_STOP_ACTIVITY,
            Opcode::Result => STDERR_RESULT,
        }
    }

    /// The kind of frame that `tag` stands for, if it stands for one.
    pub fn from_u64(tag: u64) -> (v: Option<Opcode>)
        ensures
            v == Opcode::of_tag(tag),
    {
        if tag == STDERR_NEXT {
            Some(Opcode::Next)
        } else if tag == STDERR_READ {
            Some(Opcode::Read)
        } else if tag == STDERR_WRITE {
            Some(Opcode::Write)
        } else if tag == STDERR_LAST {
            Some(Opcode::Last)
        } else if tag == STDERR_ERROR {
            Some(Opcode::Error)
        } else if tag == STDERR_START_ACTIVITY {
            Some(Opcode::StartActivity)
        } else if tag == STDERR_STOP_ACTIVITY {
            Some(Opcode::StopActivity)
        } else if tag == STDERR_RESULT {
            Some(Opcode::Result)
        } else {
            None
        }
    }

    /// Every kind of frame is found again from its word; a word that is
    /// none of the eight stands for no kind, and reading it fails with
    /// `UnknownTag`.
    pub proof fn lemma_tags_closed(v: Opcode, tag: u64, rest: Seq<u8>)
        ensures
            Opcode::of_tag(v.tag()) == Some(v),
            Opcode::of_tag(tag) matches Some(found) ==> found.tag() == tag,
            Opcode::of_tag(tag) is None ==> Opcode::parse(word(tag) + rest) == Err::<
                (Opcode, nat),
                Error,
            >(Error::UnknownTag(tag)),
    {
        u64::lemma_round_trip(tag, rest);
    }
}

impl Encode for Opcode {
    type Model = Opcode;

    open spec fn model(&self) -> Opcode {
        *self
    }

    open spec fn encoding(m: Opcode) -> Seq<u8> {
        word(m.tag())
    }

    proof fn lemma_encoding_aligned(m: Opcode) {
        lemma_word(m.tag());
    }

    fn encode(&self, out: &mut Vec<u8>) {
        self.to_u64().encode(out);
    }
}

impl Wire for Opcode {
    open spec fn encodable(m: Opcode) -> bool {
        true
    }

    open spec fn parse(s: Seq<u8>) -> Parsed<Opcode> {
        match parse_word(s) {
            Err(e) => Err(e),
            Ok((tag, n)) => match Opcode::of_tag(tag) {
                Some(v) => Ok((v, n)),
                None => Err(Error::UnknownTag(tag)),
            },
        }
    }

    proof fn lemma_parse_within(s: Seq<u8>) {
    }

    proof fn lemma_parse_stable(s: Seq<u8>, more: Seq<u8>) {
        lemma_word_stable(s, more);
    }

    proof fn lemma_round_trip(m: Opcode, rest: Seq<u8>) {
        u64::lemma_round_trip(m.tag(), rest);
    }

    fn decode(buf: &[u8], pos: usize) -> (r: Result<(Opcode, usize), Error>) {
        let (tag, p) = u64::decode(buf, pos)?;
        match Opcode::from_u64(tag) {
            Some(v) => Ok((v, p)),
            None => Err(Error::UnknownTag(tag)),
        }
    }
}

/// The bytes of a frame: the word of its kind, then its body.
pub open spec fn frame<B: Encode>(opcode: Opcode, body: B::Model) -> Seq<u8> {
    word(opcode.tag()) + B::encoding(body)
}

/// Writes one frame. What a body holds is for the two ends to agree on; that
/// it is made of the protocol's own words and strings follows from its type.
pub fn write_frame<B: Encode>(write: &mut NixStoreWrite, opcode: Opcode, body: &B)
    ensures
        final(write)@ == old(write)@ + frame::<B>(opcode, body.model()),
{
    write.write_u64(opcode.to_u64());
    write.write(body);
    assert(write@ =~= old(write)@ + frame::<B>(opcode, body.model()));
}

} // verus!
