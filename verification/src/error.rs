use vstd::prelude::*;

verus! {

/// Why a message could not be decoded or a connection had to be closed.
///
/// Each variant carries the offending word where there is one.
#[derive(Clone, Copy, Debug, PartialEq, Eq, Structural)]
pub enum Error {
    /// A word of the handshake was not the one expected: a wrong magic
    /// number, or, from a daemon upstream, a version other than the one
    /// spoken here or a side channel that does not end at once.
    ProtocolMismatch(u64),
    /// The client advertised a version below the minimum that is served.
    ClientTooOld(u64),
    /// The input ended in the middle of a message.
    UnexpectedEof,
    /// The input ended before the zero-length chunk that closes a framed source.
    TruncatedFramedSource,
    /// A length prefix was above the ceiling for a single byte string.
    MessageTooLarge(u64),
    /// A request started with a word that is not a served opcode.
    UnknownOpcode(u64),
    /// An enumeration was given a tag outside its set.
    UnknownTag(u64),
    /// A decoded value did not re-encode to the bytes it was decoded from.
    CodecMismatch,
}

impl Error {
    /// Only an end of input can be cured by waiting for more bytes.
    pub open spec fn is_eof(self) -> bool {
        self == Error::UnexpectedEof
    }

    /// Whether more input could turn this failure into a success.
    pub fn is_unexpected_eof(&self) -> (b: bool)
        ensures
            b == self.is_eof(),
    {
        match self {
            Error::UnexpectedEof => true,
            _ => false,
        }
    }
}

} // verus!
