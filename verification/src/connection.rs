//! The life of a connection: the handshake, then requests and their replies,
//! until the client goes away or an error ends it.
//!
//! The connection owns buffers, not streams. The caller feeds what arrives
//! into `read` (and, when there is a daemon upstream, into `proxy.child_out`),
//! asks the connection to go on, and sends what has gathered in `write` (and
//! in `proxy.child_in`). Each call goes as far as the bytes at hand allow and
//! says what it waits for.

use crate::byte_string::string_encoding;
use crate::error::Error;
use crate::framed_source::{framed_outcome, framed_run, forwarded, FramedSource};
use crate::io::{faithful, NixStoreRead, NixStoreWrite};
use crate::stderr::{frame, write_frame, Opcode, STDERR_LAST};
use crate::version::{
    minor_of, DaemonVersion, MIN_CLIENT_VERSION, PROTOCOL_VERSION, WORKER_MAGIC_1,
    WORKER_MAGIC_2,
};
use crate::types::Nar;
use crate::wire::{append, parse_word, word, Encode, Wire};
use crate::worker_op::{Resp, Stream, WorkerOp};
use serde_bytes::ByteBuf;
use vstd::prelude::*;

verus! {

/// Where a connection stands. A connection only ever moves down this list,
/// and `Closed` is the end.
#[derive(Clone, Copy, Debug, PartialEq, Eq, Structural)]
pub enum Phase {
    /// Nothing has been read yet; the client's magic number is awaited.
    Opening,
    /// The magic numbers are exchanged; the client's version is awaited.
    Negotiating,
    /// The handshake is done; no request has been read yet.
    Options,
    /// Requests are being served.
    Running,
    /// The connection is over. Nothing is read or written any more.
    Closed,
}

impl Phase {
    /// The place of the phase in the life of a connection.
    pub open spec fn rank(self) -> nat {
        match self {
            Phase::Opening => 0,
            Phase::Negotiating => 1,
            Phase::Options => 2,
            Phase::Running => 3,
            Phase::Closed => 4,
        }
    }

    /// Whether requests may be read in this phase.
    pub open spec fn serves(self) -> bool {
        self == Phase::Options || self == Phase::Running
    }
}

/// Where the handshake with the daemon upstream stands.
#[derive(Clone, Copy, Debug, PartialEq, Eq, Structural)]
pub enum Upstream {
    /// Nothing has been sent upstream.
    Idle,
    /// The magic number is sent; the daemon's magic number and version are
    /// awaited.
    Greeting,
    /// The client's version is sent; the daemon's name and the end of its
    /// side channel are awaited.
    Identifying,
    /// The daemon upstream is ready for requests.
    Ready,
}

/// What a call has come to.
#[derive(Debug)]
pub enum Progress {
    /// Nothing more can be done until more bytes have arrived.
    Waiting,
    /// A step is done and the next can be tried.
    Advanced,
    /// A request has been read and waits for its reply.
    Request(WorkerOp),
    /// A request has been passed on upstream.
    Forwarded(WorkerOp),
    /// The client has gone away between requests; the connection is over.
    Closed,
}

/// The daemon upstream, as the two buffers that stand for its input and its
/// output.
pub struct NixProxy {
    /// What is to be sent to the daemon.
    pub child_in: NixStoreWrite,
    /// What has arrived from the daemon.
    pub child_out: NixStoreRead,
}

impl NixProxy {
    /// A daemon to which nothing has been sent and from which nothing has
    /// arrived.
    pub fn new() -> (proxy: NixProxy)
        ensures
            proxy.child_out.wf(),
            proxy.child_in@ == Seq::<u8>::empty(),
            proxy.child_out.remaining() == Seq::<u8>::empty(),
            proxy.child_out.held() == 0,
            !proxy.child_out.at_end(),
    {
        NixProxy { child_in: NixStoreWrite::new(), child_out: NixStoreRead::new() }
    }

    /// Queues one word for the daemon.
    pub fn write_u64(&mut self, n: u64)
        ensures
            final(self).child_in@ == old(self).child_in@ + word(n),
            final(self).child_out == old(self).child_out,
    {
        self.child_in.write_u64(n);
    }

    /// Reads one word of what the daemon has sent.
    pub fn read_u64(&mut self) -> (r: Result<u64, Error>)
        requires
            old(self).child_out.wf(),
        ensures
            final(self).child_out.wf(),
            final(self).child_out.at_end() == old(self).child_out.at_end(),
            final(self).child_out.held() == old(self).child_out.held(),
            final(self).child_in == old(self).child_in,
            match parse_word(old(self).child_out.remaining()) {
                Ok((n, k)) => r == Ok::<u64, Error>(n) && final(self).child_out.remaining()
                    == old(self).child_out.remaining().skip(8),
                Err(e) => r == Err::<u64, Error>(e) && final(self).child_out.remaining() == old(
                    self,
                ).child_out.remaining(),
            },
    {
        self.child_out.read_u64()
    }

    /// Hands out what is queued for the daemon, for the caller to send.
    pub fn flush(&mut self) -> (bytes: Vec<u8>)
        ensures
            bytes@ == old(self).child_in@,
            final(self).child_in@ == Seq::<u8>::empty(),
            final(self).child_out == old(self).child_out,
    {
        self.child_in.flush()
    }

    /// Reads one byte string of what the daemon has sent.
    pub fn read_string(&mut self) -> (r: Result<Vec<u8>, Error>)
        requires
            old(self).child_out.wf(),
        ensures
            final(self).child_out.wf(),
            final(self).child_out.at_end() == old(self).child_out.at_end(),
            final(self).child_out.held() == old(self).child_out.held(),
            final(self).child_in == old(self).child_in,
            match crate::byte_string::parse_string(old(self).child_out.remaining()) {
                Ok((s, n)) => r matches Ok(v) && v@ == s && final(self).child_out.remaining()
                    == old(self).child_out.remaining().skip(n as int),
                Err(e) => r matches Err(e2) && e2 == e && final(self).child_out.remaining()
                    == old(self).child_out.remaining(),
            },
    {
        self.child_out.read_string()
    }
}

/// What the server sends once it has seen the client's magic number.
pub open spec fn hello() -> Seq<u8> {
    word(WORKER_MAGIC_2) + word(PROTOCOL_VERSION)
}

/// What the server sends once it has seen the client's version: its name, for
/// clients from 1.33 on, and the end of the side channel.
pub open spec fn welcome(version: u64, daemon_id: Seq<u8>) -> Seq<u8> {
    if minor_of(version) >= 33 {
        string_encoding(daemon_id) + word(STDERR_LAST)
    } else {
        word(STDERR_LAST)
    }
}

/// Everything the server sends in a handshake that succeeds. It depends on
/// the client's version and the server's name and on nothing else.
pub open spec fn greeting(version: u64, daemon_id: Seq<u8>) -> Seq<u8> {
    hello() + welcome(version, daemon_id)
}

/// The number of words that a client of the given version sends behind its
/// version and that are read and dropped: one from 1.11 on, two from 1.14 on.
pub open spec fn obsolete_words(version: u64) -> nat {
    if minor_of(version) >= 14 {
        2
    } else if minor_of(version) >= 11 {
        1
    } else {
        0
    }
}

/// What a stretch of the handshake came to: the phase reached, the bytes of
/// input taken, the bytes sent, the client's version where it is known, and
/// what is reported.
pub struct Handshake {
    pub phase: Phase,
    pub consumed: nat,
    pub output: Seq<u8>,
    pub version: u64,
    pub result: Result<Option<u64>, Error>,
}

/// The input does not reach: wait in `phase`, or give up if no more will come.
pub open spec fn handshake_stalled(phase: Phase, at_end: bool) -> Handshake {
    Handshake {
        phase: if at_end {
            Phase::Closed
        } else {
            phase
        },
        consumed: 0,
        output: Seq::empty(),
        version: 0,
        result: if at_end {
            Err(Error::UnexpectedEof)
        } else {
            Ok(None)
        },
    }
}

/// The handshake is broken off. Nothing is taken or sent.
pub open spec fn handshake_refused(e: Error) -> Handshake {
    Handshake {
        phase: Phase::Closed,
        consumed: 0,
        output: Seq::empty(),
        version: 0,
        result: Err(e),
    }
}

/// The second half of the handshake, on the input behind the magic number:
/// the client's version and the words that go with it.
pub open spec fn negotiate(input: Seq<u8>, at_end: bool, daemon_id: Seq<u8>) -> Handshake {
    match parse_word(input) {
        Err(_) => handshake_stalled(Phase::Negotiating, at_end),
        Ok((version, _)) => if version < MIN_CLIENT_VERSION {
            handshake_refused(Error::ClientTooOld(version))
        } else if input.len() < 8 + 8 * obsolete_words(version) {
            handshake_stalled(Phase::Negotiating, at_end)
        } else {
            Handshake {
                phase: Phase::Options,
                consumed: 8 + 8 * obsolete_words(version),
                output: welcome(version, daemon_id),
                version,
                result: Ok(Some(version)),
            }
        },
    }
}

/// The handshake from its start: the client's magic number, and then as much
/// of the second half as the input allows.
pub open spec fn open_connection(input: Seq<u8>, at_end: bool, daemon_id: Seq<u8>) -> Handshake {
    match parse_word(input) {
        Err(_) => handshake_stalled(Phase::Opening, at_end),
        Ok((magic, _)) => if magic != WORKER_MAGIC_1 {
            handshake_refused(Error::ProtocolMismatch(magic))
        } else {
            let next = negotiate(input.skip(8), at_end, daemon_id);
            Handshake {
                phase: next.phase,
                consumed: 8 + next.consumed,
                output: hello() + next.output,
                version: next.version,
                result: next.result,
            }
        },
    }
}

/// The handshake from wherever it stands.
pub open spec fn handshake(phase: Phase, input: Seq<u8>, at_end: bool, daemon_id: Seq<u8>)
    -> Handshake {
    if phase == Phase::Opening {
        open_connection(input, at_end, daemon_id)
    } else {
        negotiate(input, at_end, daemon_id)
    }
}

/// What the server has sent when a handshake is through is `greeting` of the
/// client's version and the server's name: two clients that announce the same
/// version are sent the same bytes, whatever else they send. A handshake that
/// stops half way has sent `hello` or nothing, and one that is refused has
/// sent no more than `hello`.
pub proof fn lemma_handshake_determined(input: Seq<u8>, at_end: bool, daemon_id: Seq<u8>)
    ensures
        ({
            let h = open_connection(input, at_end, daemon_id);
            &&& h.phase == Phase::Options ==> {
                &&& h.output == greeting(h.version, daemon_id)
                &&& h.version >= MIN_CLIENT_VERSION
                &&& h.result == Ok::<Option<u64>, Error>(Some(h.version))
                &&& h.consumed == 16 + 8 * obsolete_words(h.version)
            }
            &&& h.phase == Phase::Negotiating ==> h.output == hello() && h.consumed == 8
            &&& h.phase == Phase::Opening ==> h.output == Seq::<u8>::empty() && h.consumed == 0
            &&& h.phase == Phase::Closed ==> {
                &&& h.result is Err
                &&& h.output == Seq::<u8>::empty() || h.output == hello()
            }
            &&& h.phase != Phase::Running
        }),
{
    let h = open_connection(input, at_end, daemon_id);
    assert(hello() + Seq::<u8>::empty() =~= hello());
}

/// A handshake that is fed its input in two parts comes to the same as one
/// that is fed it whole.
pub proof fn lemma_handshake_resumes(input: Seq<u8>, more: Seq<u8>, daemon_id: Seq<u8>)
    ensures
        ({
            let first = open_connection(input, false, daemon_id);
            let second = handshake(
                first.phase,
                (input + more).skip(first.consumed as int),
                false,
                daemon_id,
            );
            let whole = open_connection(input + more, false, daemon_id);
            first.phase != Phase::Closed && first.phase != Phase::Options ==> {
                &&& whole.phase == second.phase
                &&& whole.consumed == first.consumed + second.consumed
                &&& whole.output == first.output + second.output
                &&& whole.result == second.result
            }
        }),
{
    let all = input + more;
    let first = open_connection(input, false, daemon_id);
    if input.len() >= 8 {
        assert(all.take(8) =~= input.take(8));
        if parse_word(input) matches Ok((magic, _)) && magic == WORKER_MAGIC_1 {
            let tail = input.skip(8);
            assert(all.skip(8) =~= tail + more);
            if tail.len() >= 8 {
                assert(all.skip(8).take(8) =~= tail.take(8));
            }
            assert(hello() + Seq::<u8>::empty() =~= hello());
        }
    } else {
        assert(all.skip(0) =~= all);
        assert(Seq::<u8>::empty() + open_connection(all, false, daemon_id).output
            =~= open_connection(all, false, daemon_id).output);
    }
}

/// What a stretch of the handshake with the daemon upstream came to: the
/// state reached, the bytes of the daemon's output taken, the bytes sent to
/// it, the daemon's name where it is known, and what is reported: whether the
/// daemon is ready, or why it never will be.
pub struct UpstreamHandshake {
    pub state: Upstream,
    pub consumed: nat,
    pub output: Seq<u8>,
    pub id: Seq<u8>,
    pub result: Result<bool, Error>,
}

/// The daemon's output does not reach: wait in `state`, or give up if no
/// more will come.
pub open spec fn upstream_stalled(state: Upstream, at_end: bool) -> UpstreamHandshake {
    UpstreamHandshake {
        state,
        consumed: 0,
        output: Seq::empty(),
        id: Seq::empty(),
        result: if at_end {
            Err(Error::UnexpectedEof)
        } else {
            Ok(false)
        },
    }
}

/// The handshake with the daemon is broken off where it stands.
pub open spec fn upstream_refused(state: Upstream, e: Error) -> UpstreamHandshake {
    UpstreamHandshake {
        state,
        consumed: 0,
        output: Seq::empty(),
        id: Seq::empty(),
        result: Err(e),
    }
}

/// The last part of the handshake with the daemon: its name, and the word
/// that ends its side channel.
pub open spec fn upstream_identify(input: Seq<u8>, at_end: bool) -> UpstreamHandshake {
    match <(ByteBuf, u64)>::parse(input) {
        Err(e) => if e == Error::UnexpectedEof {
            upstream_stalled(Upstream::Identifying, at_end)
        } else {
            upstream_refused(Upstream::Identifying, e)
        },
        Ok(((id, last), n)) => if last != STDERR_LAST {
            upstream_refused(Upstream::Identifying, Error::ProtocolMismatch(last))
        } else {
            UpstreamHandshake {
                state: Upstream::Ready,
                consumed: n,
                output: Seq::empty(),
                id,
                result: Ok(true),
            }
        },
    }
}

/// What is sent to the daemon once its magic number and version have been
/// seen: the client's version, and two zero words in the places that are no
/// longer used.
pub open spec fn upstream_answer(client_version: u64) -> Seq<u8> {
    word(client_version) + word(0) + word(0)
}

/// The middle part of the handshake with the daemon: its magic number, which
/// is tested as soon as it is there, whatever follows it or does not; then
/// its version, which must be the one spoken here; then the last part.
/// Nothing is taken from the daemon's output until both words have passed.
pub open spec fn upstream_greet(input: Seq<u8>, at_end: bool, client_version: u64)
    -> UpstreamHandshake {
    match parse_word(input) {
        Err(_) => upstream_stalled(Upstream::Greeting, at_end),
        Ok((magic, _)) => if magic != WORKER_MAGIC_2 {
            upstream_refused(Upstream::Greeting, Error::ProtocolMismatch(magic))
        } else {
            match parse_word(input.skip(8)) {
                Err(_) => upstream_stalled(Upstream::Greeting, at_end),
                Ok((version, _)) => if version != PROTOCOL_VERSION {
                    upstream_refused(Upstream::Greeting, Error::ProtocolMismatch(version))
                } else {
                    let next = upstream_identify(input.skip(16), at_end);
                    UpstreamHandshake {
                        state: next.state,
                        consumed: 16 + next.consumed,
                        output: upstream_answer(client_version) + next.output,
                        id: next.id,
                        result: next.result,
                    }
                },
            }
        },
    }
}

/// A daemon whose first word is not its magic number is refused on that word
/// alone: whether anything follows it, and whether the daemon has closed its
/// side, makes no difference. The same holds of a version other than the
/// one spoken here, once the magic number has passed. Nothing but the
/// client's magic number has been sent to the daemon then, and nothing has
/// been taken from what it sent.
pub proof fn lemma_upstream_refused_at_once(
    first: u64,
    second: u64,
    rest: Seq<u8>,
    at_end: bool,
    client_version: u64,
)
    ensures
        first != WORKER_MAGIC_2 ==> upstream_handshake(
            Upstream::Idle,
            word(first),
            at_end,
            client_version,
        ) == upstream_handshake(Upstream::Idle, word(first) + rest, at_end, client_version),
        first != WORKER_MAGIC_2 ==> upstream_handshake(
            Upstream::Idle,
            word(first) + rest,
            at_end,
            client_version,
        ) == (UpstreamHandshake {
            state: Upstream::Greeting,
            consumed: 0,
            output: word(WORKER_MAGIC_1),
            id: Seq::empty(),
            result: Err(Error::ProtocolMismatch(first)),
        }),
        second != PROTOCOL_VERSION ==> upstream_handshake(
            Upstream::Idle,
            word(WORKER_MAGIC_2) + word(second) + rest,
            at_end,
            client_version,
        ) == (UpstreamHandshake {
            state: Upstream::Greeting,
            consumed: 0,
            output: word(WORKER_MAGIC_1),
            id: Seq::empty(),
            result: Err(Error::ProtocolMismatch(second)),
        }),
{
    u64::lemma_round_trip(first, rest);
    u64::lemma_round_trip(first, Seq::empty());
    assert(word(first) + Seq::<u8>::empty() =~= word(first));
    assert(word(WORKER_MAGIC_1) + Seq::<u8>::empty() =~= word(WORKER_MAGIC_1));
    let greeting = word(WORKER_MAGIC_2) + word(second) + rest;
    assert(greeting =~= word(WORKER_MAGIC_2) + (word(second) + rest));
    u64::lemma_round_trip(WORKER_MAGIC_2, word(second) + rest);
    crate::wire::lemma_word(WORKER_MAGIC_2);
    assert(greeting.skip(8) =~= word(second) + rest);
    u64::lemma_round_trip(second, rest);
}

/// The handshake with the daemon from wherever it stands. From the start,
/// the client's magic number is sent first.
pub open spec fn upstream_handshake(
    state: Upstream,
    input: Seq<u8>,
    at_end: bool,
    client_version: u64,
) -> UpstreamHandshake {
    match state {
        Upstream::Idle => {
            let next = upstream_greet(input, at_end, client_version);
            UpstreamHandshake {
                state: next.state,
                consumed: next.consumed,
                output: word(WORKER_MAGIC_1) + next.output,
                id: next.id,
                result: next.result,
            }
        },
        Upstream::Greeting => upstream_greet(input, at_end, client_version),
        Upstream::Identifying => upstream_identify(input, at_end),
        Upstream::Ready => UpstreamHandshake {
            state: Upstream::Ready,
            consumed: 0,
            output: Seq::empty(),
            id: Seq::empty(),
            result: Ok(true),
        },
    }
}

/// What is reported when no request can be read because of `e`: an end of
/// input between requests ends the connection in good order, one that may
/// still be cured by more input is waited for, and everything else is the
/// error it is.
pub open spec fn idle_outcome(e: Error, input: Seq<u8>, at_end: bool) -> Result<Progress, Error> {
    if e != Error::UnexpectedEof {
        Err(e)
    } else if !at_end {
        Ok(Progress::Waiting)
    } else if input.len() == 0 {
        Ok(Progress::Closed)
    } else {
        Err(Error::UnexpectedEof)
    }
}

/// The report of a handshake step, as the report of a step of the
/// connection.
pub open spec fn handshake_progress(r: Result<Option<u64>, Error>) -> Result<Progress, Error> {
    match r {
        Ok(Some(_)) => Ok(Progress::Advanced),
        Ok(None) => Ok(Progress::Waiting),
        Err(e) => Err(e),
    }
}

/// The report of a step that says whether it is through, as the report of a
/// step of the connection: a step that is through has advanced the
/// connection, and one that is not waits for more bytes.
pub open spec fn completion_progress(r: Result<bool, Error>) -> Result<Progress, Error> {
    match r {
        Ok(true) => Ok(Progress::Advanced),
        Ok(false) => Ok(Progress::Waiting),
        Err(e) => Err(e),
    }
}

/// A connection: the buffers of its two halves, the buffers of the daemon
/// upstream if there is one, and where it stands.
pub struct NixReadWrite {
    /// What has arrived from the client.
    pub read: NixStoreRead,
    /// What is to be sent to the client.
    pub write: NixStoreWrite,
    /// The daemon upstream. It is left alone unless requests are passed on.
    pub proxy: NixProxy,
    /// Where the connection stands.
    pub state: Session,
}

/// Where a connection stands. Its fields are private: a caller can hand a
/// whole `Session` about, from one connection to another, but cannot make
/// one or alter what one holds. The contracts of the connection's methods
/// speak of the `Session` the connection holds when they are called.
pub struct Session {
    phase: Phase,
    upstream: Upstream,
    client_version: u64,
    daemon_id: Vec<u8>,
    upstream_id: Vec<u8>,
    awaiting: bool,
    source: FramedSource,
}

impl Session {
    /// The phase of the connection.
    pub closed spec fn phase(&self) -> Phase {
        self.phase
    }

    /// Where the handshake with the daemon upstream stands.
    pub closed spec fn upstream(&self) -> Upstream {
        self.upstream
    }

    /// The version that the client announced.
    pub closed spec fn client_version(&self) -> u64 {
        self.client_version
    }

    /// The name under which this server makes itself known.
    pub closed spec fn daemon_id(&self) -> Seq<u8> {
        self.daemon_id@
    }

    /// The name of the daemon upstream.
    pub closed spec fn upstream_id(&self) -> Seq<u8> {
        self.upstream_id@
    }

    /// Whether a request is at hand.
    pub closed spec fn awaiting(&self) -> bool {
        self.awaiting
    }

    /// Where the framed source of the request at hand stands.
    pub closed spec fn source(&self) -> FramedSource {
        self.source
    }
}

/// The state of a framed source that has nothing to give: it is complete.
pub open spec fn no_source() -> FramedSource {
    FramedSource { left: 0, done: true }
}

/// The state of a framed source of which nothing has been read.
pub open spec fn fresh_source() -> FramedSource {
    FramedSource { left: 0, done: false }
}

impl NixReadWrite {
    /// The buffers can be read from. Every method keeps this.
    pub open spec fn wf(&self) -> bool {
        self.read.wf() && self.proxy.child_out.wf()
    }

    /// Where the connection stands.
    pub open spec fn phase(&self) -> Phase {
        self.state.phase()
    }

    /// Where the handshake with the daemon upstream stands.
    pub open spec fn upstream(&self) -> Upstream {
        self.state.upstream()
    }

    /// The version that the client announced. It is known from `Options` on.
    pub open spec fn client_version(&self) -> u64 {
        self.state.client_version()
    }

    /// The name under which this server makes itself known.
    pub open spec fn daemon_id(&self) -> Seq<u8> {
        self.state.daemon_id()
    }

    /// The name of the daemon upstream. It is known once that daemon is ready.
    pub open spec fn upstream_id(&self) -> Seq<u8> {
        self.state.upstream_id()
    }

    /// Whether a request has been read whose reply has not been sent, or
    /// whose framed source has not been passed on to the end.
    pub open spec fn awaiting(&self) -> bool {
        self.state.awaiting()
    }

    /// Where the framed source of the request at hand stands. For a request
    /// without one it is complete from the start.
    pub open spec fn source(&self) -> FramedSource {
        self.state.source()
    }

    /// The daemon upstream is where it was, and nothing has been sent to it
    /// or taken from what it sent.
    pub open spec fn same_upstream(&self, before: NixReadWrite) -> bool {
        &&& self.proxy == before.proxy
        &&& self.upstream() == before.upstream()
        &&& self.upstream_id() == before.upstream_id()
    }

    /// A connection on which nothing has happened yet. `daemon_id` is the
    /// name under which the server makes itself known to clients that ask.
    pub fn new(daemon_id: Vec<u8>) -> (conn: NixReadWrite)
        ensures
            conn.wf(),
            conn.phase() == Phase::Opening,
            conn.upstream() == Upstream::Idle,
            conn.daemon_id() == daemon_id@,
            conn.upstream_id() == Seq::<u8>::empty(),
            !conn.awaiting(),
            conn.source() == no_source(),
            conn.read.remaining() == Seq::<u8>::empty(),
            conn.read.held() == 0,
            !conn.read.at_end(),
            conn.write@ == Seq::<u8>::empty(),
            conn.proxy.child_in@ == Seq::<u8>::empty(),
            conn.proxy.child_out.remaining() == Seq::<u8>::empty(),
            conn.proxy.child_out.held() == 0,
            !conn.proxy.child_out.at_end(),
    {
        NixReadWrite {
            read: NixStoreRead::new(),
            write: NixStoreWrite::new(),
            proxy: NixProxy::new(),
            state: Session {
                phase: Phase::Opening,
                upstream: Upstream::Idle,
                client_version: 0,
                daemon_id,
                upstream_id: Vec::new(),
                awaiting: false,
                source: FramedSource { left: 0, done: true },
            },
        }
    }

    /// Where the connection stands.
    pub fn current_phase(&self) -> (phase: Phase)
        ensures
            phase == self.phase(),
    {
        self.state.phase
    }

    /// Where the handshake with the daemon upstream stands.
    pub fn upstream_state(&self) -> (state: Upstream)
        ensures
            state == self.upstream(),
    {
        self.state.upstream
    }

    /// The version that the client announced, once the handshake is through.
    pub fn negotiated_version(&self) -> (version: Option<u64>)
        ensures
            version == if self.phase().serves() {
                Some(self.client_version())
            } else {
                None
            },
    {
        match self.state.phase {
            Phase::Options | Phase::Running => Some(self.state.client_version),
            _ => None,
        }
    }

    /// The name of the daemon upstream. It is empty until that daemon is ready.
    pub fn upstream_name(&self) -> (name: &[u8])
        ensures
            name@ == self.upstream_id(),
    {
        self.state.upstream_id.as_slice()
    }

    /// Whether a request is at hand: read, and not yet answered or passed on
    /// to the end.
    pub fn is_awaiting(&self) -> (awaiting: bool)
        ensures
            awaiting == self.awaiting(),
    {
        self.state.awaiting
    }

    /// Whether the framed source of the request at hand has been read to its
    /// end. For a request without one, it has.
    pub fn source_done(&self) -> (done: bool)
        ensures
            done == self.source().done,
    {
        self.state.source.done
    }

    /// Carries the handshake with the client as far as the input allows.
    ///
    /// Reports the client's version when the handshake is through, and
    /// nothing when more input is needed. A wrong magic number, a version
    /// that is too old, or an end of input in the middle closes the
    /// connection; the word at fault is left in the input.
    pub fn initialize(&mut self) -> (r: Result<Option<u64>, Error>)
        requires
            old(self).wf(),
            old(self).phase() == Phase::Opening || old(self).phase() == Phase::Negotiating,
        ensures
            final(self).wf(),
            final(self).initialized(*old(self), r),
            final(self).same_upstream(*old(self)),
    {
        if let Phase::Opening = self.state.phase {
            match self.read.peek::<u64>() {
                Err(_) => {
                    proof {
                        assert(self.read.remaining().skip(0) =~= self.read.remaining());
                        assert(self.write@ + Seq::<u8>::empty() =~= self.write@);
                    }
                    return self.stall();
                },
                Ok(magic) => {
                    if magic != WORKER_MAGIC_1 {
                        self.state.phase = Phase::Closed;
                        proof {
                            assert(self.read.remaining().skip(0) =~= self.read.remaining());
                            assert(self.write@ + Seq::<u8>::empty() =~= self.write@);
                        }
                        return Err(Error::ProtocolMismatch(magic));
                    }
                    let _ = self.read.read_u64();
                    self.write.write_u64(WORKER_MAGIC_2);
                    self.write.write_u64(PROTOCOL_VERSION);
                    self.state.phase = Phase::Negotiating;
                },
            }
        }
        let ghost start = old(self).read.remaining();
        let ghost input = self.read.remaining();
        let ghost sent = self.write@;
        proof {
            if old(self).phase() == Phase::Opening {
                assert(sent =~= old(self).write@ + hello());
            } else {
                assert(input =~= start.skip(0));
                assert(sent =~= old(self).write@ + Seq::<u8>::empty());
            }
        }
        let version = match self.read.peek::<u64>() {
            Err(_) => {
                proof {
                    assert(input.skip(0) =~= input);
                    assert(sent + Seq::<u8>::empty() =~= sent);
                    if old(self).phase() == Phase::Opening {
                        assert(start.skip(8).skip(0) =~= start.skip(8));
                    }
                }
                return self.stall();
            },
            Ok(version) => version,
        };
        if version < MIN_CLIENT_VERSION {
            self.state.phase = Phase::Closed;
            proof {
                assert(input.skip(0) =~= input);
                assert(sent + Seq::<u8>::empty() =~= sent);
            }
            return Err(Error::ClientTooOld(version));
        }
        let minor = DaemonVersion::from(version).minor;
        let obsolete: usize = if minor >= 14 {
            2
        } else if minor >= 11 {
            1
        } else {
            0
        };
        if self.read.available() < 8 + 8 * obsolete {
            proof {
                assert(input.skip(0) =~= input);
                assert(sent + Seq::<u8>::empty() =~= sent);
            }
            return self.stall();
        }
        let _ = self.read.read_u64();
        if minor >= 14 {
            let _obsolete_cpu_affinity = self.read.read_u64();
        }
        if minor >= 11 {
            let _obsolete_reserve_space = self.read.read_u64();
        }
        if minor >= 33 {
            self.write.write_string(self.state.daemon_id.as_slice());
        }
        self.write.write_u64(Opcode::Last.to_u64());
        self.state.client_version = version;
        self.state.phase = Phase::Options;
        proof {
            let taken = 8 + 8 * obsolete_words(version);
            assert(self.read.remaining() =~= input.skip(taken as int));
            assert(self.write@ =~= sent + welcome(version, self.state.daemon_id@));
            if old(self).phase() == Phase::Opening {
                assert(start.skip(8).skip(taken as int) =~= start.skip((8 + taken) as int));
                assert(old(self).write@ + hello() + welcome(version, self.state.daemon_id@)
                    =~= old(self).write@ + (hello() + welcome(version, self.state.daemon_id@)));
            }
        }
        Ok(Some(version))
    }

    /// What `initialize` has done to the connection that was `before`: what
    /// `handshake` says, and nothing else.
    pub open spec fn initialized(&self, before: NixReadWrite, r: Result<Option<u64>, Error>)
        -> bool {
        let h = handshake(
            before.phase(),
            before.read.remaining(),
            before.read.at_end(),
            before.daemon_id(),
        );
        &&& self.phase() == h.phase
        &&& self.read.remaining() == before.read.remaining().skip(h.consumed as int)
        &&& self.read.at_end() == before.read.at_end()
        &&& self.read.held() == before.read.held()
        &&& self.write@ == before.write@ + h.output
        &&& r == h.result
        &&& h.phase == Phase::Options ==> self.client_version() == h.version
        &&& self.daemon_id() == before.daemon_id()
        &&& self.awaiting() == before.awaiting()
        &&& self.source() == before.source()
        &&& before.phase().rank() <= self.phase().rank()
    }

    /// Gives up on input that does not reach: waits if more may come, and
    /// closes the connection if none will.
    fn stall<T>(&mut self) -> (r: Result<Option<T>, Error>)
        ensures
            final(self).read == old(self).read,
            final(self).write == old(self).write,
            final(self).proxy == old(self).proxy,
            final(self).state.upstream == old(self).state.upstream,
            final(self).state.upstream_id == old(self).state.upstream_id,
            final(self).state.client_version == old(self).state.client_version,
            final(self).state.daemon_id == old(self).state.daemon_id,
            final(self).state.awaiting == old(self).state.awaiting,
            final(self).state.source == old(self).state.source,
            final(self).state.phase == if old(self).read.at_end() {
                Phase::Closed
            } else {
                old(self).state.phase
            },
            r == if old(self).read.at_end() {
                Err::<Option<T>, Error>(Error::UnexpectedEof)
            } else {
                Ok::<Option<T>, Error>(None)
            },
    {
        if self.read.is_closed() {
            self.state.phase = Phase::Closed;
            Err(Error::UnexpectedEof)
        } else {
            Ok(None)
        }
    }

    /// Settles what to report when no request could be read, and closes the
    /// connection unless more input may still bring one.
    fn idle(&mut self, e: Error) -> (r: Result<Progress, Error>)
        requires
            old(self).wf(),
        ensures
            final(self).read == old(self).read,
            final(self).write == old(self).write,
            final(self).proxy == old(self).proxy,
            final(self).state.upstream == old(self).state.upstream,
            final(self).state.upstream_id == old(self).state.upstream_id,
            final(self).state.client_version == old(self).state.client_version,
            final(self).state.daemon_id == old(self).state.daemon_id,
            final(self).state.awaiting == old(self).state.awaiting,
            final(self).state.source == old(self).state.source,
            r == idle_outcome(e, old(self).read.remaining(), old(self).read.at_end()),
            final(self).state.phase == if r matches Ok(Progress::Waiting) {
                old(self).state.phase
            } else {
                Phase::Closed
            },
    {
        if e.is_unexpected_eof() {
            if !self.read.is_closed() {
                return Ok(Progress::Waiting);
            }
            if self.read.available() == 0 {
                self.state.phase = Phase::Closed;
                return Ok(Progress::Closed);
            }
        }
        self.state.phase = Phase::Closed;
        Err(e)
    }

    /// What `next_op` has done to the connection that was `before`.
    pub open spec fn took_request(&self, before: NixReadWrite, r: Result<Progress, Error>) -> bool {
        let input = before.read.remaining();
        &&& self.read.at_end() == before.read.at_end()
        &&& self.read.held() == before.read.held()
        &&& self.client_version() == before.client_version()
        &&& self.daemon_id() == before.daemon_id()
        &&& before.phase().rank() <= self.phase().rank()
        &&& match WorkerOp::parse(input) {
            Ok((m, n)) => {
                &&& r matches Ok(Progress::Request(op)) && op.model() == m
                &&& self.read.remaining() == input.skip(n as int)
                &&& self.phase() == Phase::Running
                &&& self.awaiting()
                &&& self.source() == if m.has_source() {
                    fresh_source()
                } else {
                    no_source()
                }
            },
            Err(e) => {
                &&& r == idle_outcome(e, input, before.read.at_end())
                &&& self.read.remaining() == input
                &&& self.awaiting() == before.awaiting()
                &&& self.source() == before.source()
                &&& self.phase() == if r matches Ok(Progress::Waiting) {
                    before.phase()
                } else {
                    Phase::Closed
                }
            },
        }
    }

    /// Reads the next request, if it has arrived in full.
    ///
    /// The first request moves the connection to `Running`. A request that
    /// is read is at hand until it is answered with `reply` or `fail`. An
    /// end of input between requests closes the connection in good order; a
    /// word that opens no served request, any other fault in the request, or
    /// an end of input in the middle of one closes it with that error.
    /// Nothing is taken from the input unless a request is read.
    pub fn next_op(&mut self) -> (r: Result<Progress, Error>)
        requires
            old(self).wf(),
            old(self).phase().serves(),
            !old(self).awaiting(),
        ensures
            final(self).wf(),
            final(self).took_request(*old(self), r),
            final(self).write == old(self).write,
            final(self).same_upstream(*old(self)),
    {
        match self.read.read::<WorkerOp>() {
            Ok(op) => {
                self.state.phase = Phase::Running;
                self.state.awaiting = true;
                self.state.source = FramedSource { left: 0, done: !op.is_framed() };
                Ok(Progress::Request(op))
            },
            Err(e) => self.idle(e),
        }
    }

    /// Reads on in the framed source of the request at hand, as far as the
    /// input allows, and appends the payload found to `sink`. Says whether
    /// the source is complete. Where the input ends before the source does,
    /// the connection is closed with `TruncatedFramedSource`.
    pub fn read_source(&mut self, sink: &mut Vec<u8>) -> (r: Result<bool, Error>)
        requires
            old(self).wf(),
            old(self).phase() == Phase::Running,
            old(self).awaiting(),
        ensures
            final(self).wf(),
            ({
                let run = framed_run(old(self).source(), old(self).read.remaining());
                &&& final(self).source() == run.state
                &&& final(self).read.remaining() == old(self).read.remaining().skip(
                    run.consumed as int,
                )
                &&& final(sink)@ == old(sink)@ + run.payload
                &&& r == framed_outcome(run.state, old(self).read.at_end())
            }),
            final(self).phase() == if r is Err {
                Phase::Closed
            } else {
                Phase::Running
            },
            final(self).read.at_end() == old(self).read.at_end(),
            final(self).read.held() == old(self).read.held(),
            final(self).awaiting(),
            final(self).client_version() == old(self).client_version(),
            final(self).daemon_id() == old(self).daemon_id(),
            final(self).write == old(self).write,
            final(self).same_upstream(*old(self)),
    {
        let r = self.state.source.read(&mut self.read, sink);
        if r.is_err() {
            self.state.phase = Phase::Closed;
        }
        r
    }

    /// Sends one frame on the side channel while a request is at hand. Any
    /// number may be sent before the reply; the frames that end the side
    /// channel are sent by `reply` and `fail` and not by this.
    pub fn stderr<B: Encode>(&mut self, opcode: Opcode, body: &B)
        requires
            old(self).phase() == Phase::Running,
            old(self).awaiting(),
            opcode != Opcode::Last,
            opcode != Opcode::Error,
        ensures
            final(self).write@ == old(self).write@ + frame::<B>(opcode, body.model()),
            final(self).read == old(self).read,
            final(self).state == old(self).state,
            final(self).proxy == old(self).proxy,
    {
        write_frame(&mut self.write, opcode, body);
    }

    /// Answers the request at hand: ends the side channel with `Last` and
    /// sends the reply. The marker `resp` is the one that came with the
    /// request; it fixes the type of the reply.
    pub fn reply<T: Encode>(&mut self, resp: &Resp<T>, value: T)
        requires
            old(self).phase() == Phase::Running,
            old(self).awaiting(),
            old(self).source().done,
        ensures
            final(self).write@ == old(self).write@ + frame::<T>(Opcode::Last, value.model()),
            !final(self).awaiting(),
            final(self).phase() == Phase::Running,
            final(self).source() == old(self).source(),
            final(self).client_version() == old(self).client_version(),
            final(self).daemon_id() == old(self).daemon_id(),
            final(self).read == old(self).read,
            final(self).same_upstream(*old(self)),
    {
        let value = resp.ty(value);
        write_frame(&mut self.write, Opcode::Last, &value);
        self.state.awaiting = false;
    }

    /// Answers a request for an archive: ends the side channel with `Last`
    /// and sends the bytes of the archive as they are, without a length.
    pub fn reply_nar(&mut self, resp: &Resp<Nar>, nar: &Nar)
        requires
            old(self).phase() == Phase::Running,
            old(self).awaiting(),
            old(self).source().done,
        ensures
            final(self).write@ == old(self).write@ + (word(STDERR_LAST) + nar.0@),
            !final(self).awaiting(),
            final(self).phase() == Phase::Running,
            final(self).source() == old(self).source(),
            final(self).client_version() == old(self).client_version(),
            final(self).daemon_id() == old(self).daemon_id(),
            final(self).read == old(self).read,
            final(self).same_upstream(*old(self)),
    {
        self.write.write_u64(Opcode::Last.to_u64());
        append(&mut self.write.inner, nar.0.as_slice());
        self.state.awaiting = false;
        assert(self.write@ =~= old(self).write@ + (word(STDERR_LAST) + nar.0@));
    }

    /// Answers the request at hand with an error from the backend: sends an
    /// `Error` frame with the given body and no reply. The connection goes
    /// on with the next request.
    pub fn fail<B: Encode>(&mut self, body: &B)
        requires
            old(self).phase() == Phase::Running,
            old(self).awaiting(),
            old(self).source().done,
        ensures
            final(self).write@ == old(self).write@ + frame::<B>(Opcode::Error, body.model()),
            !final(self).awaiting(),
            final(self).phase() == Phase::Running,
            final(self).source() == old(self).source(),
            final(self).client_version() == old(self).client_version(),
            final(self).daemon_id() == old(self).daemon_id(),
            final(self).read == old(self).read,
            final(self).same_upstream(*old(self)),
    {
        write_frame(&mut self.write, Opcode::Error, body);
        self.state.awaiting = false;
    }

    /// What a stretch `h` of the handshake with the daemon upstream has done
    /// to the connection that was `before`. A handshake that fails closes
    /// the connection.
    pub open spec fn upstream_stepped(
        &self,
        before: NixReadWrite,
        h: UpstreamHandshake,
        r: Result<bool, Error>,
    ) -> bool {
        &&& r == h.result
        &&& self.upstream() == h.state
        &&& self.proxy.child_out.remaining() == before.proxy.child_out.remaining().skip(
            h.consumed as int,
        )
        &&& self.proxy.child_out.at_end() == before.proxy.child_out.at_end()
        &&& self.proxy.child_out.held() == before.proxy.child_out.held()
        &&& self.proxy.child_in@ == before.proxy.child_in@ + h.output
        &&& self.upstream_id() == if h.state == Upstream::Ready && before.upstream()
            != Upstream::Ready {
            h.id
        } else {
            before.upstream_id()
        }
        &&& self.phase() == if h.result is Err {
            Phase::Closed
        } else {
            before.phase()
        }
        &&& self.client_version() == before.client_version()
        &&& self.daemon_id() == before.daemon_id()
        &&& self.awaiting() == before.awaiting()
        &&& self.source() == before.source()
        &&& self.read == before.read
        &&& self.write == before.write
    }

    /// Gives up on output of the daemon that does not reach: waits if more
    /// may come, and closes the connection if none will.
    fn stall_upstream(&mut self) -> (r: Result<bool, Error>)
        requires
            old(self).wf(),
        ensures
            final(self).wf(),
            final(self).upstream_stepped(
                *old(self),
                upstream_stalled(old(self).upstream(), old(self).proxy.child_out.at_end()),
                r,
            ),
    {
        proof {
            let input = self.proxy.child_out.remaining();
            assert(input.skip(0) =~= input);
            assert(self.proxy.child_in@ + Seq::<u8>::empty() =~= self.proxy.child_in@);
        }
        if self.proxy.child_out.is_closed() {
            self.state.phase = Phase::Closed;
            Err(Error::UnexpectedEof)
        } else {
            Ok(false)
        }
    }

    /// Breaks the handshake with the daemon off and closes the connection.
    fn refuse_upstream(&mut self, e: Error) -> (r: Result<bool, Error>)
        requires
            old(self).wf(),
        ensures
            final(self).wf(),
            final(self).upstream_stepped(
                *old(self),
                upstream_refused(old(self).upstream(), e),
                r,
            ),
    {
        proof {
            let input = self.proxy.child_out.remaining();
            assert(input.skip(0) =~= input);
            assert(self.proxy.child_in@ + Seq::<u8>::empty() =~= self.proxy.child_in@);
        }
        self.state.phase = Phase::Closed;
        Err(e)
    }

    /// The last part of the handshake with the daemon upstream.
    fn identify_upstream(&mut self) -> (r: Result<bool, Error>)
        requires
            old(self).wf(),
            old(self).upstream() == Upstream::Identifying,
        ensures
            final(self).wf(),
            final(self).upstream_stepped(
                *old(self),
                upstream_identify(
                    old(self).proxy.child_out.remaining(),
                    old(self).proxy.child_out.at_end(),
                ),
                r,
            ),
    {
        match self.proxy.child_out.peek::<(ByteBuf, u64)>() {
            Err(e) => {
                if e.is_unexpected_eof() {
                    self.stall_upstream()
                } else {
                    self.refuse_upstream(e)
                }
            },
            Ok((_, last)) => {
                if last != STDERR_LAST {
                    return self.refuse_upstream(Error::ProtocolMismatch(last));
                }
                let id = self.proxy.read_string();
                let _ = self.proxy.read_u64();
                match id {
                    Ok(id) => {
                        self.state.upstream_id = id;
                    },
                    Err(_) => {
                    },
                }
                self.state.upstream = Upstream::Ready;
                proof {
                    let input = old(self).proxy.child_out.remaining();
                    let h = upstream_identify(input, old(self).proxy.child_out.at_end());
                    let n = crate::byte_string::parse_string(input)->Ok_0.1;
                    assert(input.skip(n as int).skip(8) =~= input.skip(h.consumed as int));
                    assert(self.proxy.child_in@ + Seq::<u8>::empty() =~= self.proxy.child_in@);
                }
                Ok(true)
            },
        }
    }

    /// The middle part of the handshake with the daemon upstream, and then
    /// the last.
    fn greet_upstream(&mut self) -> (r: Result<bool, Error>)
        requires
            old(self).wf(),
            old(self).upstream() == Upstream::Greeting,
        ensures
            final(self).wf(),
            final(self).upstream_stepped(
                *old(self),
                upstream_greet(
                    old(self).proxy.child_out.remaining(),
                    old(self).proxy.child_out.at_end(),
                    old(self).client_version(),
                ),
                r,
            ),
    {
        let magic = match self.proxy.child_out.peek::<u64>() {
            Err(_) => {
                return self.stall_upstream();
            },
            Ok(magic) => magic,
        };
        if magic != WORKER_MAGIC_2 {
            return self.refuse_upstream(Error::ProtocolMismatch(magic));
        }
        match self.proxy.child_out.peek::<(u64, u64)>() {
            Err(_) => self.stall_upstream(),
            Ok((_, version)) => {
                if version != PROTOCOL_VERSION {
                    return self.refuse_upstream(Error::ProtocolMismatch(version));
                }
                let _ = self.proxy.read_u64();
                let _ = self.proxy.read_u64();
                self.proxy.write_u64(self.state.client_version);
                self.proxy.write_u64(0);
                self.proxy.write_u64(0);
                self.state.upstream = Upstream::Identifying;
                let ghost input = old(self).proxy.child_out.remaining();
                let ghost sent = old(self).proxy.child_in@;
                let ghost next = upstream_identify(
                    input.skip(16),
                    old(self).proxy.child_out.at_end(),
                );
                proof {
                    assert(input.skip(8).skip(8) =~= input.skip(16));
                    assert(self.proxy.child_in@ =~= sent + upstream_answer(
                        self.state.client_version,
                    ));
                }
                let r = self.identify_upstream();
                proof {
                    assert(input.skip(16).skip(next.consumed as int) =~= input.skip(
                        (16 + next.consumed) as int,
                    ));
                    assert(sent + upstream_answer(self.state.client_version) + next.output =~= sent
                        + (upstream_answer(self.state.client_version) + next.output));
                }
                r
            },
        }
    }

    /// Carries the handshake with the daemon upstream as far as that daemon's
    /// output allows, in the name of the client that is connected here.
    ///
    /// Says whether the daemon is ready. A wrong magic number, a version
    /// other than the one spoken here, a side channel that does not end at
    /// once, or an end of the daemon's output closes the connection.
    pub fn connect_upstream(&mut self) -> (r: Result<bool, Error>)
        requires
            old(self).wf(),
            old(self).phase().serves(),
        ensures
            final(self).wf(),
            final(self).upstream_stepped(
                *old(self),
                upstream_handshake(
                    old(self).upstream(),
                    old(self).proxy.child_out.remaining(),
                    old(self).proxy.child_out.at_end(),
                    old(self).client_version(),
                ),
                r,
            ),
    {
        match self.state.upstream {
            Upstream::Idle => {
                self.proxy.write_u64(WORKER_MAGIC_1);
                self.state.upstream = Upstream::Greeting;
                let r = self.greet_upstream();
                proof {
                    let next = upstream_greet(
                        old(self).proxy.child_out.remaining(),
                        old(self).proxy.child_out.at_end(),
                        old(self).client_version(),
                    );
                    assert(old(self).proxy.child_in@ + word(WORKER_MAGIC_1) + next.output =~= old(
                        self,
                    ).proxy.child_in@ + (word(WORKER_MAGIC_1) + next.output));
                }
                r
            },
            Upstream::Greeting => self.greet_upstream(),
            Upstream::Identifying => self.identify_upstream(),
            Upstream::Ready => {
                proof {
                    let input = self.proxy.child_out.remaining();
                    assert(input.skip(0) =~= input);
                    assert(self.proxy.child_in@ + Seq::<u8>::empty() =~= self.proxy.child_in@);
                }
                Ok(true)
            },
        }
    }

    /// What `relay_op` has done to the connection that was `before`.
    pub open spec fn relayed_request(&self, before: NixReadWrite, r: Result<Progress, Error>)
        -> bool {
        let input = before.read.remaining();
        &&& self.read.at_end() == before.read.at_end()
        &&& self.read.held() == before.read.held()
        &&& self.client_version() == before.client_version()
        &&& self.daemon_id() == before.daemon_id()
        &&& self.upstream() == before.upstream()
        &&& self.upstream_id() == before.upstream_id()
        &&& before.phase().rank() <= self.phase().rank()
        &&& if before.awaiting() {
            let run = framed_run(before.source(), input);
            let report = framed_outcome(run.state, before.read.at_end());
            &&& self.source() == run.state
            &&& self.read.remaining() == input.skip(run.consumed as int)
            &&& self.proxy.child_in@ == before.proxy.child_in@ + input.take(run.consumed as int)
            &&& self.awaiting() == !run.state.done
            &&& r == completion_progress(report)
            &&& self.phase() == if report is Err {
                Phase::Closed
            } else {
                before.phase()
            }
        } else {
            match faithful::<WorkerOp>(input) {
                Ok(n) => {
                    &&& r matches Ok(Progress::Forwarded(op)) && WorkerOp::parse(input) == Ok::<
                        (crate::worker_op::WorkerOpModel, nat),
                        Error,
                    >((op.model(), n)) && self.awaiting() == op.model().has_source()
                    &&& self.read.remaining() == input.skip(n as int)
                    &&& self.proxy.child_in@ == before.proxy.child_in@ + input.take(n as int)
                    &&& self.phase() == Phase::Running
                    &&& self.source() == fresh_source()
                },
                Err(e) => {
                    &&& r == idle_outcome(e, input, before.read.at_end())
                    &&& self.read.remaining() == input
                    &&& self.proxy.child_in@ == before.proxy.child_in@
                    &&& self.awaiting() == before.awaiting()
                    &&& self.source() == before.source()
                    &&& self.phase() == if r matches Ok(Progress::Waiting) {
                        before.phase()
                    } else {
                        Phase::Closed
                    }
                },
            }
        }
    }

    /// Passes the next request on to the daemon upstream, or goes on passing
    /// on the framed source of the last one.
    ///
    /// A request is read, written again and compared with the bytes it came
    /// as; where they differ the connection is closed with `CodecMismatch`,
    /// and otherwise those bytes are what the daemon is sent. A framed
    /// source is passed on as it comes. While a source is on its way the
    /// connection counts as having a request at hand.
    pub fn relay_op(&mut self) -> (r: Result<Progress, Error>)
        requires
            old(self).wf(),
            old(self).phase().serves(),
        ensures
            final(self).wf(),
            final(self).relayed_request(*old(self), r),
            final(self).write == old(self).write,
            final(self).proxy.child_out == old(self).proxy.child_out,
    {
        if self.state.awaiting {
            match self.state.source.forward(&mut self.read, &mut self.proxy.child_in) {
                Ok(true) => {
                    self.state.awaiting = false;
                    Ok(Progress::Advanced)
                },
                Ok(false) => Ok(Progress::Waiting),
                Err(e) => {
                    self.state.phase = Phase::Closed;
                    Err(e)
                },
            }
        } else {
            match self.read.read_through::<WorkerOp>(&mut self.proxy.child_in) {
                Ok(op) => {
                    self.state.phase = Phase::Running;
                    self.state.awaiting = op.is_framed();
                    self.state.source = FramedSource::new();
                    Ok(Progress::Forwarded(op))
                },
                Err(e) => self.idle(e),
            }
        }
    }

    /// What `relay_replies` has done to the connection that was `before`.
    pub open spec fn replies_relayed(&self, before: NixReadWrite) -> bool {
        &&& self.write@ == before.write@ + before.proxy.child_out.remaining()
        &&& self.proxy.child_out.remaining() == Seq::<u8>::empty()
        &&& self.proxy.child_out.at_end() == before.proxy.child_out.at_end()
        &&& self.proxy.child_out.held() == before.proxy.child_out.held()
    }

    /// Passes everything that the daemon upstream has sent on to the client,
    /// as it came.
    ///
    /// The bytes are not read on their way. A reply stands behind the
    /// frames of the side channel, and where those frames end cannot be told
    /// here: the bodies of `Error`, `StartActivity` and `Result` have no
    /// layout that this library fixes, and the archive that answers
    /// `NarFromPath` has no length in front of it. So the reply is not
    /// decoded and compared on this way. A caller that knows it stands at
    /// the start of a reply can have it checked with
    /// `WorkerOp::proxy_response` in place of this.
    pub fn relay_replies(&mut self)
        requires
            old(self).wf(),
        ensures
            final(self).wf(),
            final(self).replies_relayed(*old(self)),
            final(self).read == old(self).read,
            final(self).proxy.child_in == old(self).proxy.child_in,
            final(self).state == old(self).state,
    {
        self.proxy.child_out.drain(&mut self.write.inner);
    }

    /// What `process_connection` has done to the connection that was
    /// `before`: one step, chosen by where the connection stood.
    pub open spec fn processed(
        &self,
        before: NixReadWrite,
        proxy_to_nix: bool,
        r: Result<Progress, Error>,
    ) -> bool {
        match before.phase() {
            Phase::Opening | Phase::Negotiating => {
                let h = handshake(
                    before.phase(),
                    before.read.remaining(),
                    before.read.at_end(),
                    before.daemon_id(),
                );
                &&& self.initialized(before, h.result)
                &&& r == handshake_progress(h.result)
                &&& self.same_upstream(before)
            },
            Phase::Options | Phase::Running => if !proxy_to_nix {
                &&& self.took_request(before, r)
                &&& self.write == before.write
                &&& self.same_upstream(before)
            } else if before.upstream() != Upstream::Ready {
                let h = upstream_handshake(
                    before.upstream(),
                    before.proxy.child_out.remaining(),
                    before.proxy.child_out.at_end(),
                    before.client_version(),
                );
                &&& self.upstream_stepped(before, h, h.result)
                &&& r == completion_progress(h.result)
            } else {
                &&& self.relayed_request(before, r)
                &&& self.replies_relayed(before)
            },
            Phase::Closed => r == Ok::<Progress, Error>(Progress::Closed) && *self == before,
        }
    }

    /// A step never takes a connection back: the phase it leaves is the one
    /// it found or a later one, a closed connection stays as it is, and a
    /// request is handed out or passed on only by a connection whose
    /// handshake is through, which is `Running` from then on.
    pub proof fn lemma_lifecycle(
        &self,
        before: NixReadWrite,
        proxy_to_nix: bool,
        r: Result<Progress, Error>,
    )
        requires
            self.processed(before, proxy_to_nix, r),
        ensures
            before.phase().rank() <= self.phase().rank(),
            before.phase() == Phase::Closed ==> *self == before,
            r matches Ok(Progress::Request(_)) ==> before.phase().serves() && self.phase()
                == Phase::Running,
            r matches Ok(Progress::Forwarded(_)) ==> before.phase().serves() && self.phase()
                == Phase::Running,
            r is Err ==> self.phase() == Phase::Closed,
    {
    }

    /// Takes the connection one step further, whatever step is next.
    ///
    /// Before the handshake is through, the step is the handshake. After
    /// it, a server on its own reads the next request and hands it out, to
    /// be answered with `reply` or `fail`. With `proxy_to_nix` the
    /// connection is a go-between: the step is the handshake with the
    /// daemon upstream until that daemon is ready, and from then on passes
    /// the daemon's output to the client and the client's next request, or
    /// more of its framed source, to the daemon. A connection that is closed
    /// stays closed.
    ///
    /// As a go-between the connection checks every request on its way up:
    /// it is decoded, written again and compared with the bytes it came as.
    /// The daemon's output goes down unchecked, as `relay_replies` passes it
    /// on; that function says why.
    ///
    /// The caller repeats the call until it reports `Waiting`, then moves
    /// bytes and calls again.
    pub fn process_connection(&mut self, proxy_to_nix: bool) -> (r: Result<Progress, Error>)
        requires
            old(self).wf(),
            !proxy_to_nix && old(self).phase().serves() ==> !old(self).awaiting(),
        ensures
            final(self).wf(),
            final(self).processed(*old(self), proxy_to_nix, r),
            old(self).phase().rank() <= final(self).phase().rank(),
    {
        match self.state.phase {
            Phase::Opening | Phase::Negotiating => match self.initialize() {
                Ok(Some(_)) => Ok(Progress::Advanced),
                Ok(None) => Ok(Progress::Waiting),
                Err(e) => Err(e),
            },
            Phase::Options | Phase::Running => {
                if !proxy_to_nix {
                    self.next_op()
                } else if !matches!(self.state.upstream, Upstream::Ready) {
                    match self.connect_upstream() {
                        Ok(true) => Ok(Progress::Advanced),
                        Ok(false) => Ok(Progress::Waiting),
                        Err(e) => Err(e),
                    }
                } else {
                    self.relay_replies();
                    self.relay_op()
                }
            },
            Phase::Closed => Ok(Progress::Closed),
        }
    }
}

} // verus!
