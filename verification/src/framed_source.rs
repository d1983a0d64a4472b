//! The framed source that follows some requests: a payload cut into chunks,
//! each behind its length, and closed by a chunk of length zero. Chunks carry
//! no padding, and where they are cut carries no meaning.

use crate::error::Error;
use crate::io::{NixStoreRead, NixStoreWrite};
use crate::wire::{lemma_word, lemma_word_value, parse_word, word, word_value};
use vstd::prelude::*;

verus! {

/// Where a reader stands in a framed source. It holds no payload: a source
/// may be larger than memory and is handed on as it arrives.
#[derive(Clone, Copy, Debug, PartialEq, Eq, Structural)]
pub struct FramedSource {
    /// What is still to come of the chunk being read. Zero between chunks.
    pub left: u64,
    /// Whether the closing chunk has been read.
    pub done: bool,
}

/// What reading from a framed source came to: where the reader stands
/// afterwards, how many bytes of input it took, and the payload it found in
/// them.
pub struct FramedRun {
    pub state: FramedSource,
    pub consumed: nat,
    pub payload: Seq<u8>,
}

/// A run that takes nothing and leaves the reader where it stands.
pub open spec fn framed_stop(state: FramedSource) -> FramedRun {
    FramedRun { state, consumed: 0, payload: Seq::empty() }
}

/// The run `next` after `consumed` bytes that held `payload`.
pub open spec fn framed_after(consumed: nat, payload: Seq<u8>, next: FramedRun) -> FramedRun {
    FramedRun {
        state: next.state,
        consumed: consumed + next.consumed,
        payload: payload + next.payload,
    }
}

/// Reads as far as the input `s` allows, starting from `state`: through whole
/// chunk headers and as much chunk data as there is, until the closing chunk
/// has been read or the input gives out.
pub open spec fn framed_run(state: FramedSource, s: Seq<u8>) -> FramedRun
    decreases s.len(),
{
    if state.done {
        framed_stop(state)
    } else if state.left > 0 {
        if s.len() == 0 {
            framed_stop(state)
        } else {
            let k = if state.left <= s.len() {
                state.left as nat
            } else {
                s.len()
            };
            let next = FramedSource { left: (state.left - k) as u64, done: false };
            framed_after(k, s.take(k as int), framed_run(next, s.skip(k as int)))
        }
    } else if s.len() < 8 {
        framed_stop(state)
    } else {
        let len = word_value(s.take(8));
        let next = FramedSource { left: len, done: len == 0 };
        framed_after(8, Seq::empty(), framed_run(next, s.skip(8)))
    }
}

/// What a reader reports after a run: whether the source is complete, or that
/// it never will be because the input has ended.
pub open spec fn framed_outcome(state: FramedSource, at_end: bool) -> Result<bool, Error> {
    if state.done {
        Ok(true)
    } else if at_end {
        Err(Error::TruncatedFramedSource)
    } else {
        Ok(false)
    }
}

/// A run never takes more than there is.
pub proof fn lemma_framed_run_within(state: FramedSource, s: Seq<u8>)
    ensures
        framed_run(state, s).consumed <= s.len(),
    decreases s.len(),
{
    if state.done {
    } else if state.left > 0 {
        if s.len() > 0 {
            let k = if state.left <= s.len() {
                state.left as nat
            } else {
                s.len()
            };
            let next = FramedSource { left: (state.left - k) as u64, done: false };
            lemma_framed_run_within(next, s.skip(k as int));
        }
    } else if s.len() >= 8 {
        let len = word_value(s.take(8));
        let next = FramedSource { left: len, done: len == 0 };
        lemma_framed_run_within(next, s.skip(8));
    }
}

/// Reading part of a chunk and going on from there comes to the same as
/// reading as much of the chunk as there is in one go.
proof fn lemma_framed_chunk_splits(state: FramedSource, s: Seq<u8>, k: nat)
    requires
        !state.done,
        0 < k <= state.left,
        k <= s.len(),
    ensures
        framed_run(state, s) == framed_after(
            k,
            s.take(k as int),
            framed_run(FramedSource { left: (state.left - k) as u64, done: false }, s.skip(k as int)),
        ),
{
    let all = if state.left <= s.len() {
        state.left as nat
    } else {
        s.len()
    };
    if k < all {
        let mid = FramedSource { left: (state.left - k) as u64, done: false };
        let end = FramedSource { left: (state.left - all) as u64, done: false };
        let tail = s.skip(k as int);
        let rest = framed_run(end, s.skip(all as int));
        assert(tail.skip(all - k) =~= s.skip(all as int));
        assert(framed_run(mid, tail) == framed_after(
            (all - k) as nat,
            tail.take(all - k),
            rest,
        ));
        assert(s.take(k as int) + tail.take(all - k) =~= s.take(all as int));
        assert(s.take(k as int) + (tail.take(all - k) + rest.payload) =~= s.take(all as int)
            + rest.payload);
    }
}

/// Where the input is cut carries no meaning either: a reader that is fed
/// `first`, and then `more` behind what it left of `first`, ends where a
/// reader ends that is fed both at once, and has found the same payload.
pub proof fn lemma_framed_run_resumes(state: FramedSource, first: Seq<u8>, more: Seq<u8>)
    ensures
        ({
            let begun = framed_run(state, first);
            framed_run(state, first + more) == framed_after(
                begun.consumed,
                begun.payload,
                framed_run(begun.state, (first + more).skip(begun.consumed as int)),
            )
        }),
    decreases first.len(),
{
    let all = first + more;
    let begun = framed_run(state, first);
    let whole = framed_run(state, all);
    if state.done || (state.left > 0 && first.len() == 0) || (state.left == 0 && first.len() < 8) {
        assert(all.skip(0) =~= all);
        assert(Seq::<u8>::empty() + whole.payload =~= whole.payload);
    } else if state.left > 0 {
        let k = if state.left <= first.len() {
            state.left as nat
        } else {
            first.len()
        };
        let next = FramedSource { left: (state.left - k) as u64, done: false };
        let tail = first.skip(k as int);
        let inner = framed_run(next, tail);
        lemma_framed_chunk_splits(state, all, k);
        assert(all.take(k as int) =~= first.take(k as int));
        assert(all.skip(k as int) =~= tail + more);
        lemma_framed_run_resumes(next, tail, more);
        lemma_framed_run_within(next, tail);
        let last = framed_run(inner.state, (tail + more).skip(inner.consumed as int));
        assert((tail + more).skip(inner.consumed as int) =~= all.skip(
            (k + inner.consumed) as int,
        ));
        assert(first.take(k as int) + (inner.payload + last.payload) =~= (first.take(k as int)
            + inner.payload) + last.payload);
    } else {
        let len = word_value(first.take(8));
        let next = FramedSource { left: len, done: len == 0 };
        let tail = first.skip(8);
        let inner = framed_run(next, tail);
        assert(all.take(8) =~= first.take(8));
        assert(all.skip(8) =~= tail + more);
        lemma_framed_run_resumes(next, tail, more);
        lemma_framed_run_within(next, tail);
        let last = framed_run(inner.state, (tail + more).skip(inner.consumed as int));
        assert((tail + more).skip(inner.consumed as int) =~= all.skip(
            (8 + inner.consumed) as int,
        ));
        assert(Seq::<u8>::empty() + (inner.payload + last.payload) =~= (Seq::<u8>::empty()
            + inner.payload) + last.payload);
    }
}

/// The bytes of a framed source that carries `chunks`: each chunk behind its
/// length, then a length of zero.
pub open spec fn framed_encoding(chunks: Seq<Seq<u8>>) -> Seq<u8>
    decreases chunks.len(),
{
    if chunks.len() == 0 {
        word(0)
    } else {
        word(chunks[0].len() as u64) + chunks[0] + framed_encoding(chunks.skip(1))
    }
}

/// The chunks put end to end.
pub open spec fn framed_payload(chunks: Seq<Seq<u8>>) -> Seq<u8>
    decreases chunks.len(),
{
    if chunks.len() == 0 {
        Seq::empty()
    } else {
        chunks[0] + framed_payload(chunks.skip(1))
    }
}

/// However a payload is cut into chunks, a reader that starts between chunks
/// finds exactly the payload, takes exactly the source's bytes and ends
/// complete, whatever follows the source on the stream.
///
/// A chunk of length zero closes the source, so none of the chunks may be
/// empty; and a chunk's length must fit the word that announces it.
pub proof fn lemma_framed_concatenation(chunks: Seq<Seq<u8>>, rest: Seq<u8>)
    requires
        forall|i: int| 0 <= i < chunks.len() ==> 0 < (#[trigger] chunks[i]).len() <= u64::MAX,
    ensures
        framed_run(FramedSource { left: 0, done: false }, framed_encoding(chunks) + rest)
            == (FramedRun {
            state: FramedSource { left: 0, done: true },
            consumed: framed_encoding(chunks).len(),
            payload: framed_payload(chunks),
        }),
    decreases chunks.len(),
{
    let start = FramedSource { left: 0, done: false };
    let input = framed_encoding(chunks) + rest;
    if chunks.len() == 0 {
        lemma_word(0);
        assert(input.take(8) =~= word(0));
        let closed = FramedSource { left: 0, done: true };
        assert(framed_run(closed, input.skip(8)) == framed_stop(closed));
        assert(Seq::<u8>::empty() + Seq::<u8>::empty() =~= Seq::<u8>::empty());
    } else {
        let chunk = chunks[0];
        let len = chunk.len() as u64;
        let tail = chunks.skip(1);
        let after = framed_encoding(tail) + rest;
        lemma_word(len);
        assert(input.take(8) =~= word(len));
        let body = input.skip(8);
        assert(body =~= chunk + after);
        let open = FramedSource { left: len, done: false };
        assert(body.take(len as int) =~= chunk);
        assert(body.skip(len as int) =~= after);
        assert forall|i: int| 0 <= i < tail.len() implies 0 < (#[trigger] tail[i]).len()
            <= u64::MAX by {
            assert(tail[i] == chunks[i + 1]);
        }
        lemma_framed_concatenation(tail, rest);
        assert(framed_run(open, body) == framed_after(
            len as nat,
            chunk,
            framed_run(start, after),
        ));
        assert(Seq::<u8>::empty() + (chunk + framed_payload(tail)) =~= framed_payload(chunks));
    }
}

impl FramedSource {
    /// A reader that stands before the first chunk.
    pub fn new() -> (source: FramedSource)
        ensures
            source == (FramedSource { left: 0, done: false }),
    {
        FramedSource { left: 0, done: false }
    }

    /// Whether the closing chunk has been read.
    pub fn is_done(&self) -> (done: bool)
        ensures
            done == self.done,
    {
        self.done
    }

    /// Reads on as far as the input allows. With `verbatim`, `out` receives
    /// every byte that was taken, lengths included; without, the payload only.
    fn run(&mut self, read: &mut NixStoreRead, out: &mut Vec<u8>, verbatim: bool) -> (r: Result<
        bool,
        Error,
    >)
        requires
            old(read).wf(),
        ensures
            final(read).wf(),
            final(read).at_end() == old(read).at_end(),
            final(read).held() == old(read).held(),
            *final(self) == framed_run(*old(self), old(read).remaining()).state,
            final(read).remaining() == old(read).remaining().skip(
                framed_run(*old(self), old(read).remaining()).consumed as int,
            ),
            final(out)@ == old(out)@ + if verbatim {
                old(read).remaining().take(
                    framed_run(*old(self), old(read).remaining()).consumed as int,
                )
            } else {
                framed_run(*old(self), old(read).remaining()).payload
            },
            r == framed_outcome(*final(self), old(read).at_end()),
    {
        let ghost input = read.remaining();
        let ghost whole = framed_run(*self, input);
        let ghost mut consumed: nat = 0;
        let ghost mut payload: Seq<u8> = Seq::empty();
        proof {
            assert(input.skip(0) =~= input);
            assert(payload + whole.payload =~= whole.payload);
            assert(out@ + input.take(0) =~= out@);
            assert(out@ + payload =~= out@);
        }
        loop
            invariant
                read.wf(),
                read.at_end() == old(read).at_end(),
                read.held() == old(read).held(),
                consumed <= input.len(),
                read.remaining() == input.skip(consumed as int),
                whole == framed_after(consumed, payload, framed_run(*self, read.remaining())),
                out@ == old(out)@ + if verbatim {
                    input.take(consumed as int)
                } else {
                    payload
                },
            ensures
                read.wf(),
                read.at_end() == old(read).at_end(),
                read.held() == old(read).held(),
                read.remaining() == input.skip(consumed as int),
                whole == framed_after(consumed, payload, framed_stop(*self)),
                out@ == old(out)@ + if verbatim {
                    input.take(consumed as int)
                } else {
                    payload
                },
            decreases read.remaining().len(),
        {
            let ghost here = read.remaining();
            let ghost before = *self;
            if self.done {
                break ;
            }
            if self.left > 0 {
                let taken = read.read_raw(self.left, out);
                if taken == 0 {
                    proof {
                        assert(out@ =~= old(out)@ + if verbatim {
                            input.take(consumed as int)
                        } else {
                            payload
                        });
                    }
                    break ;
                }
                self.left = self.left - taken;
                proof {
                    assert(input.take(consumed as int) + here.take(taken as int) =~= input.take(
                        consumed + taken,
                    ));
                    assert(here.skip(taken as int) =~= input.skip(consumed + taken));
                    assert(out@ =~= old(out)@ + if verbatim {
                        input.take(consumed + taken)
                    } else {
                        payload + here.take(taken as int)
                    });
                    assert((payload + here.take(taken as int)) + framed_run(
                        *self,
                        read.remaining(),
                    ).payload =~= payload + (here.take(taken as int) + framed_run(
                        *self,
                        read.remaining(),
                    ).payload));
                    payload = payload + here.take(taken as int);
                    consumed = consumed + taken as nat;
                }
            } else {
                match read.read_u64() {
                    Err(_) => {
                        break ;
                    },
                    Ok(len) => {
                        if verbatim {
                            crate::wire::Encode::encode(&len, out);
                        }
                        self.left = len;
                        self.done = len == 0;
                        proof {
                            lemma_word_value(here.take(8));
                            assert(input.take(consumed as int) + here.take(8) =~= input.take(
                                (consumed + 8) as int,
                            ));
                            assert(here.skip(8) =~= input.skip((consumed + 8) as int));
                            assert(out@ =~= old(out)@ + if verbatim {
                                input.take((consumed + 8) as int)
                            } else {
                                payload
                            });
                            assert(payload + (Seq::<u8>::empty() + framed_run(
                                *self,
                                read.remaining(),
                            ).payload) =~= payload + framed_run(*self, read.remaining()).payload);
                            consumed = consumed + 8;
                        }
                    },
                }
            }
        }
        proof {
            assert(payload + Seq::<u8>::empty() =~= payload);
        }
        if self.done {
            Ok(true)
        } else if read.is_closed() {
            Err(Error::TruncatedFramedSource)
        } else {
            Ok(false)
        }
    }

    /// Reads on as far as the input allows and appends the payload found to
    /// `sink`. Says whether the source is complete; fails with
    /// `TruncatedFramedSource` where it is not and the input has ended.
    pub fn read(&mut self, read: &mut NixStoreRead, sink: &mut Vec<u8>) -> (r: Result<bool, Error>)
        requires
            old(read).wf(),
        ensures
            final(read).wf(),
            final(read).at_end() == old(read).at_end(),
            final(read).held() == old(read).held(),
            *final(self) == framed_run(*old(self), old(read).remaining()).state,
            final(read).remaining() == old(read).remaining().skip(
                framed_run(*old(self), old(read).remaining()).consumed as int,
            ),
            final(sink)@ == old(sink)@ + framed_run(*old(self), old(read).remaining()).payload,
            r == framed_outcome(*final(self), old(read).at_end()),
    {
        self.run(read, sink, false)
    }

    /// Reads on as far as the input allows and passes every byte taken on to
    /// `write` as it came, lengths included. Says whether the source is
    /// complete; fails with `TruncatedFramedSource` where it is not and the
    /// input has ended.
    pub fn forward(&mut self, read: &mut NixStoreRead, write: &mut NixStoreWrite) -> (r: Result<
        bool,
        Error,
    >)
        requires
            old(read).wf(),
        ensures
            forwarded(
                *old(self),
                old(read).remaining(),
                old(read).at_end(),
                old(write)@,
                *final(self),
                final(read).remaining(),
                final(write)@,
                r,
            ),
            final(read).wf(),
            final(read).at_end() == old(read).at_end(),
            final(read).held() == old(read).held(),
    {
        self.run(read, &mut write.inner, true)
    }
}

/// A reader that stood at `state` before input `input` has read on as far as
/// the input allowed and passed what it took on as it came: it stands at
/// `state_after`, `input_after` is left, `output_after` has been written,
/// and `r` was reported.
pub open spec fn forwarded(
    state: FramedSource,
    input: Seq<u8>,
    at_end: bool,
    output: Seq<u8>,
    state_after: FramedSource,
    input_after: Seq<u8>,
    output_after: Seq<u8>,
    r: Result<bool, Error>,
) -> bool {
    let run = framed_run(state, input);
    &&& state_after == run.state
    &&& input_after == input.skip(run.consumed as int)
    &&& output_after == output + input.take(run.consumed as int)
    &&& r == framed_outcome(run.state, at_end)
}

} // verus!
