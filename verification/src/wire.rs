//! The wire format: what a value looks like on the stream, as a function
//! from values to bytes (`encoding`) and from bytes back to values (`parse`).

use crate::error::Error;
use vstd::bytes::{
    lemma_auto_spec_u64_to_from_le_bytes, spec_u64_from_le_bytes, spec_u64_to_le_bytes,
    spec_u64_to_le_bytes_to_open, u64_from_le_bytes, u64_to_le_bytes,
};
use vstd::prelude::*;
use vstd::slice::slice_subrange;

verus! {

/// The result of reading one value off the front of a byte sequence: the value
/// and the number of bytes it took, or the reason there is none.
pub type Parsed<M> = Result<(M, nat), Error>;

/// A type that can be written to the wire.
///
/// `Model` is the mathematical value that the bytes stand for, and `encoding`
/// is the one byte sequence a conforming writer emits for it.
pub trait Encode {
    type Model;

    /// The value that `self` stands for.
    spec fn model(&self) -> Self::Model;

    /// The bytes written for `m`.
    spec fn encoding(m: Self::Model) -> Seq<u8>;

    /// Every encoding is a whole number of 8-byte words.
    proof fn lemma_encoding_aligned(m: Self::Model)
        ensures
            Self::encoding(m).len() % 8 == 0,
    ;

    /// Appends the encoding of `self` to `out`.
    fn encode(&self, out: &mut Vec<u8>)
        ensures
            final(out)@ == old(out)@ + Self::encoding(self.model()),
    ;
}

/// A type that can be written to the wire and read back from it.
///
/// `parse` reads a value off the front of any input. It accepts more than
/// `encoding` produces (a boolean may be any non-zero word, padding may hold
/// anything), so the two are stated apart and tied together by
/// `lemma_round_trip`.
pub trait Wire: Encode + Sized {
    /// Whether `m` can be written so that a reader accepts it: every byte
    /// string within the ceiling, every count within a word.
    spec fn encodable(m: Self::Model) -> bool;

    /// Reads one value off the front of `s`.
    spec fn parse(s: Seq<u8>) -> Parsed<Self::Model>;

    /// A successful parse consumes no more than there is.
    proof fn lemma_parse_within(s: Seq<u8>)
        ensures
            Self::parse(s) matches Ok((_, n)) ==> n <= s.len(),
    ;

    /// More input changes nothing that has been decided: what parses, parses
    /// the same with more bytes behind it, and what fails for another reason
    /// than the end of the input fails the same. Only `UnexpectedEof` can be
    /// cured by waiting.
    proof fn lemma_parse_stable(s: Seq<u8>, more: Seq<u8>)
        ensures
            Self::parse(s) != Err::<(Self::Model, nat), Error>(Error::UnexpectedEof)
                ==> Self::parse(s + more) == Self::parse(s),
    ;

    /// Reading back what was written gives the value that was written and
    /// stops exactly where the encoding ends, whatever follows it.
    proof fn lemma_round_trip(m: Self::Model, rest: Seq<u8>)
        requires
            Self::encodable(m),
        ensures
            Self::parse(Self::encoding(m) + rest) == Ok::<(Self::Model, nat), Error>(
                (m, Self::encoding(m).len()),
            ),
    ;

    /// Reads one value from `buf` starting at `pos`. Returns the value and the
    /// position just behind it, or the error that `parse` gives for the bytes
    /// from `pos` on.
    fn decode(buf: &[u8], pos: usize) -> (r: Result<(Self, usize), Error>)
        requires
            pos <= buf@.len(),
        ensures
            match Self::parse(buf@.skip(pos as int)) {
                Ok((m, n)) => r matches Ok((v, p)) && v.model() == m && p == pos + n,
                Err(e) => r matches Err(e2) && e2 == e,
            },
            r matches Ok((_, p)) ==> p <= buf@.len(),
    ;
}

/// A borrowed value is written as the value itself.
impl<'a, T: Encode> Encode for &'a T {
    type Model = T::Model;

    open spec fn model(&self) -> T::Model {
        (**self).model()
    }

    open spec fn encoding(m: T::Model) -> Seq<u8> {
        T::encoding(m)
    }

    proof fn lemma_encoding_aligned(m: T::Model) {
        T::lemma_encoding_aligned(m);
    }

    fn encode(&self, out: &mut Vec<u8>) {
        (**self).encode(out);
    }
}

/// Appends `bytes` to `out`.
pub fn append(out: &mut Vec<u8>, bytes: &[u8])
    ensures
        final(out)@ == old(out)@ + bytes@,
{
    out.extend_from_slice(bytes);
    assert forall|i: int| 0 <= i < out@.len() implies out@[i] == (old(out)@ + bytes@)[i] by {
        if i >= old(out)@.len() {
            assert(cloned::<u8>(bytes@[i - old(out)@.len()], out@[i]));
        }
    }
    assert(out@ =~= old(out)@ + bytes@);
}

/// A word on the wire: eight bytes, least significant first.
pub open spec fn word(n: u64) -> Seq<u8> {
    spec_u64_to_le_bytes(n)
}

/// The word that eight bytes stand for.
pub open spec fn word_value(s: Seq<u8>) -> u64 {
    spec_u64_from_le_bytes(s)
}

/// A word is eight bytes long, and reading it back gives the same number.
pub proof fn lemma_word(n: u64)
    ensures
        word(n).len() == 8,
        word_value(word(n)) == n,
{
    lemma_auto_spec_u64_to_from_le_bytes();
}

/// The bytes of a word, one by one: the byte at place `i` holds the bits
/// `8 * i` to `8 * i + 7` of the number.
pub proof fn lemma_word_bytes(n: u64)
    ensures
        word(n) == seq![
            (n & 0xff) as u8,
            ((n >> 8) & 0xff) as u8,
            ((n >> 16) & 0xff) as u8,
            ((n >> 24) & 0xff) as u8,
            ((n >> 32) & 0xff) as u8,
            ((n >> 40) & 0xff) as u8,
            ((n >> 48) & 0xff) as u8,
            ((n >> 56) & 0xff) as u8,
        ],
{
    spec_u64_to_le_bytes_to_open(n);
}

/// Any eight bytes are the word of the number they stand for.
pub proof fn lemma_word_value(s: Seq<u8>)
    requires
        s.len() == 8,
    ensures
        word(word_value(s)) == s,
{
    lemma_auto_spec_u64_to_from_le_bytes();
}

/// Reads a word off the front of `s`.
pub open spec fn parse_word(s: Seq<u8>) -> Parsed<u64> {
    if s.len() < 8 {
        Err(Error::UnexpectedEof)
    } else {
        Ok((word_value(s.take(8)), 8nat))
    }
}

/// A word that is there stays the same word when more bytes follow.
pub proof fn lemma_word_stable(s: Seq<u8>, more: Seq<u8>)
    ensures
        parse_word(s) is Ok ==> parse_word(s + more) == parse_word(s),
{
    if s.len() >= 8 {
        assert((s + more).take(8) =~= s.take(8));
    }
}

impl Encode for u64 {
    type Model = u64;

    open spec fn model(&self) -> u64 {
        *self
    }

    open spec fn encoding(m: u64) -> Seq<u8> {
        word(m)
    }

    proof fn lemma_encoding_aligned(m: u64) {
        lemma_word(m);
    }

    fn encode(&self, out: &mut Vec<u8>) {
        let bytes = u64_to_le_bytes(*self);
        append(out, bytes.as_slice());
        assert(Self::encoding(self.model()) == word(*self));
    }
}

impl Wire for u64 {
    open spec fn encodable(m: u64) -> bool {
        true
    }

    open spec fn parse(s: Seq<u8>) -> Parsed<u64> {
        parse_word(s)
    }

    proof fn lemma_parse_within(s: Seq<u8>) {
    }

    proof fn lemma_parse_stable(s: Seq<u8>, more: Seq<u8>) {
        lemma_word_stable(s, more);
    }

    proof fn lemma_round_trip(m: u64, rest: Seq<u8>) {
        lemma_word(m);
        assert((word(m) + rest).take(8) =~= word(m));
    }

    fn decode(buf: &[u8], pos: usize) -> (r: Result<(u64, usize), Error>) {
        let ghost input = buf@.skip(pos as int);
        assert(input.len() == buf@.len() - pos);
        assert(Self::parse(input) == parse_word(input));
        if buf.len() - pos < 8 {
            return Err(Error::UnexpectedEof);
        }
        let n = u64_from_le_bytes(slice_subrange(buf, pos, pos + 8));
        assert(buf@.subrange(pos as int, pos + 8) =~= input.take(8));
        Ok((n, pos + 8))
    }
}

/// The word written for a boolean: one for true, zero for false.
pub open spec fn bool_word(b: bool) -> u64 {
    if b {
        1
    } else {
        0
    }
}

impl Encode for bool {
    type Model = bool;

    open spec fn model(&self) -> bool {
        *self
    }

    open spec fn encoding(m: bool) -> Seq<u8> {
        word(bool_word(m))
    }

    proof fn lemma_encoding_aligned(m: bool) {
        lemma_word(bool_word(m));
    }

    fn encode(&self, out: &mut Vec<u8>) {
        let n: u64 = if *self {
            1
        } else {
            0
        };
        n.encode(out);
    }
}

impl Wire for bool {
    open spec fn encodable(m: bool) -> bool {
        true
    }

    open spec fn parse(s: Seq<u8>) -> Parsed<bool> {
        match parse_word(s) {
            Ok((n, k)) => Ok((n != 0, k)),
            Err(e) => Err(e),
        }
    }

    proof fn lemma_parse_within(s: Seq<u8>) {
    }

    proof fn lemma_parse_stable(s: Seq<u8>, more: Seq<u8>) {
        lemma_word_stable(s, more);
    }

    proof fn lemma_round_trip(m: bool, rest: Seq<u8>) {
        u64::lemma_round_trip(bool_word(m), rest);
    }

    fn decode(buf: &[u8], pos: usize) -> (r: Result<(bool, usize), Error>) {
        match u64::decode(buf, pos) {
            Ok((n, p)) => Ok((n != 0, p)),
            Err(e) => Err(e),
        }
    }
}

/// Any word but zero reads as true, and zero reads as false; and a boolean
/// that is written reads back as itself.
pub proof fn lemma_bool_canonical(n: u64, b: bool, rest: Seq<u8>)
    ensures
        bool::parse(word(n) + rest) == Ok::<(bool, nat), Error>((n != 0, 8nat)),
        bool::parse(bool::encoding(b) + rest) == Ok::<(bool, nat), Error>((b, 8nat)),
{
    u64::lemma_round_trip(n, rest);
    u64::lemma_round_trip(bool_word(b), rest);
    lemma_word(n);
    lemma_word(bool_word(b));
}

/// The empty body of a request or reply that carries nothing.
impl Encode for () {
    type Model = ();

    open spec fn model(&self) -> () {
        ()
    }

    open spec fn encoding(m: ()) -> Seq<u8> {
        Seq::empty()
    }

    proof fn lemma_encoding_aligned(m: ()) {
    }

    fn encode(&self, out: &mut Vec<u8>) {
        assert(out@ + Seq::<u8>::empty() =~= out@);
    }
}

impl Wire for () {
    open spec fn encodable(m: ()) -> bool {
        true
    }

    open spec fn parse(s: Seq<u8>) -> Parsed<()> {
        Ok(((), 0nat))
    }

    proof fn lemma_parse_within(s: Seq<u8>) {
    }

    proof fn lemma_parse_stable(s: Seq<u8>, more: Seq<u8>) {
    }

    proof fn lemma_round_trip(m: (), rest: Seq<u8>) {
    }

    fn decode(buf: &[u8], pos: usize) -> (r: Result<((), usize), Error>) {
        Ok(((), pos))
    }
}

/// Two values in a row.
impl<A: Encode, B: Encode> Encode for (A, B) {
    type Model = (A::Model, B::Model);

    open spec fn model(&self) -> (A::Model, B::Model) {
        (self.0.model(), self.1.model())
    }

    open spec fn encoding(m: (A::Model, B::Model)) -> Seq<u8> {
        A::encoding(m.0) + B::encoding(m.1)
    }

    proof fn lemma_encoding_aligned(m: (A::Model, B::Model)) {
        A::lemma_encoding_aligned(m.0);
        B::lemma_encoding_aligned(m.1);
    }

    fn encode(&self, out: &mut Vec<u8>) {
        self.0.encode(out);
        self.1.encode(out);
        assert(out@ =~= old(out)@ + Self::encoding(self.model()));
    }
}

impl<A: Wire, B: Wire> Wire for (A, B) {
    open spec fn encodable(m: (A::Model, B::Model)) -> bool {
        A::encodable(m.0) && B::encodable(m.1)
    }

    open spec fn parse(s: Seq<u8>) -> Parsed<(A::Model, B::Model)> {
        match A::parse(s) {
            Err(e) => Err(e),
            Ok((a, n)) => match B::parse(s.skip(n as int)) {
                Err(e) => Err(e),
                Ok((b, k)) => Ok(((a, b), n + k)),
            },
        }
    }

    proof fn lemma_parse_within(s: Seq<u8>) {
        A::lemma_parse_within(s);
        if let Ok((_, n)) = A::parse(s) {
            B::lemma_parse_within(s.skip(n as int));
        }
    }

    proof fn lemma_parse_stable(s: Seq<u8>, more: Seq<u8>) {
        A::lemma_parse_stable(s, more);
        if let Ok((_, n)) = A::parse(s) {
            A::lemma_parse_within(s);
            assert((s + more).skip(n as int) =~= s.skip(n as int) + more);
            B::lemma_parse_stable(s.skip(n as int), more);
        }
    }

    proof fn lemma_round_trip(m: (A::Model, B::Model), rest: Seq<u8>) {
        let a = A::encoding(m.0);
        let b = B::encoding(m.1);
        assert((a + b) + rest =~= a + (b + rest));
        A::lemma_round_trip(m.0, b + rest);
        assert((a + (b + rest)).skip(a.len() as int) =~= b + rest);
        B::lemma_round_trip(m.1, rest);
    }

    fn decode(buf: &[u8], pos: usize) -> (r: Result<((A, B), usize), Error>) {
        match A::decode(buf, pos) {
            Err(e) => Err(e),
            Ok((a, p)) => {
                assert(buf@.skip(pos as int).skip(p - pos) =~= buf@.skip(p as int));
                match B::decode(buf, p) {
                    Err(e) => Err(e),
                    Ok((b, q)) => Ok(((a, b), q)),
                }
            },
        }
    }
}

/// The values that the elements of `v` stand for, in order.
pub open spec fn models<T: Encode>(v: Seq<T>) -> Seq<T::Model> {
    Seq::new(v.len(), |i: int| v[i].model())
}

/// The encodings of `ms` one after another.
pub open spec fn items_encoding<T: Encode>(ms: Seq<T::Model>) -> Seq<u8>
    decreases ms.len(),
{
    if ms.len() == 0 {
        Seq::empty()
    } else {
        items_encoding::<T>(ms.drop_last()) + T::encoding(ms.last())
    }
}

/// Reads `count` values in a row off the front of `s`.
pub open spec fn parse_items<T: Wire>(s: Seq<u8>, count: nat) -> Parsed<Seq<T::Model>>
    decreases count,
{
    if count == 0 {
        Ok((Seq::empty(), 0nat))
    } else {
        match parse_items::<T>(s, (count - 1) as nat) {
            Err(e) => Err(e),
            Ok((ms, n)) => match T::parse(s.skip(n as int)) {
                Err(e) => Err(e),
                Ok((m, k)) => Ok((ms.push(m), n + k)),
            },
        }
    }
}

/// Once an element fails to parse, asking for more elements fails the same way.
pub proof fn lemma_items_error_persists<T: Wire>(s: Seq<u8>, failed: nat, count: nat)
    requires
        failed <= count,
        parse_items::<T>(s, failed) is Err,
    ensures
        parse_items::<T>(s, count) == parse_items::<T>(s, failed),
    decreases count,
{
    if failed < count {
        lemma_items_error_persists::<T>(s, failed, (count - 1) as nat);
    }
}

/// Parsing `count` elements gives `count` values and stays within the input.
pub proof fn lemma_items_within<T: Wire>(s: Seq<u8>, count: nat)
    ensures
        parse_items::<T>(s, count) matches Ok((ms, n)) ==> ms.len() == count && n <= s.len(),
    decreases count,
{
    if count > 0 {
        lemma_items_within::<T>(s, (count - 1) as nat);
        if let Ok((_, n)) = parse_items::<T>(s, (count - 1) as nat) {
            T::lemma_parse_within(s.skip(n as int));
        }
    }
}

/// A row of elements that is there stays the same row when more bytes
/// follow, and a row that is at fault stays at fault.
pub proof fn lemma_items_stable<T: Wire>(s: Seq<u8>, more: Seq<u8>, count: nat)
    ensures
        parse_items::<T>(s, count) != Err::<(Seq<T::Model>, nat), Error>(Error::UnexpectedEof)
            ==> parse_items::<T>(s + more, count) == parse_items::<T>(s, count),
    decreases count,
{
    if count > 0 {
        let front = (count - 1) as nat;
        lemma_items_stable::<T>(s, more, front);
        if let Ok((_, n)) = parse_items::<T>(s, front) {
            lemma_items_within::<T>(s, front);
            assert((s + more).skip(n as int) =~= s.skip(n as int) + more);
            T::lemma_parse_stable(s.skip(n as int), more);
        }
    }
}

/// The encodings of aligned elements stay aligned when put in a row.
pub proof fn lemma_items_aligned<T: Encode>(ms: Seq<T::Model>)
    ensures
        items_encoding::<T>(ms).len() % 8 == 0,
    decreases ms.len(),
{
    if ms.len() > 0 {
        lemma_items_aligned::<T>(ms.drop_last());
        T::lemma_encoding_aligned(ms.last());
    }
}

/// Reading back a row of encodings gives the values that were written.
pub proof fn lemma_items_round_trip<T: Wire>(ms: Seq<T::Model>, rest: Seq<u8>)
    requires
        forall|i: int| 0 <= i < ms.len() ==> T::encodable(#[trigger] ms[i]),
    ensures
        parse_items::<T>(items_encoding::<T>(ms) + rest, ms.len()) == Ok::<
            (Seq<T::Model>, nat),
            Error,
        >((ms, items_encoding::<T>(ms).len())),
    decreases ms.len(),
{
    if ms.len() == 0 {
        assert(ms =~= Seq::empty());
    } else {
        let front = ms.drop_last();
        let head = items_encoding::<T>(front);
        let tail = T::encoding(ms.last());
        let input = items_encoding::<T>(ms) + rest;
        assert(input =~= head + (tail + rest));
        assert forall|i: int| 0 <= i < front.len() implies T::encodable(#[trigger] front[i]) by {
            assert(front[i] == ms[i]);
        }
        lemma_items_round_trip::<T>(front, tail + rest);
        assert(input.skip(head.len() as int) =~= tail + rest);
        T::lemma_round_trip(ms.last(), rest);
        assert(front.push(ms.last()) =~= ms);
        assert(parse_items::<T>(input, front.len()) == Ok::<(Seq<T::Model>, nat), Error>(
            (front, head.len()),
        ));
    }
}

/// A sequence: the count as a word, then that many elements.
impl<T: Encode> Encode for Vec<T> {
    type Model = Seq<T::Model>;

    open spec fn model(&self) -> Seq<T::Model> {
        models(self@)
    }

    open spec fn encoding(m: Seq<T::Model>) -> Seq<u8> {
        word(m.len() as u64) + items_encoding::<T>(m)
    }

    proof fn lemma_encoding_aligned(m: Seq<T::Model>) {
        lemma_word(m.len() as u64);
        lemma_items_aligned::<T>(m);
    }

    fn encode(&self, out: &mut Vec<u8>) {
        let count: u64 = self.len() as u64;
        count.encode(out);
        let mut i: usize = 0;
        while i < self.len()
            invariant
                i <= self@.len(),
                out@ == old(out)@ + word(self@.len() as u64) + items_encoding::<T>(
                    models(self@).take(i as int),
                ),
            decreases self@.len() - i,
        {
            let ghost before = models(self@).take(i as int);
            let ghost after = models(self@).take(i + 1);
            self[i].encode(out);
            proof {
                assert(after.drop_last() =~= before);
                assert(after.last() == self@[i as int].model());
                assert(out@ =~= old(out)@ + word(self@.len() as u64) + items_encoding::<T>(after));
            }
            i = i + 1;
        }
        proof {
            assert(models(self@).take(i as int) =~= models(self@));
            assert(out@ =~= old(out)@ + Self::encoding(self.model()));
        }
    }
}

impl<T: Wire> Wire for Vec<T> {
    open spec fn encodable(m: Seq<T::Model>) -> bool {
        &&& m.len() <= u64::MAX
        &&& forall|i: int| 0 <= i < m.len() ==> T::encodable(#[trigger] m[i])
    }

    open spec fn parse(s: Seq<u8>) -> Parsed<Seq<T::Model>> {
        match parse_word(s) {
            Err(e) => Err(e),
            Ok((count, _)) => match parse_items::<T>(s.skip(8), count as nat) {
                Err(e) => Err(e),
                Ok((ms, n)) => Ok((ms, 8 + n)),
            },
        }
    }

    proof fn lemma_parse_within(s: Seq<u8>) {
        if let Ok((count, _)) = parse_word(s) {
            lemma_items_within::<T>(s.skip(8), count as nat);
        }
    }

    proof fn lemma_parse_stable(s: Seq<u8>, more: Seq<u8>) {
        lemma_word_stable(s, more);
        if let Ok((count, _)) = parse_word(s) {
            assert((s + more).skip(8) =~= s.skip(8) + more);
            lemma_items_stable::<T>(s.skip(8), more, count as nat);
        }
    }

    proof fn lemma_round_trip(m: Seq<T::Model>, rest: Seq<u8>) {
        let count = m.len() as u64;
        let items = items_encoding::<T>(m);
        assert((word(count) + items) + rest =~= word(count) + (items + rest));
        u64::lemma_round_trip(count, items + rest);
        lemma_word(count);
        assert((word(count) + (items + rest)).skip(8) =~= items + rest);
        lemma_items_round_trip::<T>(m, rest);
    }

    fn decode(buf: &[u8], pos: usize) -> (r: Result<(Vec<T>, usize), Error>) {
        let (count, start) = match u64::decode(buf, pos) {
            Err(e) => {
                return Err(e);
            },
            Ok(found) => found,
        };
        let ghost body = buf@.skip(pos as int).skip(8);
        assert(body =~= buf@.skip(start as int));
        let mut items: Vec<T> = Vec::new();
        let mut p: usize = start;
        let mut i: u64 = 0;
        assert(models(items@) =~= Seq::empty());
        while i < count
            invariant
                i <= count,
                start <= p <= buf@.len(),
                body == buf@.skip(start as int),
                body == buf@.skip(pos as int).skip(8),
                parse_word(buf@.skip(pos as int)) == Ok::<(u64, nat), Error>((count, 8nat)),
                parse_items::<T>(body, i as nat) == Ok::<(Seq<T::Model>, nat), Error>(
                    (models(items@), (p - start) as nat),
                ),
            decreases count - i,
        {
            let ghost so_far = models(items@);
            assert(body.skip(p - start) =~= buf@.skip(p as int));
            match T::decode(buf, p) {
                Err(e) => {
                    proof {
                        assert(parse_items::<T>(body, (i + 1) as nat) == Err::<
                            (Seq<T::Model>, nat),
                            Error,
                        >(e));
                        lemma_items_error_persists::<T>(body, (i + 1) as nat, count as nat);
                    }
                    return Err(e);
                },
                Ok((v, q)) => {
                    items.push(v);
                    assert(models(items@) =~= so_far.push(v.model()));
                    p = q;
                    i = i + 1;
                },
            }
        }
        Ok((items, p))
    }
}

/// A value that may be absent: a boolean that says whether it is there, then
/// the value if it is.
impl<T: Encode> Encode for Option<T> {
    type Model = Option<T::Model>;

    open spec fn model(&self) -> Option<T::Model> {
        match self {
            Some(v) => Some(v.model()),
            None => None,
        }
    }

    open spec fn encoding(m: Option<T::Model>) -> Seq<u8> {
        match m {
            Some(v) => word(1) + T::encoding(v),
            None => word(0),
        }
    }

    proof fn lemma_encoding_aligned(m: Option<T::Model>) {
        lemma_word(0);
        lemma_word(1);
        if let Some(v) = m {
            T::lemma_encoding_aligned(v);
        }
    }

    fn encode(&self, out: &mut Vec<u8>) {
        match self {
            Some(v) => {
                true.encode(out);
                v.encode(out);
            },
            None => {
                false.encode(out);
            },
        }
    }
}

impl<T: Wire> Wire for Option<T> {
    open spec fn encodable(m: Option<T::Model>) -> bool {
        m matches Some(v) ==> T::encodable(v)
    }

    open spec fn parse(s: Seq<u8>) -> Parsed<Option<T::Model>> {
        match bool::parse(s) {
            Err(e) => Err(e),
            Ok((false, n)) => Ok((None, n)),
            Ok((true, n)) => match T::parse(s.skip(n as int)) {
                Err(e) => Err(e),
                Ok((v, k)) => Ok((Some(v), n + k)),
            },
        }
    }

    proof fn lemma_parse_within(s: Seq<u8>) {
        if let Ok((true, n)) = bool::parse(s) {
            T::lemma_parse_within(s.skip(n as int));
        }
    }

    proof fn lemma_parse_stable(s: Seq<u8>, more: Seq<u8>) {
        lemma_word_stable(s, more);
        if let Ok((true, n)) = bool::parse(s) {
            assert((s + more).skip(n as int) =~= s.skip(n as int) + more);
            T::lemma_parse_stable(s.skip(n as int), more);
        }
    }

    proof fn lemma_round_trip(m: Option<T::Model>, rest: Seq<u8>) {
        match m {
            None => {
                bool::lemma_round_trip(false, rest);
            },
            Some(v) => {
                let body = T::encoding(v);
                assert((word(1) + body) + rest =~= word(1) + (body + rest));
                bool::lemma_round_trip(true, body + rest);
                lemma_word(1);
                assert((word(1) + (body + rest)).skip(8) =~= body + rest);
                T::lemma_round_trip(v, rest);
            },
        }
    }

    fn decode(buf: &[u8], pos: usize) -> (r: Result<(Option<T>, usize), Error>) {
        let (present, p) = bool::decode(buf, pos)?;
        if !present {
            return Ok((None, p));
        }
        assert(buf@.skip(pos as int).skip(p - pos) =~= buf@.skip(p as int));
        let (v, q) = T::decode(buf, p)?;
        Ok((Some(v), q))
    }
}

} // verus!
