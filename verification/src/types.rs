//! The values that requests and replies are made of: strings, paths and sets
//! of them. The codec carries them as bytes and does not look inside.

use crate::byte_string::{byte_buf_as_slice, byte_buf_from_vec};
use crate::error::Error;
use crate::wire::{Encode, Parsed, Wire};
use serde_bytes::ByteBuf;
use vstd::prelude::*;

verus! {

/// Seconds since the epoch.
pub type Time = u64;

/// A store path that may be absent: the empty string stands for none.
pub type OptionalStorePath = StorePath;

/// A content address in its rendered form. It may be empty.
pub type RenderedContentAddress = NixString;

/// A path on the daemon's file system, as the bytes that were sent.
#[derive(Clone, Debug, PartialEq, Eq)]
pub struct Path(pub ByteBuf);

impl Encode for Path {
    type Model = Seq<u8>;

    open spec fn model(&self) -> Seq<u8> {
        self.0.model()
    }

    open spec fn encoding(m: Seq<u8>) -> Seq<u8> {
        ByteBuf::encoding(m)
    }

    proof fn lemma_encoding_aligned(m: Seq<u8>) {
        ByteBuf::lemma_encoding_aligned(m);
    }

    fn encode(&self, out: &mut Vec<u8>) {
        self.0.encode(out);
    }
}

impl Wire for Path {
    open spec fn encodable(m: Seq<u8>) -> bool {
        ByteBuf::encodable(m)
    }

    open spec fn parse(s: Seq<u8>) -> Parsed<Seq<u8>> {
        ByteBuf::parse(s)
    }

    proof fn lemma_parse_within(s: Seq<u8>) {
        ByteBuf::lemma_parse_within(s);
    }

    proof fn lemma_parse_stable(s: Seq<u8>, more: Seq<u8>) {
        ByteBuf::lemma_parse_stable(s, more);
    }

    proof fn lemma_round_trip(m: Seq<u8>, rest: Seq<u8>) {
        ByteBuf::lemma_round_trip(m, rest);
    }

    fn decode(buf: &[u8], pos: usize) -> (r: Result<(Path, usize), Error>) {
        let (inner, p) = ByteBuf::decode(buf, pos)?;
        Ok((Path(inner), p))
    }
}

impl Path {
    /// Wraps `bytes` as they are.
    pub fn from_bytes(bytes: Vec<u8>) -> (r: Path)
        ensures
            r.model() == bytes@,
    {
        Path(byte_buf_from_vec(bytes))
    }

    /// The bytes held, without length or padding.
    pub fn as_bytes(&self) -> (bytes: &[u8])
        ensures
            bytes@ == self.model(),
    {
        byte_buf_as_slice(&self.0)
    }
}

/// A string as the protocol carries it: bytes, not necessarily UTF-8.
#[derive(Clone, Debug, PartialEq, Eq)]
pub struct NixString(pub ByteBuf);

impl Encode for NixString {
    type Model = Seq<u8>;

    open spec fn model(&self) -> Seq<u8> {
        self.0.model()
    }

    open spec fn encoding(m: Seq<u8>) -> Seq<u8> {
        ByteBuf::encoding(m)
    }

    proof fn lemma_encoding_aligned(m: Seq<u8>) {
        ByteBuf::lemma_encoding_aligned(m);
    }

    fn encode(&self, out: &mut Vec<u8>) {
        self.0.encode(out);
    }
}

impl Wire for NixString {
    open spec fn encodable(m: Seq<u8>) -> bool {
        ByteBuf::encodable(m)
    }

    open spec fn parse(s: Seq<u8>) -> Parsed<Seq<u8>> {
        ByteBuf::parse(s)
    }

    proof fn lemma_parse_within(s: Seq<u8>) {
        ByteBuf::lemma_parse_within(s);
    }

    proof fn lemma_parse_stable(s: Seq<u8>, more: Seq<u8>) {
        ByteBuf::lemma_parse_stable(s, more);
    }

    proof fn lemma_round_trip(m: Seq<u8>, rest: Seq<u8>) {
        ByteBuf::lemma_round_trip(m, rest);
    }

    fn decode(buf: &[u8], pos: usize) -> (r: Result<(NixString, usize), Error>) {
        let (inner, p) = ByteBuf::decode(buf, pos)?;
        Ok((NixString(inner), p))
    }
}

impl NixString {
    /// Wraps `bytes` as they are.
    pub fn from_bytes(bytes: Vec<u8>) -> (r: NixString)
        ensures
            r.model() == bytes@,
    {
        NixString(byte_buf_from_vec(bytes))
    }

    /// The bytes held, without length or padding.
    pub fn as_bytes(&self) -> (bytes: &[u8])
        ensures
            bytes@ == self.model(),
    {
        byte_buf_as_slice(&self.0)
    }
}

/// The path of a store object. The codec neither parses nor checks it.
#[derive(Clone, Debug, PartialEq, Eq)]
pub struct StorePath(pub NixString);

impl Encode for StorePath {
    type Model = Seq<u8>;

    open spec fn model(&self) -> Seq<u8> {
        self.0.model()
    }

    open spec fn encoding(m: Seq<u8>) -> Seq<u8> {
        NixString::encoding(m)
    }

    proof fn lemma_encoding_aligned(m: Seq<u8>) {
        NixString::lemma_encoding_aligned(m);
    }

    fn encode(&self, out: &mut Vec<u8>) {
        self.0.encode(out);
    }
}

impl Wire for StorePath {
    open spec fn encodable(m: Seq<u8>) -> bool {
        NixString::encodable(m)
    }

    open spec fn parse(s: Seq<u8>) -> Parsed<Seq<u8>> {
        NixString::parse(s)
    }

    proof fn lemma_parse_within(s: Seq<u8>) {
        NixString::lemma_parse_within(s);
    }

    proof fn lemma_parse_stable(s: Seq<u8>, more: Seq<u8>) {
        NixString::lemma_parse_stable(s, more);
    }

    proof fn lemma_round_trip(m: Seq<u8>, rest: Seq<u8>) {
        NixString::lemma_round_trip(m, rest);
    }

    fn decode(buf: &[u8], pos: usize) -> (r: Result<(StorePath, usize), Error>) {
        let (inner, p) = NixString::decode(buf, pos)?;
        Ok((StorePath(inner), p))
    }
}

impl StorePath {
    /// Wraps `bytes` as they are.
    pub fn from_bytes(bytes: Vec<u8>) -> (r: StorePath)
        ensures
            r.model() == bytes@,
    {
        StorePath(NixString::from_bytes(bytes))
    }

    /// The bytes held, without length or padding.
    pub fn as_bytes(&self) -> (bytes: &[u8])
        ensures
            bytes@ == self.model(),
    {
        self.0.as_bytes()
    }
}

/// A thing to build: a store path, or a derivation with the outputs wanted of
/// it, in rendered form.
#[derive(Clone, Debug, PartialEq, Eq)]
pub struct DerivedPath(pub NixString);

impl Encode for DerivedPath {
    type Model = Seq<u8>;

    open spec fn model(&self) -> Seq<u8> {
        self.0.model()
    }

    open spec fn encoding(m: Seq<u8>) -> Seq<u8> {
        NixString::encoding(m)
    }

    proof fn lemma_encoding_aligned(m: Seq<u8>) {
        NixString::lemma_encoding_aligned(m);
    }

    fn encode(&self, out: &mut Vec<u8>) {
        self.0.encode(out);
    }
}

impl Wire for DerivedPath {
    open spec fn encodable(m: Seq<u8>) -> bool {
        NixString::encodable(m)
    }

    open spec fn parse(s: Seq<u8>) -> Parsed<Seq<u8>> {
        NixString::parse(s)
    }

    proof fn lemma_parse_within(s: Seq<u8>) {
        NixString::lemma_parse_within(s);
    }

    proof fn lemma_parse_stable(s: Seq<u8>, more: Seq<u8>) {
        NixString::lemma_parse_stable(s, more);
    }

    proof fn lemma_round_trip(m: Seq<u8>, rest: Seq<u8>) {
        NixString::lemma_round_trip(m, rest);
    }

    fn decode(buf: &[u8], pos: usize) -> (r: Result<(DerivedPath, usize), Error>) {
        let (inner, p) = NixString::decode(buf, pos)?;
        Ok((DerivedPath(inner), p))
    }
}

impl DerivedPath {
    /// Wraps `bytes` as they are.
    pub fn from_bytes(bytes: Vec<u8>) -> (r: DerivedPath)
        ensures
            r.model() == bytes@,
    {
        DerivedPath(NixString::from_bytes(bytes))
    }

    /// The bytes held, without length or padding.
    pub fn as_bytes(&self) -> (bytes: &[u8])
        ensures
            bytes@ == self.model(),
    {
        self.0.as_bytes()
    }
}

/// The binding of a derivation output to the store object that realises it, in
/// rendered form.
#[derive(Clone, Debug, PartialEq, Eq)]
pub struct Realisation(pub NixString);

impl Encode for Realisation {
    type Model = Seq<u8>;

    open spec fn model(&self) -> Seq<u8> {
        self.0.model()
    }

    open spec fn encoding(m: Seq<u8>) -> Seq<u8> {
        NixString::encoding(m)
    }

    proof fn lemma_encoding_aligned(m: Seq<u8>) {
        NixString::lemma_encoding_aligned(m);
    }

    fn encode(&self, out: &mut Vec<u8>) {
        self.0.encode(out);
    }
}

impl Wire for Realisation {
    open spec fn encodable(m: Seq<u8>) -> bool {
        NixString::encodable(m)
    }

    open spec fn parse(s: Seq<u8>) -> Parsed<Seq<u8>> {
        NixString::parse(s)
    }

    proof fn lemma_parse_within(s: Seq<u8>) {
        NixString::lemma_parse_within(s);
    }

    proof fn lemma_parse_stable(s: Seq<u8>, more: Seq<u8>) {
        NixString::lemma_parse_stable(s, more);
    }

    proof fn lemma_round_trip(m: Seq<u8>, rest: Seq<u8>) {
        NixString::lemma_round_trip(m, rest);
    }

    fn decode(buf: &[u8], pos: usize) -> (r: Result<(Realisation, usize), Error>) {
        let (inner, p) = NixString::decode(buf, pos)?;
        Ok((Realisation(inner), p))
    }
}

impl Realisation {
    /// Wraps `bytes` as they are.
    pub fn from_bytes(bytes: Vec<u8>) -> (r: Realisation)
        ensures
            r.model() == bytes@,
    {
        Realisation(NixString::from_bytes(bytes))
    }

    /// The bytes held, without length or padding.
    pub fn as_bytes(&self) -> (bytes: &[u8])
        ensures
            bytes@ == self.model(),
    {
        self.0.as_bytes()
    }
}

/// The hash of an archive, as the daemon renders it.
#[derive(Clone, Debug, PartialEq, Eq)]
pub struct NarHash {
    pub data: ByteBuf,
}

impl Encode for NarHash {
    type Model = Seq<u8>;

    open spec fn model(&self) -> Seq<u8> {
        self.data.model()
    }

    open spec fn encoding(m: Seq<u8>) -> Seq<u8> {
        ByteBuf::encoding(m)
    }

    proof fn lemma_encoding_aligned(m: Seq<u8>) {
        ByteBuf::lemma_encoding_aligned(m);
    }

    fn encode(&self, out: &mut Vec<u8>) {
        self.data.encode(out);
    }
}

impl Wire for NarHash {
    open spec fn encodable(m: Seq<u8>) -> bool {
        ByteBuf::encodable(m)
    }

    open spec fn parse(s: Seq<u8>) -> Parsed<Seq<u8>> {
        ByteBuf::parse(s)
    }

    proof fn lemma_parse_within(s: Seq<u8>) {
        ByteBuf::lemma_parse_within(s);
    }

    proof fn lemma_parse_stable(s: Seq<u8>, more: Seq<u8>) {
        ByteBuf::lemma_parse_stable(s, more);
    }

    proof fn lemma_round_trip(m: Seq<u8>, rest: Seq<u8>) {
        ByteBuf::lemma_round_trip(m, rest);
    }

    fn decode(buf: &[u8], pos: usize) -> (r: Result<(NarHash, usize), Error>) {
        let (inner, p) = ByteBuf::decode(buf, pos)?;
        Ok((NarHash { data: inner }, p))
    }
}

impl NarHash {
    /// Wraps `bytes` as they are.
    pub fn from_bytes(bytes: Vec<u8>) -> (r: NarHash)
        ensures
            r.model() == bytes@,
    {
        NarHash { data: byte_buf_from_vec(bytes) }
    }

    /// The bytes held, without length or padding.
    pub fn as_bytes(&self) -> (bytes: &[u8])
        ensures
            bytes@ == self.model(),
    {
        byte_buf_as_slice(&self.data)
    }
}

/// Store paths in the order they were sent. Nothing is sorted or removed.
#[derive(Clone, Debug, PartialEq, Eq)]
pub struct StorePathSet {
    pub paths: Vec<Path>,
}

impl Encode for StorePathSet {
    type Model = Seq<Seq<u8>>;

    open spec fn model(&self) -> Seq<Seq<u8>> {
        self.paths.model()
    }

    open spec fn encoding(m: Seq<Seq<u8>>) -> Seq<u8> {
        <Vec<Path>>::encoding(m)
    }

    proof fn lemma_encoding_aligned(m: Seq<Seq<u8>>) {
        <Vec<Path>>::lemma_encoding_aligned(m);
    }

    fn encode(&self, out: &mut Vec<u8>) {
        self.paths.encode(out);
    }
}

impl Wire for StorePathSet {
    open spec fn encodable(m: Seq<Seq<u8>>) -> bool {
        <Vec<Path>>::encodable(m)
    }

    open spec fn parse(s: Seq<u8>) -> Parsed<Seq<Seq<u8>>> {
        <Vec<Path>>::parse(s)
    }

    proof fn lemma_parse_within(s: Seq<u8>) {
        <Vec<Path>>::lemma_parse_within(s);
    }

    proof fn lemma_parse_stable(s: Seq<u8>, more: Seq<u8>) {
        <Vec<Path>>::lemma_parse_stable(s, more);
    }

    proof fn lemma_round_trip(m: Seq<Seq<u8>>, rest: Seq<u8>) {
        <Vec<Path>>::lemma_round_trip(m, rest);
    }

    fn decode(buf: &[u8], pos: usize) -> (r: Result<(StorePathSet, usize), Error>) {
        let (inner, p) = <Vec<Path>>::decode(buf, pos)?;
        Ok((StorePathSet { paths: inner }, p))
    }
}

/// Strings in the order they were sent. Nothing is sorted or removed.
#[derive(Clone, Debug, PartialEq, Eq)]
pub struct StringSet {
    pub paths: Vec<ByteBuf>,
}

impl Encode for StringSet {
    type Model = Seq<Seq<u8>>;

    open spec fn model(&self) -> Seq<Seq<u8>> {
        self.paths.model()
    }

    open spec fn encoding(m: Seq<Seq<u8>>) -> Seq<u8> {
        <Vec<ByteBuf>>::encoding(m)
    }

    proof fn lemma_encoding_aligned(m: Seq<Seq<u8>>) {
        <Vec<ByteBuf>>::lemma_encoding_aligned(m);
    }

    fn encode(&self, out: &mut Vec<u8>) {
        self.paths.encode(out);
    }
}

impl Wire for StringSet {
    open spec fn encodable(m: Seq<Seq<u8>>) -> bool {
        <Vec<ByteBuf>>::encodable(m)
    }

    open spec fn parse(s: Seq<u8>) -> Parsed<Seq<Seq<u8>>> {
        <Vec<ByteBuf>>::parse(s)
    }

    proof fn lemma_parse_within(s: Seq<u8>) {
        <Vec<ByteBuf>>::lemma_parse_within(s);
    }

    proof fn lemma_parse_stable(s: Seq<u8>, more: Seq<u8>) {
        <Vec<ByteBuf>>::lemma_parse_stable(s, more);
    }

    proof fn lemma_round_trip(m: Seq<Seq<u8>>, rest: Seq<u8>) {
        <Vec<ByteBuf>>::lemma_round_trip(m, rest);
    }

    fn decode(buf: &[u8], pos: usize) -> (r: Result<(StringSet, usize), Error>) {
        let (inner, p) = <Vec<ByteBuf>>::decode(buf, pos)?;
        Ok((StringSet { paths: inner }, p))
    }
}

/// Paths in the order they were sent. Nothing is sorted or removed.
#[derive(Clone, Debug, PartialEq, Eq)]
pub struct PathSet {
    pub paths: Vec<Path>,
}

impl Encode for PathSet {
    type Model = Seq<Seq<u8>>;

    open spec fn model(&self) -> Seq<Seq<u8>> {
        self.paths.model()
    }

    open spec fn encoding(m: Seq<Seq<u8>>) -> Seq<u8> {
        <Vec<Path>>::encoding(m)
    }

    proof fn lemma_encoding_aligned(m: Seq<Seq<u8>>) {
        <Vec<Path>>::lemma_encoding_aligned(m);
    }

    fn encode(&self, out: &mut Vec<u8>) {
        self.paths.encode(out);
    }
}

impl Wire for PathSet {
    open spec fn encodable(m: Seq<Seq<u8>>) -> bool {
        <Vec<Path>>::encodable(m)
    }

    open spec fn parse(s: Seq<u8>) -> Parsed<Seq<Seq<u8>>> {
        <Vec<Path>>::parse(s)
    }

    proof fn lemma_parse_within(s: Seq<u8>) {
        <Vec<Path>>::lemma_parse_within(s);
    }

    proof fn lemma_parse_stable(s: Seq<u8>, more: Seq<u8>) {
        <Vec<Path>>::lemma_parse_stable(s, more);
    }

    proof fn lemma_round_trip(m: Seq<Seq<u8>>, rest: Seq<u8>) {
        <Vec<Path>>::lemma_round_trip(m, rest);
    }

    fn decode(buf: &[u8], pos: usize) -> (r: Result<(PathSet, usize), Error>) {
        let (inner, p) = <Vec<Path>>::decode(buf, pos)?;
        Ok((PathSet { paths: inner }, p))
    }
}

/// Realisations in the order they were sent.
#[derive(Clone, Debug, PartialEq, Eq)]
pub struct RealisationSet {
    pub realisations: Vec<Realisation>,
}

impl Encode for RealisationSet {
    type Model = Seq<Seq<u8>>;

    open spec fn model(&self) -> Seq<Seq<u8>> {
        self.realisations.model()
    }

    open spec fn encoding(m: Seq<Seq<u8>>) -> Seq<u8> {
        <Vec<Realisation>>::encoding(m)
    }

    proof fn lemma_encoding_aligned(m: Seq<Seq<u8>>) {
        <Vec<Realisation>>::lemma_encoding_aligned(m);
    }

    fn encode(&self, out: &mut Vec<u8>) {
        self.realisations.encode(out);
    }
}

impl Wire for RealisationSet {
    open spec fn encodable(m: Seq<Seq<u8>>) -> bool {
        <Vec<Realisation>>::encodable(m)
    }

    open spec fn parse(s: Seq<u8>) -> Parsed<Seq<Seq<u8>>> {
        <Vec<Realisation>>::parse(s)
    }

    proof fn lemma_parse_within(s: Seq<u8>) {
        <Vec<Realisation>>::lemma_parse_within(s);
    }

    proof fn lemma_parse_stable(s: Seq<u8>, more: Seq<u8>) {
        <Vec<Realisation>>::lemma_parse_stable(s, more);
    }

    proof fn lemma_round_trip(m: Seq<Seq<u8>>, rest: Seq<u8>) {
        <Vec<Realisation>>::lemma_round_trip(m, rest);
    }

    fn decode(buf: &[u8], pos: usize) -> (r: Result<(RealisationSet, usize), Error>) {
        let (inner, p) = <Vec<Realisation>>::decode(buf, pos)?;
        Ok((RealisationSet { realisations: inner }, p))
    }
}

/// An archive of a file tree, as the bytes that make it up. Its inner format
/// is not this library's business: the bytes are passed on as they come.
#[derive(Clone, Debug, PartialEq, Eq)]
pub struct Nar(pub Vec<u8>);

} // verus!
