//! The requests of the protocol. On the wire a request is its opcode, one
//! word, and then the body that belongs to that opcode.

use crate::error::Error;
use crate::framed_source::{forwarded, FramedSource};
use crate::io::{faithful, NixStoreRead, NixStoreWrite};
use crate::records::{
    AddMultipleToStoreModel, AddSignaturesModel, AddToStoreModel, AddToStoreNarModel,
    BuildDerivationModel, BuildPathsModel, CollectGarbageModel, QueryValidPathsModel,
    SetOptionsModel, ValidPathInfoWithPath, VerifyStoreModel,
};
use crate::types::{
    DerivedPath, Nar, NixString, OptionalStorePath, Realisation, RealisationSet, StorePath,
    StorePathSet,
};
use crate::wire::{lemma_word, lemma_word_stable, parse_word, word, Encode, Parsed, Wire};
use std::marker::PhantomData;
use vstd::prelude::*;

pub use crate::records::{
    AddBuildLog, AddMultipleToStore, AddSignatures, AddToStore, AddToStoreNar, BuildDerivation,
    BuildPaths, BuildResult, CollectGarbage, CollectGarbageResponse, Derivation,
    DerivationOutput, DerivationOutputMap, DrvOutputs, FindRootsResponse, QueryMissing,
    QueryMissingResponse, QueryPathInfoResponse, QueryValidPaths, SetOptions, ValidPathInfo,
    VerifyStore,
};
pub use crate::tags::{BuildMode, BuildStatus, GcAction, Verbosity};

verus! {

/// A marker without content. It ties a request to the type of its reply, so
/// that a reply of the wrong type is refused when the program is compiled.
#[derive(Debug)]
pub struct Resp<T> {
    marker: PhantomData<T>,
}

impl<T> Resp<T> {
    /// The marker for replies of type `T`.
    pub fn new() -> Resp<T> {
        Resp { marker: PhantomData }
    }

    /// Hands `v` back unchanged. The call fixes the type of `v` to the reply
    /// type that this marker stands for.
    pub fn ty(&self, v: T) -> (r: T)
        ensures
            r == v,
    {
        v
    }
}

/// A request body that nothing follows on the stream.
#[derive(Clone, Debug, PartialEq)]
pub struct Plain<T>(pub T);

/// A request body that a framed source follows on the stream.
#[derive(Clone, Debug, PartialEq)]
pub struct WithFramedSource<T>(pub T);

impl<T: Encode> Encode for Plain<T> {
    type Model = T::Model;

    open spec fn model(&self) -> T::Model {
        self.0.model()
    }

    open spec fn encoding(m: T::Model) -> Seq<u8> {
        T::encoding(m)
    }

    proof fn lemma_encoding_aligned(m: T::Model) {
        T::lemma_encoding_aligned(m);
    }

    fn encode(&self, out: &mut Vec<u8>) {
        self.0.encode(out);
    }
}

impl<T: Wire> Wire for Plain<T> {
    open spec fn encodable(m: T::Model) -> bool {
        T::encodable(m)
    }

    open spec fn parse(s: Seq<u8>) -> Parsed<T::Model> {
        T::parse(s)
    }

    proof fn lemma_parse_within(s: Seq<u8>) {
        T::lemma_parse_within(s);
    }

    proof fn lemma_parse_stable(s: Seq<u8>, more: Seq<u8>) {
        T::lemma_parse_stable(s, more);
    }

    proof fn lemma_round_trip(m: T::Model, rest: Seq<u8>) {
        T::lemma_round_trip(m, rest);
    }

    fn decode(buf: &[u8], pos: usize) -> (r: Result<(Plain<T>, usize), Error>) {
        let (inner, p) = T::decode(buf, pos)?;
        assert(Self::parse(buf@.skip(pos as int)) is Ok);
        Ok((Plain(inner), p))
    }
}

impl<T> std::ops::Deref for Plain<T> {
    type Target = T;

    fn deref(&self) -> (inner: &T)
        ensures
            *inner == self.0,
    {
        &self.0
    }
}

impl<T: Encode> Encode for WithFramedSource<T> {
    type Model = T::Model;

    open spec fn model(&self) -> T::Model {
        self.0.model()
    }

    open spec fn encoding(m: T::Model) -> Seq<u8> {
        T::encoding(m)
    }

    proof fn lemma_encoding_aligned(m: T::Model) {
        T::lemma_encoding_aligned(m);
    }

    fn encode(&self, out: &mut Vec<u8>) {
        self.0.encode(out);
    }
}

impl<T: Wire> Wire for WithFramedSource<T> {
    open spec fn encodable(m: T::Model) -> bool {
        T::encodable(m)
    }

    open spec fn parse(s: Seq<u8>) -> Parsed<T::Model> {
        T::parse(s)
    }

    proof fn lemma_parse_within(s: Seq<u8>) {
        T::lemma_parse_within(s);
    }

    proof fn lemma_parse_stable(s: Seq<u8>, more: Seq<u8>) {
        T::lemma_parse_stable(s, more);
    }

    proof fn lemma_round_trip(m: T::Model, rest: Seq<u8>) {
        T::lemma_round_trip(m, rest);
    }

    fn decode(buf: &[u8], pos: usize) -> (r: Result<(WithFramedSource<T>, usize), Error>) {
        let (inner, p) = T::decode(buf, pos)?;
        assert(Self::parse(buf@.skip(pos as int)) is Ok);
        Ok((WithFramedSource(inner), p))
    }
}

impl<T> std::ops::Deref for WithFramedSource<T> {
    type Target = T;

    fn deref(&self) -> (inner: &T)
        ensures
            *inner == self.0,
    {
        &self.0
    }
}

impl<T> std::ops::DerefMut for WithFramedSource<T> {
    fn deref_mut(&mut self) -> (inner: &mut T)
        ensures
            *inner == old(self).0,
            final(self).0 == *final(inner),
    {
        &mut self.0
    }
}

/// What may follow a request body on the stream.
pub trait Stream {
    /// Whether a framed source follows.
    spec fn has_source(&self) -> bool;

    /// Passes what follows the body on from `read` to `write`, as far as it
    /// has arrived, and says whether that was all of it. `source` keeps the
    /// place between calls. Where nothing follows, nothing is moved and the
    /// answer is yes.
    fn stream(
        &self,
        source: &mut FramedSource,
        read: &mut NixStoreRead,
        write: &mut NixStoreWrite,
    ) -> (r: Result<bool, Error>)
        requires
            old(read).wf(),
        ensures
            final(read).wf(),
            final(read).at_end() == old(read).at_end(),
            final(read).held() == old(read).held(),
            self.has_source() ==> forwarded(
                *old(source),
                old(read).remaining(),
                old(read).at_end(),
                old(write)@,
                *final(source),
                final(read).remaining(),
                final(write)@,
                r,
            ),
            !self.has_source() ==> {
                &&& r == Ok::<bool, Error>(true)
                &&& *final(source) == *old(source)
                &&& final(read).remaining() == old(read).remaining()
                &&& final(write)@ == old(write)@
            },
    ;
}

impl<T> Stream for Plain<T> {
    open spec fn has_source(&self) -> bool {
        false
    }

    fn stream(
        &self,
        source: &mut FramedSource,
        read: &mut NixStoreRead,
        write: &mut NixStoreWrite,
    ) -> (r: Result<bool, Error>) {
        Ok(true)
    }
}

impl<T> Stream for WithFramedSource<T> {
    open spec fn has_source(&self) -> bool {
        true
    }

    fn stream(
        &self,
        source: &mut FramedSource,
        read: &mut NixStoreRead,
        write: &mut NixStoreWrite,
    ) -> (r: Result<bool, Error>) {
        source.forward(read, write)
    }
}

/// The requests that are served. The second field of each variant marks the
/// type of the reply.
#[derive(Debug)]
pub enum WorkerOp {
    /// Whether a path is valid.
    IsValidPath(Plain<StorePath>, Resp<bool>),
    /// The paths that refer to a path.
    QueryReferrers(Plain<StorePath>, Resp<StorePathSet>),
    /// Adds a file tree, which follows as a framed source.
    AddToStore(WithFramedSource<AddToStore>, Resp<ValidPathInfoWithPath>),
    /// Builds paths.
    BuildPaths(Plain<BuildPaths>, Resp<u64>),
    /// Makes a path valid, by substitution if need be.
    EnsurePath(Plain<StorePath>, Resp<u64>),
    /// Keeps a path alive for as long as the connection lasts.
    AddTempRoot(Plain<StorePath>, Resp<u64>),
    /// The roots of the garbage collector.
    FindRoots(Plain<()>, Resp<FindRootsResponse>),
    /// Hands the client's settings to the daemon.
    SetOptions(Plain<SetOptions>, Resp<()>),
    /// Runs the garbage collector.
    CollectGarbage(Plain<CollectGarbage>, Resp<CollectGarbageResponse>),
    /// All valid paths.
    QueryAllValidPaths(Plain<()>, Resp<StorePathSet>),
    /// What the store knows of a path.
    QueryPathInfo(Plain<StorePath>, Resp<QueryPathInfoResponse>),
    /// The path whose name starts with a given hash, if there is one.
    QueryPathFromHashPart(Plain<NixString>, Resp<OptionalStorePath>),
    /// Which of some paths are valid.
    QueryValidPaths(Plain<QueryValidPaths>, Resp<StorePathSet>),
    /// Which of some paths can be substituted.
    QuerySubstitutablePaths(Plain<StorePathSet>, Resp<StorePathSet>),
    /// The valid derivations that have a path as an output.
    QueryValidDerivers(Plain<StorePath>, Resp<StorePathSet>),
    /// Replaces equal files in the store by links.
    OptimiseStore(Plain<()>, Resp<u64>),
    /// Checks the store.
    VerifyStore(Plain<VerifyStore>, Resp<bool>),
    /// Builds a derivation that is sent along.
    BuildDerivation(Plain<BuildDerivation>, Resp<BuildResult>),
    /// Attaches signatures to a path.
    AddSignatures(Plain<AddSignatures>, Resp<u64>),
    /// The archive of a path. The reply is the archive itself, byte for byte.
    NarFromPath(Plain<StorePath>, Resp<Nar>),
    /// Adds a path whose archive follows as a framed source.
    AddToStoreNar(WithFramedSource<AddToStoreNar>, Resp<()>),
    /// What building some paths would take.
    QueryMissing(Plain<QueryMissing>, Resp<QueryMissingResponse>),
    /// The outputs of a derivation by name.
    QueryDerivationOutputMap(Plain<StorePath>, Resp<DerivationOutputMap>),
    /// Records a realisation.
    RegisterDrvOutput(Plain<Realisation>, Resp<()>),
    /// The realisations of a derivation output.
    QueryRealisation(Plain<NixString>, Resp<RealisationSet>),
    /// Adds several paths, which follow as a framed source.
    AddMultipleToStore(WithFramedSource<AddMultipleToStore>, Resp<()>),
    /// Stores the log of a build, which follows as a framed source.
    AddBuildLog(WithFramedSource<AddBuildLog>, Resp<u64>),
    /// Builds paths and says how each build ended.
    BuildPathsWithResults(Plain<BuildPaths>, Resp<Vec<(DerivedPath, BuildResult)>>),
}

/// What a [`WorkerOp`] stands for: the request and the value of its body.
pub enum WorkerOpModel {
    IsValidPath(Seq<u8>),
    QueryReferrers(Seq<u8>),
    AddToStore(AddToStoreModel),
    BuildPaths(BuildPathsModel),
    EnsurePath(Seq<u8>),
    AddTempRoot(Seq<u8>),
    FindRoots,
    SetOptions(SetOptionsModel),
    CollectGarbage(CollectGarbageModel),
    QueryAllValidPaths,
    QueryPathInfo(Seq<u8>),
    QueryPathFromHashPart(Seq<u8>),
    QueryValidPaths(QueryValidPathsModel),
    QuerySubstitutablePaths(Seq<Seq<u8>>),
    QueryValidDerivers(Seq<u8>),
    OptimiseStore,
    VerifyStore(VerifyStoreModel),
    BuildDerivation(BuildDerivationModel),
    AddSignatures(AddSignaturesModel),
    NarFromPath(Seq<u8>),
    AddToStoreNar(AddToStoreNarModel),
    QueryMissing(Seq<Seq<u8>>),
    QueryDerivationOutputMap(Seq<u8>),
    RegisterDrvOutput(Seq<u8>),
    QueryRealisation(Seq<u8>),
    AddMultipleToStore(AddMultipleToStoreModel),
    AddBuildLog(Seq<u8>),
    BuildPathsWithResults(BuildPathsModel),
}

/// Whether `code` is the opcode of a request that is served. The numbers in
/// between are reserved for requests that are no longer part of the protocol.
pub open spec fn served(code: u64) -> bool {
    ||| code == 1
    ||| code == 6
    ||| code == 7
    ||| 9 <= code <= 11
    ||| code == 14
    ||| code == 19
    ||| code == 20
    ||| code == 23
    ||| code == 26
    ||| code == 29
    ||| 31 <= code <= 46
}

/// The parse of a request, given the parse of its body: eight bytes more
/// were taken, for the opcode.
pub open spec fn with_body<M>(body: Parsed<M>, make: spec_fn(M) -> WorkerOpModel) -> Parsed<
    WorkerOpModel,
> {
    match body {
        Ok((b, n)) => Ok((make(b), 8 + n)),
        Err(e) => Err(e),
    }
}

/// A body behind an opcode reads back as that opcode and that body.
pub proof fn lemma_request_round_trip<T: Wire>(code: u64, body: T::Model, rest: Seq<u8>)
    requires
        T::encodable(body),
    ensures
        parse_word(word(code) + T::encoding(body) + rest) == Ok::<(u64, nat), Error>((code, 8nat)),
        T::parse((word(code) + T::encoding(body) + rest).skip(8)) == Ok::<(T::Model, nat), Error>(
            (body, T::encoding(body).len()),
        ),
        (word(code) + T::encoding(body)).len() == 8 + T::encoding(body).len(),
{
    let input = word(code) + T::encoding(body) + rest;
    assert(input =~= word(code) + (T::encoding(body) + rest));
    u64::lemma_round_trip(code, T::encoding(body) + rest);
    lemma_word(code);
    assert(input.skip(8) =~= T::encoding(body) + rest);
    T::lemma_round_trip(body, rest);
}

impl WorkerOpModel {
    /// The word that opens the request.
    pub open spec fn opcode(self) -> u64 {
        match self {
            WorkerOpModel::IsValidPath(_) => 1,
            WorkerOpModel::QueryReferrers(_) => 6,
            WorkerOpModel::AddToStore(_) => 7,
            WorkerOpModel::BuildPaths(_) => 9,
            WorkerOpModel::EnsurePath(_) => 10,
            WorkerOpModel::AddTempRoot(_) => 11,
            WorkerOpModel::FindRoots => 14,
            WorkerOpModel::SetOptions(_) => 19,
            WorkerOpModel::CollectGarbage(_) => 20,
            WorkerOpModel::QueryAllValidPaths => 23,
            WorkerOpModel::QueryPathInfo(_) => 26,
            WorkerOpModel::QueryPathFromHashPart(_) => 29,
            WorkerOpModel::QueryValidPaths(_) => 31,
            WorkerOpModel::QuerySubstitutablePaths(_) => 32,
            WorkerOpModel::QueryValidDerivers(_) => 33,
            WorkerOpModel::OptimiseStore => 34,
            WorkerOpModel::VerifyStore(_) => 35,
            WorkerOpModel::BuildDerivation(_) => 36,
            WorkerOpModel::AddSignatures(_) => 37,
            WorkerOpModel::NarFromPath(_) => 38,
            WorkerOpModel::AddToStoreNar(_) => 39,
            WorkerOpModel::QueryMissing(_) => 40,
            WorkerOpModel::QueryDerivationOutputMap(_) => 41,
            WorkerOpModel::RegisterDrvOutput(_) => 42,
            WorkerOpModel::QueryRealisation(_) => 43,
            WorkerOpModel::AddMultipleToStore(_) => 44,
            WorkerOpModel::AddBuildLog(_) => 45,
            WorkerOpModel::BuildPathsWithResults(_) => 46,
        }
    }

    /// Whether a framed source follows the request.
    pub open spec fn has_source(self) -> bool {
        match self {
            WorkerOpModel::AddToStore(_) | WorkerOpModel::AddToStoreNar(_) | WorkerOpModel::AddMultipleToStore(_) | WorkerOpModel::AddBuildLog(_) => true,
            _ => false,
        }
    }

    /// The bytes of the body.
    pub open spec fn body(self) -> Seq<u8> {
        match self {
            WorkerOpModel::IsValidPath(b) => StorePath::encoding(b),
            WorkerOpModel::QueryReferrers(b) => StorePath::encoding(b),
            WorkerOpModel::AddToStore(b) => AddToStore::encoding(b),
            WorkerOpModel::BuildPaths(b) => BuildPaths::encoding(b),
            WorkerOpModel::EnsurePath(b) => StorePath::encoding(b),
            WorkerOpModel::AddTempRoot(b) => StorePath::encoding(b),
            WorkerOpModel::FindRoots => <()>::encoding(()),
            WorkerOpModel::SetOptions(b) => SetOptions::encoding(b),
            WorkerOpModel::CollectGarbage(b) => CollectGarbage::encoding(b),
            WorkerOpModel::QueryAllValidPaths => <()>::encoding(()),
            WorkerOpModel::QueryPathInfo(b) => StorePath::encoding(b),
            WorkerOpModel::QueryPathFromHashPart(b) => NixString::encoding(b),
            WorkerOpModel::QueryValidPaths(b) => QueryValidPaths::encoding(b),
            WorkerOpModel::QuerySubstitutablePaths(b) => StorePathSet::encoding(b),
            WorkerOpModel::QueryValidDerivers(b) => StorePath::encoding(b),
            WorkerOpModel::OptimiseStore => <()>::encoding(()),
            WorkerOpModel::VerifyStore(b) => VerifyStore::encoding(b),
            WorkerOpModel::BuildDerivation(b) => BuildDerivation::encoding(b),
            WorkerOpModel::AddSignatures(b) => AddSignatures::encoding(b),
            WorkerOpModel::NarFromPath(b) => StorePath::encoding(b),
            WorkerOpModel::AddToStoreNar(b) => AddToStoreNar::encoding(b),
            WorkerOpModel::QueryMissing(b) => QueryMissing::encoding(b),
            WorkerOpModel::QueryDerivationOutputMap(b) => StorePath::encoding(b),
            WorkerOpModel::RegisterDrvOutput(b) => Realisation::encoding(b),
            WorkerOpModel::QueryRealisation(b) => NixString::encoding(b),
            WorkerOpModel::AddMultipleToStore(b) => AddMultipleToStore::encoding(b),
            WorkerOpModel::AddBuildLog(b) => AddBuildLog::encoding(b),
            WorkerOpModel::BuildPathsWithResults(b) => BuildPaths::encoding(b),
        }
    }

    /// Reads the request with opcode `code` from `s`, which starts behind
    /// the opcode. A word that opens no served request is refused.
    pub open spec fn parse_body(code: u64, s: Seq<u8>) -> Parsed<WorkerOpModel> {
        match code {
            1 => with_body(StorePath::parse(s), |b: Seq<u8>| WorkerOpModel::IsValidPath(b)),
            6 => with_body(StorePath::parse(s), |b: Seq<u8>| WorkerOpModel::QueryReferrers(b)),
            7 => with_body(AddToStore::parse(s), |b: AddToStoreModel| WorkerOpModel::AddToStore(b)),
            9 => with_body(BuildPaths::parse(s), |b: BuildPathsModel| WorkerOpModel::BuildPaths(b)),
            10 => with_body(StorePath::parse(s), |b: Seq<u8>| WorkerOpModel::EnsurePath(b)),
            11 => with_body(StorePath::parse(s), |b: Seq<u8>| WorkerOpModel::AddTempRoot(b)),
            14 => with_body(<()>::parse(s), |b: ()| WorkerOpModel::FindRoots),
            19 => with_body(SetOptions::parse(s), |b: SetOptionsModel| WorkerOpModel::SetOptions(b)),
            20 => with_body(CollectGarbage::parse(s), |b: CollectGarbageModel| WorkerOpModel::CollectGarbage(b)),
            23 => with_body(<()>::parse(s), |b: ()| WorkerOpModel::QueryAllValidPaths),
            26 => with_body(StorePath::parse(s), |b: Seq<u8>| WorkerOpModel::QueryPathInfo(b)),
            29 => with_body(NixString::parse(s), |b: Seq<u8>| WorkerOpModel::QueryPathFromHashPart(b)),
            31 => with_body(QueryValidPaths::parse(s), |b: QueryValidPathsModel| WorkerOpModel::QueryValidPaths(b)),
            32 => with_body(StorePathSet::parse(s), |b: Seq<Seq<u8>>| WorkerOpModel::QuerySubstitutablePaths(b)),
            33 => with_body(StorePath::parse(s), |b: Seq<u8>| WorkerOpModel::QueryValidDerivers(b)),
            34 => with_body(<()>::parse(s), |b: ()| WorkerOpModel::OptimiseStore),
            35 => with_body(VerifyStore::parse(s), |b: VerifyStoreModel| WorkerOpModel::VerifyStore(b)),
            36 => with_body(BuildDerivation::parse(s), |b: BuildDerivationModel| WorkerOpModel::BuildDerivation(b)),
            37 => with_body(AddSignatures::parse(s), |b: AddSignaturesModel| WorkerOpModel::AddSignatures(b)),
            38 => with_body(StorePath::parse(s), |b: Seq<u8>| WorkerOpModel::NarFromPath(b)),
            39 => with_body(AddToStoreNar::parse(s), |b: AddToStoreNarModel| WorkerOpModel::AddToStoreNar(b)),
            40 => with_body(QueryMissing::parse(s), |b: Seq<Seq<u8>>| WorkerOpModel::QueryMissing(b)),
            41 => with_body(StorePath::parse(s), |b: Seq<u8>| WorkerOpModel::QueryDerivationOutputMap(b)),
            42 => with_body(Realisation::parse(s), |b: Seq<u8>| WorkerOpModel::RegisterDrvOutput(b)),
            43 => with_body(NixString::parse(s), |b: Seq<u8>| WorkerOpModel::QueryRealisation(b)),
            44 => with_body(AddMultipleToStore::parse(s), |b: AddMultipleToStoreModel| WorkerOpModel::AddMultipleToStore(b)),
            45 => with_body(AddBuildLog::parse(s), |b: Seq<u8>| WorkerOpModel::AddBuildLog(b)),
            46 => with_body(BuildPaths::parse(s), |b: BuildPathsModel| WorkerOpModel::BuildPathsWithResults(b)),
            _ => Err(Error::UnknownOpcode(code)),
        }
    }

    /// Every request opens with a served opcode; a word that is no served
    /// opcode opens no request, whatever follows it; and the requests that a
    /// framed source follows are those with the opcodes 7, 39, 44 and 45.
    pub proof fn lemma_opcodes(self, code: u64, s: Seq<u8>)
        ensures
            served(self.opcode()),
            !served(code) ==> WorkerOpModel::parse_body(code, s) == Err::<
                (WorkerOpModel, nat),
                Error,
            >(Error::UnknownOpcode(code)),
            self.has_source() <==> self.opcode() == 7 || self.opcode() == 39 || self.opcode()
                == 44 || self.opcode() == 45,
    {
    }

    /// The number of bytes that the reply to this request takes at the front
    /// of `s`, where it is there and is written as a conforming writer
    /// would write it. The archive that answers `NarFromPath` is not looked
    /// into: all of `s` counts as reply.
    pub open spec fn reply(self, s: Seq<u8>) -> Result<nat, Error> {
        match self {
            WorkerOpModel::IsValidPath(_) => faithful::<bool>(s),
            WorkerOpModel::QueryReferrers(_) => faithful::<StorePathSet>(s),
            WorkerOpModel::AddToStore(_) => faithful::<ValidPathInfoWithPath>(s),
            WorkerOpModel::BuildPaths(_) => faithful::<u64>(s),
            WorkerOpModel::EnsurePath(_) => faithful::<u64>(s),
            WorkerOpModel::AddTempRoot(_) => faithful::<u64>(s),
            WorkerOpModel::FindRoots => faithful::<FindRootsResponse>(s),
            WorkerOpModel::SetOptions(_) => faithful::<()>(s),
            WorkerOpModel::CollectGarbage(_) => faithful::<CollectGarbageResponse>(s),
            WorkerOpModel::QueryAllValidPaths => faithful::<StorePathSet>(s),
            WorkerOpModel::QueryPathInfo(_) => faithful::<QueryPathInfoResponse>(s),
            WorkerOpModel::QueryPathFromHashPart(_) => faithful::<OptionalStorePath>(s),
            WorkerOpModel::QueryValidPaths(_) => faithful::<StorePathSet>(s),
            WorkerOpModel::QuerySubstitutablePaths(_) => faithful::<StorePathSet>(s),
            WorkerOpModel::QueryValidDerivers(_) => faithful::<StorePathSet>(s),
            WorkerOpModel::OptimiseStore => faithful::<u64>(s),
            WorkerOpModel::VerifyStore(_) => faithful::<bool>(s),
            WorkerOpModel::BuildDerivation(_) => faithful::<BuildResult>(s),
            WorkerOpModel::AddSignatures(_) => faithful::<u64>(s),
            WorkerOpModel::NarFromPath(_) => Ok(s.len()),
            WorkerOpModel::AddToStoreNar(_) => faithful::<()>(s),
            WorkerOpModel::QueryMissing(_) => faithful::<QueryMissingResponse>(s),
            WorkerOpModel::QueryDerivationOutputMap(_) => faithful::<DerivationOutputMap>(s),
            WorkerOpModel::RegisterDrvOutput(_) => faithful::<()>(s),
            WorkerOpModel::QueryRealisation(_) => faithful::<RealisationSet>(s),
            WorkerOpModel::AddMultipleToStore(_) => faithful::<()>(s),
            WorkerOpModel::AddBuildLog(_) => faithful::<u64>(s),
            WorkerOpModel::BuildPathsWithResults(_) => faithful::<Vec<(DerivedPath, BuildResult)>>(s),
        }
    }
}

impl Encode for WorkerOp {
    type Model = WorkerOpModel;

    open spec fn model(&self) -> WorkerOpModel {
        match self {
            WorkerOp::IsValidPath(body, _) => WorkerOpModel::IsValidPath(body.model()),
            WorkerOp::QueryReferrers(body, _) => WorkerOpModel::QueryReferrers(body.model()),
            WorkerOp::AddToStore(body, _) => WorkerOpModel::AddToStore(body.model()),
            WorkerOp::BuildPaths(body, _) => WorkerOpModel::BuildPaths(body.model()),
            WorkerOp::EnsurePath(body, _) => WorkerOpModel::EnsurePath(body.model()),
            WorkerOp::AddTempRoot(body, _) => WorkerOpModel::AddTempRoot(body.model()),
            WorkerOp::FindRoots(_, _) => WorkerOpModel::FindRoots,
            WorkerOp::SetOptions(body, _) => WorkerOpModel::SetOptions(body.model()),
            WorkerOp::CollectGarbage(body, _) => WorkerOpModel::CollectGarbage(body.model()),
            WorkerOp::QueryAllValidPaths(_, _) => WorkerOpModel::QueryAllValidPaths,
            WorkerOp::QueryPathInfo(body, _) => WorkerOpModel::QueryPathInfo(body.model()),
            WorkerOp::QueryPathFromHashPart(body, _) => WorkerOpModel::QueryPathFromHashPart(body.model()),
            WorkerOp::QueryValidPaths(body, _) => WorkerOpModel::QueryValidPaths(body.model()),
            WorkerOp::QuerySubstitutablePaths(body, _) => WorkerOpModel::QuerySubstitutablePaths(body.model()),
            WorkerOp::QueryValidDerivers(body, _) => WorkerOpModel::QueryValidDerivers(body.model()),
            WorkerOp::OptimiseStore(_, _) => WorkerOpModel::OptimiseStore,
            WorkerOp::VerifyStore(body, _) => WorkerOpModel::VerifyStore(body.model()),
            WorkerOp::BuildDerivation(body, _) => WorkerOpModel::BuildDerivation(body.model()),
            WorkerOp::AddSignatures(body, _) => WorkerOpModel::AddSignatures(body.model()),
            WorkerOp::NarFromPath(body, _) => WorkerOpModel::NarFromPath(body.model()),
            WorkerOp::AddToStoreNar(body, _) => WorkerOpModel::AddToStoreNar(body.model()),
            WorkerOp::QueryMissing(body, _) => WorkerOpModel::QueryMissing(body.model()),
            WorkerOp::QueryDerivationOutputMap(body, _) => WorkerOpModel::QueryDerivationOutputMap(body.model()),
            WorkerOp::RegisterDrvOutput(body, _) => WorkerOpModel::RegisterDrvOutput(body.model()),
            WorkerOp::QueryRealisation(body, _) => WorkerOpModel::QueryRealisation(body.model()),
            WorkerOp::AddMultipleToStore(body, _) => WorkerOpModel::AddMultipleToStore(body.model()),
            WorkerOp::AddBuildLog(body, _) => WorkerOpModel::AddBuildLog(body.model()),
            WorkerOp::BuildPathsWithResults(body, _) => WorkerOpModel::BuildPathsWithResults(body.model()),
        }
    }

    open spec fn encoding(m: WorkerOpModel) -> Seq<u8> {
        word(m.opcode()) + m.body()
    }

    proof fn lemma_encoding_aligned(m: WorkerOpModel) {
        lemma_word(m.opcode());
        match m {
            WorkerOpModel::IsValidPath(b) => {
                StorePath::lemma_encoding_aligned(b);
            },
            WorkerOpModel::QueryReferrers(b) => {
                StorePath::lemma_encoding_aligned(b);
            },
            WorkerOpModel::AddToStore(b) => {
                AddToStore::lemma_encoding_aligned(b);
            },
            WorkerOpModel::BuildPaths(b) => {
                BuildPaths::lemma_encoding_aligned(b);
            },
            WorkerOpModel::EnsurePath(b) => {
                StorePath::lemma_encoding_aligned(b);
            },
            WorkerOpModel::AddTempRoot(b) => {
                StorePath::lemma_encoding_aligned(b);
            },
            WorkerOpModel::FindRoots => {
                <()>::lemma_encoding_aligned(());
            },
            WorkerOpModel::SetOptions(b) => {
                SetOptions::lemma_encoding_aligned(b);
            },
            WorkerOpModel::CollectGarbage(b) => {
                CollectGarbage::lemma_encoding_aligned(b);
            },
            WorkerOpModel::QueryAllValidPaths => {
                <()>::lemma_encoding_aligned(());
            },
            WorkerOpModel::QueryPathInfo(b) => {
                StorePath::lemma_encoding_aligned(b);
            },
            WorkerOpModel::QueryPathFromHashPart(b) => {
                NixString::lemma_encoding_aligned(b);
            },
            WorkerOpModel::QueryValidPaths(b) => {
                QueryValidPaths::lemma_encoding_aligned(b);
            },
            WorkerOpModel::QuerySubstitutablePaths(b) => {
                StorePathSet::lemma_encoding_aligned(b);
            },
            WorkerOpModel::QueryValidDerivers(b) => {
                StorePath::lemma_encoding_aligned(b);
            },
            WorkerOpModel::OptimiseStore => {
                <()>::lemma_encoding_aligned(());
            },
            WorkerOpModel::VerifyStore(b) => {
                VerifyStore::lemma_encoding_aligned(b);
            },
            WorkerOpModel::BuildDerivation(b) => {
                BuildDerivation::lemma_encoding_aligned(b);
            },
            WorkerOpModel::AddSignatures(b) => {
                AddSignatures::lemma_encoding_aligned(b);
            },
            WorkerOpModel::NarFromPath(b) => {
                StorePath::lemma_encoding_aligned(b);
            },
            WorkerOpModel::AddToStoreNar(b) => {
                AddToStoreNar::lemma_encoding_aligned(b);
            },
            WorkerOpModel::QueryMissing(b) => {
                QueryMissing::lemma_encoding_aligned(b);
            },
            WorkerOpModel::QueryDerivationOutputMap(b) => {
                StorePath::lemma_encoding_aligned(b);
            },
            WorkerOpModel::RegisterDrvOutput(b) => {
                Realisation::lemma_encoding_aligned(b);
            },
            WorkerOpModel::QueryRealisation(b) => {
                NixString::lemma_encoding_aligned(b);
            },
            WorkerOpModel::AddMultipleToStore(b) => {
                AddMultipleToStore::lemma_encoding_aligned(b);
            },
            WorkerOpModel::AddBuildLog(b) => {
                AddBuildLog::lemma_encoding_aligned(b);
            },
            WorkerOpModel::BuildPathsWithResults(b) => {
                BuildPaths::lemma_encoding_aligned(b);
            },
        }
    }

    fn encode(&self, out: &mut Vec<u8>) {
        self.opcode().encode(out);
        match self {
            WorkerOp::IsValidPath(body, _) => body.encode(out),
            WorkerOp::QueryReferrers(body, _) => body.encode(out),
            WorkerOp::AddToStore(body, _) => body.encode(out),
            WorkerOp::BuildPaths(body, _) => body.encode(out),
            WorkerOp::EnsurePath(body, _) => body.encode(out),
            WorkerOp::AddTempRoot(body, _) => body.encode(out),
            WorkerOp::FindRoots(body, _) => body.encode(out),
            WorkerOp::SetOptions(body, _) => body.encode(out),
            WorkerOp::CollectGarbage(body, _) => body.encode(out),
            WorkerOp::QueryAllValidPaths(body, _) => body.encode(out),
            WorkerOp::QueryPathInfo(body, _) => body.encode(out),
            WorkerOp::QueryPathFromHashPart(body, _) => body.encode(out),
            WorkerOp::QueryValidPaths(body, _) => body.encode(out),
            WorkerOp::QuerySubstitutablePaths(body, _) => body.encode(out),
            WorkerOp::QueryValidDerivers(body, _) => body.encode(out),
            WorkerOp::OptimiseStore(body, _) => body.encode(out),
            WorkerOp::VerifyStore(body, _) => body.encode(out),
            WorkerOp::BuildDerivation(body, _) => body.encode(out),
            WorkerOp::AddSignatures(body, _) => body.encode(out),
            WorkerOp::NarFromPath(body, _) => body.encode(out),
            WorkerOp::AddToStoreNar(body, _) => body.encode(out),
            WorkerOp::QueryMissing(body, _) => body.encode(out),
            WorkerOp::QueryDerivationOutputMap(body, _) => body.encode(out),
            WorkerOp::RegisterDrvOutput(body, _) => body.encode(out),
            WorkerOp::QueryRealisation(body, _) => body.encode(out),
            WorkerOp::AddMultipleToStore(body, _) => body.encode(out),
            WorkerOp::AddBuildLog(body, _) => body.encode(out),
            WorkerOp::BuildPathsWithResults(body, _) => body.encode(out),
        }
        assert(out@ =~= old(out)@ + (word(self.model().opcode()) + self.model().body()));
    }
}

impl Wire for WorkerOp {
    open spec fn encodable(m: WorkerOpModel) -> bool {
        match m {
            WorkerOpModel::IsValidPath(b) => StorePath::encodable(b),
            WorkerOpModel::QueryReferrers(b) => StorePath::encodable(b),
            WorkerOpModel::AddToStore(b) => AddToStore::encodable(b),
            WorkerOpModel::BuildPaths(b) => BuildPaths::encodable(b),
            WorkerOpModel::EnsurePath(b) => StorePath::encodable(b),
            WorkerOpModel::AddTempRoot(b) => StorePath::encodable(b),
            WorkerOpModel::FindRoots => <()>::encodable(()),
            WorkerOpModel::SetOptions(b) => SetOptions::encodable(b),
            WorkerOpModel::CollectGarbage(b) => CollectGarbage::encodable(b),
            WorkerOpModel::QueryAllValidPaths => <()>::encodable(()),
            WorkerOpModel::QueryPathInfo(b) => StorePath::encodable(b),
            WorkerOpModel::QueryPathFromHashPart(b) => NixString::encodable(b),
            WorkerOpModel::QueryValidPaths(b) => QueryValidPaths::encodable(b),
            WorkerOpModel::QuerySubstitutablePaths(b) => StorePathSet::encodable(b),
            WorkerOpModel::QueryValidDerivers(b) => StorePath::encodable(b),
            WorkerOpModel::OptimiseStore => <()>::encodable(()),
            WorkerOpModel::VerifyStore(b) => VerifyStore::encodable(b),
            WorkerOpModel::BuildDerivation(b) => BuildDerivation::encodable(b),
            WorkerOpModel::AddSignatures(b) => AddSignatures::encodable(b),
            WorkerOpModel::NarFromPath(b) => StorePath::encodable(b),
            WorkerOpModel::AddToStoreNar(b) => AddToStoreNar::encodable(b),
            WorkerOpModel::QueryMissing(b) => QueryMissing::encodable(b),
            WorkerOpModel::QueryDerivationOutputMap(b) => StorePath::encodable(b),
            WorkerOpModel::RegisterDrvOutput(b) => Realisation::encodable(b),
            WorkerOpModel::QueryRealisation(b) => NixString::encodable(b),
            WorkerOpModel::AddMultipleToStore(b) => AddMultipleToStore::encodable(b),
            WorkerOpModel::AddBuildLog(b) => AddBuildLog::encodable(b),
            WorkerOpModel::BuildPathsWithResults(b) => BuildPaths::encodable(b),
        }
    }

    open spec fn parse(s: Seq<u8>) -> Parsed<WorkerOpModel> {
        match parse_word(s) {
            Err(e) => Err(e),
            Ok((code, _)) => WorkerOpModel::parse_body(code, s.skip(8)),
        }
    }

    proof fn lemma_parse_within(s: Seq<u8>) {
        if let Ok((code, _)) = parse_word(s) {
            let s = s.skip(8);
            match code {
                1 => {
                    StorePath::lemma_parse_within(s);
                },
                6 => {
                    StorePath::lemma_parse_within(s);
                },
                7 => {
                    AddToStore::lemma_parse_within(s);
                },
                9 => {
                    BuildPaths::lemma_parse_within(s);
                },
                10 => {
                    StorePath::lemma_parse_within(s);
                },
                11 => {
                    StorePath::lemma_parse_within(s);
                },
                14 => {
                    <()>::lemma_parse_within(s);
                },
                19 => {
                    SetOptions::lemma_parse_within(s);
                },
                20 => {
                    CollectGarbage::lemma_parse_within(s);
                },
                23 => {
                    <()>::lemma_parse_within(s);
                },
                26 => {
                    StorePath::lemma_parse_within(s);
                },
                29 => {
                    NixString::lemma_parse_within(s);
                },
                31 => {
                    QueryValidPaths::lemma_parse_within(s);
                },
                32 => {
                    StorePathSet::lemma_parse_within(s);
                },
                33 => {
                    StorePath::lemma_parse_within(s);
                },
                34 => {
                    <()>::lemma_parse_within(s);
                },
                35 => {
                    VerifyStore::lemma_parse_within(s);
                },
                36 => {
                    BuildDerivation::lemma_parse_within(s);
                },
                37 => {
                    AddSignatures::lemma_parse_within(s);
                },
                38 => {
                    StorePath::lemma_parse_within(s);
                },
                39 => {
                    AddToStoreNar::lemma_parse_within(s);
                },
                40 => {
                    QueryMissing::lemma_parse_within(s);
                },
                41 => {
                    StorePath::lemma_parse_within(s);
                },
                42 => {
                    Realisation::lemma_parse_within(s);
                },
                43 => {
                    NixString::lemma_parse_within(s);
                },
                44 => {
                    AddMultipleToStore::lemma_parse_within(s);
                },
                45 => {
                    AddBuildLog::lemma_parse_within(s);
                },
                46 => {
                    BuildPaths::lemma_parse_within(s);
                },
                _ => {
                },
            }
        }
    }

    proof fn lemma_parse_stable(s: Seq<u8>, more: Seq<u8>) {
        lemma_word_stable(s, more);
        if let Ok((code, _)) = parse_word(s) {
            assert((s + more).skip(8) =~= s.skip(8) + more);
            match code {
                1 => {
                    StorePath::lemma_parse_stable(s.skip(8), more);
                },
                6 => {
                    StorePath::lemma_parse_stable(s.skip(8), more);
                },
                7 => {
                    AddToStore::lemma_parse_stable(s.skip(8), more);
                },
                9 => {
                    BuildPaths::lemma_parse_stable(s.skip(8), more);
                },
                10 => {
                    StorePath::lemma_parse_stable(s.skip(8), more);
                },
                11 => {
                    StorePath::lemma_parse_stable(s.skip(8), more);
                },
                14 => {
                    <()>::lemma_parse_stable(s.skip(8), more);
                },
                19 => {
                    SetOptions::lemma_parse_stable(s.skip(8), more);
                },
                20 => {
                    CollectGarbage::lemma_parse_stable(s.skip(8), more);
                },
                23 => {
                    <()>::lemma_parse_stable(s.skip(8), more);
                },
                26 => {
                    StorePath::lemma_parse_stable(s.skip(8), more);
                },
                29 => {
                    NixString::lemma_parse_stable(s.skip(8), more);
                },
                31 => {
                    QueryValidPaths::lemma_parse_stable(s.skip(8), more);
                },
                32 => {
                    StorePathSet::lemma_parse_stable(s.skip(8), more);
                },
                33 => {
                    StorePath::lemma_parse_stable(s.skip(8), more);
                },
                34 => {
                    <()>::lemma_parse_stable(s.skip(8), more);
                },
                35 => {
                    VerifyStore::lemma_parse_stable(s.skip(8), more);
                },
                36 => {
                    BuildDerivation::lemma_parse_stable(s.skip(8), more);
                },
                37 => {
                    AddSignatures::lemma_parse_stable(s.skip(8), more);
                },
                38 => {
                    StorePath::lemma_parse_stable(s.skip(8), more);
                },
                39 => {
                    AddToStoreNar::lemma_parse_stable(s.skip(8), more);
                },
                40 => {
                    QueryMissing::lemma_parse_stable(s.skip(8), more);
                },
                41 => {
                    StorePath::lemma_parse_stable(s.skip(8), more);
                },
                42 => {
                    Realisation::lemma_parse_stable(s.skip(8), more);
                },
                43 => {
                    NixString::lemma_parse_stable(s.skip(8), more);
                },
                44 => {
                    AddMultipleToStore::lemma_parse_stable(s.skip(8), more);
                },
                45 => {
                    AddBuildLog::lemma_parse_stable(s.skip(8), more);
                },
                46 => {
                    BuildPaths::lemma_parse_stable(s.skip(8), more);
                },
                _ => {
                },
            }
        }
    }

    proof fn lemma_round_trip(m: WorkerOpModel, rest: Seq<u8>) {
        match m {
            WorkerOpModel::IsValidPath(b) => {
                lemma_request_round_trip::<StorePath>(1, b, rest);
            },
            WorkerOpModel::QueryReferrers(b) => {
                lemma_request_round_trip::<StorePath>(6, b, rest);
            },
            WorkerOpModel::AddToStore(b) => {
                lemma_request_round_trip::<AddToStore>(7, b, rest);
            },
            WorkerOpModel::BuildPaths(b) => {
                lemma_request_round_trip::<BuildPaths>(9, b, rest);
            },
            WorkerOpModel::EnsurePath(b) => {
                lemma_request_round_trip::<StorePath>(10, b, rest);
            },
            WorkerOpModel::AddTempRoot(b) => {
                lemma_request_round_trip::<StorePath>(11, b, rest);
            },
            WorkerOpModel::FindRoots => {
                lemma_request_round_trip::<()>(14, (), rest);
            },
            WorkerOpModel::SetOptions(b) => {
                lemma_request_round_trip::<SetOptions>(19, b, rest);
            },
            WorkerOpModel::CollectGarbage(b) => {
                lemma_request_round_trip::<CollectGarbage>(20, b, rest);
            },
            WorkerOpModel::QueryAllValidPaths => {
                lemma_request_round_trip::<()>(23, (), rest);
            },
            WorkerOpModel::QueryPathInfo(b) => {
                lemma_request_round_trip::<StorePath>(26, b, rest);
            },
            WorkerOpModel::QueryPathFromHashPart(b) => {
                lemma_request_round_trip::<NixString>(29, b, rest);
            },
            WorkerOpModel::QueryValidPaths(b) => {
                lemma_request_round_trip::<QueryValidPaths>(31, b, rest);
            },
            WorkerOpModel::QuerySubstitutablePaths(b) => {
                lemma_request_round_trip::<StorePathSet>(32, b, rest);
            },
            WorkerOpModel::QueryValidDerivers(b) => {
                lemma_request_round_trip::<StorePath>(33, b, rest);
            },
            WorkerOpModel::OptimiseStore => {
                lemma_request_round_trip::<()>(34, (), rest);
            },
            WorkerOpModel::VerifyStore(b) => {
                lemma_request_round_trip::<VerifyStore>(35, b, rest);
            },
            WorkerOpModel::BuildDerivation(b) => {
                lemma_request_round_trip::<BuildDerivation>(36, b, rest);
            },
            WorkerOpModel::AddSignatures(b) => {
                lemma_request_round_trip::<AddSignatures>(37, b, rest);
            },
            WorkerOpModel::NarFromPath(b) => {
                lemma_request_round_trip::<StorePath>(38, b, rest);
            },
            WorkerOpModel::AddToStoreNar(b) => {
                lemma_request_round_trip::<AddToStoreNar>(39, b, rest);
            },
            WorkerOpModel::QueryMissing(b) => {
                lemma_request_round_trip::<QueryMissing>(40, b, rest);
            },
            WorkerOpModel::QueryDerivationOutputMap(b) => {
                lemma_request_round_trip::<StorePath>(41, b, rest);
            },
            WorkerOpModel::RegisterDrvOutput(b) => {
                lemma_request_round_trip::<Realisation>(42, b, rest);
            },
            WorkerOpModel::QueryRealisation(b) => {
                lemma_request_round_trip::<NixString>(43, b, rest);
            },
            WorkerOpModel::AddMultipleToStore(b) => {
                lemma_request_round_trip::<AddMultipleToStore>(44, b, rest);
            },
            WorkerOpModel::AddBuildLog(b) => {
                lemma_request_round_trip::<AddBuildLog>(45, b, rest);
            },
            WorkerOpModel::BuildPathsWithResults(b) => {
                lemma_request_round_trip::<BuildPaths>(46, b, rest);
            },
        }
    }

    #[verifier::rlimit(50)]
    fn decode(buf: &[u8], pos: usize) -> (r: Result<(WorkerOp, usize), Error>) {
        let (code, start) = u64::decode(buf, pos)?;
        assert(buf@.skip(pos as int).skip(8) =~= buf@.skip(start as int));
        match code {
            1 => {
                let (body, p) = Plain::<StorePath>::decode(buf, start)?;
                Ok((WorkerOp::IsValidPath(body, Resp::new()), p))
            },
            6 => {
                let (body, p) = Plain::<StorePath>::decode(buf, start)?;
                Ok((WorkerOp::QueryReferrers(body, Resp::new()), p))
            },
            7 => {
                let (body, p) = WithFramedSource::<AddToStore>::decode(buf, start)?;
                Ok((WorkerOp::AddToStore(body, Resp::new()), p))
            },
            9 => {
                let (body, p) = Plain::<BuildPaths>::decode(buf, start)?;
                Ok((WorkerOp::BuildPaths(body, Resp::new()), p))
            },
            10 => {
                let (body, p) = Plain::<StorePath>::decode(buf, start)?;
                Ok((WorkerOp::EnsurePath(body, Resp::new()), p))
            },
            11 => {
                let (body, p) = Plain::<StorePath>::decode(buf, start)?;
                Ok((WorkerOp::AddTempRoot(body, Resp::new()), p))
            },
            14 => {
                let (body, p) = Plain::<()>::decode(buf, start)?;
                Ok((WorkerOp::FindRoots(body, Resp::new()), p))
            },
            19 => {
                let (body, p) = Plain::<SetOptions>::decode(buf, start)?;
                Ok((WorkerOp::SetOptions(body, Resp::new()), p))
            },
            20 => {
                let (body, p) = Plain::<CollectGarbage>::decode(buf, start)?;
                Ok((WorkerOp::CollectGarbage(body, Resp::new()), p))
            },
            23 => {
                let (body, p) = Plain::<()>::decode(buf, start)?;
                Ok((WorkerOp::QueryAllValidPaths(body, Resp::new()), p))
            },
            26 => {
                let (body, p) = Plain::<StorePath>::decode(buf, start)?;
                Ok((WorkerOp::QueryPathInfo(body, Resp::new()), p))
            },
            29 => {
                let (body, p) = Plain::<NixString>::decode(buf, start)?;
                Ok((WorkerOp::QueryPathFromHashPart(body, Resp::new()), p))
            },
            31 => {
                let (body, p) = Plain::<QueryValidPaths>::decode(buf, start)?;
                Ok((WorkerOp::QueryValidPaths(body, Resp::new()), p))
            },
            32 => {
                let (body, p) = Plain::<StorePathSet>::decode(buf, start)?;
                Ok((WorkerOp::QuerySubstitutablePaths(body, Resp::new()), p))
            },
            33 => {
                let (body, p) = Plain::<StorePath>::decode(buf, start)?;
                Ok((WorkerOp::QueryValidDerivers(body, Resp::new()), p))
            },
            34 => {
                let (body, p) = Plain::<()>::decode(buf, start)?;
                Ok((WorkerOp::OptimiseStore(body, Resp::new()), p))
            },
            35 => {
                let (body, p) = Plain::<VerifyStore>::decode(buf, start)?;
                Ok((WorkerOp::VerifyStore(body, Resp::new()), p))
            },
            36 => {
                let (body, p) = Plain::<BuildDerivation>::decode(buf, start)?;
                Ok((WorkerOp::BuildDerivation(body, Resp::new()), p))
            },
            37 => {
                let (body, p) = Plain::<AddSignatures>::decode(buf, start)?;
                Ok((WorkerOp::AddSignatures(body, Resp::new()), p))
            },
            38 => {
                let (body, p) = Plain::<StorePath>::decode(buf, start)?;
                Ok((WorkerOp::NarFromPath(body, Resp::new()), p))
            },
            39 => {
                let (body, p) = WithFramedSource::<AddToStoreNar>::decode(buf, start)?;
                Ok((WorkerOp::AddToStoreNar(body, Resp::new()), p))
            },
            40 => {
                let (body, p) = Plain::<QueryMissing>::decode(buf, start)?;
                Ok((WorkerOp::QueryMissing(body, Resp::new()), p))
            },
            41 => {
                let (body, p) = Plain::<StorePath>::decode(buf, start)?;
                Ok((WorkerOp::QueryDerivationOutputMap(body, Resp::new()), p))
            },
            42 => {
                let (body, p) = Plain::<Realisation>::decode(buf, start)?;
                Ok((WorkerOp::RegisterDrvOutput(body, Resp::new()), p))
            },
            43 => {
                let (body, p) = Plain::<NixString>::decode(buf, start)?;
                Ok((WorkerOp::QueryRealisation(body, Resp::new()), p))
            },
            44 => {
                let (body, p) = WithFramedSource::<AddMultipleToStore>::decode(buf, start)?;
                Ok((WorkerOp::AddMultipleToStore(body, Resp::new()), p))
            },
            45 => {
                let (body, p) = WithFramedSource::<AddBuildLog>::decode(buf, start)?;
                Ok((WorkerOp::AddBuildLog(body, Resp::new()), p))
            },
            46 => {
                let (body, p) = Plain::<BuildPaths>::decode(buf, start)?;
                Ok((WorkerOp::BuildPathsWithResults(body, Resp::new()), p))
            },
            _ => Err(Error::UnknownOpcode(code)),
        }
    }
}

impl Stream for WorkerOp {
    open spec fn has_source(&self) -> bool {
        match self {
            WorkerOp::IsValidPath(body, _) => body.has_source(),
            WorkerOp::QueryReferrers(body, _) => body.has_source(),
            WorkerOp::AddToStore(body, _) => body.has_source(),
            WorkerOp::BuildPaths(body, _) => body.has_source(),
            WorkerOp::EnsurePath(body, _) => body.has_source(),
            WorkerOp::AddTempRoot(body, _) => body.has_source(),
            WorkerOp::FindRoots(body, _) => body.has_source(),
            WorkerOp::SetOptions(body, _) => body.has_source(),
            WorkerOp::CollectGarbage(body, _) => body.has_source(),
            WorkerOp::QueryAllValidPaths(body, _) => body.has_source(),
            WorkerOp::QueryPathInfo(body, _) => body.has_source(),
            WorkerOp::QueryPathFromHashPart(body, _) => body.has_source(),
            WorkerOp::QueryValidPaths(body, _) => body.has_source(),
            WorkerOp::QuerySubstitutablePaths(body, _) => body.has_source(),
            WorkerOp::QueryValidDerivers(body, _) => body.has_source(),
            WorkerOp::OptimiseStore(body, _) => body.has_source(),
            WorkerOp::VerifyStore(body, _) => body.has_source(),
            WorkerOp::BuildDerivation(body, _) => body.has_source(),
            WorkerOp::AddSignatures(body, _) => body.has_source(),
            WorkerOp::NarFromPath(body, _) => body.has_source(),
            WorkerOp::AddToStoreNar(body, _) => body.has_source(),
            WorkerOp::QueryMissing(body, _) => body.has_source(),
            WorkerOp::QueryDerivationOutputMap(body, _) => body.has_source(),
            WorkerOp::RegisterDrvOutput(body, _) => body.has_source(),
            WorkerOp::QueryRealisation(body, _) => body.has_source(),
            WorkerOp::AddMultipleToStore(body, _) => body.has_source(),
            WorkerOp::AddBuildLog(body, _) => body.has_source(),
            WorkerOp::BuildPathsWithResults(body, _) => body.has_source(),
        }
    }

    fn stream(
        &self,
        source: &mut FramedSource,
        read: &mut NixStoreRead,
        write: &mut NixStoreWrite,
    ) -> (r: Result<bool, Error>) {
        match self {
            WorkerOp::IsValidPath(body, _) => body.stream(source, read, write),
            WorkerOp::QueryReferrers(body, _) => body.stream(source, read, write),
            WorkerOp::AddToStore(body, _) => body.stream(source, read, write),
            WorkerOp::BuildPaths(body, _) => body.stream(source, read, write),
            WorkerOp::EnsurePath(body, _) => body.stream(source, read, write),
            WorkerOp::AddTempRoot(body, _) => body.stream(source, read, write),
            WorkerOp::FindRoots(body, _) => body.stream(source, read, write),
            WorkerOp::SetOptions(body, _) => body.stream(source, read, write),
            WorkerOp::CollectGarbage(body, _) => body.stream(source, read, write),
            WorkerOp::QueryAllValidPaths(body, _) => body.stream(source, read, write),
            WorkerOp::QueryPathInfo(body, _) => body.stream(source, read, write),
            WorkerOp::QueryPathFromHashPart(body, _) => body.stream(source, read, write),
            WorkerOp::QueryValidPaths(body, _) => body.stream(source, read, write),
            WorkerOp::QuerySubstitutablePaths(body, _) => body.stream(source, read, write),
            WorkerOp::QueryValidDerivers(body, _) => body.stream(source, read, write),
            WorkerOp::OptimiseStore(body, _) => body.stream(source, read, write),
            WorkerOp::VerifyStore(body, _) => body.stream(source, read, write),
            WorkerOp::BuildDerivation(body, _) => body.stream(source, read, write),
            WorkerOp::AddSignatures(body, _) => body.stream(source, read, write),
            WorkerOp::NarFromPath(body, _) => body.stream(source, read, write),
            WorkerOp::AddToStoreNar(body, _) => body.stream(source, read, write),
            WorkerOp::QueryMissing(body, _) => body.stream(source, read, write),
            WorkerOp::QueryDerivationOutputMap(body, _) => body.stream(source, read, write),
            WorkerOp::RegisterDrvOutput(body, _) => body.stream(source, read, write),
            WorkerOp::QueryRealisation(body, _) => body.stream(source, read, write),
            WorkerOp::AddMultipleToStore(body, _) => body.stream(source, read, write),
            WorkerOp::AddBuildLog(body, _) => body.stream(source, read, write),
            WorkerOp::BuildPathsWithResults(body, _) => body.stream(source, read, write),
        }
    }
}

impl WorkerOp {
    /// The word that opens this request.
    pub fn opcode(&self) -> (code: u64)
        ensures
            code == self.model().opcode(),
    {
        match self {
            WorkerOp::IsValidPath(_, _) => 1,
            WorkerOp::QueryReferrers(_, _) => 6,
            WorkerOp::AddToStore(_, _) => 7,
            WorkerOp::BuildPaths(_, _) => 9,
            WorkerOp::EnsurePath(_, _) => 10,
            WorkerOp::AddTempRoot(_, _) => 11,
            WorkerOp::FindRoots(_, _) => 14,
            WorkerOp::SetOptions(_, _) => 19,
            WorkerOp::CollectGarbage(_, _) => 20,
            WorkerOp::QueryAllValidPaths(_, _) => 23,
            WorkerOp::QueryPathInfo(_, _) => 26,
            WorkerOp::QueryPathFromHashPart(_, _) => 29,
            WorkerOp::QueryValidPaths(_, _) => 31,
            WorkerOp::QuerySubstitutablePaths(_, _) => 32,
            WorkerOp::QueryValidDerivers(_, _) => 33,
            WorkerOp::OptimiseStore(_, _) => 34,
            WorkerOp::VerifyStore(_, _) => 35,
            WorkerOp::BuildDerivation(_, _) => 36,
            WorkerOp::AddSignatures(_, _) => 37,
            WorkerOp::NarFromPath(_, _) => 38,
            WorkerOp::AddToStoreNar(_, _) => 39,
            WorkerOp::QueryMissing(_, _) => 40,
            WorkerOp::QueryDerivationOutputMap(_, _) => 41,
            WorkerOp::RegisterDrvOutput(_, _) => 42,
            WorkerOp::QueryRealisation(_, _) => 43,
            WorkerOp::AddMultipleToStore(_, _) => 44,
            WorkerOp::AddBuildLog(_, _) => 45,
            WorkerOp::BuildPathsWithResults(_, _) => 46,
        }
    }

    /// Whether a framed source follows this request.
    pub fn is_framed(&self) -> (framed: bool)
        ensures
            framed == self.model().has_source(),
            framed == self.has_source(),
    {
        match self {
            WorkerOp::AddToStore(_, _)
            | WorkerOp::AddToStoreNar(_, _)
            | WorkerOp::AddMultipleToStore(_, _)
            | WorkerOp::AddBuildLog(_, _) => true,
            _ => false,
        }
    }

    /// Passes the reply to this request on from `read` to `write`.
    ///
    /// Reads the reply from `read`, checks that the value
    /// read gives the same bytes when written again, and passes those bytes
    /// on to `write`. Where the reply is not all there, does not parse, or
    /// fails the check, nothing is taken or passed on. The archive that
    /// answers `NarFromPath` is passed on as far as it has arrived, unread.
    pub fn proxy_response(&self, read: &mut NixStoreRead, write: &mut NixStoreWrite) -> (r: Result<
        (),
        Error,
    >)
        requires
            old(read).wf(),
        ensures
            final(read).wf(),
            final(read).at_end() == old(read).at_end(),
            final(read).held() == old(read).held(),
            relayed(
                self.model().reply(old(read).remaining()),
                old(read).remaining(),
                old(write)@,
                final(read).remaining(),
                final(write)@,
                r,
            ),
    {
        match self {
            WorkerOp::IsValidPath(_, resp) => relay(resp, read, write),
            WorkerOp::QueryReferrers(_, resp) => relay(resp, read, write),
            WorkerOp::AddToStore(_, resp) => relay(resp, read, write),
            WorkerOp::BuildPaths(_, resp) => relay(resp, read, write),
            WorkerOp::EnsurePath(_, resp) => relay(resp, read, write),
            WorkerOp::AddTempRoot(_, resp) => relay(resp, read, write),
            WorkerOp::FindRoots(_, resp) => relay(resp, read, write),
            WorkerOp::SetOptions(_, resp) => relay(resp, read, write),
            WorkerOp::CollectGarbage(_, resp) => relay(resp, read, write),
            WorkerOp::QueryAllValidPaths(_, resp) => relay(resp, read, write),
            WorkerOp::QueryPathInfo(_, resp) => relay(resp, read, write),
            WorkerOp::QueryPathFromHashPart(_, resp) => relay(resp, read, write),
            WorkerOp::QueryValidPaths(_, resp) => relay(resp, read, write),
            WorkerOp::QuerySubstitutablePaths(_, resp) => relay(resp, read, write),
            WorkerOp::QueryValidDerivers(_, resp) => relay(resp, read, write),
            WorkerOp::OptimiseStore(_, resp) => relay(resp, read, write),
            WorkerOp::VerifyStore(_, resp) => relay(resp, read, write),
            WorkerOp::BuildDerivation(_, resp) => relay(resp, read, write),
            WorkerOp::AddSignatures(_, resp) => relay(resp, read, write),
            WorkerOp::NarFromPath(_, _) => relay_all(read, write),
            WorkerOp::AddToStoreNar(_, resp) => relay(resp, read, write),
            WorkerOp::QueryMissing(_, resp) => relay(resp, read, write),
            WorkerOp::QueryDerivationOutputMap(_, resp) => relay(resp, read, write),
            WorkerOp::RegisterDrvOutput(_, resp) => relay(resp, read, write),
            WorkerOp::QueryRealisation(_, resp) => relay(resp, read, write),
            WorkerOp::AddMultipleToStore(_, resp) => relay(resp, read, write),
            WorkerOp::AddBuildLog(_, resp) => relay(resp, read, write),
            WorkerOp::BuildPathsWithResults(_, resp) => relay(resp, read, write),
        }
    }
}

/// The first `expected` bytes of `input` have been passed on to the output
/// and `r` reports success; or, where `expected` is an error, nothing has
/// moved and `r` reports that error.
pub open spec fn relayed(
    expected: Result<nat, Error>,
    input: Seq<u8>,
    output: Seq<u8>,
    input_after: Seq<u8>,
    output_after: Seq<u8>,
    r: Result<(), Error>,
) -> bool {
    match expected {
        Ok(n) => {
            &&& r == Ok::<(), Error>(())
            &&& input_after == input.skip(n as int)
            &&& output_after == output + input.take(n as int)
        },
        Err(e) => {
            &&& r == Err::<(), Error>(e)
            &&& input_after == input
            &&& output_after == output
        },
    }
}

/// Passes one reply of type `T` on from `read` to `write`, after checking
/// that it re-encodes to the bytes it came as.
fn relay<T: Wire>(resp: &Resp<T>, read: &mut NixStoreRead, write: &mut NixStoreWrite) -> (r: Result<
    (),
    Error,
>)
    requires
        old(read).wf(),
    ensures
        final(read).wf(),
        final(read).at_end() == old(read).at_end(),
        final(read).held() == old(read).held(),
        relayed(
            faithful::<T>(old(read).remaining()),
            old(read).remaining(),
            old(write)@,
            final(read).remaining(),
            final(write)@,
            r,
        ),
{
    resp.ty(read.read_through(write)?);
    Ok(())
}

/// Passes on everything that has arrived, unread.
fn relay_all(read: &mut NixStoreRead, write: &mut NixStoreWrite) -> (r: Result<(), Error>)
    requires
        old(read).wf(),
    ensures
        final(read).wf(),
        final(read).at_end() == old(read).at_end(),
        final(read).held() == old(read).held(),
        relayed(
            Ok(old(read).remaining().len()),
            old(read).remaining(),
            old(write)@,
            final(read).remaining(),
            final(write)@,
            r,
        ),
{
    read.drain(&mut write.inner);
    proof {
        let all = old(read).remaining();
        assert(all.take(all.len() as int) =~= all);
        assert(all.skip(all.len() as int) =~= Seq::<u8>::empty());
    }
    Ok(())
}

} // verus!
