//! The records that requests and replies carry. Each is written as its
//! fields one after another, in the order they are declared.

use crate::error::Error;
use crate::tags::{BuildMode, BuildStatus, GcAction, Verbosity};
use crate::types::{
    NarHash, NixString, OptionalStorePath, Path, PathSet, Realisation, RenderedContentAddress,
    StorePath, StorePathSet, StringSet, Time,
};
use crate::wire::{Encode, Parsed, Wire};
use vstd::prelude::*;

verus! {

/// What the store knows of a valid path.
#[derive(Clone, Debug, PartialEq, Eq)]
pub struct ValidPathInfo {
    /// The derivation that built the path, if that is known.
    pub deriver: OptionalStorePath,
    /// The hash of the path's archive.
    pub hash: NarHash,
    /// The paths that this one refers to.
    pub references: StorePathSet,
    /// When the path was registered, in seconds since the epoch.
    pub registration_time: Time,
    /// The size of the path's archive in bytes.
    pub nar_size: u64,
    /// Whether the path was built here rather than fetched.
    pub ultimate: bool,
    /// Signatures that vouch for the path.
    pub sigs: StringSet,
    /// The content address, or the empty string.
    pub content_address: RenderedContentAddress,
}

/// What a [`ValidPathInfo`] stands for.
pub struct ValidPathInfoModel {
    pub deriver: Seq<u8>,
    pub hash: Seq<u8>,
    pub references: Seq<Seq<u8>>,
    pub registration_time: u64,
    pub nar_size: u64,
    pub ultimate: bool,
    pub sigs: Seq<Seq<u8>>,
    pub content_address: Seq<u8>,
}

/// The fields of a [`ValidPathInfo`] in the order they are written.
pub type ValidPathInfoFields = (
    OptionalStorePath, (
    NarHash, (
    StorePathSet, (
    Time, (
    u64, (
    bool, (
    StringSet,
    RenderedContentAddress
)))))));

impl ValidPathInfoModel {
    /// The fields in wire order.
    pub open spec fn fields(self) -> <ValidPathInfoFields as Encode>::Model {
        (
            self.deriver, (
            self.hash, (
            self.references, (
            self.registration_time, (
            self.nar_size, (
            self.ultimate, (
            self.sigs,
            self.content_address
        )))))))
    }

    /// The record that holds the given fields.
    pub open spec fn of_fields(f: <ValidPathInfoFields as Encode>::Model) -> ValidPathInfoModel {
        ValidPathInfoModel {
            deriver: f.0,
            hash: f.1.0,
            references: f.1.1.0,
            registration_time: f.1.1.1.0,
            nar_size: f.1.1.1.1.0,
            ultimate: f.1.1.1.1.1.0,
            sigs: f.1.1.1.1.1.1.0,
            content_address: f.1.1.1.1.1.1.1,
        }
    }
}

impl Encode for ValidPathInfo {
    type Model = ValidPathInfoModel;

    open spec fn model(&self) -> ValidPathInfoModel {
        ValidPathInfoModel {
            deriver: self.deriver.model(),
            hash: self.hash.model(),
            references: self.references.model(),
            registration_time: self.registration_time.model(),
            nar_size: self.nar_size.model(),
            ultimate: self.ultimate.model(),
            sigs: self.sigs.model(),
            content_address: self.content_address.model(),
        }
    }

    open spec fn encoding(m: ValidPathInfoModel) -> Seq<u8> {
        ValidPathInfoFields::encoding(m.fields())
    }

    proof fn lemma_encoding_aligned(m: ValidPathInfoModel) {
        ValidPathInfoFields::lemma_encoding_aligned(m.fields());
    }

    fn encode(&self, out: &mut Vec<u8>) {
        let fields = (
            &self.deriver, (
            &self.hash, (
            &self.references, (
            &self.registration_time, (
            &self.nar_size, (
            &self.ultimate, (
            &self.sigs,
            &self.content_address
        )))))));
        fields.encode(out);
    }
}

impl Wire for ValidPathInfo {
    open spec fn encodable(m: ValidPathInfoModel) -> bool {
        ValidPathInfoFields::encodable(m.fields())
    }

    open spec fn parse(s: Seq<u8>) -> Parsed<ValidPathInfoModel> {
        match ValidPathInfoFields::parse(s) {
            Ok((f, n)) => Ok((ValidPathInfoModel::of_fields(f), n)),
            Err(e) => Err(e),
        }
    }

    proof fn lemma_parse_within(s: Seq<u8>) {
        ValidPathInfoFields::lemma_parse_within(s);
    }

    proof fn lemma_parse_stable(s: Seq<u8>, more: Seq<u8>) {
        ValidPathInfoFields::lemma_parse_stable(s, more);
    }

    proof fn lemma_round_trip(m: ValidPathInfoModel, rest: Seq<u8>) {
        ValidPathInfoFields::lemma_round_trip(m.fields(), rest);
    }

    fn decode(buf: &[u8], pos: usize) -> (r: Result<(ValidPathInfo, usize), Error>) {
        let (f, p) = ValidPathInfoFields::decode(buf, pos)?;
        let (deriver, f) = f;
        let (hash, f) = f;
        let (references, f) = f;
        let (registration_time, f) = f;
        let (nar_size, f) = f;
        let (ultimate, f) = f;
        let (sigs, content_address) = f;
        let value = ValidPathInfo {
            deriver,
            hash,
            references,
            registration_time,
            nar_size,
            ultimate,
            sigs,
            content_address,
        };
        Ok((value, p))
    }
}

/// A store path together with what the store knows of it.
#[derive(Clone, Debug, PartialEq, Eq)]
pub struct ValidPathInfoWithPath {
    pub path: Path,
    pub info: ValidPathInfo,
}

/// What a [`ValidPathInfoWithPath`] stands for.
pub struct ValidPathInfoWithPathModel {
    pub path: Seq<u8>,
    pub info: ValidPathInfoModel,
}

/// The fields of a [`ValidPathInfoWithPath`] in the order they are written.
pub type ValidPathInfoWithPathFields = (
    Path,
    ValidPathInfo
);

impl ValidPathInfoWithPathModel {
    /// The fields in wire order.
    pub open spec fn fields(self) -> <ValidPathInfoWithPathFields as Encode>::Model {
        (
            self.path,
            self.info
        )
    }

    /// The record that holds the given fields.
    pub open spec fn of_fields(f: <ValidPathInfoWithPathFields as Encode>::Model) -> ValidPathInfoWithPathModel {
        ValidPathInfoWithPathModel {
            path: f.0,
            info: f.1,
        }
    }
}

impl Encode for ValidPathInfoWithPath {
    type Model = ValidPathInfoWithPathModel;

    open spec fn model(&self) -> ValidPathInfoWithPathModel {
        ValidPathInfoWithPathModel {
            path: self.path.model(),
            info: self.info.model(),
        }
    }

    open spec fn encoding(m: ValidPathInfoWithPathModel) -> Seq<u8> {
        ValidPathInfoWithPathFields::encoding(m.fields())
    }

    proof fn lemma_encoding_aligned(m: ValidPathInfoWithPathModel) {
        ValidPathInfoWithPathFields::lemma_encoding_aligned(m.fields());
    }

    fn encode(&self, out: &mut Vec<u8>) {
        let fields = (
            &self.path,
            &self.info
        );
        fields.encode(out);
    }
}

impl Wire for ValidPathInfoWithPath {
    open spec fn encodable(m: ValidPathInfoWithPathModel) -> bool {
        ValidPathInfoWithPathFields::encodable(m.fields())
    }

    open spec fn parse(s: Seq<u8>) -> Parsed<ValidPathInfoWithPathModel> {
        match ValidPathInfoWithPathFields::parse(s) {
            Ok((f, n)) => Ok((ValidPathInfoWithPathModel::of_fields(f), n)),
            Err(e) => Err(e),
        }
    }

    proof fn lemma_parse_within(s: Seq<u8>) {
        ValidPathInfoWithPathFields::lemma_parse_within(s);
    }

    proof fn lemma_parse_stable(s: Seq<u8>, more: Seq<u8>) {
        ValidPathInfoWithPathFields::lemma_parse_stable(s, more);
    }

    proof fn lemma_round_trip(m: ValidPathInfoWithPathModel, rest: Seq<u8>) {
        ValidPathInfoWithPathFields::lemma_round_trip(m.fields(), rest);
    }

    fn decode(buf: &[u8], pos: usize) -> (r: Result<(ValidPathInfoWithPath, usize), Error>) {
        let (f, p) = ValidPathInfoWithPathFields::decode(buf, pos)?;
        let (path, info) = f;
        Ok((ValidPathInfoWithPath { path, info }, p))
    }
}

/// The settings that a client hands to the daemon. Those whose names start with
/// an underscore are no longer used and only carried.
#[derive(Clone, Debug, PartialEq, Eq)]
pub struct SetOptions {
    pub keep_failing: bool,
    pub keep_going: bool,
    pub try_fallback: bool,
    pub verbosity: Verbosity,
    pub max_build_jobs: u64,
    pub max_silent_time: Time,
    pub _use_build_hook: u64,
    pub build_verbosity: Verbosity,
    pub _log_type: u64,
    pub _print_build_trace: u64,
    pub build_cores: u64,
    pub use_substitutes: bool,
    /// Further settings by name, in the order they were sent.
    pub options: Vec<(NixString, NixString)>,
}

/// What a [`SetOptions`] stands for.
pub struct SetOptionsModel {
    pub keep_failing: bool,
    pub keep_going: bool,
    pub try_fallback: bool,
    pub verbosity: Verbosity,
    pub max_build_jobs: u64,
    pub max_silent_time: u64,
    pub _use_build_hook: u64,
    pub build_verbosity: Verbosity,
    pub _log_type: u64,
    pub _print_build_trace: u64,
    pub build_cores: u64,
    pub use_substitutes: bool,
    pub options: Seq<(Seq<u8>, Seq<u8>)>,
}

/// The fields of a [`SetOptions`] in the order they are written.
pub type SetOptionsFields = (
    bool, (
    bool, (
    bool, (
    Verbosity, (
    u64, (
    Time, (
    u64, (
    Verbosity, (
    u64, (
    u64, (
    u64, (
    bool,
    Vec<(NixString, NixString)>
))))))))))));

impl SetOptionsModel {
    /// The fields in wire order.
    pub open spec fn fields(self) -> <SetOptionsFields as Encode>::Model {
        (
            self.keep_failing, (
            self.keep_going, (
            self.try_fallback, (
            self.verbosity, (
            self.max_build_jobs, (
            self.max_silent_time, (
            self._use_build_hook, (
            self.build_verbosity, (
            self._log_type, (
            self._print_build_trace, (
            self.build_cores, (
            self.use_substitutes,
            self.options
        ))))))))))))
    }

    /// The record that holds the given fields.
    pub open spec fn of_fields(f: <SetOptionsFields as Encode>::Model) -> SetOptionsModel {
        SetOptionsModel {
            keep_failing: f.0,
            keep_going: f.1.0,
            try_fallback: f.1.1.0,
            verbosity: f.1.1.1.0,
            max_build_jobs: f.1.1.1.1.0,
            max_silent_time: f.1.1.1.1.1.0,
            _use_build_hook: f.1.1.1.1.1.1.0,
            build_verbosity: f.1.1.1.1.1.1.1.0,
            _log_type: f.1.1.1.1.1.1.1.1.0,
            _print_build_trace: f.1.1.1.1.1.1.1.1.1.0,
            build_cores: f.1.1.1.1.1.1.1.1.1.1.0,
            use_substitutes: f.1.1.1.1.1.1.1.1.1.1.1.0,
            options: f.1.1.1.1.1.1.1.1.1.1.1.1,
        }
    }
}

impl Encode for SetOptions {
    type Model = SetOptionsModel;

    open spec fn model(&self) -> SetOptionsModel {
        SetOptionsModel {
            keep_failing: self.keep_failing.model(),
            keep_going: self.keep_going.model(),
            try_fallback: self.try_fallback.model(),
            verbosity: self.verbosity.model(),
            max_build_jobs: self.max_build_jobs.model(),
            max_silent_time: self.max_silent_time.model(),
            _use_build_hook: self._use_build_hook.model(),
            build_verbosity: self.build_verbosity.model(),
            _log_type: self._log_type.model(),
            _print_build_trace: self._print_build_trace.model(),
            build_cores: self.build_cores.model(),
            use_substitutes: self.use_substitutes.model(),
            options: self.options.model(),
        }
    }

    open spec fn encoding(m: SetOptionsModel) -> Seq<u8> {
        SetOptionsFields::encoding(m.fields())
    }

    proof fn lemma_encoding_aligned(m: SetOptionsModel) {
        SetOptionsFields::lemma_encoding_aligned(m.fields());
    }

    fn encode(&self, out: &mut Vec<u8>) {
        let fields = (
            &self.keep_failing, (
            &self.keep_going, (
            &self.try_fallback, (
            &self.verbosity, (
            &self.max_build_jobs, (
            &self.max_silent_time, (
            &self._use_build_hook, (
            &self.build_verbosity, (
            &self._log_type, (
            &self._print_build_trace, (
            &self.build_cores, (
            &self.use_substitutes,
            &self.options
        ))))))))))));
        fields.encode(out);
    }
}

impl Wire for SetOptions {
    open spec fn encodable(m: SetOptionsModel) -> bool {
        SetOptionsFields::encodable(m.fields())
    }

    open spec fn parse(s: Seq<u8>) -> Parsed<SetOptionsModel> {
        match SetOptionsFields::parse(s) {
            Ok((f, n)) => Ok((SetOptionsModel::of_fields(f), n)),
            Err(e) => Err(e),
        }
    }

    proof fn lemma_parse_within(s: Seq<u8>) {
        SetOptionsFields::lemma_parse_within(s);
    }

    proof fn lemma_parse_stable(s: Seq<u8>, more: Seq<u8>) {
        SetOptionsFields::lemma_parse_stable(s, more);
    }

    proof fn lemma_round_trip(m: SetOptionsModel, rest: Seq<u8>) {
        SetOptionsFields::lemma_round_trip(m.fields(), rest);
    }

    fn decode(buf: &[u8], pos: usize) -> (r: Result<(SetOptions, usize), Error>) {
        let (f, p) = SetOptionsFields::decode(buf, pos)?;
        let (keep_failing, f) = f;
        let (keep_going, f) = f;
        let (try_fallback, f) = f;
        let (verbosity, f) = f;
        let (max_build_jobs, f) = f;
        let (max_silent_time, f) = f;
        let (_use_build_hook, f) = f;
        let (build_verbosity, f) = f;
        let (_log_type, f) = f;
        let (_print_build_trace, f) = f;
        let (build_cores, f) = f;
        let (use_substitutes, options) = f;
        let value = SetOptions {
            keep_failing,
            keep_going,
            try_fallback,
            verbosity,
            max_build_jobs,
            max_silent_time,
            _use_build_hook,
            build_verbosity,
            _log_type,
            _print_build_trace,
            build_cores,
            use_substitutes,
            options,
        };
        Ok((value, p))
    }
}

/// A request to add a file tree to the store. The tree itself follows as a
/// framed source.
#[derive(Clone, Debug, PartialEq, Eq)]
pub struct AddToStore {
    pub name: StorePath,
    /// How the content is to be addressed.
    pub cam_str: StorePath,
    pub refs: StorePathSet,
    pub repair: bool,
}

/// What a [`AddToStore`] stands for.
pub struct AddToStoreModel {
    pub name: Seq<u8>,
    pub cam_str: Seq<u8>,
    pub refs: Seq<Seq<u8>>,
    pub repair: bool,
}

/// The fields of a [`AddToStore`] in the order they are written.
pub type AddToStoreFields = (
    StorePath, (
    StorePath, (
    StorePathSet,
    bool
)));

impl AddToStoreModel {
    /// The fields in wire order.
    pub open spec fn fields(self) -> <AddToStoreFields as Encode>::Model {
        (
            self.name, (
            self.cam_str, (
            self.refs,
            self.repair
        )))
    }

    /// The record that holds the given fields.
    pub open spec fn of_fields(f: <AddToStoreFields as Encode>::Model) -> AddToStoreModel {
        AddToStoreModel {
            name: f.0,
            cam_str: f.1.0,
            refs: f.1.1.0,
            repair: f.1.1.1,
        }
    }
}

impl Encode for AddToStore {
    type Model = AddToStoreModel;

    open spec fn model(&self) -> AddToStoreModel {
        AddToStoreModel {
            name: self.name.model(),
            cam_str: self.cam_str.model(),
            refs: self.refs.model(),
            repair: self.repair.model(),
        }
    }

    open spec fn encoding(m: AddToStoreModel) -> Seq<u8> {
        AddToStoreFields::encoding(m.fields())
    }

    proof fn lemma_encoding_aligned(m: AddToStoreModel) {
        AddToStoreFields::lemma_encoding_aligned(m.fields());
    }

    fn encode(&self, out: &mut Vec<u8>) {
        let fields = (
            &self.name, (
            &self.cam_str, (
            &self.refs,
            &self.repair
        )));
        fields.encode(out);
    }
}

impl Wire for AddToStore {
    open spec fn encodable(m: AddToStoreModel) -> bool {
        AddToStoreFields::encodable(m.fields())
    }

    open spec fn parse(s: Seq<u8>) -> Parsed<AddToStoreModel> {
        match AddToStoreFields::parse(s) {
            Ok((f, n)) => Ok((AddToStoreModel::of_fields(f), n)),
            Err(e) => Err(e),
        }
    }

    proof fn lemma_parse_within(s: Seq<u8>) {
        AddToStoreFields::lemma_parse_within(s);
    }

    proof fn lemma_parse_stable(s: Seq<u8>, more: Seq<u8>) {
        AddToStoreFields::lemma_parse_stable(s, more);
    }

    proof fn lemma_round_trip(m: AddToStoreModel, rest: Seq<u8>) {
        AddToStoreFields::lemma_round_trip(m.fields(), rest);
    }

    fn decode(buf: &[u8], pos: usize) -> (r: Result<(AddToStore, usize), Error>) {
        let (f, p) = AddToStoreFields::decode(buf, pos)?;
        let (name, f) = f;
        let (cam_str, f) = f;
        let (refs, repair) = f;
        Ok((AddToStore { name, cam_str, refs, repair }, p))
    }
}

/// A request to build paths.
#[derive(Clone, Debug, PartialEq, Eq)]
pub struct BuildPaths {
    pub paths: Vec<StorePath>,
    pub build_mode: BuildMode,
}

/// What a [`BuildPaths`] stands for.
pub struct BuildPathsModel {
    pub paths: Seq<Seq<u8>>,
    pub build_mode: BuildMode,
}

/// The fields of a [`BuildPaths`] in the order they are written.
pub type BuildPathsFields = (
    Vec<StorePath>,
    BuildMode
);

impl BuildPathsModel {
    /// The fields in wire order.
    pub open spec fn fields(self) -> <BuildPathsFields as Encode>::Model {
        (
            self.paths,
            self.build_mode
        )
    }

    /// The record that holds the given fields.
    pub open spec fn of_fields(f: <BuildPathsFields as Encode>::Model) -> BuildPathsModel {
        BuildPathsModel {
            paths: f.0,
            build_mode: f.1,
        }
    }
}

impl Encode for BuildPaths {
    type Model = BuildPathsModel;

    open spec fn model(&self) -> BuildPathsModel {
        BuildPathsModel {
            paths: self.paths.model(),
            build_mode: self.build_mode.model(),
        }
    }

    open spec fn encoding(m: BuildPathsModel) -> Seq<u8> {
        BuildPathsFields::encoding(m.fields())
    }

    proof fn lemma_encoding_aligned(m: BuildPathsModel) {
        BuildPathsFields::lemma_encoding_aligned(m.fields());
    }

    fn encode(&self, out: &mut Vec<u8>) {
        let fields = (
            &self.paths,
            &self.build_mode
        );
        fields.encode(out);
    }
}

impl Wire for BuildPaths {
    open spec fn encodable(m: BuildPathsModel) -> bool {
        BuildPathsFields::encodable(m.fields())
    }

    open spec fn parse(s: Seq<u8>) -> Parsed<BuildPathsModel> {
        match BuildPathsFields::parse(s) {
            Ok((f, n)) => Ok((BuildPathsModel::of_fields(f), n)),
            Err(e) => Err(e),
        }
    }

    proof fn lemma_parse_within(s: Seq<u8>) {
        BuildPathsFields::lemma_parse_within(s);
    }

    proof fn lemma_parse_stable(s: Seq<u8>, more: Seq<u8>) {
        BuildPathsFields::lemma_parse_stable(s, more);
    }

    proof fn lemma_round_trip(m: BuildPathsModel, rest: Seq<u8>) {
        BuildPathsFields::lemma_round_trip(m.fields(), rest);
    }

    fn decode(buf: &[u8], pos: usize) -> (r: Result<(BuildPaths, usize), Error>) {
        let (f, p) = BuildPathsFields::decode(buf, pos)?;
        let (paths, build_mode) = f;
        Ok((BuildPaths { paths, build_mode }, p))
    }
}

/// A request to say what building the given paths would take.
#[derive(Clone, Debug, PartialEq, Eq)]
pub struct QueryMissing {
    pub paths: Vec<StorePath>,
}

impl Encode for QueryMissing {
    type Model = Seq<Seq<u8>>;

    open spec fn model(&self) -> Seq<Seq<u8>> {
        self.paths.model()
    }

    open spec fn encoding(m: Seq<Seq<u8>>) -> Seq<u8> {
        <Vec<StorePath>>::encoding(m)
    }

    proof fn lemma_encoding_aligned(m: Seq<Seq<u8>>) {
        <Vec<StorePath>>::lemma_encoding_aligned(m);
    }

    fn encode(&self, out: &mut Vec<u8>) {
        self.paths.encode(out);
    }
}

impl Wire for QueryMissing {
    open spec fn encodable(m: Seq<Seq<u8>>) -> bool {
        <Vec<StorePath>>::encodable(m)
    }

    open spec fn parse(s: Seq<u8>) -> Parsed<Seq<Seq<u8>>> {
        <Vec<StorePath>>::parse(s)
    }

    proof fn lemma_parse_within(s: Seq<u8>) {
        <Vec<StorePath>>::lemma_parse_within(s);
    }

    proof fn lemma_parse_stable(s: Seq<u8>, more: Seq<u8>) {
        <Vec<StorePath>>::lemma_parse_stable(s, more);
    }

    proof fn lemma_round_trip(m: Seq<Seq<u8>>, rest: Seq<u8>) {
        <Vec<StorePath>>::lemma_round_trip(m, rest);
    }

    fn decode(buf: &[u8], pos: usize) -> (r: Result<(QueryMissing, usize), Error>) {
        let (inner, p) = <Vec<StorePath>>::decode(buf, pos)?;
        Ok((QueryMissing { paths: inner }, p))
    }
}

/// What the store knows of a path, or nothing if the path is not valid.
#[derive(Clone, Debug, PartialEq, Eq)]
pub struct QueryPathInfoResponse {
    pub path: Option<ValidPathInfo>,
}

impl Encode for QueryPathInfoResponse {
    type Model = Option<ValidPathInfoModel>;

    open spec fn model(&self) -> Option<ValidPathInfoModel> {
        self.path.model()
    }

    open spec fn encoding(m: Option<ValidPathInfoModel>) -> Seq<u8> {
        <Option<ValidPathInfo>>::encoding(m)
    }

    proof fn lemma_encoding_aligned(m: Option<ValidPathInfoModel>) {
        <Option<ValidPathInfo>>::lemma_encoding_aligned(m);
    }

    fn encode(&self, out: &mut Vec<u8>) {
        self.path.encode(out);
    }
}

impl Wire for QueryPathInfoResponse {
    open spec fn encodable(m: Option<ValidPathInfoModel>) -> bool {
        <Option<ValidPathInfo>>::encodable(m)
    }

    open spec fn parse(s: Seq<u8>) -> Parsed<Option<ValidPathInfoModel>> {
        <Option<ValidPathInfo>>::parse(s)
    }

    proof fn lemma_parse_within(s: Seq<u8>) {
        <Option<ValidPathInfo>>::lemma_parse_within(s);
    }

    proof fn lemma_parse_stable(s: Seq<u8>, more: Seq<u8>) {
        <Option<ValidPathInfo>>::lemma_parse_stable(s, more);
    }

    proof fn lemma_round_trip(m: Option<ValidPathInfoModel>, rest: Seq<u8>) {
        <Option<ValidPathInfo>>::lemma_round_trip(m, rest);
    }

    fn decode(buf: &[u8], pos: usize) -> (r: Result<(QueryPathInfoResponse, usize), Error>) {
        let (inner, p) = <Option<ValidPathInfo>>::decode(buf, pos)?;
        Ok((QueryPathInfoResponse { path: inner }, p))
    }
}

/// What building some paths would take.
#[derive(Clone, Debug, PartialEq, Eq)]
pub struct QueryMissingResponse {
    pub will_build: StorePathSet,
    pub will_substitute: StorePathSet,
    pub unknown: StorePathSet,
    pub download_size: u64,
    pub nar_size: u64,
}

/// What a [`QueryMissingResponse`] stands for.
pub struct QueryMissingResponseModel {
    pub will_build: Seq<Seq<u8>>,
    pub will_substitute: Seq<Seq<u8>>,
    pub unknown: Seq<Seq<u8>>,
    pub download_size: u64,
    pub nar_size: u64,
}

/// The fields of a [`QueryMissingResponse`] in the order they are written.
pub type QueryMissingResponseFields = (
    StorePathSet, (
    StorePathSet, (
    StorePathSet, (
    u64,
    u64
))));

impl QueryMissingResponseModel {
    /// The fields in wire order.
    pub open spec fn fields(self) -> <QueryMissingResponseFields as Encode>::Model {
        (
            self.will_build, (
            self.will_substitute, (
            self.unknown, (
            self.download_size,
            self.nar_size
        ))))
    }

    /// The record that holds the given fields.
    pub open spec fn of_fields(f: <QueryMissingResponseFields as Encode>::Model) -> QueryMissingResponseModel {
        QueryMissingResponseModel {
            will_build: f.0,
            will_substitute: f.1.0,
            unknown: f.1.1.0,
            download_size: f.1.1.1.0,
            nar_size: f.1.1.1.1,
        }
    }
}

impl Encode for QueryMissingResponse {
    type Model = QueryMissingResponseModel;

    open spec fn model(&self) -> QueryMissingResponseModel {
        QueryMissingResponseModel {
            will_build: self.will_build.model(),
            will_substitute: self.will_substitute.model(),
            unknown: self.unknown.model(),
            download_size: self.download_size.model(),
            nar_size: self.nar_size.model(),
        }
    }

    open spec fn encoding(m: QueryMissingResponseModel) -> Seq<u8> {
        QueryMissingResponseFields::encoding(m.fields())
    }

    proof fn lemma_encoding_aligned(m: QueryMissingResponseModel) {
        QueryMissingResponseFields::lemma_encoding_aligned(m.fields());
    }

    fn encode(&self, out: &mut Vec<u8>) {
        let fields = (
            &self.will_build, (
            &self.will_substitute, (
            &self.unknown, (
            &self.download_size,
            &self.nar_size
        ))));
        fields.encode(out);
    }
}

impl Wire for QueryMissingResponse {
    open spec fn encodable(m: QueryMissingResponseModel) -> bool {
        QueryMissingResponseFields::encodable(m.fields())
    }

    open spec fn parse(s: Seq<u8>) -> Parsed<QueryMissingResponseModel> {
        match QueryMissingResponseFields::parse(s) {
            Ok((f, n)) => Ok((QueryMissingResponseModel::of_fields(f), n)),
            Err(e) => Err(e),
        }
    }

    proof fn lemma_parse_within(s: Seq<u8>) {
        QueryMissingResponseFields::lemma_parse_within(s);
    }

    proof fn lemma_parse_stable(s: Seq<u8>, more: Seq<u8>) {
        QueryMissingResponseFields::lemma_parse_stable(s, more);
    }

    proof fn lemma_round_trip(m: QueryMissingResponseModel, rest: Seq<u8>) {
        QueryMissingResponseFields::lemma_round_trip(m.fields(), rest);
    }

    fn decode(buf: &[u8], pos: usize) -> (r: Result<(QueryMissingResponse, usize), Error>) {
        let (f, p) = QueryMissingResponseFields::decode(buf, pos)?;
        let (will_build, f) = f;
        let (will_substitute, f) = f;
        let (unknown, f) = f;
        let (download_size, nar_size) = f;
        let value = QueryMissingResponse {
            will_build,
            will_substitute,
            unknown,
            download_size,
            nar_size,
        };
        Ok((value, p))
    }
}

/// The outputs that a build produced: the name of each output and its
/// realisation.
#[derive(Clone, Debug, PartialEq, Eq)]
pub struct DrvOutputs(pub Vec<(NixString, Realisation)>);

impl Encode for DrvOutputs {
    type Model = Seq<(Seq<u8>, Seq<u8>)>;

    open spec fn model(&self) -> Seq<(Seq<u8>, Seq<u8>)> {
        self.0.model()
    }

    open spec fn encoding(m: Seq<(Seq<u8>, Seq<u8>)>) -> Seq<u8> {
        <Vec<(NixString, Realisation)>>::encoding(m)
    }

    proof fn lemma_encoding_aligned(m: Seq<(Seq<u8>, Seq<u8>)>) {
        <Vec<(NixString, Realisation)>>::lemma_encoding_aligned(m);
    }

    fn encode(&self, out: &mut Vec<u8>) {
        self.0.encode(out);
    }
}

impl Wire for DrvOutputs {
    open spec fn encodable(m: Seq<(Seq<u8>, Seq<u8>)>) -> bool {
        <Vec<(NixString, Realisation)>>::encodable(m)
    }

    open spec fn parse(s: Seq<u8>) -> Parsed<Seq<(Seq<u8>, Seq<u8>)>> {
        <Vec<(NixString, Realisation)>>::parse(s)
    }

    proof fn lemma_parse_within(s: Seq<u8>) {
        <Vec<(NixString, Realisation)>>::lemma_parse_within(s);
    }

    proof fn lemma_parse_stable(s: Seq<u8>, more: Seq<u8>) {
        <Vec<(NixString, Realisation)>>::lemma_parse_stable(s, more);
    }

    proof fn lemma_round_trip(m: Seq<(Seq<u8>, Seq<u8>)>, rest: Seq<u8>) {
        <Vec<(NixString, Realisation)>>::lemma_round_trip(m, rest);
    }

    fn decode(buf: &[u8], pos: usize) -> (r: Result<(DrvOutputs, usize), Error>) {
        let (inner, p) = <Vec<(NixString, Realisation)>>::decode(buf, pos)?;
        Ok((DrvOutputs(inner), p))
    }
}

/// How a build ended and what it produced.
#[derive(Clone, Debug, PartialEq, Eq)]
pub struct BuildResult {
    pub status: BuildStatus,
    pub error_msg: NixString,
    pub times_built: u64,
    pub is_non_deterministic: bool,
    pub start_time: Time,
    pub stop_time: Time,
    pub built_outputs: DrvOutputs,
}

/// What a [`BuildResult`] stands for.
pub struct BuildResultModel {
    pub status: BuildStatus,
    pub error_msg: Seq<u8>,
    pub times_built: u64,
    pub is_non_deterministic: bool,
    pub start_time: u64,
    pub stop_time: u64,
    pub built_outputs: Seq<(Seq<u8>, Seq<u8>)>,
}

/// The fields of a [`BuildResult`] in the order they are written.
pub type BuildResultFields = (
    BuildStatus, (
    NixString, (
    u64, (
    bool, (
    Time, (
    Time,
    DrvOutputs
))))));

impl BuildResultModel {
    /// The fields in wire order.
    pub open spec fn fields(self) -> <BuildResultFields as Encode>::Model {
        (
            self.status, (
            self.error_msg, (
            self.times_built, (
            self.is_non_deterministic, (
            self.start_time, (
            self.stop_time,
            self.built_outputs
        ))))))
    }

    /// The record that holds the given fields.
    pub open spec fn of_fields(f: <BuildResultFields as Encode>::Model) -> BuildResultModel {
        BuildResultModel {
            status: f.0,
            error_msg: f.1.0,
            times_built: f.1.1.0,
            is_non_deterministic: f.1.1.1.0,
            start_time: f.1.1.1.1.0,
            stop_time: f.1.1.1.1.1.0,
            built_outputs: f.1.1.1.1.1.1,
        }
    }
}

impl Encode for BuildResult {
    type Model = BuildResultModel;

    open spec fn model(&self) -> BuildResultModel {
        BuildResultModel {
            status: self.status.model(),
            error_msg: self.error_msg.model(),
            times_built: self.times_built.model(),
            is_non_deterministic: self.is_non_deterministic.model(),
            start_time: self.start_time.model(),
            stop_time: self.stop_time.model(),
            built_outputs: self.built_outputs.model(),
        }
    }

    open spec fn encoding(m: BuildResultModel) -> Seq<u8> {
        BuildResultFields::encoding(m.fields())
    }

    proof fn lemma_encoding_aligned(m: BuildResultModel) {
        BuildResultFields::lemma_encoding_aligned(m.fields());
    }

    fn encode(&self, out: &mut Vec<u8>) {
        let fields = (
            &self.status, (
            &self.error_msg, (
            &self.times_built, (
            &self.is_non_deterministic, (
            &self.start_time, (
            &self.stop_time,
            &self.built_outputs
        ))))));
        fields.encode(out);
    }
}

impl Wire for BuildResult {
    open spec fn encodable(m: BuildResultModel) -> bool {
        BuildResultFields::encodable(m.fields())
    }

    open spec fn parse(s: Seq<u8>) -> Parsed<BuildResultModel> {
        match BuildResultFields::parse(s) {
            Ok((f, n)) => Ok((BuildResultModel::of_fields(f), n)),
            Err(e) => Err(e),
        }
    }

    proof fn lemma_parse_within(s: Seq<u8>) {
        BuildResultFields::lemma_parse_within(s);
    }

    proof fn lemma_parse_stable(s: Seq<u8>, more: Seq<u8>) {
        BuildResultFields::lemma_parse_stable(s, more);
    }

    proof fn lemma_round_trip(m: BuildResultModel, rest: Seq<u8>) {
        BuildResultFields::lemma_round_trip(m.fields(), rest);
    }

    fn decode(buf: &[u8], pos: usize) -> (r: Result<(BuildResult, usize), Error>) {
        let (f, p) = BuildResultFields::decode(buf, pos)?;
        let (status, f) = f;
        let (error_msg, f) = f;
        let (times_built, f) = f;
        let (is_non_deterministic, f) = f;
        let (start_time, f) = f;
        let (stop_time, built_outputs) = f;
        let value = BuildResult {
            status,
            error_msg,
            times_built,
            is_non_deterministic,
            start_time,
            stop_time,
            built_outputs,
        };
        Ok((value, p))
    }
}

/// A request to the garbage collector. The last three fields are no longer used
/// and only carried.
#[derive(Clone, Debug, PartialEq, Eq)]
pub struct CollectGarbage {
    pub action: GcAction,
    pub paths_to_delete: StorePathSet,
    pub ignore_liveness: bool,
    pub max_freed: u64,
    pub _obsolete0: u64,
    pub _obsolete1: u64,
    pub _obsolete2: u64,
}

/// What a [`CollectGarbage`] stands for.
pub struct CollectGarbageModel {
    pub action: GcAction,
    pub paths_to_delete: Seq<Seq<u8>>,
    pub ignore_liveness: bool,
    pub max_freed: u64,
    pub _obsolete0: u64,
    pub _obsolete1: u64,
    pub _obsolete2: u64,
}

/// The fields of a [`CollectGarbage`] in the order they are written.
pub type CollectGarbageFields = (
    GcAction, (
    StorePathSet, (
    bool, (
    u64, (
    u64, (
    u64,
    u64
))))));

impl CollectGarbageModel {
    /// The fields in wire order.
    pub open spec fn fields(self) -> <CollectGarbageFields as Encode>::Model {
        (
            self.action, (
            self.paths_to_delete, (
            self.ignore_liveness, (
            self.max_freed, (
            self._obsolete0, (
            self._obsolete1,
            self._obsolete2
        ))))))
    }

    /// The record that holds the given fields.
    pub open spec fn of_fields(f: <CollectGarbageFields as Encode>::Model) -> CollectGarbageModel {
        CollectGarbageModel {
            action: f.0,
            paths_to_delete: f.1.0,
            ignore_liveness: f.1.1.0,
            max_freed: f.1.1.1.0,
            _obsolete0: f.1.1.1.1.0,
            _obsolete1: f.1.1.1.1.1.0,
            _obsolete2: f.1.1.1.1.1.1,
        }
    }
}

impl Encode for CollectGarbage {
    type Model = CollectGarbageModel;

    open spec fn model(&self) -> CollectGarbageModel {
        CollectGarbageModel {
            action: self.action.model(),
            paths_to_delete: self.paths_to_delete.model(),
            ignore_liveness: self.ignore_liveness.model(),
            max_freed: self.max_freed.model(),
            _obsolete0: self._obsolete0.model(),
            _obsolete1: self._obsolete1.model(),
            _obsolete2: self._obsolete2.model(),
        }
    }

    open spec fn encoding(m: CollectGarbageModel) -> Seq<u8> {
        CollectGarbageFields::encoding(m.fields())
    }

    proof fn lemma_encoding_aligned(m: CollectGarbageModel) {
        CollectGarbageFields::lemma_encoding_aligned(m.fields());
    }

    fn encode(&self, out: &mut Vec<u8>) {
        let fields = (
            &self.action, (
            &self.paths_to_delete, (
            &self.ignore_liveness, (
            &self.max_freed, (
            &self._obsolete0, (
            &self._obsolete1,
            &self._obsolete2
        ))))));
        fields.encode(out);
    }
}

impl Wire for CollectGarbage {
    open spec fn encodable(m: CollectGarbageModel) -> bool {
        CollectGarbageFields::encodable(m.fields())
    }

    open spec fn parse(s: Seq<u8>) -> Parsed<CollectGarbageModel> {
        match CollectGarbageFields::parse(s) {
            Ok((f, n)) => Ok((CollectGarbageModel::of_fields(f), n)),
            Err(e) => Err(e),
        }
    }

    proof fn lemma_parse_within(s: Seq<u8>) {
        CollectGarbageFields::lemma_parse_within(s);
    }

    proof fn lemma_parse_stable(s: Seq<u8>, more: Seq<u8>) {
        CollectGarbageFields::lemma_parse_stable(s, more);
    }

    proof fn lemma_round_trip(m: CollectGarbageModel, rest: Seq<u8>) {
        CollectGarbageFields::lemma_round_trip(m.fields(), rest);
    }

    fn decode(buf: &[u8], pos: usize) -> (r: Result<(CollectGarbage, usize), Error>) {
        let (f, p) = CollectGarbageFields::decode(buf, pos)?;
        let (action, f) = f;
        let (paths_to_delete, f) = f;
        let (ignore_liveness, f) = f;
        let (max_freed, f) = f;
        let (_obsolete0, f) = f;
        let (_obsolete1, _obsolete2) = f;
        let value = CollectGarbage {
            action,
            paths_to_delete,
            ignore_liveness,
            max_freed,
            _obsolete0,
            _obsolete1,
            _obsolete2,
        };
        Ok((value, p))
    }
}

/// The outputs of a derivation by name, each with its path where that is known.
#[derive(Clone, Debug, PartialEq, Eq)]
pub struct DerivationOutputMap {
    pub paths: Vec<(NixString, OptionalStorePath)>,
}

impl Encode for DerivationOutputMap {
    type Model = Seq<(Seq<u8>, Seq<u8>)>;

    open spec fn model(&self) -> Seq<(Seq<u8>, Seq<u8>)> {
        self.paths.model()
    }

    open spec fn encoding(m: Seq<(Seq<u8>, Seq<u8>)>) -> Seq<u8> {
        <Vec<(NixString, OptionalStorePath)>>::encoding(m)
    }

    proof fn lemma_encoding_aligned(m: Seq<(Seq<u8>, Seq<u8>)>) {
        <Vec<(NixString, OptionalStorePath)>>::lemma_encoding_aligned(m);
    }

    fn encode(&self, out: &mut Vec<u8>) {
        self.paths.encode(out);
    }
}

impl Wire for DerivationOutputMap {
    open spec fn encodable(m: Seq<(Seq<u8>, Seq<u8>)>) -> bool {
        <Vec<(NixString, OptionalStorePath)>>::encodable(m)
    }

    open spec fn parse(s: Seq<u8>) -> Parsed<Seq<(Seq<u8>, Seq<u8>)>> {
        <Vec<(NixString, OptionalStorePath)>>::parse(s)
    }

    proof fn lemma_parse_within(s: Seq<u8>) {
        <Vec<(NixString, OptionalStorePath)>>::lemma_parse_within(s);
    }

    proof fn lemma_parse_stable(s: Seq<u8>, more: Seq<u8>) {
        <Vec<(NixString, OptionalStorePath)>>::lemma_parse_stable(s, more);
    }

    proof fn lemma_round_trip(m: Seq<(Seq<u8>, Seq<u8>)>, rest: Seq<u8>) {
        <Vec<(NixString, OptionalStorePath)>>::lemma_round_trip(m, rest);
    }

    fn decode(buf: &[u8], pos: usize) -> (r: Result<(DerivationOutputMap, usize), Error>) {
        let (inner, p) = <Vec<(NixString, OptionalStorePath)>>::decode(buf, pos)?;
        Ok((DerivationOutputMap { paths: inner }, p))
    }
}

/// What the garbage collector did. The last field is no longer used and only
/// carried.
#[derive(Clone, Debug, PartialEq, Eq)]
pub struct CollectGarbageResponse {
    pub paths: PathSet,
    pub bytes_freed: u64,
    pub _obsolete: u64,
}

/// What a [`CollectGarbageResponse`] stands for.
pub struct CollectGarbageResponseModel {
    pub paths: Seq<Seq<u8>>,
    pub bytes_freed: u64,
    pub _obsolete: u64,
}

/// The fields of a [`CollectGarbageResponse`] in the order they are written.
pub type CollectGarbageResponseFields = (
    PathSet, (
    u64,
    u64
));

impl CollectGarbageResponseModel {
    /// The fields in wire order.
    pub open spec fn fields(self) -> <CollectGarbageResponseFields as Encode>::Model {
        (
            self.paths, (
            self.bytes_freed,
            self._obsolete
        ))
    }

    /// The record that holds the given fields.
    pub open spec fn of_fields(f: <CollectGarbageResponseFields as Encode>::Model) -> CollectGarbageResponseModel {
        CollectGarbageResponseModel {
            paths: f.0,
            bytes_freed: f.1.0,
            _obsolete: f.1.1,
        }
    }
}

impl Encode for CollectGarbageResponse {
    type Model = CollectGarbageResponseModel;

    open spec fn model(&self) -> CollectGarbageResponseModel {
        CollectGarbageResponseModel {
            paths: self.paths.model(),
            bytes_freed: self.bytes_freed.model(),
            _obsolete: self._obsolete.model(),
        }
    }

    open spec fn encoding(m: CollectGarbageResponseModel) -> Seq<u8> {
        CollectGarbageResponseFields::encoding(m.fields())
    }

    proof fn lemma_encoding_aligned(m: CollectGarbageResponseModel) {
        CollectGarbageResponseFields::lemma_encoding_aligned(m.fields());
    }

    fn encode(&self, out: &mut Vec<u8>) {
        let fields = (
            &self.paths, (
            &self.bytes_freed,
            &self._obsolete
        ));
        fields.encode(out);
    }
}

impl Wire for CollectGarbageResponse {
    open spec fn encodable(m: CollectGarbageResponseModel) -> bool {
        CollectGarbageResponseFields::encodable(m.fields())
    }

    open spec fn parse(s: Seq<u8>) -> Parsed<CollectGarbageResponseModel> {
        match CollectGarbageResponseFields::parse(s) {
            Ok((f, n)) => Ok((CollectGarbageResponseModel::of_fields(f), n)),
            Err(e) => Err(e),
        }
    }

    proof fn lemma_parse_within(s: Seq<u8>) {
        CollectGarbageResponseFields::lemma_parse_within(s);
    }

    proof fn lemma_parse_stable(s: Seq<u8>, more: Seq<u8>) {
        CollectGarbageResponseFields::lemma_parse_stable(s, more);
    }

    proof fn lemma_round_trip(m: CollectGarbageResponseModel, rest: Seq<u8>) {
        CollectGarbageResponseFields::lemma_round_trip(m.fields(), rest);
    }

    fn decode(buf: &[u8], pos: usize) -> (r: Result<(CollectGarbageResponse, usize), Error>) {
        let (f, p) = CollectGarbageResponseFields::decode(buf, pos)?;
        let (paths, f) = f;
        let (bytes_freed, _obsolete) = f;
        Ok((CollectGarbageResponse { paths, bytes_freed, _obsolete }, p))
    }
}

/// A request to add a path whose archive follows as a framed source.
#[derive(Clone, Debug, PartialEq, Eq)]
pub struct AddToStoreNar {
    pub path: StorePath,
    pub deriver: OptionalStorePath,
    pub nar_hash: NixString,
    pub references: StorePathSet,
    pub registration_time: Time,
    pub nar_size: u64,
    pub ultimate: bool,
    pub sigs: StringSet,
    pub content_address: RenderedContentAddress,
    pub repair: bool,
    pub dont_check_sigs: bool,
}

/// What a [`AddToStoreNar`] stands for.
pub struct AddToStoreNarModel {
    pub path: Seq<u8>,
    pub deriver: Seq<u8>,
    pub nar_hash: Seq<u8>,
    pub references: Seq<Seq<u8>>,
    pub registration_time: u64,
    pub nar_size: u64,
    pub ultimate: bool,
    pub sigs: Seq<Seq<u8>>,
    pub content_address: Seq<u8>,
    pub repair: bool,
    pub dont_check_sigs: bool,
}

/// The fields of a [`AddToStoreNar`] in the order they are written.
pub type AddToStoreNarFields = (
    StorePath, (
    OptionalStorePath, (
    NixString, (
    StorePathSet, (
    Time, (
    u64, (
    bool, (
    StringSet, (
    RenderedContentAddress, (
    bool,
    bool
))))))))));

impl AddToStoreNarModel {
    /// The fields in wire order.
    pub open spec fn fields(self) -> <AddToStoreNarFields as Encode>::Model {
        (
            self.path, (
            self.deriver, (
            self.nar_hash, (
            self.references, (
            self.registration_time, (
            self.nar_size, (
            self.ultimate, (
            self.sigs, (
            self.content_address, (
            self.repair,
            self.dont_check_sigs
        ))))))))))
    }

    /// The record that holds the given fields.
    pub open spec fn of_fields(f: <AddToStoreNarFields as Encode>::Model) -> AddToStoreNarModel {
        AddToStoreNarModel {
            path: f.0,
            deriver: f.1.0,
            nar_hash: f.1.1.0,
            references: f.1.1.1.0,
            registration_time: f.1.1.1.1.0,
            nar_size: f.1.1.1.1.1.0,
            ultimate: f.1.1.1.1.1.1.0,
            sigs: f.1.1.1.1.1.1.1.0,
            content_address: f.1.1.1.1.1.1.1.1.0,
            repair: f.1.1.1.1.1.1.1.1.1.0,
            dont_check_sigs: f.1.1.1.1.1.1.1.1.1.1,
        }
    }
}

impl Encode for AddToStoreNar {
    type Model = AddToStoreNarModel;

    open spec fn model(&self) -> AddToStoreNarModel {
        AddToStoreNarModel {
            path: self.path.model(),
            deriver: self.deriver.model(),
            nar_hash: self.nar_hash.model(),
            references: self.references.model(),
            registration_time: self.registration_time.model(),
            nar_size: self.nar_size.model(),
            ultimate: self.ultimate.model(),
            sigs: self.sigs.model(),
            content_address: self.content_address.model(),
            repair: self.repair.model(),
            dont_check_sigs: self.dont_check_sigs.model(),
        }
    }

    open spec fn encoding(m: AddToStoreNarModel) -> Seq<u8> {
        AddToStoreNarFields::encoding(m.fields())
    }

    proof fn lemma_encoding_aligned(m: AddToStoreNarModel) {
        AddToStoreNarFields::lemma_encoding_aligned(m.fields());
    }

    fn encode(&self, out: &mut Vec<u8>) {
        let fields = (
            &self.path, (
            &self.deriver, (
            &self.nar_hash, (
            &self.references, (
            &self.registration_time, (
            &self.nar_size, (
            &self.ultimate, (
            &self.sigs, (
            &self.content_address, (
            &self.repair,
            &self.dont_check_sigs
        ))))))))));
        fields.encode(out);
    }
}

impl Wire for AddToStoreNar {
    open spec fn encodable(m: AddToStoreNarModel) -> bool {
        AddToStoreNarFields::encodable(m.fields())
    }

    open spec fn parse(s: Seq<u8>) -> Parsed<AddToStoreNarModel> {
        match AddToStoreNarFields::parse(s) {
            Ok((f, n)) => Ok((AddToStoreNarModel::of_fields(f), n)),
            Err(e) => Err(e),
        }
    }

    proof fn lemma_parse_within(s: Seq<u8>) {
        AddToStoreNarFields::lemma_parse_within(s);
    }

    proof fn lemma_parse_stable(s: Seq<u8>, more: Seq<u8>) {
        AddToStoreNarFields::lemma_parse_stable(s, more);
    }

    proof fn lemma_round_trip(m: AddToStoreNarModel, rest: Seq<u8>) {
        AddToStoreNarFields::lemma_round_trip(m.fields(), rest);
    }

    fn decode(buf: &[u8], pos: usize) -> (r: Result<(AddToStoreNar, usize), Error>) {
        let (f, p) = AddToStoreNarFields::decode(buf, pos)?;
        let (path, f) = f;
        let (deriver, f) = f;
        let (nar_hash, f) = f;
        let (references, f) = f;
        let (registration_time, f) = f;
        let (nar_size, f) = f;
        let (ultimate, f) = f;
        let (sigs, f) = f;
        let (content_address, f) = f;
        let (repair, dont_check_sigs) = f;
        let value = AddToStoreNar {
            path,
            deriver,
            nar_hash,
            references,
            registration_time,
            nar_size,
            ultimate,
            sigs,
            content_address,
            repair,
            dont_check_sigs,
        };
        Ok((value, p))
    }
}

/// The roots of the garbage collector: each link with the store path it keeps
/// alive.
#[derive(Clone, Debug, PartialEq, Eq)]
pub struct FindRootsResponse {
    pub roots: Vec<(Path, StorePath)>,
}

impl Encode for FindRootsResponse {
    type Model = Seq<(Seq<u8>, Seq<u8>)>;

    open spec fn model(&self) -> Seq<(Seq<u8>, Seq<u8>)> {
        self.roots.model()
    }

    open spec fn encoding(m: Seq<(Seq<u8>, Seq<u8>)>) -> Seq<u8> {
        <Vec<(Path, StorePath)>>::encoding(m)
    }

    proof fn lemma_encoding_aligned(m: Seq<(Seq<u8>, Seq<u8>)>) {
        <Vec<(Path, StorePath)>>::lemma_encoding_aligned(m);
    }

    fn encode(&self, out: &mut Vec<u8>) {
        self.roots.encode(out);
    }
}

impl Wire for FindRootsResponse {
    open spec fn encodable(m: Seq<(Seq<u8>, Seq<u8>)>) -> bool {
        <Vec<(Path, StorePath)>>::encodable(m)
    }

    open spec fn parse(s: Seq<u8>) -> Parsed<Seq<(Seq<u8>, Seq<u8>)>> {
        <Vec<(Path, StorePath)>>::parse(s)
    }

    proof fn lemma_parse_within(s: Seq<u8>) {
        <Vec<(Path, StorePath)>>::lemma_parse_within(s);
    }

    proof fn lemma_parse_stable(s: Seq<u8>, more: Seq<u8>) {
        <Vec<(Path, StorePath)>>::lemma_parse_stable(s, more);
    }

    proof fn lemma_round_trip(m: Seq<(Seq<u8>, Seq<u8>)>, rest: Seq<u8>) {
        <Vec<(Path, StorePath)>>::lemma_round_trip(m, rest);
    }

    fn decode(buf: &[u8], pos: usize) -> (r: Result<(FindRootsResponse, usize), Error>) {
        let (inner, p) = <Vec<(Path, StorePath)>>::decode(buf, pos)?;
        Ok((FindRootsResponse { roots: inner }, p))
    }
}

/// A request to say which of some paths are valid.
#[derive(Clone, Debug, PartialEq, Eq)]
pub struct QueryValidPaths {
    pub paths: StorePathSet,
    pub builders_use_substitutes: bool,
}

/// What a [`QueryValidPaths`] stands for.
pub struct QueryValidPathsModel {
    pub paths: Seq<Seq<u8>>,
    pub builders_use_substitutes: bool,
}

/// The fields of a [`QueryValidPaths`] in the order they are written.
pub type QueryValidPathsFields = (
    StorePathSet,
    bool
);

impl QueryValidPathsModel {
    /// The fields in wire order.
    pub open spec fn fields(self) -> <QueryValidPathsFields as Encode>::Model {
        (
            self.paths,
            self.builders_use_substitutes
        )
    }

    /// The record that holds the given fields.
    pub open spec fn of_fields(f: <QueryValidPathsFields as Encode>::Model) -> QueryValidPathsModel {
        QueryValidPathsModel {
            paths: f.0,
            builders_use_substitutes: f.1,
        }
    }
}

impl Encode for QueryValidPaths {
    type Model = QueryValidPathsModel;

    open spec fn model(&self) -> QueryValidPathsModel {
        QueryValidPathsModel {
            paths: self.paths.model(),
            builders_use_substitutes: self.builders_use_substitutes.model(),
        }
    }

    open spec fn encoding(m: QueryValidPathsModel) -> Seq<u8> {
        QueryValidPathsFields::encoding(m.fields())
    }

    proof fn lemma_encoding_aligned(m: QueryValidPathsModel) {
        QueryValidPathsFields::lemma_encoding_aligned(m.fields());
    }

    fn encode(&self, out: &mut Vec<u8>) {
        let fields = (
            &self.paths,
            &self.builders_use_substitutes
        );
        fields.encode(out);
    }
}

impl Wire for QueryValidPaths {
    open spec fn encodable(m: QueryValidPathsModel) -> bool {
        QueryValidPathsFields::encodable(m.fields())
    }

    open spec fn parse(s: Seq<u8>) -> Parsed<QueryValidPathsModel> {
        match QueryValidPathsFields::parse(s) {
            Ok((f, n)) => Ok((QueryValidPathsModel::of_fields(f), n)),
            Err(e) => Err(e),
        }
    }

    proof fn lemma_parse_within(s: Seq<u8>) {
        QueryValidPathsFields::lemma_parse_within(s);
    }

    proof fn lemma_parse_stable(s: Seq<u8>, more: Seq<u8>) {
        QueryValidPathsFields::lemma_parse_stable(s, more);
    }

    proof fn lemma_round_trip(m: QueryValidPathsModel, rest: Seq<u8>) {
        QueryValidPathsFields::lemma_round_trip(m.fields(), rest);
    }

    fn decode(buf: &[u8], pos: usize) -> (r: Result<(QueryValidPaths, usize), Error>) {
        let (f, p) = QueryValidPathsFields::decode(buf, pos)?;
        let (paths, builders_use_substitutes) = f;
        Ok((QueryValidPaths { paths, builders_use_substitutes }, p))
    }
}

/// A request to add several paths, which follow as a framed source.
#[derive(Clone, Debug, PartialEq, Eq)]
pub struct AddMultipleToStore {
    pub repair: bool,
    pub dont_check_sigs: bool,
}

/// What a [`AddMultipleToStore`] stands for.
pub struct AddMultipleToStoreModel {
    pub repair: bool,
    pub dont_check_sigs: bool,
}

/// The fields of a [`AddMultipleToStore`] in the order they are written.
pub type AddMultipleToStoreFields = (
    bool,
    bool
);

impl AddMultipleToStoreModel {
    /// The fields in wire order.
    pub open spec fn fields(self) -> <AddMultipleToStoreFields as Encode>::Model {
        (
            self.repair,
            self.dont_check_sigs
        )
    }

    /// The record that holds the given fields.
    pub open spec fn of_fields(f: <AddMultipleToStoreFields as Encode>::Model) -> AddMultipleToStoreModel {
        AddMultipleToStoreModel {
            repair: f.0,
            dont_check_sigs: f.1,
        }
    }
}

impl Encode for AddMultipleToStore {
    type Model = AddMultipleToStoreModel;

    open spec fn model(&self) -> AddMultipleToStoreModel {
        AddMultipleToStoreModel {
            repair: self.repair.model(),
            dont_check_sigs: self.dont_check_sigs.model(),
        }
    }

    open spec fn encoding(m: AddMultipleToStoreModel) -> Seq<u8> {
        AddMultipleToStoreFields::encoding(m.fields())
    }

    proof fn lemma_encoding_aligned(m: AddMultipleToStoreModel) {
        AddMultipleToStoreFields::lemma_encoding_aligned(m.fields());
    }

    fn encode(&self, out: &mut Vec<u8>) {
        let fields = (
            &self.repair,
            &self.dont_check_sigs
        );
        fields.encode(out);
    }
}

impl Wire for AddMultipleToStore {
    open spec fn encodable(m: AddMultipleToStoreModel) -> bool {
        AddMultipleToStoreFields::encodable(m.fields())
    }

    open spec fn parse(s: Seq<u8>) -> Parsed<AddMultipleToStoreModel> {
        match AddMultipleToStoreFields::parse(s) {
            Ok((f, n)) => Ok((AddMultipleToStoreModel::of_fields(f), n)),
            Err(e) => Err(e),
        }
    }

    proof fn lemma_parse_within(s: Seq<u8>) {
        AddMultipleToStoreFields::lemma_parse_within(s);
    }

    proof fn lemma_parse_stable(s: Seq<u8>, more: Seq<u8>) {
        AddMultipleToStoreFields::lemma_parse_stable(s, more);
    }

    proof fn lemma_round_trip(m: AddMultipleToStoreModel, rest: Seq<u8>) {
        AddMultipleToStoreFields::lemma_round_trip(m.fields(), rest);
    }

    fn decode(buf: &[u8], pos: usize) -> (r: Result<(AddMultipleToStore, usize), Error>) {
        let (f, p) = AddMultipleToStoreFields::decode(buf, pos)?;
        let (repair, dont_check_sigs) = f;
        Ok((AddMultipleToStore { repair, dont_check_sigs }, p))
    }
}

/// A request to check the store.
#[derive(Clone, Debug, PartialEq, Eq)]
pub struct VerifyStore {
    pub check_contents: bool,
    pub repair: bool,
}

/// What a [`VerifyStore`] stands for.
pub struct VerifyStoreModel {
    pub check_contents: bool,
    pub repair: bool,
}

/// The fields of a [`VerifyStore`] in the order they are written.
pub type VerifyStoreFields = (
    bool,
    bool
);

impl VerifyStoreModel {
    /// The fields in wire order.
    pub open spec fn fields(self) -> <VerifyStoreFields as Encode>::Model {
        (
            self.check_contents,
            self.repair
        )
    }

    /// The record that holds the given fields.
    pub open spec fn of_fields(f: <VerifyStoreFields as Encode>::Model) -> VerifyStoreModel {
        VerifyStoreModel {
            check_contents: f.0,
            repair: f.1,
        }
    }
}

impl Encode for VerifyStore {
    type Model = VerifyStoreModel;

    open spec fn model(&self) -> VerifyStoreModel {
        VerifyStoreModel {
            check_contents: self.check_contents.model(),
            repair: self.repair.model(),
        }
    }

    open spec fn encoding(m: VerifyStoreModel) -> Seq<u8> {
        VerifyStoreFields::encoding(m.fields())
    }

    proof fn lemma_encoding_aligned(m: VerifyStoreModel) {
        VerifyStoreFields::lemma_encoding_aligned(m.fields());
    }

    fn encode(&self, out: &mut Vec<u8>) {
        let fields = (
            &self.check_contents,
            &self.repair
        );
        fields.encode(out);
    }
}

impl Wire for VerifyStore {
    open spec fn encodable(m: VerifyStoreModel) -> bool {
        VerifyStoreFields::encodable(m.fields())
    }

    open spec fn parse(s: Seq<u8>) -> Parsed<VerifyStoreModel> {
        match VerifyStoreFields::parse(s) {
            Ok((f, n)) => Ok((VerifyStoreModel::of_fields(f), n)),
            Err(e) => Err(e),
        }
    }

    proof fn lemma_parse_within(s: Seq<u8>) {
        VerifyStoreFields::lemma_parse_within(s);
    }

    proof fn lemma_parse_stable(s: Seq<u8>, more: Seq<u8>) {
        VerifyStoreFields::lemma_parse_stable(s, more);
    }

    proof fn lemma_round_trip(m: VerifyStoreModel, rest: Seq<u8>) {
        VerifyStoreFields::lemma_round_trip(m.fields(), rest);
    }

    fn decode(buf: &[u8], pos: usize) -> (r: Result<(VerifyStore, usize), Error>) {
        let (f, p) = VerifyStoreFields::decode(buf, pos)?;
        let (check_contents, repair) = f;
        Ok((VerifyStore { check_contents, repair }, p))
    }
}

/// A request to attach signatures to a path.
#[derive(Clone, Debug, PartialEq, Eq)]
pub struct AddSignatures {
    pub path: StorePath,
    pub signatures: StringSet,
}

/// What a [`AddSignatures`] stands for.
pub struct AddSignaturesModel {
    pub path: Seq<u8>,
    pub signatures: Seq<Seq<u8>>,
}

/// The fields of a [`AddSignatures`] in the order they are written.
pub type AddSignaturesFields = (
    StorePath,
    StringSet
);

impl AddSignaturesModel {
    /// The fields in wire order.
    pub open spec fn fields(self) -> <AddSignaturesFields as Encode>::Model {
        (
            self.path,
            self.signatures
        )
    }

    /// The record that holds the given fields.
    pub open spec fn of_fields(f: <AddSignaturesFields as Encode>::Model) -> AddSignaturesModel {
        AddSignaturesModel {
            path: f.0,
            signatures: f.1,
        }
    }
}

impl Encode for AddSignatures {
    type Model = AddSignaturesModel;

    open spec fn model(&self) -> AddSignaturesModel {
        AddSignaturesModel {
            path: self.path.model(),
            signatures: self.signatures.model(),
        }
    }

    open spec fn encoding(m: AddSignaturesModel) -> Seq<u8> {
        AddSignaturesFields::encoding(m.fields())
    }

    proof fn lemma_encoding_aligned(m: AddSignaturesModel) {
        AddSignaturesFields::lemma_encoding_aligned(m.fields());
    }

    fn encode(&self, out: &mut Vec<u8>) {
        let fields = (
            &self.path,
            &self.signatures
        );
        fields.encode(out);
    }
}

impl Wire for AddSignatures {
    open spec fn encodable(m: AddSignaturesModel) -> bool {
        AddSignaturesFields::encodable(m.fields())
    }

    open spec fn parse(s: Seq<u8>) -> Parsed<AddSignaturesModel> {
        match AddSignaturesFields::parse(s) {
            Ok((f, n)) => Ok((AddSignaturesModel::of_fields(f), n)),
            Err(e) => Err(e),
        }
    }

    proof fn lemma_parse_within(s: Seq<u8>) {
        AddSignaturesFields::lemma_parse_within(s);
    }

    proof fn lemma_parse_stable(s: Seq<u8>, more: Seq<u8>) {
        AddSignaturesFields::lemma_parse_stable(s, more);
    }

    proof fn lemma_round_trip(m: AddSignaturesModel, rest: Seq<u8>) {
        AddSignaturesFields::lemma_round_trip(m.fields(), rest);
    }

    fn decode(buf: &[u8], pos: usize) -> (r: Result<(AddSignatures, usize), Error>) {
        let (f, p) = AddSignaturesFields::decode(buf, pos)?;
        let (path, signatures) = f;
        Ok((AddSignatures { path, signatures }, p))
    }
}

/// A request to store the log of a build, which follows as a framed source.
#[derive(Clone, Debug, PartialEq, Eq)]
pub struct AddBuildLog {
    pub path: StorePath,
}

impl Encode for AddBuildLog {
    type Model = Seq<u8>;

    open spec fn model(&self) -> Seq<u8> {
        self.path.model()
    }

    open spec fn encoding(m: Seq<u8>) -> Seq<u8> {
        StorePath::encoding(m)
    }

    proof fn lemma_encoding_aligned(m: Seq<u8>) {
        StorePath::lemma_encoding_aligned(m);
    }

    fn encode(&self, out: &mut Vec<u8>) {
        self.path.encode(out);
    }
}

impl Wire for AddBuildLog {
    open spec fn encodable(m: Seq<u8>) -> bool {
        StorePath::encodable(m)
    }

    open spec fn parse(s: Seq<u8>) -> Parsed<Seq<u8>> {
        StorePath::parse(s)
    }

    proof fn lemma_parse_within(s: Seq<u8>) {
        StorePath::lemma_parse_within(s);
    }

    proof fn lemma_parse_stable(s: Seq<u8>, more: Seq<u8>) {
        StorePath::lemma_parse_stable(s, more);
    }

    proof fn lemma_round_trip(m: Seq<u8>, rest: Seq<u8>) {
        StorePath::lemma_round_trip(m, rest);
    }

    fn decode(buf: &[u8], pos: usize) -> (r: Result<(AddBuildLog, usize), Error>) {
        let (inner, p) = StorePath::decode(buf, pos)?;
        Ok((AddBuildLog { path: inner }, p))
    }
}

/// One output of a derivation.
#[derive(Clone, Debug, PartialEq, Eq)]
pub struct DerivationOutput {
    pub store_path: StorePath,
    pub method_or_hash: NixString,
    pub hash_or_impure: NixString,
}

/// What a [`DerivationOutput`] stands for.
pub struct DerivationOutputModel {
    pub store_path: Seq<u8>,
    pub method_or_hash: Seq<u8>,
    pub hash_or_impure: Seq<u8>,
}

/// The fields of a [`DerivationOutput`] in the order they are written.
pub type DerivationOutputFields = (
    StorePath, (
    NixString,
    NixString
));

impl DerivationOutputModel {
    /// The fields in wire order.
    pub open spec fn fields(self) -> <DerivationOutputFields as Encode>::Model {
        (
            self.store_path, (
            self.method_or_hash,
            self.hash_or_impure
        ))
    }

    /// The record that holds the given fields.
    pub open spec fn of_fields(f: <DerivationOutputFields as Encode>::Model) -> DerivationOutputModel {
        DerivationOutputModel {
            store_path: f.0,
            method_or_hash: f.1.0,
            hash_or_impure: f.1.1,
        }
    }
}

impl Encode for DerivationOutput {
    type Model = DerivationOutputModel;

    open spec fn model(&self) -> DerivationOutputModel {
        DerivationOutputModel {
            store_path: self.store_path.model(),
            method_or_hash: self.method_or_hash.model(),
            hash_or_impure: self.hash_or_impure.model(),
        }
    }

    open spec fn encoding(m: DerivationOutputModel) -> Seq<u8> {
        DerivationOutputFields::encoding(m.fields())
    }

    proof fn lemma_encoding_aligned(m: DerivationOutputModel) {
        DerivationOutputFields::lemma_encoding_aligned(m.fields());
    }

    fn encode(&self, out: &mut Vec<u8>) {
        let fields = (
            &self.store_path, (
            &self.method_or_hash,
            &self.hash_or_impure
        ));
        fields.encode(out);
    }
}

impl Wire for DerivationOutput {
    open spec fn encodable(m: DerivationOutputModel) -> bool {
        DerivationOutputFields::encodable(m.fields())
    }

    open spec fn parse(s: Seq<u8>) -> Parsed<DerivationOutputModel> {
        match DerivationOutputFields::parse(s) {
            Ok((f, n)) => Ok((DerivationOutputModel::of_fields(f), n)),
            Err(e) => Err(e),
        }
    }

    proof fn lemma_parse_within(s: Seq<u8>) {
        DerivationOutputFields::lemma_parse_within(s);
    }

    proof fn lemma_parse_stable(s: Seq<u8>, more: Seq<u8>) {
        DerivationOutputFields::lemma_parse_stable(s, more);
    }

    proof fn lemma_round_trip(m: DerivationOutputModel, rest: Seq<u8>) {
        DerivationOutputFields::lemma_round_trip(m.fields(), rest);
    }

    fn decode(buf: &[u8], pos: usize) -> (r: Result<(DerivationOutput, usize), Error>) {
        let (f, p) = DerivationOutputFields::decode(buf, pos)?;
        let (store_path, f) = f;
        let (method_or_hash, hash_or_impure) = f;
        Ok((DerivationOutput { store_path, method_or_hash, hash_or_impure }, p))
    }
}

/// A build recipe.
#[derive(Clone, Debug, PartialEq, Eq)]
pub struct Derivation {
    pub outputs: Vec<(NixString, DerivationOutput)>,
    pub input_sources: StorePathSet,
    pub platform: NixString,
    pub builder: Path,
    pub args: StringSet,
    pub env: Vec<(NixString, NixString)>,
}

/// What a [`Derivation`] stands for.
pub struct DerivationModel {
    pub outputs: Seq<(Seq<u8>, DerivationOutputModel)>,
    pub input_sources: Seq<Seq<u8>>,
    pub platform: Seq<u8>,
    pub builder: Seq<u8>,
    pub args: Seq<Seq<u8>>,
    pub env: Seq<(Seq<u8>, Seq<u8>)>,
}

/// The fields of a [`Derivation`] in the order they are written.
pub type DerivationFields = (
    Vec<(NixString, DerivationOutput)>, (
    StorePathSet, (
    NixString, (
    Path, (
    StringSet,
    Vec<(NixString, NixString)>
)))));

impl DerivationModel {
    /// The fields in wire order.
    pub open spec fn fields(self) -> <DerivationFields as Encode>::Model {
        (
            self.outputs, (
            self.input_sources, (
            self.platform, (
            self.builder, (
            self.args,
            self.env
        )))))
    }

    /// The record that holds the given fields.
    pub open spec fn of_fields(f: <DerivationFields as Encode>::Model) -> DerivationModel {
        DerivationModel {
            outputs: f.0,
            input_sources: f.1.0,
            platform: f.1.1.0,
            builder: f.1.1.1.0,
            args: f.1.1.1.1.0,
            env: f.1.1.1.1.1,
        }
    }
}

impl Encode for Derivation {
    type Model = DerivationModel;

    open spec fn model(&self) -> DerivationModel {
        DerivationModel {
            outputs: self.outputs.model(),
            input_sources: self.input_sources.model(),
            platform: self.platform.model(),
            builder: self.builder.model(),
            args: self.args.model(),
            env: self.env.model(),
        }
    }

    open spec fn encoding(m: DerivationModel) -> Seq<u8> {
        DerivationFields::encoding(m.fields())
    }

    proof fn lemma_encoding_aligned(m: DerivationModel) {
        DerivationFields::lemma_encoding_aligned(m.fields());
    }

    fn encode(&self, out: &mut Vec<u8>) {
        let fields = (
            &self.outputs, (
            &self.input_sources, (
            &self.platform, (
            &self.builder, (
            &self.args,
            &self.env
        )))));
        fields.encode(out);
    }
}

impl Wire for Derivation {
    open spec fn encodable(m: DerivationModel) -> bool {
        DerivationFields::encodable(m.fields())
    }

    open spec fn parse(s: Seq<u8>) -> Parsed<DerivationModel> {
        match DerivationFields::parse(s) {
            Ok((f, n)) => Ok((DerivationModel::of_fields(f), n)),
            Err(e) => Err(e),
        }
    }

    proof fn lemma_parse_within(s: Seq<u8>) {
        DerivationFields::lemma_parse_within(s);
    }

    proof fn lemma_parse_stable(s: Seq<u8>, more: Seq<u8>) {
        DerivationFields::lemma_parse_stable(s, more);
    }

    proof fn lemma_round_trip(m: DerivationModel, rest: Seq<u8>) {
        DerivationFields::lemma_round_trip(m.fields(), rest);
    }

    fn decode(buf: &[u8], pos: usize) -> (r: Result<(Derivation, usize), Error>) {
        let (f, p) = DerivationFields::decode(buf, pos)?;
        let (outputs, f) = f;
        let (input_sources, f) = f;
        let (platform, f) = f;
        let (builder, f) = f;
        let (args, env) = f;
        Ok((Derivation { outputs, input_sources, platform, builder, args, env }, p))
    }
}

/// A request to build one derivation that is sent along.
#[derive(Clone, Debug, PartialEq, Eq)]
pub struct BuildDerivation {
    pub store_path: StorePath,
    pub derivation: Derivation,
    pub build_mode: BuildMode,
}

/// What a [`BuildDerivation`] stands for.
pub struct BuildDerivationModel {
    pub store_path: Seq<u8>,
    pub derivation: DerivationModel,
    pub build_mode: BuildMode,
}

/// The fields of a [`BuildDerivation`] in the order they are written.
pub type BuildDerivationFields = (
    StorePath, (
    Derivation,
    BuildMode
));

impl BuildDerivationModel {
    /// The fields in wire order.
    pub open spec fn fields(self) -> <BuildDerivationFields as Encode>::Model {
        (
            self.store_path, (
            self.derivation,
            self.build_mode
        ))
    }

    /// The record that holds the given fields.
    pub open spec fn of_fields(f: <BuildDerivationFields as Encode>::Model) -> BuildDerivationModel {
        BuildDerivationModel {
            store_path: f.0,
            derivation: f.1.0,
            build_mode: f.1.1,
        }
    }
}

impl Encode for BuildDerivation {
    type Model = BuildDerivationModel;

    open spec fn model(&self) -> BuildDerivationModel {
        BuildDerivationModel {
            store_path: self.store_path.model(),
            derivation: self.derivation.model(),
            build_mode: self.build_mode.model(),
        }
    }

    open spec fn encoding(m: BuildDerivationModel) -> Seq<u8> {
        BuildDerivationFields::encoding(m.fields())
    }

    proof fn lemma_encoding_aligned(m: BuildDerivationModel) {
        BuildDerivationFields::lemma_encoding_aligned(m.fields());
    }

    fn encode(&self, out: &mut Vec<u8>) {
        let fields = (
            &self.store_path, (
            &self.derivation,
            &self.build_mode
        ));
        fields.encode(out);
    }
}

impl Wire for BuildDerivation {
    open spec fn encodable(m: BuildDerivationModel) -> bool {
        BuildDerivationFields::encodable(m.fields())
    }

    open spec fn parse(s: Seq<u8>) -> Parsed<BuildDerivationModel> {
        match BuildDerivationFields::parse(s) {
            Ok((f, n)) => Ok((BuildDerivationModel::of_fields(f), n)),
            Err(e) => Err(e),
        }
    }

    proof fn lemma_parse_within(s: Seq<u8>) {
        BuildDerivationFields::lemma_parse_within(s);
    }

    proof fn lemma_parse_stable(s: Seq<u8>, more: Seq<u8>) {
        BuildDerivationFields::lemma_parse_stable(s, more);
    }

    proof fn lemma_round_trip(m: BuildDerivationModel, rest: Seq<u8>) {
        BuildDerivationFields::lemma_round_trip(m.fields(), rest);
    }

    fn decode(buf: &[u8], pos: usize) -> (r: Result<(BuildDerivation, usize), Error>) {
        let (f, p) = BuildDerivationFields::decode(buf, pos)?;
        let (store_path, f) = f;
        let (derivation, build_mode) = f;
        Ok((BuildDerivation { store_path, derivation, build_mode }, p))
    }
}

} // verus!
