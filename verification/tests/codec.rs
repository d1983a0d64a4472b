use nix_remote::byte_string::{pad_len, MAX_STRING_LEN};
use nix_remote::io::same_bytes;
use nix_remote::records::{
    AddSignatures, AddToStore, AddToStoreNar, BuildDerivation, BuildPaths, BuildResult,
    CollectGarbage, CollectGarbageResponse, Derivation, DerivationOutput, DerivationOutputMap,
    DrvOutputs, FindRootsResponse, QueryMissing, QueryMissingResponse, QueryPathInfoResponse,
    QueryValidPaths, ValidPathInfo, VerifyStore,
};
use nix_remote::stderr::Opcode;
use nix_remote::version::DaemonVersion;
use nix_remote::wire::{Encode, Wire};
use nix_remote::worker_op::{
    AddBuildLog, AddMultipleToStore, BuildMode, BuildStatus, GcAction, Plain, Resp, SetOptions,
    Verbosity, WithFramedSource, WorkerOp,
};
use nix_remote::{
    DerivedPath, Error, NarHash, NixStoreRead, NixStoreWrite, NixString, Path, PathSet,
    Realisation, RealisationSet, StorePath, StorePathSet, StringSet, ValidPathInfoWithPath,
};
use serde_bytes::ByteBuf;

fn encoded<T: Encode>(value: &T) -> Vec<u8> {
    let mut bytes = Vec::new();
    value.encode(&mut bytes);
    bytes
}

fn word(n: u64) -> Vec<u8> {
    n.to_le_bytes().to_vec()
}

fn string(s: &[u8]) -> Vec<u8> {
    let mut bytes = word(s.len() as u64);
    bytes.extend_from_slice(s);
    while bytes.len() % 8 != 0 {
        bytes.push(0);
    }
    bytes
}

fn store_path(s: &str) -> StorePath {
    StorePath::from_bytes(s.as_bytes().to_vec())
}

fn nix_string(s: &str) -> NixString {
    NixString::from_bytes(s.as_bytes().to_vec())
}

fn path_set(paths: &[&str]) -> StorePathSet {
    StorePathSet { paths: paths.iter().map(|p| Path::from_bytes(p.as_bytes().to_vec())).collect() }
}

fn string_set(items: &[&str]) -> StringSet {
    StringSet { paths: items.iter().map(|p| ByteBuf::from(p.as_bytes().to_vec())).collect() }
}

fn sample_info() -> ValidPathInfo {
    ValidPathInfo {
        deriver: store_path("/nix/store/aaa-foo.drv"),
        hash: NarHash::from_bytes(b"sha256:0123".to_vec()),
        references: path_set(&["/nix/store/bbb-bar", "/nix/store/ccc-baz"]),
        registration_time: 1_700_000_000,
        nar_size: 4096,
        ultimate: true,
        sigs: string_set(&["cache.example.org-1:abcd"]),
        content_address: nix_string(""),
    }
}

fn sample_build_result() -> BuildResult {
    BuildResult {
        status: BuildStatus::Built,
        error_msg: nix_string(""),
        times_built: 1,
        is_non_deterministic: false,
        start_time: 10,
        stop_time: 20,
        built_outputs: DrvOutputs(vec![(
            nix_string("sha256:abc!out"),
            Realisation::from_bytes(b"{\"id\":\"x\"}".to_vec()),
        )]),
    }
}

fn sample_set_options() -> SetOptions {
    SetOptions {
        keep_failing: true,
        keep_going: false,
        try_fallback: true,
        verbosity: Verbosity::Vomit,
        max_build_jobs: 4,
        max_silent_time: 0,
        _use_build_hook: 0,
        build_verbosity: Verbosity::Error,
        _log_type: 0,
        _print_build_trace: 0,
        build_cores: 2,
        use_substitutes: true,
        options: vec![(nix_string("a"), nix_string("b"))],
    }
}

fn all_ops() -> Vec<WorkerOp> {
    let derivation = Derivation {
        outputs: vec![(
            nix_string("out"),
            DerivationOutput {
                store_path: store_path("/nix/store/ddd-out"),
                method_or_hash: nix_string(""),
                hash_or_impure: nix_string(""),
            },
        )],
        input_sources: path_set(&["/nix/store/eee-src"]),
        platform: nix_string("x86_64-linux"),
        builder: Path::from_bytes(b"/bin/sh".to_vec()),
        args: string_set(&["-c", "true"]),
        env: vec![(nix_string("PATH"), nix_string("/bin"))],
    };
    vec![
        WorkerOp::IsValidPath(Plain(store_path("/nix/store/xxx-foo")), Resp::new()),
        WorkerOp::QueryReferrers(Plain(store_path("/nix/store/xxx-foo")), Resp::new()),
        WorkerOp::AddToStore(
            WithFramedSource(AddToStore {
                name: store_path("foo"),
                cam_str: store_path("fixed:r:sha256"),
                refs: path_set(&[]),
                repair: false,
            }),
            Resp::new(),
        ),
        WorkerOp::BuildPaths(
            Plain(BuildPaths {
                paths: vec![store_path("/nix/store/xxx-foo.drv!out")],
                build_mode: BuildMode::Repair,
            }),
            Resp::new(),
        ),
        WorkerOp::EnsurePath(Plain(store_path("/nix/store/xxx-foo")), Resp::new()),
        WorkerOp::AddTempRoot(Plain(store_path("/nix/store/xxx-foo")), Resp::new()),
        WorkerOp::FindRoots(Plain(()), Resp::new()),
        WorkerOp::SetOptions(Plain(sample_set_options()), Resp::new()),
        WorkerOp::CollectGarbage(
            Plain(CollectGarbage {
                action: GcAction::DeleteSpecific,
                paths_to_delete: path_set(&["/nix/store/xxx-foo"]),
                ignore_liveness: false,
                max_freed: u64::MAX,
                _obsolete0: 0,
                _obsolete1: 0,
                _obsolete2: 0,
            }),
            Resp::new(),
        ),
        WorkerOp::QueryAllValidPaths(Plain(()), Resp::new()),
        WorkerOp::QueryPathInfo(Plain(store_path("/nix/store/xxx-foo")), Resp::new()),
        WorkerOp::QueryPathFromHashPart(Plain(nix_string("xxx")), Resp::new()),
        WorkerOp::QueryValidPaths(
            Plain(QueryValidPaths {
                paths: path_set(&["/nix/store/a", "/nix/store/b"]),
                builders_use_substitutes: true,
            }),
            Resp::new(),
        ),
        WorkerOp::QuerySubstitutablePaths(Plain(path_set(&["/nix/store/a"])), Resp::new()),
        WorkerOp::QueryValidDerivers(Plain(store_path("/nix/store/xxx-foo")), Resp::new()),
        WorkerOp::OptimiseStore(Plain(()), Resp::new()),
        WorkerOp::VerifyStore(
            Plain(VerifyStore { check_contents: true, repair: false }),
            Resp::new(),
        ),
        WorkerOp::BuildDerivation(
            Plain(BuildDerivation {
                store_path: store_path("/nix/store/xxx-foo.drv"),
                derivation,
                build_mode: BuildMode::Normal,
            }),
            Resp::new(),
        ),
        WorkerOp::AddSignatures(
            Plain(AddSignatures {
                path: store_path("/nix/store/xxx-foo"),
                signatures: string_set(&["k:sig"]),
            }),
            Resp::new(),
        ),
        WorkerOp::NarFromPath(Plain(store_path("/nix/store/xxx-foo")), Resp::new()),
        WorkerOp::AddToStoreNar(
            WithFramedSource(AddToStoreNar {
                path: store_path("/nix/store/xxx-foo"),
                deriver: store_path(""),
                nar_hash: nix_string("sha256:0123"),
                references: path_set(&[]),
                registration_time: 0,
                nar_size: 120,
                ultimate: false,
                sigs: string_set(&[]),
                content_address: nix_string(""),
                repair: false,
                dont_check_sigs: true,
            }),
            Resp::new(),
        ),
        WorkerOp::QueryMissing(
            Plain(QueryMissing { paths: vec![store_path("/nix/store/xxx-foo")] }),
            Resp::new(),
        ),
        WorkerOp::QueryDerivationOutputMap(
            Plain(store_path("/nix/store/xxx-foo.drv")),
            Resp::new(),
        ),
        WorkerOp::RegisterDrvOutput(
            Plain(Realisation::from_bytes(b"{}".to_vec())),
            Resp::new(),
        ),
        WorkerOp::QueryRealisation(Plain(nix_string("sha256:abc!out")), Resp::new()),
        WorkerOp::AddMultipleToStore(
            WithFramedSource(AddMultipleToStore { repair: false, dont_check_sigs: false }),
            Resp::new(),
        ),
        WorkerOp::AddBuildLog(
            WithFramedSource(AddBuildLog { path: store_path("/nix/store/xxx-foo.drv") }),
            Resp::new(),
        ),
        WorkerOp::BuildPathsWithResults(
            Plain(BuildPaths {
                paths: vec![store_path("/nix/store/xxx-foo.drv!*")],
                build_mode: BuildMode::Check,
            }),
            Resp::new(),
        ),
    ]
}

#[test]
fn test_serialize() {
    let options = SetOptions {
        keep_failing: true,
        keep_going: false,
        try_fallback: true,
        verbosity: Verbosity::Vomit,
        max_build_jobs: 77,
        max_silent_time: 77,
        _use_build_hook: 77,
        build_verbosity: Verbosity::Error,
        _log_type: 77,
        _print_build_trace: 77,
        build_cores: 77,
        use_substitutes: false,
        options: vec![(
            NixString(ByteBuf::from(b"buf1".to_owned())),
            NixString(ByteBuf::from(b"buf2".to_owned())),
        )],
    };
    let mut bytes = Vec::new();
    options.encode(&mut bytes);

    let (decoded, end) = SetOptions::decode(&bytes, 0).unwrap();
    assert_eq!(options, decoded);
    assert_eq!(end, bytes.len());
}

#[test]
fn word_is_eight_bytes_little_endian() {
    assert_eq!(encoded(&0x0102030405060708u64), vec![8, 7, 6, 5, 4, 3, 2, 1]);
    assert_eq!(u64::decode(&[8, 7, 6, 5, 4, 3, 2, 1, 0xff], 0), Ok((0x0102030405060708, 8)));
    assert_eq!(u64::decode(&[0xff, 1, 0, 0, 0, 0, 0, 0, 0], 1), Ok((1, 9)));
}

#[test]
fn short_word_is_unexpected_eof() {
    assert_eq!(u64::decode(&[1, 2, 3, 4, 5, 6, 7], 0), Err(Error::UnexpectedEof));
    assert_eq!(u64::decode(&[], 0), Err(Error::UnexpectedEof));
    assert_eq!(bool::decode(&[1, 0, 0], 0), Err(Error::UnexpectedEof));
}

#[test]
fn bool_is_written_as_one_or_zero() {
    assert_eq!(encoded(&true), word(1));
    assert_eq!(encoded(&false), word(0));
    assert_eq!(bool::decode(&encoded(&true), 0), Ok((true, 8)));
    assert_eq!(bool::decode(&encoded(&false), 0), Ok((false, 8)));
}

#[test]
fn any_non_zero_word_reads_as_true() {
    for n in [1u64, 2, 7, 255, 256, 0x8000_0000_0000_0000, u64::MAX] {
        assert_eq!(bool::decode(&word(n), 0), Ok((true, 8)));
    }
    assert_eq!(bool::decode(&word(0), 0), Ok((false, 8)));
}

#[test]
fn string_advances_by_length_plus_padding() {
    for n in 0usize..=33 {
        let payload: Vec<u8> = (0..n).map(|i| (i + 1) as u8).collect();
        let mut write = NixStoreWrite::new();
        write.write_u64(0xdead);
        let before = write.inner.len();
        write.write_string(&payload);
        let advanced = write.inner.len() - before;
        assert_eq!(advanced, 8 + n + ((8 - n % 8) % 8));
        assert_eq!(advanced % 8, 0);
        assert_eq!(&write.inner[before..], &string(&payload)[..]);
        assert_eq!(pad_len(n as u64), ((8 - n % 8) % 8) as u64);
    }
}

#[test]
fn string_has_exact_layout() {
    let bytes = encoded(&ByteBuf::from(b"hello".to_vec()));
    assert_eq!(bytes, vec![5, 0, 0, 0, 0, 0, 0, 0, b'h', b'e', b'l', b'l', b'o', 0, 0, 0]);
    let empty = encoded(&ByteBuf::from(Vec::new()));
    assert_eq!(empty, vec![0; 8]);
    let eight = encoded(&ByteBuf::from(b"12345678".to_vec()));
    assert_eq!(eight.len(), 16);
}

#[test]
fn string_padding_content_is_ignored() {
    let mut bytes = string(b"abc");
    bytes[11] = 0xaa;
    bytes[15] = 0x55;
    let (value, end) = ByteBuf::decode(&bytes, 0).unwrap();
    assert_eq!(value.into_vec(), b"abc".to_vec());
    assert_eq!(end, 16);
}

#[test]
fn string_without_its_padding_is_unexpected_eof() {
    let bytes = string(b"abc");
    assert_eq!(ByteBuf::decode(&bytes[..11], 0), Err(Error::UnexpectedEof));
    assert_eq!(ByteBuf::decode(&bytes[..15], 0), Err(Error::UnexpectedEof));
    assert_eq!(ByteBuf::decode(&bytes[..9], 0), Err(Error::UnexpectedEof));
}

#[test]
fn string_above_the_ceiling_is_message_too_large() {
    let too_long = MAX_STRING_LEN + 1;
    assert_eq!(ByteBuf::decode(&word(too_long), 0), Err(Error::MessageTooLarge(too_long)));
    assert_eq!(ByteBuf::decode(&word(u64::MAX), 0), Err(Error::MessageTooLarge(u64::MAX)));
    // At the ceiling the length is accepted; the bytes are just not there.
    assert_eq!(ByteBuf::decode(&word(MAX_STRING_LEN), 0), Err(Error::UnexpectedEof));
}

#[test]
fn byte_string_types_keep_their_bytes() {
    let bytes = b"/nix/store/xxx-foo".to_vec();
    assert_eq!(Path::from_bytes(bytes.clone()).as_bytes(), &bytes[..]);
    assert_eq!(NixString::from_bytes(bytes.clone()).as_bytes(), &bytes[..]);
    assert_eq!(StorePath::from_bytes(bytes.clone()).as_bytes(), &bytes[..]);
    assert_eq!(DerivedPath::from_bytes(bytes.clone()).as_bytes(), &bytes[..]);
    assert_eq!(Realisation::from_bytes(bytes.clone()).as_bytes(), &bytes[..]);
    assert_eq!(NarHash::from_bytes(bytes.clone()).as_bytes(), &bytes[..]);
    assert_eq!(Path::from_bytes(bytes.clone()), Path(ByteBuf::from(bytes.clone())));
    assert_ne!(Path::from_bytes(bytes.clone()), Path::from_bytes(b"other".to_vec()));
    assert_eq!(encoded(&Path::from_bytes(bytes.clone())), string(&bytes));
}

#[test]
fn read_string_hands_out_the_bytes_without_padding() {
    let mut read = NixStoreRead::new();
    read.feed(&string(b"rust-nix-bazel-0.1.0"));
    read.feed(&word(7));
    assert_eq!(read.read_string(), Ok(b"rust-nix-bazel-0.1.0".to_vec()));
    assert_eq!(read.read_u64(), Ok(7));
    assert_eq!(read.available(), 0);
}

#[test]
fn sequence_is_count_then_items() {
    let set = path_set(&["a", "bc"]);
    let mut expected = word(2);
    expected.extend(string(b"a"));
    expected.extend(string(b"bc"));
    assert_eq!(encoded(&set), expected);
    let (back, end) = StorePathSet::decode(&expected, 0).unwrap();
    assert_eq!(back, set);
    assert_eq!(end, expected.len());
    assert_eq!(encoded(&path_set(&[])), word(0));
}

#[test]
fn sequence_keeps_order_and_duplicates() {
    let set = string_set(&["b", "a", "b"]);
    let (back, _) = StringSet::decode(&encoded(&set), 0).unwrap();
    assert_eq!(back.paths.len(), 3);
    assert_eq!(back, set);
}

#[test]
fn sequence_with_missing_item_is_unexpected_eof() {
    let mut bytes = word(3);
    bytes.extend(string(b"a"));
    bytes.extend(string(b"b"));
    assert_eq!(StorePathSet::decode(&bytes, 0), Err(Error::UnexpectedEof));
    assert_eq!(PathSet::decode(&word(u64::MAX), 0), Err(Error::UnexpectedEof));
}

#[test]
fn optional_value_is_flag_then_value() {
    let present = QueryPathInfoResponse { path: Some(sample_info()) };
    let mut expected = word(1);
    expected.extend(encoded(&sample_info()));
    assert_eq!(encoded(&present), expected);
    let absent = QueryPathInfoResponse { path: None };
    assert_eq!(encoded(&absent), word(0));
    assert_eq!(QueryPathInfoResponse::decode(&expected, 0), Ok((present, expected.len())));
    assert_eq!(QueryPathInfoResponse::decode(&word(0), 0), Ok((absent, 8)));
    assert_eq!(QueryPathInfoResponse::decode(&word(1), 0), Err(Error::UnexpectedEof));
}

#[test]
fn records_are_their_fields_in_order() {
    let info = sample_info();
    let mut expected = string(b"/nix/store/aaa-foo.drv");
    expected.extend(string(b"sha256:0123"));
    expected.extend(word(2));
    expected.extend(string(b"/nix/store/bbb-bar"));
    expected.extend(string(b"/nix/store/ccc-baz"));
    expected.extend(word(1_700_000_000));
    expected.extend(word(4096));
    expected.extend(word(1));
    expected.extend(word(1));
    expected.extend(string(b"cache.example.org-1:abcd"));
    expected.extend(string(b""));
    assert_eq!(encoded(&info), expected);
    assert_eq!(ValidPathInfo::decode(&expected, 0), Ok((info, expected.len())));
}

#[test]
fn set_options_has_exact_layout() {
    let mut expected = Vec::new();
    for n in [1u64, 0, 1, 7, 4, 0, 0, 0, 0, 0, 2, 1] {
        expected.extend(word(n));
    }
    expected.extend(word(1));
    expected.extend(string(b"a"));
    expected.extend(string(b"b"));
    assert_eq!(encoded(&sample_set_options()), expected);
    assert_eq!(
        SetOptions::decode(&expected, 0),
        Ok((sample_set_options(), expected.len()))
    );
}

#[test]
fn replies_round_trip() {
    fn check<T: Wire + PartialEq + std::fmt::Debug>(value: T) {
        let bytes = encoded(&value);
        assert_eq!(bytes.len() % 8, 0);
        let mut longer = bytes.clone();
        longer.extend_from_slice(&[0xee; 5]);
        let (back, end) = T::decode(&longer, 0).unwrap();
        assert_eq!(back, value);
        assert_eq!(end, bytes.len());
        assert_eq!(encoded(&back), bytes);
    }
    check(true);
    check(17u64);
    check(());
    check(path_set(&["/nix/store/a", "/nix/store/b"]));
    check(ValidPathInfoWithPath {
        path: Path::from_bytes(b"/nix/store/xxx-foo".to_vec()),
        info: sample_info(),
    });
    check(FindRootsResponse {
        roots: vec![(Path::from_bytes(b"/home/u/result".to_vec()), store_path("/nix/store/x"))],
    });
    check(CollectGarbageResponse {
        paths: PathSet { paths: vec![Path::from_bytes(b"/nix/store/x".to_vec())] },
        bytes_freed: 12345,
        _obsolete: 0,
    });
    check(QueryPathInfoResponse { path: Some(sample_info()) });
    check(QueryPathInfoResponse { path: None });
    check(store_path(""));
    check(sample_build_result());
    check(QueryMissingResponse {
        will_build: path_set(&["/nix/store/a"]),
        will_substitute: path_set(&[]),
        unknown: path_set(&["/nix/store/b"]),
        download_size: 1,
        nar_size: 2,
    });
    check(DerivationOutputMap { paths: vec![(nix_string("out"), store_path(""))] });
    check(RealisationSet { realisations: vec![Realisation::from_bytes(b"{}".to_vec())] });
    check(vec![(DerivedPath::from_bytes(b"/nix/store/x.drv!out".to_vec()), sample_build_result())]);
}

#[test]
fn every_request_round_trips() {
    let ops = all_ops();
    assert_eq!(ops.len(), 28);
    for op in &ops {
        let bytes = encoded(op);
        assert_eq!(bytes.len() % 8, 0);
        assert_eq!(&bytes[..8], &word(op.opcode())[..]);
        let mut longer = bytes.clone();
        longer.extend_from_slice(&word(0xfeed));
        let (back, end) = WorkerOp::decode(&longer, 0).unwrap();
        assert_eq!(end, bytes.len());
        assert_eq!(format!("{:?}", back), format!("{:?}", op));
        assert_eq!(back.opcode(), op.opcode());
        assert_eq!(back.is_framed(), op.is_framed());
        assert_eq!(encoded(&back), bytes);
    }
}

#[test]
fn requests_have_the_opcodes_of_the_table() {
    let expected: Vec<u64> = vec![
        1, 6, 7, 9, 10, 11, 14, 19, 20, 23, 26, 29, 31, 32, 33, 34, 35, 36, 37, 38, 39, 40, 41,
        42, 43, 44, 45, 46,
    ];
    let found: Vec<u64> = all_ops().iter().map(|op| op.opcode()).collect();
    assert_eq!(found, expected);
    let framed: Vec<u64> =
        all_ops().iter().filter(|op| op.is_framed()).map(|op| op.opcode()).collect();
    assert_eq!(framed, vec![7, 39, 44, 45]);
}

#[test]
fn truncated_request_is_unexpected_eof() {
    for op in all_ops() {
        let bytes = encoded(&op);
        for cut in [0, 7, bytes.len() - 1] {
            let r = WorkerOp::decode(&bytes[..cut], 0);
            assert!(matches!(r, Err(Error::UnexpectedEof)), "{:?} cut at {}", op, cut);
        }
    }
}

#[test]
fn reserved_and_unassigned_opcodes_are_unknown() {
    for code in [0u64, 2, 3, 4, 5, 8, 12, 13, 15, 16, 17, 18, 21, 22, 24, 25, 27, 28, 30, 47, 1000]
    {
        let mut bytes = word(code);
        bytes.extend(string(b"/nix/store/xxx-foo"));
        let r = WorkerOp::decode(&bytes, 0);
        assert!(matches!(r, Err(Error::UnknownOpcode(c)) if c == code));
    }
}

#[test]
fn verbosity_tags_are_closed() {
    let all = [
        Verbosity::Error,
        Verbosity::Warn,
        Verbosity::Notice,
        Verbosity::Info,
        Verbosity::Talkative,
        Verbosity::Chatty,
        Verbosity::Debug,
        Verbosity::Vomit,
    ];
    for (tag, v) in all.iter().enumerate() {
        assert_eq!(v.to_u64(), tag as u64);
        assert_eq!(encoded(v), word(tag as u64));
        assert_eq!(Verbosity::decode(&word(tag as u64), 0), Ok((*v, 8)));
        assert_eq!(Verbosity::from_u64(tag as u64), Some(*v));
    }
    for tag in [8u64, 9, 255, u64::MAX] {
        assert_eq!(Verbosity::decode(&word(tag), 0), Err(Error::UnknownTag(tag)));
        assert_eq!(Verbosity::from_u64(tag), None);
    }
}

#[test]
fn build_mode_tags_are_closed() {
    let all = [BuildMode::Normal, BuildMode::Repair, BuildMode::Check];
    for (tag, v) in all.iter().enumerate() {
        assert_eq!(encoded(v), word(tag as u64));
        assert_eq!(BuildMode::decode(&word(tag as u64), 0), Ok((*v, 8)));
    }
    for tag in [3u64, 4, u64::MAX] {
        assert_eq!(BuildMode::decode(&word(tag), 0), Err(Error::UnknownTag(tag)));
    }
}

#[test]
fn build_status_tags_are_closed() {
    let all = [
        BuildStatus::Built,
        BuildStatus::Substituted,
        BuildStatus::AlreadyValid,
        BuildStatus::PermanentFailure,
        BuildStatus::InputRejected,
        BuildStatus::OutputRejected,
        BuildStatus::TransientFailure,
        BuildStatus::CachedFailure,
        BuildStatus::TimedOut,
        BuildStatus::MiscFailure,
        BuildStatus::DependencyFailed,
        BuildStatus::LogLimitExceeded,
        BuildStatus::NotDeterministic,
        BuildStatus::ResolvesToAlreadyValid,
        BuildStatus::NoSubstituters,
    ];
    assert_eq!(all.len(), 15);
    for (tag, v) in all.iter().enumerate() {
        assert_eq!(encoded(v), word(tag as u64));
        assert_eq!(BuildStatus::decode(&word(tag as u64), 0), Ok((*v, 8)));
    }
    for tag in [15u64, 16, u64::MAX] {
        assert_eq!(BuildStatus::decode(&word(tag), 0), Err(Error::UnknownTag(tag)));
    }
}

#[test]
fn gc_action_tags_are_closed() {
    let all = [
        GcAction::ReturnLive,
        GcAction::ReturnDead,
        GcAction::DeleteDead,
        GcAction::DeleteSpecific,
    ];
    for (tag, v) in all.iter().enumerate() {
        assert_eq!(encoded(v), word(tag as u64));
        assert_eq!(GcAction::decode(&word(tag as u64), 0), Ok((*v, 8)));
    }
    for tag in [4u64, 5, u64::MAX] {
        assert_eq!(GcAction::decode(&word(tag), 0), Err(Error::UnknownTag(tag)));
    }
    assert_eq!(GcAction::default(), GcAction::DeleteDead);
}

#[test]
fn unknown_tag_inside_a_request_is_reported() {
    let mut bytes = word(9);
    bytes.extend(word(0));
    bytes.extend(word(3));
    assert!(matches!(WorkerOp::decode(&bytes, 0), Err(Error::UnknownTag(3))));
}

#[test]
fn stderr_opcodes_have_their_words() {
    let all = [
        (Opcode::Next, 0x6f6c6d67u64),
        (Opcode::Read, 0x64617461),
        (Opcode::Write, 0x64617416),
        (Opcode::Last, 0x616c7473),
        (Opcode::Error, 0x63787470),
        (Opcode::StartActivity, 0x53545254),
        (Opcode::StopActivity, 0x53544f50),
        (Opcode::Result, 0x52534c54),
    ];
    for (opcode, tag) in all {
        assert_eq!(opcode.to_u64(), tag);
        assert_eq!(encoded(&opcode), word(tag));
        assert_eq!(Opcode::decode(&word(tag), 0), Ok((opcode, 8)));
        assert_eq!(Opcode::from_u64(tag), Some(opcode));
    }
    for tag in [0u64, 1, 0x616c7474, u64::MAX] {
        assert_eq!(Opcode::decode(&word(tag), 0), Err(Error::UnknownTag(tag)));
    }
}

#[test]
fn version_packs_into_two_bytes() {
    assert_eq!(DaemonVersion::from(0x0122u64), DaemonVersion { major: 1, minor: 34 });
    assert_eq!(u64::from(DaemonVersion { major: 1, minor: 34 }), 0x0122);
    assert_eq!(DaemonVersion::from(0x010au64), DaemonVersion { major: 1, minor: 10 });
    assert_eq!(DaemonVersion::from(0xabcd_1234u64), DaemonVersion { major: 0x12, minor: 0x34 });
    assert_eq!(u64::from(DaemonVersion::from(0xabcd_1234u64)), 0x1234);
    assert_eq!(u64::from(DaemonVersion { major: 255, minor: 255 }), 0xffff);
}

#[test]
fn reader_leaves_input_alone_on_failure() {
    let mut read = NixStoreRead::new();
    let bytes = string(b"abcdefghij");
    read.feed(&bytes[..12]);
    assert_eq!(read.read_string(), Err(Error::UnexpectedEof));
    assert_eq!(read.available(), 12);
    read.feed(&bytes[12..]);
    assert_eq!(read.peek::<ByteBuf>().map(|b| b.into_vec()), Ok(b"abcdefghij".to_vec()));
    assert_eq!(read.available(), bytes.len());
    assert_eq!(read.read_string(), Ok(b"abcdefghij".to_vec()));
    assert_eq!(read.available(), 0);
    assert_eq!(read.read_u64(), Err(Error::UnexpectedEof));
}

#[test]
fn reader_compacts_without_losing_input() {
    let mut read = NixStoreRead::new();
    read.feed(&word(1));
    read.feed(&word(2));
    read.feed(&[9, 9, 9]);
    assert_eq!(read.read_u64(), Ok(1));
    read.compact();
    assert_eq!(read.available(), 11);
    assert_eq!(read.read_u64(), Ok(2));
    let mut rest = Vec::new();
    assert_eq!(read.read_raw(10, &mut rest), 3);
    assert_eq!(rest, vec![9, 9, 9]);
    assert!(!read.is_closed());
    read.close();
    assert!(read.is_closed());
}

#[test]
fn writer_hands_out_what_was_written() {
    let mut write = NixStoreWrite::new();
    write.write_u64(5);
    write.write(&true);
    write.write_string(b"xy");
    let mut expected = word(5);
    expected.extend(word(1));
    expected.extend(string(b"xy"));
    assert_eq!(write.flush(), expected);
    assert_eq!(write.flush(), Vec::<u8>::new());
}

#[test]
fn read_through_passes_on_conforming_bytes_only() {
    let op = WorkerOp::VerifyStore(
        Plain(VerifyStore { check_contents: true, repair: false }),
        Resp::new(),
    );
    let bytes = encoded(&op);

    let mut read = NixStoreRead::new();
    read.feed(&bytes);
    let mut forward = NixStoreWrite::new();
    let back = read.read_through::<WorkerOp>(&mut forward).unwrap();
    assert_eq!(format!("{:?}", back), format!("{:?}", op));
    assert_eq!(forward.inner, bytes);
    assert_eq!(read.available(), 0);

    // The same request with `true` written as 2 decodes, but not faithfully.
    let mut odd = bytes.clone();
    odd[8] = 2;
    assert!(WorkerOp::decode(&odd, 0).is_ok());
    let mut read = NixStoreRead::new();
    read.feed(&odd);
    let mut forward = NixStoreWrite::new();
    let r = read.read_through::<WorkerOp>(&mut forward);
    assert!(matches!(r, Err(Error::CodecMismatch)));
    assert_eq!(forward.inner, Vec::<u8>::new());
    assert_eq!(read.available(), odd.len());
}

#[test]
fn same_bytes_compares_contents() {
    assert!(same_bytes(b"abc", b"abc"));
    assert!(same_bytes(b"", b""));
    assert!(!same_bytes(b"abc", b"abd"));
    assert!(!same_bytes(b"abc", b"ab"));
}

#[test]
fn marker_hands_its_argument_back() {
    let resp: Resp<u64> = Resp::new();
    assert_eq!(resp.ty(42), 42);
    let plain = Plain(7u64);
    assert_eq!(*plain, 7);
    let framed = WithFramedSource(true);
    assert!(*framed);
}

#[test]
fn error_knows_what_more_input_can_cure() {
    assert!(Error::UnexpectedEof.is_unexpected_eof());
    assert!(!Error::TruncatedFramedSource.is_unexpected_eof());
    assert!(!Error::UnknownOpcode(3).is_unexpected_eof());
    assert!(!Error::CodecMismatch.is_unexpected_eof());
}

#[test]
fn bool_reads_and_writes_through_the_buffers() {
    let mut write = NixStoreWrite::new();
    write.write_bool(true);
    write.write_bool(false);
    write.write_u64(2);
    let bytes = write.flush();
    assert_eq!(bytes, [word(1), word(0), word(2)].concat());
    let mut read = NixStoreRead::new();
    read.feed(&bytes);
    assert_eq!(read.read_bool(), Ok(true));
    assert_eq!(read.read_bool(), Ok(false));
    assert_eq!(read.read_bool(), Ok(true));
    assert_eq!(read.read_bool(), Err(Error::UnexpectedEof));
}

#[test]
fn compact_forgets_what_was_read() {
    let mut read = NixStoreRead::new();
    assert_eq!(read.held_len(), 0);
    read.feed(&word(1));
    read.feed(&word(2));
    read.feed(&[9, 9, 9]);
    assert_eq!(read.held_len(), 19);
    // Reading does not free anything by itself.
    assert_eq!(read.read_u64(), Ok(1));
    assert_eq!(read.held_len(), 19);
    assert_eq!(read.available(), 11);
    read.compact();
    assert_eq!(read.held_len(), 11);
    assert_eq!(read.available(), 11);
    // Nothing more to forget.
    read.compact();
    assert_eq!(read.held_len(), 11);
    assert_eq!(read.read_u64(), Ok(2));
    let mut rest = Vec::new();
    read.drain(&mut rest);
    assert_eq!(rest, vec![9, 9, 9]);
    assert_eq!(read.held_len(), 11);
    read.compact();
    assert_eq!(read.held_len(), 0);
    read.feed(&word(3));
    assert_eq!(read.held_len(), 8);
    assert_eq!(read.read_u64(), Ok(3));
}
