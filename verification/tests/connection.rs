use nix_remote::connection::{NixReadWrite, Phase, Progress, Upstream};
use nix_remote::records::{AddToStore, ValidPathInfo};
use nix_remote::stderr::Opcode;
use nix_remote::wire::Encode;
use nix_remote::worker_op::{Plain, Resp, SetOptions, Verbosity, WithFramedSource, WorkerOp};
use nix_remote::{
    Error, NarHash, NixString, Path, StorePath, StorePathSet, StringSet, ValidPathInfoWithPath,
};

const WORKER_MAGIC_1: u64 = 0x6e697863;
const WORKER_MAGIC_2: u64 = 0x6478696f;
const STDERR_LAST: u64 = 0x616c7473;
const STDERR_ERROR: u64 = 0x63787470;
const STDERR_NEXT: u64 = 0x6f6c6d67;
const DAEMON_ID: &[u8] = b"rust-nix-bazel-0.1.0";

fn word(n: u64) -> Vec<u8> {
    n.to_le_bytes().to_vec()
}

fn words(ns: &[u64]) -> Vec<u8> {
    ns.iter().flat_map(|n| n.to_le_bytes()).collect()
}

fn string(s: &[u8]) -> Vec<u8> {
    let mut bytes = word(s.len() as u64);
    bytes.extend_from_slice(s);
    while bytes.len() % 8 != 0 {
        bytes.push(0);
    }
    bytes
}

fn encoded<T: Encode>(value: &T) -> Vec<u8> {
    let mut bytes = Vec::new();
    value.encode(&mut bytes);
    bytes
}

fn connected(version: u64) -> NixReadWrite {
    let mut conn = NixReadWrite::new(DAEMON_ID.to_vec());
    conn.read.feed(&words(&[WORKER_MAGIC_1, version, 0, 0]));
    assert_eq!(conn.initialize(), Ok(Some(version)));
    conn.write.flush();
    conn
}

fn greeting(version: u64) -> Vec<u8> {
    let mut bytes = words(&[WORKER_MAGIC_2, 0x0122]);
    if version & 0xff >= 33 {
        bytes.extend(string(DAEMON_ID));
    }
    bytes.extend(word(STDERR_LAST));
    bytes
}

fn obsolete_words(version: u64) -> usize {
    let minor = version & 0xff;
    if minor >= 14 {
        2
    } else if minor >= 11 {
        1
    } else {
        0
    }
}

#[test]
fn minimal_handshake() {
    let mut conn = NixReadWrite::new(DAEMON_ID.to_vec());
    assert_eq!(conn.current_phase(), Phase::Opening);
    assert_eq!(conn.negotiated_version(), None);
    conn.read.feed(&word(0x6e697863));
    conn.read.feed(&word(0x00000122));
    conn.read.feed(&words(&[0, 0]));

    assert_eq!(conn.initialize(), Ok(Some(0x0122)));

    let mut expected = word(0x6478696f);
    expected.extend(word(0x00000122));
    expected.extend(string(b"rust-nix-bazel-0.1.0"));
    expected.extend(word(0x616c7473));
    assert_eq!(conn.write.flush(), expected);
    // Both obsolete words have been consumed.
    assert_eq!(conn.read.available(), 0);
    assert_eq!(conn.current_phase(), Phase::Options);
    assert_eq!(conn.negotiated_version(), Some(0x0122));
}

#[test]
fn handshake_waits_for_each_part() {
    let mut conn = NixReadWrite::new(DAEMON_ID.to_vec());
    assert_eq!(conn.initialize(), Ok(None));
    assert_eq!(conn.current_phase(), Phase::Opening);
    assert_eq!(conn.write.flush(), Vec::<u8>::new());

    conn.read.feed(&word(WORKER_MAGIC_1)[..5]);
    assert_eq!(conn.initialize(), Ok(None));
    assert_eq!(conn.current_phase(), Phase::Opening);
    assert_eq!(conn.read.available(), 5);

    conn.read.feed(&word(WORKER_MAGIC_1)[5..]);
    assert_eq!(conn.initialize(), Ok(None));
    assert_eq!(conn.current_phase(), Phase::Negotiating);
    assert_eq!(conn.write.flush(), words(&[WORKER_MAGIC_2, 0x0122]));

    // The version alone is not enough: its obsolete words belong to it.
    conn.read.feed(&words(&[0x0122, 0]));
    assert_eq!(conn.initialize(), Ok(None));
    assert_eq!(conn.current_phase(), Phase::Negotiating);
    assert_eq!(conn.read.available(), 16);
    assert_eq!(conn.write.flush(), Vec::<u8>::new());

    conn.read.feed(&word(0));
    assert_eq!(conn.initialize(), Ok(Some(0x0122)));
    assert_eq!(conn.current_phase(), Phase::Options);
    let mut expected = string(DAEMON_ID);
    expected.extend(word(STDERR_LAST));
    assert_eq!(conn.write.flush(), expected);
    assert_eq!(conn.read.available(), 0);
}

#[test]
fn handshake_fed_byte_by_byte_sends_the_same() {
    let script = words(&[WORKER_MAGIC_1, 0x0122, 0, 0]);
    let mut conn = NixReadWrite::new(DAEMON_ID.to_vec());
    let mut sent = Vec::new();
    let mut result = Ok(None);
    for byte in &script {
        conn.read.feed(&[*byte]);
        result = conn.initialize();
        sent.extend(conn.write.flush());
        if result != Ok(None) {
            break;
        }
    }
    assert_eq!(result, Ok(Some(0x0122)));
    assert_eq!(sent, greeting(0x0122));
}

#[test]
fn handshake_output_depends_on_version_and_name_only() {
    for version in [0x010au64, 0x010b, 0x010d, 0x010e, 0x0120, 0x0121, 0x0122, 0x0123, 0x0200] {
        for filler in [0u64, 1, u64::MAX] {
            let mut conn = NixReadWrite::new(DAEMON_ID.to_vec());
            conn.read.feed(&words(&[WORKER_MAGIC_1, version]));
            for _ in 0..obsolete_words(version) {
                conn.read.feed(&word(filler));
            }
            conn.read.feed(&words(&[1, filler]));
            assert_eq!(conn.initialize(), Ok(Some(version)));
            assert_eq!(conn.write.flush(), greeting(version));
            // What follows the handshake is left for the request loop.
            assert_eq!(conn.read.available(), 16);
        }
    }
}

#[test]
fn handshake_tells_its_name_from_minor_33_on() {
    let mut old = NixReadWrite::new(b"some-daemon".to_vec());
    old.read.feed(&words(&[WORKER_MAGIC_1, 0x0120, 0, 0]));
    assert_eq!(old.initialize(), Ok(Some(0x0120)));
    assert_eq!(old.write.flush(), words(&[WORKER_MAGIC_2, 0x0122, STDERR_LAST]));

    let mut new = NixReadWrite::new(b"some-daemon".to_vec());
    new.read.feed(&words(&[WORKER_MAGIC_1, 0x0121, 0, 0]));
    assert_eq!(new.initialize(), Ok(Some(0x0121)));
    let mut expected = words(&[WORKER_MAGIC_2, 0x0122]);
    expected.extend(string(b"some-daemon"));
    expected.extend(word(STDERR_LAST));
    assert_eq!(new.write.flush(), expected);
}

#[test]
fn client_too_old_is_refused() {
    let mut conn = NixReadWrite::new(DAEMON_ID.to_vec());
    conn.read.feed(&words(&[WORKER_MAGIC_1, 0x0109]));
    assert_eq!(conn.initialize(), Err(Error::ClientTooOld(0x0109)));
    assert_eq!(conn.current_phase(), Phase::Closed);
    // Only the answer to the magic number went out; nothing follows it.
    assert_eq!(conn.write.flush(), words(&[WORKER_MAGIC_2, 0x0122]));
    assert!(matches!(conn.process_connection(false), Ok(Progress::Closed)));
    assert_eq!(conn.write.flush(), Vec::<u8>::new());
    assert_eq!(conn.negotiated_version(), None);
}

#[test]
fn oldest_served_client_is_accepted() {
    let mut conn = NixReadWrite::new(DAEMON_ID.to_vec());
    conn.read.feed(&words(&[WORKER_MAGIC_1, 0x010a]));
    assert_eq!(conn.initialize(), Ok(Some(0x010a)));
    assert_eq!(conn.write.flush(), words(&[WORKER_MAGIC_2, 0x0122, STDERR_LAST]));
}

#[test]
fn wrong_magic_is_protocol_mismatch() {
    let mut conn = NixReadWrite::new(DAEMON_ID.to_vec());
    conn.read.feed(&words(&[0x6e697864, 0x0122, 0, 0]));
    assert_eq!(conn.initialize(), Err(Error::ProtocolMismatch(0x6e697864)));
    assert_eq!(conn.current_phase(), Phase::Closed);
    assert_eq!(conn.write.flush(), Vec::<u8>::new());
    assert_eq!(conn.read.available(), 32);
}

#[test]
fn end_of_input_in_the_handshake_is_unexpected_eof() {
    let mut conn = NixReadWrite::new(DAEMON_ID.to_vec());
    conn.read.feed(&words(&[WORKER_MAGIC_1, 0x0122, 0]));
    conn.read.close();
    assert_eq!(conn.initialize(), Err(Error::UnexpectedEof));
    assert_eq!(conn.current_phase(), Phase::Closed);

    let mut conn = NixReadWrite::new(DAEMON_ID.to_vec());
    conn.read.close();
    assert!(matches!(conn.process_connection(false), Err(Error::UnexpectedEof)));
    assert_eq!(conn.current_phase(), Phase::Closed);
}

#[test]
fn is_valid_path_is_answered_after_last() {
    let mut conn = connected(0x0122);
    conn.read.feed(&word(1));
    conn.read.feed(&string(b"/nix/store/xxx-foo"));

    let op = match conn.process_connection(false) {
        Ok(Progress::Request(op)) => op,
        other => panic!("no request: {:?}", other),
    };
    assert_eq!(conn.current_phase(), Phase::Running);
    assert!(conn.is_awaiting());
    match op {
        WorkerOp::IsValidPath(path, resp) => {
            assert_eq!(path.0.as_bytes(), b"/nix/store/xxx-foo");
            // The stub backend: every path is valid.
            conn.reply(&resp, true);
        }
        other => panic!("wrong request: {:?}", other),
    }
    assert!(!conn.is_awaiting());
    assert_eq!(conn.write.flush(), words(&[0x616c7473, 1]));
}

#[test]
fn set_options_with_overrides_has_no_reply_body() {
    let mut conn = connected(0x0122);
    conn.read.feed(&word(19));
    conn.read.feed(&words(&[1, 0, 1, 7, 4, 0, 0, 0, 0, 0, 2, 1]));
    conn.read.feed(&word(1));
    conn.read.feed(&string(b"a"));
    conn.read.feed(&string(b"b"));

    let op = match conn.next_op() {
        Ok(Progress::Request(op)) => op,
        other => panic!("no request: {:?}", other),
    };
    match op {
        WorkerOp::SetOptions(options, resp) => {
            let expected = SetOptions {
                keep_failing: true,
                keep_going: false,
                try_fallback: true,
                verbosity: Verbosity::Vomit,
                max_build_jobs: 4,
                max_silent_time: 0,
                _use_build_hook: 0,
                build_verbosity: Verbosity::Error,
                _log_type: 0,
                _print_build_trace: 0,
                build_cores: 2,
                use_substitutes: true,
                options: vec![(
                    NixString::from_bytes(b"a".to_vec()),
                    NixString::from_bytes(b"b".to_vec()),
                )],
            };
            assert_eq!(options.0, expected);
            conn.reply(&resp, ());
        }
        other => panic!("wrong request: {:?}", other),
    }
    // `Last`, and no reply body behind it.
    assert_eq!(conn.write.flush(), word(0x616c7473));
    assert_eq!(conn.read.available(), 0);
}

fn add_to_store_request() -> Vec<u8> {
    let request = WorkerOp::AddToStore(
        WithFramedSource(AddToStore {
            name: StorePath::from_bytes(b"foo".to_vec()),
            cam_str: StorePath::from_bytes(b"fixed:r:sha256".to_vec()),
            refs: StorePathSet { paths: vec![] },
            repair: false,
        }),
        Resp::new(),
    );
    encoded(&request)
}

fn framed_abcdefg() -> Vec<u8> {
    let mut bytes = word(4);
    bytes.extend_from_slice(b"abcd");
    bytes.extend(word(3));
    bytes.extend_from_slice(b"efg");
    bytes.extend(word(0));
    bytes
}

fn info_with_path() -> ValidPathInfoWithPath {
    ValidPathInfoWithPath {
        path: Path::from_bytes(b"/nix/store/xxx-foo".to_vec()),
        info: ValidPathInfo {
            deriver: StorePath::from_bytes(Vec::new()),
            hash: NarHash::from_bytes(b"sha256:0123".to_vec()),
            references: StorePathSet { paths: vec![] },
            registration_time: 0,
            nar_size: 7,
            ultimate: false,
            sigs: StringSet { paths: vec![] },
            content_address: NixString::from_bytes(Vec::new()),
        },
    }
}

#[test]
fn add_to_store_hands_the_framed_payload_to_the_sink() {
    let mut conn = connected(0x0122);
    conn.read.feed(&add_to_store_request());
    conn.read.feed(&framed_abcdefg());

    let op = match conn.process_connection(false) {
        Ok(Progress::Request(op)) => op,
        other => panic!("no request: {:?}", other),
    };
    assert!(op.is_framed());
    assert!(!conn.source_done());
    let mut sink = Vec::new();
    assert_eq!(conn.read_source(&mut sink), Ok(true));
    assert_eq!(sink, b"abcdefg".to_vec());
    assert!(conn.source_done());
    assert_eq!(conn.read.available(), 0);

    match op {
        WorkerOp::AddToStore(_, resp) => conn.reply(&resp, info_with_path()),
        other => panic!("wrong request: {:?}", other),
    }
    let mut expected = word(0x616c7473);
    expected.extend(encoded(&info_with_path()));
    assert_eq!(conn.write.flush(), expected);
}

#[test]
fn framed_source_arrives_in_pieces() {
    let mut conn = connected(0x0122);
    conn.read.feed(&add_to_store_request());
    assert!(matches!(conn.next_op(), Ok(Progress::Request(_))));
    let mut sink = Vec::new();
    assert_eq!(conn.read_source(&mut sink), Ok(false));
    for byte in framed_abcdefg() {
        assert!(!conn.source_done());
        conn.read.feed(&[byte]);
        let done = conn.read_source(&mut sink).unwrap();
        assert_eq!(done, conn.source_done());
    }
    assert!(conn.source_done());
    assert_eq!(sink, b"abcdefg".to_vec());
    assert_eq!(conn.current_phase(), Phase::Running);
}

#[test]
fn framed_source_cut_short_closes_the_connection() {
    let mut conn = connected(0x0122);
    conn.read.feed(&add_to_store_request());
    let framed = framed_abcdefg();
    conn.read.feed(&framed[..framed.len() - 8]);
    conn.read.close();
    assert!(matches!(conn.next_op(), Ok(Progress::Request(_))));
    let mut sink = Vec::new();
    assert_eq!(conn.read_source(&mut sink), Err(Error::TruncatedFramedSource));
    assert_eq!(sink, b"abcdefg".to_vec());
    assert_eq!(conn.current_phase(), Phase::Closed);
}

#[test]
fn handler_error_sends_error_frame_and_goes_on() {
    let mut conn = connected(0x0122);
    conn.read.feed(&word(1));
    conn.read.feed(&string(b"/nix/store/xxx-foo"));
    conn.read.feed(&word(34));

    assert!(matches!(conn.next_op(), Ok(Progress::Request(WorkerOp::IsValidPath(_, _)))));
    let body = (NixString::from_bytes(b"path is locked".to_vec()), 1u64);
    conn.fail(&body);
    let mut expected = word(STDERR_ERROR);
    expected.extend(string(b"path is locked"));
    expected.extend(word(1));
    assert_eq!(conn.write.flush(), expected);
    assert!(!conn.is_awaiting());
    assert_eq!(conn.current_phase(), Phase::Running);

    // The op-loop goes on with the next request.
    match conn.next_op() {
        Ok(Progress::Request(WorkerOp::OptimiseStore(_, resp))) => conn.reply(&resp, 1),
        other => panic!("no request: {:?}", other),
    }
    assert_eq!(conn.write.flush(), words(&[STDERR_LAST, 1]));
}

#[test]
fn stderr_frames_come_before_last_and_reply() {
    let mut conn = connected(0x0122);
    conn.read.feed(&word(23));
    let resp = match conn.next_op() {
        Ok(Progress::Request(WorkerOp::QueryAllValidPaths(_, resp))) => resp,
        other => panic!("no request: {:?}", other),
    };
    conn.stderr(Opcode::Next, &NixString::from_bytes(b"querying".to_vec()));
    conn.stderr(Opcode::StopActivity, &5u64);
    conn.reply(&resp, StorePathSet { paths: vec![Path::from_bytes(b"/nix/store/a".to_vec())] });

    let mut expected = word(STDERR_NEXT);
    expected.extend(string(b"querying"));
    expected.extend(words(&[0x53544f50, 5]));
    expected.extend(words(&[STDERR_LAST, 1]));
    expected.extend(string(b"/nix/store/a"));
    assert_eq!(conn.write.flush(), expected);
}

#[test]
fn requests_are_answered_in_order() {
    let mut conn = connected(0x0122);
    conn.read.feed(&words(&[34, 14]));
    conn.read.feed(&word(35));

    match conn.next_op() {
        Ok(Progress::Request(WorkerOp::OptimiseStore(_, resp))) => conn.reply(&resp, 1),
        other => panic!("no request: {:?}", other),
    }
    match conn.next_op() {
        Ok(Progress::Request(WorkerOp::FindRoots(_, resp))) => {
            conn.reply(&resp, nix_remote::records::FindRootsResponse { roots: vec![] })
        }
        other => panic!("no request: {:?}", other),
    }
    // The third request is not complete yet.
    assert!(matches!(conn.next_op(), Ok(Progress::Waiting)));
    assert_eq!(conn.read.available(), 8);
    assert_eq!(conn.write.flush(), words(&[STDERR_LAST, 1, STDERR_LAST, 0]));
}

#[test]
fn first_request_begins_running() {
    let mut conn = connected(0x0122);
    assert_eq!(conn.current_phase(), Phase::Options);
    assert!(matches!(conn.process_connection(false), Ok(Progress::Waiting)));
    assert_eq!(conn.current_phase(), Phase::Options);
    conn.read.feed(&word(34));
    assert!(matches!(conn.process_connection(false), Ok(Progress::Request(_))));
    assert_eq!(conn.current_phase(), Phase::Running);
}

#[test]
fn end_of_input_between_requests_closes_cleanly() {
    let mut conn = connected(0x0122);
    conn.read.feed(&word(34));
    match conn.next_op() {
        Ok(Progress::Request(WorkerOp::OptimiseStore(_, resp))) => conn.reply(&resp, 1),
        other => panic!("no request: {:?}", other),
    }
    conn.read.close();
    assert!(matches!(conn.process_connection(false), Ok(Progress::Closed)));
    assert_eq!(conn.current_phase(), Phase::Closed);
    // Closed is the end.
    assert!(matches!(conn.process_connection(false), Ok(Progress::Closed)));
    assert!(matches!(conn.process_connection(true), Ok(Progress::Closed)));
    assert_eq!(conn.current_phase(), Phase::Closed);
}

#[test]
fn end_of_input_inside_a_request_is_unexpected_eof() {
    let mut conn = connected(0x0122);
    conn.read.feed(&word(1));
    conn.read.feed(&string(b"/nix/store/xxx-foo")[..10]);
    assert!(matches!(conn.next_op(), Ok(Progress::Waiting)));
    assert_eq!(conn.current_phase(), Phase::Options);
    conn.read.close();
    assert!(matches!(conn.next_op(), Err(Error::UnexpectedEof)));
    assert_eq!(conn.current_phase(), Phase::Closed);
}

#[test]
fn unknown_opcode_closes_the_connection() {
    for code in [3u64, 4, 5, 8, 12, 13, 16, 18, 21, 22, 24, 25, 27, 28, 30] {
        let mut conn = connected(0x0122);
        conn.read.feed(&word(code));
        assert!(matches!(conn.next_op(), Err(Error::UnknownOpcode(c)) if c == code));
        assert_eq!(conn.current_phase(), Phase::Closed);
        assert_eq!(conn.write.flush(), Vec::<u8>::new());
    }
}

#[test]
fn oversized_string_in_a_request_closes_the_connection() {
    let mut conn = connected(0x0122);
    conn.read.feed(&words(&[1, 0x1_0000_0001]));
    assert!(matches!(conn.next_op(), Err(Error::MessageTooLarge(0x1_0000_0001))));
    assert_eq!(conn.current_phase(), Phase::Closed);
}

#[test]
fn new_connection_has_nothing_upstream() {
    let conn = NixReadWrite::new(DAEMON_ID.to_vec());
    assert_eq!(conn.upstream_state(), Upstream::Idle);
    assert_eq!(conn.upstream_name(), b"");
    assert!(!conn.is_awaiting());
    assert!(conn.source_done());
    assert_eq!(conn.proxy.child_in.inner, Vec::<u8>::new());
}

#[test]
fn archive_reply_is_last_then_raw_bytes() {
    let mut conn = connected(0x0122);
    conn.read.feed(&word(38));
    conn.read.feed(&string(b"/nix/store/xxx-foo"));
    let resp = match conn.next_op() {
        Ok(Progress::Request(WorkerOp::NarFromPath(_, resp))) => resp,
        other => panic!("no request: {:?}", other),
    };
    let archive = b"nix-archive-1 and so on".to_vec();
    conn.reply_nar(&resp, &nix_remote::Nar(archive.clone()));
    let mut expected = word(STDERR_LAST);
    expected.extend(archive);
    assert_eq!(conn.write.flush(), expected);
    assert!(!conn.is_awaiting());
}

#[test]
fn framed_wrapper_gives_access_to_its_request() {
    let mut request = WithFramedSource(AddToStore {
        name: StorePath::from_bytes(b"foo".to_vec()),
        cam_str: StorePath::from_bytes(b"text:sha256".to_vec()),
        refs: StorePathSet { paths: vec![] },
        repair: false,
    });
    assert!(!request.repair);
    request.repair = true;
    assert!(request.0.repair);
    let plain = Plain(3u64);
    assert_eq!(*plain + 1, 4);
}
