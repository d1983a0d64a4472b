use nix_remote::connection::{NixProxy, NixReadWrite, Phase, Progress, Upstream};
use nix_remote::records::{AddBuildLog, QueryPathInfoResponse, ValidPathInfo};
use nix_remote::wire::Encode;
use nix_remote::worker_op::{Plain, Resp, Stream, WithFramedSource, WorkerOp};
use nix_remote::{
    Error, FramedSource, NarHash, NixStoreRead, NixStoreWrite, NixString, StorePath,
    StorePathSet, StringSet,
};

const WORKER_MAGIC_1: u64 = 0x6e697863;
const WORKER_MAGIC_2: u64 = 0x6478696f;
const STDERR_LAST: u64 = 0x616c7473;

fn word(n: u64) -> Vec<u8> {
    n.to_le_bytes().to_vec()
}

fn words(ns: &[u64]) -> Vec<u8> {
    ns.iter().flat_map(|n| n.to_le_bytes()).collect()
}

fn string(s: &[u8]) -> Vec<u8> {
    let mut bytes = word(s.len() as u64);
    bytes.extend_from_slice(s);
    while bytes.len() % 8 != 0 {
        bytes.push(0);
    }
    bytes
}

fn encoded<T: Encode>(value: &T) -> Vec<u8> {
    let mut bytes = Vec::new();
    value.encode(&mut bytes);
    bytes
}

fn client_connected(version: u64) -> NixReadWrite {
    let mut conn = NixReadWrite::new(b"rust-nix-bazel-0.1.0".to_vec());
    conn.read.feed(&words(&[WORKER_MAGIC_1, version, 0, 0]));
    assert!(matches!(conn.process_connection(true), Ok(Progress::Advanced)));
    assert_eq!(conn.current_phase(), Phase::Options);
    conn.write.flush();
    conn
}

fn upstream_greeting() -> Vec<u8> {
    let mut bytes = words(&[WORKER_MAGIC_2, 0x0122]);
    bytes.extend(string(b"nix-daemon 2.18"));
    bytes.extend(word(STDERR_LAST));
    bytes
}

fn proxy_ready(version: u64) -> NixReadWrite {
    let mut conn = client_connected(version);
    conn.proxy.child_out.feed(&upstream_greeting());
    assert!(matches!(conn.process_connection(true), Ok(Progress::Advanced)));
    assert_eq!(conn.upstream_state(), Upstream::Ready);
    assert_eq!(conn.proxy.flush(), words(&[WORKER_MAGIC_1, version, 0, 0]));
    conn
}

fn known_path_info() -> QueryPathInfoResponse {
    QueryPathInfoResponse {
        path: Some(ValidPathInfo {
            deriver: StorePath::from_bytes(b"/nix/store/aaa-foo.drv".to_vec()),
            hash: NarHash::from_bytes(b"sha256:0123".to_vec()),
            references: StorePathSet { paths: vec![] },
            registration_time: 1_700_000_000,
            nar_size: 4096,
            ultimate: false,
            sigs: StringSet { paths: vec![] },
            content_address: NixString::from_bytes(Vec::new()),
        }),
    }
}

#[test]
fn upstream_handshake_impersonates_the_client() {
    let mut conn = client_connected(0x0121);
    assert_eq!(conn.upstream_state(), Upstream::Idle);

    assert!(matches!(conn.process_connection(true), Ok(Progress::Waiting)));
    assert_eq!(conn.upstream_state(), Upstream::Greeting);
    assert_eq!(conn.proxy.flush(), word(WORKER_MAGIC_1));

    conn.proxy.child_out.feed(&words(&[WORKER_MAGIC_2, 0x0122]));
    assert!(matches!(conn.process_connection(true), Ok(Progress::Waiting)));
    assert_eq!(conn.upstream_state(), Upstream::Identifying);
    // The client's own version, and zeros in the two obsolete places.
    assert_eq!(conn.proxy.flush(), words(&[0x0121, 0, 0]));

    conn.proxy.child_out.feed(&string(b"nix-daemon 2.18"));
    assert!(matches!(conn.process_connection(true), Ok(Progress::Waiting)));
    assert_eq!(conn.upstream_state(), Upstream::Identifying);
    assert_eq!(conn.proxy.child_out.available(), 24);

    conn.proxy.child_out.feed(&word(STDERR_LAST));
    assert!(matches!(conn.process_connection(true), Ok(Progress::Advanced)));
    assert_eq!(conn.upstream_state(), Upstream::Ready);
    assert_eq!(conn.upstream_name(), b"nix-daemon 2.18");
    assert_eq!(conn.proxy.child_out.available(), 0);
    assert_eq!(conn.proxy.flush(), Vec::<u8>::new());
    // Nothing of this reaches the client.
    assert_eq!(conn.write.flush(), Vec::<u8>::new());
    assert_eq!(conn.connect_upstream(), Ok(true));
}

#[test]
fn upstream_with_wrong_magic_is_refused() {
    let mut conn = client_connected(0x0122);
    conn.proxy.child_out.feed(&words(&[WORKER_MAGIC_1, 0x0122]));
    assert!(matches!(
        conn.process_connection(true),
        Err(Error::ProtocolMismatch(WORKER_MAGIC_1))
    ));
    assert_eq!(conn.current_phase(), Phase::Closed);
    assert_eq!(conn.proxy.flush(), word(WORKER_MAGIC_1));
}

#[test]
fn upstream_with_other_version_is_refused() {
    let mut conn = client_connected(0x0122);
    conn.proxy.child_out.feed(&words(&[WORKER_MAGIC_2, 0x0123]));
    assert_eq!(conn.connect_upstream(), Err(Error::ProtocolMismatch(0x0123)));
    assert_eq!(conn.current_phase(), Phase::Closed);
}

#[test]
fn upstream_that_does_not_end_its_side_channel_is_refused() {
    let mut conn = client_connected(0x0122);
    let mut bytes = words(&[WORKER_MAGIC_2, 0x0122]);
    bytes.extend(string(b"nix-daemon 2.18"));
    bytes.extend(word(0x6f6c6d67));
    conn.proxy.child_out.feed(&bytes);
    assert_eq!(conn.connect_upstream(), Err(Error::ProtocolMismatch(0x6f6c6d67)));
    assert_eq!(conn.current_phase(), Phase::Closed);
    assert_eq!(conn.upstream_state(), Upstream::Identifying);
}

#[test]
fn upstream_that_goes_away_is_unexpected_eof() {
    let mut conn = client_connected(0x0122);
    conn.proxy.child_out.feed(&word(WORKER_MAGIC_2));
    conn.proxy.child_out.close();
    assert_eq!(conn.connect_upstream(), Err(Error::UnexpectedEof));
    assert_eq!(conn.current_phase(), Phase::Closed);
}

#[test]
fn proxy_passes_request_and_reply_on_byte_for_byte() {
    let mut conn = proxy_ready(0x0122);

    // The client asks about a known path.
    let request = WorkerOp::QueryPathInfo(
        Plain(StorePath::from_bytes(b"/nix/store/xxx-foo".to_vec())),
        Resp::new(),
    );
    let request_bytes = encoded(&request);
    conn.read.feed(&request_bytes);
    let op = match conn.process_connection(true) {
        Ok(Progress::Forwarded(op)) => op,
        other => panic!("not forwarded: {:?}", other),
    };
    assert_eq!(format!("{:?}", op), format!("{:?}", request));
    // Re-encoding matched the client's bytes, and upstream gets exactly those.
    assert_eq!(conn.proxy.flush(), request_bytes);
    assert_eq!(conn.current_phase(), Phase::Running);

    // Upstream ends its side channel and replies.
    let reply_bytes = encoded(&known_path_info());
    conn.proxy.child_out.feed(&word(STDERR_LAST));
    assert_eq!(conn.proxy.read_u64(), Ok(STDERR_LAST));
    conn.write.write_u64(STDERR_LAST);
    conn.proxy.child_out.feed(&reply_bytes);
    assert_eq!(op.proxy_response(&mut conn.proxy.child_out, &mut conn.write), Ok(()));
    assert_eq!(conn.proxy.child_out.available(), 0);

    // Downstream sees upstream's reply byte for byte.
    let mut expected = word(STDERR_LAST);
    expected.extend(reply_bytes);
    assert_eq!(conn.write.flush(), expected);
}

#[test]
fn proxy_passes_upstream_output_on_as_it_comes() {
    let mut conn = proxy_ready(0x0122);
    conn.read.feed(&word(34));
    assert!(matches!(conn.process_connection(true), Ok(Progress::Forwarded(_))));
    assert_eq!(conn.proxy.flush(), word(34));

    let mut upstream = word(0x6f6c6d67);
    upstream.extend(string(b"optimising"));
    upstream.extend(words(&[STDERR_LAST, 1]));
    conn.proxy.child_out.feed(&upstream[..13]);
    assert!(matches!(conn.process_connection(true), Ok(Progress::Waiting)));
    conn.proxy.child_out.feed(&upstream[13..]);
    conn.relay_replies();
    assert_eq!(conn.write.flush(), upstream);
    assert_eq!(conn.proxy.child_out.available(), 0);
}

#[test]
fn proxy_response_waits_for_the_whole_reply() {
    let op = WorkerOp::QueryPathInfo(
        Plain(StorePath::from_bytes(b"/nix/store/xxx-foo".to_vec())),
        Resp::new(),
    );
    let reply = encoded(&known_path_info());
    let mut read = NixStoreRead::new();
    let mut write = NixStoreWrite::new();
    read.feed(&reply[..reply.len() - 1]);
    assert_eq!(op.proxy_response(&mut read, &mut write), Err(Error::UnexpectedEof));
    assert_eq!(write.inner, Vec::<u8>::new());
    assert_eq!(read.available(), reply.len() - 1);
    read.feed(&reply[reply.len() - 1..]);
    assert_eq!(op.proxy_response(&mut read, &mut write), Ok(()));
    assert_eq!(write.inner, reply);
}

#[test]
fn proxy_response_refuses_a_reply_that_does_not_re_encode() {
    let op =
        WorkerOp::IsValidPath(Plain(StorePath::from_bytes(b"/nix/store/x".to_vec())), Resp::new());
    let mut read = NixStoreRead::new();
    let mut write = NixStoreWrite::new();
    read.feed(&word(2));
    assert_eq!(op.proxy_response(&mut read, &mut write), Err(Error::CodecMismatch));
    assert_eq!(write.inner, Vec::<u8>::new());
    assert_eq!(read.available(), 8);

    let mut read = NixStoreRead::new();
    read.feed(&word(1));
    assert_eq!(op.proxy_response(&mut read, &mut write), Ok(()));
    assert_eq!(write.inner, word(1));
}

#[test]
fn proxy_response_of_empty_reply_takes_nothing() {
    let op = WorkerOp::RegisterDrvOutput(
        Plain(nix_remote::Realisation::from_bytes(b"{}".to_vec())),
        Resp::new(),
    );
    let mut read = NixStoreRead::new();
    let mut write = NixStoreWrite::new();
    read.feed(&word(19));
    assert_eq!(op.proxy_response(&mut read, &mut write), Ok(()));
    assert_eq!(write.inner, Vec::<u8>::new());
    assert_eq!(read.available(), 8);
}

#[test]
fn proxy_response_passes_an_archive_on_unread() {
    let op =
        WorkerOp::NarFromPath(Plain(StorePath::from_bytes(b"/nix/store/x".to_vec())), Resp::new());
    let mut read = NixStoreRead::new();
    let mut write = NixStoreWrite::new();
    let archive = b"\x0d\x00\x00\x00\x00\x00\x00\x00nix-archive-1\x00\x00\x00and so on";
    read.feed(archive);
    assert_eq!(op.proxy_response(&mut read, &mut write), Ok(()));
    assert_eq!(write.inner, archive.to_vec());
    assert_eq!(read.available(), 0);
}

#[test]
fn proxy_closes_on_a_request_that_does_not_re_encode() {
    let mut conn = proxy_ready(0x0122);
    // VerifyStore with `true` written as 7.
    conn.read.feed(&words(&[35, 7, 0]));
    assert!(matches!(conn.process_connection(true), Err(Error::CodecMismatch)));
    assert_eq!(conn.current_phase(), Phase::Closed);
    assert_eq!(conn.proxy.flush(), Vec::<u8>::new());
}

#[test]
fn proxy_streams_a_framed_source_through() {
    let mut conn = proxy_ready(0x0122);
    let request = WorkerOp::AddBuildLog(
        WithFramedSource(AddBuildLog {
            path: StorePath::from_bytes(b"/nix/store/xxx-foo.drv".to_vec()),
        }),
        Resp::new(),
    );
    let request_bytes = encoded(&request);
    let mut source = word(5);
    source.extend_from_slice(b"hello");
    source.extend(word(6));
    source.extend_from_slice(b" world");
    source.extend(word(0));

    conn.read.feed(&request_bytes);
    conn.read.feed(&source[..10]);
    assert!(matches!(conn.process_connection(true), Ok(Progress::Forwarded(_))));
    assert!(conn.is_awaiting());
    assert!(matches!(conn.process_connection(true), Ok(Progress::Waiting)));
    conn.read.feed(&source[10..]);
    conn.read.feed(&word(34));
    assert!(matches!(conn.process_connection(true), Ok(Progress::Advanced)));
    assert!(!conn.is_awaiting());

    let mut expected = request_bytes;
    expected.extend(source);
    assert_eq!(conn.proxy.flush(), expected);

    // The request behind the source is next.
    assert!(matches!(
        conn.process_connection(true),
        Ok(Progress::Forwarded(WorkerOp::OptimiseStore(_, _)))
    ));
    assert_eq!(conn.proxy.flush(), word(34));
}

#[test]
fn proxy_ends_when_the_client_goes_away() {
    let mut conn = proxy_ready(0x0122);
    conn.read.close();
    assert!(matches!(conn.process_connection(true), Ok(Progress::Closed)));
    assert_eq!(conn.current_phase(), Phase::Closed);
}

#[test]
fn stream_moves_nothing_for_plain_requests() {
    let op = WorkerOp::OptimiseStore(Plain(()), Resp::new());
    let mut source = FramedSource::new();
    let mut read = NixStoreRead::new();
    let mut write = NixStoreWrite::new();
    read.feed(&word(99));
    assert_eq!(op.stream(&mut source, &mut read, &mut write), Ok(true));
    assert_eq!(read.available(), 8);
    assert_eq!(write.inner, Vec::<u8>::new());
    assert_eq!(source, FramedSource::new());
    assert_eq!(Plain(1u64).stream(&mut source, &mut read, &mut write), Ok(true));
}

#[test]
fn stream_forwards_the_source_of_framed_requests() {
    let op = WorkerOp::AddMultipleToStore(
        WithFramedSource(nix_remote::worker_op::AddMultipleToStore {
            repair: false,
            dont_check_sigs: false,
        }),
        Resp::new(),
    );
    let mut bytes = word(3);
    bytes.extend_from_slice(b"abc");
    bytes.extend(word(0));
    let mut source = FramedSource::new();
    let mut read = NixStoreRead::new();
    let mut write = NixStoreWrite::new();
    read.feed(&bytes[..9]);
    assert_eq!(op.stream(&mut source, &mut read, &mut write), Ok(false));
    read.feed(&bytes[9..]);
    assert_eq!(op.stream(&mut source, &mut read, &mut write), Ok(true));
    assert_eq!(write.inner, bytes);
    read.close();
    let mut again = FramedSource::new();
    assert_eq!(
        WithFramedSource(()).stream(&mut again, &mut read, &mut write),
        Err(Error::TruncatedFramedSource)
    );
}

#[test]
fn nix_proxy_buffers_both_directions() {
    let mut proxy = NixProxy::new();
    proxy.write_u64(WORKER_MAGIC_1);
    proxy.write_u64(7);
    assert_eq!(proxy.flush(), words(&[WORKER_MAGIC_1, 7]));
    assert_eq!(proxy.flush(), Vec::<u8>::new());

    assert_eq!(proxy.read_u64(), Err(Error::UnexpectedEof));
    proxy.child_out.feed(&word(WORKER_MAGIC_2));
    proxy.child_out.feed(&string(b"nix-daemon"));
    assert_eq!(proxy.read_u64(), Ok(WORKER_MAGIC_2));
    assert_eq!(proxy.read_string(), Ok(b"nix-daemon".to_vec()));
    assert_eq!(proxy.read_string(), Err(Error::UnexpectedEof));
}

#[test]
fn upstream_with_wrong_magic_and_nothing_behind_it_is_refused() {
    let mut conn = client_connected(0x0122);
    conn.proxy.child_out.feed(&word(0x6478696e));
    // The daemon's side is still open and its version has not arrived.
    assert!(matches!(
        conn.process_connection(true),
        Err(Error::ProtocolMismatch(0x6478696e))
    ));
    assert_eq!(conn.current_phase(), Phase::Closed);
    // The daemon has been sent the magic number and nothing else.
    assert_eq!(conn.proxy.flush(), word(WORKER_MAGIC_1));
    assert_eq!(conn.proxy.child_out.available(), 8);
    assert_eq!(conn.write.flush(), Vec::<u8>::new());
}

#[test]
fn upstream_with_wrong_magic_that_goes_away_is_protocol_mismatch() {
    let mut conn = client_connected(0x0122);
    conn.proxy.child_out.feed(&word(7));
    conn.proxy.child_out.close();
    assert_eq!(conn.connect_upstream(), Err(Error::ProtocolMismatch(7)));
    assert_eq!(conn.current_phase(), Phase::Closed);
}

#[test]
fn upstream_magic_is_tested_when_it_arrives_after_a_wait() {
    let mut conn = client_connected(0x0122);
    conn.proxy.child_out.feed(&word(0x6478696e)[..5]);
    assert!(matches!(conn.process_connection(true), Ok(Progress::Waiting)));
    assert_eq!(conn.upstream_state(), Upstream::Greeting);
    conn.proxy.child_out.feed(&word(0x6478696e)[5..]);
    assert!(matches!(
        conn.process_connection(true),
        Err(Error::ProtocolMismatch(0x6478696e))
    ));
    assert_eq!(conn.proxy.flush(), word(WORKER_MAGIC_1));
}

#[test]
fn upstream_with_right_magic_waits_for_the_version() {
    let mut conn = client_connected(0x0122);
    conn.proxy.child_out.feed(&word(WORKER_MAGIC_2));
    assert!(matches!(conn.process_connection(true), Ok(Progress::Waiting)));
    assert_eq!(conn.upstream_state(), Upstream::Greeting);
    assert_eq!(conn.current_phase(), Phase::Options);
    assert_eq!(conn.proxy.child_out.available(), 8);
    assert_eq!(conn.proxy.flush(), word(WORKER_MAGIC_1));
    // A wrong version is refused when it comes; the client's version is not sent.
    conn.proxy.child_out.feed(&word(0x0121));
    assert!(matches!(
        conn.process_connection(true),
        Err(Error::ProtocolMismatch(0x0121))
    ));
    assert_eq!(conn.proxy.flush(), Vec::<u8>::new());
    assert_eq!(conn.current_phase(), Phase::Closed);
}

#[test]
fn no_request_is_passed_on_to_a_refused_upstream() {
    let mut conn = client_connected(0x0122);
    conn.read.feed(&word(34));
    conn.proxy.child_out.feed(&word(1));
    assert!(matches!(conn.process_connection(true), Err(Error::ProtocolMismatch(1))));
    assert!(matches!(conn.process_connection(true), Ok(Progress::Closed)));
    assert_eq!(conn.proxy.flush(), word(WORKER_MAGIC_1));
    // The client's request has been neither read nor forwarded.
    assert_eq!(conn.read.available(), 8);
}
