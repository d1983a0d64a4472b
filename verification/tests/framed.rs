use nix_remote::{Error, FramedSource, NixStoreRead, NixStoreWrite};

fn word(n: u64) -> Vec<u8> {
    n.to_le_bytes().to_vec()
}

fn framed(chunks: &[&[u8]]) -> Vec<u8> {
    let mut bytes = Vec::new();
    for chunk in chunks {
        bytes.extend(word(chunk.len() as u64));
        bytes.extend_from_slice(chunk);
    }
    bytes.extend(word(0));
    bytes
}

fn read_all(input: &[u8]) -> (Vec<u8>, usize, bool) {
    let mut read = NixStoreRead::new();
    read.feed(input);
    let mut source = FramedSource::new();
    let mut sink = Vec::new();
    let done = source.read(&mut read, &mut sink).unwrap();
    (sink, input.len() - read.available(), done)
}

#[test]
fn framed_source_yields_the_concatenation() {
    let partitions: Vec<Vec<&[u8]>> = vec![
        vec![b"abcd", b"efg"],
        vec![b"abcdefg"],
        vec![b"a", b"b", b"c", b"d", b"e", b"f", b"g"],
        vec![b"abcdef", b"g"],
        vec![b"ab", b"cde", b"fg"],
    ];
    for chunks in partitions {
        let mut input = framed(&chunks);
        let framed_len = input.len();
        input.extend_from_slice(b"what follows");
        let (payload, consumed, done) = read_all(&input);
        assert_eq!(payload, b"abcdefg".to_vec());
        assert_eq!(consumed, framed_len);
        assert!(done);
    }
}

#[test]
fn framed_source_has_no_padding() {
    let bytes = framed(&[b"abcd", b"efg"]);
    let mut expected = word(4);
    expected.extend_from_slice(b"abcd");
    expected.extend(word(3));
    expected.extend_from_slice(b"efg");
    expected.extend(word(0));
    assert_eq!(bytes, expected);
    assert_eq!(bytes.len(), 8 + 4 + 8 + 3 + 8);
}

#[test]
fn empty_framed_source_is_one_zero_word() {
    let (payload, consumed, done) = read_all(&word(0));
    assert_eq!(payload, Vec::<u8>::new());
    assert_eq!(consumed, 8);
    assert!(done);
}

#[test]
fn zero_length_chunk_ends_the_source() {
    // An empty chunk in the middle is the terminator: what follows is not payload.
    let input = framed(&[b"ab", b"", b"cd"]);
    let (payload, consumed, done) = read_all(&input);
    assert_eq!(payload, b"ab".to_vec());
    assert_eq!(consumed, 8 + 2 + 8);
    assert!(done);
}

#[test]
fn framed_source_resumes_between_arrivals() {
    let input = framed(&[b"abcd", b"efg"]);
    for cut in 0..=input.len() {
        let mut read = NixStoreRead::new();
        let mut source = FramedSource::new();
        let mut sink = Vec::new();
        read.feed(&input[..cut]);
        let first = source.read(&mut read, &mut sink).unwrap();
        assert_eq!(first, cut == input.len());
        read.feed(&input[cut..]);
        assert_eq!(source.read(&mut read, &mut sink), Ok(true));
        assert!(source.is_done());
        assert_eq!(sink, b"abcdefg".to_vec());
        assert_eq!(read.available(), 0);
    }
}

#[test]
fn framed_source_state_tracks_the_open_chunk() {
    let mut read = NixStoreRead::new();
    let mut source = FramedSource::new();
    let mut sink = Vec::new();
    read.feed(&word(10));
    read.feed(b"abc");
    assert_eq!(source.read(&mut read, &mut sink), Ok(false));
    assert_eq!(source, FramedSource { left: 7, done: false });
    assert_eq!(sink, b"abc".to_vec());
    read.feed(b"defghij");
    assert_eq!(source.read(&mut read, &mut sink), Ok(false));
    assert_eq!(source, FramedSource { left: 0, done: false });
    read.feed(&word(0));
    assert_eq!(source.read(&mut read, &mut sink), Ok(true));
    assert_eq!(source, FramedSource { left: 0, done: true });
    assert_eq!(sink, b"abcdefghij".to_vec());
}

#[test]
fn framed_source_without_terminator_is_truncated() {
    let input = framed(&[b"abcd", b"efg"]);
    for cut in 0..input.len() {
        let mut read = NixStoreRead::new();
        read.feed(&input[..cut]);
        read.close();
        let mut source = FramedSource::new();
        let mut sink = Vec::new();
        assert_eq!(source.read(&mut read, &mut sink), Err(Error::TruncatedFramedSource));
        assert!(!source.is_done());
    }
    let mut read = NixStoreRead::new();
    read.feed(&input);
    read.close();
    let mut source = FramedSource::new();
    let mut sink = Vec::new();
    assert_eq!(source.read(&mut read, &mut sink), Ok(true));
}

#[test]
fn finished_source_takes_nothing_more() {
    let mut read = NixStoreRead::new();
    read.feed(&word(0));
    read.feed(&word(5));
    let mut source = FramedSource::new();
    let mut sink = Vec::new();
    assert_eq!(source.read(&mut read, &mut sink), Ok(true));
    assert_eq!(source.read(&mut read, &mut sink), Ok(true));
    assert_eq!(read.available(), 8);
    assert_eq!(sink, Vec::<u8>::new());
}

#[test]
fn forward_passes_the_source_on_verbatim() {
    let mut input = framed(&[b"abcd", b"efg"]);
    let framed_len = input.len();
    input.extend(word(1));
    for cut in [0, 3, 8, 10, 12, 20, 23, framed_len - 1, framed_len, input.len()] {
        let mut read = NixStoreRead::new();
        let mut write = NixStoreWrite::new();
        let mut source = FramedSource::new();
        read.feed(&input[..cut]);
        let first = source.forward(&mut read, &mut write).unwrap();
        assert_eq!(first, cut >= framed_len);
        read.feed(&input[cut..]);
        assert_eq!(source.forward(&mut read, &mut write), Ok(true));
        assert_eq!(write.inner, input[..framed_len].to_vec());
        assert_eq!(read.available(), 8);
    }
}

#[test]
fn large_chunk_is_streamed_in_windows() {
    let payload: Vec<u8> = (0..200_000u32).map(|i| (i % 251) as u8).collect();
    let mut read = NixStoreRead::new();
    let mut source = FramedSource::new();
    let mut sink = Vec::new();
    read.feed(&word(payload.len() as u64));
    for window in payload.chunks(4096) {
        read.feed(window);
        assert_eq!(source.read(&mut read, &mut sink), Ok(false));
        read.compact();
        assert_eq!(read.available(), 0);
    }
    read.feed(&word(0));
    assert_eq!(source.read(&mut read, &mut sink), Ok(true));
    assert_eq!(sink, payload);
}
