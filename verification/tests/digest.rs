use staticsync::digest::{digest, DigestError, Digester, ReadStep};

fn hex_of(content: &[u8], buffer_size: usize) -> String {
    digest(content, buffer_size).unwrap().as_str().to_string()
}

fn pattern(len: usize) -> Vec<u8> {
    (0..len).map(|i| (i * 31 % 251) as u8).collect()
}

#[test]
fn empty_content_has_the_digest_of_zero_bytes() {
    assert_eq!(hex_of(b"", 64), "da39a3ee5e6b4b0d3255bfef95601890afd80709");
    assert_eq!(hex_of(b"", 1), "da39a3ee5e6b4b0d3255bfef95601890afd80709");
}

#[test]
fn known_digests() {
    assert_eq!(hex_of(b"abc", 8096), "a9993e364706816aba3e25717850c26c9cd0d89d");
    assert_eq!(hex_of(b"hello world", 8096), "2aae6c35c94fcfb415dbe95f408b9ce91ee846ed");
    assert_eq!(
        hex_of(b"abcdbcdecdefdefgefghfghighijhijkijkljklmklmnlmnomnopnopq", 8096),
        "84983e441c3bd26ebaae4aa1f95129e5e54670f1"
    );
}

#[test]
fn digest_does_not_depend_on_the_buffer_size() {
    let content = pattern(10_000);
    let small = hex_of(&content, 64);
    let large = hex_of(&content, 1024 * 1024);
    assert_eq!(small, large);
    for buffer_size in [1usize, 2, 3, 63, 64, 65, 4096, 9_999, 10_000, 10_001] {
        assert_eq!(hex_of(&content, buffer_size), small);
    }
}

#[test]
fn digest_tells_content_apart() {
    assert_ne!(hex_of(b"hello", 64), hex_of(b"world", 64));
    assert_ne!(hex_of(b"hello", 64), hex_of(b"hello ", 64));
    let a = digest(b"hello", 64).unwrap();
    let b = digest(b"hello", 3).unwrap();
    let c = digest(b"world", 64).unwrap();
    assert!(a.same_as(&b));
    assert!(!a.same_as(&c));
    assert_eq!(a, b);
    assert_ne!(a, c);
}

#[test]
fn a_buffer_of_no_bytes_is_refused() {
    assert_eq!(digest(b"hello", 0), Err(DigestError::EmptyBuffer));
    assert_eq!(digest(b"", 0), Err(DigestError::EmptyBuffer));
    assert!(matches!(Digester::new(0), Err(DigestError::EmptyBuffer)));
}

#[test]
fn digester_takes_chunks_of_any_size() {
    let mut digester = Digester::new(4).ok().unwrap();
    assert_eq!(digester.buffer_size(), 4);
    assert!(digester.absorb(b"hel"));
    assert!(digester.absorb(b""));
    assert!(digester.absorb(b"lo wor"));
    assert!(digester.absorb(b"ld"));
    assert_eq!(digester.finish().as_str(), "2aae6c35c94fcfb415dbe95f408b9ce91ee846ed");
}

#[test]
fn a_read_of_nothing_ends_the_content() {
    let digester = Digester::new(8).ok().unwrap();
    let digester = match digester.on_read(b"abc") {
        ReadStep::More(next) => next,
        _ => panic!("a chunk with bytes is taken"),
    };
    match digester.on_read(b"") {
        ReadStep::Done(value) => {
            assert_eq!(value.as_str(), "a9993e364706816aba3e25717850c26c9cd0d89d")
        }
        _ => panic!("a read of nothing ends the content"),
    }
}

#[test]
fn a_short_chunk_does_not_end_the_content() {
    let mut digester = Digester::new(8).ok().unwrap();
    for chunk in [&b"a"[..], &b"b"[..], &b"c"[..]] {
        digester = match digester.on_read(chunk) {
            ReadStep::More(next) => next,
            _ => panic!("a short chunk is taken and the reading goes on"),
        };
    }
    assert_eq!(digester.finish().as_str(), "a9993e364706816aba3e25717850c26c9cd0d89d");
}
