use packetcodec::chunk::Chunk;
use packetcodec::tools::{
    bytes_trim_end_matches, bytes_trim_end_matches_inplace, cow_bytes_trim_end_matches,
    find_subsequence, BufferedStreamReader, StreamReadError, StreamReadOwnedError,
};

#[test]
fn find_subsequence_earliest_match() {
    assert_eq!(find_subsequence(b"abcab", b"ab"), Some(0));
    assert_eq!(find_subsequence(b"xxabyy", b"ab"), Some(2));
    assert_eq!(find_subsequence(b"xyz", b"ab"), None);
    assert_eq!(find_subsequence(b"", b"ab"), None);
    assert_eq!(find_subsequence(b"a", b"ab"), None);
}

#[test]
fn trim_end_strips_repeated_separators() {
    assert_eq!(bytes_trim_end_matches(b"line\n\n\n", b"\n"), b"line");
    assert_eq!(bytes_trim_end_matches(b"line", b"\n"), b"line");
    assert_eq!(bytes_trim_end_matches(b"\n\n", b"\n"), b"");
    assert_eq!(bytes_trim_end_matches(b"a\r\n", b"\r\n"), b"a");

    let mut v = b"data\r\n\r\n".to_vec();
    bytes_trim_end_matches_inplace(&mut v, b"\r\n");
    assert_eq!(v, b"data".to_vec());

    let trimmed = cow_bytes_trim_end_matches(Chunk::Owned(b"x\n".to_vec()), b"\n");
    assert!(matches!(trimmed, Chunk::Owned(_)));
    assert_eq!(trimmed.into_vec(), b"x".to_vec());

    let trimmed = cow_bytes_trim_end_matches(Chunk::Borrowed(b"y\n\n"), b"\n");
    assert!(matches!(trimmed, Chunk::Borrowed(_)));
    assert_eq!(trimmed.into_vec(), b"y".to_vec());
}

#[test]
fn read_from_borrows_without_backlog() {
    let mut reader = BufferedStreamReader::new();

    match reader.read_from(b"abcdef", 4) {
        Ok(chunk) => {
            assert!(matches!(chunk, Chunk::Borrowed(_)));
            assert_eq!(chunk.into_vec(), b"abcd".to_vec());
        }
        Err(_) => panic!("enough bytes were supplied"),
    }
    assert_eq!(reader.read_all(), b"ef".to_vec());
}

#[test]
fn read_accumulates_until_satisfied() {
    let mut reader = BufferedStreamReader::new();

    reader.fill_buf(b"ab");
    assert!(matches!(reader.read(4), Err(StreamReadOwnedError::InputNeeded)));
    reader.fill_buf(b"cde");
    assert_eq!(reader.read(4).unwrap(), b"abcd".to_vec());
    assert_eq!(reader.read_all(), b"e".to_vec());
}

#[test]
fn read_exactly_from_needs_every_byte() {
    let mut reader = BufferedStreamReader::new();

    assert!(matches!(reader.read_exactly_from(b"ab", 3), Err(StreamReadError::InputNeeded)));
    let chunk = reader.read_exactly_from(b"c", 3).unwrap();
    assert_eq!(chunk.into_vec(), b"abc".to_vec());
    assert!(matches!(reader.read_exactly(1), Err(StreamReadOwnedError::InputNeeded)));
}

#[test]
fn read_until_from_finds_separator_across_calls() {
    let mut reader = BufferedStreamReader::new();

    assert!(matches!(
        reader.read_until_from(b"head\r", b"\r\n", 64, false),
        Err(StreamReadError::InputNeeded)
    ));
    let chunk = reader.read_until_from(b"\ntail", b"\r\n", 64, false).unwrap();
    assert!(matches!(chunk, Chunk::Owned(_)));
    assert_eq!(chunk.into_vec(), b"head".to_vec());
    assert_eq!(reader.read_all(), b"tail".to_vec());
}

#[test]
fn read_until_keep_end_retains_separator() {
    let mut reader = BufferedStreamReader::new();

    let chunk = reader.read_until_from(b"one\ntwo", b"\n", 64, true).unwrap();
    assert!(matches!(chunk, Chunk::Borrowed(_)));
    assert_eq!(chunk.into_vec(), b"one\n".to_vec());
    assert_eq!(reader.read_all(), b"two".to_vec());
}

#[test]
fn read_until_limit_overrun() {
    let mut reader = BufferedStreamReader::new();

    match reader.read_until_from(b"abcdefgh", b"\n", 5, false) {
        Err(StreamReadError::Error(e, remainder)) => {
            assert_eq!(e.consumed(), 8);
            assert!(remainder.is_empty());
        }
        _ => panic!("expected a limit overrun"),
    }
    assert_eq!(reader.read_all(), b"abcdefgh".to_vec());
}

#[test]
fn read_until_owned_variant() {
    let mut reader = BufferedStreamReader::new();

    reader.fill_buf(b"one\nrest");
    assert_eq!(reader.read_until(b"\n", 64, false).unwrap(), b"one".to_vec());
    assert_eq!(reader.read_all(), b"rest".to_vec());
}

#[test]
fn read_from_returns_owned_with_backlog() {
    let mut reader = BufferedStreamReader::new();

    reader.fill_buf(b"ab");
    match reader.read_from(b"cd", 3) {
        Ok(chunk) => {
            assert!(matches!(chunk, Chunk::Owned(_)));
            assert_eq!(chunk.into_vec(), b"abc".to_vec());
        }
        Err(_) => panic!("enough bytes were supplied"),
    }
    assert_eq!(reader.read_all(), b"d".to_vec());
}
