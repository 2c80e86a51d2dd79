use storaged::{
    bytes_to_str, split_into_chunks, ChunkReader, ChunkReaderHandler, Error, IoErrorKind,
    NoOpHandler, ReadSession, ReadStep,
};

fn ramp(n: usize) -> Vec<u8> {
    (0..n).map(|i| (i % 251) as u8).collect()
}

#[test]
fn chunks_cover_source_with_remainder_last() {
    for &c in &[16u16, 17, 100, 1024] {
        for &n in &[0usize, 1, 15, 16, 17, 100, 1024, 1025, 3000] {
            let src = ramp(n);
            let chunks = split_into_chunks(&src, c);
            let joined: Vec<u8> = chunks.concat();
            assert_eq!(joined, src);
            let c = c as usize;
            assert_eq!(chunks.len(), (n + c - 1) / c);
            for ch in chunks.iter().take(chunks.len().saturating_sub(1)) {
                assert_eq!(ch.len(), c);
            }
            if n > 0 {
                let expect = if n % c == 0 { c } else { n % c };
                assert_eq!(chunks.last().unwrap().len(), expect);
            }
        }
    }
}

#[test]
fn chunk_split_example() {
    let src = vec![0x41u8; 50];
    let chunks = split_into_chunks(&src, 16);
    let lens: Vec<usize> = chunks.iter().map(|c| c.len()).collect();
    assert_eq!(lens, vec![16, 16, 16, 2]);
}

#[test]
fn empty_source_has_no_chunks() {
    assert!(split_into_chunks(&[], 16).is_empty());
}

#[test]
fn session_classifies_reads() {
    let mut s = ReadSession::new(16);
    assert_eq!(s.step(16), ReadStep::Full);
    assert!(!s.is_finished());
    assert_eq!(s.step(5), ReadStep::Partial(5));
    assert!(s.is_finished());
    assert_eq!(s.bytes_read(), 21);

    let mut s = ReadSession::new(32);
    assert_eq!(s.chunk_size(), 32);
    assert_eq!(s.step(32), ReadStep::Full);
    assert_eq!(s.step(0), ReadStep::End);
    assert!(s.is_finished());
    assert_eq!(s.bytes_read(), 32);
}

#[test]
fn decodes_valid_utf8() {
    assert_eq!(bytes_to_str(b"hello").unwrap(), "hello");
    assert_eq!(bytes_to_str(&[0xc3, 0xa9]).unwrap(), "\u{e9}");
    assert_eq!(bytes_to_str(&[]).unwrap(), "");
}

#[test]
fn rejects_invalid_utf8() {
    assert_eq!(bytes_to_str(&[0xff, 0x41]), Err(Error::Io(IoErrorKind::InvalidData)));
}

#[test]
fn no_op_handler_accepts_every_chunk() {
    let h = NoOpHandler;
    for bytes in [vec![], vec![0u8], vec![0xffu8; 1024], ramp(300)] {
        assert_eq!(ChunkReader::handle(&h, &bytes), Ok(()));
        assert_eq!(ChunkReaderHandler::handle(&h, &bytes), Ok(()));
    }
}

#[test]
fn no_op_reader_handles_every_chunk() {
    let r = storaged::ReaderBuilder::new()
        .file_name("source.bin".to_string())
        .chunk_size(16)
        .reader_type(storaged::ReaderType::NoOp)
        .build()
        .unwrap();
    assert_eq!(r.handle_chunk(&[]), Ok(()));
    assert_eq!(r.handle_chunk(&[0xffu8; 16]), Ok(()));
}
