use storaged::{ConfigError, ReaderBuilder, ReaderType, WriterBuilder};

fn reader_with_size(c: u16) -> Result<storaged::Reader, ConfigError> {
    ReaderBuilder::new()
        .file_name("source.bin".to_string())
        .chunk_size(c)
        .reader_type(ReaderType::NoOp)
        .build()
}

fn writer_with_size(c: u16) -> Result<storaged::Writer, ConfigError> {
    WriterBuilder::new().file_name("out.bin".to_string()).chunk_size(c).build()
}

fn writer_with_count(n: usize) -> Result<storaged::Writer, ConfigError> {
    WriterBuilder::new()
        .file_name("out.bin".to_string())
        .chunk_size(64)
        .chunks_per_file(n)
        .build()
}

#[test]
fn reader_chunk_size_bounds() {
    assert_eq!(reader_with_size(15).err(), Some(ConfigError::ChunkSizeOutOfRange));
    assert_eq!(reader_with_size(1025).err(), Some(ConfigError::ChunkSizeOutOfRange));
    assert_eq!(reader_with_size(16).unwrap().chunk_size(), 16);
    assert_eq!(reader_with_size(1024).unwrap().chunk_size(), 1024);
}

#[test]
fn writer_chunk_size_bounds() {
    assert_eq!(writer_with_size(15).err(), Some(ConfigError::ChunkSizeOutOfRange));
    assert_eq!(writer_with_size(1025).err(), Some(ConfigError::ChunkSizeOutOfRange));
    assert_eq!(writer_with_size(16).unwrap().chunk_size(), 16);
    assert_eq!(writer_with_size(1024).unwrap().chunk_size(), 1024);
}

#[test]
fn writer_chunk_count_bounds() {
    assert_eq!(writer_with_count(0).err(), Some(ConfigError::ChunkCountOutOfRange));
    assert_eq!(writer_with_count(257).err(), Some(ConfigError::ChunkCountOutOfRange));
    assert_eq!(writer_with_count(1).unwrap().chunks_per_file(), 1);
    assert_eq!(writer_with_count(256).unwrap().chunks_per_file(), 256);
}

#[test]
fn reader_without_handler() {
    let r = ReaderBuilder::new().file_name("source.bin".to_string()).chunk_size(32).build();
    assert_eq!(r.err(), Some(ConfigError::MissingHandler));
}

#[test]
fn missing_path_wins_over_other_errors() {
    let r = ReaderBuilder::new().chunk_size(3).build();
    assert_eq!(r.err(), Some(ConfigError::MissingPath));
    let r = ReaderBuilder::new().reader_type(ReaderType::NoOp).build();
    assert_eq!(r.err(), Some(ConfigError::MissingPath));
    let w = WriterBuilder::new().chunks_per_file(0).build();
    assert_eq!(w.err(), Some(ConfigError::MissingPath));
    let w = WriterBuilder::new().chunk_size(16).build();
    assert_eq!(w.err(), Some(ConfigError::MissingPath));
}

#[test]
fn empty_path_is_missing() {
    let r = ReaderBuilder::new()
        .file_name(String::new())
        .reader_type(ReaderType::NoOp)
        .build();
    assert_eq!(r.err(), Some(ConfigError::MissingPath));
    let w = WriterBuilder::new().file_name(String::new()).chunk_size(16).build();
    assert_eq!(w.err(), Some(ConfigError::MissingPath));
}

#[test]
fn writer_requires_chunk_size() {
    let w = WriterBuilder::new().file_name("out.bin".to_string()).build();
    assert_eq!(w.err(), Some(ConfigError::MissingChunkSize));
}

#[test]
fn reader_defaults() {
    let r = ReaderBuilder::new()
        .file_name("source.bin".to_string())
        .reader_type(ReaderType::NoOp)
        .build()
        .unwrap();
    assert_eq!(r.chunk_size(), 256);
    assert!(!r.process_async());
    assert_eq!(r.file_name(), "source.bin");
    assert_eq!(r.reader_type(), ReaderType::NoOp);
}

#[test]
fn writer_defaults_and_settings() {
    let w = writer_with_size(128).unwrap();
    assert_eq!(w.chunks_per_file(), 64);
    assert!(!w.process_async());
    assert_eq!(w.file_name(), "out.bin");
    let w = WriterBuilder::new()
        .file_name("b".to_string())
        .chunk_size(16)
        .process_async(true)
        .chunks_per_file(3)
        .build()
        .unwrap();
    assert!(w.process_async());
    assert_eq!(w.chunks_per_file(), 3);
}

#[test]
fn write_larger_than_chunk_is_refused() {
    let w = writer_with_size(16).unwrap();
    assert_eq!(w.check_write(&[7u8; 17]), Err(ConfigError::ChunkTooLarge));
    assert_eq!(w.check_write(&[7u8; 16]), Ok(()));
    assert_eq!(w.check_write(&[7u8; 5]), Ok(()));
    assert_eq!(w.check_write(&[]), Ok(()));
}

#[test]
fn large_source_raises_async_flag() {
    let mut r = reader_with_size(64).unwrap();
    r.note_source_len(2048);
    assert!(!r.process_async());
    r.note_source_len(2049);
    assert!(r.process_async());
    r.note_source_len(10);
    assert!(r.process_async());
}

#[test]
fn range_checks() {
    assert!(!storaged::chunk_size_in_range(15));
    assert!(storaged::chunk_size_in_range(16));
    assert!(storaged::chunk_size_in_range(1024));
    assert!(!storaged::chunk_size_in_range(1025));
    assert!(!storaged::chunks_per_file_in_range(0));
    assert!(storaged::chunks_per_file_in_range(256));
    assert!(!storaged::chunks_per_file_in_range(257));
}
