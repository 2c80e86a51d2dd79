use vstd::prelude::*;

verus! {

/// A configuration or usage error: always detected before any byte of a
/// file is touched.
#[derive(Debug, Clone, Copy, PartialEq, Eq, Structural)]
pub enum ConfigError {
    /// No path was given, or the path is empty.
    MissingPath,
    /// A writer was configured without a chunk size.
    MissingChunkSize,
    /// The chunk size lies outside `MIN_CHUNK_SIZE..=MAX_CHUNK_SIZE`.
    ChunkSizeOutOfRange,
    /// The chunks-per-file count lies outside
    /// `MIN_CHUNKS_PER_FILE..=MAX_CHUNKS_PER_FILE`.
    ChunkCountOutOfRange,
    /// A reader was configured without a handler kind.
    MissingHandler,
    /// A write was handed more bytes than the chunk size.
    ChunkTooLarge,
}

/// The kind of a failed open, read or write.
#[derive(Debug, Clone, Copy, PartialEq, Eq, Structural)]
pub enum IoErrorKind {
    NotFound,
    PermissionDenied,
    InvalidData,
    WriteZero,
    Other,
}

/// Every failure of the library's operations.
#[derive(Debug, Clone, Copy, PartialEq, Eq, Structural)]
pub enum Error {
    Config(ConfigError),
    Io(IoErrorKind),
}

} // verus!
