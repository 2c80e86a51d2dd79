//! Chunked, bounded reading and writing of file data, and the segmentation
//! of one source stream into capacity-bounded block files.
//!
//! The library holds the configuration rules, the per-read decisions of a
//! chunked reader, the size rule of a chunked writer and the rotation policy
//! of the segmenter. Opening files and moving bytes is left to the caller,
//! which hands the library plain values (byte counts, byte slices).

mod chunks;
mod error;
mod limits;
mod model;
mod reader;
mod segmenter;
mod utils;
mod writer;

pub use chunks::{ChunkReader, NoOpHandler};
pub use error::{ConfigError, Error, IoErrorKind};
pub use limits::{
    chunk_size_in_range, chunks_per_file_in_range, valid_chunk_size, valid_chunks_per_file,
    MAX_CHUNKS_PER_FILE, MAX_CHUNK_SIZE, MIN_CHUNKS_PER_FILE, MIN_CHUNK_SIZE,
};
pub use model::{
    chunks_of, last_piece_len, lemma_chunks_of_flatten, lemma_chunks_of_index,
    lemma_piece_count_aligned, lemma_piece_count_between, lemma_piece_lengths, lemma_read_chunks,
    lemma_segment_exact_multiple, lemma_segment_one_over, piece_count, piece_end,
};
pub use reader::{
    opt_str_view, path_present, split_into_chunks, ChunkReaderHandler, ReadSession, ReadStep,
    Reader, ReaderBuilder, ReaderType, ASYNC_THRESHOLD_BYTES, DEFAULT_READER_CHUNK_SIZE,
};
pub use segmenter::{block_file_name, block_file_path, decimal, digit_char, segment, Segmenter};
pub use utils::bytes_to_str;
pub use writer::{Writer, WriterBuilder, DEFAULT_CHUNKS_PER_FILE};
