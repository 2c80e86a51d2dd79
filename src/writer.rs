use vstd::prelude::*;

use crate::error::ConfigError;
use crate::limits::{
    chunk_size_in_range, chunks_per_file_in_range, valid_chunk_size, valid_chunks_per_file,
};
use crate::reader::{opt_str_view, path_present};

verus! {

/// The chunks-per-file count of a writer whose builder was given none.
pub const DEFAULT_CHUNKS_PER_FILE: usize = 64;

/// A writer's configuration: where it writes, and how many bytes one write
/// may carry. The caller that holds the open destination runs every write
/// past `check_write` first.
pub struct Writer {
    file_name: String,
    chunk_size: u16,
    process_async: bool,
    chunks_per_file: usize,
}

impl Writer {
    pub closed spec fn spec_file_name(&self) -> Seq<char> {
        self.file_name@
    }

    pub closed spec fn spec_chunk_size(&self) -> u16 {
        self.chunk_size
    }

    pub closed spec fn spec_process_async(&self) -> bool {
        self.process_async
    }

    pub closed spec fn spec_chunks_per_file(&self) -> usize {
        self.chunks_per_file
    }

    /// Every writer that a builder hands out has its sizes in range.
    pub open spec fn wf(&self) -> bool {
        &&& self.spec_file_name().len() > 0
        &&& valid_chunk_size(self.spec_chunk_size() as int)
        &&& valid_chunks_per_file(self.spec_chunks_per_file() as int)
    }

    pub fn file_name(&self) -> (r: &str)
        ensures
            r@ == self.spec_file_name(),
    {
        self.file_name.as_str()
    }

    pub fn chunk_size(&self) -> (r: u16)
        ensures
            r == self.spec_chunk_size(),
    {
        self.chunk_size
    }

    pub fn process_async(&self) -> (r: bool)
        ensures
            r == self.spec_process_async(),
    {
        self.process_async
    }

    pub fn chunks_per_file(&self) -> (r: usize)
        ensures
            r == self.spec_chunks_per_file(),
    {
        self.chunks_per_file
    }

    /// Decides whether `bytes` may be written as one chunk: a slice longer
    /// than the chunk size is refused, and nothing of it is to be written.
    /// Shorter slices are accepted at any point.
    pub fn check_write(&self, bytes: &[u8]) -> (r: Result<(), ConfigError>)
        ensures
            r is Ok <==> bytes@.len() <= self.spec_chunk_size(),
            r matches Err(e) ==> e == ConfigError::ChunkTooLarge,
    {
        if bytes.len() > self.chunk_size as usize {
            Err(ConfigError::ChunkTooLarge)
        } else {
            Ok(())
        }
    }
}

/// Collects the configuration of a writer; `build` checks it.
pub struct WriterBuilder {
    file_name: Option<String>,
    chunk_size: Option<u16>,
    process_async: Option<bool>,
    chunks_per_file: Option<usize>,
}

impl WriterBuilder {
    pub closed spec fn spec_file_name(&self) -> Option<Seq<char>> {
        opt_str_view(self.file_name)
    }

    pub closed spec fn spec_chunk_size(&self) -> Option<u16> {
        self.chunk_size
    }

    pub closed spec fn spec_process_async(&self) -> Option<bool> {
        self.process_async
    }

    pub closed spec fn spec_chunks_per_file(&self) -> Option<usize> {
        self.chunks_per_file
    }

    /// The chunks-per-file count is absent or in range.
    pub open spec fn count_ok(&self) -> bool {
        self.spec_chunks_per_file() is None || valid_chunks_per_file(
            self.spec_chunks_per_file()->0 as int,
        )
    }

    /// What a successful `build` hands out: the builder's path and chunk
    /// size, the flag and the count as given or else their defaults.
    pub open spec fn built(&self, writer: Writer) -> bool {
        &&& writer.wf()
        &&& writer.spec_file_name() == self.spec_file_name()->0
        &&& writer.spec_chunk_size() == self.spec_chunk_size()->0
        &&& writer.spec_process_async() == match self.spec_process_async() {
            Some(b) => b,
            None => false,
        }
        &&& writer.spec_chunks_per_file() == match self.spec_chunks_per_file() {
            Some(n) => n,
            None => DEFAULT_CHUNKS_PER_FILE,
        }
    }

    /// A builder with nothing set.
    pub fn new() -> (r: Self)
        ensures
            r.spec_file_name() is None,
            r.spec_chunk_size() is None,
            r.spec_process_async() is None,
            r.spec_chunks_per_file() is None,
    {
        WriterBuilder { file_name: None, chunk_size: None, process_async: None, chunks_per_file: None }
    }

    pub fn file_name(self, file_name: String) -> (r: Self)
        ensures
            r.spec_file_name() == Some(file_name@),
            r.spec_chunk_size() == self.spec_chunk_size(),
            r.spec_process_async() == self.spec_process_async(),
            r.spec_chunks_per_file() == self.spec_chunks_per_file(),
    {
        WriterBuilder { file_name: Some(file_name), ..self }
    }

    pub fn chunk_size(self, chunk_size: u16) -> (r: Self)
        ensures
            r.spec_file_name() == self.spec_file_name(),
            r.spec_chunk_size() == Some(chunk_size),
            r.spec_process_async() == self.spec_process_async(),
            r.spec_chunks_per_file() == self.spec_chunks_per_file(),
    {
        WriterBuilder { chunk_size: Some(chunk_size), ..self }
    }

    pub fn process_async(self, process_async: bool) -> (r: Self)
        ensures
            r.spec_file_name() == self.spec_file_name(),
            r.spec_chunk_size() == self.spec_chunk_size(),
            r.spec_process_async() == Some(process_async),
            r.spec_chunks_per_file() == self.spec_chunks_per_file(),
    {
        WriterBuilder { process_async: Some(process_async), ..self }
    }

    pub fn chunks_per_file(self, chunks_per_file: usize) -> (r: Self)
        ensures
            r.spec_file_name() == self.spec_file_name(),
            r.spec_chunk_size() == self.spec_chunk_size(),
            r.spec_process_async() == self.spec_process_async(),
            r.spec_chunks_per_file() == Some(chunks_per_file),
    {
        WriterBuilder { chunks_per_file: Some(chunks_per_file), ..self }
    }

    /// Checks the configuration, in this order: a non-empty path, a chunk
    /// size (required), the chunk size in range, the chunks-per-file count
    /// in range if one was given. Creating the destination file is left to
    /// the caller, which does so only once this has succeeded.
    pub fn build(self) -> (r: Result<Writer, ConfigError>)
        ensures
            !path_present(self.spec_file_name()) ==> r == Err::<Writer, ConfigError>(
                ConfigError::MissingPath,
            ),
            path_present(self.spec_file_name()) && self.spec_chunk_size() is None ==> r
                == Err::<Writer, ConfigError>(ConfigError::MissingChunkSize),
            path_present(self.spec_file_name()) && self.spec_chunk_size() is Some
                && !valid_chunk_size(self.spec_chunk_size()->0 as int) ==> r == Err::<
                Writer,
                ConfigError,
            >(ConfigError::ChunkSizeOutOfRange),
            path_present(self.spec_file_name()) && self.spec_chunk_size() is Some
                && valid_chunk_size(self.spec_chunk_size()->0 as int) && !self.count_ok() ==> r
                == Err::<Writer, ConfigError>(ConfigError::ChunkCountOutOfRange),
            path_present(self.spec_file_name()) && self.spec_chunk_size() is Some
                && valid_chunk_size(self.spec_chunk_size()->0 as int) && self.count_ok() ==> r is Ok
                && self.built(r->Ok_0),
    {
        let file_name = match self.file_name {
            Some(f) => f,
            None => return Err(ConfigError::MissingPath),
        };
        if file_name.as_str().is_empty() {
            return Err(ConfigError::MissingPath);
        }
        let chunk_size = match self.chunk_size {
            Some(c) => c,
            None => return Err(ConfigError::MissingChunkSize),
        };
        if !chunk_size_in_range(chunk_size) {
            return Err(ConfigError::ChunkSizeOutOfRange);
        }
        let chunks_per_file = match self.chunks_per_file {
            Some(n) => {
                if !chunks_per_file_in_range(n) {
                    return Err(ConfigError::ChunkCountOutOfRange);
                }
                n
            },
            None => DEFAULT_CHUNKS_PER_FILE,
        };
        let process_async = match self.process_async {
            Some(b) => b,
            None => false,
        };
        Ok(Writer { file_name, chunk_size, process_async, chunks_per_file })
    }
}

} // verus!
