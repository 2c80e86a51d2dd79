use vstd::prelude::*;
use vstd::slice::{slice_subrange, slice_to_vec};

use crate::chunks::{ChunkReader, NoOpHandler};
use crate::error::{ConfigError, Error};
use crate::limits::{chunk_size_in_range, valid_chunk_size};
use crate::model::{
    chunks_of, lemma_chunks_of_index, lemma_piece_count_aligned, lemma_piece_count_between,
    piece_count, piece_end,
};

verus! {

/// The chunk size of a reader whose builder was given none.
pub const DEFAULT_READER_CHUNK_SIZE: u16 = 256;

/// Sources larger than this many bytes should be handled off the caller's
/// path: past it a reader raises its advisory `process_async` flag.
pub const ASYNC_THRESHOLD_BYTES: u64 = 2048;

/// The callback that a reader runs during read operations, once per chunk.
pub trait ChunkReaderHandler {
    /// Whether this handler accepts the chunk `bytes`.
    spec fn accepts_chunk(&self, bytes: Seq<u8>) -> bool;

    fn handle(&self, bytes: &[u8]) -> (r: Result<(), Error>)
        ensures
            r is Ok <==> self.accepts_chunk(bytes@),
    ;
}

impl ChunkReaderHandler for NoOpHandler {
    /// Every chunk is accepted.
    open spec fn accepts_chunk(&self, bytes: Seq<u8>) -> bool {
        true
    }

    fn handle(&self, bytes: &[u8]) -> (r: Result<(), Error>) {
        ChunkReader::handle(self, bytes)
    }
}

/// The handler kinds a reader can be configured with.
#[derive(Debug, Clone, Copy, PartialEq, Eq, Structural)]
pub enum ReaderType {
    /// Accept every chunk and do nothing with it.
    NoOp,
}

/// The view of an optional string: the characters it holds, if any.
pub open spec fn opt_str_view(s: Option<String>) -> Option<Seq<char>> {
    match s {
        Some(t) => Some(t@),
        None => None,
    }
}

/// Whether an optional path is present and non-empty.
pub open spec fn path_present(p: Option<Seq<char>>) -> bool {
    p is Some && p->0.len() > 0
}

/// A reader: streams one source file through a buffer of `chunk_size`
/// bytes and hands each chunk to the handler that its kind selects.
pub struct Reader {
    file_name: String,
    chunk_size: u16,
    process_async: bool,
    reader_type: ReaderType,
}

impl Reader {
    pub closed spec fn spec_file_name(&self) -> Seq<char> {
        self.file_name@
    }

    pub closed spec fn spec_chunk_size(&self) -> u16 {
        self.chunk_size
    }

    pub closed spec fn spec_process_async(&self) -> bool {
        self.process_async
    }

    pub closed spec fn spec_reader_type(&self) -> ReaderType {
        self.reader_type
    }

    /// Every reader that a builder hands out has an accepted chunk size.
    pub open spec fn wf(&self) -> bool {
        valid_chunk_size(self.spec_chunk_size() as int) && self.spec_file_name().len() > 0
    }

    pub fn file_name(&self) -> (r: &str)
        ensures
            r@ == self.spec_file_name(),
    {
        self.file_name.as_str()
    }

    pub fn chunk_size(&self) -> (r: u16)
        ensures
            r == self.spec_chunk_size(),
    {
        self.chunk_size
    }

    pub fn process_async(&self) -> (r: bool)
        ensures
            r == self.spec_process_async(),
    {
        self.process_async
    }

    pub fn reader_type(&self) -> (r: ReaderType)
        ensures
            r == self.spec_reader_type(),
    {
        self.reader_type
    }

    /// Records the size of the source: a source above the threshold raises
    /// the advisory flag, which then stays raised.
    pub fn note_source_len(&mut self, len: u64)
        ensures
            final(self).spec_process_async() == (old(self).spec_process_async() || len
                > ASYNC_THRESHOLD_BYTES),
            final(self).spec_file_name() == old(self).spec_file_name(),
            final(self).spec_chunk_size() == old(self).spec_chunk_size(),
            final(self).spec_reader_type() == old(self).spec_reader_type(),
    {
        if len > ASYNC_THRESHOLD_BYTES {
            self.process_async = true;
        }
    }

    /// Starts one pass over the source: nothing read yet.
    pub fn session(&self) -> (r: ReadSession)
        requires
            self.wf(),
        ensures
            r.spec_chunk_size() == self.spec_chunk_size() as nat,
            r.spec_bytes_read() == 0,
            !r.spec_finished(),
            r.wf(),
    {
        ReadSession { chunk_size: self.chunk_size as usize, bytes_read: 0, finished: false }
    }

    /// Runs the handler that this reader's kind selects on one chunk.
    /// The no-op kind accepts every chunk.
    pub fn handle_chunk(&self, bytes: &[u8]) -> (r: Result<(), Error>)
        ensures
            self.spec_reader_type() == ReaderType::NoOp ==> r is Ok,
    {
        match self.reader_type {
            ReaderType::NoOp => ChunkReaderHandler::handle(&NoOpHandler, bytes),
        }
    }
}

/// What a reader does with the outcome of one read into its buffer.
#[derive(Debug, Clone, Copy, PartialEq, Eq, Structural)]
pub enum ReadStep {
    /// The buffer was filled: hand all of it to the handler, then read on.
    Full,
    /// Fewer bytes than the buffer holds, but some: hand exactly these to
    /// the handler, then stop reading.
    Partial(usize),
    /// Nothing was read: the source is exhausted, the handler is not run.
    End,
}

/// The state of one pass of a reader over its source.
pub struct ReadSession {
    chunk_size: usize,
    bytes_read: usize,
    finished: bool,
}

impl ReadSession {
    pub closed spec fn spec_chunk_size(&self) -> nat {
        self.chunk_size as nat
    }

    pub closed spec fn spec_bytes_read(&self) -> nat {
        self.bytes_read as nat
    }

    pub closed spec fn spec_finished(&self) -> bool {
        self.finished
    }

    pub open spec fn wf(&self) -> bool {
        self.spec_chunk_size() > 0
    }

    /// A pass with nothing read yet, through a buffer of `chunk_size` bytes.
    pub fn new(chunk_size: u16) -> (r: Self)
        requires
            valid_chunk_size(chunk_size as int),
        ensures
            r.wf(),
            r.spec_chunk_size() == chunk_size as nat,
            r.spec_bytes_read() == 0,
            !r.spec_finished(),
    {
        ReadSession { chunk_size: chunk_size as usize, bytes_read: 0, finished: false }
    }

    pub fn chunk_size(&self) -> (r: usize)
        ensures
            r == self.spec_chunk_size(),
    {
        self.chunk_size
    }

    /// The number of bytes read so far in this pass.
    pub fn bytes_read(&self) -> (r: usize)
        ensures
            r == self.spec_bytes_read(),
    {
        self.bytes_read
    }

    /// Whether the pass is over: no further read is to be made.
    pub fn is_finished(&self) -> (r: bool)
        ensures
            r == self.spec_finished(),
    {
        self.finished
    }

    /// Takes the outcome of one read of at most `chunk_size` bytes and says
    /// what to do with it: a full buffer goes on, a short or empty one ends
    /// the pass.
    pub fn step(&mut self, n: usize) -> (r: ReadStep)
        requires
            old(self).wf(),
            !old(self).spec_finished(),
            n <= old(self).spec_chunk_size(),
            old(self).spec_bytes_read() + n <= usize::MAX,
        ensures
            final(self).wf(),
            final(self).spec_chunk_size() == old(self).spec_chunk_size(),
            final(self).spec_bytes_read() == old(self).spec_bytes_read() + n,
            final(self).spec_finished() == (n < old(self).spec_chunk_size()),
            n == 0 ==> r == ReadStep::End,
            n == old(self).spec_chunk_size() ==> r == ReadStep::Full,
            0 < n < old(self).spec_chunk_size() ==> r == ReadStep::Partial(n),
    {
        self.bytes_read = self.bytes_read + n;
        if n == 0 {
            self.finished = true;
            ReadStep::End
        } else if n == self.chunk_size {
            ReadStep::Full
        } else {
            self.finished = true;
            ReadStep::Partial(n)
        }
    }
}

/// The chunks that a reader with chunk size `chunk_size` hands to its
/// handler, in order, over a source that holds `source`: each read takes
/// as many bytes as the buffer holds or as are left.
pub fn split_into_chunks(source: &[u8], chunk_size: u16) -> (r: Vec<Vec<u8>>)
    requires
        valid_chunk_size(chunk_size as int),
    ensures
        r.deep_view() == chunks_of(source@, chunk_size as nat),
{
    let c = chunk_size as usize;
    let ghost s = source@;
    let ghost n = source@.len();
    let mut session = ReadSession::new(chunk_size);
    let mut out: Vec<Vec<u8>> = Vec::new();
    let mut pos: usize = 0;
    assert(out.len() * c == 0) by (nonlinear_arith)
        requires
            out.len() == 0,
    ;
    while !session.is_finished()
        invariant
            s == source@,
            n == s.len(),
            c == chunk_size as usize,
            valid_chunk_size(chunk_size as int),
            session.wf(),
            session.spec_chunk_size() == c,
            session.spec_bytes_read() == pos,
            pos <= n,
            !session.spec_finished() ==> pos == out.len() * c,
            session.spec_finished() ==> pos == n && out.len() == piece_count(n, c as nat),
            forall|j: int|
                0 <= j < out.len() ==> #[trigger] out[j]@ == s.subrange(
                    j * c,
                    piece_end(n, c as nat, j as nat) as int,
                ),
        decreases n - pos + (if session.spec_finished() { 0int } else { 1int }),
    {
        let remaining = source.len() - pos;
        let take = if remaining < c { remaining } else { c };
        let ghost i = out.len() as int;
        assert((i + 1) * c == i * c + c) by (nonlinear_arith);
        let step = session.step(take);
        match step {
            ReadStep::Full => {
                out.push(slice_to_vec(slice_subrange(source, pos, pos + c)));
            },
            ReadStep::Partial(k) => {
                out.push(slice_to_vec(slice_subrange(source, pos, pos + k)));
                proof {
                    lemma_piece_count_between(n, c as nat, (i + 1) as nat);
                }
            },
            ReadStep::End => {
                proof {
                    lemma_piece_count_aligned(c as nat, i as nat);
                }
            },
        }
        pos = pos + take;
    }
    proof {
        lemma_chunks_of_index(s, c as nat);
        assert forall|j: int| 0 <= j < out.len() implies out.deep_view()[j] == chunks_of(
            s,
            c as nat,
        )[j] by {
            assert(out[j].deep_view() =~= out[j]@);
        }
        assert(out.deep_view() =~= chunks_of(s, c as nat));
    }
    out
}

/// Collects the configuration of a reader; `build` checks it.
pub struct ReaderBuilder {
    file_name: Option<String>,
    chunk_size: Option<u16>,
    reader_type: Option<ReaderType>,
}

impl ReaderBuilder {
    pub closed spec fn spec_file_name(&self) -> Option<Seq<char>> {
        opt_str_view(self.file_name)
    }

    pub closed spec fn spec_chunk_size(&self) -> Option<u16> {
        self.chunk_size
    }

    pub closed spec fn spec_reader_type(&self) -> Option<ReaderType> {
        self.reader_type
    }

    /// What a successful `build` hands out: a reader with the builder's
    /// path and kind, its chunk size or else the default, the flag lowered.
    pub open spec fn built(&self, reader: Reader) -> bool {
        &&& reader.wf()
        &&& reader.spec_file_name() == self.spec_file_name()->0
        &&& reader.spec_chunk_size() == match self.spec_chunk_size() {
            Some(c) => c,
            None => DEFAULT_READER_CHUNK_SIZE,
        }
        &&& !reader.spec_process_async()
        &&& reader.spec_reader_type() == self.spec_reader_type()->0
    }

    /// A builder with nothing set.
    pub fn new() -> (r: Self)
        ensures
            r.spec_file_name() is None,
            r.spec_chunk_size() is None,
            r.spec_reader_type() is None,
    {
        ReaderBuilder { file_name: None, chunk_size: None, reader_type: None }
    }

    pub fn file_name(self, file_name: String) -> (r: Self)
        ensures
            r.spec_file_name() == Some(file_name@),
            r.spec_chunk_size() == self.spec_chunk_size(),
            r.spec_reader_type() == self.spec_reader_type(),
    {
        ReaderBuilder { file_name: Some(file_name), ..self }
    }

    pub fn chunk_size(self, chunk_size: u16) -> (r: Self)
        ensures
            r.spec_file_name() == self.spec_file_name(),
            r.spec_chunk_size() == Some(chunk_size),
            r.spec_reader_type() == self.spec_reader_type(),
    {
        ReaderBuilder { chunk_size: Some(chunk_size), ..self }
    }

    pub fn reader_type(self, reader_type: ReaderType) -> (r: Self)
        ensures
            r.spec_file_name() == self.spec_file_name(),
            r.spec_chunk_size() == self.spec_chunk_size(),
            r.spec_reader_type() == Some(reader_type),
    {
        ReaderBuilder { reader_type: Some(reader_type), ..self }
    }

    /// Checks the configuration, in this order: a non-empty path, a chunk
    /// size in range if one was given, a handler kind. A reader without a
    /// chunk size gets the default one; its advisory flag starts lowered.
    pub fn build(self) -> (r: Result<Reader, ConfigError>)
        ensures
            !path_present(self.spec_file_name()) ==> r == Err::<Reader, ConfigError>(
                ConfigError::MissingPath,
            ),
            path_present(self.spec_file_name()) && self.spec_chunk_size() is Some
                && !valid_chunk_size(self.spec_chunk_size()->0 as int) ==> r == Err::<
                Reader,
                ConfigError,
            >(ConfigError::ChunkSizeOutOfRange),
            path_present(self.spec_file_name()) && (self.spec_chunk_size() is None
                || valid_chunk_size(self.spec_chunk_size()->0 as int))
                && self.spec_reader_type() is None ==> r == Err::<Reader, ConfigError>(
                ConfigError::MissingHandler,
            ),
            path_present(self.spec_file_name()) && (self.spec_chunk_size() is None
                || valid_chunk_size(self.spec_chunk_size()->0 as int))
                && self.spec_reader_type() is Some ==> r is Ok && self.built(r->Ok_0),
    {
        let file_name = match self.file_name {
            Some(f) => f,
            None => return Err(ConfigError::MissingPath),
        };
        if file_name.as_str().is_empty() {
            return Err(ConfigError::MissingPath);
        }
        let chunk_size = match self.chunk_size {
            Some(c) => {
                if !chunk_size_in_range(c) {
                    return Err(ConfigError::ChunkSizeOutOfRange);
                }
                c
            },
            None => DEFAULT_READER_CHUNK_SIZE,
        };
        let reader_type = match self.reader_type {
            Some(t) => t,
            None => return Err(ConfigError::MissingHandler),
        };
        Ok(Reader { file_name, chunk_size, process_async: false, reader_type })
    }
}

} // verus!
