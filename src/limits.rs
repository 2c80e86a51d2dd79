use vstd::prelude::*;

verus! {

/// The smallest chunk size, in bytes, that a reader or writer accepts.
pub const MIN_CHUNK_SIZE: u16 = 16;

/// The largest chunk size, in bytes, that a reader or writer accepts.
pub const MAX_CHUNK_SIZE: u16 = 1024;

/// The smallest number of chunks that one block file may hold.
pub const MIN_CHUNKS_PER_FILE: usize = 1;

/// The largest number of chunks that one block file may hold.
pub const MAX_CHUNKS_PER_FILE: usize = 256;

/// A chunk size that a reader or writer accepts.
pub open spec fn valid_chunk_size(c: int) -> bool {
    MIN_CHUNK_SIZE <= c <= MAX_CHUNK_SIZE
}

/// A chunks-per-file count that a writer accepts.
pub open spec fn valid_chunks_per_file(n: int) -> bool {
    MIN_CHUNKS_PER_FILE <= n <= MAX_CHUNKS_PER_FILE
}

/// Tells whether `c` is an accepted chunk size.
pub fn chunk_size_in_range(c: u16) -> (r: bool)
    ensures
        r == valid_chunk_size(c as int),
{
    MIN_CHUNK_SIZE <= c && c <= MAX_CHUNK_SIZE
}

/// Tells whether `n` is an accepted chunks-per-file count.
pub fn chunks_per_file_in_range(n: usize) -> (r: bool)
    ensures
        r == valid_chunks_per_file(n as int),
{
    MIN_CHUNKS_PER_FILE <= n && n <= MAX_CHUNKS_PER_FILE
}

} // verus!
