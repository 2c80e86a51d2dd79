use vstd::prelude::*;

use crate::error::Error;

verus! {

/// A callback that a reader runs once for each chunk it reads, in read order.
pub trait ChunkReader {
    /// Whether this handler accepts the chunk `bytes`.
    spec fn accepts_chunk(&self, bytes: Seq<u8>) -> bool;

    fn handle(&self, bytes: &[u8]) -> (r: Result<(), Error>)
        ensures
            r is Ok <==> self.accepts_chunk(bytes@),
    ;
}

/// A handler that accepts every chunk and does nothing with it: the
/// pass-through processing strategy.
pub struct NoOpHandler;

impl ChunkReader for NoOpHandler {
    /// Every chunk is accepted.
    open spec fn accepts_chunk(&self, bytes: Seq<u8>) -> bool {
        true
    }

    fn handle(&self, _bytes: &[u8]) -> (r: Result<(), Error>) {
        Ok(())
    }
}

} // verus!
