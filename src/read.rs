//! The size rule of the bounded file reader. The reading itself is done by the
//! caller, which reads at most `max_size + 1` bytes and hands over how many it got.
use vstd::prelude::*;

verus! {

/// Why a file could not be read.
#[derive(Debug, Clone, PartialEq, Eq)]
pub enum ReadError {
    /// The file does not exist.
    NotFound,
    /// The file holds more than the allowed number of bytes.
    TooLarge,
    /// Any other I/O failure, with its description.
    Other(String),
}

/// Accepts a read of `len` bytes against the ceiling `max_size`: a read that
/// got more than `max_size` bytes is refused as too large.
pub fn check_read_size(len: usize, max_size: u64) -> (r: Result<(), ReadError>)
    ensures
        r is Ok <==> len as int <= max_size as int,
        r is Err ==> r == Err::<(), ReadError>(ReadError::TooLarge),
{
    if len as u64 > max_size {
        Err(ReadError::TooLarge)
    } else {
        Ok(())
    }
}

} // verus!
