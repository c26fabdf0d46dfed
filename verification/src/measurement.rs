//! The record of one compression run.

use std::time::Duration;
use vstd::prelude::*;

verus! {

/// What is reported about one compression run: the iteration count it was
/// given, how long the engine took, and the size of its input and output.
#[derive(Clone, Copy, Debug)]
pub struct Measurement {
    pub iterations: u64,
    pub elapsed: Duration,
    pub original_size: usize,
    pub compressed_size: usize,
}

impl Measurement {
    /// The bytes saved by the run: the original size less the compressed size.
    /// It is negative where the engine's framing outweighs what it saved.
    pub open spec fn saved(&self) -> int {
        self.original_size - self.compressed_size
    }

    /// Builds the record of a run from what went in and what came out.
    pub fn record(iterations: u64, elapsed: Duration, original: &[u8], compressed: &[u8]) -> (m:
        Measurement)
        ensures
            m.iterations == iterations,
            m.elapsed == elapsed,
            m.original_size == original@.len(),
            m.compressed_size == compressed@.len(),
    {
        Measurement {
            iterations,
            elapsed,
            original_size: original.len(),
            compressed_size: compressed.len(),
        }
    }

    /// The bytes saved by the run. Added to the compressed size it gives back
    /// the original size exactly.
    pub fn saved_space(&self) -> (saved: i128)
        ensures
            saved == self.saved(),
            self.compressed_size + saved == self.original_size,
    {
        self.original_size as i128 - self.compressed_size as i128
    }
}

} // verus!
