//! One timed gzip compression by the Zopfli engine.

use crate::measurement::Measurement;
use std::time::{Duration, Instant};
use vstd::prelude::*;

verus! {

/// `std::time::Instant`, a reading of the monotonic clock. Nothing is known
/// of its value.
#[verifier::external_type_specification]
#[verifier::external_body]
pub struct ExInstant(std::time::Instant);

/// `std::io::Error`, the error with which the engine's writer fails. Nothing
/// is known of its value.
#[verifier::external_type_specification]
#[verifier::external_body]
pub struct ExIoError(std::io::Error);

/// `std::time::Instant::now` reads the clock. The reading depends on when it
/// is taken, so nothing is claimed of it.
pub assume_specification[ Instant::now ]() -> Instant
;

/// `std::time::Instant::elapsed` gives the time that has passed since the
/// reading was taken. It depends on the clock, so nothing is claimed of it.
pub assume_specification[ Instant::elapsed ](start: &Instant) -> Duration
;

/// The gzip stream that the engine produces for `data` when it is allowed
/// `iterations` optimisation passes and is otherwise left at its defaults.
pub uninterp spec fn gzip_stream(iterations: u64, data: Seq<u8>) -> Seq<u8>;

/// `zopfli::compress` with `Format::Gzip`, reading from a byte slice and
/// writing into a vector.
///
/// The call succeeds: the engine builds no error of its own and only passes
/// on what its reader or its sink reports, and neither a byte slice that is
/// read nor a vector that is written to reports any. The engine draws its
/// pseudo-random numbers from a generator with constant seeds and reads
/// neither clock nor environment, and its gzip header carries a zero
/// timestamp, so the bytes it writes are taken to depend on the iteration
/// count and the input alone. Exactly those bytes have been appended to
/// `sink` when the call returns. The engine takes its iteration count as a
/// non-zero integer, hence the precondition.
#[verifier::external_body]
fn gzip_into(iterations: u64, data: &[u8], sink: &mut Vec<u8>) -> (outcome: Result<
    (),
    std::io::Error,
>)
    requires
        iterations > 0,
    ensures
        outcome is Ok,
        final(sink)@ == old(sink)@ + gzip_stream(iterations, data@),
{
    let options = zopfli::Options {
        iteration_count: std::num::NonZeroU64::new(iterations).unwrap(),
        ..Default::default()
    };
    zopfli::compress(options, zopfli::Format::Gzip, data, sink)
}

/// `Vec::shrink_to_fit` gives spare capacity back and keeps the contents.
#[verifier::external_body]
fn release_spare_capacity(bytes: &mut Vec<u8>)
    ensures
        final(bytes)@ == old(bytes)@,
{
    bytes.shrink_to_fit()
}

/// Why a compression run produced nothing.
#[derive(Debug)]
pub enum CompressError {
    /// The run was asked for zero iterations, which the engine cannot take.
    ZeroIterations,
    /// The engine reported a failure of its reader or its sink. Reading from
    /// and writing to memory, as this crate does, never brings one about; the
    /// variant is there so that the engine's error has a place to go.
    Engine(std::io::Error),
}

/// Compresses `input` to a gzip stream with `iterations` passes of the engine
/// and measures how long the engine takes.
///
/// A zero iteration count is refused before the engine is started. Every
/// other run succeeds, and its stream is the one that the engine produces for
/// this iteration count and input, every time.
pub fn compress_step(iterations: u64, input: &[u8]) -> (outcome: Result<
    (Vec<u8>, Duration),
    CompressError,
>)
    ensures
        iterations == 0 ==> outcome matches Err(CompressError::ZeroIterations),
        iterations > 0 ==> {
            &&& outcome matches Ok(run)
            &&& run.0@ == gzip_stream(iterations, input@)
        },
{
    if iterations == 0 {
        return Err(CompressError::ZeroIterations);
    }
    let mut compressed: Vec<u8> = Vec::with_capacity(input.len());
    let start_time = Instant::now();
    let written = gzip_into(iterations, input, &mut compressed);
    match written {
        Err(failure) => Err(CompressError::Engine(failure)),
        Ok(()) => {
            let elapsed = start_time.elapsed();
            release_spare_capacity(&mut compressed);
            Ok((compressed, elapsed))
        },
    }
}

/// Runs one compression of `file` with `iterations` passes and reports it.
///
/// A zero iteration count is refused before the engine is started. Every
/// other run succeeds, and its record carries the iteration count, the size
/// of `file` and the size of the gzip stream that the engine produces for
/// them.
pub fn compress_data(file: &Vec<u8>, iterations: u64) -> (outcome: Result<
    Measurement,
    CompressError,
>)
    ensures
        iterations == 0 ==> outcome matches Err(CompressError::ZeroIterations),
        iterations > 0 ==> {
            &&& outcome matches Ok(m)
            &&& m.iterations == iterations
            &&& m.original_size == file@.len()
            &&& m.compressed_size == gzip_stream(iterations, file@).len()
            &&& m.compressed_size + m.saved() == m.original_size
        },
{
    match compress_step(iterations, file.as_slice()) {
        Err(failure) => Err(failure),
        Ok((compressed, elapsed)) => Ok(
            Measurement::record(iterations, elapsed, file.as_slice(), compressed.as_slice()),
        ),
    }
}

} // verus!
