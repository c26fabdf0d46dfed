//! A harness that sweeps the iteration count of the Zopfli compressor over an
//! arithmetic progression and measures every run.
//!
//! The crate decides which iteration counts are tried and in what order
//! ([`plan`], [`config`], [`cursor`]), performs one timed gzip compression
//! ([`engine`]), shapes what is reported about it ([`measurement`]) and drives a
//! whole sweep ([`sweep`]).

pub mod config;
pub mod cursor;
pub mod engine;
pub mod measurement;
pub mod plan;
pub mod sweep;

pub use config::{
    ConfigError, SweepConfig, DEFAULT_MAXIMUM_ITERATIONS, DEFAULT_MINIMUM_ITERATIONS,
    DEFAULT_REPETITIONS, DEFAULT_STEP,
};
pub use cursor::SweepCursor;
pub use engine::{compress_data, compress_step, CompressError};
pub use measurement::Measurement;
pub use sweep::{run_sweep, SweepReport};
