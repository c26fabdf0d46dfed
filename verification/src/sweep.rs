//! A whole sweep, from its first compression to its last.

use crate::config::SweepConfig;
use crate::cursor::SweepCursor;
use crate::engine::{compress_data, gzip_stream, CompressError};
use crate::measurement::Measurement;
use vstd::prelude::*;

verus! {

/// What a sweep produced: the record of every compression that succeeded, in
/// the order they ran, and the failure that cut the sweep short, if any.
///
/// A sweep over an input held in memory runs to its end, so `run_sweep`
/// leaves `failure` empty; the field is where an error of the engine would go.
#[derive(Debug)]
pub struct SweepReport {
    pub records: Vec<Measurement>,
    pub failure: Option<CompressError>,
}

/// `record` reports a run over `input` with `iterations` passes.
pub open spec fn reports_run(record: Measurement, iterations: int, input: Seq<u8>) -> bool {
    &&& record.iterations == iterations
    &&& record.original_size == input.len()
    &&& record.compressed_size == gzip_stream(record.iterations, input).len()
}

/// Carries out the sweep that `config` describes over `input`.
///
/// The compressions run in the order of the plan, and each one is recorded:
/// the sweep runs to its end. A sweep whose range is inverted records
/// nothing. A failed compression would end the sweep at once, with what was
/// recorded before it kept and nothing after it run.
pub fn run_sweep(config: &SweepConfig, input: &Vec<u8>) -> (report: SweepReport)
    ensures
        report.failure is None,
        report.records@.len() == config@.invocations().len(),
        forall|k: int|
            0 <= k < report.records@.len() ==> reports_run(
                #[trigger] report.records@[k],
                config@.invocations()[k],
                input@,
            ),
        config@.minimum > config@.maximum ==> report.records@.len() == 0,
        config@.minimum <= config@.maximum ==> report.records@.len() == ((config@.maximum
            - config@.minimum) / config@.step + 1) * config@.repetitions,
{
    let ghost planned = config@.invocations();
    proof {
        use_type_invariant(config);
        config@.lemma_invocation_count();
        if config@.minimum <= config@.maximum {
            config@.lemma_value_count();
        }
    }
    let mut cursor = SweepCursor::new(*config);
    let mut records: Vec<Measurement> = Vec::new();
    loop
        invariant
            planned == config@.invocations(),
            cursor.plan() == config@,
            0 <= cursor.position() <= planned.len(),
            records@.len() == cursor.position(),
            config@.minimum <= config@.maximum ==> planned.len() == ((config@.maximum
                - config@.minimum) / config@.step + 1) * config@.repetitions,
            forall|k: int|
                0 <= k < records@.len() ==> reports_run(#[trigger] records@[k], planned[k], input@),
        decreases planned.len() - cursor.position(),
    {
        match cursor.advance() {
            None => {
                return SweepReport { records, failure: None };
            },
            Some(iterations) => {
                match compress_data(input, iterations) {
                    Ok(record) => {
                        records.push(record);
                    },
                    Err(failure) => {
                        return SweepReport { records, failure: Some(failure) };
                    },
                }
            },
        }
    }
}

} // verus!
