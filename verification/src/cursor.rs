//! A position in a sweep, handing out one iteration count at a time.

use crate::config::SweepConfig;
use crate::plan::SweepPlan;
use vstd::arithmetic::div_mod::{
    lemma_basic_div,
    lemma_fundamental_div_mod,
    lemma_fundamental_div_mod_converse,
};
use vstd::prelude::*;

verus! {

/// Where a sweep stands: which of its compressions comes next.
///
/// The driver of a sweep asks the cursor for the next iteration count, runs
/// the compression, reports it, and asks again, until the cursor has none
/// left. It stops asking when a compression fails.
#[derive(Clone, Copy, Debug)]
pub struct SweepCursor {
    config: SweepConfig,
    current: u64,
    issued: u32,
    exhausted: bool,
}

/// In a plan whose range holds a value, the value at index `index` is run at
/// the positions `index * repetitions + done` for `done` below `repetitions`.
proof fn lemma_position_runs_value(plan: SweepPlan, index: int, done: int)
    requires
        plan.runnable(),
        0 <= index,
        plan.minimum + index * plan.step <= plan.maximum,
        0 <= done < plan.repetitions,
    ensures
        index < plan.values().len(),
        0 <= index * plan.repetitions + done < plan.invocations().len(),
        plan.invocations()[index * plan.repetitions + done] == plan.minimum + index * plan.step,
{
    let step = plan.step;
    let reps = plan.repetitions;
    let span = plan.maximum - plan.minimum;
    let count = plan.values().len() as int;
    let k = index * reps + done;
    assert(index * step >= 0) by (nonlinear_arith)
        requires
            index >= 0,
            step >= 0,
    ;
    plan.lemma_value_count();
    plan.lemma_invocation_count();
    lemma_fundamental_div_mod(span, step);
    assert(index <= span / step) by (nonlinear_arith)
        requires
            index * step <= span,
            span == step * (span / step) + span % step,
            0 <= span % step < step,
    ;
    assert(0 <= k < count * reps) by (nonlinear_arith)
        requires
            0 <= index < count,
            0 <= done < reps,
            k == index * reps + done,
    ;
    lemma_fundamental_div_mod_converse(k, reps, index, done);
}

/// Where the value at index `index` is within the range and the one after it
/// is not, the plan holds `index + 1` values.
proof fn lemma_last_value(plan: SweepPlan, index: int)
    requires
        plan.runnable(),
        0 <= index,
        plan.minimum + index * plan.step <= plan.maximum,
        plan.minimum + index * plan.step + plan.step > plan.maximum,
    ensures
        plan.values().len() == index + 1,
{
    let step = plan.step;
    let span = plan.maximum - plan.minimum;
    assert(index * step >= 0) by (nonlinear_arith)
        requires
            index >= 0,
            step >= 0,
    ;
    plan.lemma_value_count();
    lemma_fundamental_div_mod_converse(span, step, index, span - index * step);
}

impl SweepCursor {
    /// The plan that the cursor walks.
    pub closed spec fn plan(&self) -> SweepPlan {
        self.config@
    }

    /// The number of compressions handed out so far, which is the index in
    /// `plan().invocations()` of the one that comes next.
    pub closed spec fn position(&self) -> int {
        if self.exhausted {
            self.plan().invocations().len() as int
        } else {
            ((self.current - self.plan().minimum) / self.plan().step) * self.plan().repetitions
                + self.issued
        }
    }

    #[verifier::type_invariant]
    spec fn well_formed(&self) -> bool {
        let plan = self.plan();
        &&& plan.runnable()
        &&& !self.exhausted ==> {
            &&& plan.minimum <= self.current <= plan.maximum
            &&& (self.current - plan.minimum) % plan.step == 0
            &&& self.issued < plan.repetitions
        }
    }

    /// A cursor at the start of the sweep that `config` describes.
    pub fn new(config: SweepConfig) -> (cursor: SweepCursor)
        ensures
            cursor.plan() == config@,
            cursor.position() == 0,
    {
        let current: u64 = config.minimum();
        let exhausted = current > config.maximum() || config.repetitions() == 0;
        proof {
            use_type_invariant(&config);
            if exhausted {
                config@.lemma_invocation_count();
                assert(config@.values().len() * config@.repetitions == 0) by (nonlinear_arith)
                    requires
                        config@.values().len() == 0 || config@.repetitions == 0,
                ;
            } else {
                lemma_basic_div(0, config@.step);
                assert((current - config@.minimum) / config@.step == 0);
            }
        }
        SweepCursor { config, current, issued: 0, exhausted }
    }

    /// Hands out the iteration count of the next compression and moves past it,
    /// or reports that the sweep is complete.
    ///
    /// The counts come in the order of `plan().invocations()`, each position
    /// once. A complete sweep stays complete.
    pub fn advance(&mut self) -> (next: Option<u64>)
        ensures
            final(self).plan() == old(self).plan(),
            0 <= old(self).position() <= old(self).plan().invocations().len(),
            old(self).position() < old(self).plan().invocations().len() ==> {
                &&& next matches Some(iterations)
                &&& iterations > 0
                &&& iterations == old(self).plan().invocations()[old(self).position()]
                &&& final(self).position() == old(self).position() + 1
            },
            old(self).position() == old(self).plan().invocations().len() ==> {
                &&& next is None
                &&& *final(self) == *old(self)
            },
    {
        proof {
            use_type_invariant(&*self);
        }
        if self.exhausted {
            return None;
        }
        let minimum: u64 = self.config.minimum();
        let maximum: u64 = self.config.maximum();
        let step: u64 = self.config.step();
        let repetitions: u32 = self.config.repetitions();
        let current: u64 = self.current;
        let issued: u32 = self.issued + 1;
        let ghost plan = self.plan();
        let ghost index = (current - minimum) / (step as int);
        proof {
            lemma_fundamental_div_mod(current - minimum, step as int);
            assert(index * step == step * index) by (nonlinear_arith);
            assert(index >= 0) by (nonlinear_arith)
                requires
                    step > 0,
                    step * index >= 0,
            ;
            lemma_position_runs_value(plan, index, self.issued as int);
        }
        if issued < repetitions {
            *self = SweepCursor { config: self.config, current, issued, exhausted: false };
        } else {
            let following = current.checked_add(step);
            match following {
                Some(value) if value <= maximum => {
                    proof {
                        assert((index + 1) * step == step * index + step) by (nonlinear_arith);
                        lemma_fundamental_div_mod_converse(
                            value - minimum,
                            step as int,
                            index + 1,
                            0,
                        );
                        assert((index + 1) * repetitions == index * repetitions + repetitions)
                            by (nonlinear_arith);
                    }
                    *self = SweepCursor {
                        config: self.config,
                        current: value,
                        issued: 0,
                        exhausted: false,
                    };
                },
                _ => {
                    proof {
                        lemma_last_value(plan, index);
                        plan.lemma_invocation_count();
                        assert((index + 1) * repetitions == index * repetitions + repetitions)
                            by (nonlinear_arith);
                    }
                    *self = SweepCursor {
                        config: self.config,
                        current,
                        issued: 0,
                        exhausted: true,
                    };
                },
            }
        }
        Some(current)
    }
}

} // verus!
