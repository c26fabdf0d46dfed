//! The mathematics of a sweep: which iteration counts are tried, and how often.

use vstd::arithmetic::div_mod::{lemma_basic_div, lemma_div_plus_one, lemma_fundamental_div_mod};
use vstd::prelude::*;

verus! {

/// The values `from`, `from + step`, `from + 2 * step`, ... that do not exceed
/// `maximum`, in increasing order. Only a positive `step` gives a progression.
pub open spec fn progression(from: int, maximum: int, step: int) -> Seq<int>
    decreases
        if from <= maximum {
            maximum - from + 1
        } else {
            0
        },
    when step > 0
{
    if from > maximum {
        Seq::empty()
    } else {
        seq![from].add(progression(from + step, maximum, step))
    }
}

/// What a sweep configuration means: the bounds of the progression of
/// iteration counts and the number of times each of them is run.
pub struct SweepPlan {
    pub minimum: int,
    pub maximum: int,
    pub step: int,
    pub repetitions: int,
}

impl SweepPlan {
    /// A plan that can be carried out: every iteration count it reaches is
    /// positive, and the progression advances wherever it has to be walked.
    pub open spec fn runnable(self) -> bool {
        &&& self.minimum > 0
        &&& self.minimum <= self.maximum ==> self.step > 0
        &&& self.step >= 0
        &&& self.repetitions >= 0
    }

    /// The distinct iteration counts of the sweep, in the order they are tried.
    pub open spec fn values(self) -> Seq<int> {
        if self.minimum > self.maximum {
            Seq::empty()
        } else {
            progression(self.minimum, self.maximum, self.step)
        }
    }

    /// The iteration count of every compression of the sweep, in order: each
    /// value of the progression, `repetitions` times in a row.
    pub open spec fn invocations(self) -> Seq<int> {
        Seq::new(
            (self.values().len() * self.repetitions) as nat,
            |k: int| self.values()[k / self.repetitions],
        )
    }
}

/// A progression with a positive step holds `(maximum - from) / step + 1` values
/// when `from` does not exceed `maximum` and none otherwise, and its value at
/// index `i` is `from + i * step`.
pub proof fn lemma_progression_closed_form(from: int, maximum: int, step: int)
    requires
        step > 0,
    ensures
        from > maximum ==> progression(from, maximum, step).len() == 0,
        from <= maximum ==> progression(from, maximum, step).len() == (maximum - from) / step + 1,
        forall|i: int|
            0 <= i < progression(from, maximum, step).len() ==> #[trigger] progression(
                from,
                maximum,
                step,
            )[i] == from + i * step,
    decreases
        if from <= maximum {
            maximum - from + 1
        } else {
            0
        },
{
    if from <= maximum {
        let rest = progression(from + step, maximum, step);
        let whole = progression(from, maximum, step);
        lemma_progression_closed_form(from + step, maximum, step);
        assert(whole =~= seq![from].add(rest));
        if from + step > maximum {
            lemma_basic_div(maximum - from, step);
        } else {
            lemma_div_plus_one(maximum - from - step, step);
        }
        assert forall|i: int| 0 <= i < whole.len() implies #[trigger] whole[i] == from + i
            * step by {
            if i > 0 {
                assert(whole[i] == rest[i - 1]);
                assert((from + step) + (i - 1) * step == from + i * step) by (nonlinear_arith);
            }
        }
    }
}

impl SweepPlan {
    /// A sweep whose minimum lies above its maximum tries no iteration count and
    /// so performs no compression, whatever its step and repetition count. With
    /// bounds, step and repetition count that are not negative it is runnable.
    pub proof fn lemma_inverted_range_plans_nothing(self)
        requires
            self.minimum > self.maximum,
        ensures
            self.values().len() == 0,
            self.invocations().len() == 0,
            self.maximum >= 0 && self.step >= 0 && self.repetitions >= 0 ==> self.runnable(),
    {
    }

    /// A sweep over a range that is not inverted, with a positive step, tries
    /// `floor((maximum - minimum) / step) + 1` iteration counts. They are
    /// `minimum + i * step` in turn, so they grow strictly and are all distinct,
    /// and none leaves the range.
    pub proof fn lemma_value_count(self)
        requires
            self.minimum <= self.maximum,
            self.step > 0,
        ensures
            self.values().len() == (self.maximum - self.minimum) / self.step + 1,
            forall|i: int|
                0 <= i < self.values().len() ==> #[trigger] self.values()[i] == self.minimum + i
                    * self.step,
            forall|i: int|
                0 <= i < self.values().len() ==> self.minimum <= #[trigger] self.values()[i]
                    <= self.maximum,
            forall|i: int, j: int|
                0 <= i < j < self.values().len() ==> #[trigger] self.values()[i]
                    < #[trigger] self.values()[j],
    {
        let count = (self.maximum - self.minimum) / self.step + 1;
        let step = self.step;
        let span = self.maximum - self.minimum;
        lemma_progression_closed_form(self.minimum, self.maximum, self.step);
        lemma_fundamental_div_mod(span, step);
        assert forall|i: int| 0 <= i < count implies self.minimum <= #[trigger] self.values()[i]
            <= self.maximum by {
            assert(0 <= i * step <= step * (span / step)) by (nonlinear_arith)
                requires
                    0 <= i <= span / step,
                    step > 0,
            ;
        }
        assert forall|i: int, j: int| 0 <= i < j < count implies #[trigger] self.values()[i]
            < #[trigger] self.values()[j] by {
            assert(i * step < j * step) by (nonlinear_arith)
                requires
                    i < j,
                    step > 0,
            ;
        }
    }

    /// The total number of compressions of a sweep is the number of iteration
    /// counts it tries times the repetition count, and the compression at
    /// position `k` runs the value at index `k / repetitions`.
    pub proof fn lemma_invocation_count(self)
        requires
            self.repetitions >= 0,
        ensures
            self.invocations().len() == self.values().len() * self.repetitions,
            forall|k: int|
                0 <= k < self.invocations().len() ==> #[trigger] self.invocations()[k]
                    == self.values()[k / self.repetitions],
    {
        assert(self.values().len() * self.repetitions >= 0) by (nonlinear_arith)
            requires
                self.values().len() >= 0,
                self.repetitions >= 0,
        ;
    }
}

} // verus!
