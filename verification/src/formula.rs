//! Exact arithmetic on conversion steps.
//!
//! A conversion is a short list of steps, each one arithmetic operation with a
//! constant. The constants are kept as exact ratios of integers, so that the
//! meaning of a list of steps is a function on the real numbers.

use vstd::prelude::*;
use crate::beaufort::{force_of_speed, speed_of_force};

verus! {

/// Two to the power 53: every whole number up to it is held exactly by a
/// double-precision number.
pub const EXACT_LIMIT: u64 = 9007199254740992;

/// The quotient of two whole numbers as a real number.
pub open spec fn ratio(numerator: int, denominator: int) -> real {
    numerator as real / denominator as real
}

/// A positive constant: `numerator` divided by `denominator`.
#[derive(Clone, Copy, Debug, PartialEq, Eq, Structural)]
pub struct Ratio {
    pub numerator: u64,
    pub denominator: u64,
}

impl Ratio {
    /// Both parts are positive and small enough to be held exactly by a
    /// double-precision number.
    pub open spec fn wf(self) -> bool {
        &&& 0 < self.numerator <= EXACT_LIMIT
        &&& 0 < self.denominator <= EXACT_LIMIT
    }

    /// The number that the ratio stands for.
    pub open spec fn value(self) -> real {
        ratio(self.numerator as int, self.denominator as int)
    }
}

/// One operation of a conversion.
#[derive(Clone, Copy, Debug, PartialEq, Eq, Structural)]
pub enum Step {
    /// Multiply by a constant.
    Multiply(Ratio),
    /// Divide by a constant.
    Divide(Ratio),
    /// Add a constant.
    Add(Ratio),
    /// Subtract a constant.
    Subtract(Ratio),
    /// Replace a Beaufort wind force by its wind speed in metres per second.
    ForceToSpeed,
    /// Replace a wind speed in metres per second by its Beaufort wind force.
    SpeedToForce,
}

impl Step {
    /// The step that multiplies by `numerator / denominator`.
    pub open spec fn spec_times(numerator: u64, denominator: u64) -> Step {
        Step::Multiply(Ratio { numerator, denominator })
    }

    /// The step that divides by `numerator / denominator`.
    pub open spec fn spec_over(numerator: u64, denominator: u64) -> Step {
        Step::Divide(Ratio { numerator, denominator })
    }

    /// The step that adds `numerator / denominator`.
    pub open spec fn spec_plus(numerator: u64, denominator: u64) -> Step {
        Step::Add(Ratio { numerator, denominator })
    }

    /// The step that subtracts `numerator / denominator`.
    pub open spec fn spec_minus(numerator: u64, denominator: u64) -> Step {
        Step::Subtract(Ratio { numerator, denominator })
    }

    /// The step that multiplies by `numerator / denominator`.
    #[verifier::when_used_as_spec(spec_times)]
    pub fn times(numerator: u64, denominator: u64) -> (step: Step)
        ensures
            step == Step::spec_times(numerator, denominator),
    {
        Step::Multiply(Ratio { numerator, denominator })
    }

    /// The step that divides by `numerator / denominator`.
    #[verifier::when_used_as_spec(spec_over)]
    pub fn over(numerator: u64, denominator: u64) -> (step: Step)
        ensures
            step == Step::spec_over(numerator, denominator),
    {
        Step::Divide(Ratio { numerator, denominator })
    }

    /// The step that adds `numerator / denominator`.
    #[verifier::when_used_as_spec(spec_plus)]
    pub fn plus(numerator: u64, denominator: u64) -> (step: Step)
        ensures
            step == Step::spec_plus(numerator, denominator),
    {
        Step::Add(Ratio { numerator, denominator })
    }

    /// The step that subtracts `numerator / denominator`.
    #[verifier::when_used_as_spec(spec_minus)]
    pub fn minus(numerator: u64, denominator: u64) -> (step: Step)
        ensures
            step == Step::spec_minus(numerator, denominator),
    {
        Step::Subtract(Ratio { numerator, denominator })
    }

    /// The step's constant, if it has one, is well formed.
    pub open spec fn wf(self) -> bool {
        match self {
            Step::Multiply(by) | Step::Divide(by) | Step::Add(by) | Step::Subtract(by) => by.wf(),
            Step::ForceToSpeed | Step::SpeedToForce => true,
        }
    }

    /// Whether the step is plain arithmetic with a constant.
    pub open spec fn is_arithmetic(self) -> bool {
        !(self is ForceToSpeed) && !(self is SpeedToForce)
    }

    /// What the step makes of `x`, in exact arithmetic.
    pub open spec fn apply(self, x: real) -> real {
        match self {
            Step::Multiply(by) => x * by.value(),
            Step::Divide(by) => x / by.value(),
            Step::Add(by) => x + by.value(),
            Step::Subtract(by) => x - by.value(),
            Step::ForceToSpeed => speed_of_force(x),
            Step::SpeedToForce => force_of_speed(x),
        }
    }

    /// The step in the other direction. For an arithmetic step it is the step
    /// that undoes it; for the wind scale it is the way back through the
    /// scale, which undoes nothing.
    pub open spec fn inverse(self) -> Step {
        match self {
            Step::Multiply(by) => Step::Divide(by),
            Step::Divide(by) => Step::Multiply(by),
            Step::Add(by) => Step::Subtract(by),
            Step::Subtract(by) => Step::Add(by),
            Step::ForceToSpeed => Step::SpeedToForce,
            Step::SpeedToForce => Step::ForceToSpeed,
        }
    }

    /// An arithmetic step followed by its inverse changes nothing.
    pub proof fn lemma_inverse_undoes(self, x: real)
        requires
            self.wf(),
            self.is_arithmetic(),
        ensures
            self.inverse().apply(self.apply(x)) == x,
            self.inverse().wf(),
            self.inverse().is_arithmetic(),
            self.inverse().inverse() == self,
    {
        match self {
            Step::Multiply(by) | Step::Divide(by) => {
                let n = by.numerator as real;
                let d = by.denominator as real;
                assert(n > 0 as real && d > 0 as real);
                assert(n / d > 0 as real) by (nonlinear_arith)
                    requires
                        n > 0 as real,
                        d > 0 as real,
                ;
                let c = n / d;
                assert(x * c / c == x) by (nonlinear_arith)
                    requires
                        c > 0 as real,
                ;
                assert(x / c * c == x) by (nonlinear_arith)
                    requires
                        c > 0 as real,
                ;
            },
            _ => {},
        }
    }
}

/// What a list of steps makes of `x`, in exact arithmetic: the steps are
/// applied from the first to the last.
pub open spec fn eval(steps: Seq<Step>, x: real) -> real
    decreases steps.len(),
{
    if steps.len() == 0 {
        x
    } else {
        steps.last().apply(eval(steps.drop_last(), x))
    }
}

/// The steps that undo a list of steps: the inverse steps in reverse order.
pub open spec fn inverse(steps: Seq<Step>) -> Seq<Step> {
    Seq::new(steps.len(), |i: int| steps[steps.len() - 1 - i].inverse())
}

/// Every constant of the list is well formed.
pub open spec fn well_formed(steps: Seq<Step>) -> bool {
    forall|i: int| 0 <= i < steps.len() ==> (#[trigger] steps[i]).wf()
}

/// Every step of the list is arithmetic with a well-formed constant.
pub open spec fn arithmetic(steps: Seq<Step>) -> bool {
    forall|i: int| 0 <= i < steps.len() ==> (#[trigger] steps[i]).wf() && steps[i].is_arithmetic()
}

/// Evaluating two lists one after the other is evaluating their
/// concatenation.
pub proof fn lemma_eval_concat(first: Seq<Step>, second: Seq<Step>, x: real)
    ensures
        eval(first + second, x) == eval(second, eval(first, x)),
    decreases second.len(),
{
    if second.len() == 0 {
        assert(first + second =~= first);
    } else {
        assert((first + second).drop_last() =~= first + second.drop_last());
        assert((first + second).last() == second.last());
        lemma_eval_concat(first, second.drop_last(), x);
    }
}

/// A list of one step applies that step.
pub proof fn lemma_eval_one(step: Step, x: real)
    ensures
        eval(seq![step], x) == step.apply(x),
{
    assert(seq![step].drop_last() =~= Seq::<Step>::empty());
    assert(eval(seq![step].drop_last(), x) == x);
}

/// A list of two steps applies the first and then the second.
pub proof fn lemma_eval_two(first: Step, second: Step, x: real)
    ensures
        eval(seq![first, second], x) == second.apply(first.apply(x)),
{
    assert(seq![first, second] =~= seq![first] + seq![second]);
    lemma_eval_concat(seq![first], seq![second], x);
    lemma_eval_one(first, x);
    lemma_eval_one(second, first.apply(x));
}

/// What a list of at most three steps makes of a value, step by step.
pub proof fn lemma_eval_short(steps: Seq<Step>, x: real)
    requires
        steps.len() <= 3,
    ensures
        steps.len() == 0 ==> eval(steps, x) == x,
        steps.len() == 1 ==> eval(steps, x) == steps[0].apply(x),
        steps.len() == 2 ==> eval(steps, x) == steps[1].apply(steps[0].apply(x)),
        steps.len() == 3 ==> eval(steps, x) == steps[2].apply(steps[1].apply(steps[0].apply(x))),
{
    if steps.len() == 1 {
        assert(steps =~= seq![steps[0]]);
        lemma_eval_one(steps[0], x);
    } else if steps.len() == 2 {
        assert(steps =~= seq![steps[0], steps[1]]);
        lemma_eval_two(steps[0], steps[1], x);
    } else if steps.len() == 3 {
        assert(steps =~= seq![steps[0], steps[1]] + seq![steps[2]]);
        lemma_eval_concat(seq![steps[0], steps[1]], seq![steps[2]], x);
        lemma_eval_two(steps[0], steps[1], x);
        lemma_eval_one(steps[2], steps[1].apply(steps[0].apply(x)));
    }
}

/// A list of arithmetic steps followed by its inverse changes nothing.
pub proof fn lemma_inverse_undoes(steps: Seq<Step>, x: real)
    requires
        arithmetic(steps),
    ensures
        eval(inverse(steps), eval(steps, x)) == x,
        eval(steps + inverse(steps), x) == x,
    decreases steps.len(),
{
    lemma_eval_concat(steps, inverse(steps), x);
    if steps.len() == 0 {
        assert(inverse(steps) =~= Seq::<Step>::empty());
    } else {
        let init = steps.drop_last();
        let last = steps.last();
        let y = eval(init, x);
        assert(inverse(steps) =~= seq![last.inverse()] + inverse(init));
        lemma_eval_concat(seq![last.inverse()], inverse(init), last.apply(y));
        lemma_eval_one(last.inverse(), last.apply(y));
        last.lemma_inverse_undoes(y);
        lemma_inverse_undoes(init, x);
    }
}

/// The inverse of a list of arithmetic steps is arithmetic, and inverting it
/// gives the first list back.
pub proof fn lemma_inverse_involution(steps: Seq<Step>)
    requires
        arithmetic(steps),
    ensures
        arithmetic(inverse(steps)),
        inverse(inverse(steps)) == steps,
{
    assert forall|i: int| 0 <= i < steps.len() implies (#[trigger] inverse(steps)[i]).wf()
        && inverse(steps)[i].is_arithmetic() && inverse(inverse(steps))[i] == steps[i] by {
        steps[steps.len() - 1 - i].lemma_inverse_undoes(0 as real);
        steps[i].lemma_inverse_undoes(0 as real);
    }
    assert(inverse(inverse(steps)) =~= steps);
}

} // verus!
