//! What holds of every conversion, stated once and proved.
//!
//! The arithmetic laws speak of exact arithmetic on real numbers. The banded
//! wind scale is left out of them: a band does not give its value back.

use vstd::prelude::*;
use crate::conversion::{convertible, steps_between, Arguments, ConversionError};
use crate::formula::{eval, lemma_eval_concat, lemma_inverse_undoes, Step};
use crate::messages::unusable_target_text;
use crate::text::lowercase;
use crate::unit::Unit;

verus! {

/// Round trip: a value taken to the base unit of its quantity and back to
/// its own unit is the value itself.
pub proof fn lemma_round_trip(unit: Unit, x: real)
    requires
        !unit.is_banded(),
    ensures
        eval(unit.spec_from_base(), eval(unit.spec_to_base(), x)) == x,
        unit.from_base_exact(unit.to_base_exact(x)) == x,
{
    unit.lemma_steps_arithmetic();
    unit.lemma_steps_mirror();
    lemma_inverse_undoes(unit.spec_to_base(), x);
    unit.lemma_steps_exact(x);
    unit.lemma_steps_exact(unit.to_base_exact(x));
}

/// Round trip from the other side: a value in the base unit taken to a unit
/// and back to the base unit is the value itself.
pub proof fn lemma_round_trip_from_base(unit: Unit, y: real)
    requires
        !unit.is_banded(),
    ensures
        eval(unit.spec_to_base(), eval(unit.spec_from_base(), y)) == y,
        unit.to_base_exact(unit.from_base_exact(y)) == y,
{
    unit.lemma_steps_arithmetic();
    unit.lemma_steps_mirror();
    lemma_inverse_undoes(unit.spec_from_base(), y);
    unit.lemma_steps_exact(y);
    unit.lemma_steps_exact(unit.from_base_exact(y));
}

/// A conversion goes through the base unit: it amounts to the value that
/// the source unit gives in the base unit, taken on to the target unit.
/// Between two units that are multiples of their base unit this is the
/// value times the factor of the first, divided by the factor of the second.
pub proof fn lemma_through_base(from: Unit, to: Unit, x: real)
    ensures
        eval(steps_between(from, to), x) == to.from_base_exact(from.to_base_exact(x)),
        from.is_multiple() && to.is_multiple() ==> eval(steps_between(from, to), x) == x
            * from.factor() / to.factor(),
{
    lemma_eval_concat(from.spec_to_base(), to.spec_from_base(), x);
    from.lemma_steps_exact(x);
    to.lemma_steps_exact(from.to_base_exact(x));
}

/// Identity: converting a unit to itself gives the value back.
pub proof fn lemma_identity(unit: Unit, x: real)
    requires
        !unit.is_banded(),
    ensures
        eval(steps_between(unit, unit), x) == x,
{
    lemma_eval_concat(unit.spec_to_base(), unit.spec_from_base(), x);
    lemma_round_trip(unit, x);
}

/// Identity on a base unit: converting a base unit to itself takes no step
/// at all, so the value is handed back untouched.
pub proof fn lemma_identity_of_base(unit: Unit)
    requires
        unit.is_base(),
    ensures
        steps_between(unit, unit) == Seq::<Step>::empty(),
{
    unit.lemma_base_unit_steps();
    assert(steps_between(unit, unit) =~= Seq::<Step>::empty());
}

/// There and back: converting a value from one unit to another of the same
/// quantity and back gives the value itself.
pub proof fn lemma_there_and_back(from: Unit, to: Unit, x: real)
    requires
        from.spec_category() == to.spec_category(),
        !from.is_banded(),
        !to.is_banded(),
    ensures
        eval(steps_between(to, from), eval(steps_between(from, to), x)) == x,
{
    let base = eval(from.spec_to_base(), x);
    let there = eval(to.spec_from_base(), base);
    lemma_eval_concat(from.spec_to_base(), to.spec_from_base(), x);
    lemma_eval_concat(to.spec_to_base(), from.spec_from_base(), there);
    lemma_round_trip_from_base(to, base);
    lemma_round_trip(from, x);
}

/// Units of different quantities are never converted: the request is
/// refused as a mismatch of the two quantities, and the answer in words
/// names the quantity of the source unit.
pub proof fn lemma_cross_category_refused(
    from_unit: Seq<char>,
    to_unit: Seq<char>,
    from: Unit,
    to: Unit,
    error: ConversionError,
    arguments: Arguments,
)
    requires
        Unit::resolved(from_unit) == Some(from),
        Unit::resolved(to_unit) == Some(to),
        from.spec_category() != to.spec_category(),
        error.describes(from_unit, to_unit),
        arguments matches Arguments::Given { from_unit: given_from, to_unit: given_to }
            && given_from@ == from_unit && given_to@ == to_unit,
    ensures
        !convertible(from_unit, to_unit),
        error.is_mismatch(from.spec_category(), to.spec_category()),
        arguments.refusal() == Some(
            unusable_target_text(from_unit, to_unit, from.spec_category()),
        ),
{
}

/// Case does not matter: two names with the same lowercase form denote the
/// same unit, or both denote none.
pub proof fn lemma_case_insensitive(a: Seq<char>, b: Seq<char>)
    requires
        lowercase(a) == lowercase(b),
    ensures
        Unit::resolved(a) == Unit::resolved(b),
{
}

} // verus!
