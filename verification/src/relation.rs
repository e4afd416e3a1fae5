//! How each unit relates to the base unit of its quantity.
//!
//! Every quantity has one base unit: meters, liters, kilograms, degrees
//! Celsius, bytes, pascals, meters per second. A conversion goes from the
//! source unit to the base unit and from there to the target unit. Each unit
//! has its steps in both directions; in exact arithmetic they amount to a
//! factor, or for temperatures to a factor and a shift.

use vstd::prelude::*;
use crate::beaufort::{force_of_speed, speed_of_force};
use crate::category::UnitType;
use crate::formula::{
    arithmetic, eval, inverse, lemma_eval_short, lemma_inverse_involution, ratio, well_formed,
    Step,
};
use crate::unit::Unit;

verus! {

/// Steps and factors that say the same in different words: to divide is to
/// multiply by the inverse, and two steps in a row make one factor.
proof fn lemma_same_factor(x: real)
    ensures
        x * ratio(1, 1) == x,
        x / ratio(1, 1) == x,
        x / ratio(1000, 1) == x * ratio(1, 1000),
        x * ratio(1000, 1) == x / ratio(1, 1000),
        x / ratio(8, 1) == x * ratio(1, 8),
        x * ratio(8, 1) == x / ratio(1, 8),
        x / ratio(36, 10) == x * ratio(10, 36),
        x * ratio(36, 10) == x / ratio(10, 36),
        x * ratio(1024, 1) / ratio(8, 1) == x * ratio(128, 1),
        x * ratio(8, 1) / ratio(1024, 1) == x / ratio(128, 1),
        x * ratio(1048576, 1) / ratio(8, 1) == x * ratio(131072, 1),
        x * ratio(8, 1) / ratio(1048576, 1) == x / ratio(131072, 1),
        x * ratio(1073741824, 1) / ratio(8, 1) == x * ratio(134217728, 1),
        x * ratio(8, 1) / ratio(1073741824, 1) == x / ratio(134217728, 1),
{
    assert(x * ratio(1, 1) == x && x / ratio(1, 1) == x) by (nonlinear_arith);
    assert(x / ratio(1000, 1) == x * ratio(1, 1000)) by (nonlinear_arith);
    assert(x * ratio(1000, 1) == x / ratio(1, 1000)) by (nonlinear_arith);
    assert(x / ratio(8, 1) == x * ratio(1, 8)) by (nonlinear_arith);
    assert(x * ratio(8, 1) == x / ratio(1, 8)) by (nonlinear_arith);
    assert(x / ratio(36, 10) == x * ratio(10, 36)) by (nonlinear_arith);
    assert(x * ratio(36, 10) == x / ratio(10, 36)) by (nonlinear_arith);
    assert(x * ratio(1024, 1) / ratio(8, 1) == x * ratio(128, 1)) by (nonlinear_arith);
    assert(x * ratio(8, 1) / ratio(1024, 1) == x / ratio(128, 1)) by (nonlinear_arith);
    assert(x * ratio(1048576, 1) / ratio(8, 1) == x * ratio(131072, 1)) by (nonlinear_arith);
    assert(x * ratio(8, 1) / ratio(1048576, 1) == x / ratio(131072, 1)) by (nonlinear_arith);
    assert(x * ratio(1073741824, 1) / ratio(8, 1) == x * ratio(134217728, 1))
        by (nonlinear_arith);
    assert(x * ratio(8, 1) / ratio(1073741824, 1) == x / ratio(134217728, 1))
        by (nonlinear_arith);
}

impl UnitType {
    /// The unit through which every conversion within the quantity goes.
    pub open spec fn spec_base_unit(self) -> Unit {
        match self {
            UnitType::Distance => Unit::Meters,
            UnitType::Volume => Unit::Liters,
            UnitType::Weight => Unit::Kilograms,
            UnitType::Temperature => Unit::Celsius,
            UnitType::Digital => Unit::Bytes,
            UnitType::Pressure => Unit::Pascal,
            UnitType::Speed => Unit::MetersPerSecond,
        }
    }

    /// The unit through which every conversion within the quantity goes.
    pub fn base_unit(&self) -> (unit: Unit)
        ensures
            unit == self.spec_base_unit(),
            unit.spec_category() == *self,
    {
        match self {
            UnitType::Distance => Unit::Meters,
            UnitType::Volume => Unit::Liters,
            UnitType::Weight => Unit::Kilograms,
            UnitType::Temperature => Unit::Celsius,
            UnitType::Digital => Unit::Bytes,
            UnitType::Pressure => Unit::Pascal,
            UnitType::Speed => Unit::MetersPerSecond,
        }
    }
}

impl Unit {
    /// Whether the unit is the base unit of its quantity.
    pub open spec fn is_base(self) -> bool {
        self == self.spec_category().spec_base_unit()
    }

    /// Whether the unit is a banded scale rather than a measure: its value
    /// cannot be won back from the base unit.
    pub open spec fn is_banded(self) -> bool {
        self == Unit::Beaufort
    }

    /// Whether one of this unit is a fixed number of base units, with zero
    /// at zero.
    pub open spec fn is_multiple(self) -> bool {
        self.spec_category() != UnitType::Temperature && !self.is_banded()
    }

    /// How many base units make one of this unit, where the unit is a
    /// multiple of its base unit.
    pub open spec fn factor(self) -> real {
        match self {
            Unit::Kilometers => ratio(1000, 1),
            Unit::Miles => ratio(1609344, 1000),
            Unit::Feet => ratio(3048, 10000),
            Unit::Inches => ratio(254, 10000),
            Unit::Yards => ratio(9144, 10000),
            Unit::NauticalMiles => ratio(1852, 1),
            Unit::Milliliters => ratio(1, 1000),
            Unit::Gallons => ratio(378541, 100000),
            Unit::Quarts => ratio(946353, 1000000),
            Unit::Pints => ratio(473176, 1000000),
            Unit::Cups => ratio(236588, 1000000),
            Unit::FluidOunces => ratio(295735, 10000000),
            Unit::Grams => ratio(1, 1000),
            Unit::Pounds => ratio(453592, 1000000),
            Unit::Ounces => ratio(283495, 10000000),
            Unit::Stones => ratio(635029, 100000),
            Unit::Kilobytes => ratio(1024, 1),
            Unit::Megabytes => ratio(1048576, 1),
            Unit::Gigabytes => ratio(1073741824, 1),
            Unit::Terabytes => ratio(1099511627776, 1),
            Unit::Bits => ratio(1, 8),
            Unit::Kilobits => ratio(128, 1),
            Unit::Megabits => ratio(131072, 1),
            Unit::Gigabits => ratio(134217728, 1),
            Unit::Kilopascal => ratio(1000, 1),
            Unit::Megapascal => ratio(1000000, 1),
            Unit::Bar => ratio(100000, 1),
            Unit::Psi => ratio(689476, 100),
            Unit::Atmosphere => ratio(101325, 1),
            Unit::Torr => ratio(133322, 1000),
            Unit::Mmhg => ratio(133322, 1000),
            Unit::KilometersPerHour => ratio(10, 36),
            Unit::MilesPerHour => ratio(44704, 100000),
            Unit::Knots => ratio(514444, 1000000),
            Unit::FeetPerSecond => ratio(3048, 10000),
            _ => ratio(1, 1),
        }
    }

    /// The value in the base unit of `x` in this unit, in exact arithmetic.
    pub open spec fn to_base_exact(self, x: real) -> real {
        match self {
            Unit::Fahrenheit => (x - ratio(32, 1)) * ratio(5, 1) / ratio(9, 1),
            Unit::Kelvin => x - ratio(27315, 100),
            Unit::Beaufort => speed_of_force(x),
            _ => x * self.factor(),
        }
    }

    /// The value in this unit of `y` in the base unit, in exact arithmetic.
    pub open spec fn from_base_exact(self, y: real) -> real {
        match self {
            Unit::Fahrenheit => y * ratio(9, 1) / ratio(5, 1) + ratio(32, 1),
            Unit::Kelvin => y + ratio(27315, 100),
            Unit::Beaufort => force_of_speed(y),
            _ => y / self.factor(),
        }
    }

    /// The steps from a value in this unit to the base unit.
    pub open spec fn spec_to_base(self) -> Seq<Step> {
        match self {
            Unit::Meters | Unit::Liters | Unit::Kilograms | Unit::Celsius | Unit::Bytes
            | Unit::Pascal | Unit::MetersPerSecond => Seq::empty(),
            Unit::Kilometers => seq![Step::times(1000, 1)],
            Unit::Miles => seq![Step::times(1609344, 1000)],
            Unit::Feet => seq![Step::times(3048, 10000)],
            Unit::Inches => seq![Step::times(254, 10000)],
            Unit::Yards => seq![Step::times(9144, 10000)],
            Unit::NauticalMiles => seq![Step::times(1852, 1)],
            Unit::Milliliters => seq![Step::over(1000, 1)],
            Unit::Gallons => seq![Step::times(378541, 100000)],
            Unit::Quarts => seq![Step::times(946353, 1000000)],
            Unit::Pints => seq![Step::times(473176, 1000000)],
            Unit::Cups => seq![Step::times(236588, 1000000)],
            Unit::FluidOunces => seq![Step::times(295735, 10000000)],
            Unit::Grams => seq![Step::over(1000, 1)],
            Unit::Pounds => seq![Step::times(453592, 1000000)],
            Unit::Ounces => seq![Step::times(283495, 10000000)],
            Unit::Stones => seq![Step::times(635029, 100000)],
            Unit::Fahrenheit => seq![Step::minus(32, 1), Step::times(5, 1), Step::over(9, 1)],
            Unit::Kelvin => seq![Step::minus(27315, 100)],
            Unit::Kilobytes => seq![Step::times(1024, 1)],
            Unit::Megabytes => seq![Step::times(1048576, 1)],
            Unit::Gigabytes => seq![Step::times(1073741824, 1)],
            Unit::Terabytes => seq![Step::times(1099511627776, 1)],
            Unit::Bits => seq![Step::over(8, 1)],
            Unit::Kilobits => seq![Step::times(1024, 1), Step::over(8, 1)],
            Unit::Megabits => seq![Step::times(1048576, 1), Step::over(8, 1)],
            Unit::Gigabits => seq![Step::times(1073741824, 1), Step::over(8, 1)],
            Unit::Kilopascal => seq![Step::times(1000, 1)],
            Unit::Megapascal => seq![Step::times(1000000, 1)],
            Unit::Bar => seq![Step::times(100000, 1)],
            Unit::Psi => seq![Step::times(689476, 100)],
            Unit::Atmosphere => seq![Step::times(101325, 1)],
            Unit::Torr => seq![Step::times(133322, 1000)],
            Unit::Mmhg => seq![Step::times(133322, 1000)],
            Unit::KilometersPerHour => seq![Step::over(36, 10)],
            Unit::MilesPerHour => seq![Step::times(44704, 100000)],
            Unit::Knots => seq![Step::times(514444, 1000000)],
            Unit::FeetPerSecond => seq![Step::times(3048, 10000)],
            Unit::Beaufort => seq![Step::ForceToSpeed],
        }
    }

    /// The steps from a value in the base unit to this unit.
    pub open spec fn spec_from_base(self) -> Seq<Step> {
        match self {
            Unit::Meters | Unit::Liters | Unit::Kilograms | Unit::Celsius | Unit::Bytes
            | Unit::Pascal | Unit::MetersPerSecond => Seq::empty(),
            Unit::Kilometers => seq![Step::over(1000, 1)],
            Unit::Miles => seq![Step::over(1609344, 1000)],
            Unit::Feet => seq![Step::over(3048, 10000)],
            Unit::Inches => seq![Step::over(254, 10000)],
            Unit::Yards => seq![Step::over(9144, 10000)],
            Unit::NauticalMiles => seq![Step::over(1852, 1)],
            Unit::Milliliters => seq![Step::times(1000, 1)],
            Unit::Gallons => seq![Step::over(378541, 100000)],
            Unit::Quarts => seq![Step::over(946353, 1000000)],
            Unit::Pints => seq![Step::over(473176, 1000000)],
            Unit::Cups => seq![Step::over(236588, 1000000)],
            Unit::FluidOunces => seq![Step::over(295735, 10000000)],
            Unit::Grams => seq![Step::times(1000, 1)],
            Unit::Pounds => seq![Step::over(453592, 1000000)],
            Unit::Ounces => seq![Step::over(283495, 10000000)],
            Unit::Stones => seq![Step::over(635029, 100000)],
            Unit::Fahrenheit => seq![Step::times(9, 1), Step::over(5, 1), Step::plus(32, 1)],
            Unit::Kelvin => seq![Step::plus(27315, 100)],
            Unit::Kilobytes => seq![Step::over(1024, 1)],
            Unit::Megabytes => seq![Step::over(1048576, 1)],
            Unit::Gigabytes => seq![Step::over(1073741824, 1)],
            Unit::Terabytes => seq![Step::over(1099511627776, 1)],
            Unit::Bits => seq![Step::times(8, 1)],
            Unit::Kilobits => seq![Step::times(8, 1), Step::over(1024, 1)],
            Unit::Megabits => seq![Step::times(8, 1), Step::over(1048576, 1)],
            Unit::Gigabits => seq![Step::times(8, 1), Step::over(1073741824, 1)],
            Unit::Kilopascal => seq![Step::over(1000, 1)],
            Unit::Megapascal => seq![Step::over(1000000, 1)],
            Unit::Bar => seq![Step::over(100000, 1)],
            Unit::Psi => seq![Step::over(689476, 100)],
            Unit::Atmosphere => seq![Step::over(101325, 1)],
            Unit::Torr => seq![Step::over(133322, 1000)],
            Unit::Mmhg => seq![Step::over(133322, 1000)],
            Unit::KilometersPerHour => seq![Step::times(36, 10)],
            Unit::MilesPerHour => seq![Step::over(44704, 100000)],
            Unit::Knots => seq![Step::over(514444, 1000000)],
            Unit::FeetPerSecond => seq![Step::over(3048, 10000)],
            Unit::Beaufort => seq![Step::SpeedToForce],
        }
    }

    /// The steps from a value in this unit to the base unit.
    pub fn to_base(&self) -> (steps: Vec<Step>)
        ensures
            steps@ == self.spec_to_base(),
    {
        let steps = match self {
            Unit::Meters | Unit::Liters | Unit::Kilograms | Unit::Celsius | Unit::Bytes
            | Unit::Pascal | Unit::MetersPerSecond => Vec::new(),
            Unit::Kilometers => vec![Step::times(1000, 1)],
            Unit::Miles => vec![Step::times(1609344, 1000)],
            Unit::Feet => vec![Step::times(3048, 10000)],
            Unit::Inches => vec![Step::times(254, 10000)],
            Unit::Yards => vec![Step::times(9144, 10000)],
            Unit::NauticalMiles => vec![Step::times(1852, 1)],
            Unit::Milliliters => vec![Step::over(1000, 1)],
            Unit::Gallons => vec![Step::times(378541, 100000)],
            Unit::Quarts => vec![Step::times(946353, 1000000)],
            Unit::Pints => vec![Step::times(473176, 1000000)],
            Unit::Cups => vec![Step::times(236588, 1000000)],
            Unit::FluidOunces => vec![Step::times(295735, 10000000)],
            Unit::Grams => vec![Step::over(1000, 1)],
            Unit::Pounds => vec![Step::times(453592, 1000000)],
            Unit::Ounces => vec![Step::times(283495, 10000000)],
            Unit::Stones => vec![Step::times(635029, 100000)],
            Unit::Fahrenheit => vec![Step::minus(32, 1), Step::times(5, 1), Step::over(9, 1)],
            Unit::Kelvin => vec![Step::minus(27315, 100)],
            Unit::Kilobytes => vec![Step::times(1024, 1)],
            Unit::Megabytes => vec![Step::times(1048576, 1)],
            Unit::Gigabytes => vec![Step::times(1073741824, 1)],
            Unit::Terabytes => vec![Step::times(1099511627776, 1)],
            Unit::Bits => vec![Step::over(8, 1)],
            Unit::Kilobits => vec![Step::times(1024, 1), Step::over(8, 1)],
            Unit::Megabits => vec![Step::times(1048576, 1), Step::over(8, 1)],
            Unit::Gigabits => vec![Step::times(1073741824, 1), Step::over(8, 1)],
            Unit::Kilopascal => vec![Step::times(1000, 1)],
            Unit::Megapascal => vec![Step::times(1000000, 1)],
            Unit::Bar => vec![Step::times(100000, 1)],
            Unit::Psi => vec![Step::times(689476, 100)],
            Unit::Atmosphere => vec![Step::times(101325, 1)],
            Unit::Torr => vec![Step::times(133322, 1000)],
            Unit::Mmhg => vec![Step::times(133322, 1000)],
            Unit::KilometersPerHour => vec![Step::over(36, 10)],
            Unit::MilesPerHour => vec![Step::times(44704, 100000)],
            Unit::Knots => vec![Step::times(514444, 1000000)],
            Unit::FeetPerSecond => vec![Step::times(3048, 10000)],
            Unit::Beaufort => vec![Step::ForceToSpeed],
        };
        assert(steps@ =~= self.spec_to_base());
        steps
    }

    /// The steps from a value in the base unit to this unit.
    pub fn from_base(&self) -> (steps: Vec<Step>)
        ensures
            steps@ == self.spec_from_base(),
    {
        let steps = match self {
            Unit::Meters | Unit::Liters | Unit::Kilograms | Unit::Celsius | Unit::Bytes
            | Unit::Pascal | Unit::MetersPerSecond => Vec::new(),
            Unit::Kilometers => vec![Step::over(1000, 1)],
            Unit::Miles => vec![Step::over(1609344, 1000)],
            Unit::Feet => vec![Step::over(3048, 10000)],
            Unit::Inches => vec![Step::over(254, 10000)],
            Unit::Yards => vec![Step::over(9144, 10000)],
            Unit::NauticalMiles => vec![Step::over(1852, 1)],
            Unit::Milliliters => vec![Step::times(1000, 1)],
            Unit::Gallons => vec![Step::over(378541, 100000)],
            Unit::Quarts => vec![Step::over(946353, 1000000)],
            Unit::Pints => vec![Step::over(473176, 1000000)],
            Unit::Cups => vec![Step::over(236588, 1000000)],
            Unit::FluidOunces => vec![Step::over(295735, 10000000)],
            Unit::Grams => vec![Step::times(1000, 1)],
            Unit::Pounds => vec![Step::over(453592, 1000000)],
            Unit::Ounces => vec![Step::over(283495, 10000000)],
            Unit::Stones => vec![Step::over(635029, 100000)],
            Unit::Fahrenheit => vec![Step::times(9, 1), Step::over(5, 1), Step::plus(32, 1)],
            Unit::Kelvin => vec![Step::plus(27315, 100)],
            Unit::Kilobytes => vec![Step::over(1024, 1)],
            Unit::Megabytes => vec![Step::over(1048576, 1)],
            Unit::Gigabytes => vec![Step::over(1073741824, 1)],
            Unit::Terabytes => vec![Step::over(1099511627776, 1)],
            Unit::Bits => vec![Step::times(8, 1)],
            Unit::Kilobits => vec![Step::times(8, 1), Step::over(1024, 1)],
            Unit::Megabits => vec![Step::times(8, 1), Step::over(1048576, 1)],
            Unit::Gigabits => vec![Step::times(8, 1), Step::over(1073741824, 1)],
            Unit::Kilopascal => vec![Step::over(1000, 1)],
            Unit::Megapascal => vec![Step::over(1000000, 1)],
            Unit::Bar => vec![Step::over(100000, 1)],
            Unit::Psi => vec![Step::over(689476, 100)],
            Unit::Atmosphere => vec![Step::over(101325, 1)],
            Unit::Torr => vec![Step::over(133322, 1000)],
            Unit::Mmhg => vec![Step::over(133322, 1000)],
            Unit::KilometersPerHour => vec![Step::times(36, 10)],
            Unit::MilesPerHour => vec![Step::over(44704, 100000)],
            Unit::Knots => vec![Step::over(514444, 1000000)],
            Unit::FeetPerSecond => vec![Step::over(3048, 10000)],
            Unit::Beaufort => vec![Step::SpeedToForce],
        };
        assert(steps@ =~= self.spec_from_base());
        steps
    }

    /// The steps back are the steps there, undone one by one from the last
    /// to the first; and the other way round.
    pub proof fn lemma_steps_mirror(self)
        ensures
            self.spec_from_base() == inverse(self.spec_to_base()),
            self.spec_to_base() == inverse(self.spec_from_base()),
    {
        assert(self.spec_from_base() =~= inverse(self.spec_to_base()));
        assert(self.spec_to_base() =~= inverse(self.spec_from_base()));
    }

    /// A base unit needs no steps, in either direction.
    pub proof fn lemma_base_unit_steps(self)
        requires
            self.is_base(),
        ensures
            self.spec_to_base() == Seq::<Step>::empty(),
            self.spec_from_base() == Seq::<Step>::empty(),
    {
    }

    /// The constants of a unit's steps are well formed; and but for the
    /// banded scale, the steps are plain arithmetic.
    pub proof fn lemma_steps_arithmetic(self)
        ensures
            well_formed(self.spec_to_base()),
            well_formed(self.spec_from_base()),
            !self.is_banded() ==> arithmetic(self.spec_to_base()),
            !self.is_banded() ==> arithmetic(self.spec_from_base()),
    {
        self.lemma_steps_mirror();
        if !self.is_banded() {
            lemma_inverse_involution(self.spec_to_base());
        }
    }

    /// In exact arithmetic the steps of a unit amount to its factor, for
    /// temperatures to factor and shift, and for the wind scale to its table
    /// and its bands.
    pub proof fn lemma_steps_exact(self, x: real)
        ensures
            eval(self.spec_to_base(), x) == self.to_base_exact(x),
            eval(self.spec_from_base(), x) == self.from_base_exact(x),
    {
        lemma_eval_short(self.spec_to_base(), x);
        lemma_eval_short(self.spec_from_base(), x);
        lemma_same_factor(x);
    }
}

} // verus!
