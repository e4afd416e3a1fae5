//! The unit catalog: every unit, the names it answers to and the quantity
//! it measures.

use vstd::prelude::*;
use vstd::string::*;
use crate::category::UnitType;
use crate::text::{lowercase, same_text, to_lowercase};

verus! {

/// A unit of the catalog.
#[derive(Clone, Copy, Debug, PartialEq, Eq, Structural)]
pub enum Unit {
    Meters,
    Kilometers,
    Miles,
    Feet,
    Inches,
    Yards,
    NauticalMiles,
    Liters,
    Milliliters,
    Gallons,
    Quarts,
    Pints,
    Cups,
    FluidOunces,
    Kilograms,
    Grams,
    Pounds,
    Ounces,
    Stones,
    Celsius,
    Fahrenheit,
    Kelvin,
    Bytes,
    Kilobytes,
    Megabytes,
    Gigabytes,
    Terabytes,
    Bits,
    Kilobits,
    Megabits,
    Gigabits,
    Pascal,
    Kilopascal,
    Megapascal,
    Bar,
    Psi,
    Atmosphere,
    Torr,
    Mmhg,
    MetersPerSecond,
    KilometersPerHour,
    MilesPerHour,
    Knots,
    FeetPerSecond,
    Beaufort,
}

impl Unit {
    /// The quantity that the unit measures.
    pub open spec fn spec_category(self) -> UnitType {
        match self {
            Unit::Meters | Unit::Kilometers | Unit::Miles | Unit::Feet | Unit::Inches
            | Unit::Yards | Unit::NauticalMiles => UnitType::Distance,
            Unit::Liters | Unit::Milliliters | Unit::Gallons | Unit::Quarts | Unit::Pints
            | Unit::Cups | Unit::FluidOunces => UnitType::Volume,
            Unit::Kilograms | Unit::Grams | Unit::Pounds | Unit::Ounces | Unit::Stones =>
                UnitType::Weight,
            Unit::Celsius | Unit::Fahrenheit | Unit::Kelvin => UnitType::Temperature,
            Unit::Bytes | Unit::Kilobytes | Unit::Megabytes | Unit::Gigabytes | Unit::Terabytes
            | Unit::Bits | Unit::Kilobits | Unit::Megabits | Unit::Gigabits => UnitType::Digital,
            Unit::Pascal | Unit::Kilopascal | Unit::Megapascal | Unit::Bar | Unit::Psi
            | Unit::Atmosphere | Unit::Torr | Unit::Mmhg => UnitType::Pressure,
            Unit::MetersPerSecond | Unit::KilometersPerHour | Unit::MilesPerHour | Unit::Knots
            | Unit::FeetPerSecond | Unit::Beaufort => UnitType::Speed,
        }
    }

    /// The unit's full name.
    pub open spec fn spec_full_name(self) -> Seq<char> {
        match self {
            Unit::Meters => "meters"@,
            Unit::Kilometers => "kilometers"@,
            Unit::Miles => "miles"@,
            Unit::Feet => "feet"@,
            Unit::Inches => "inches"@,
            Unit::Yards => "yards"@,
            Unit::NauticalMiles => "nautical_miles"@,
            Unit::Liters => "liters"@,
            Unit::Milliliters => "milliliters"@,
            Unit::Gallons => "gallons"@,
            Unit::Quarts => "quarts"@,
            Unit::Pints => "pints"@,
            Unit::Cups => "cups"@,
            Unit::FluidOunces => "fluid_ounces"@,
            Unit::Kilograms => "kilograms"@,
            Unit::Grams => "grams"@,
            Unit::Pounds => "pounds"@,
            Unit::Ounces => "ounces"@,
            Unit::Stones => "stones"@,
            Unit::Celsius => "celsius"@,
            Unit::Fahrenheit => "fahrenheit"@,
            Unit::Kelvin => "kelvin"@,
            Unit::Bytes => "bytes"@,
            Unit::Kilobytes => "kilobytes"@,
            Unit::Megabytes => "megabytes"@,
            Unit::Gigabytes => "gigabytes"@,
            Unit::Terabytes => "terabytes"@,
            Unit::Bits => "bits"@,
            Unit::Kilobits => "kilobits"@,
            Unit::Megabits => "megabits"@,
            Unit::Gigabits => "gigabits"@,
            Unit::Pascal => "pascal"@,
            Unit::Kilopascal => "kilopascal"@,
            Unit::Megapascal => "megapascal"@,
            Unit::Bar => "bar"@,
            Unit::Psi => "psi"@,
            Unit::Atmosphere => "atmosphere"@,
            Unit::Torr => "torr"@,
            Unit::Mmhg => "mmhg"@,
            Unit::MetersPerSecond => "meters_per_second"@,
            Unit::KilometersPerHour => "kilometers_per_hour"@,
            Unit::MilesPerHour => "miles_per_hour"@,
            Unit::Knots => "knots"@,
            Unit::FeetPerSecond => "feet_per_second"@,
            Unit::Beaufort => "beaufort"@,
        }
    }

    /// Whether `key` is the unit's full name or one of its abbreviations,
    /// letter for letter.
    pub open spec fn is_alias(self, key: Seq<char>) -> bool {
        match self {
            Unit::Meters => key == self.spec_full_name() || key == "m"@,
            Unit::Kilometers => key == self.spec_full_name() || key == "km"@,
            Unit::Miles => key == self.spec_full_name() || key == "mi"@,
            Unit::Feet => key == self.spec_full_name() || key == "ft"@,
            Unit::Inches => key == self.spec_full_name() || key == "in"@,
            Unit::Yards => key == self.spec_full_name() || key == "yd"@,
            Unit::NauticalMiles => key == self.spec_full_name() || key == "nmi"@,
            Unit::Liters => key == self.spec_full_name() || key == "l"@,
            Unit::Milliliters => key == self.spec_full_name() || key == "ml"@,
            Unit::Gallons => key == self.spec_full_name() || key == "gal"@,
            Unit::Quarts => key == self.spec_full_name() || key == "qt"@,
            Unit::Pints => key == self.spec_full_name() || key == "pt"@,
            Unit::Cups => key == self.spec_full_name(),
            Unit::FluidOunces => key == self.spec_full_name() || key == "fl_oz"@,
            Unit::Kilograms => key == self.spec_full_name() || key == "kg"@,
            Unit::Grams => key == self.spec_full_name() || key == "g"@,
            Unit::Pounds => key == self.spec_full_name() || key == "lb"@ || key == "lbs"@,
            Unit::Ounces => key == self.spec_full_name() || key == "oz"@,
            Unit::Stones => key == self.spec_full_name() || key == "st"@,
            Unit::Celsius => key == self.spec_full_name() || key == "c"@,
            Unit::Fahrenheit => key == self.spec_full_name() || key == "f"@,
            Unit::Kelvin => key == self.spec_full_name() || key == "k"@,
            Unit::Bytes => key == self.spec_full_name() || key == "b"@,
            Unit::Kilobytes => key == self.spec_full_name() || key == "kb"@,
            Unit::Megabytes => key == self.spec_full_name() || key == "mb"@,
            Unit::Gigabytes => key == self.spec_full_name() || key == "gb"@,
            Unit::Terabytes => key == self.spec_full_name() || key == "tb"@,
            Unit::Bits => key == self.spec_full_name(),
            Unit::Kilobits => key == self.spec_full_name() || key == "kbit"@,
            Unit::Megabits => key == self.spec_full_name() || key == "mbit"@,
            Unit::Gigabits => key == self.spec_full_name() || key == "gbit"@,
            Unit::Pascal => key == self.spec_full_name() || key == "pa"@,
            Unit::Kilopascal => key == self.spec_full_name() || key == "kpa"@,
            Unit::Megapascal => key == self.spec_full_name() || key == "mpa"@,
            Unit::Bar => key == self.spec_full_name(),
            Unit::Psi => key == self.spec_full_name(),
            Unit::Atmosphere => key == self.spec_full_name() || key == "atm"@,
            Unit::Torr => key == self.spec_full_name(),
            Unit::Mmhg => key == self.spec_full_name(),
            Unit::MetersPerSecond => key == self.spec_full_name() || key == "mps"@ || key == "m/s"@,
                        Unit::KilometersPerHour => {
                ||| key == self.spec_full_name()
                ||| key == "kph"@
                ||| key == "km/h"@
            },
            Unit::MilesPerHour => key == self.spec_full_name() || key == "mph"@,
            Unit::Knots => key == self.spec_full_name() || key == "kt"@,
            Unit::FeetPerSecond => key == self.spec_full_name() || key == "fps"@ || key == "ft/s"@,
            Unit::Beaufort => key == self.spec_full_name(),
        }
    }

    /// The unit that answers to `key`, if there is one.
    pub open spec fn lookup(key: Seq<char>) -> Option<Unit> {
        if exists|unit: Unit| unit.is_alias(key) {
            Some(choose|unit: Unit| unit.is_alias(key))
        } else {
            None
        }
    }

    /// The unit that a name denotes once its case is folded.
    pub open spec fn resolved(name: Seq<char>) -> Option<Unit> {
        Unit::lookup(lowercase(name))
    }

    /// The quantity that the unit measures.
    pub fn category(&self) -> (kind: UnitType)
        ensures
            kind == self.spec_category(),
    {
        match self {
            Unit::Meters | Unit::Kilometers | Unit::Miles | Unit::Feet | Unit::Inches
            | Unit::Yards | Unit::NauticalMiles => UnitType::Distance,
            Unit::Liters | Unit::Milliliters | Unit::Gallons | Unit::Quarts | Unit::Pints
            | Unit::Cups | Unit::FluidOunces => UnitType::Volume,
            Unit::Kilograms | Unit::Grams | Unit::Pounds | Unit::Ounces | Unit::Stones =>
                UnitType::Weight,
            Unit::Celsius | Unit::Fahrenheit | Unit::Kelvin => UnitType::Temperature,
            Unit::Bytes | Unit::Kilobytes | Unit::Megabytes | Unit::Gigabytes | Unit::Terabytes
            | Unit::Bits | Unit::Kilobits | Unit::Megabits | Unit::Gigabits => UnitType::Digital,
            Unit::Pascal | Unit::Kilopascal | Unit::Megapascal | Unit::Bar | Unit::Psi
            | Unit::Atmosphere | Unit::Torr | Unit::Mmhg => UnitType::Pressure,
            Unit::MetersPerSecond | Unit::KilometersPerHour | Unit::MilesPerHour | Unit::Knots
            | Unit::FeetPerSecond | Unit::Beaufort => UnitType::Speed,
        }
    }

    /// The unit's full name.
    pub fn full_name(&self) -> (text: &'static str)
        ensures
            text@ == self.spec_full_name(),
    {
        match self {
            Unit::Meters => "meters",
            Unit::Kilometers => "kilometers",
            Unit::Miles => "miles",
            Unit::Feet => "feet",
            Unit::Inches => "inches",
            Unit::Yards => "yards",
            Unit::NauticalMiles => "nautical_miles",
            Unit::Liters => "liters",
            Unit::Milliliters => "milliliters",
            Unit::Gallons => "gallons",
            Unit::Quarts => "quarts",
            Unit::Pints => "pints",
            Unit::Cups => "cups",
            Unit::FluidOunces => "fluid_ounces",
            Unit::Kilograms => "kilograms",
            Unit::Grams => "grams",
            Unit::Pounds => "pounds",
            Unit::Ounces => "ounces",
            Unit::Stones => "stones",
            Unit::Celsius => "celsius",
            Unit::Fahrenheit => "fahrenheit",
            Unit::Kelvin => "kelvin",
            Unit::Bytes => "bytes",
            Unit::Kilobytes => "kilobytes",
            Unit::Megabytes => "megabytes",
            Unit::Gigabytes => "gigabytes",
            Unit::Terabytes => "terabytes",
            Unit::Bits => "bits",
            Unit::Kilobits => "kilobits",
            Unit::Megabits => "megabits",
            Unit::Gigabits => "gigabits",
            Unit::Pascal => "pascal",
            Unit::Kilopascal => "kilopascal",
            Unit::Megapascal => "megapascal",
            Unit::Bar => "bar",
            Unit::Psi => "psi",
            Unit::Atmosphere => "atmosphere",
            Unit::Torr => "torr",
            Unit::Mmhg => "mmhg",
            Unit::MetersPerSecond => "meters_per_second",
            Unit::KilometersPerHour => "kilometers_per_hour",
            Unit::MilesPerHour => "miles_per_hour",
            Unit::Knots => "knots",
            Unit::FeetPerSecond => "feet_per_second",
            Unit::Beaufort => "beaufort",
        }
    }

    /// What each name of the catalog spells, letter by letter.
    pub proof fn lemma_spelling()
        ensures
            "meters"@ == seq!['m', 'e', 't', 'e', 'r', 's'],
            "m"@ == seq!['m'],
            "kilometers"@ == seq!['k', 'i', 'l', 'o', 'm', 'e', 't', 'e', 'r', 's'],
            "km"@ == seq!['k', 'm'],
            "miles"@ == seq!['m', 'i', 'l', 'e', 's'],
            "mi"@ == seq!['m', 'i'],
            "feet"@ == seq!['f', 'e', 'e', 't'],
            "ft"@ == seq!['f', 't'],
            "inches"@ == seq!['i', 'n', 'c', 'h', 'e', 's'],
            "in"@ == seq!['i', 'n'],
            "yards"@ == seq!['y', 'a', 'r', 'd', 's'],
            "yd"@ == seq!['y', 'd'],
            "nautical_miles"@ == seq![
                'n',
                'a',
                'u',
                't',
                'i',
                'c',
                'a',
                'l',
                '_',
                'm',
                'i',
                'l',
                'e',
                's',
            ],
            "nmi"@ == seq!['n', 'm', 'i'],
            "liters"@ == seq!['l', 'i', 't', 'e', 'r', 's'],
            "l"@ == seq!['l'],
            "milliliters"@ == seq!['m', 'i', 'l', 'l', 'i', 'l', 'i', 't', 'e', 'r', 's'],
            "ml"@ == seq!['m', 'l'],
            "gallons"@ == seq!['g', 'a', 'l', 'l', 'o', 'n', 's'],
            "gal"@ == seq!['g', 'a', 'l'],
            "quarts"@ == seq!['q', 'u', 'a', 'r', 't', 's'],
            "qt"@ == seq!['q', 't'],
            "pints"@ == seq!['p', 'i', 'n', 't', 's'],
            "pt"@ == seq!['p', 't'],
            "cups"@ == seq!['c', 'u', 'p', 's'],
            "fluid_ounces"@ == seq!['f', 'l', 'u', 'i', 'd', '_', 'o', 'u', 'n', 'c', 'e', 's'],
            "fl_oz"@ == seq!['f', 'l', '_', 'o', 'z'],
            "kilograms"@ == seq!['k', 'i', 'l', 'o', 'g', 'r', 'a', 'm', 's'],
            "kg"@ == seq!['k', 'g'],
            "grams"@ == seq!['g', 'r', 'a', 'm', 's'],
            "g"@ == seq!['g'],
            "pounds"@ == seq!['p', 'o', 'u', 'n', 'd', 's'],
            "lb"@ == seq!['l', 'b'],
            "lbs"@ == seq!['l', 'b', 's'],
            "ounces"@ == seq!['o', 'u', 'n', 'c', 'e', 's'],
            "oz"@ == seq!['o', 'z'],
            "stones"@ == seq!['s', 't', 'o', 'n', 'e', 's'],
            "st"@ == seq!['s', 't'],
            "celsius"@ == seq!['c', 'e', 'l', 's', 'i', 'u', 's'],
            "c"@ == seq!['c'],
            "fahrenheit"@ == seq!['f', 'a', 'h', 'r', 'e', 'n', 'h', 'e', 'i', 't'],
            "f"@ == seq!['f'],
            "kelvin"@ == seq!['k', 'e', 'l', 'v', 'i', 'n'],
            "k"@ == seq!['k'],
            "bytes"@ == seq!['b', 'y', 't', 'e', 's'],
            "b"@ == seq!['b'],
            "kilobytes"@ == seq!['k', 'i', 'l', 'o', 'b', 'y', 't', 'e', 's'],
            "kb"@ == seq!['k', 'b'],
            "megabytes"@ == seq!['m', 'e', 'g', 'a', 'b', 'y', 't', 'e', 's'],
            "mb"@ == seq!['m', 'b'],
            "gigabytes"@ == seq!['g', 'i', 'g', 'a', 'b', 'y', 't', 'e', 's'],
            "gb"@ == seq!['g', 'b'],
            "terabytes"@ == seq!['t', 'e', 'r', 'a', 'b', 'y', 't', 'e', 's'],
            "tb"@ == seq!['t', 'b'],
            "bits"@ == seq!['b', 'i', 't', 's'],
            "kilobits"@ == seq!['k', 'i', 'l', 'o', 'b', 'i', 't', 's'],
            "kbit"@ == seq!['k', 'b', 'i', 't'],
            "megabits"@ == seq!['m', 'e', 'g', 'a', 'b', 'i', 't', 's'],
            "mbit"@ == seq!['m', 'b', 'i', 't'],
            "gigabits"@ == seq!['g', 'i', 'g', 'a', 'b', 'i', 't', 's'],
            "gbit"@ == seq!['g', 'b', 'i', 't'],
            "pascal"@ == seq!['p', 'a', 's', 'c', 'a', 'l'],
            "pa"@ == seq!['p', 'a'],
            "kilopascal"@ == seq!['k', 'i', 'l', 'o', 'p', 'a', 's', 'c', 'a', 'l'],
            "kpa"@ == seq!['k', 'p', 'a'],
            "megapascal"@ == seq!['m', 'e', 'g', 'a', 'p', 'a', 's', 'c', 'a', 'l'],
            "mpa"@ == seq!['m', 'p', 'a'],
            "bar"@ == seq!['b', 'a', 'r'],
            "psi"@ == seq!['p', 's', 'i'],
            "atmosphere"@ == seq!['a', 't', 'm', 'o', 's', 'p', 'h', 'e', 'r', 'e'],
            "atm"@ == seq!['a', 't', 'm'],
            "torr"@ == seq!['t', 'o', 'r', 'r'],
            "mmhg"@ == seq!['m', 'm', 'h', 'g'],
            "meters_per_second"@ == seq![
                'm',
                'e',
                't',
                'e',
                'r',
                's',
                '_',
                'p',
                'e',
                'r',
                '_',
                's',
                'e',
                'c',
                'o',
                'n',
                'd',
            ],
            "mps"@ == seq!['m', 'p', 's'],
            "m/s"@ == seq!['m', '/', 's'],
            "kilometers_per_hour"@ == seq![
                'k',
                'i',
                'l',
                'o',
                'm',
                'e',
                't',
                'e',
                'r',
                's',
                '_',
                'p',
                'e',
                'r',
                '_',
                'h',
                'o',
                'u',
                'r',
            ],
            "kph"@ == seq!['k', 'p', 'h'],
            "km/h"@ == seq!['k', 'm', '/', 'h'],
            "miles_per_hour"@ == seq![
                'm',
                'i',
                'l',
                'e',
                's',
                '_',
                'p',
                'e',
                'r',
                '_',
                'h',
                'o',
                'u',
                'r',
            ],
            "mph"@ == seq!['m', 'p', 'h'],
            "knots"@ == seq!['k', 'n', 'o', 't', 's'],
            "kt"@ == seq!['k', 't'],
            "feet_per_second"@ == seq![
                'f',
                'e',
                'e',
                't',
                '_',
                'p',
                'e',
                'r',
                '_',
                's',
                'e',
                'c',
                'o',
                'n',
                'd',
            ],
            "fps"@ == seq!['f', 'p', 's'],
            "ft/s"@ == seq!['f', 't', '/', 's'],
            "beaufort"@ == seq!['b', 'e', 'a', 'u', 'f', 'o', 'r', 't'],
    {
        reveal_strlit("meters");
        reveal_strlit("m");
        reveal_strlit("kilometers");
        reveal_strlit("km");
        reveal_strlit("miles");
        reveal_strlit("mi");
        reveal_strlit("feet");
        reveal_strlit("ft");
        reveal_strlit("inches");
        reveal_strlit("in");
        reveal_strlit("yards");
        reveal_strlit("yd");
        reveal_strlit("nautical_miles");
        reveal_strlit("nmi");
        reveal_strlit("liters");
        reveal_strlit("l");
        reveal_strlit("milliliters");
        reveal_strlit("ml");
        reveal_strlit("gallons");
        reveal_strlit("gal");
        reveal_strlit("quarts");
        reveal_strlit("qt");
        reveal_strlit("pints");
        reveal_strlit("pt");
        reveal_strlit("cups");
        reveal_strlit("fluid_ounces");
        reveal_strlit("fl_oz");
        reveal_strlit("kilograms");
        reveal_strlit("kg");
        reveal_strlit("grams");
        reveal_strlit("g");
        reveal_strlit("pounds");
        reveal_strlit("lb");
        reveal_strlit("lbs");
        reveal_strlit("ounces");
        reveal_strlit("oz");
        reveal_strlit("stones");
        reveal_strlit("st");
        reveal_strlit("celsius");
        reveal_strlit("c");
        reveal_strlit("fahrenheit");
        reveal_strlit("f");
        reveal_strlit("kelvin");
        reveal_strlit("k");
        reveal_strlit("bytes");
        reveal_strlit("b");
        reveal_strlit("kilobytes");
        reveal_strlit("kb");
        reveal_strlit("megabytes");
        reveal_strlit("mb");
        reveal_strlit("gigabytes");
        reveal_strlit("gb");
        reveal_strlit("terabytes");
        reveal_strlit("tb");
        reveal_strlit("bits");
        reveal_strlit("kilobits");
        reveal_strlit("kbit");
        reveal_strlit("megabits");
        reveal_strlit("mbit");
        reveal_strlit("gigabits");
        reveal_strlit("gbit");
        reveal_strlit("pascal");
        reveal_strlit("pa");
        reveal_strlit("kilopascal");
        reveal_strlit("kpa");
        reveal_strlit("megapascal");
        reveal_strlit("mpa");
        reveal_strlit("bar");
        reveal_strlit("psi");
        reveal_strlit("atmosphere");
        reveal_strlit("atm");
        reveal_strlit("torr");
        reveal_strlit("mmhg");
        reveal_strlit("meters_per_second");
        reveal_strlit("mps");
        reveal_strlit("m/s");
        reveal_strlit("kilometers_per_hour");
        reveal_strlit("kph");
        reveal_strlit("km/h");
        reveal_strlit("miles_per_hour");
        reveal_strlit("mph");
        reveal_strlit("knots");
        reveal_strlit("kt");
        reveal_strlit("feet_per_second");
        reveal_strlit("fps");
        reveal_strlit("ft/s");
        reveal_strlit("beaufort");
    }

    /// No name belongs to two units.
    pub proof fn lemma_alias_unique(a: Unit, b: Unit, key: Seq<char>)
        requires
            a.is_alias(key),
            b.is_alias(key),
        ensures
            a == b,
    {
        Unit::lemma_spelling();
        // Two names differ in their length or in one of their first five letters.
        let head = (key.len(), key[0], key[1], key[2], key[3], key[4]);
        assert(head.0 == key.len() && head.5 == key[4]);
    }

    /// A unit found under a name is the only one that answers to it.
    pub proof fn lemma_lookup_alias(unit: Unit, key: Seq<char>)
        ensures
            unit.is_alias(key) <==> Unit::lookup(key) == Some(unit),
    {
        if unit.is_alias(key) {
            let found = choose|other: Unit| other.is_alias(key);
            Unit::lemma_alias_unique(unit, found, key);
        }
    }

    /// Looks a unit up by a name in lower case, letter for letter.
    pub fn from_alias(key: &str) -> (found: Option<Unit>)
        ensures
            found == Unit::lookup(key@),
    {
        let found =
            if same_text(key, "meters") || same_text(key, "m") {
                Some(Unit::Meters)
            } else if same_text(key, "kilometers") || same_text(key, "km") {
                Some(Unit::Kilometers)
            } else if same_text(key, "miles") || same_text(key, "mi") {
                Some(Unit::Miles)
            } else if same_text(key, "feet") || same_text(key, "ft") {
                Some(Unit::Feet)
            } else if same_text(key, "inches") || same_text(key, "in") {
                Some(Unit::Inches)
            } else if same_text(key, "yards") || same_text(key, "yd") {
                Some(Unit::Yards)
            } else if same_text(key, "nautical_miles") || same_text(key, "nmi") {
                Some(Unit::NauticalMiles)
            } else if same_text(key, "liters") || same_text(key, "l") {
                Some(Unit::Liters)
            } else if same_text(key, "milliliters") || same_text(key, "ml") {
                Some(Unit::Milliliters)
            } else if same_text(key, "gallons") || same_text(key, "gal") {
                Some(Unit::Gallons)
            } else if same_text(key, "quarts") || same_text(key, "qt") {
                Some(Unit::Quarts)
            } else if same_text(key, "pints") || same_text(key, "pt") {
                Some(Unit::Pints)
            } else if same_text(key, "cups") {
                Some(Unit::Cups)
            } else if same_text(key, "fluid_ounces") || same_text(key, "fl_oz") {
                Some(Unit::FluidOunces)
            } else if same_text(key, "kilograms") || same_text(key, "kg") {
                Some(Unit::Kilograms)
            } else if same_text(key, "grams") || same_text(key, "g") {
                Some(Unit::Grams)
            } else if same_text(key, "pounds") || same_text(key, "lb") || same_text(key, "lbs") {
                Some(Unit::Pounds)
            } else if same_text(key, "ounces") || same_text(key, "oz") {
                Some(Unit::Ounces)
            } else if same_text(key, "stones") || same_text(key, "st") {
                Some(Unit::Stones)
            } else if same_text(key, "celsius") || same_text(key, "c") {
                Some(Unit::Celsius)
            } else if same_text(key, "fahrenheit") || same_text(key, "f") {
                Some(Unit::Fahrenheit)
            } else if same_text(key, "kelvin") || same_text(key, "k") {
                Some(Unit::Kelvin)
            } else if same_text(key, "bytes") || same_text(key, "b") {
                Some(Unit::Bytes)
            } else if same_text(key, "kilobytes") || same_text(key, "kb") {
                Some(Unit::Kilobytes)
            } else if same_text(key, "megabytes") || same_text(key, "mb") {
                Some(Unit::Megabytes)
            } else if same_text(key, "gigabytes") || same_text(key, "gb") {
                Some(Unit::Gigabytes)
            } else if same_text(key, "terabytes") || same_text(key, "tb") {
                Some(Unit::Terabytes)
            } else if same_text(key, "bits") {
                Some(Unit::Bits)
            } else if same_text(key, "kilobits") || same_text(key, "kbit") {
                Some(Unit::Kilobits)
            } else if same_text(key, "megabits") || same_text(key, "mbit") {
                Some(Unit::Megabits)
            } else if same_text(key, "gigabits") || same_text(key, "gbit") {
                Some(Unit::Gigabits)
            } else if same_text(key, "pascal") || same_text(key, "pa") {
                Some(Unit::Pascal)
            } else if same_text(key, "kilopascal") || same_text(key, "kpa") {
                Some(Unit::Kilopascal)
            } else if same_text(key, "megapascal") || same_text(key, "mpa") {
                Some(Unit::Megapascal)
            } else if same_text(key, "bar") {
                Some(Unit::Bar)
            } else if same_text(key, "psi") {
                Some(Unit::Psi)
            } else if same_text(key, "atmosphere") || same_text(key, "atm") {
                Some(Unit::Atmosphere)
            } else if same_text(key, "torr") {
                Some(Unit::Torr)
            } else if same_text(key, "mmhg") {
                Some(Unit::Mmhg)
            } else if same_text(key, "meters_per_second")
                || same_text(key, "mps")
                || same_text(key, "m/s")
            {
                Some(Unit::MetersPerSecond)
            } else if same_text(key, "kilometers_per_hour")
                || same_text(key, "kph")
                || same_text(key, "km/h")
            {
                Some(Unit::KilometersPerHour)
            } else if same_text(key, "miles_per_hour") || same_text(key, "mph") {
                Some(Unit::MilesPerHour)
            } else if same_text(key, "knots") || same_text(key, "kt") {
                Some(Unit::Knots)
            } else if same_text(key, "feet_per_second")
                || same_text(key, "fps")
                || same_text(key, "ft/s")
            {
                Some(Unit::FeetPerSecond)
            } else if same_text(key, "beaufort") {
                Some(Unit::Beaufort)
            } else {
                None
            };
        proof {
            match found {
                Some(unit) => {
                    Unit::lemma_lookup_alias(unit, key@);
                },
                None => {
                    assert forall|unit: Unit| !unit.is_alias(key@) by {}
                },
            }
        }
        found
    }

    /// Looks a unit up by a name in any mix of upper and lower case.
    pub fn resolve(name: &str) -> (found: Option<Unit>)
        ensures
            found == Unit::resolved(name@),
    {
        let key = to_lowercase(name);
        Unit::from_alias(key.as_str())
    }
}

impl UnitType {
    /// The units of the quantity, in the order in which they are listed.
    pub open spec fn spec_units(self) -> Seq<Unit> {
        match self {
            UnitType::Distance => seq![
                Unit::Meters,
                Unit::Kilometers,
                Unit::Miles,
                Unit::Feet,
                Unit::Inches,
                Unit::Yards,
                Unit::NauticalMiles,
            ],
            UnitType::Volume => seq![
                Unit::Liters,
                Unit::Milliliters,
                Unit::Gallons,
                Unit::Quarts,
                Unit::Pints,
                Unit::Cups,
                Unit::FluidOunces,
            ],
            UnitType::Weight => seq![
                Unit::Kilograms,
                Unit::Grams,
                Unit::Pounds,
                Unit::Ounces,
                Unit::Stones,
            ],
            UnitType::Temperature => seq![
                Unit::Celsius,
                Unit::Fahrenheit,
                Unit::Kelvin,
            ],
            UnitType::Digital => seq![
                Unit::Bytes,
                Unit::Kilobytes,
                Unit::Megabytes,
                Unit::Gigabytes,
                Unit::Terabytes,
                Unit::Bits,
                Unit::Kilobits,
                Unit::Megabits,
                Unit::Gigabits,
            ],
            UnitType::Pressure => seq![
                Unit::Pascal,
                Unit::Kilopascal,
                Unit::Megapascal,
                Unit::Bar,
                Unit::Psi,
                Unit::Atmosphere,
                Unit::Torr,
                Unit::Mmhg,
            ],
            UnitType::Speed => seq![
                Unit::MetersPerSecond,
                Unit::KilometersPerHour,
                Unit::MilesPerHour,
                Unit::Knots,
                Unit::FeetPerSecond,
                Unit::Beaufort,
            ],
        }
    }

    /// The units of the quantity, in the order in which they are listed.
    pub fn units(&self) -> (members: Vec<Unit>)
        ensures
            members@ == self.spec_units(),
    {
        let members = match self {
            UnitType::Distance => vec![
                Unit::Meters,
                Unit::Kilometers,
                Unit::Miles,
                Unit::Feet,
                Unit::Inches,
                Unit::Yards,
                Unit::NauticalMiles,
            ],
            UnitType::Volume => vec![
                Unit::Liters,
                Unit::Milliliters,
                Unit::Gallons,
                Unit::Quarts,
                Unit::Pints,
                Unit::Cups,
                Unit::FluidOunces,
            ],
            UnitType::Weight => vec![
                Unit::Kilograms,
                Unit::Grams,
                Unit::Pounds,
                Unit::Ounces,
                Unit::Stones,
            ],
            UnitType::Temperature => vec![
                Unit::Celsius,
                Unit::Fahrenheit,
                Unit::Kelvin,
            ],
            UnitType::Digital => vec![
                Unit::Bytes,
                Unit::Kilobytes,
                Unit::Megabytes,
                Unit::Gigabytes,
                Unit::Terabytes,
                Unit::Bits,
                Unit::Kilobits,
                Unit::Megabits,
                Unit::Gigabits,
            ],
            UnitType::Pressure => vec![
                Unit::Pascal,
                Unit::Kilopascal,
                Unit::Megapascal,
                Unit::Bar,
                Unit::Psi,
                Unit::Atmosphere,
                Unit::Torr,
                Unit::Mmhg,
            ],
            UnitType::Speed => vec![
                Unit::MetersPerSecond,
                Unit::KilometersPerHour,
                Unit::MilesPerHour,
                Unit::Knots,
                Unit::FeetPerSecond,
                Unit::Beaufort,
            ],
        };
        assert(members@ =~= self.spec_units());
        members
    }

    /// A quantity lists exactly the units that measure it, each of them
    /// once.
    pub proof fn lemma_units_complete(self, unit: Unit)
        ensures
            self.spec_units().contains(unit) <==> unit.spec_category() == self,
            self.spec_units().no_duplicates(),
    {
        let members = self.spec_units();
        if unit.spec_category() == self {
            let slot = choose|i: int| 0 <= i < members.len() && members[i] == unit;
            assert(members[slot] == unit);
        }
    }
}

} // verus!
