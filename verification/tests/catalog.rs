use unit_conversion::text::{same_text, same_when_folded};
use unit_conversion::{Unit, UnitType};

const ALL_TYPES: [UnitType; 7] = [
    UnitType::Distance,
    UnitType::Volume,
    UnitType::Weight,
    UnitType::Temperature,
    UnitType::Digital,
    UnitType::Pressure,
    UnitType::Speed,
];

#[test]
fn resolves_full_names_and_abbreviations() {
    assert_eq!(Unit::resolve("meters"), Some(Unit::Meters));
    assert_eq!(Unit::resolve("km"), Some(Unit::Kilometers));
    assert_eq!(Unit::resolve("lb"), Some(Unit::Pounds));
    assert_eq!(Unit::resolve("lbs"), Some(Unit::Pounds));
    assert_eq!(Unit::resolve("m/s"), Some(Unit::MetersPerSecond));
    assert_eq!(Unit::resolve("km/h"), Some(Unit::KilometersPerHour));
    assert_eq!(Unit::resolve("ft/s"), Some(Unit::FeetPerSecond));
    assert_eq!(Unit::resolve("fl_oz"), Some(Unit::FluidOunces));
    assert_eq!(Unit::resolve("beaufort"), Some(Unit::Beaufort));
}

#[test]
fn every_alias_resolves_to_its_unit() {
    let table: Vec<(Unit, Vec<&str>)> = vec![
        (Unit::Meters, vec!["meters", "m"]),
        (Unit::Kilometers, vec!["kilometers", "km"]),
        (Unit::Miles, vec!["miles", "mi"]),
        (Unit::Feet, vec!["feet", "ft"]),
        (Unit::Inches, vec!["inches", "in"]),
        (Unit::Yards, vec!["yards", "yd"]),
        (Unit::NauticalMiles, vec!["nautical_miles", "nmi"]),
        (Unit::Liters, vec!["liters", "l"]),
        (Unit::Milliliters, vec!["milliliters", "ml"]),
        (Unit::Gallons, vec!["gallons", "gal"]),
        (Unit::Quarts, vec!["quarts", "qt"]),
        (Unit::Pints, vec!["pints", "pt"]),
        (Unit::Cups, vec!["cups"]),
        (Unit::FluidOunces, vec!["fluid_ounces", "fl_oz"]),
        (Unit::Kilograms, vec!["kilograms", "kg"]),
        (Unit::Grams, vec!["grams", "g"]),
        (Unit::Pounds, vec!["pounds", "lb", "lbs"]),
        (Unit::Ounces, vec!["ounces", "oz"]),
        (Unit::Stones, vec!["stones", "st"]),
        (Unit::Celsius, vec!["celsius", "c"]),
        (Unit::Fahrenheit, vec!["fahrenheit", "f"]),
        (Unit::Kelvin, vec!["kelvin", "k"]),
        (Unit::Bytes, vec!["bytes", "b"]),
        (Unit::Kilobytes, vec!["kilobytes", "kb"]),
        (Unit::Megabytes, vec!["megabytes", "mb"]),
        (Unit::Gigabytes, vec!["gigabytes", "gb"]),
        (Unit::Terabytes, vec!["terabytes", "tb"]),
        (Unit::Bits, vec!["bits"]),
        (Unit::Kilobits, vec!["kilobits", "kbit"]),
        (Unit::Megabits, vec!["megabits", "mbit"]),
        (Unit::Gigabits, vec!["gigabits", "gbit"]),
        (Unit::Pascal, vec!["pascal", "pa"]),
        (Unit::Kilopascal, vec!["kilopascal", "kpa"]),
        (Unit::Megapascal, vec!["megapascal", "mpa"]),
        (Unit::Bar, vec!["bar"]),
        (Unit::Psi, vec!["psi"]),
        (Unit::Atmosphere, vec!["atmosphere", "atm"]),
        (Unit::Torr, vec!["torr"]),
        (Unit::Mmhg, vec!["mmhg"]),
        (Unit::MetersPerSecond, vec!["meters_per_second", "mps", "m/s"]),
        (Unit::KilometersPerHour, vec!["kilometers_per_hour", "kph", "km/h"]),
        (Unit::MilesPerHour, vec!["miles_per_hour", "mph"]),
        (Unit::Knots, vec!["knots", "kt"]),
        (Unit::FeetPerSecond, vec!["feet_per_second", "fps", "ft/s"]),
        (Unit::Beaufort, vec!["beaufort"]),
    ];
    assert_eq!(table.len(), 45);
    let mut names = 0;
    for (unit, aliases) in &table {
        assert_eq!(unit.full_name(), aliases[0]);
        for alias in aliases {
            assert_eq!(Unit::from_alias(alias), Some(*unit), "{}", alias);
            assert_eq!(Unit::resolve(alias), Some(*unit), "{}", alias);
            assert_eq!(Unit::resolve(&alias.to_uppercase()), Some(*unit), "{}", alias);
            names += 1;
        }
    }
    assert_eq!(names, 87);
}

#[test]
fn unknown_names_resolve_to_nothing() {
    for name in
        ["parsecs", "", " meters", "meters ", "meter", "metres", "fluid ounces", "kmh", "m-s"]
    {
        assert_eq!(Unit::resolve(name), None, "{:?}", name);
        assert_eq!(Unit::from_alias(name), None, "{:?}", name);
    }
}

#[test]
fn case_does_not_matter() {
    assert_eq!(Unit::resolve("METERS"), Some(Unit::Meters));
    assert_eq!(Unit::resolve("Meters"), Some(Unit::Meters));
    assert_eq!(Unit::resolve("meters"), Some(Unit::Meters));
    assert_eq!(Unit::resolve("mEtErS"), Some(Unit::Meters));
    assert_eq!(Unit::resolve("KM/H"), Some(Unit::KilometersPerHour));
    assert_eq!(Unit::resolve("Nautical_Miles"), Some(Unit::NauticalMiles));
    assert_eq!(Unit::resolve("GBit"), Some(Unit::Gigabits));
}

#[test]
fn exact_lookup_does_not_fold_case() {
    assert_eq!(Unit::from_alias("METERS"), None);
    assert_eq!(Unit::from_alias("Km"), None);
    assert_eq!(Unit::from_alias("km"), Some(Unit::Kilometers));
}

#[test]
fn kelvin_sign_folds_to_the_letter() {
    assert_eq!(Unit::resolve("\u{212A}"), Some(Unit::Kelvin));
    assert_eq!(Unit::from_alias("\u{212A}"), None);
}

#[test]
fn short_names_that_differ_in_one_letter() {
    assert_eq!(Unit::resolve("m"), Some(Unit::Meters));
    assert_eq!(Unit::resolve("mi"), Some(Unit::Miles));
    assert_eq!(Unit::resolve("ml"), Some(Unit::Milliliters));
    assert_eq!(Unit::resolve("mb"), Some(Unit::Megabytes));
    assert_eq!(Unit::resolve("mbit"), Some(Unit::Megabits));
    assert_eq!(Unit::resolve("mpa"), Some(Unit::Megapascal));
    assert_eq!(Unit::resolve("mps"), Some(Unit::MetersPerSecond));
    assert_eq!(Unit::resolve("mph"), Some(Unit::MilesPerHour));
    assert_eq!(Unit::resolve("mmhg"), Some(Unit::Mmhg));
    assert_eq!(Unit::resolve("b"), Some(Unit::Bytes));
    assert_eq!(Unit::resolve("bits"), Some(Unit::Bits));
    assert_eq!(Unit::resolve("bar"), Some(Unit::Bar));
    assert_eq!(Unit::resolve("k"), Some(Unit::Kelvin));
    assert_eq!(Unit::resolve("kb"), Some(Unit::Kilobytes));
    assert_eq!(Unit::resolve("kg"), Some(Unit::Kilograms));
    assert_eq!(Unit::resolve("kt"), Some(Unit::Knots));
    assert_eq!(Unit::resolve("pt"), Some(Unit::Pints));
    assert_eq!(Unit::resolve("pa"), Some(Unit::Pascal));
    assert_eq!(Unit::resolve("psi"), Some(Unit::Psi));
    assert_eq!(Unit::resolve("f"), Some(Unit::Fahrenheit));
    assert_eq!(Unit::resolve("ft"), Some(Unit::Feet));
    assert_eq!(Unit::resolve("fps"), Some(Unit::FeetPerSecond));
}

#[test]
fn units_are_grouped_by_quantity() {
    let mut count = 0;
    for kind in ALL_TYPES {
        let members = kind.units();
        for (i, unit) in members.iter().enumerate() {
            assert_eq!(unit.category(), kind);
            assert!(!members[..i].contains(unit));
            count += 1;
        }
        assert_eq!(members[0], kind.base_unit());
    }
    assert_eq!(count, 45);
    assert_eq!(UnitType::Distance.units().len(), 7);
    assert_eq!(UnitType::Volume.units().len(), 7);
    assert_eq!(UnitType::Weight.units().len(), 5);
    assert_eq!(UnitType::Temperature.units().len(), 3);
    assert_eq!(UnitType::Digital.units().len(), 9);
    assert_eq!(UnitType::Pressure.units().len(), 8);
    assert_eq!(UnitType::Speed.units().len(), 6);
}

#[test]
fn base_units() {
    assert_eq!(UnitType::Distance.base_unit(), Unit::Meters);
    assert_eq!(UnitType::Volume.base_unit(), Unit::Liters);
    assert_eq!(UnitType::Weight.base_unit(), Unit::Kilograms);
    assert_eq!(UnitType::Temperature.base_unit(), Unit::Celsius);
    assert_eq!(UnitType::Digital.base_unit(), Unit::Bytes);
    assert_eq!(UnitType::Pressure.base_unit(), Unit::Pascal);
    assert_eq!(UnitType::Speed.base_unit(), Unit::MetersPerSecond);
    for kind in ALL_TYPES {
        assert!(kind.base_unit().to_base().is_empty());
        assert!(kind.base_unit().from_base().is_empty());
    }
}

#[test]
fn quantity_names() {
    assert_eq!(UnitType::Distance.name(), "distance");
    assert_eq!(UnitType::Volume.name(), "volume");
    assert_eq!(UnitType::Weight.name(), "weight");
    assert_eq!(UnitType::Temperature.name(), "temperature");
    assert_eq!(UnitType::Digital.name(), "digital");
    assert_eq!(UnitType::Pressure.name(), "pressure");
    assert_eq!(UnitType::Speed.name(), "speed");
    assert_eq!(UnitType::Digital.to_string(), "digital");
    assert_eq!(UnitType::Digital.title(), "Digital");
    for kind in ALL_TYPES {
        assert_eq!(kind.title().to_lowercase(), kind.name());
        assert_eq!(kind.to_string(), kind.name());
    }
}

#[test]
fn unit_lists() {
    assert_eq!(
        UnitType::Distance.unit_list(),
        "meters, kilometers, miles, feet, inches, yards, nautical_miles"
    );
    assert_eq!(
        UnitType::Volume.unit_list(),
        "liters, milliliters, gallons, quarts, pints, cups, fluid_ounces"
    );
    assert_eq!(UnitType::Weight.unit_list(), "kilograms, grams, pounds, ounces, stones");
    assert_eq!(UnitType::Temperature.unit_list(), "celsius, fahrenheit, kelvin");
    assert_eq!(
        UnitType::Digital.unit_list(),
        "bytes, kilobytes, megabytes, gigabytes, terabytes, bits, kilobits, megabits, gigabits"
    );
    assert_eq!(
        UnitType::Pressure.unit_list(),
        "pascal, kilopascal, megapascal, bar, psi, atmosphere, torr, mmhg"
    );
    assert_eq!(
        UnitType::Speed.unit_list(),
        "meters_per_second, kilometers_per_hour, miles_per_hour, knots, feet_per_second, beaufort"
    );
}

#[test]
fn same_text_compares_by_content() {
    assert!(same_text("", ""));
    assert!(same_text("km/h", "km/h"));
    assert!(!same_text("km/h", "km/H"));
    assert!(!same_text("km", "km/h"));
    assert!(!same_text("k", "\u{212A}"));
    assert!(same_text("\u{212A}", "\u{212A}"));
}

#[test]
fn folded_names_compare_without_case() {
    assert!(same_when_folded("METERS", "meters"));
    assert!(same_when_folded("Meters", "mEtErS"));
    assert!(same_when_folded("KM/H", "km/h"));
    assert!(same_when_folded("", ""));
    assert!(same_when_folded("\u{212A}", "k"));
    assert!(!same_when_folded("meters", "meter"));
    assert!(!same_when_folded("km", "kg"));
    assert_eq!(Unit::resolve("METERS"), Unit::resolve("meters"));
}
