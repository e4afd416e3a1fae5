use unit_conversion::messages::{
    label, malformed_arguments_message, missing_arguments_message, unknown_source_message,
    unusable_target_message, TOOL_DESCRIPTION, TOOL_NAME,
};
use unit_conversion::{
    Arguments, ConversionError, Step, Unit, UnitConversion, UnitType,
};

const ALL_UNITS: &str = "Distance: meters, kilometers, miles, feet, inches, yards, nautical_miles\nVolume: liters, milliliters, gallons, quarts, pints, cups, fluid_ounces\nWeight: kilograms, grams, pounds, ounces, stones\nTemperature: celsius, fahrenheit, kelvin\nDigital: bytes, kilobytes, megabytes, gigabytes, terabytes, bits, kilobits, megabits, gigabits\nPressure: pascal, kilopascal, megapascal, bar, psi, atmosphere, torr, mmhg\nSpeed: meters_per_second, kilometers_per_hour, miles_per_hour, knots, feet_per_second, beaufort\n";

fn given(from_unit: &str, to_unit: &str) -> Arguments {
    Arguments::Given { from_unit: from_unit.to_string(), to_unit: to_unit.to_string() }
}

fn unknown_source(name: &str) -> String {
    format!(
        "Error: Unrecognized source unit \"{}\".\n\nSupported units by category:\n\n{}\nNote: Units are case-insensitive. Try using the full unit name or common abbreviations.",
        name, ALL_UNITS
    )
}

fn unusable_target(from_unit: &str, to_unit: &str, kind: &str, units: &str) -> String {
    format!(
        "Error: Cannot convert from {} ({}) to \"{}\".\n\nThe target unit \"{}\" is either:\n1. Not supported for {} conversions\n2. From a different unit category\n3. Misspelled\n\nSupported {} units: {}\n\nNote: You can only convert between units of the same type (e.g., distance to distance, weight to weight).",
        from_unit, kind, to_unit, to_unit, kind, kind, units
    )
}

#[test]
fn tool_is_named_and_described() {
    let tool = UnitConversion::new();
    assert_eq!(tool, UnitConversion::default());
    assert_eq!(tool.name(), "unit_conversion");
    assert_eq!(TOOL_NAME, "unit_conversion");
    assert_eq!(tool.description(), TOOL_DESCRIPTION);
    assert!(TOOL_DESCRIPTION.starts_with("Convert between different units including distance (meters, kilometers, miles, feet, inches, yards, nautical_miles), volume ("));
    assert!(TOOL_DESCRIPTION.ends_with("and speed (meters_per_second, kilometers_per_hour, miles_per_hour, knots, feet_per_second, beaufort)"));
    assert!(TOOL_DESCRIPTION.contains("cups, fluid ounces), weight"));
    assert!(TOOL_DESCRIPTION.contains("digital storage (bytes, kilobytes, megabytes, gigabytes, terabytes, bits, kilobits, megabits, gigabits)"));
}

#[test]
fn missing_arguments_are_answered_with_help() {
    let expected = "Error: Missing arguments for unit conversion.\n\nTo use this tool, please provide:\n- value: The numeric value to convert (e.g., 10)\n- from_unit: The source unit (e.g., \"meters\", \"pounds\", \"celsius\")\n- to_unit: The target unit (e.g., \"feet\", \"kilograms\", \"fahrenheit\")\n\nExample: {\"value\": 10, \"from_unit\": \"meters\", \"to_unit\": \"feet\"}";
    assert_eq!(missing_arguments_message(), expected);
    let outcome = UnitConversion::new().execute(&Arguments::Missing);
    assert_eq!(outcome.unwrap_err(), expected);
}

#[test]
fn malformed_arguments_are_answered_with_the_reason() {
    let expected = "Error: Invalid arguments for unit conversion.\n\nParsing failed with: missing field `value`\n\nRequired parameters:\n- value: A number (e.g., 10.5)\n- from_unit: A string specifying the source unit\n- to_unit: A string specifying the target unit\n\nPlease ensure your JSON is properly formatted and includes all required fields.";
    assert_eq!(malformed_arguments_message("missing field `value`"), expected);
    let arguments = Arguments::Malformed { reason: "missing field `value`".to_string() };
    assert_eq!(UnitConversion::new().execute(&arguments).unwrap_err(), expected);
}

#[test]
fn unknown_source_unit_is_answered_with_all_units() {
    let expected = unknown_source("parsecs");
    assert_eq!(unknown_source_message("parsecs"), expected);
    let outcome = UnitConversion::new().execute(&given("parsecs", "meters"));
    let text = outcome.unwrap_err();
    assert_eq!(text, expected);
    assert!(text.contains("Distance: meters, kilometers, miles, feet, inches, yards, nautical_miles\n"));
    assert!(text.starts_with("Error: Unrecognized source unit \"parsecs\"."));
}

#[test]
fn unknown_source_wins_over_unknown_target() {
    let outcome = UnitConversion::new().execute(&given("Parsecs", "furlongs"));
    assert_eq!(outcome.unwrap_err(), unknown_source("Parsecs"));
    match UnitConversion::convert("Parsecs", "furlongs") {
        Err(ConversionError::UnknownUnit { name }) => assert_eq!(name, "Parsecs"),
        _ => panic!("an unknown source unit is an error"),
    }
}

#[test]
fn target_of_another_quantity_is_refused() {
    let expected = unusable_target(
        "meters",
        "kilograms",
        "distance",
        "meters, kilometers, miles, feet, inches, yards, nautical_miles",
    );
    assert_eq!(unusable_target_message("meters", "kilograms", UnitType::Distance), expected);
    let text = UnitConversion::new().execute(&given("meters", "kilograms")).unwrap_err();
    assert_eq!(text, expected);
    assert!(text.contains("From a different unit category"));
    match UnitConversion::convert("meters", "kilograms") {
        Err(ConversionError::CategoryMismatch { from_category, to_category }) => {
            assert_eq!(from_category, UnitType::Distance);
            assert_eq!(to_category, UnitType::Weight);
        }
        _ => panic!("units of two quantities do not convert"),
    }
}

#[test]
fn unknown_target_is_refused_with_the_units_of_the_source() {
    let expected =
        unusable_target("LB", "furlongs", "weight", "kilograms, grams, pounds, ounces, stones");
    let text = UnitConversion::new().execute(&given("LB", "furlongs")).unwrap_err();
    assert_eq!(text, expected);
    match UnitConversion::convert("LB", "furlongs") {
        Err(ConversionError::UnknownUnit { name }) => assert_eq!(name, "furlongs"),
        _ => panic!("an unknown target unit is an error"),
    }
}

#[test]
fn every_pair_of_quantities_is_refused() {
    let kinds = [
        UnitType::Distance,
        UnitType::Volume,
        UnitType::Weight,
        UnitType::Temperature,
        UnitType::Digital,
        UnitType::Pressure,
        UnitType::Speed,
    ];
    let tool = UnitConversion::new();
    for a in kinds {
        for b in kinds {
            for from in a.units() {
                for to in b.units() {
                    let outcome = UnitConversion::convert(from.full_name(), to.full_name());
                    let served = tool.execute(&given(from.full_name(), to.full_name()));
                    if a == b {
                        let conversion = outcome.unwrap();
                        assert_eq!(conversion.from, from);
                        assert_eq!(conversion.to, to);
                        assert_eq!(conversion.unit_type, a);
                        assert_eq!(served.unwrap().steps, conversion.steps);
                    } else {
                        match outcome {
                            Err(ConversionError::CategoryMismatch {
                                from_category,
                                to_category,
                            }) => {
                                assert_eq!(from_category, a);
                                assert_eq!(to_category, b);
                            }
                            _ => panic!("{:?} to {:?} is no conversion", from, to),
                        }
                        assert_eq!(
                            served.unwrap_err(),
                            unusable_target(
                                from.full_name(),
                                to.full_name(),
                                a.name(),
                                &a.unit_list()
                            )
                        );
                    }
                }
            }
        }
    }
}

#[test]
fn a_conversion_holds_names_units_and_steps() {
    let conversion = UnitConversion::convert("Miles", "KM").unwrap();
    assert_eq!(conversion.from_unit, "Miles");
    assert_eq!(conversion.to_unit, "KM");
    assert_eq!(conversion.from, Unit::Miles);
    assert_eq!(conversion.to, Unit::Kilometers);
    assert_eq!(conversion.unit_type, UnitType::Distance);
    assert_eq!(conversion.steps, vec![Step::times(1609344, 1000), Step::over(1000, 1)]);
    let served = UnitConversion::new().execute(&given("Miles", "KM")).unwrap();
    assert_eq!(served.steps, conversion.steps);
    assert_eq!(served.from_unit, "Miles");
    assert_eq!(served.to_unit, "KM");
}

#[test]
fn a_conversion_is_put_into_words() {
    let conversion = UnitConversion::convert("meters", "feet").unwrap();
    let report = conversion.describe("10", "32.808398950131235");
    assert_eq!(report.original, "10 meters");
    assert_eq!(report.converted, "32.808398950131235 feet");
    assert_eq!(report.unit_type, "distance");
    assert_eq!(label("0", "celsius"), "0 celsius");
    assert_eq!(label("", ""), " ");
}

#[test]
fn steps_to_and_from_the_base_unit_by_name() {
    let (steps, kind) = UnitConversion::to_base_unit("Fahrenheit").unwrap();
    assert_eq!(kind, UnitType::Temperature);
    assert_eq!(steps, vec![Step::minus(32, 1), Step::times(5, 1), Step::over(9, 1)]);
    match UnitConversion::to_base_unit("rankine") {
        Err(ConversionError::UnknownUnit { name }) => assert_eq!(name, "rankine"),
        _ => panic!("an unknown unit is an error"),
    }
    let steps = UnitConversion::from_base_unit("K", UnitType::Temperature).unwrap();
    assert_eq!(steps, vec![Step::plus(27315, 100)]);
    match UnitConversion::from_base_unit("K", UnitType::Speed) {
        Err(ConversionError::CategoryMismatch { from_category, to_category }) => {
            assert_eq!(from_category, UnitType::Speed);
            assert_eq!(to_category, UnitType::Temperature);
        }
        _ => panic!("kelvin is no speed"),
    }
    match UnitConversion::from_base_unit("rankine", UnitType::Temperature) {
        Err(ConversionError::UnknownUnit { name }) => assert_eq!(name, "rankine"),
        _ => panic!("an unknown unit is an error"),
    }
}

#[test]
fn found_units_decide_without_the_names() {
    let conversion =
        UnitConversion::convert_found("a", "b", Some(Unit::Bits), Some(Unit::Bytes)).unwrap();
    assert_eq!(conversion.from_unit, "a");
    assert_eq!(conversion.to_unit, "b");
    assert_eq!(conversion.steps, vec![Step::over(8, 1)]);
    assert!(UnitConversion::convert_found("a", "b", None, Some(Unit::Bytes)).is_err());
    assert!(UnitConversion::convert_found("a", "b", Some(Unit::Bits), None).is_err());
    assert!(UnitConversion::convert_found("a", "b", Some(Unit::Bits), Some(Unit::Bar)).is_err());
    let tool = UnitConversion::new();
    let text = tool.answer(&given("a", "b"), Some(Unit::Bits), None).unwrap_err();
    assert_eq!(
        text,
        unusable_target(
            "a",
            "b",
            "digital",
            "bytes, kilobytes, megabytes, gigabytes, terabytes, bits, kilobits, megabits, gigabits"
        )
    );
    assert_eq!(tool.answer(&given("a", "b"), None, None).unwrap_err(), unknown_source("a"));
    assert!(tool.answer(&given("a", "b"), Some(Unit::Bits), Some(Unit::Bytes)).is_ok());
}
