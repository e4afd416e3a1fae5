//! The texts that the tool answers with.
//!
//! A request that cannot be served is answered in words, so that the caller
//! can read what went wrong and which units it may use instead.

use vstd::prelude::*;
use vstd::string::*;
use crate::category::UnitType;
use crate::unit::Unit;

verus! {

/// The name under which the tool is offered.
pub const TOOL_NAME: &'static str = "unit_conversion";

/// What the tool does and which units it knows, for those who look for a
/// tool.
pub const TOOL_DESCRIPTION: &'static str =
    "Convert between different units including distance (meters, kilometers, miles, feet, inches, yards, nautical_miles), volume (liters, milliliters, gallons, quarts, pints, cups, fluid ounces), weight (kilograms, grams, pounds, ounces, stones), temperature (celsius, fahrenheit, kelvin), digital storage (bytes, kilobytes, megabytes, gigabytes, terabytes, bits, kilobits, megabits, gigabits), pressure (pascal, kilopascal, megapascal, bar, psi, atmosphere, torr, mmhg), and speed (meters_per_second, kilometers_per_hour, miles_per_hour, knots, feet_per_second, beaufort)";

/// The answer to a request without arguments.
pub const MISSING_ARGUMENTS: &'static str =
    "Error: Missing arguments for unit conversion.\n\nTo use this tool, please provide:\n- value: The numeric value to convert (e.g., 10)\n- from_unit: The source unit (e.g., \"meters\", \"pounds\", \"celsius\")\n- to_unit: The target unit (e.g., \"feet\", \"kilograms\", \"fahrenheit\")\n\nExample: {\"value\": 10, \"from_unit\": \"meters\", \"to_unit\": \"feet\"}";

/// What stands before the reason in the answer to malformed arguments.
pub const MALFORMED_HEAD: &'static str = "Error: Invalid arguments for unit conversion.\n\nParsing failed with: ";

/// What stands after the reason in the answer to malformed arguments.
pub const MALFORMED_TAIL: &'static str =
    "\n\nRequired parameters:\n- value: A number (e.g., 10.5)\n- from_unit: A string specifying the source unit\n- to_unit: A string specifying the target unit\n\nPlease ensure your JSON is properly formatted and includes all required fields.";

/// What stands before the name in the answer to an unknown source unit.
pub const SOURCE_HEAD: &'static str = "Error: Unrecognized source unit \"";

/// What stands between the name and the list of units in that answer.
pub const SOURCE_MIDDLE: &'static str = "\".\n\nSupported units by category:\n\n";

/// What stands after the list of units in that answer.
pub const SOURCE_TAIL: &'static str =
    "\nNote: Units are case-insensitive. Try using the full unit name or common abbreviations.";

/// What stands before the source unit in the answer to a target unit that
/// cannot be used.
pub const TARGET_HEAD: &'static str = "Error: Cannot convert from ";

/// What stands between the source unit and the name of its quantity.
pub const TARGET_OPEN: &'static str = " (";

/// What stands between the quantity and the target unit.
pub const TARGET_TO: &'static str = ") to \"";

/// What stands before the target unit where it is named again.
pub const TARGET_AGAIN: &'static str = "\".\n\nThe target unit \"";

/// What stands between the target unit and the quantity in the first reason.
pub const TARGET_EITHER: &'static str = "\" is either:\n1. Not supported for ";

/// The other reasons, up to the quantity whose units are listed.
pub const TARGET_REASONS: &'static str =
    " conversions\n2. From a different unit category\n3. Misspelled\n\nSupported ";

/// What stands between that quantity and its units.
pub const TARGET_UNITS: &'static str = " units: ";

/// What stands after the units.
pub const TARGET_TAIL: &'static str =
    "\n\nNote: You can only convert between units of the same type (e.g., distance to distance, weight to weight).";

/// The full names of some units, separated by a comma and a space.
pub open spec fn joined_names(units: Seq<Unit>) -> Seq<char>
    decreases units.len(),
{
    if units.len() == 0 {
        Seq::empty()
    } else if units.len() == 1 {
        units[0].spec_full_name()
    } else {
        joined_names(units.drop_last()) + ", "@ + units.last().spec_full_name()
    }
}

impl UnitType {
    /// The full names of the quantity's units, separated by a comma and a
    /// space.
    pub open spec fn spec_unit_list(self) -> Seq<char> {
        joined_names(self.spec_units())
    }

    /// One line of the list of all units: the quantity's title, a colon and
    /// its units.
    pub open spec fn spec_listing_line(self) -> Seq<char> {
        self.spec_title() + ": "@ + self.spec_unit_list() + "\n"@
    }

    /// The full names of the quantity's units, separated by a comma and a
    /// space.
    pub fn unit_list(&self) -> (text: String)
        ensures
            text@ == self.spec_unit_list(),
    {
        let members = self.units();
        let mut text = String::new();
        let mut i: usize = 0;
        while i < members.len()
            invariant
                i <= members@.len(),
                text@ == joined_names(members@.take(i as int)),
            decreases members@.len() - i,
        {
            proof {
                let next = members@.take(i + 1);
                assert(next.drop_last() =~= members@.take(i as int));
                assert(next.last() == members@[i as int]);
                if i == 0 {
                    assert(text@ + members@[0].spec_full_name()
                        =~= members@[0].spec_full_name());
                }
            }
            if i > 0 {
                text.append(", ");
            }
            text.append(members[i].full_name());
            i += 1;
        }
        assert(members@.take(i as int) =~= members@);
        text
    }
}

/// The list of all units, one line for each quantity.
pub open spec fn listing() -> Seq<char> {
    UnitType::Distance.spec_listing_line() + UnitType::Volume.spec_listing_line()
        + UnitType::Weight.spec_listing_line() + UnitType::Temperature.spec_listing_line()
        + UnitType::Digital.spec_listing_line() + UnitType::Pressure.spec_listing_line()
        + UnitType::Speed.spec_listing_line()
}

/// The answer to arguments that could not be read, with the reason.
pub open spec fn malformed_arguments_text(reason: Seq<char>) -> Seq<char> {
    MALFORMED_HEAD@ + reason + MALFORMED_TAIL@
}

/// The answer to a source unit that the catalog does not hold.
pub open spec fn unknown_source_text(from_unit: Seq<char>) -> Seq<char> {
    SOURCE_HEAD@ + from_unit + SOURCE_MIDDLE@ + listing() + SOURCE_TAIL@
}

/// The answer to a target unit that the catalog does not hold or that
/// measures another quantity than the source unit, whose quantity is `kind`.
pub open spec fn unusable_target_text(
    from_unit: Seq<char>,
    to_unit: Seq<char>,
    kind: UnitType,
) -> Seq<char> {
    TARGET_HEAD@ + from_unit + TARGET_OPEN@ + kind.spec_name() + TARGET_TO@ + to_unit
        + TARGET_AGAIN@ + to_unit + TARGET_EITHER@ + kind.spec_name() + TARGET_REASONS@
        + kind.spec_name() + TARGET_UNITS@ + kind.spec_unit_list() + TARGET_TAIL@
}

/// A value and its unit, separated by a space.
pub open spec fn labelled(value: Seq<char>, unit: Seq<char>) -> Seq<char> {
    value + " "@ + unit
}

/// Appends one line of the list of all units.
fn push_listing_line(text: &mut String, kind: UnitType)
    ensures
        final(text)@ == old(text)@ + kind.spec_listing_line(),
{
    let units = kind.unit_list();
    text.append(kind.title());
    text.append(": ");
    text.append(units.as_str());
    text.append("\n");
    assert(final(text)@ =~= old(text)@ + kind.spec_listing_line());
}

/// The answer to a request without arguments.
pub fn missing_arguments_message() -> (text: String)
    ensures
        text@ == MISSING_ARGUMENTS@,
{
    String::from_str(MISSING_ARGUMENTS)
}

/// The answer to arguments that could not be read, with the reason.
pub fn malformed_arguments_message(reason: &str) -> (text: String)
    ensures
        text@ == malformed_arguments_text(reason@),
{
    let mut text = String::from_str(MALFORMED_HEAD);
    text.append(reason);
    text.append(MALFORMED_TAIL);
    text
}

/// The answer to a source unit that the catalog does not hold.
pub fn unknown_source_message(from_unit: &str) -> (text: String)
    ensures
        text@ == unknown_source_text(from_unit@),
{
    let mut text = String::from_str(SOURCE_HEAD);
    text.append(from_unit);
    text.append(SOURCE_MIDDLE);
    let ghost head = text@;
    push_listing_line(&mut text, UnitType::Distance);
    push_listing_line(&mut text, UnitType::Volume);
    push_listing_line(&mut text, UnitType::Weight);
    push_listing_line(&mut text, UnitType::Temperature);
    push_listing_line(&mut text, UnitType::Digital);
    push_listing_line(&mut text, UnitType::Pressure);
    push_listing_line(&mut text, UnitType::Speed);
    assert(text@ =~= head + listing());
    text.append(SOURCE_TAIL);
    text
}

/// The answer to a target unit that the catalog does not hold or that
/// measures another quantity than the source unit, whose quantity is `kind`.
pub fn unusable_target_message(from_unit: &str, to_unit: &str, kind: UnitType) -> (text: String)
    ensures
        text@ == unusable_target_text(from_unit@, to_unit@, kind),
{
    let units = kind.unit_list();
    let mut text = String::from_str(TARGET_HEAD);
    text.append(from_unit);
    text.append(TARGET_OPEN);
    text.append(kind.name());
    text.append(TARGET_TO);
    text.append(to_unit);
    text.append(TARGET_AGAIN);
    text.append(to_unit);
    text.append(TARGET_EITHER);
    text.append(kind.name());
    text.append(TARGET_REASONS);
    text.append(kind.name());
    text.append(TARGET_UNITS);
    text.append(units.as_str());
    text.append(TARGET_TAIL);
    text
}

/// A value and its unit, separated by a space.
pub fn label(value: &str, unit: &str) -> (text: String)
    ensures
        text@ == labelled(value@, unit@),
{
    let mut text = String::from_str(value);
    text.append(" ");
    text.append(unit);
    text
}

} // verus!
