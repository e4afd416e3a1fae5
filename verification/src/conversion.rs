//! The conversion tool: from two unit names to the steps of the conversion,
//! or to the reason why there is none.

use vstd::prelude::*;
use vstd::string::*;
use crate::category::UnitType;
use crate::formula::{eval, Step};
use crate::messages::{
    label, labelled, malformed_arguments_message, malformed_arguments_text,
    missing_arguments_message, unknown_source_message, unknown_source_text,
    unusable_target_message, unusable_target_text, MISSING_ARGUMENTS, TOOL_DESCRIPTION,
    TOOL_NAME,
};
use crate::unit::Unit;

verus! {

/// The unit conversion tool. It holds no state: every operation depends on
/// its arguments alone.
#[derive(Clone, Copy, Debug, PartialEq, Eq, Structural)]
pub struct UnitConversion;

/// Why two units cannot be converted into one another.
#[derive(Debug)]
pub enum ConversionError {
    /// The catalog holds no unit of this name.
    UnknownUnit { name: String },
    /// Both units are known, but they measure different quantities.
    CategoryMismatch { from_category: UnitType, to_category: UnitType },
}

/// What a caller hands to the tool: nothing, something that could not be
/// read as a request, or the two unit names of a request.
#[derive(Debug)]
pub enum Arguments {
    /// No arguments came with the call.
    Missing,
    /// The arguments were not a request; `reason` says why.
    Malformed { reason: String },
    /// A request to convert from one unit to another.
    Given { from_unit: String, to_unit: String },
}

/// A conversion between two units of one quantity.
#[derive(Debug)]
pub struct Conversion {
    /// The source unit as the caller wrote it.
    pub from_unit: String,
    /// The target unit as the caller wrote it.
    pub to_unit: String,
    /// The source unit.
    pub from: Unit,
    /// The target unit.
    pub to: Unit,
    /// The quantity that both units measure.
    pub unit_type: UnitType,
    /// The steps from a value in the source unit to the value in the target
    /// unit: first to the base unit, then on to the target unit.
    pub steps: Vec<Step>,
}

/// A finished conversion in words.
#[derive(Debug)]
pub struct ConversionResult {
    /// The value that was given, with its unit.
    pub original: String,
    /// The value that came out, with its unit.
    pub converted: String,
    /// The name of the quantity.
    pub unit_type: String,
}

/// The steps of a conversion between two units: to the base unit and on to
/// the target unit.
pub open spec fn steps_between(from: Unit, to: Unit) -> Seq<Step> {
    from.spec_to_base() + to.spec_from_base()
}

/// Whether two lookups found units of one quantity.
pub open spec fn compatible(from: Option<Unit>, to: Option<Unit>) -> bool {
    match (from, to) {
        (Some(from), Some(to)) => from.spec_category() == to.spec_category(),
        _ => false,
    }
}

/// Whether two names denote units of one quantity.
pub open spec fn convertible(from_unit: Seq<char>, to_unit: Seq<char>) -> bool {
    compatible(Unit::resolved(from_unit), Unit::resolved(to_unit))
}

impl ConversionError {
    /// Whether the error says that `unit` is no name of the catalog.
    pub open spec fn is_unknown(self, unit: Seq<char>) -> bool {
        self matches ConversionError::UnknownUnit { name } && name@ == unit
    }

    /// Whether the error says that the two quantities differ.
    pub open spec fn is_mismatch(self, from: UnitType, to: UnitType) -> bool {
        self matches ConversionError::CategoryMismatch { from_category, to_category }
            && from_category == from && to_category == to
    }

    /// Whether this is the error owed to two names, given what was found
    /// under them: the first unknown name, the source before the target, or
    /// else the two quantities that differ.
    pub open spec fn explains(
        self,
        from_unit: Seq<char>,
        to_unit: Seq<char>,
        from: Option<Unit>,
        to: Option<Unit>,
    ) -> bool {
        match (from, to) {
            (None, _) => self.is_unknown(from_unit),
            (Some(_), None) => self.is_unknown(to_unit),
            (Some(from), Some(to)) => {
                &&& from.spec_category() != to.spec_category()
                &&& self.is_mismatch(from.spec_category(), to.spec_category())
            },
        }
    }

    /// Whether this is the error owed to two names that cannot be converted
    /// into one another.
    pub open spec fn describes(self, from_unit: Seq<char>, to_unit: Seq<char>) -> bool {
        self.explains(from_unit, to_unit, Unit::resolved(from_unit), Unit::resolved(to_unit))
    }
}

impl Arguments {
    /// The answer in words that the arguments are owed where they lead to no
    /// conversion, given what was found under the two names; `None` where
    /// they lead to one.
    pub open spec fn refusal_with(self, from: Option<Unit>, to: Option<Unit>) -> Option<Seq<char>> {
        match self {
            Arguments::Missing => Some(MISSING_ARGUMENTS@),
            Arguments::Malformed { reason } => Some(malformed_arguments_text(reason@)),
            Arguments::Given { from_unit, to_unit } => match from {
                None => Some(unknown_source_text(from_unit@)),
                Some(source) => if compatible(from, to) {
                    None
                } else {
                    Some(unusable_target_text(from_unit@, to_unit@, source.spec_category()))
                },
            },
        }
    }

    /// What the first name of a request denotes.
    pub open spec fn source(self) -> Option<Unit> {
        match self {
            Arguments::Given { from_unit, to_unit } => Unit::resolved(from_unit@),
            _ => None,
        }
    }

    /// What the second name of a request denotes.
    pub open spec fn target(self) -> Option<Unit> {
        match self {
            Arguments::Given { from_unit, to_unit } => Unit::resolved(to_unit@),
            _ => None,
        }
    }

    /// The answer in words that the arguments are owed where they lead to no
    /// conversion; `None` where they lead to one.
    pub open spec fn refusal(self) -> Option<Seq<char>> {
        self.refusal_with(self.source(), self.target())
    }
}

impl Conversion {
    /// Whether this is the conversion from one unit to another, with the two
    /// names as the caller wrote them.
    pub open spec fn joins(
        self,
        from_unit: Seq<char>,
        to_unit: Seq<char>,
        from: Unit,
        to: Unit,
    ) -> bool {
        &&& self.from_unit@ == from_unit
        &&& self.to_unit@ == to_unit
        &&& self.from == from
        &&& self.to == to
        &&& self.unit_type == from.spec_category()
        &&& self.unit_type == to.spec_category()
        &&& self.steps@ == steps_between(from, to)
    }

    /// Whether this is the conversion between the units that two names
    /// denote.
    pub open spec fn is_between(self, from_unit: Seq<char>, to_unit: Seq<char>) -> bool {
        &&& Unit::resolved(from_unit) matches Some(from)
        &&& Unit::resolved(to_unit) matches Some(to)
        &&& self.joins(from_unit, to_unit, from, to)
    }

    /// What the conversion makes of `x`, in exact arithmetic.
    pub open spec fn exact(self, x: real) -> real {
        eval(self.steps@, x)
    }

    /// Puts a finished conversion into words: `value` is the number that was
    /// given and `result` the number that came out, both as text.
    pub fn describe(&self, value: &str, result: &str) -> (report: ConversionResult)
        ensures
            report.original@ == labelled(value@, self.from_unit@),
            report.converted@ == labelled(result@, self.to_unit@),
            report.unit_type@ == self.unit_type.spec_name(),
    {
        ConversionResult {
            original: label(value, self.from_unit.as_str()),
            converted: label(result, self.to_unit.as_str()),
            unit_type: self.unit_type.to_string(),
        }
    }
}

impl UnitConversion {
    /// The tool.
    pub fn new() -> (tool: Self)
        ensures
            tool == UnitConversion,
    {
        UnitConversion
    }

    /// The name under which the tool is offered.
    pub fn name(&self) -> (text: &'static str)
        ensures
            text@ == TOOL_NAME@,
    {
        TOOL_NAME
    }

    /// What the tool does and which units it knows.
    pub fn description(&self) -> (text: &'static str)
        ensures
            text@ == TOOL_DESCRIPTION@,
    {
        TOOL_DESCRIPTION
    }

    /// The steps from a value in a unit to the base unit of its quantity, and
    /// that quantity, given what was found under the unit's name.
    pub fn steps_to_base(unit: &str, found: Option<Unit>) -> (outcome: Result<
        (Vec<Step>, UnitType),
        ConversionError,
    >)
        ensures
            match outcome {
                Ok((steps, unit_type)) => {
                    &&& found matches Some(source)
                    &&& steps@ == source.spec_to_base()
                    &&& unit_type == source.spec_category()
                },
                Err(error) => found is None && error.is_unknown(unit@),
            },
    {
        match found {
            Some(source) => Ok((source.to_base(), source.category())),
            None => Err(ConversionError::UnknownUnit { name: String::from_str(unit) }),
        }
    }

    /// The steps from a value in the base unit of a quantity to a unit, given
    /// what was found under the unit's name. The unit has to measure that
    /// quantity.
    pub fn steps_from_base(unit: &str, found: Option<Unit>, unit_type: UnitType) -> (outcome:
        Result<Vec<Step>, ConversionError>)
        ensures
            match outcome {
                Ok(steps) => {
                    &&& found matches Some(target)
                    &&& target.spec_category() == unit_type
                    &&& steps@ == target.spec_from_base()
                },
                Err(error) => match found {
                    None => error.is_unknown(unit@),
                    Some(target) => {
                        &&& target.spec_category() != unit_type
                        &&& error.is_mismatch(unit_type, target.spec_category())
                    },
                },
            },
    {
        match found {
            Some(target) => {
                let to_category = target.category();
                if to_category == unit_type {
                    Ok(target.from_base())
                } else {
                    Err(ConversionError::CategoryMismatch { from_category: unit_type, to_category })
                }
            },
            None => Err(ConversionError::UnknownUnit { name: String::from_str(unit) }),
        }
    }

    /// The steps from a value in the named unit to the base unit of its
    /// quantity, and that quantity.
    pub fn to_base_unit(unit: &str) -> (outcome: Result<(Vec<Step>, UnitType), ConversionError>)
        ensures
            match outcome {
                Ok((steps, unit_type)) => {
                    &&& Unit::resolved(unit@) matches Some(source)
                    &&& steps@ == source.spec_to_base()
                    &&& unit_type == source.spec_category()
                },
                Err(error) => Unit::resolved(unit@) is None && error.is_unknown(unit@),
            },
    {
        UnitConversion::steps_to_base(unit, Unit::resolve(unit))
    }

    /// The steps from a value in the base unit of a quantity to the named
    /// unit, which has to measure that quantity.
    pub fn from_base_unit(unit: &str, unit_type: UnitType) -> (outcome: Result<
        Vec<Step>,
        ConversionError,
    >)
        ensures
            match outcome {
                Ok(steps) => {
                    &&& Unit::resolved(unit@) matches Some(target)
                    &&& target.spec_category() == unit_type
                    &&& steps@ == target.spec_from_base()
                },
                Err(error) => match Unit::resolved(unit@) {
                    None => error.is_unknown(unit@),
                    Some(target) => {
                        &&& target.spec_category() != unit_type
                        &&& error.is_mismatch(unit_type, target.spec_category())
                    },
                },
            },
    {
        UnitConversion::steps_from_base(unit, Unit::resolve(unit), unit_type)
    }

    /// The conversion between two units, given their names and what was
    /// found under them: its steps, or the reason why there is none.
    pub fn convert_found(
        from_unit: &str,
        to_unit: &str,
        from: Option<Unit>,
        to: Option<Unit>,
    ) -> (outcome: Result<Conversion, ConversionError>)
        ensures
            match outcome {
                Ok(conversion) => {
                    &&& from matches Some(source)
                    &&& to matches Some(target)
                    &&& source.spec_category() == target.spec_category()
                    &&& conversion.joins(from_unit@, to_unit@, source, target)
                },
                Err(error) => {
                    &&& !compatible(from, to)
                    &&& error.explains(from_unit@, to_unit@, from, to)
                },
            },
    {
        let (mut steps, unit_type) = match UnitConversion::steps_to_base(from_unit, from) {
            Ok(found) => found,
            Err(error) => {
                return Err(error);
            },
        };
        let mut back = match UnitConversion::steps_from_base(to_unit, to, unit_type) {
            Ok(found) => found,
            Err(error) => {
                return Err(error);
            },
        };
        steps.append(&mut back);
        Ok(
            Conversion {
                from_unit: String::from_str(from_unit),
                to_unit: String::from_str(to_unit),
                from: from.unwrap(),
                to: to.unwrap(),
                unit_type,
                steps,
            },
        )
    }

    /// The conversion from one named unit to another: its steps, or the
    /// reason why there is none.
    pub fn convert(from_unit: &str, to_unit: &str) -> (outcome: Result<Conversion, ConversionError>)
        ensures
            match outcome {
                Ok(conversion) => {
                    &&& convertible(from_unit@, to_unit@)
                    &&& conversion.is_between(from_unit@, to_unit@)
                },
                Err(error) => {
                    &&& !convertible(from_unit@, to_unit@)
                    &&& error.describes(from_unit@, to_unit@)
                },
            },
    {
        UnitConversion::convert_found(
            from_unit,
            to_unit,
            Unit::resolve(from_unit),
            Unit::resolve(to_unit),
        )
    }

    /// Serves a call of the tool, given what was found under the two names
    /// of a request: the conversion that the arguments ask for, or the answer
    /// in words where there is none to make.
    pub fn answer(&self, arguments: &Arguments, from: Option<Unit>, to: Option<Unit>) -> (outcome:
        Result<Conversion, String>)
        ensures
            match outcome {
                Ok(conversion) => {
                    &&& arguments matches Arguments::Given { from_unit, to_unit }
                    &&& from matches Some(source)
                    &&& to matches Some(target)
                    &&& conversion.joins(from_unit@, to_unit@, source, target)
                    &&& arguments.refusal_with(from, to) is None
                },
                Err(text) => arguments.refusal_with(from, to) == Some(text@),
            },
    {
        let (from_unit, to_unit) = match arguments {
            Arguments::Missing => {
                return Err(missing_arguments_message());
            },
            Arguments::Malformed { reason } => {
                return Err(malformed_arguments_message(reason.as_str()));
            },
            Arguments::Given { from_unit, to_unit } => (from_unit.as_str(), to_unit.as_str()),
        };
        let unit_type = match from {
            Some(source) => source.category(),
            None => {
                return Err(unknown_source_message(from_unit));
            },
        };
        match UnitConversion::convert_found(from_unit, to_unit, from, to) {
            Ok(conversion) => Ok(conversion),
            Err(_) => Err(unusable_target_message(from_unit, to_unit, unit_type)),
        }
    }

    /// Serves a call of the tool: the conversion that the arguments ask for,
    /// or the answer in words where there is none to make.
    pub fn execute(&self, arguments: &Arguments) -> (outcome: Result<Conversion, String>)
        ensures
            match outcome {
                Ok(conversion) => {
                    &&& arguments matches Arguments::Given { from_unit, to_unit }
                    &&& conversion.is_between(from_unit@, to_unit@)
                    &&& arguments.refusal() is None
                },
                Err(text) => arguments.refusal() == Some(text@),
            },
    {
        let (from, to) = match arguments {
            Arguments::Given { from_unit, to_unit } => (
                Unit::resolve(from_unit.as_str()),
                Unit::resolve(to_unit.as_str()),
            ),
            _ => (None, None),
        };
        self.answer(arguments, from, to)
    }
}

impl Default for UnitConversion {
    fn default() -> (tool: Self)
        ensures
            tool == UnitConversion,
    {
        UnitConversion::new()
    }
}

} // verus!
