//! The physical quantities that units measure.

use vstd::prelude::*;
use vstd::string::*;

verus! {

/// A physical quantity. Units convert into one another only within one
/// quantity.
#[derive(Clone, Copy, Debug, PartialEq, Eq, Structural)]
pub enum UnitType {
    Distance,
    Volume,
    Weight,
    Temperature,
    Digital,
    Pressure,
    Speed,
}

impl UnitType {
    /// The quantity's name in lower case.
    pub open spec fn spec_name(self) -> Seq<char> {
        match self {
            UnitType::Distance => "distance"@,
            UnitType::Volume => "volume"@,
            UnitType::Weight => "weight"@,
            UnitType::Temperature => "temperature"@,
            UnitType::Digital => "digital"@,
            UnitType::Pressure => "pressure"@,
            UnitType::Speed => "speed"@,
        }
    }

    /// The quantity's name with a capital first letter, as it heads a list.
    pub open spec fn spec_title(self) -> Seq<char> {
        match self {
            UnitType::Distance => "Distance"@,
            UnitType::Volume => "Volume"@,
            UnitType::Weight => "Weight"@,
            UnitType::Temperature => "Temperature"@,
            UnitType::Digital => "Digital"@,
            UnitType::Pressure => "Pressure"@,
            UnitType::Speed => "Speed"@,
        }
    }

    /// The quantity's name in lower case.
    pub fn name(&self) -> (text: &'static str)
        ensures
            text@ == self.spec_name(),
    {
        match self {
            UnitType::Distance => "distance",
            UnitType::Volume => "volume",
            UnitType::Weight => "weight",
            UnitType::Temperature => "temperature",
            UnitType::Digital => "digital",
            UnitType::Pressure => "pressure",
            UnitType::Speed => "speed",
        }
    }

    /// The quantity's name with a capital first letter.
    pub fn title(&self) -> (text: &'static str)
        ensures
            text@ == self.spec_title(),
    {
        match self {
            UnitType::Distance => "Distance",
            UnitType::Volume => "Volume",
            UnitType::Weight => "Weight",
            UnitType::Temperature => "Temperature",
            UnitType::Digital => "Digital",
            UnitType::Pressure => "Pressure",
            UnitType::Speed => "Speed",
        }
    }

    /// The quantity's name as an owned string.
    pub fn to_string(&self) -> (text: String)
        ensures
            text@ == self.spec_name(),
    {
        String::from_str(self.name())
    }
}

} // verus!
