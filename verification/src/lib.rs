//! Conversion of values between named units of one physical quantity:
//! distance, volume, weight, temperature, digital storage, pressure and
//! speed.
//!
//! The library resolves unit names, decides whether two units can be
//! converted into one another, and lays a conversion out as a list of
//! arithmetic steps with exact constants. The caller carries the steps out
//! in double precision; the library proves what they amount to in exact
//! arithmetic.

pub mod beaufort;
pub mod binary64;
pub mod category;
pub mod conversion;
pub mod formula;
pub mod laws;
pub mod messages;
pub mod relation;
pub mod text;
pub mod unit;

pub use category::UnitType;
pub use conversion::{Arguments, Conversion, ConversionError, ConversionResult, UnitConversion};
pub use formula::{Ratio, Step};
pub use unit::Unit;
