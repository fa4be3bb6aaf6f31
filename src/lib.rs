//! Shows the bit layout of a numeric literal under the IEEE-754 formats: the raw bits, the
//! letters of the sign, exponent and mantissa fields under them, and a line per field.

pub mod decode;
pub mod format;
pub mod laws;
pub mod render;
pub mod report;
pub mod text;
