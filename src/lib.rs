//! Conversion of dynamic query values to integers, as done by the
//! `toInteger()` and `toIntegerOrNull()` builtins of a graph query language.
pub mod decimal;
pub mod double;
pub mod to_integer;
pub mod value;
pub mod laws;
