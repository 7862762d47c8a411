//! The dynamic values that query expressions evaluate to, and the errors of
//! the scalar functions applied to them.
use vstd::prelude::*;

verus! {

/// A floating-point value of a query.
#[derive(Debug, Clone, Copy, PartialEq, Eq)]
pub enum Float {
    /// An IEEE-754 binary64 number, held as its bit pattern.
    Double(u64),
    /// A number that no binary64 value stands for.
    Unrepresentable,
}

/// A value that a query expression evaluates to. Lists, maps, temporal
/// values and the like are all `Other`: no scalar conversion reads them.
#[derive(Debug, Clone, PartialEq)]
pub enum Value {
    Null,
    Integer(i64),
    Float(Float),
    Bool(bool),
    String(String),
    Other,
}

#[derive(Debug, Clone, Copy, PartialEq, Eq, Structural)]
pub enum FunctionEvaluationError {
    /// The function was called with the wrong number of arguments.
    InvalidArgumentCount,
    /// A number could not be converted.
    OverflowError,
    /// The argument at this index has a type that the function does not take.
    InvalidArgument(usize),
}

/// A failed call of a scalar function, labelled with the function's name.
#[derive(Debug, Clone, PartialEq)]
pub struct FunctionError {
    pub function_name: String,
    pub error: FunctionEvaluationError,
}

} // verus!
