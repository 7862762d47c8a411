//! `toInteger()` and `toIntegerOrNull()`: one conversion table, two policies
//! for a value of a type that the table does not take.
use crate::decimal::{parse_i64, parsed_i64};
use crate::double::{floor_i64, floor_to_i64};
use crate::value::{Float, FunctionError, FunctionEvaluationError, Value};
use vstd::prelude::*;

verus! {

/// What the conversion table gives for one value.
#[derive(Debug, Clone, PartialEq)]
pub enum Coercion {
    /// An `Integer` or `Null` result.
    Coerced(Value),
    /// A float that no binary64 value stands for.
    Overflow,
    /// A value of a type that does not convert to an integer.
    InvalidType,
}

/// The conversion table. `text_as_double` is what the text of a `String`
/// value reads as when parsed as a floating-point literal (its bit pattern),
/// or `None` where it does not parse as one; it matters only for text that is
/// not an `i64` literal.
pub open spec fn coercion_of(v: Value, text_as_double: Option<u64>) -> Coercion {
    match v {
        Value::Null => Coercion::Coerced(Value::Null),
        Value::Integer(i) => Coercion::Coerced(Value::Integer(i)),
        Value::Float(Float::Double(bits)) => Coercion::Coerced(Value::Integer(floor_i64(bits))),
        Value::Float(Float::Unrepresentable) => Coercion::Overflow,
        Value::Bool(b) => Coercion::Coerced(
            Value::Integer(
                if b {
                    1
                } else {
                    0
                },
            ),
        ),
        Value::String(s) => match parsed_i64(s@) {
            Some(i) => Coercion::Coerced(Value::Integer(i)),
            None => match text_as_double {
                Some(bits) => Coercion::Coerced(Value::Integer(floor_i64(bits))),
                None => Coercion::Coerced(Value::Null),
            },
        },
        Value::Other => Coercion::InvalidType,
    }
}

/// The result of `toInteger()` on the argument list `args`.
pub open spec fn strict_result(args: Seq<Value>, text_as_double: Option<u64>) -> Result<
    Value,
    FunctionEvaluationError,
> {
    if args.len() != 1 {
        Err(FunctionEvaluationError::InvalidArgumentCount)
    } else {
        match coercion_of(args[0], text_as_double) {
            Coercion::Coerced(v) => Ok(v),
            Coercion::Overflow => Err(FunctionEvaluationError::OverflowError),
            Coercion::InvalidType => Err(FunctionEvaluationError::InvalidArgument(0)),
        }
    }
}

/// The result of `toIntegerOrNull()` on the argument list `args`: as
/// `toInteger()`, but a value of a type that does not convert gives `Null`.
pub open spec fn lenient_result(args: Seq<Value>, text_as_double: Option<u64>) -> Result<
    Value,
    FunctionEvaluationError,
> {
    if args.len() != 1 {
        Err(FunctionEvaluationError::InvalidArgumentCount)
    } else {
        match coercion_of(args[0], text_as_double) {
            Coercion::Coerced(v) => Ok(v),
            Coercion::Overflow => Err(FunctionEvaluationError::OverflowError),
            Coercion::InvalidType => Ok(Value::Null),
        }
    }
}

/// A call's result as the caller sees it: the value, or the error kind with
/// the function's name attached.
pub open spec fn reports(
    r: Result<Value, FunctionError>,
    function_name: Seq<char>,
    expected: Result<Value, FunctionEvaluationError>,
) -> bool {
    match r {
        Ok(v) => expected == Ok::<Value, FunctionEvaluationError>(v),
        Err(e) => e.function_name@ == function_name && expected == Err::<
            Value,
            FunctionEvaluationError,
        >(e.error),
    }
}

/// Applies the conversion table to one value.
pub fn coerce(v: &Value, text_as_double: Option<u64>) -> (r: Coercion)
    ensures
        r == coercion_of(*v, text_as_double),
{
    match v {
        Value::Null => Coercion::Coerced(Value::Null),
        Value::Integer(i) => Coercion::Coerced(Value::Integer(*i)),
        Value::Float(Float::Double(bits)) => Coercion::Coerced(Value::Integer(floor_to_i64(*bits))),
        Value::Float(Float::Unrepresentable) => Coercion::Overflow,
        Value::Bool(b) => {
            if *b {
                Coercion::Coerced(Value::Integer(1))
            } else {
                Coercion::Coerced(Value::Integer(0))
            }
        },
        Value::String(s) => match parse_i64(s.as_str()) {
            Some(i) => Coercion::Coerced(Value::Integer(i)),
            None => match text_as_double {
                Some(bits) => Coercion::Coerced(Value::Integer(floor_to_i64(bits))),
                None => Coercion::Coerced(Value::Null),
            },
        },
        Value::Other => Coercion::InvalidType,
    }
}

fn function_error(function_name: &str, error: FunctionEvaluationError) -> (r: FunctionError)
    ensures
        r.function_name@ == function_name@,
        r.error == error,
{
    FunctionError { function_name: function_name.to_owned(), error }
}

/// The `toInteger()` function: fails on a value that does not convert.
#[derive(Debug)]
pub struct ToInteger {}

impl ToInteger {
    /// Calls `toInteger()`, named `function_name` at the call site, on `args`.
    /// `text_as_double` is what the sole argument's text reads as when parsed
    /// as a floating-point literal, as for `coercion_of`.
    pub fn call(&self, function_name: &str, args: Vec<Value>, text_as_double: Option<u64>) -> (r:
        Result<Value, FunctionError>)
        ensures
            reports(r, function_name@, strict_result(args@, text_as_double)),
    {
        if args.len() != 1 {
            return Err(function_error(function_name, FunctionEvaluationError::InvalidArgumentCount));
        }
        match coerce(&args[0], text_as_double) {
            Coercion::Coerced(v) => Ok(v),
            Coercion::Overflow => Err(function_error(function_name, FunctionEvaluationError::OverflowError)),
            Coercion::InvalidType => Err(function_error(function_name, FunctionEvaluationError::InvalidArgument(0))),
        }
    }
}

/// The `toIntegerOrNull()` function: gives `Null` for a value of a type that
/// does not convert, but still fails on a wrong argument count and on a float
/// that no binary64 value stands for.
#[derive(Debug)]
pub struct ToIntegerOrNull {}

impl ToIntegerOrNull {
    /// Calls `toIntegerOrNull()`, named `function_name` at the call site, on
    /// `args`, with `text_as_double` as for `ToInteger::call`.
    pub fn call(&self, function_name: &str, args: Vec<Value>, text_as_double: Option<u64>) -> (r:
        Result<Value, FunctionError>)
        ensures
            reports(r, function_name@, lenient_result(args@, text_as_double)),
    {
        if args.len() != 1 {
            return Err(function_error(function_name, FunctionEvaluationError::InvalidArgumentCount));
        }
        match coerce(&args[0], text_as_double) {
            Coercion::Coerced(v) => Ok(v),
            Coercion::Overflow => Err(function_error(function_name, FunctionEvaluationError::OverflowError)),
            Coercion::InvalidType => Ok(Value::Null),
        }
    }
}

} // verus!
