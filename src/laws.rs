//! What holds of `toInteger()` and `toIntegerOrNull()` over all inputs.
use crate::decimal::parsed_i64;
use crate::double::{floor_i64, floor_of_finite, is_finite};
use crate::to_integer::{lenient_result, strict_result};
use crate::value::{Float, FunctionEvaluationError, Value};
use vstd::prelude::*;

verus! {

/// `toInteger()` and `toIntegerOrNull()` both give `expected` on `args`.
pub open spec fn both_give(
    args: Seq<Value>,
    text_as_double: Option<u64>,
    expected: Result<Value, FunctionEvaluationError>,
) -> bool {
    strict_result(args, text_as_double) == expected && lenient_result(args, text_as_double)
        == expected
}

/// An integer comes back unchanged.
pub proof fn lemma_integer_unchanged(i: i64, text_as_double: Option<u64>)
    ensures
        both_give(seq![Value::Integer(i)], text_as_double, Ok(Value::Integer(i))),
{
}

/// `true` gives 1 and `false` gives 0.
pub proof fn lemma_bool_as_integer(b: bool, text_as_double: Option<u64>)
    ensures
        both_give(
            seq![Value::Bool(b)],
            text_as_double,
            Ok(
                Value::Integer(
                    if b {
                        1
                    } else {
                        0
                    },
                ),
            ),
        ),
{
}

/// A finite double whose floor fits in an `i64` gives that floor.
pub proof fn lemma_double_floored(bits: u64, text_as_double: Option<u64>)
    requires
        is_finite(bits),
        i64::MIN <= floor_of_finite(bits) <= i64::MAX,
    ensures
        both_give(
            seq![Value::Float(Float::Double(bits))],
            text_as_double,
            Ok(Value::Integer(floor_of_finite(bits) as i64)),
        ),
{
}

/// Text that is an `i64` literal gives its value.
pub proof fn lemma_integer_text(s: String, i: i64, text_as_double: Option<u64>)
    requires
        parsed_i64(s@) == Some(i),
    ensures
        both_give(seq![Value::String(s)], text_as_double, Ok(Value::Integer(i))),
{
}

/// Text that is no `i64` literal but reads as a double gives that double's
/// floor.
pub proof fn lemma_decimal_text(s: String, bits: u64)
    requires
        parsed_i64(s@) is None,
    ensures
        both_give(seq![Value::String(s)], Some(bits), Ok(Value::Integer(floor_i64(bits)))),
{
}

/// Text that reads as no number gives `Null`, without an error.
pub proof fn lemma_non_numeric_text(s: String)
    requires
        parsed_i64(s@) is None,
    ensures
        both_give(seq![Value::String(s)], None, Ok(Value::Null)),
{
}

/// `Null` gives `Null`.
pub proof fn lemma_null_unchanged(text_as_double: Option<u64>)
    ensures
        both_give(seq![Value::Null], text_as_double, Ok(Value::Null)),
{
}

/// A value of a type that does not convert is an error at index 0 for
/// `toInteger()` and `Null` for `toIntegerOrNull()`.
pub proof fn lemma_other_type(text_as_double: Option<u64>)
    ensures
        strict_result(seq![Value::Other], text_as_double) == Err::<Value, FunctionEvaluationError>(
            FunctionEvaluationError::InvalidArgument(0),
        ),
        lenient_result(seq![Value::Other], text_as_double) == Ok::<Value, FunctionEvaluationError>(
            Value::Null,
        ),
{
}

/// Any number of arguments but one is an argument-count error for both.
pub proof fn lemma_argument_count(args: Seq<Value>, text_as_double: Option<u64>)
    requires
        args.len() != 1,
    ensures
        both_give(args, text_as_double, Err(FunctionEvaluationError::InvalidArgumentCount)),
{
}

/// A float that no binary64 value stands for is an overflow error for both.
pub proof fn lemma_unrepresentable_overflows(text_as_double: Option<u64>)
    ensures
        both_give(
            seq![Value::Float(Float::Unrepresentable)],
            text_as_double,
            Err(FunctionEvaluationError::OverflowError),
        ),
{
}

/// Every successful result is an `Integer` or `Null`, and feeding it back in
/// gives it again, whatever its text would read as.
pub proof fn lemma_idempotent(args: Seq<Value>, text_as_double: Option<u64>, again: Option<u64>)
    ensures
        strict_result(args, text_as_double) matches Ok(w) ==> (w is Integer || w is Null)
            && strict_result(seq![w], again) == Ok::<Value, FunctionEvaluationError>(w),
        lenient_result(args, text_as_double) matches Ok(w) ==> (w is Integer || w is Null)
            && lenient_result(seq![w], again) == Ok::<Value, FunctionEvaluationError>(w),
{
}

} // verus!
