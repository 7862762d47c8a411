use to_integer::double::floor_to_i64;
use to_integer::to_integer::{coerce, Coercion, ToInteger, ToIntegerOrNull};
use to_integer::value::{Float, FunctionError, FunctionEvaluationError, Value};

const NAME: &str = "toInteger";

fn double(f: f64) -> Value {
    Value::Float(Float::Double(f.to_bits()))
}

fn reading(text: &str) -> Option<u64> {
    text.parse::<f64>().ok().map(f64::to_bits)
}

fn strict(args: Vec<Value>) -> Result<Value, FunctionError> {
    let r = match args.as_slice() {
        [Value::String(s)] => reading(s),
        _ => None,
    };
    ToInteger {}.call(NAME, args, r)
}

fn lenient(args: Vec<Value>) -> Result<Value, FunctionError> {
    let r = match args.as_slice() {
        [Value::String(s)] => reading(s),
        _ => None,
    };
    ToIntegerOrNull {}.call(NAME, args, r)
}

fn both(v: Value) -> (Result<Value, FunctionError>, Result<Value, FunctionError>) {
    (strict(vec![v.clone()]), lenient(vec![v]))
}

fn error(kind: FunctionEvaluationError) -> Result<Value, FunctionError> {
    Err(FunctionError { function_name: NAME.to_string(), error: kind })
}

fn text(s: &str) -> Value {
    Value::String(s.to_string())
}

#[test]
fn integer_unchanged() {
    for i in [0i64, 1, -1, 42, i64::MAX, i64::MIN] {
        let (s, l) = both(Value::Integer(i));
        assert_eq!(s, Ok(Value::Integer(i)));
        assert_eq!(l, Ok(Value::Integer(i)));
    }
}

#[test]
fn bool_to_one_or_zero() {
    assert_eq!(both(Value::Bool(true)), (Ok(Value::Integer(1)), Ok(Value::Integer(1))));
    assert_eq!(both(Value::Bool(false)), (Ok(Value::Integer(0)), Ok(Value::Integer(0))));
}

#[test]
fn float_floored() {
    assert_eq!(both(double(2.9)), (Ok(Value::Integer(2)), Ok(Value::Integer(2))));
    assert_eq!(both(double(-2.1)), (Ok(Value::Integer(-3)), Ok(Value::Integer(-3))));
    assert_eq!(strict(vec![double(-1.5)]), Ok(Value::Integer(-2)));
    assert_eq!(strict(vec![double(7.0)]), Ok(Value::Integer(7)));
}

#[test]
fn floor_matches_float_cast() {
    let samples = [
        0.0,
        -0.0,
        0.5,
        -0.5,
        1.0,
        -1.0,
        2.9,
        -2.1,
        123456.789,
        -123456.789,
        4503599627370495.5,
        -4503599627370495.5,
        9007199254740993.0,
        4611686018427387904.0,
        -4611686018427387904.0,
        9223372036854775807.0,
        -9223372036854775808.0,
        1e300,
        -1e300,
        f64::MIN_POSITIVE,
        -f64::MIN_POSITIVE,
        5e-324,
        -5e-324,
        f64::INFINITY,
        f64::NEG_INFINITY,
        f64::NAN,
        f64::MAX,
        f64::MIN,
    ];
    for f in samples {
        assert_eq!(floor_to_i64(f.to_bits()), f.floor() as i64, "{f}");
    }
}

#[test]
fn floor_edges() {
    assert_eq!(floor_to_i64(f64::NAN.to_bits()), 0);
    assert_eq!(floor_to_i64(f64::INFINITY.to_bits()), i64::MAX);
    assert_eq!(floor_to_i64(f64::NEG_INFINITY.to_bits()), i64::MIN);
    assert_eq!(floor_to_i64(1e300f64.to_bits()), i64::MAX);
    assert_eq!(floor_to_i64((-1e300f64).to_bits()), i64::MIN);
    assert_eq!(floor_to_i64((-5e-324f64).to_bits()), -1);
    assert_eq!(floor_to_i64((-0.0f64).to_bits()), 0);
    assert_eq!(floor_to_i64(4611686018427387904.0f64.to_bits()), 4611686018427387904);
}

#[test]
fn integer_text() {
    assert_eq!(both(text("42")), (Ok(Value::Integer(42)), Ok(Value::Integer(42))));
    assert_eq!(both(text("-7")), (Ok(Value::Integer(-7)), Ok(Value::Integer(-7))));
    assert_eq!(strict(vec![text("+5")]), Ok(Value::Integer(5)));
    assert_eq!(strict(vec![text("9223372036854775807")]), Ok(Value::Integer(i64::MAX)));
    assert_eq!(strict(vec![text("-9223372036854775808")]), Ok(Value::Integer(i64::MIN)));
}

#[test]
fn integer_text_read_without_float_reading() {
    assert_eq!(coerce(&text("42"), None), Coercion::Coerced(Value::Integer(42)));
    assert_eq!(coerce(&text("-7"), Some(0)), Coercion::Coerced(Value::Integer(-7)));
}

#[test]
fn float_text() {
    assert_eq!(both(text("3.9")), (Ok(Value::Integer(3)), Ok(Value::Integer(3))));
    assert_eq!(both(text("-3.9")), (Ok(Value::Integer(-4)), Ok(Value::Integer(-4))));
    assert_eq!(strict(vec![text("1e3")]), Ok(Value::Integer(1000)));
    assert_eq!(strict(vec![text("9223372036854775808")]), Ok(Value::Integer(i64::MAX)));
}

#[test]
fn non_numeric_text() {
    assert_eq!(both(text("abc")), (Ok(Value::Null), Ok(Value::Null)));
    assert_eq!(both(text("")), (Ok(Value::Null), Ok(Value::Null)));
    assert_eq!(both(text(" 5")), (Ok(Value::Null), Ok(Value::Null)));
    assert_eq!(both(text("-")), (Ok(Value::Null), Ok(Value::Null)));
}

#[test]
fn null_stays_null() {
    assert_eq!(both(Value::Null), (Ok(Value::Null), Ok(Value::Null)));
}

#[test]
fn other_type() {
    assert_eq!(strict(vec![Value::Other]), error(FunctionEvaluationError::InvalidArgument(0)));
    assert_eq!(lenient(vec![Value::Other]), Ok(Value::Null));
}

#[test]
fn argument_count() {
    let kind = FunctionEvaluationError::InvalidArgumentCount;
    assert_eq!(strict(vec![]), error(kind));
    assert_eq!(lenient(vec![]), error(kind));
    assert_eq!(strict(vec![Value::Integer(1), Value::Integer(2)]), error(kind));
    assert_eq!(lenient(vec![Value::Integer(1), Value::Integer(2)]), error(kind));
    assert_eq!(lenient(vec![Value::Other, Value::Other, Value::Null]), error(kind));
}

#[test]
fn unrepresentable_overflows() {
    let v = Value::Float(Float::Unrepresentable);
    let kind = FunctionEvaluationError::OverflowError;
    assert_eq!(both(v), (error(kind), error(kind)));
}

#[test]
fn error_carries_name() {
    let r = ToInteger {}.call("toint", vec![], None);
    assert_eq!(r.unwrap_err().function_name, "toint");
}

#[test]
fn idempotent() {
    let inputs = vec![
        Value::Null,
        Value::Integer(-12),
        Value::Bool(true),
        double(-2.1),
        text("17"),
        text("3.9"),
        text("abc"),
        Value::Other,
    ];
    for v in inputs {
        let once = strict(vec![v.clone()]);
        if let Ok(w) = once.clone() {
            assert_eq!(strict(vec![w]), once);
        }
        let once = lenient(vec![v]);
        let w = once.clone().unwrap();
        assert_eq!(lenient(vec![w]), once);
    }
}
