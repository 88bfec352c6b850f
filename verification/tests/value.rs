use appconfiguration::{Error, Float64, Value};

fn float(v: f64) -> Float64 {
    Float64::from_bits(v.to_bits())
}

fn number(v: Float64) -> f64 {
    f64::from_bits(v.to_bits())
}

#[test]
fn test_numeric_f64() {
    let value = Value::from(float(42f64));
    assert!(matches!(value, Value::Float64(ref v) if number(*v) == 42f64));

    let as_f64: Float64 = value.clone().try_into().unwrap();
    assert_eq!(number(as_f64), 42f64);

    assert!(matches!(TryInto::<u64>::try_into(value.clone()).unwrap_err(), Error::MismatchType));
    assert!(matches!(TryInto::<i64>::try_into(value.clone()).unwrap_err(), Error::MismatchType));
    assert!(matches!(
        TryInto::<String>::try_into(value.clone()).unwrap_err(),
        Error::MismatchType
    ));
    assert!(matches!(TryInto::<bool>::try_into(value.clone()).unwrap_err(), Error::MismatchType));
}

#[test]
fn test_numeric_u64() {
    // An u64 within the range of i64
    {
        let value = Value::from(42u64);
        assert!(matches!(value, Value::UInt64(ref v) if v == &42u64));

        let as_u64: u64 = value.clone().try_into().unwrap();
        assert_eq!(as_u64, 42u64);

        let as_i64: i64 = value.clone().try_into().unwrap();
        assert_eq!(as_i64, 42i64);

        assert!(matches!(
            TryInto::<Float64>::try_into(value.clone()).unwrap_err(),
            Error::MismatchType
        ));
        assert!(matches!(
            TryInto::<String>::try_into(value.clone()).unwrap_err(),
            Error::MismatchType
        ));
        assert!(matches!(
            TryInto::<bool>::try_into(value.clone()).unwrap_err(),
            Error::MismatchType
        ));
    }

    // An u64 outside the range of i64
    {
        let value = Value::from(u64::MAX);
        assert!(matches!(
            TryInto::<i64>::try_into(value.clone()).unwrap_err(),
            Error::MismatchType
        ));
    }
}

#[test]
fn test_numeric_i64() {
    // An i64 within the range of u64
    {
        let value = Value::from(42i64);
        assert!(matches!(value, Value::Int64(ref v) if v == &42i64));

        let as_i64: i64 = value.clone().try_into().unwrap();
        assert_eq!(as_i64, 42i64);

        let as_u64: u64 = value.clone().try_into().unwrap();
        assert_eq!(as_u64, 42u64);

        assert!(matches!(
            TryInto::<Float64>::try_into(value.clone()).unwrap_err(),
            Error::MismatchType
        ));
        assert!(matches!(
            TryInto::<String>::try_into(value.clone()).unwrap_err(),
            Error::MismatchType
        ));
        assert!(matches!(
            TryInto::<bool>::try_into(value.clone()).unwrap_err(),
            Error::MismatchType
        ));
    }

    // An i64 outside the range of u64
    {
        let value = Value::from(-2i64);
        assert!(matches!(
            TryInto::<u64>::try_into(value.clone()).unwrap_err(),
            Error::MismatchType
        ));
    }
}

#[test]
fn test_string() {
    let value = Value::from("value".to_string());
    assert!(matches!(value, Value::String(ref v) if v == "value"));

    let as_string: String = value.clone().try_into().unwrap();
    assert_eq!(as_string, "value");

    assert!(matches!(
        TryInto::<Float64>::try_into(value.clone()).unwrap_err(),
        Error::MismatchType
    ));
    assert!(matches!(TryInto::<u64>::try_into(value.clone()).unwrap_err(), Error::MismatchType));
    assert!(matches!(TryInto::<i64>::try_into(value.clone()).unwrap_err(), Error::MismatchType));
    assert!(matches!(TryInto::<bool>::try_into(value.clone()).unwrap_err(), Error::MismatchType));
}

#[test]
#[allow(clippy::bool_assert_comparison)]
fn test_boolean() {
    let value = Value::from(false);
    assert!(matches!(value, Value::Boolean(ref v) if v == &false));

    let as_boolean: bool = value.clone().try_into().unwrap();
    assert_eq!(as_boolean, false);

    assert!(matches!(
        TryInto::<Float64>::try_into(value.clone()).unwrap_err(),
        Error::MismatchType
    ));
    assert!(matches!(TryInto::<u64>::try_into(value.clone()).unwrap_err(), Error::MismatchType));
    assert!(matches!(TryInto::<i64>::try_into(value.clone()).unwrap_err(), Error::MismatchType));
    assert!(matches!(
        TryInto::<String>::try_into(value.clone()).unwrap_err(),
        Error::MismatchType
    ));
}

#[test]
fn value_to_primitive_and_back_is_the_value() {
    let values = vec![
        Value::Float64(float(1.5)),
        Value::UInt64(u64::MAX),
        Value::Int64(i64::MIN),
        Value::String("text".to_string()),
        Value::Boolean(true),
    ];
    for value in values {
        let back = match value.clone() {
            v @ Value::Float64(_) => Value::from(Float64::try_from(v).unwrap()),
            v @ Value::UInt64(_) => Value::from(u64::try_from(v).unwrap()),
            v @ Value::Int64(_) => Value::from(i64::try_from(v).unwrap()),
            v @ Value::String(_) => Value::from(String::try_from(v).unwrap()),
            v @ Value::Boolean(_) => Value::from(bool::try_from(v).unwrap()),
        };
        assert!(back == value);
    }
}

#[test]
fn signed_and_unsigned_convert_where_the_number_fits() {
    assert_eq!(i64::try_from(Value::UInt64(i64::MAX as u64)).unwrap(), i64::MAX);
    assert!(i64::try_from(Value::UInt64(i64::MAX as u64 + 1)).is_err());
    assert_eq!(u64::try_from(Value::Int64(0)).unwrap(), 0);
    assert!(u64::try_from(Value::Int64(-1)).is_err());
}

#[test]
fn values_are_equal_by_what_they_hold() {
    assert!(Value::Int64(1) == Value::Int64(1));
    assert!(Value::Int64(1) != Value::UInt64(1));
    assert!(Value::String("a".to_string()) == Value::String("a".to_string()));
    assert!(Value::String("a".to_string()) != Value::String("A".to_string()));
    assert!(Value::Float64(float(0.0)) == Value::Float64(float(-0.0)));
    assert!(Value::Float64(float(f64::NAN)) != Value::Float64(float(f64::NAN)));
}

#[test]
fn floats_compare_as_numbers() {
    let samples = [
        0.0,
        -0.0,
        1.0,
        -1.0,
        1.5,
        -1.5,
        f64::MIN_POSITIVE,
        -f64::MIN_POSITIVE,
        5e-324,
        -5e-324,
        f64::MAX,
        f64::MIN,
        f64::INFINITY,
        f64::NEG_INFINITY,
        f64::NAN,
        -f64::NAN,
        42.0,
        0.1,
        0.30000000000000004,
    ];
    for a in samples {
        assert_eq!(float(a).is_nan(), a.is_nan());
        assert_eq!(float(a).to_bits(), a.to_bits());
        for b in samples {
            assert_eq!(float(a).is_equal_to(float(b)), a == b, "{a} == {b}");
            assert_eq!(float(a).is_less_than(float(b)), a < b, "{a} < {b}");
        }
    }
}
