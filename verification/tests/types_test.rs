use ydb::value::{RawType, RawTypedValue, RawValue};
use ydb::{Value, YdbResult};

#[test]
fn test_is_optional() -> YdbResult<()> {
    assert!(Value::optional_from(Value::Bool(false), None)?.is_optional());
    assert!(Value::optional_from(Value::Bool(false), Some(Value::Bool(false)))?.is_optional());
    assert!(!Value::Bool(false).is_optional());
    Ok(())
}

#[test]
fn test_optional_from_rejects_mismatched_element() {
    let r = Value::optional_from(Value::Bool(false), Some(Value::Int64(1)));
    assert!(r.is_err());
}

#[test]
fn test_optional_from_rejects_nested_optional() {
    let inner = Value::optional_from(Value::Bool(false), None).unwrap();
    assert!(Value::optional_from(inner, None).is_err());
    let inner2 = Value::optional_from(Value::Bool(false), None).unwrap();
    assert!(Value::optional_from(Value::Bool(false), Some(inner2)).is_err());
}

#[test]
fn test_to_typed_value_exact_encoding() {
    let tv = Value::Int64(-7).to_typed_value().unwrap();
    assert_eq!(tv, RawTypedValue { v_type: RawType::Int64, value: RawValue::Int64(-7) });

    let tv = Value::Text("abc".to_string()).to_typed_value().unwrap();
    assert_eq!(tv, RawTypedValue { v_type: RawType::Utf8, value: RawValue::Text("abc".to_string()) });

    let tv = Value::Uuid { high: 5, low: 9 }.to_typed_value().unwrap();
    assert_eq!(tv, RawTypedValue { v_type: RawType::Uuid, value: RawValue::Uuid { high: 5, low: 9 } });

    let tv = Value::Decimal { units: -123456, precision: 28, scale: 2 }.to_typed_value().unwrap();
    assert_eq!(
        tv,
        RawTypedValue {
            v_type: RawType::Decimal { precision: 28, scale: 2 },
            value: RawValue::Decimal { units: -123456 },
        }
    );
}

#[test]
fn test_wire_round_trip_primitives() {
    fn samples() -> Vec<Value> {
        vec![
            Value::Bool(true),
            Value::Int32(-5),
            Value::Uint32(5),
            Value::Int64(-50),
            Value::Uint64(50),
            Value::Date(19000),
            Value::Text("hello".to_string()),
            Value::Bytes(vec![1, 2, 3]),
            Value::Uuid { high: 0x1234567890abcdef, low: 0x1234567890abcdef },
            Value::Decimal { units: 314, precision: 10, scale: 2 },
        ]
    }
    let expected = samples();
    for (v, e) in samples().into_iter().zip(expected.into_iter()) {
        let tv = v.to_typed_value().unwrap();
        let back = Value::try_from(tv).unwrap();
        assert_eq!(back, e);
    }
}

#[test]
fn test_wire_round_trip_optional() {
    let v = Value::optional_from(Value::Int64(0), Some(Value::Int64(42))).unwrap();
    let tv = v.to_typed_value().unwrap();
    assert_eq!(
        tv,
        RawTypedValue {
            v_type: RawType::Optional(Box::new(RawType::Int64)),
            value: RawValue::Int64(42),
        }
    );
    let back = Value::try_from(tv).unwrap();
    let again = Value::optional_from(Value::Int64(0), Some(Value::Int64(42))).unwrap();
    assert_eq!(back, again);

    let null = Value::optional_from(Value::Text(String::new()), None).unwrap();
    let tv = null.to_typed_value().unwrap();
    assert_eq!(
        tv,
        RawTypedValue {
            v_type: RawType::Optional(Box::new(RawType::Utf8)),
            value: RawValue::NullFlag,
        }
    );
    let back = Value::try_from(tv).unwrap();
    assert!(back.is_optional());
}

#[test]
fn test_try_from_rejects_mismatched_payload() {
    let tv = RawTypedValue { v_type: RawType::Bool, value: RawValue::Int64(1) };
    assert!(Value::try_from(tv).is_err());
    let tv = RawTypedValue {
        v_type: RawType::Optional(Box::new(RawType::Optional(Box::new(RawType::Bool)))),
        value: RawValue::NullFlag,
    };
    assert!(Value::try_from(tv).is_err());
}
