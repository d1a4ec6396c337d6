//! Native typed values and their marshalling to and from the wire form.
//!
//! A `Value` is what callers hand in as query parameters and get back from
//! row extraction. Marshalling round-trips: a well-formed value encoded
//! with `to_typed_value` decodes to the same value with `try_from`.

use vstd::prelude::*;

use crate::errors::{YdbError, YdbResult};
use crate::value::{RawType, RawTypedValue, RawValue};

verus! {

/// Column metadata of a result set: the column's name and wire type.
#[derive(Clone, Debug)]
pub struct Column {
    pub name: String,
    pub v_type: RawType,
}

/// A native typed value. `Optional` carries the element type beside the
/// (possibly absent) element, so that a null still knows its type.
#[derive(Debug, PartialEq)]
pub enum Value {
    Bool(bool),
    Int32(i32),
    Uint32(u32),
    Int64(i64),
    Uint64(u64),
    /// A date as the number of days since the epoch.
    Date(u32),
    Text(String),
    Bytes(Vec<u8>),
    /// A UUID as the two halves of its 128-bit wire form.
    Uuid { high: u64, low: u64 },
    /// A fixed-point decimal: scaled integer units plus the type's
    /// precision and scale.
    Decimal { units: i64, precision: u32, scale: u32 },
    Optional(Box<ValueOptional>),
}

/// The payload of an optional value: the element type and the element,
/// absent for a typed null.
#[derive(Debug, PartialEq)]
pub struct ValueOptional {
    pub t: RawType,
    pub value: Option<Value>,
}

/// The wire type a value carries.
pub open spec fn spec_wire_type(v: Value) -> RawType {
    match v {
        Value::Bool(_) => RawType::Bool,
        Value::Int32(_) => RawType::Int32,
        Value::Uint32(_) => RawType::Uint32,
        Value::Int64(_) => RawType::Int64,
        Value::Uint64(_) => RawType::Uint64,
        Value::Date(_) => RawType::Date,
        Value::Text(_) => RawType::Utf8,
        Value::Bytes(_) => RawType::Bytes,
        Value::Uuid { .. } => RawType::Uuid,
        Value::Decimal { precision, scale, .. } => RawType::Decimal { precision, scale },
        Value::Optional(vo) => RawType::Optional(Box::new(vo.t)),
    }
}

/// The wire payload of a value; for an absent optional element, the null
/// marker.
pub open spec fn spec_wire_value(v: Value) -> RawValue
    decreases v,
{
    match v {
        Value::Bool(b) => RawValue::Bool(b),
        Value::Int32(x) => RawValue::Int32(x),
        Value::Uint32(x) => RawValue::Uint32(x),
        Value::Int64(x) => RawValue::Int64(x),
        Value::Uint64(x) => RawValue::Uint64(x),
        Value::Date(d) => RawValue::Date(d),
        Value::Text(s) => RawValue::Text(s),
        Value::Bytes(b) => RawValue::Bytes(b),
        Value::Uuid { high, low } => RawValue::Uuid { high, low },
        Value::Decimal { units, .. } => RawValue::Decimal { units },
        Value::Optional(vo) => match vo.value {
            Some(x) => spec_wire_value(x),
            None => RawValue::NullFlag,
        },
    }
}

/// The full wire form of a value.
pub open spec fn spec_to_wire(v: Value) -> RawTypedValue {
    RawTypedValue { v_type: spec_wire_type(v), value: spec_wire_value(v) }
}

/// Well-formedness: optionality is at most one level deep and an optional
/// element's wire type agrees with the recorded element type.
pub open spec fn wf_value(v: Value) -> bool {
    match v {
        Value::Optional(vo) => {
            &&& !(vo.t is Optional)
            &&& match vo.value {
                Some(x) => !(x is Optional) && spec_wire_type(x) == vo.t,
                None => true,
            }
        },
        _ => true,
    }
}

/// The value a wire form decodes to, if its payload matches its type tag.
pub open spec fn spec_from_wire(tv: RawTypedValue) -> Option<Value>
    decreases tv.v_type,
{
    match tv.v_type {
        RawType::Bool => match tv.value {
            RawValue::Bool(b) => Some(Value::Bool(b)),
            _ => None,
        },
        RawType::Int32 => match tv.value {
            RawValue::Int32(x) => Some(Value::Int32(x)),
            _ => None,
        },
        RawType::Uint32 => match tv.value {
            RawValue::Uint32(x) => Some(Value::Uint32(x)),
            _ => None,
        },
        RawType::Int64 => match tv.value {
            RawValue::Int64(x) => Some(Value::Int64(x)),
            _ => None,
        },
        RawType::Uint64 => match tv.value {
            RawValue::Uint64(x) => Some(Value::Uint64(x)),
            _ => None,
        },
        RawType::Date => match tv.value {
            RawValue::Date(d) => Some(Value::Date(d)),
            _ => None,
        },
        RawType::Utf8 => match tv.value {
            RawValue::Text(s) => Some(Value::Text(s)),
            _ => None,
        },
        RawType::Bytes => match tv.value {
            RawValue::Bytes(b) => Some(Value::Bytes(b)),
            _ => None,
        },
        RawType::Uuid => match tv.value {
            RawValue::Uuid { high, low } => Some(Value::Uuid { high, low }),
            _ => None,
        },
        RawType::Decimal { precision, scale } => match tv.value {
            RawValue::Decimal { units } => Some(Value::Decimal { units, precision, scale }),
            _ => None,
        },
        RawType::Optional(inner) => {
            if *inner is Optional {
                None
            } else {
                match tv.value {
                    RawValue::NullFlag => Some(
                        Value::Optional(Box::new(ValueOptional { t: *inner, value: None })),
                    ),
                    _ => match spec_from_wire(
                        RawTypedValue { v_type: *inner, value: tv.value },
                    ) {
                        Some(x) => Some(
                            Value::Optional(
                                Box::new(ValueOptional { t: *inner, value: Some(x) }),
                            ),
                        ),
                        None => None,
                    },
                }
            }
        },
    }
}

/// Encoding then decoding gives the value back: the marshalling layer
/// loses nothing on well-formed values.
pub proof fn lemma_wire_round_trip(v: Value)
    requires
        wf_value(v),
    ensures
        spec_from_wire(spec_to_wire(v)) == Some(v),
{
    match v {
        Value::Optional(vo) => {
            match vo.value {
                Some(x) => {
                    assert(!(spec_wire_value(x) is NullFlag));
                    assert(spec_from_wire(
                        RawTypedValue { v_type: vo.t, value: spec_wire_value(x) },
                    ) == Some(x));
                },
                None => {},
            }
        },
        _ => {},
    }
}

impl Value {
    /// The wire type this value carries.
    pub fn wire_type(&self) -> (r: RawType)
        ensures
            r == spec_wire_type(*self),
    {
        match self {
            Value::Bool(_) => RawType::Bool,
            Value::Int32(_) => RawType::Int32,
            Value::Uint32(_) => RawType::Uint32,
            Value::Int64(_) => RawType::Int64,
            Value::Uint64(_) => RawType::Uint64,
            Value::Date(_) => RawType::Date,
            Value::Text(_) => RawType::Utf8,
            Value::Bytes(_) => RawType::Bytes,
            Value::Uuid { .. } => RawType::Uuid,
            Value::Decimal { precision, scale, .. } => RawType::Decimal {
                precision: *precision,
                scale: *scale,
            },
            Value::Optional(vo) => RawType::Optional(Box::new(vo.t.clone())),
        }
    }

    /// Whether this value is of optional type.
    pub fn is_optional(&self) -> (r: bool)
        ensures
            r == (*self is Optional),
    {
        match self {
            Value::Optional(_) => true,
            _ => false,
        }
    }

    /// Builds an optional value from a prototype of the element type and
    /// the (possibly absent) element. Fails when the element's type does
    /// not match the prototype's, or when either is itself optional.
    pub fn optional_from(t: Value, value: Option<Value>) -> (r: YdbResult<Value>)
        ensures
            ({
                let ok = !(t is Optional) && match value {
                    Some(x) => !(x is Optional) && spec_wire_type(x) == spec_wire_type(t),
                    None => true,
                };
                &&& ok ==> r == Ok::<Value, YdbError>(
                    Value::Optional(
                        Box::new(ValueOptional { t: spec_wire_type(t), value }),
                    ),
                )
                &&& !ok ==> r is Err
            }),
    {
        if t.is_optional() {
            return Err(YdbError::from_str("optional of optional values is not supported"));
        }
        match value {
            None => Ok(Value::Optional(Box::new(ValueOptional { t: t.wire_type(), value: None }))),
            Some(x) => {
                if x.is_optional() {
                    return Err(
                        YdbError::from_str("optional of optional values is not supported"),
                    );
                }
                let tt = t.wire_type();
                let xt = x.wire_type();
                if tt == xt {
                    Ok(Value::Optional(Box::new(ValueOptional { t: tt, value: Some(x) })))
                } else {
                    Err(YdbError::from_str("element type does not match the prototype"))
                }
            },
        }
    }

    /// Encodes this value for the wire. Exact on well-formed values;
    /// fails on values the wire cannot carry.
    pub fn to_typed_value(self) -> (r: YdbResult<RawTypedValue>)
        ensures
            wf_value(self) ==> r == Ok::<RawTypedValue, YdbError>(spec_to_wire(self)),
            !wf_value(self) ==> r is Err,
        decreases self,
    {
        match self {
            Value::Bool(b) => Ok(RawTypedValue { v_type: RawType::Bool, value: RawValue::Bool(b) }),
            Value::Int32(x) => Ok(
                RawTypedValue { v_type: RawType::Int32, value: RawValue::Int32(x) },
            ),
            Value::Uint32(x) => Ok(
                RawTypedValue { v_type: RawType::Uint32, value: RawValue::Uint32(x) },
            ),
            Value::Int64(x) => Ok(
                RawTypedValue { v_type: RawType::Int64, value: RawValue::Int64(x) },
            ),
            Value::Uint64(x) => Ok(
                RawTypedValue { v_type: RawType::Uint64, value: RawValue::Uint64(x) },
            ),
            Value::Date(d) => Ok(RawTypedValue { v_type: RawType::Date, value: RawValue::Date(d) }),
            Value::Text(s) => Ok(RawTypedValue { v_type: RawType::Utf8, value: RawValue::Text(s) }),
            Value::Bytes(b) => Ok(
                RawTypedValue { v_type: RawType::Bytes, value: RawValue::Bytes(b) },
            ),
            Value::Uuid { high, low } => Ok(
                RawTypedValue { v_type: RawType::Uuid, value: RawValue::Uuid { high, low } },
            ),
            Value::Decimal { units, precision, scale } => Ok(
                RawTypedValue {
                    v_type: RawType::Decimal { precision, scale },
                    value: RawValue::Decimal { units },
                },
            ),
            Value::Optional(vo) => {
                let vo = *vo;
                if let RawType::Optional(_) = &vo.t {
                    return Err(
                        YdbError::from_str("optional of optional values is not supported"),
                    );
                }
                match vo.value {
                    None => Ok(
                        RawTypedValue {
                            v_type: RawType::Optional(Box::new(vo.t)),
                            value: RawValue::NullFlag,
                        },
                    ),
                    Some(x) => {
                        if x.is_optional() {
                            return Err(
                                YdbError::from_str(
                                    "optional of optional values is not supported",
                                ),
                            );
                        }
                        let xt = x.wire_type();
                        if xt == vo.t {
                            let inner = match x.to_typed_value() {
                                Ok(tv) => tv,
                                Err(e) => {
                                    return Err(e);
                                },
                            };
                            Ok(
                                RawTypedValue {
                                    v_type: RawType::Optional(Box::new(vo.t)),
                                    value: inner.value,
                                },
                            )
                        } else {
                            Err(
                                YdbError::from_str(
                                    "element type does not match the prototype",
                                ),
                            )
                        }
                    },
                }
            },
        }
    }

    /// Decodes a wire value. Succeeds exactly when the payload matches
    /// the type tag and optionality is at most one level deep.
    pub fn try_from(tv: RawTypedValue) -> (r: YdbResult<Value>)
        ensures
            spec_from_wire(tv) matches Some(v) ==> r == Ok::<Value, YdbError>(v),
            spec_from_wire(tv) is None ==> r is Err,
        decreases tv.v_type,
    {
        let RawTypedValue { v_type, value } = tv;
        match (v_type, value) {
            (RawType::Bool, RawValue::Bool(b)) => Ok(Value::Bool(b)),
            (RawType::Int32, RawValue::Int32(x)) => Ok(Value::Int32(x)),
            (RawType::Uint32, RawValue::Uint32(x)) => Ok(Value::Uint32(x)),
            (RawType::Int64, RawValue::Int64(x)) => Ok(Value::Int64(x)),
            (RawType::Uint64, RawValue::Uint64(x)) => Ok(Value::Uint64(x)),
            (RawType::Date, RawValue::Date(d)) => Ok(Value::Date(d)),
            (RawType::Utf8, RawValue::Text(s)) => Ok(Value::Text(s)),
            (RawType::Bytes, RawValue::Bytes(b)) => Ok(Value::Bytes(b)),
            (RawType::Uuid, RawValue::Uuid { high, low }) => Ok(Value::Uuid { high, low }),
            (RawType::Decimal { precision, scale }, RawValue::Decimal { units }) => Ok(
                Value::Decimal { units, precision, scale },
            ),
            (RawType::Optional(inner), v) => {
                let inner = *inner;
                if let RawType::Optional(_) = &inner {
                    return Err(
                        YdbError::from_str("optional of optional values is not supported"),
                    );
                }
                match v {
                    RawValue::NullFlag => Ok(
                        Value::Optional(Box::new(ValueOptional { t: inner, value: None })),
                    ),
                    other => {
                        let t2 = inner.clone();
                        let x = match Value::try_from(
                            RawTypedValue { v_type: inner, value: other },
                        ) {
                            Ok(x) => x,
                            Err(e) => {
                                return Err(e);
                            },
                        };
                        Ok(Value::Optional(Box::new(ValueOptional { t: t2, value: Some(x) })))
                    },
                }
            },
            (_, _) => Err(YdbError::from_str("value does not match its wire type")),
        }
    }
}

} // verus!
