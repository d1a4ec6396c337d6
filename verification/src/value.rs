//! Wire-level representation of typed values, columns and result sets, as
//! they travel in requests and responses.

use vstd::prelude::*;

verus! {

/// A wire type tag. `Optional` wraps the type of the element; the wire
/// carries at most one level of optionality per value.
#[derive(Debug)]
pub enum RawType {
    Bool,
    Int32,
    Uint32,
    Int64,
    Uint64,
    Date,
    Utf8,
    Bytes,
    Uuid,
    Decimal { precision: u32, scale: u32 },
    Optional(Box<RawType>),
}

impl Clone for RawType {
    fn clone(&self) -> (res: Self)
        ensures
            res == *self,
        decreases *self,
    {
        match self {
            RawType::Bool => RawType::Bool,
            RawType::Int32 => RawType::Int32,
            RawType::Uint32 => RawType::Uint32,
            RawType::Int64 => RawType::Int64,
            RawType::Uint64 => RawType::Uint64,
            RawType::Date => RawType::Date,
            RawType::Utf8 => RawType::Utf8,
            RawType::Bytes => RawType::Bytes,
            RawType::Uuid => RawType::Uuid,
            RawType::Decimal { precision, scale } => RawType::Decimal {
                precision: *precision,
                scale: *scale,
            },
            RawType::Optional(inner) => RawType::Optional(Box::new((**inner).clone())),
        }
    }
}

impl PartialEq for RawType {
    fn eq(&self, other: &Self) -> (r: bool)
        decreases *self,
    {
        match (self, other) {
            (RawType::Bool, RawType::Bool) => true,
            (RawType::Int32, RawType::Int32) => true,
            (RawType::Uint32, RawType::Uint32) => true,
            (RawType::Int64, RawType::Int64) => true,
            (RawType::Uint64, RawType::Uint64) => true,
            (RawType::Date, RawType::Date) => true,
            (RawType::Utf8, RawType::Utf8) => true,
            (RawType::Bytes, RawType::Bytes) => true,
            (RawType::Uuid, RawType::Uuid) => true,
            (
                RawType::Decimal { precision: p1, scale: s1 },
                RawType::Decimal { precision: p2, scale: s2 },
            ) => p1 == p2 && s1 == s2,
            (RawType::Optional(a), RawType::Optional(b)) => **a == **b,
            _ => false,
        }
    }
}

impl vstd::std_specs::cmp::PartialEqSpecImpl for RawType {
    open spec fn obeys_eq_spec() -> bool {
        true
    }

    open spec fn eq_spec(&self, other: &Self) -> bool {
        *self == *other
    }
}

impl Eq for RawType {

}

/// A wire value. `NullFlag` is the absent value of an optional type.
#[derive(Clone, Debug, PartialEq)]
pub enum RawValue {
    Bool(bool),
    Int32(i32),
    Uint32(u32),
    Int64(i64),
    Uint64(u64),
    Date(u32),
    Text(String),
    Bytes(Vec<u8>),
    Uuid { high: u64, low: u64 },
    Decimal { units: i64 },
    NullFlag,
}

/// A wire value together with its type tag.
#[derive(Clone, Debug, PartialEq)]
pub struct RawTypedValue {
    pub v_type: RawType,
    pub value: RawValue,
}

/// Column metadata as it appears in a wire result set.
#[derive(Clone, Debug, PartialEq)]
pub struct RawColumn {
    pub name: String,
    pub v_type: RawType,
}

/// One wire result set: column metadata, row data (one wire value per
/// column per row), and the server's truncation flag.
#[derive(Clone, Debug, PartialEq)]
pub struct RawResultSet {
    pub columns: Vec<RawColumn>,
    pub rows: Vec<Vec<RawValue>>,
    pub truncated: bool,
}

} // verus!
