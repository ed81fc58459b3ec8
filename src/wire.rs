//! The column types that can be rendered, and how each is canonicalized.

use vstd::prelude::*;

verus! {

/// The element type of a column.
#[derive(PartialEq, Eq, Structural, Clone, Copy, Debug)]
pub enum ScalarType {
    Int2,
    Int4,
    Int8,
    Numeric,
    Date,
    Time,
    Timestamp,
    Bool,
    /// `varchar` and `text`.
    Text,
    Float4,
    Float8,
    Interval,
    TimestampTz,
}

/// A supported column type: a scalar type, or a one-dimensional array of one.
#[derive(PartialEq, Eq, Structural, Clone, Copy, Debug)]
pub struct WireType {
    pub scalar: ScalarType,
    pub is_array: bool,
}

/// The supported type with the given PostgreSQL type oid, if any.
pub open spec fn wire_of_oid(oid: u32) -> Option<WireType> {
    if oid == 21 {
        Some(WireType { scalar: ScalarType::Int2, is_array: false })
    } else if oid == 23 {
        Some(WireType { scalar: ScalarType::Int4, is_array: false })
    } else if oid == 20 {
        Some(WireType { scalar: ScalarType::Int8, is_array: false })
    } else if oid == 1700 {
        Some(WireType { scalar: ScalarType::Numeric, is_array: false })
    } else if oid == 1082 {
        Some(WireType { scalar: ScalarType::Date, is_array: false })
    } else if oid == 1083 {
        Some(WireType { scalar: ScalarType::Time, is_array: false })
    } else if oid == 1114 {
        Some(WireType { scalar: ScalarType::Timestamp, is_array: false })
    } else if oid == 16 {
        Some(WireType { scalar: ScalarType::Bool, is_array: false })
    } else if oid == 1043 {
        Some(WireType { scalar: ScalarType::Text, is_array: false })
    } else if oid == 25 {
        Some(WireType { scalar: ScalarType::Text, is_array: false })
    } else if oid == 700 {
        Some(WireType { scalar: ScalarType::Float4, is_array: false })
    } else if oid == 701 {
        Some(WireType { scalar: ScalarType::Float8, is_array: false })
    } else if oid == 1186 {
        Some(WireType { scalar: ScalarType::Interval, is_array: false })
    } else if oid == 1184 {
        Some(WireType { scalar: ScalarType::TimestampTz, is_array: false })
    } else if oid == 1005 {
        Some(WireType { scalar: ScalarType::Int2, is_array: true })
    } else if oid == 1007 {
        Some(WireType { scalar: ScalarType::Int4, is_array: true })
    } else if oid == 1016 {
        Some(WireType { scalar: ScalarType::Int8, is_array: true })
    } else if oid == 1231 {
        Some(WireType { scalar: ScalarType::Numeric, is_array: true })
    } else if oid == 1182 {
        Some(WireType { scalar: ScalarType::Date, is_array: true })
    } else if oid == 1183 {
        Some(WireType { scalar: ScalarType::Time, is_array: true })
    } else if oid == 1115 {
        Some(WireType { scalar: ScalarType::Timestamp, is_array: true })
    } else if oid == 1000 {
        Some(WireType { scalar: ScalarType::Bool, is_array: true })
    } else if oid == 1015 {
        Some(WireType { scalar: ScalarType::Text, is_array: true })
    } else if oid == 1009 {
        Some(WireType { scalar: ScalarType::Text, is_array: true })
    } else if oid == 1021 {
        Some(WireType { scalar: ScalarType::Float4, is_array: true })
    } else if oid == 1022 {
        Some(WireType { scalar: ScalarType::Float8, is_array: true })
    } else if oid == 1187 {
        Some(WireType { scalar: ScalarType::Interval, is_array: true })
    } else if oid == 1185 {
        Some(WireType { scalar: ScalarType::TimestampTz, is_array: true })
    } else {
        None
    }
}

impl WireType {
    /// Looks up the type of a column by its oid; `None` for a type that has no rendering.
    pub fn from_oid(oid: u32) -> (r: Option<WireType>)
        ensures
            r == wire_of_oid(oid),
    {
        if oid == 21 {
            Some(WireType { scalar: ScalarType::Int2, is_array: false })
        } else if oid == 23 {
            Some(WireType { scalar: ScalarType::Int4, is_array: false })
        } else if oid == 20 {
            Some(WireType { scalar: ScalarType::Int8, is_array: false })
        } else if oid == 1700 {
            Some(WireType { scalar: ScalarType::Numeric, is_array: false })
        } else if oid == 1082 {
            Some(WireType { scalar: ScalarType::Date, is_array: false })
        } else if oid == 1083 {
            Some(WireType { scalar: ScalarType::Time, is_array: false })
        } else if oid == 1114 {
            Some(WireType { scalar: ScalarType::Timestamp, is_array: false })
        } else if oid == 16 {
            Some(WireType { scalar: ScalarType::Bool, is_array: false })
        } else if oid == 1043 {
            Some(WireType { scalar: ScalarType::Text, is_array: false })
        } else if oid == 25 {
            Some(WireType { scalar: ScalarType::Text, is_array: false })
        } else if oid == 700 {
            Some(WireType { scalar: ScalarType::Float4, is_array: false })
        } else if oid == 701 {
            Some(WireType { scalar: ScalarType::Float8, is_array: false })
        } else if oid == 1186 {
            Some(WireType { scalar: ScalarType::Interval, is_array: false })
        } else if oid == 1184 {
            Some(WireType { scalar: ScalarType::TimestampTz, is_array: false })
        } else if oid == 1005 {
            Some(WireType { scalar: ScalarType::Int2, is_array: true })
        } else if oid == 1007 {
            Some(WireType { scalar: ScalarType::Int4, is_array: true })
        } else if oid == 1016 {
            Some(WireType { scalar: ScalarType::Int8, is_array: true })
        } else if oid == 1231 {
            Some(WireType { scalar: ScalarType::Numeric, is_array: true })
        } else if oid == 1182 {
            Some(WireType { scalar: ScalarType::Date, is_array: true })
        } else if oid == 1183 {
            Some(WireType { scalar: ScalarType::Time, is_array: true })
        } else if oid == 1115 {
            Some(WireType { scalar: ScalarType::Timestamp, is_array: true })
        } else if oid == 1000 {
            Some(WireType { scalar: ScalarType::Bool, is_array: true })
        } else if oid == 1015 {
            Some(WireType { scalar: ScalarType::Text, is_array: true })
        } else if oid == 1009 {
            Some(WireType { scalar: ScalarType::Text, is_array: true })
        } else if oid == 1021 {
            Some(WireType { scalar: ScalarType::Float4, is_array: true })
        } else if oid == 1022 {
            Some(WireType { scalar: ScalarType::Float8, is_array: true })
        } else if oid == 1187 {
            Some(WireType { scalar: ScalarType::Interval, is_array: true })
        } else if oid == 1185 {
            Some(WireType { scalar: ScalarType::TimestampTz, is_array: true })
        } else {
            None
        }
    }
}

/// The types whose client-side decoding is not canonical: their text comes from a cast
/// performed by the server.
pub open spec fn is_server_cast(t: ScalarType) -> bool {
    t == ScalarType::Interval || t == ScalarType::TimestampTz
}

/// Whether values of `t` are rendered through a server-side cast to `varchar`.
pub fn needs_server_cast(t: ScalarType) -> (r: bool)
    ensures
        r == is_server_cast(t),
{
    match t {
        ScalarType::Interval => true,
        ScalarType::TimestampTz => true,
        _ => false,
    }
}

/// The statement that casts its single parameter, of type `t`, to text.
pub open spec fn cast_statement_text(t: ScalarType) -> Seq<char> {
    if t == ScalarType::Interval {
        "select ($1::INTERVAL)::varchar"@
    } else {
        "select ($1::TIMESTAMPTZ)::varchar"@
    }
}

/// The statement sent to obtain the canonical text of one value of `t`.
pub fn cast_statement(t: ScalarType) -> (r: String)
    requires
        is_server_cast(t),
    ensures
        r@ == cast_statement_text(t),
{
    match t {
        ScalarType::Interval => String::from_str("select ($1::INTERVAL)::varchar"),
        _ => String::from_str("select ($1::TIMESTAMPTZ)::varchar"),
    }
}

} // verus!
