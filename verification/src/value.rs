//! Owned column values.

use vstd::prelude::*;
use std::sync::Arc;
use chrono_tz::Tz;
use crate::sql_type::SqlType;
use crate::decimal::Decimal;
use crate::either::Either;
use crate::datum::Datum;

verus! {

/// A column value that owns its data.
#[derive(Debug, PartialEq)]
pub enum Value {
    UInt8(u8),
    UInt16(u16),
    UInt32(u32),
    UInt64(u64),
    Int8(i8),
    Int16(i16),
    Int32(i32),
    Int64(i64),
    String(Arc<Vec<u8>>),
    /// The IEEE 754 bit pattern of a 32-bit float.
    Float32(u32),
    /// The IEEE 754 bit pattern of a 64-bit float.
    Float64(u64),
    /// Days since the Unix epoch, and the zone in which to read them.
    Date(u16, Tz),
    /// Seconds since the Unix epoch, and the zone in which to read them.
    DateTime(u32, Tz),
    Nullable(Either<SqlType, Box<Value>>),
    Array(SqlType, Arc<Vec<Value>>),
    Decimal(Decimal),
    Ipv4([u8; 4]),
    Ipv6([u8; 16]),
    Uuid([u8; 16]),
}

/// The models of a run of owned values.
pub open spec fn value_models(s: Seq<Value>) -> Seq<Datum>
    decreases s,
{
    if s.len() == 0 {
        Seq::empty()
    } else {
        value_models(s.drop_last()).push(s.last().model())
    }
}

/// `value_models(s)` has an item for each value, in order.
pub proof fn lemma_value_models(s: Seq<Value>)
    ensures
        value_models(s).len() == s.len(),
        forall|i: int| 0 <= i < s.len() ==> #[trigger] value_models(s)[i] == s[i].model(),
    decreases s.len(),
{
    if s.len() > 0 {
        lemma_value_models(s.drop_last());
    }
}

impl Value {
    /// The value as a mathematical object.
    pub open spec fn model(&self) -> Datum
        decreases self,
    {
        match self {
            Value::UInt8(v) => Datum::UInt8(*v),
            Value::UInt16(v) => Datum::UInt16(*v),
            Value::UInt32(v) => Datum::UInt32(*v),
            Value::UInt64(v) => Datum::UInt64(*v),
            Value::Int8(v) => Datum::Int8(*v),
            Value::Int16(v) => Datum::Int16(*v),
            Value::Int32(v) => Datum::Int32(*v),
            Value::Int64(v) => Datum::Int64(*v),
            Value::String(v) => Datum::Str(v@),
            Value::Float32(v) => Datum::Float32(*v),
            Value::Float64(v) => Datum::Float64(*v),
            Value::Date(v, tz) => Datum::Date(*v, *tz),
            Value::DateTime(v, tz) => Datum::DateTime(*v, *tz),
            Value::Nullable(Either::Left(t)) => Datum::Null(*t),
            Value::Nullable(Either::Right(inner)) => Datum::NotNull(Box::new(inner.model())),
            Value::Array(t, items) => Datum::Array(*t, value_models(items@)),
            Value::Decimal(x) => Datum::Decimal(*x),
            Value::Ipv4(a) => Datum::Ipv4(*a),
            Value::Ipv6(a) => Datum::Ipv6(*a),
            Value::Uuid(a) => Datum::Uuid(*a),
        }
    }
}

impl View for Value {
    type V = Datum;

    open spec fn view(&self) -> Datum {
        self.model()
    }
}

} // verus!
