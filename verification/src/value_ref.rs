//! Column values that borrow their bytes from a result block.

use vstd::prelude::*;
use std::sync::Arc;
use vstd::slice::slice_to_vec;
use chrono_tz::Tz;
use crate::sql_type::SqlType;
use crate::decimal::Decimal;
use crate::either::Either;
use vstd::std_specs::cmp::PartialEqSpecImpl;
use crate::datum::{Datum, datum_type, datum_eq, lemma_items_eq, float32_eq, float64_eq};
use crate::external::{local_date, same_instant, str_from_utf8};
use crate::error::{Error, FromSqlError, is_invalid_type};
use vstd::utf8::{valid_utf8, decode_utf8, encode_utf8_decode_utf8};
use vstd::string::StringSliceAdditionalSpecFns;
use crate::value::{Value, value_models, lemma_value_models};

verus! {

/// A column value whose string bytes are borrowed for `'a`.
#[derive(Debug)]
pub enum ValueRef<'a> {
    UInt8(u8),
    UInt16(u16),
    UInt32(u32),
    UInt64(u64),
    Int8(i8),
    Int16(i16),
    Int32(i32),
    Int64(i64),
    String(&'a [u8]),
    /// The IEEE 754 bit pattern of a 32-bit float.
    Float32(u32),
    /// The IEEE 754 bit pattern of a 64-bit float.
    Float64(u64),
    /// Days since the Unix epoch, and the zone in which to read them.
    Date(u16, Tz),
    /// Seconds since the Unix epoch, and the zone in which to read them.
    DateTime(u32, Tz),
    Nullable(Either<SqlType, Box<ValueRef<'a>>>),
    Array(SqlType, Arc<Vec<ValueRef<'a>>>),
    Decimal(Decimal),
    Ipv4([u8; 4]),
    Ipv6([u8; 16]),
    Uuid([u8; 16]),
}

/// The models of a run of borrowed values.
pub open spec fn ref_models<'a>(s: Seq<ValueRef<'a>>) -> Seq<Datum>
    decreases s,
{
    if s.len() == 0 {
        Seq::empty()
    } else {
        ref_models(s.drop_last()).push(s.last().model())
    }
}

/// `ref_models(s)` has an item for each value, in order.
pub proof fn lemma_ref_models<'a>(s: Seq<ValueRef<'a>>)
    ensures
        ref_models(s).len() == s.len(),
        forall|i: int| 0 <= i < s.len() ==> #[trigger] ref_models(s)[i] == s[i].model(),
    decreases s.len(),
{
    if s.len() > 0 {
        lemma_ref_models(s.drop_last());
    }
}

impl<'a> ValueRef<'a> {
    /// The value as a mathematical object.
    pub open spec fn model(&self) -> Datum
        decreases self,
    {
        match self {
            ValueRef::UInt8(v) => Datum::UInt8(*v),
            ValueRef::UInt16(v) => Datum::UInt16(*v),
            ValueRef::UInt32(v) => Datum::UInt32(*v),
            ValueRef::UInt64(v) => Datum::UInt64(*v),
            ValueRef::Int8(v) => Datum::Int8(*v),
            ValueRef::Int16(v) => Datum::Int16(*v),
            ValueRef::Int32(v) => Datum::Int32(*v),
            ValueRef::Int64(v) => Datum::Int64(*v),
            ValueRef::String(v) => Datum::Str(v@),
            ValueRef::Float32(v) => Datum::Float32(*v),
            ValueRef::Float64(v) => Datum::Float64(*v),
            ValueRef::Date(v, tz) => Datum::Date(*v, *tz),
            ValueRef::DateTime(v, tz) => Datum::DateTime(*v, *tz),
            ValueRef::Nullable(Either::Left(t)) => Datum::Null(*t),
            ValueRef::Nullable(Either::Right(inner)) => Datum::NotNull(Box::new(inner.model())),
            ValueRef::Array(t, items) => Datum::Array(*t, ref_models(items@)),
            ValueRef::Decimal(x) => Datum::Decimal(*x),
            ValueRef::Ipv4(a) => Datum::Ipv4(*a),
            ValueRef::Ipv6(a) => Datum::Ipv6(*a),
            ValueRef::Uuid(a) => Datum::Uuid(*a),
        }
    }
}

impl<'a> View for ValueRef<'a> {
    type V = Datum;

    open spec fn view(&self) -> Datum {
        self.model()
    }
}

impl<'a> ValueRef<'a> {
    /// The SQL type of the value.
    pub fn sql_type(&self) -> (r: SqlType)
        ensures
            r == datum_type(self@),
        decreases self,
    {
        match self {
            ValueRef::UInt8(_) => SqlType::UInt8,
            ValueRef::UInt16(_) => SqlType::UInt16,
            ValueRef::UInt32(_) => SqlType::UInt32,
            ValueRef::UInt64(_) => SqlType::UInt64,
            ValueRef::Int8(_) => SqlType::Int8,
            ValueRef::Int16(_) => SqlType::Int16,
            ValueRef::Int32(_) => SqlType::Int32,
            ValueRef::Int64(_) => SqlType::Int64,
            ValueRef::String(_) => SqlType::String,
            ValueRef::Float32(_) => SqlType::Float32,
            ValueRef::Float64(_) => SqlType::Float64,
            ValueRef::Date(_, _) => SqlType::Date,
            ValueRef::DateTime(_, _) => SqlType::DateTime,
            ValueRef::Nullable(u) => match u {
                Either::Left(t) => SqlType::Nullable(Box::new(t.duplicate())),
                Either::Right(inner) => SqlType::Nullable(Box::new(inner.sql_type())),
            },
            ValueRef::Array(t, _) => SqlType::Array(Box::new(t.duplicate())),
            ValueRef::Decimal(v) => SqlType::Decimal(v.precision(), v.scale()),
            ValueRef::Ipv4(_) => SqlType::Ipv4,
            ValueRef::Ipv6(_) => SqlType::Ipv6,
            ValueRef::Uuid(_) => SqlType::Uuid,
        }
    }

    /// A borrowed value with the same contents as an owned one.
    pub fn from_value(value: &'a Value) -> (r: ValueRef<'a>)
        ensures
            r@ == value@,
        decreases value,
    {
        match value {
            Value::UInt8(v) => ValueRef::UInt8(*v),
            Value::UInt16(v) => ValueRef::UInt16(*v),
            Value::UInt32(v) => ValueRef::UInt32(*v),
            Value::UInt64(v) => ValueRef::UInt64(*v),
            Value::Int8(v) => ValueRef::Int8(*v),
            Value::Int16(v) => ValueRef::Int16(*v),
            Value::Int32(v) => ValueRef::Int32(*v),
            Value::Int64(v) => ValueRef::Int64(*v),
            Value::String(v) => ValueRef::String(v.as_slice()),
            Value::Float32(v) => ValueRef::Float32(*v),
            Value::Float64(v) => ValueRef::Float64(*v),
            Value::Date(v, tz) => ValueRef::Date(*v, *tz),
            Value::DateTime(v, tz) => ValueRef::DateTime(*v, *tz),
            Value::Nullable(u) => match u {
                Either::Left(t) => ValueRef::Nullable(Either::Left(t.duplicate())),
                Either::Right(inner) => {
                    let r = ValueRef::from_value(inner);
                    ValueRef::Nullable(Either::Right(Box::new(r)))
                },
            },
            Value::Array(t, items) => {
                let mut refs: Vec<ValueRef<'a>> = Vec::new();
                let mut i: usize = 0;
                while i < items.len()
                    invariant
                        *value == Value::Array(*t, *items),
                        i <= items.len(),
                        refs.len() == i,
                        forall|j: int| 0 <= j < i ==> #[trigger] refs@[j]@ == items@[j]@,
                    decreases items.len() - i,
                {
                    proof {
                        assert(decreases_to!(*value => value->Array_1));
                        assert(decreases_to!(*items => items@));
                        assert(decreases_to!(items@ => items@[i as int]));
                    }
                    let r = ValueRef::from_value(&items[i]);
                    refs.push(r);
                    i = i + 1;
                }
                proof {
                    lemma_ref_models(refs@);
                    lemma_value_models(items@);
                    assert forall|j: int| 0 <= j < refs@.len() implies ref_models(refs@)[j]
                        == value_models(items@)[j] by {
                        assert(refs@[j]@ == items@[j]@);
                    }
                    assert(ref_models(refs@) =~= value_models(items@));
                }
                ValueRef::Array(t.duplicate(), Arc::new(refs))
            },
            Value::Decimal(v) => ValueRef::Decimal(*v),
            Value::Ipv4(a) => ValueRef::Ipv4(*a),
            Value::Ipv6(a) => ValueRef::Ipv6(*a),
            Value::Uuid(a) => ValueRef::Uuid(*a),
        }
    }
}

/// Whether two byte slices hold the same bytes.
fn same_bytes(a: &[u8], b: &[u8]) -> (r: bool)
    ensures
        r == (a@ == b@),
{
    if a.len() != b.len() {
        return false;
    }
    let mut i: usize = 0;
    while i < a.len()
        invariant
            a.len() == b.len(),
            i <= a.len(),
            forall|j: int| 0 <= j < i ==> a@[j] == b@[j],
        decreases a.len() - i,
    {
        if a[i] != b[i] {
            return false;
        }
        i = i + 1;
    }
    assert(a@ =~= b@);
    true
}

/// IEEE 754 equality of two 32-bit floats given by their bit patterns.
fn same_float32(a: u32, b: u32) -> (r: bool)
    ensures
        r == float32_eq(a, b),
{
    let a_nan = a & 0x7f80_0000 == 0x7f80_0000 && a & 0x007f_ffff != 0;
    let b_nan = b & 0x7f80_0000 == 0x7f80_0000 && b & 0x007f_ffff != 0;
    !a_nan && !b_nan && (a == b || (a & 0x7fff_ffff == 0 && b & 0x7fff_ffff == 0))
}

/// IEEE 754 equality of two 64-bit floats given by their bit patterns.
fn same_float64(a: u64, b: u64) -> (r: bool)
    ensures
        r == float64_eq(a, b),
{
    let a_nan = a & 0x7ff0_0000_0000_0000 == 0x7ff0_0000_0000_0000 && a & 0x000f_ffff_ffff_ffff != 0;
    let b_nan = b & 0x7ff0_0000_0000_0000 == 0x7ff0_0000_0000_0000 && b & 0x000f_ffff_ffff_ffff != 0;
    !a_nan && !b_nan && (a == b || (a & 0x7fff_ffff_ffff_ffff == 0 && b & 0x7fff_ffff_ffff_ffff
        == 0))
}

impl<'a> ValueRef<'a> {
    /// Whether two values are equal (see `datum_eq`): dates by their local
    /// dates, date-times by their instants, floats by IEEE 754, decimals by
    /// the numbers they denote; IPv4, IPv6 and UUID values are never equal.
    pub fn equals(&self, other: &ValueRef) -> (r: bool)
        ensures
            r == datum_eq(self@, other@),
        decreases self,
    {
        match (self, other) {
            (ValueRef::UInt8(a), ValueRef::UInt8(b)) => *a == *b,
            (ValueRef::UInt16(a), ValueRef::UInt16(b)) => *a == *b,
            (ValueRef::UInt32(a), ValueRef::UInt32(b)) => *a == *b,
            (ValueRef::UInt64(a), ValueRef::UInt64(b)) => *a == *b,
            (ValueRef::Int8(a), ValueRef::Int8(b)) => *a == *b,
            (ValueRef::Int16(a), ValueRef::Int16(b)) => *a == *b,
            (ValueRef::Int32(a), ValueRef::Int32(b)) => *a == *b,
            (ValueRef::Int64(a), ValueRef::Int64(b)) => *a == *b,
            (ValueRef::String(a), ValueRef::String(b)) => same_bytes(a, b),
            (ValueRef::Float32(a), ValueRef::Float32(b)) => same_float32(*a, *b),
            (ValueRef::Float64(a), ValueRef::Float64(b)) => same_float64(*a, *b),
            (ValueRef::Date(a, tz_a), ValueRef::Date(b, tz_b)) => {
                let date_a = local_date((*a as i64) * 86400, *tz_a);
                let date_b = local_date((*b as i64) * 86400, *tz_b);
                date_a.0 == date_b.0 && date_a.1 == date_b.1 && date_a.2 == date_b.2
            },
            (ValueRef::DateTime(a, tz_a), ValueRef::DateTime(b, tz_b)) => {
                same_instant(*a as i64, *tz_a, *b as i64, *tz_b)
            },
            (ValueRef::Nullable(a), ValueRef::Nullable(b)) => match (a, b) {
                (Either::Left(ta), Either::Left(tb)) => ta.same_as(tb),
                (Either::Right(va), Either::Right(vb)) => va.equals(vb),
                _ => false,
            },
            (ValueRef::Array(ta, xs), ValueRef::Array(tb, ys)) => {
                if !ta.same_as(tb) || xs.len() != ys.len() {
                    proof {
                        lemma_ref_models(xs@);
                        lemma_ref_models(ys@);
                        lemma_items_eq(ref_models(xs@), ref_models(ys@));
                        assert(self@ == Datum::Array(*ta, ref_models(xs@)));
                        assert(other@ == Datum::Array(*tb, ref_models(ys@)));
                    }
                    return false;
                }
                let mut i: usize = 0;
                while i < xs.len()
                    invariant
                        *self == ValueRef::Array(*ta, *xs),
                        *other == ValueRef::Array(*tb, *ys),
                        *ta == *tb,
                        xs.len() == ys.len(),
                        i <= xs.len(),
                        forall|j: int| 0 <= j < i ==> datum_eq(#[trigger] xs@[j]@, ys@[j]@),
                    decreases xs.len() - i,
                {
                    proof {
                        assert(decreases_to!(*self => self->Array_1));
                        assert(decreases_to!(*xs => xs@));
                        assert(decreases_to!(xs@ => xs@[i as int]));
                    }
                    if !xs[i].equals(&ys[i]) {
                        proof {
                            lemma_ref_models(xs@);
                            lemma_ref_models(ys@);
                            lemma_items_eq(ref_models(xs@), ref_models(ys@));
                            assert(!datum_eq(ref_models(xs@)[i as int], ref_models(ys@)[i as int]));
                        }
                        return false;
                    }
                    i = i + 1;
                }
                proof {
                    lemma_ref_models(xs@);
                    lemma_ref_models(ys@);
                    lemma_items_eq(ref_models(xs@), ref_models(ys@));
                    assert forall|j: int| 0 <= j < xs@.len() implies #[trigger] datum_eq(
                        ref_models(xs@)[j],
                        ref_models(ys@)[j],
                    ) by {
                        assert(datum_eq(xs@[j]@, ys@[j]@));
                    }
                }
                true
            },
            (ValueRef::Decimal(a), ValueRef::Decimal(b)) => a.same_number_as(b),
            _ => false,
        }
    }
}

impl<'a> ValueRef<'a> {
    /// The value's bytes read as UTF-8 text. Only a `String` value can be
    /// read so; one whose bytes are not UTF-8 gives `Error::Utf8`.
    pub fn as_str(&self) -> (r: Result<&'a str, Error>)
        ensures
            match self@ {
                Datum::Str(bytes) => {
                    &&& r is Ok <==> valid_utf8(bytes)
                    &&& r matches Ok(s) ==> s.spec_bytes() == bytes && s@ == decode_utf8(bytes)
                    &&& r is Err ==> r matches Err(Error::Utf8(_))
                },
                _ => is_invalid_type(r, datum_type(self@), seq!['&', 's', 't', 'r']),
            },
    {
        if let ValueRef::String(t) = self {
            return match str_from_utf8(t) {
                Ok(s) => {
                    proof {
                        encode_utf8_decode_utf8(s@);
                    }
                    Ok(s)
                },
                Err(e) => Err(Error::Utf8(e)),
            };
        }
        let from = self.sql_type().to_string();
        proof {
            reveal_strlit("&str");
            assert("&str"@ =~= seq!['&', 's', 't', 'r']);
        }
        Err(Error::FromSql(FromSqlError::InvalidType { src: from, dst: "&str".to_owned() }))
    }

    /// The value's bytes read as UTF-8 text, copied into a `String`; fails
    /// as `as_str` does.
    pub fn as_string(&self) -> (r: Result<String, Error>)
        ensures
            match self@ {
                Datum::Str(bytes) => {
                    &&& r is Ok <==> valid_utf8(bytes)
                    &&& r matches Ok(s) ==> s@ == decode_utf8(bytes)
                    &&& r is Err ==> r matches Err(Error::Utf8(_))
                },
                _ => is_invalid_type(r, datum_type(self@), seq!['&', 's', 't', 'r']),
            },
    {
        let tmp = match self.as_str() {
            Ok(s) => s,
            Err(e) => return Err(e),
        };
        Ok(tmp.to_owned())
    }

    /// The bytes of a `String` value.
    pub fn as_bytes(&self) -> (r: Result<&'a [u8], Error>)
        ensures
            match self@ {
                Datum::Str(bytes) => r matches Ok(b) && b@ == bytes,
                _ => is_invalid_type(r, datum_type(self@), seq!['&', '[', 'u', '8', ']']),
            },
    {
        if let ValueRef::String(t) = self {
            return Ok(*t);
        }
        let from = self.sql_type().to_string();
        proof {
            reveal_strlit("&[u8]");
            assert("&[u8]"@ =~= seq!['&', '[', 'u', '8', ']']);
        }
        Err(Error::FromSql(FromSqlError::InvalidType { src: from, dst: "&[u8]".to_owned() }))
    }
}

impl<'a> ValueRef<'a> {
    /// A copy of the value that borrows the same bytes.
    pub fn duplicate(&self) -> (r: ValueRef<'a>)
        ensures
            r@ == self@,
        decreases self,
    {
        match self {
            ValueRef::UInt8(v) => ValueRef::UInt8(*v),
            ValueRef::UInt16(v) => ValueRef::UInt16(*v),
            ValueRef::UInt32(v) => ValueRef::UInt32(*v),
            ValueRef::UInt64(v) => ValueRef::UInt64(*v),
            ValueRef::Int8(v) => ValueRef::Int8(*v),
            ValueRef::Int16(v) => ValueRef::Int16(*v),
            ValueRef::Int32(v) => ValueRef::Int32(*v),
            ValueRef::Int64(v) => ValueRef::Int64(*v),
            ValueRef::String(v) => ValueRef::String(*v),
            ValueRef::Float32(v) => ValueRef::Float32(*v),
            ValueRef::Float64(v) => ValueRef::Float64(*v),
            ValueRef::Date(v, tz) => ValueRef::Date(*v, *tz),
            ValueRef::DateTime(v, tz) => ValueRef::DateTime(*v, *tz),
            ValueRef::Nullable(u) => match u {
                Either::Left(t) => ValueRef::Nullable(Either::Left(t.duplicate())),
                Either::Right(inner) => ValueRef::Nullable(Either::Right(Box::new(inner.duplicate()))),
            },
            ValueRef::Array(t, items) => {
                let mut copies: Vec<ValueRef<'a>> = Vec::with_capacity(items.len());
                let mut i: usize = 0;
                while i < items.len()
                    invariant
                        *self == ValueRef::Array(*t, *items),
                        i <= items.len(),
                        copies.len() == i,
                        forall|j: int| 0 <= j < i ==> #[trigger] copies@[j]@ == items@[j]@,
                    decreases items.len() - i,
                {
                    proof {
                        assert(decreases_to!(*self => self->Array_1));
                        assert(decreases_to!(*items => items@));
                        assert(decreases_to!(items@ => items@[i as int]));
                    }
                    let c = items[i].duplicate();
                    copies.push(c);
                    i = i + 1;
                }
                proof {
                    lemma_ref_models(copies@);
                    lemma_ref_models(items@);
                    assert forall|j: int| 0 <= j < items@.len() implies ref_models(copies@)[j]
                        == ref_models(items@)[j] by {
                        assert(copies@[j]@ == items@[j]@);
                    }
                    assert(ref_models(copies@) =~= ref_models(items@));
                }
                ValueRef::Array(t.duplicate(), Arc::new(copies))
            },
            ValueRef::Decimal(v) => ValueRef::Decimal(*v),
            ValueRef::Ipv4(a) => ValueRef::Ipv4(*a),
            ValueRef::Ipv6(a) => ValueRef::Ipv6(*a),
            ValueRef::Uuid(a) => ValueRef::Uuid(*a),
        }
    }
}

impl<'a> Clone for ValueRef<'a> {
    fn clone(&self) -> (r: Self)
        ensures
            r@ == self@,
    {
        self.duplicate()
    }
}

impl<'a> PartialEq for ValueRef<'a> {
    fn eq(&self, other: &Self) -> (r: bool) {
        self.equals(other)
    }
}

impl<'a> PartialEqSpecImpl for ValueRef<'a> {
    open spec fn obeys_eq_spec() -> bool {
        true
    }

    open spec fn eq_spec(&self, other: &ValueRef<'a>) -> bool {
        datum_eq(self@, other@)
    }
}

impl Value {
    /// An owned value with the same contents as a borrowed one; string bytes
    /// are copied.
    pub fn from_ref(value: &ValueRef) -> (r: Value)
        ensures
            r@ == value@,
        decreases value,
    {
        match value {
            ValueRef::UInt8(v) => Value::UInt8(*v),
            ValueRef::UInt16(v) => Value::UInt16(*v),
            ValueRef::UInt32(v) => Value::UInt32(*v),
            ValueRef::UInt64(v) => Value::UInt64(*v),
            ValueRef::Int8(v) => Value::Int8(*v),
            ValueRef::Int16(v) => Value::Int16(*v),
            ValueRef::Int32(v) => Value::Int32(*v),
            ValueRef::Int64(v) => Value::Int64(*v),
            ValueRef::String(v) => Value::String(Arc::new(slice_to_vec(v))),
            ValueRef::Float32(v) => Value::Float32(*v),
            ValueRef::Float64(v) => Value::Float64(*v),
            ValueRef::Date(v, tz) => Value::Date(*v, *tz),
            ValueRef::DateTime(v, tz) => Value::DateTime(*v, *tz),
            ValueRef::Nullable(u) => match u {
                Either::Left(t) => Value::Nullable(Either::Left(t.duplicate())),
                Either::Right(inner) => {
                    let v = Value::from_ref(inner);
                    Value::Nullable(Either::Right(Box::new(v)))
                },
            },
            ValueRef::Array(t, items) => {
                let mut values: Vec<Value> = Vec::with_capacity(items.len());
                let mut i: usize = 0;
                while i < items.len()
                    invariant
                        *value == ValueRef::Array(*t, *items),
                        i <= items.len(),
                        values.len() == i,
                        forall|j: int| 0 <= j < i ==> #[trigger] values@[j]@ == items@[j]@,
                    decreases items.len() - i,
                {
                    proof {
                        assert(decreases_to!(*value => value->Array_1));
                        assert(decreases_to!(*items => items@));
                        assert(decreases_to!(items@ => items@[i as int]));
                    }
                    let v = Value::from_ref(&items[i]);
                    values.push(v);
                    i = i + 1;
                }
                proof {
                    lemma_ref_models(items@);
                    lemma_value_models(values@);
                    assert forall|j: int| 0 <= j < items@.len() implies ref_models(items@)[j]
                        == value_models(values@)[j] by {
                        assert(values@[j]@ == items@[j]@);
                    }
                    assert(ref_models(items@) =~= value_models(values@));
                }
                Value::Array(t.duplicate(), Arc::new(values))
            },
            ValueRef::Decimal(v) => Value::Decimal(*v),
            ValueRef::Ipv4(a) => Value::Ipv4(*a),
            ValueRef::Ipv6(a) => Value::Ipv6(*a),
            ValueRef::Uuid(a) => Value::Uuid(*a),
        }
    }
}

} // verus!
