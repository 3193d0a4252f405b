//! The SQL column types that values belong to, and their names.

use vstd::prelude::*;
use vstd::std_specs::cmp::PartialEqSpecImpl;
use crate::text::{decimal, push_decimal};

verus! {

/// A ClickHouse column type.
#[derive(Debug)]
pub enum SqlType {
    UInt8,
    UInt16,
    UInt32,
    UInt64,
    Int8,
    Int16,
    Int32,
    Int64,
    String,
    Float32,
    Float64,
    Date,
    DateTime,
    Nullable(Box<SqlType>),
    Array(Box<SqlType>),
    Decimal(u8, u8),
    Ipv4,
    Ipv6,
    Uuid,
}

/// The name that ClickHouse gives a type, as in `Nullable(UInt8)` or
/// `Decimal(18, 4)`.
pub open spec fn sql_name(t: SqlType) -> Seq<char>
    decreases t,
{
    match t {
        SqlType::UInt8 => "UInt8"@,
        SqlType::UInt16 => "UInt16"@,
        SqlType::UInt32 => "UInt32"@,
        SqlType::UInt64 => "UInt64"@,
        SqlType::Int8 => "Int8"@,
        SqlType::Int16 => "Int16"@,
        SqlType::Int32 => "Int32"@,
        SqlType::Int64 => "Int64"@,
        SqlType::String => "String"@,
        SqlType::Float32 => "Float32"@,
        SqlType::Float64 => "Float64"@,
        SqlType::Date => "Date"@,
        SqlType::DateTime => "DateTime"@,
        SqlType::Nullable(inner) => "Nullable("@ + sql_name(*inner) + ")"@,
        SqlType::Array(inner) => "Array("@ + sql_name(*inner) + ")"@,
        SqlType::Decimal(p, s) => "Decimal("@ + decimal(p as nat) + ", "@ + decimal(s as nat) + ")"@,
        SqlType::Ipv4 => "IPv4"@,
        SqlType::Ipv6 => "IPv6"@,
        SqlType::Uuid => "UUID"@,
    }
}

impl SqlType {
    /// Appends the name of the type to `out`.
    pub fn push_name(&self, out: &mut String)
        ensures
            final(out)@ == old(out)@ + sql_name(*self),
        decreases self,
    {
        match self {
            SqlType::UInt8 => out.append("UInt8"),
            SqlType::UInt16 => out.append("UInt16"),
            SqlType::UInt32 => out.append("UInt32"),
            SqlType::UInt64 => out.append("UInt64"),
            SqlType::Int8 => out.append("Int8"),
            SqlType::Int16 => out.append("Int16"),
            SqlType::Int32 => out.append("Int32"),
            SqlType::Int64 => out.append("Int64"),
            SqlType::String => out.append("String"),
            SqlType::Float32 => out.append("Float32"),
            SqlType::Float64 => out.append("Float64"),
            SqlType::Date => out.append("Date"),
            SqlType::DateTime => out.append("DateTime"),
            SqlType::Nullable(inner) => {
                out.append("Nullable(");
                inner.push_name(out);
                out.append(")");
                proof {
                    assert(final(out)@ =~= old(out)@ + sql_name(*self));
                }
            },
            SqlType::Array(inner) => {
                out.append("Array(");
                inner.push_name(out);
                out.append(")");
                proof {
                    assert(final(out)@ =~= old(out)@ + sql_name(*self));
                }
            },
            SqlType::Decimal(p, s) => {
                out.append("Decimal(");
                push_decimal(out, *p as u64);
                out.append(", ");
                push_decimal(out, *s as u64);
                out.append(")");
                proof {
                    assert(final(out)@ =~= old(out)@ + sql_name(*self));
                }
            },
            SqlType::Ipv4 => out.append("IPv4"),
            SqlType::Ipv6 => out.append("IPv6"),
            SqlType::Uuid => out.append("UUID"),
        }
    }

    /// The name of the type.
    pub fn to_string(&self) -> (r: String)
        ensures
            r@ == sql_name(*self),
    {
        let mut out = String::new();
        self.push_name(&mut out);
        out
    }

    /// Whether two types are the same.
    pub fn same_as(&self, other: &SqlType) -> (r: bool)
        ensures
            r == (*self == *other),
        decreases self,
    {
        match (self, other) {
            (SqlType::UInt8, SqlType::UInt8) => true,
            (SqlType::UInt16, SqlType::UInt16) => true,
            (SqlType::UInt32, SqlType::UInt32) => true,
            (SqlType::UInt64, SqlType::UInt64) => true,
            (SqlType::Int8, SqlType::Int8) => true,
            (SqlType::Int16, SqlType::Int16) => true,
            (SqlType::Int32, SqlType::Int32) => true,
            (SqlType::Int64, SqlType::Int64) => true,
            (SqlType::String, SqlType::String) => true,
            (SqlType::Float32, SqlType::Float32) => true,
            (SqlType::Float64, SqlType::Float64) => true,
            (SqlType::Date, SqlType::Date) => true,
            (SqlType::DateTime, SqlType::DateTime) => true,
            (SqlType::Nullable(a), SqlType::Nullable(b)) => a.same_as(b),
            (SqlType::Array(a), SqlType::Array(b)) => a.same_as(b),
            (SqlType::Decimal(p1, s1), SqlType::Decimal(p2, s2)) => *p1 == *p2 && *s1 == *s2,
            (SqlType::Ipv4, SqlType::Ipv4) => true,
            (SqlType::Ipv6, SqlType::Ipv6) => true,
            (SqlType::Uuid, SqlType::Uuid) => true,
            _ => false,
        }
    }

    /// An equal copy of the type.
    pub fn duplicate(&self) -> (r: SqlType)
        ensures
            r == *self,
        decreases self,
    {
        match self {
            SqlType::UInt8 => SqlType::UInt8,
            SqlType::UInt16 => SqlType::UInt16,
            SqlType::UInt32 => SqlType::UInt32,
            SqlType::UInt64 => SqlType::UInt64,
            SqlType::Int8 => SqlType::Int8,
            SqlType::Int16 => SqlType::Int16,
            SqlType::Int32 => SqlType::Int32,
            SqlType::Int64 => SqlType::Int64,
            SqlType::String => SqlType::String,
            SqlType::Float32 => SqlType::Float32,
            SqlType::Float64 => SqlType::Float64,
            SqlType::Date => SqlType::Date,
            SqlType::DateTime => SqlType::DateTime,
            SqlType::Nullable(inner) => SqlType::Nullable(Box::new(inner.duplicate())),
            SqlType::Array(inner) => SqlType::Array(Box::new(inner.duplicate())),
            SqlType::Decimal(p, s) => SqlType::Decimal(*p, *s),
            SqlType::Ipv4 => SqlType::Ipv4,
            SqlType::Ipv6 => SqlType::Ipv6,
            SqlType::Uuid => SqlType::Uuid,
        }
    }
}

impl PartialEq for SqlType {
    fn eq(&self, other: &Self) -> (r: bool) {
        self.same_as(other)
    }
}

impl PartialEqSpecImpl for SqlType {
    open spec fn obeys_eq_spec() -> bool {
        true
    }

    open spec fn eq_spec(&self, other: &SqlType) -> bool {
        *self == *other
    }
}

impl Clone for SqlType {
    fn clone(&self) -> (r: Self)
        ensures
            r == *self,
    {
        self.duplicate()
    }
}

} // verus!
