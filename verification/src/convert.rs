//! Conversions between borrowed values and plain Rust values.

use vstd::prelude::*;
use vstd::std_specs::convert::FromSpecImpl;
use vstd::string::StringSliceAdditionalSpecFns;
use crate::datum::Datum;
use crate::value_ref::ValueRef;

verus! {

impl<'a> ValueRef<'a> {
    /// A `String` value holding the UTF-8 bytes of `s`.
    pub fn from_text(s: &'a str) -> (r: ValueRef<'a>)
        ensures
            r@ == Datum::Str(s.spec_bytes()),
    {
        ValueRef::String(s.as_bytes())
    }

    /// The number held by a `UInt8` value.
    pub fn to_u8(&self) -> (r: u8)
        requires
            self is UInt8,
        ensures
            self@ == Datum::UInt8(r),
    {
        match self {
            ValueRef::UInt8(v) => *v,
            _ => {
                proof {
                    assert(false);
                }
                0
            },
        }
    }

    /// The number held by a `UInt16` value.
    pub fn to_u16(&self) -> (r: u16)
        requires
            self is UInt16,
        ensures
            self@ == Datum::UInt16(r),
    {
        match self {
            ValueRef::UInt16(v) => *v,
            _ => {
                proof {
                    assert(false);
                }
                0
            },
        }
    }

    /// The number held by a `UInt32` value.
    pub fn to_u32(&self) -> (r: u32)
        requires
            self is UInt32,
        ensures
            self@ == Datum::UInt32(r),
    {
        match self {
            ValueRef::UInt32(v) => *v,
            _ => {
                proof {
                    assert(false);
                }
                0
            },
        }
    }

    /// The number held by a `UInt64` value.
    pub fn to_u64(&self) -> (r: u64)
        requires
            self is UInt64,
        ensures
            self@ == Datum::UInt64(r),
    {
        match self {
            ValueRef::UInt64(v) => *v,
            _ => {
                proof {
                    assert(false);
                }
                0
            },
        }
    }

    /// The number held by a `Int8` value.
    pub fn to_i8(&self) -> (r: i8)
        requires
            self is Int8,
        ensures
            self@ == Datum::Int8(r),
    {
        match self {
            ValueRef::Int8(v) => *v,
            _ => {
                proof {
                    assert(false);
                }
                0
            },
        }
    }

    /// The number held by a `Int16` value.
    pub fn to_i16(&self) -> (r: i16)
        requires
            self is Int16,
        ensures
            self@ == Datum::Int16(r),
    {
        match self {
            ValueRef::Int16(v) => *v,
            _ => {
                proof {
                    assert(false);
                }
                0
            },
        }
    }

    /// The number held by a `Int32` value.
    pub fn to_i32(&self) -> (r: i32)
        requires
            self is Int32,
        ensures
            self@ == Datum::Int32(r),
    {
        match self {
            ValueRef::Int32(v) => *v,
            _ => {
                proof {
                    assert(false);
                }
                0
            },
        }
    }

    /// The number held by a `Int64` value.
    pub fn to_i64(&self) -> (r: i64)
        requires
            self is Int64,
        ensures
            self@ == Datum::Int64(r),
    {
        match self {
            ValueRef::Int64(v) => *v,
            _ => {
                proof {
                    assert(false);
                }
                0
            },
        }
    }
}

impl<'a> From<&'a [u8]> for ValueRef<'a> {
    fn from(bs: &'a [u8]) -> (r: ValueRef<'a>)
        ensures
            r@ == Datum::Str(bs@),
            r is String,
    {
        ValueRef::String(bs)
    }
}

impl<'a> FromSpecImpl<&'a [u8]> for ValueRef<'a> {
    open spec fn obeys_from_spec() -> bool {
        true
    }

    open spec fn from_spec(bs: &'a [u8]) -> ValueRef<'a> {
        ValueRef::String(bs)
    }
}

impl<'a> From<u8> for ValueRef<'a> {
    fn from(v: u8) -> (r: ValueRef<'a>)
        ensures
            r@ == Datum::UInt8(v),
            r is UInt8,
    {
        ValueRef::UInt8(v)
    }
}

impl<'a> FromSpecImpl<u8> for ValueRef<'a> {
    open spec fn obeys_from_spec() -> bool {
        true
    }

    open spec fn from_spec(v: u8) -> ValueRef<'a> {
        ValueRef::UInt8(v)
    }
}


impl<'a> From<u16> for ValueRef<'a> {
    fn from(v: u16) -> (r: ValueRef<'a>)
        ensures
            r@ == Datum::UInt16(v),
            r is UInt16,
    {
        ValueRef::UInt16(v)
    }
}

impl<'a> FromSpecImpl<u16> for ValueRef<'a> {
    open spec fn obeys_from_spec() -> bool {
        true
    }

    open spec fn from_spec(v: u16) -> ValueRef<'a> {
        ValueRef::UInt16(v)
    }
}

impl<'a> From<u32> for ValueRef<'a> {
    fn from(v: u32) -> (r: ValueRef<'a>)
        ensures
            r@ == Datum::UInt32(v),
            r is UInt32,
    {
        ValueRef::UInt32(v)
    }
}

impl<'a> FromSpecImpl<u32> for ValueRef<'a> {
    open spec fn obeys_from_spec() -> bool {
        true
    }

    open spec fn from_spec(v: u32) -> ValueRef<'a> {
        ValueRef::UInt32(v)
    }
}

impl<'a> From<u64> for ValueRef<'a> {
    fn from(v: u64) -> (r: ValueRef<'a>)
        ensures
            r@ == Datum::UInt64(v),
            r is UInt64,
    {
        ValueRef::UInt64(v)
    }
}

impl<'a> FromSpecImpl<u64> for ValueRef<'a> {
    open spec fn obeys_from_spec() -> bool {
        true
    }

    open spec fn from_spec(v: u64) -> ValueRef<'a> {
        ValueRef::UInt64(v)
    }
}

impl<'a> From<i8> for ValueRef<'a> {
    fn from(v: i8) -> (r: ValueRef<'a>)
        ensures
            r@ == Datum::Int8(v),
            r is Int8,
    {
        ValueRef::Int8(v)
    }
}

impl<'a> FromSpecImpl<i8> for ValueRef<'a> {
    open spec fn obeys_from_spec() -> bool {
        true
    }

    open spec fn from_spec(v: i8) -> ValueRef<'a> {
        ValueRef::Int8(v)
    }
}

impl<'a> From<i16> for ValueRef<'a> {
    fn from(v: i16) -> (r: ValueRef<'a>)
        ensures
            r@ == Datum::Int16(v),
            r is Int16,
    {
        ValueRef::Int16(v)
    }
}

impl<'a> FromSpecImpl<i16> for ValueRef<'a> {
    open spec fn obeys_from_spec() -> bool {
        true
    }

    open spec fn from_spec(v: i16) -> ValueRef<'a> {
        ValueRef::Int16(v)
    }
}

impl<'a> From<i32> for ValueRef<'a> {
    fn from(v: i32) -> (r: ValueRef<'a>)
        ensures
            r@ == Datum::Int32(v),
            r is Int32,
    {
        ValueRef::Int32(v)
    }
}

impl<'a> FromSpecImpl<i32> for ValueRef<'a> {
    open spec fn obeys_from_spec() -> bool {
        true
    }

    open spec fn from_spec(v: i32) -> ValueRef<'a> {
        ValueRef::Int32(v)
    }
}

impl<'a> From<i64> for ValueRef<'a> {
    fn from(v: i64) -> (r: ValueRef<'a>)
        ensures
            r@ == Datum::Int64(v),
            r is Int64,
    {
        ValueRef::Int64(v)
    }
}

impl<'a> FromSpecImpl<i64> for ValueRef<'a> {
    open spec fn obeys_from_spec() -> bool {
        true
    }

    open spec fn from_spec(v: i64) -> ValueRef<'a> {
        ValueRef::Int64(v)
    }
}

} // verus!
