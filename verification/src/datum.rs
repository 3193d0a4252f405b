//! The mathematical model of a column value, shared by borrowed and owned
//! values, and the meaning of the operations on them: their SQL type, their
//! equality and their text.

use vstd::prelude::*;
use vstd::utf8::{valid_utf8, decode_utf8};
use chrono_tz::Tz;
use crate::sql_type::SqlType;
use crate::decimal::{Decimal, decimal_text, same_number};
use crate::text::{decimal, signed_decimal};
use crate::external::{
    local_date_of, date_text_of, date_with_zone_text_of, date_time_text_of, rfc2822_text_of,
    uuid_hyphenated,
};

verus! {

/// A column value as a mathematical object. Floating-point numbers are held
/// by their IEEE 754 bit patterns, byte strings by their bytes.
pub enum Datum {
    UInt8(u8),
    UInt16(u16),
    UInt32(u32),
    UInt64(u64),
    Int8(i8),
    Int16(i16),
    Int32(i32),
    Int64(i64),
    Str(Seq<u8>),
    Float32(u32),
    Float64(u64),
    Date(u16, Tz),
    DateTime(u32, Tz),
    Null(SqlType),
    NotNull(Box<Datum>),
    Array(SqlType, Seq<Datum>),
    Decimal(Decimal),
    Ipv4([u8; 4]),
    Ipv6([u8; 16]),
    Uuid([u8; 16]),
}

/// The seconds since the Unix epoch at the start of day `days` (in UTC).
pub open spec fn day_start(days: u16) -> i64 {
    (days * 86400) as i64
}

/// The SQL type of a value: the type of a null is the nullable form of the
/// type that it carries, that of an array is the array of its element type,
/// that of a decimal carries its precision and scale.
pub open spec fn datum_type(d: Datum) -> SqlType
    decreases d,
{
    match d {
        Datum::UInt8(_) => SqlType::UInt8,
        Datum::UInt16(_) => SqlType::UInt16,
        Datum::UInt32(_) => SqlType::UInt32,
        Datum::UInt64(_) => SqlType::UInt64,
        Datum::Int8(_) => SqlType::Int8,
        Datum::Int16(_) => SqlType::Int16,
        Datum::Int32(_) => SqlType::Int32,
        Datum::Int64(_) => SqlType::Int64,
        Datum::Str(_) => SqlType::String,
        Datum::Float32(_) => SqlType::Float32,
        Datum::Float64(_) => SqlType::Float64,
        Datum::Date(_, _) => SqlType::Date,
        Datum::DateTime(_, _) => SqlType::DateTime,
        Datum::Null(t) => SqlType::Nullable(Box::new(t)),
        Datum::NotNull(inner) => SqlType::Nullable(Box::new(datum_type(*inner))),
        Datum::Array(t, _) => SqlType::Array(Box::new(t)),
        Datum::Decimal(x) => SqlType::Decimal(x.spec_precision(), x.spec_scale()),
        Datum::Ipv4(_) => SqlType::Ipv4,
        Datum::Ipv6(_) => SqlType::Ipv6,
        Datum::Uuid(_) => SqlType::Uuid,
    }
}

/// Whether a 32-bit IEEE 754 bit pattern is a NaN.
pub open spec fn is_nan32(bits: u32) -> bool {
    bits & 0x7f80_0000 == 0x7f80_0000 && bits & 0x007f_ffff != 0
}

/// Whether a 64-bit IEEE 754 bit pattern is a NaN.
pub open spec fn is_nan64(bits: u64) -> bool {
    bits & 0x7ff0_0000_0000_0000 == 0x7ff0_0000_0000_0000 && bits & 0x000f_ffff_ffff_ffff != 0
}

/// IEEE 754 equality of two 32-bit floats: no NaN equals anything, the two
/// zeros are equal, and otherwise equal numbers have equal bit patterns.
pub open spec fn float32_eq(a: u32, b: u32) -> bool {
    !is_nan32(a) && !is_nan32(b) && (a == b || (a & 0x7fff_ffff == 0 && b & 0x7fff_ffff == 0))
}

/// IEEE 754 equality of two 64-bit floats.
pub open spec fn float64_eq(a: u64, b: u64) -> bool {
    !is_nan64(a) && !is_nan64(b) && (a == b || (a & 0x7fff_ffff_ffff_ffff == 0 && b
        & 0x7fff_ffff_ffff_ffff == 0))
}

/// When two values are equal. Values of different kinds never are; nor are
/// two IPv4, IPv6 or UUID values, whatever they hold. Dates are equal when
/// their local dates, each in its own zone, are; date-times when they name
/// the same instant; decimals when they denote the same number; nulls when
/// they carry the same type; arrays when their element types are the same
/// and their items are pairwise equal.
pub open spec fn datum_eq(a: Datum, b: Datum) -> bool
    decreases a,
{
    match (a, b) {
        (Datum::UInt8(x), Datum::UInt8(y)) => x == y,
        (Datum::UInt16(x), Datum::UInt16(y)) => x == y,
        (Datum::UInt32(x), Datum::UInt32(y)) => x == y,
        (Datum::UInt64(x), Datum::UInt64(y)) => x == y,
        (Datum::Int8(x), Datum::Int8(y)) => x == y,
        (Datum::Int16(x), Datum::Int16(y)) => x == y,
        (Datum::Int32(x), Datum::Int32(y)) => x == y,
        (Datum::Int64(x), Datum::Int64(y)) => x == y,
        (Datum::Str(x), Datum::Str(y)) => x == y,
        (Datum::Float32(x), Datum::Float32(y)) => float32_eq(x, y),
        (Datum::Float64(x), Datum::Float64(y)) => float64_eq(x, y),
        (Datum::Date(x, tx), Datum::Date(y, ty)) => local_date_of(day_start(x), tx)
            == local_date_of(day_start(y), ty),
        (Datum::DateTime(x, _), Datum::DateTime(y, _)) => x == y,
        (Datum::Null(t), Datum::Null(u)) => t == u,
        (Datum::NotNull(x), Datum::NotNull(y)) => datum_eq(*x, *y),
        (Datum::Array(t, xs), Datum::Array(u, ys)) => t == u && items_eq(xs, ys),
        (Datum::Decimal(x), Datum::Decimal(y)) => same_number(x, y),
        _ => false,
    }
}

/// Whether two runs of values have the same length and are pairwise equal.
pub open spec fn items_eq(xs: Seq<Datum>, ys: Seq<Datum>) -> bool
    decreases xs,
{
    if xs.len() != ys.len() {
        false
    } else if xs.len() == 0 {
        true
    } else {
        items_eq(xs.drop_last(), ys.drop_last()) && datum_eq(xs.last(), ys.last())
    }
}

/// `items_eq` holds exactly of two runs of the same length whose items are
/// pairwise equal.
pub proof fn lemma_items_eq(xs: Seq<Datum>, ys: Seq<Datum>)
    ensures
        items_eq(xs, ys) == (xs.len() == ys.len() && forall|i: int|
            0 <= i < xs.len() ==> #[trigger] datum_eq(xs[i], ys[i])),
    decreases xs.len(),
{
    if xs.len() == ys.len() && xs.len() > 0 {
        lemma_items_eq(xs.drop_last(), ys.drop_last());
        if items_eq(xs, ys) {
            assert forall|i: int| 0 <= i < xs.len() implies #[trigger] datum_eq(xs[i], ys[i]) by {
                if i < xs.len() - 1 {
                    assert(xs.drop_last()[i] == xs[i]);
                    assert(ys.drop_last()[i] == ys[i]);
                }
            }
        }
        if forall|i: int| 0 <= i < xs.len() ==> #[trigger] datum_eq(xs[i], ys[i]) {
            assert forall|i: int| 0 <= i < xs.drop_last().len() implies #[trigger] datum_eq(
                xs.drop_last()[i],
                ys.drop_last()[i],
            ) by {
                assert(datum_eq(xs[i], ys[i]));
            }
            assert(datum_eq(xs[xs.len() - 1], ys[ys.len() - 1]));
        }
    }
}

/// A piece of the text of a value. Floating-point numbers and IPv6
/// addresses are left for the caller to render with std's `Display`; the
/// rest is text.
pub enum Piece {
    Text(Seq<char>),
    Float32(u32),
    Float64(u64),
    Ipv6([u8; 16]),
}

/// `parts` joined with `", "` between them.
pub open spec fn join_comma(parts: Seq<Seq<char>>) -> Seq<char>
    decreases parts.len(),
{
    if parts.len() == 0 {
        Seq::empty()
    } else if parts.len() == 1 {
        parts[0]
    } else {
        join_comma(parts.drop_last()) + seq![',', ' '] + parts.last()
    }
}

/// std's `Debug` text of a byte slice: the decimal bytes, comma-separated,
/// in square brackets.
pub open spec fn byte_list_text(b: Seq<u8>) -> Seq<char> {
    seq!['['] + join_comma(Seq::new(b.len(), |i: int| decimal(b[i] as nat))) + seq![']']
}

/// The dotted-decimal text of an IPv4 address.
pub open spec fn ipv4_text(a: [u8; 4]) -> Seq<char> {
    decimal(a[0] as nat) + seq!['.'] + decimal(a[1] as nat) + seq!['.'] + decimal(a[2] as nat)
        + seq!['.'] + decimal(a[3] as nat)
}

/// The text of a value, in pieces. `alternate` selects the alternate form
/// (`{:#}`), which changes only dates and date-times at the top level: the
/// value inside a non-null nullable and the items of an array are rendered
/// in the plain form.
pub open spec fn render(d: Datum, alternate: bool) -> Seq<Piece>
    decreases d,
{
    match d {
        Datum::UInt8(v) => seq![Piece::Text(decimal(v as nat))],
        Datum::UInt16(v) => seq![Piece::Text(decimal(v as nat))],
        Datum::UInt32(v) => seq![Piece::Text(decimal(v as nat))],
        Datum::UInt64(v) => seq![Piece::Text(decimal(v as nat))],
        Datum::Int8(v) => seq![Piece::Text(signed_decimal(v as int))],
        Datum::Int16(v) => seq![Piece::Text(signed_decimal(v as int))],
        Datum::Int32(v) => seq![Piece::Text(signed_decimal(v as int))],
        Datum::Int64(v) => seq![Piece::Text(signed_decimal(v as int))],
        Datum::Str(b) => if valid_utf8(b) {
            seq![Piece::Text(decode_utf8(b))]
        } else {
            seq![Piece::Text(byte_list_text(b))]
        },
        Datum::Float32(v) => seq![Piece::Float32(v)],
        Datum::Float64(v) => seq![Piece::Float64(v)],
        Datum::Date(v, tz) => if alternate {
            seq![Piece::Text(date_with_zone_text_of(day_start(v), tz))]
        } else {
            seq![Piece::Text(date_text_of(day_start(v), tz))]
        },
        Datum::DateTime(v, tz) => if alternate {
            seq![Piece::Text(rfc2822_text_of(v as i64, tz))]
        } else {
            seq![Piece::Text(date_time_text_of(v as i64, tz))]
        },
        Datum::Null(_) => seq![Piece::Text(seq!['N', 'U', 'L', 'L'])],
        Datum::NotNull(inner) => render(*inner, false),
        Datum::Array(_, items) => seq![Piece::Text(seq!['['])] + render_items(items) + seq![
            Piece::Text(seq![']']),
        ],
        Datum::Decimal(x) => seq![
            Piece::Text(decimal_text(x.spec_underlying() as int, x.spec_scale() as nat)),
        ],
        Datum::Ipv4(a) => seq![Piece::Text(ipv4_text(a))],
        Datum::Ipv6(a) => seq![Piece::Ipv6(a)],
        Datum::Uuid(a) => seq![Piece::Text(uuid_hyphenated(a@))],
    }
}

/// The pieces of the items of an array, each in the plain form, with a
/// `", "` piece between two items.
pub open spec fn render_items(items: Seq<Datum>) -> Seq<Piece>
    decreases items,
{
    if items.len() == 0 {
        Seq::empty()
    } else if items.len() == 1 {
        render(items[0], false)
    } else {
        render_items(items.drop_last()) + seq![Piece::Text(seq![',', ' '])] + render(
            items.last(),
            false,
        )
    }
}

} // verus!
