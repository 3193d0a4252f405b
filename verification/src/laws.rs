//! Properties that hold of every value.

use vstd::prelude::*;
use vstd::utf8::{valid_utf8, decode_utf8, encode_utf8_valid_utf8, encode_utf8_decode_utf8};
use vstd::string::StringSliceAdditionalSpecFns;
use vstd::std_specs::convert::FromSpec;
use chrono_tz::Tz;
use crate::datum::{Datum, Piece, datum_eq, items_eq, lemma_items_eq, datum_type, is_nan32, is_nan64, render, day_start};
use crate::decimal::{Decimal, same_number, pow10, decimal_text, fixed_digits};
use crate::external::local_date_of;
use crate::sql_type::{SqlType, sql_name};
use crate::text::{decimal, signed_decimal, hex_char};
use crate::value::Value;
use crate::value_ref::ValueRef;

verus! {

/// Equality of values is symmetric: `a == b` exactly when `b == a`.
pub proof fn lemma_eq_symmetric(a: Datum, b: Datum)
    ensures
        datum_eq(a, b) == datum_eq(b, a),
    decreases a,
{
    match (a, b) {
        (Datum::NotNull(x), Datum::NotNull(y)) => {
            lemma_eq_symmetric(*x, *y);
        },
        (Datum::Array(t, xs), Datum::Array(u, ys)) => {
            lemma_items_eq(xs, ys);
            lemma_items_eq(ys, xs);
            if xs.len() == ys.len() {
                assert forall|i: int| 0 <= i < xs.len() implies #[trigger] datum_eq(xs[i], ys[i])
                    == datum_eq(ys[i], xs[i]) by {
                    lemma_eq_symmetric(xs[i], ys[i]);
                }
                if items_eq(xs, ys) {
                    assert forall|i: int| 0 <= i < ys.len() implies #[trigger] datum_eq(ys[i], xs[i]) by {
                        assert(datum_eq(xs[i], ys[i]));
                    }
                }
                if items_eq(ys, xs) {
                    assert forall|i: int| 0 <= i < xs.len() implies #[trigger] datum_eq(xs[i], ys[i]) by {
                        assert(datum_eq(ys[i], xs[i]));
                    }
                }
            }
            assert(items_eq(xs, ys) == items_eq(ys, xs));
        },
        _ => {},
    }
}

/// Whether a value equals itself: it holds no IPv4, IPv6 or UUID value and
/// no NaN, at the top, inside a non-null nullable, or among array items.
pub open spec fn equals_itself(d: Datum) -> bool
    decreases d,
{
    match d {
        Datum::Float32(b) => !is_nan32(b),
        Datum::Float64(b) => !is_nan64(b),
        Datum::Ipv4(_) => false,
        Datum::Ipv6(_) => false,
        Datum::Uuid(_) => false,
        Datum::NotNull(x) => equals_itself(*x),
        Datum::Array(_, xs) => items_equal_themselves(xs),
        _ => true,
    }
}

/// Whether every item of a run equals itself.
pub open spec fn items_equal_themselves(xs: Seq<Datum>) -> bool
    decreases xs,
{
    xs.len() > 0 ==> items_equal_themselves(xs.drop_last()) && equals_itself(xs.last())
}

/// Equality of values is reflexive on the values that `equals_itself`
/// describes, and on no other: an IPv4, IPv6 or UUID value, or a NaN, is
/// not equal to itself.
pub proof fn lemma_eq_reflexive(d: Datum)
    ensures
        datum_eq(d, d) == equals_itself(d),
    decreases d,
{
    match d {
        Datum::NotNull(x) => {
            lemma_eq_reflexive(*x);
        },
        Datum::Array(_, xs) => {
            lemma_items_reflexive(xs);
        },
        _ => {},
    }
}

proof fn lemma_items_reflexive(xs: Seq<Datum>)
    ensures
        items_eq(xs, xs) == items_equal_themselves(xs),
    decreases xs,
{
    if xs.len() > 0 {
        lemma_items_reflexive(xs.drop_last());
        lemma_eq_reflexive(xs.last());
    }
}

/// The decimal reached from a value through non-null nullables, if any.
pub open spec fn decimal_core(d: Datum) -> Option<Decimal>
    decreases d,
{
    match d {
        Datum::NotNull(x) => decimal_core(*x),
        Datum::Decimal(x) => Some(x),
        _ => None,
    }
}

/// Equal values have the same SQL type, unless they are decimals (possibly
/// nullable) that denote the same number at different scales or precisions.
pub proof fn lemma_equal_values_same_type(a: Datum, b: Datum)
    requires
        datum_eq(a, b),
        decimal_core(a) matches Some(x) ==> decimal_core(b) matches Some(y) && x.spec_scale()
            == y.spec_scale() && x.spec_precision() == y.spec_precision(),
    ensures
        datum_type(a) == datum_type(b),
    decreases a,
{
    match (a, b) {
        (Datum::NotNull(x), Datum::NotNull(y)) => {
            lemma_equal_values_same_type(*x, *y);
        },
        _ => {},
    }
}

/// A value made from an owned value that was made from a borrowed one has
/// the contents, the SQL type and the equalities of the borrowed one.
pub proof fn lemma_round_trip(original: ValueRef, owned: Value, back: ValueRef)
    requires
        owned@ == original@,
        back@ == owned@,
    ensures
        back@ == original@,
        datum_type(back@) == datum_type(original@),
        forall|other: Datum| datum_eq(back@, other) == datum_eq(original@, other),
{
}

/// The bytes of a `&str` are valid UTF-8 and decode to the same text, so a
/// string value made from a `&str` reads back as that text.
pub proof fn lemma_text_reads_back(s: &str)
    ensures
        valid_utf8(s.spec_bytes()),
        decode_utf8(s.spec_bytes()) == s@,
{
    encode_utf8_valid_utf8(s@);
    encode_utf8_decode_utf8(s@);
}

/// Two dates are equal exactly when their whole local calendar dates (year,
/// month and day, each date read in its own zone) are equal.
pub proof fn lemma_dates_equal_by_calendar_date(x: u16, tx: Tz, y: u16, ty: Tz)
    ensures
        datum_eq(Datum::Date(x, tx), Datum::Date(y, ty)) <==> {
            let (year_x, month_x, day_x) = local_date_of(day_start(x), tx);
            let (year_y, month_y, day_y) = local_date_of(day_start(y), ty);
            year_x == year_y && month_x == month_y && day_x == day_y
        },
{
}

/// Two date-times are equal exactly when they count the same seconds since
/// the epoch, whatever their zones.
pub proof fn lemma_date_times_equal_by_instant(x: u32, tx: Tz, y: u32, ty: Tz)
    ensures
        datum_eq(Datum::DateTime(x, tx), Datum::DateTime(y, ty)) <==> x == y,
{
}

/// Whether `c` is one of the ASCII digits `0` to `9`.
pub open spec fn is_digit(c: char) -> bool {
    48 <= (c as u32) <= 57
}

/// The number that a run of ASCII digits spells in base ten.
pub open spec fn digits_value(s: Seq<char>) -> int
    decreases s.len(),
{
    if s.len() == 0 {
        0
    } else {
        digits_value(s.drop_last()) * 10 + ((s.last() as u32) - 48)
    }
}

/// Whether `s` is a canonical run of decimal digits: at least one digit,
/// and no leading zero unless it is the single digit `0`.
pub open spec fn is_canonical_digits(s: Seq<char>) -> bool {
    &&& s.len() >= 1
    &&& forall|i: int| 0 <= i < s.len() ==> #[trigger] is_digit(s[i])
    &&& s.len() > 1 ==> s[0] != '0'
}

/// Whether `t` is the canonical base-ten text of the integer `n`: a `-`
/// before the digits of the magnitude for a negative `n`, the digits alone
/// otherwise.
pub open spec fn is_integer_text(t: Seq<char>, n: int) -> bool {
    if n < 0 {
        t.len() >= 2 && t[0] == '-' && is_canonical_digits(t.drop_first()) && digits_value(
            t.drop_first(),
        ) == -n
    } else {
        is_canonical_digits(t) && digits_value(t) == n
    }
}

proof fn lemma_hex_char_digit(d: nat)
    requires
        d < 10,
    ensures
        is_digit(hex_char(d)),
        (hex_char(d) as u32) - 48 == d,
        hex_char(d) == '0' <==> d == 0,
{
}

/// The decimal digits of a natural number are canonical and spell it.
pub proof fn lemma_decimal_spells(n: nat)
    ensures
        is_canonical_digits(decimal(n)),
        digits_value(decimal(n)) == n,
        n >= 10 ==> decimal(n).len() >= 2,
    decreases n,
{
    if n < 10 {
        lemma_hex_char_digit(n);
        let t = decimal(n);
        assert(t =~= seq![hex_char(n)]);
        assert(t.drop_last() =~= Seq::<char>::empty());
        assert(digits_value(t) == digits_value(t.drop_last()) * 10 + ((t.last() as u32) - 48));
        assert(digits_value(Seq::<char>::empty()) == 0);
        assert(is_digit(t[0]));
    } else {
        lemma_decimal_spells(n / 10);
        lemma_hex_char_digit(n % 10);
        let s = decimal(n / 10);
        assert(decimal(n) == s.push(hex_char(n % 10)));
        assert(s.push(hex_char(n % 10)).drop_last() =~= s);
        assert(decimal(n)[0] == s[0]);
        assert(decimal(n).drop_last() =~= s);
        assert(digits_value(decimal(n)) == digits_value(s) * 10 + ((hex_char(n % 10) as u32) - 48));
        if n / 10 < 10 {
            lemma_hex_char_digit(n / 10);
            assert(s =~= seq![hex_char(n / 10)]);
        }
        assert forall|i: int| 0 <= i < decimal(n).len() implies #[trigger] is_digit(decimal(n)[i]) by {
            if i < s.len() {
                assert(decimal(n)[i] == s[i]);
            }
        }
    }
}

/// The signed decimal text of an integer is its canonical base-ten text.
pub proof fn lemma_signed_decimal_spells(n: int)
    ensures
        is_integer_text(signed_decimal(n), n),
{
    if n < 0 {
        lemma_decimal_spells((-n) as nat);
        let t = signed_decimal(n);
        assert(t.drop_first() =~= decimal((-n) as nat));
    } else {
        lemma_decimal_spells(n as nat);
    }
}

/// The number that an integer value holds, if it is one.
pub open spec fn integer_of(d: Datum) -> Option<int> {
    match d {
        Datum::UInt8(v) => Some(v as int),
        Datum::UInt16(v) => Some(v as int),
        Datum::UInt32(v) => Some(v as int),
        Datum::UInt64(v) => Some(v as int),
        Datum::Int8(v) => Some(v as int),
        Datum::Int16(v) => Some(v as int),
        Datum::Int32(v) => Some(v as int),
        Datum::Int64(v) => Some(v as int),
        _ => None,
    }
}

/// The text of an integer value, in either form, is a single piece of text:
/// the canonical base-ten text of the number it holds, with a `-` exactly
/// when the number is negative.
pub proof fn lemma_integer_text(d: Datum, alternate: bool)
    requires
        integer_of(d) is Some,
    ensures
        render(d, alternate).len() == 1,
        render(d, alternate)[0] matches Piece::Text(t) && is_integer_text(t, integer_of(d).unwrap()),
{
    match d {
        Datum::UInt8(v) => lemma_decimal_spells(v as nat),
        Datum::UInt16(v) => lemma_decimal_spells(v as nat),
        Datum::UInt32(v) => lemma_decimal_spells(v as nat),
        Datum::UInt64(v) => lemma_decimal_spells(v as nat),
        Datum::Int8(v) => lemma_signed_decimal_spells(v as int),
        Datum::Int16(v) => lemma_signed_decimal_spells(v as int),
        Datum::Int32(v) => lemma_signed_decimal_spells(v as int),
        Datum::Int64(v) => lemma_signed_decimal_spells(v as int),
        _ => {},
    }
}

/// Whether two values are of the same kind; the null and non-null forms of
/// a nullable are one kind.
pub open spec fn same_kind(a: Datum, b: Datum) -> bool {
    match (a, b) {
        (Datum::UInt8(_), Datum::UInt8(_)) => true,
        (Datum::UInt16(_), Datum::UInt16(_)) => true,
        (Datum::UInt32(_), Datum::UInt32(_)) => true,
        (Datum::UInt64(_), Datum::UInt64(_)) => true,
        (Datum::Int8(_), Datum::Int8(_)) => true,
        (Datum::Int16(_), Datum::Int16(_)) => true,
        (Datum::Int32(_), Datum::Int32(_)) => true,
        (Datum::Int64(_), Datum::Int64(_)) => true,
        (Datum::Str(_), Datum::Str(_)) => true,
        (Datum::Float32(_), Datum::Float32(_)) => true,
        (Datum::Float64(_), Datum::Float64(_)) => true,
        (Datum::Date(_, _), Datum::Date(_, _)) => true,
        (Datum::DateTime(_, _), Datum::DateTime(_, _)) => true,
        (Datum::Null(_), Datum::Null(_)) => true,
        (Datum::Null(_), Datum::NotNull(_)) => true,
        (Datum::NotNull(_), Datum::Null(_)) => true,
        (Datum::NotNull(_), Datum::NotNull(_)) => true,
        (Datum::Array(_, _), Datum::Array(_, _)) => true,
        (Datum::Decimal(_), Datum::Decimal(_)) => true,
        (Datum::Ipv4(_), Datum::Ipv4(_)) => true,
        (Datum::Ipv6(_), Datum::Ipv6(_)) => true,
        (Datum::Uuid(_), Datum::Uuid(_)) => true,
        _ => false,
    }
}

/// Values of different kinds have different SQL types: the type of a value
/// tells its kind.
pub proof fn lemma_type_tells_kind(a: Datum, b: Datum)
    requires
        datum_type(a) == datum_type(b),
    ensures
        same_kind(a, b),
{
}

/// The SQL type of each kind of value is the column type of that kind, by
/// name.
pub proof fn lemma_type_names(d: Datum)
    ensures
        d is UInt8 ==> sql_name(datum_type(d)) == "UInt8"@,
        d is UInt16 ==> sql_name(datum_type(d)) == "UInt16"@,
        d is UInt32 ==> sql_name(datum_type(d)) == "UInt32"@,
        d is UInt64 ==> sql_name(datum_type(d)) == "UInt64"@,
        d is Int8 ==> sql_name(datum_type(d)) == "Int8"@,
        d is Int16 ==> sql_name(datum_type(d)) == "Int16"@,
        d is Int32 ==> sql_name(datum_type(d)) == "Int32"@,
        d is Int64 ==> sql_name(datum_type(d)) == "Int64"@,
        d is Str ==> sql_name(datum_type(d)) == "String"@,
        d is Float32 ==> sql_name(datum_type(d)) == "Float32"@,
        d is Float64 ==> sql_name(datum_type(d)) == "Float64"@,
        d is Date ==> sql_name(datum_type(d)) == "Date"@,
        d is DateTime ==> sql_name(datum_type(d)) == "DateTime"@,
        d is Ipv4 ==> sql_name(datum_type(d)) == "IPv4"@,
        d is Ipv6 ==> sql_name(datum_type(d)) == "IPv6"@,
        d is Uuid ==> sql_name(datum_type(d)) == "UUID"@,
{
}

/// A value built from a Rust number holds that number, in the kind of the
/// number's Rust type, and has the matching SQL type.
pub proof fn lemma_from_numbers<'a>(
    a: u8,
    b: u16,
    c: u32,
    d: u64,
    e: i8,
    f: i16,
    g: i32,
    h: i64,
)
    ensures
        <ValueRef<'a> as FromSpec<u8>>::from_spec(a)@ == Datum::UInt8(a),
        <ValueRef<'a> as FromSpec<u16>>::from_spec(b)@ == Datum::UInt16(b),
        <ValueRef<'a> as FromSpec<u32>>::from_spec(c)@ == Datum::UInt32(c),
        <ValueRef<'a> as FromSpec<u64>>::from_spec(d)@ == Datum::UInt64(d),
        <ValueRef<'a> as FromSpec<i8>>::from_spec(e)@ == Datum::Int8(e),
        <ValueRef<'a> as FromSpec<i16>>::from_spec(f)@ == Datum::Int16(f),
        <ValueRef<'a> as FromSpec<i32>>::from_spec(g)@ == Datum::Int32(g),
        <ValueRef<'a> as FromSpec<i64>>::from_spec(h)@ == Datum::Int64(h),
        datum_type(<ValueRef<'a> as FromSpec<u8>>::from_spec(a)@) == SqlType::UInt8,
        datum_type(<ValueRef<'a> as FromSpec<u16>>::from_spec(b)@) == SqlType::UInt16,
        datum_type(<ValueRef<'a> as FromSpec<u32>>::from_spec(c)@) == SqlType::UInt32,
        datum_type(<ValueRef<'a> as FromSpec<u64>>::from_spec(d)@) == SqlType::UInt64,
        datum_type(<ValueRef<'a> as FromSpec<i8>>::from_spec(e)@) == SqlType::Int8,
        datum_type(<ValueRef<'a> as FromSpec<i16>>::from_spec(f)@) == SqlType::Int16,
        datum_type(<ValueRef<'a> as FromSpec<i32>>::from_spec(g)@) == SqlType::Int32,
        datum_type(<ValueRef<'a> as FromSpec<i64>>::from_spec(h)@) == SqlType::Int64,
{
}

proof fn lemma_pow10_positive(n: nat)
    ensures
        pow10(n) >= 1,
    decreases n,
{
    if n > 0 {
        lemma_pow10_positive((n - 1) as nat);
    }
}

proof fn lemma_pow10_add(m: nat, n: nat)
    ensures
        pow10(m + n) == pow10(m) * pow10(n),
    decreases m,
{
    if m > 0 {
        let m1 = (m - 1) as nat;
        lemma_pow10_add(m1, n);
        assert(pow10(m) == 10 * pow10(m1));
        assert(m + n == (m1 + n) + 1);
        assert(pow10(m + n) == 10 * pow10(m1 + n));
        let a = pow10(m1);
        let b = pow10(n);
        assert(10 * (a * b) == (10 * a) * b) by (nonlinear_arith);
        assert(pow10(m + n) == pow10(m) * pow10(n));
    } else {
        assert(pow10(0) == 1);
        assert(m + n == n);
    }
}

/// Two decimals of the same scale are equal exactly when they hold the same
/// (signed) count of units.
pub proof fn lemma_same_scale_decimals(a: Decimal, b: Decimal)
    requires
        a.spec_scale() == b.spec_scale(),
    ensures
        same_number(a, b) <==> a.spec_underlying() == b.spec_underlying(),
{
    let p = pow10(a.spec_scale() as nat);
    lemma_pow10_positive(a.spec_scale() as nat);
    let x = a.spec_underlying() as int;
    let y = b.spec_underlying() as int;
    assert(x * p == y * p ==> x == y) by (nonlinear_arith)
        requires
            p >= 1,
    ;
}

/// Equal decimals have the same sign: a decimal never equals its negation
/// unless it is zero.
pub proof fn lemma_equal_decimals_same_sign(a: Decimal, b: Decimal)
    requires
        same_number(a, b),
    ensures
        a.spec_underlying() < 0 <==> b.spec_underlying() < 0,
        a.spec_underlying() == 0 <==> b.spec_underlying() == 0,
{
    let pa = pow10(a.spec_scale() as nat);
    let pb = pow10(b.spec_scale() as nat);
    lemma_pow10_positive(a.spec_scale() as nat);
    lemma_pow10_positive(b.spec_scale() as nat);
    let x = a.spec_underlying() as int;
    let y = b.spec_underlying() as int;
    assert((x < 0 <==> x * pb < 0) && (x == 0 <==> x * pb == 0)) by (nonlinear_arith)
        requires
            pb >= 1,
    ;
    assert((y < 0 <==> y * pa < 0) && (y == 0 <==> y * pa == 0)) by (nonlinear_arith)
        requires
            pa >= 1,
    ;
}

/// A decimal equals every decimal of a larger scale whose count of units is
/// its own multiplied by ten for each extra fractional digit.
pub proof fn lemma_rescaled_decimals_equal(a: Decimal, b: Decimal)
    requires
        a.spec_scale() <= b.spec_scale(),
        b.spec_underlying() == a.spec_underlying() * pow10(
            (b.spec_scale() - a.spec_scale()) as nat,
        ),
    ensures
        same_number(a, b),
{
    let k = (b.spec_scale() - a.spec_scale()) as nat;
    let sa = a.spec_scale() as nat;
    lemma_pow10_add(k, sa);
    assert(k + sa == b.spec_scale() as nat);
    let x = a.spec_underlying() as int;
    assert(x * pow10(k) * pow10(sa) == x * (pow10(k) * pow10(sa))) by (nonlinear_arith);
}

/// Two 32-bit floats are equal exactly when they are the same number that
/// is not a NaN, or are both zeros of either sign.
pub proof fn lemma_float32_equality(a: u32, b: u32)
    ensures
        datum_eq(Datum::Float32(a), Datum::Float32(b)) <==> (a == b && !is_nan32(a)) || (a
            & 0x7fff_ffff == 0 && b & 0x7fff_ffff == 0),
{
    if a & 0x7fff_ffff == 0 {
        assert(a & 0x7fff_ffff == 0 ==> !(a & 0x7f80_0000 == 0x7f80_0000)) by (bit_vector);
    }
    if b & 0x7fff_ffff == 0 {
        assert(b & 0x7fff_ffff == 0 ==> !(b & 0x7f80_0000 == 0x7f80_0000)) by (bit_vector);
    }
}

/// Two 64-bit floats are equal exactly when they are the same number that
/// is not a NaN, or are both zeros of either sign.
pub proof fn lemma_float64_equality(a: u64, b: u64)
    ensures
        datum_eq(Datum::Float64(a), Datum::Float64(b)) <==> (a == b && !is_nan64(a)) || (a
            & 0x7fff_ffff_ffff_ffff == 0 && b & 0x7fff_ffff_ffff_ffff == 0),
{
    if a & 0x7fff_ffff_ffff_ffff == 0 {
        assert(a & 0x7fff_ffff_ffff_ffff == 0 ==> !(a & 0x7ff0_0000_0000_0000
            == 0x7ff0_0000_0000_0000)) by (bit_vector);
    }
    if b & 0x7fff_ffff_ffff_ffff == 0 {
        assert(b & 0x7fff_ffff_ffff_ffff == 0 ==> !(b & 0x7ff0_0000_0000_0000
            == 0x7ff0_0000_0000_0000)) by (bit_vector);
    }
}

/// The SQL type of a nullable value is `Nullable(..)` of the type that it
/// carries or holds; that of an array is `Array(..)` of its element type;
/// that of a decimal is `Decimal(precision, scale)`.
pub proof fn lemma_compound_type_names(d: Datum)
    ensures
        d matches Datum::Null(t) ==> sql_name(datum_type(d)) == "Nullable("@ + sql_name(t) + ")"@,
        d matches Datum::NotNull(x) ==> sql_name(datum_type(d)) == "Nullable("@ + sql_name(
            datum_type(*x),
        ) + ")"@,
        d matches Datum::Array(t, _) ==> sql_name(datum_type(d)) == "Array("@ + sql_name(t)
            + ")"@,
        d matches Datum::Decimal(x) ==> sql_name(datum_type(d)) == "Decimal("@ + decimal(
            x.spec_precision() as nat,
        ) + ", "@ + decimal(x.spec_scale() as nat) + ")"@,
{
}

proof fn lemma_fixed_digits_spell(n: nat, width: nat)
    ensures
        fixed_digits(n, width).len() == width,
        forall|i: int| 0 <= i < width ==> #[trigger] is_digit(fixed_digits(n, width)[i]),
        digits_value(fixed_digits(n, width)) == n % pow10(width),
    decreases width,
{
    if width > 0 {
        let w1 = (width - 1) as nat;
        lemma_fixed_digits_spell(n / 10, w1);
        lemma_hex_char_digit(n % 10);
        let s = fixed_digits(n / 10, w1);
        assert(fixed_digits(n, width) == s.push(hex_char(n % 10)));
        assert(s.push(hex_char(n % 10)).drop_last() =~= s);
        assert(digits_value(fixed_digits(n, width)) == digits_value(s) * 10 + ((hex_char(n % 10)
            as u32) - 48));
        assert forall|i: int| 0 <= i < width implies #[trigger] is_digit(fixed_digits(n, width)[i]) by {
            if i < w1 {
                assert(fixed_digits(n, width)[i] == s[i]);
            }
        }
        lemma_pow10_positive(w1);
        let p = pow10(w1);
        assert(pow10(width) == 10 * p);
        assert(((n / 10) % p) * 10 + n % 10 == n % (10 * p)) by (nonlinear_arith)
            requires
                p >= 1,
        {
            assert(n == 10 * (n / 10) + n % 10);
            assert(n / 10 == p * ((n / 10) / p) + (n / 10) % p);
            assert(n == (10 * p) * ((n / 10) / p) + (((n / 10) % p) * 10 + n % 10));
            assert(0 <= ((n / 10) % p) * 10 + n % 10 < 10 * p);
        }
    } else {
        assert(fixed_digits(n, 0) =~= Seq::<char>::empty());
    }
}

/// The text of a decimal spells its number: a `-` exactly when it is
/// negative, then the canonical digits of the integer part, then, for a
/// positive scale, a `.` and exactly `scale` fractional digits; the digits
/// before and after the point together spell the magnitude of the count of
/// units.
pub proof fn lemma_decimal_text_spells(u: int, scale: nat)
    ensures
        ({
            let t = decimal_text(u, scale);
            let body = if u < 0 { t.drop_first() } else { t };
            let m: int = if u < 0 { -u } else { u };
            &&& (u < 0 ==> t.len() >= 1 && t[0] == '-')
            &&& (u >= 0 ==> t.len() >= 1 && t[0] != '-')
            &&& if scale == 0 {
                is_canonical_digits(body) && digits_value(body) == m
            } else {
                let k = (body.len() - scale - 1) as int;
                &&& body.len() >= scale + 2
                &&& body[k] == '.'
                &&& is_canonical_digits(body.subrange(0, k))
                &&& (forall|i: int| k < i < body.len() ==> #[trigger] is_digit(body[i]))
                &&& digits_value(body.subrange(0, k)) * pow10(scale) + digits_value(
                    body.subrange(k + 1, body.len() as int),
                ) == m
            }
        }),
{
    let t = decimal_text(u, scale);
    let m: nat = if u < 0 { (-u) as nat } else { u as nat };
    let sign: Seq<char> = if u < 0 { seq!['-'] } else { Seq::empty() };
    let body = if u < 0 { t.drop_first() } else { t };
    lemma_pow10_positive(scale);
    if scale == 0 {
        lemma_decimal_spells(m);
        assert(t == sign + decimal(m));
        assert(body =~= decimal(m));
        if u >= 0 {
            lemma_hex_char_digit(0);
            assert(is_digit(decimal(m)[0]));
        }
    } else {
        let p = pow10(scale);
        let ip = decimal(m / p);
        let fp = fixed_digits(m % p, scale);
        lemma_decimal_spells(m / p);
        lemma_fixed_digits_spell(m % p, scale);
        assert(t == sign + ip + seq!['.'] + fp);
        assert(body =~= ip + seq!['.'] + fp);
        let k = (body.len() - scale - 1) as int;
        assert(k == ip.len());
        assert(body.subrange(0, k) =~= ip);
        assert(body.subrange(k + 1, body.len() as int) =~= fp);
        assert forall|i: int| k < i < body.len() implies #[trigger] is_digit(body[i]) by {
            assert(body[i] == fp[i - k - 1]);
        }
        assert((m % p) % p == m % p) by (nonlinear_arith)
            requires
                p >= 1,
        {
        }
        assert((m / p) * p + m % p == m) by (nonlinear_arith)
            requires
                p >= 1,
        ;
        if u >= 0 {
            assert(t[0] == ip[0]);
            assert(is_digit(ip[0]));
        }
    }
}

} // verus!
