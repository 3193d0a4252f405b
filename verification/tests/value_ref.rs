use std::sync::Arc;

use chrono_tz::Tz;
use value_ref::{Decimal, Either, Error, Fragment, FromSqlError, SqlType, Value, ValueRef};

/// Writes the fragments of a value's text as its `Display` would.
fn render(v: &ValueRef, alternate: bool) -> String {
    let mut out = String::new();
    for f in v.display_fragments(alternate) {
        match f {
            Fragment::Text(s) => out.push_str(&s),
            Fragment::Float32(bits) => out.push_str(&f32::from_bits(bits).to_string()),
            Fragment::Float64(bits) => out.push_str(&f64::from_bits(bits).to_string()),
            Fragment::Ipv6(a) => out.push_str(&format!("{:?}", a)),
        }
    }
    out
}

fn int32_array() -> ValueRef<'static> {
    ValueRef::Array(
        SqlType::Int32,
        Arc::new(vec![ValueRef::Int32(1), ValueRef::Int32(2), ValueRef::Int32(3)]),
    )
}

#[test]
fn test_display() {
    assert_eq!("[0, 159, 146, 150]".to_string(), render(&ValueRef::String(&[0, 159, 146, 150]), false));

    assert_eq!("text".to_string(), render(&ValueRef::String(b"text"), false));

    assert_eq!("42".to_string(), render(&ValueRef::UInt8(42), false));
    assert_eq!("42".to_string(), render(&ValueRef::UInt16(42), false));
    assert_eq!("42".to_string(), render(&ValueRef::UInt32(42), false));
    assert_eq!("42".to_string(), render(&ValueRef::UInt64(42), false));

    assert_eq!("42".to_string(), render(&ValueRef::Int8(42), false));
    assert_eq!("42".to_string(), render(&ValueRef::Int16(42), false));
    assert_eq!("42".to_string(), render(&ValueRef::Int32(42), false));
    assert_eq!("42".to_string(), render(&ValueRef::Int64(42), false));

    assert_eq!("42".to_string(), render(&ValueRef::Float32(42.0f32.to_bits()), false));
    assert_eq!("42".to_string(), render(&ValueRef::Float64(42.0f64.to_bits()), false));

    assert_eq!(
        "NULL".to_string(),
        render(&ValueRef::Nullable(Either::Left(SqlType::UInt8)), false)
    );

    assert_eq!(
        "42".to_string(),
        render(&ValueRef::Nullable(Either::Right(Box::new(ValueRef::UInt8(42)))), false)
    );

    assert_eq!("[1, 2, 3]".to_string(), render(&int32_array(), false));

    assert_eq!("1970-01-01".to_string(), render(&ValueRef::Date(0, Tz::Zulu), false));

    assert_eq!("1970-01-01UTC".to_string(), render(&ValueRef::Date(0, Tz::Zulu), true));

    assert_eq!("1970-01-01 00:00:00".to_string(), render(&ValueRef::DateTime(0, Tz::Zulu), false));

    assert_eq!(
        "Thu, 01 Jan 1970 00:00:00 +0000".to_string(),
        render(&ValueRef::DateTime(0, Tz::Zulu), true)
    );

    assert_eq!("2.00".to_string(), render(&ValueRef::Decimal(Decimal::new(200, 2)), false))
}

#[test]
fn test_value_from_ref() {
    assert_eq!(Value::from_ref(&ValueRef::UInt8(42)), Value::UInt8(42));
    assert_eq!(Value::from_ref(&ValueRef::UInt16(42)), Value::UInt16(42));
    assert_eq!(Value::from_ref(&ValueRef::UInt32(42)), Value::UInt32(42));
    assert_eq!(Value::from_ref(&ValueRef::UInt64(42)), Value::UInt64(42));

    assert_eq!(Value::from_ref(&ValueRef::Int8(42)), Value::Int8(42));
    assert_eq!(Value::from_ref(&ValueRef::Int16(42)), Value::Int16(42));
    assert_eq!(Value::from_ref(&ValueRef::Int32(42)), Value::Int32(42));
    assert_eq!(Value::from_ref(&ValueRef::Int64(42)), Value::Int64(42));

    assert_eq!(
        Value::from_ref(&ValueRef::Float32(42.0f32.to_bits())),
        Value::Float32(42.0f32.to_bits())
    );
    assert_eq!(
        Value::from_ref(&ValueRef::Float64(42.0f64.to_bits())),
        Value::Float64(42.0f64.to_bits())
    );

    assert_eq!(Value::from_ref(&ValueRef::Date(42, Tz::Zulu)), Value::Date(42, Tz::Zulu));
    assert_eq!(Value::from_ref(&ValueRef::DateTime(42, Tz::Zulu)), Value::DateTime(42, Tz::Zulu));

    assert_eq!(
        Value::from_ref(&ValueRef::Decimal(Decimal::new(20000, 4))),
        Value::Decimal(Decimal::new(20000, 4))
    );

    assert_eq!(
        Value::from_ref(&int32_array()),
        Value::Array(SqlType::Int32, Arc::new(vec![Value::Int32(1), Value::Int32(2), Value::Int32(3)]))
    )
}

#[test]
fn test_get_sql_type() {
    assert_eq!(ValueRef::UInt8(42).sql_type(), SqlType::UInt8);
    assert_eq!(ValueRef::UInt16(42).sql_type(), SqlType::UInt16);
    assert_eq!(ValueRef::UInt32(42).sql_type(), SqlType::UInt32);
    assert_eq!(ValueRef::UInt64(42).sql_type(), SqlType::UInt64);

    assert_eq!(ValueRef::Int8(42).sql_type(), SqlType::Int8);
    assert_eq!(ValueRef::Int16(42).sql_type(), SqlType::Int16);
    assert_eq!(ValueRef::Int32(42).sql_type(), SqlType::Int32);
    assert_eq!(ValueRef::Int64(42).sql_type(), SqlType::Int64);

    assert_eq!(ValueRef::Float32(42.0f32.to_bits()).sql_type(), SqlType::Float32);
    assert_eq!(ValueRef::Float64(42.0f64.to_bits()).sql_type(), SqlType::Float64);

    assert_eq!(ValueRef::String(&[]).sql_type(), SqlType::String);

    assert_eq!(ValueRef::Date(42, Tz::Zulu).sql_type(), SqlType::Date);
    assert_eq!(ValueRef::DateTime(42, Tz::Zulu).sql_type(), SqlType::DateTime);

    assert_eq!(ValueRef::Decimal(Decimal::new(20000, 4)).sql_type(), SqlType::Decimal(18, 4));

    assert_eq!(int32_array().sql_type(), SqlType::Array(Box::new(SqlType::Int32)));

    assert_eq!(
        ValueRef::Nullable(Either::Left(SqlType::UInt8)).sql_type(),
        SqlType::Nullable(Box::new(SqlType::UInt8))
    );

    assert_eq!(
        ValueRef::Nullable(Either::Right(Box::new(ValueRef::Int8(42)))).sql_type(),
        SqlType::Nullable(Box::new(SqlType::Int8))
    );
}

fn invalid_type(e: Error) -> (String, String) {
    match e {
        Error::FromSql(FromSqlError::InvalidType { src, dst }) => (src, dst),
        other => panic!("unexpected error {:?}", other),
    }
}

#[test]
fn as_str_reads_utf8_strings() {
    assert_eq!(ValueRef::String(b"text").as_str().unwrap(), "text");
    assert_eq!(ValueRef::from_text("héllo").as_str().unwrap(), "héllo");
    assert_eq!(ValueRef::String(b"text").as_string().unwrap(), "text".to_string());
}

#[test]
fn as_str_refuses_invalid_utf8() {
    match ValueRef::String(&[0, 159, 146, 150]).as_str() {
        Err(Error::Utf8(_)) => {}
        other => panic!("unexpected result {:?}", other),
    }
    match ValueRef::String(&[0xff]).as_string() {
        Err(Error::Utf8(_)) => {}
        other => panic!("unexpected result {:?}", other),
    }
}

#[test]
fn as_str_refuses_other_types() {
    let (src, dst) = invalid_type(ValueRef::Int8(1).as_str().unwrap_err());
    assert_eq!(src, "Int8");
    assert_eq!(dst, "&str");
    let nullable = ValueRef::Nullable(Either::Left(SqlType::Array(Box::new(SqlType::UInt8))));
    let (src, dst) = invalid_type(nullable.as_string().unwrap_err());
    assert_eq!(src, "Nullable(Array(UInt8))");
    assert_eq!(dst, "&str");
}

#[test]
fn as_bytes_reads_strings_only() {
    assert_eq!(ValueRef::String(&[0, 159]).as_bytes().unwrap(), &[0u8, 159][..]);
    assert_eq!(ValueRef::from(&b"ab"[..]).as_bytes().unwrap(), b"ab");
    let (src, dst) = invalid_type(ValueRef::Decimal(Decimal::new(5, 3)).as_bytes().unwrap_err());
    assert_eq!(src, "Decimal(18, 3)");
    assert_eq!(dst, "&[u8]");
    let (src, _) = invalid_type(ValueRef::Uuid([0; 16]).as_bytes().unwrap_err());
    assert_eq!(src, "UUID");
}

#[test]
fn sql_type_names() {
    assert_eq!(SqlType::Ipv4.to_string(), "IPv4");
    assert_eq!(SqlType::Ipv6.to_string(), "IPv6");
    assert_eq!(SqlType::Decimal(18, 4).to_string(), "Decimal(18, 4)");
    assert_eq!(
        SqlType::Nullable(Box::new(SqlType::Array(Box::new(SqlType::DateTime)))).to_string(),
        "Nullable(Array(DateTime))"
    );
    assert!(SqlType::Int8 != SqlType::UInt8);
    assert!(SqlType::Array(Box::new(SqlType::Int8)) == SqlType::Array(Box::new(SqlType::Int8)));
}

#[test]
fn equality_of_plain_values() {
    assert!(ValueRef::UInt8(1) == ValueRef::UInt8(1));
    assert!(ValueRef::UInt8(1) != ValueRef::UInt8(2));
    assert!(ValueRef::UInt8(1) != ValueRef::UInt16(1));
    assert!(ValueRef::String(b"a") == ValueRef::String(b"a"));
    assert!(ValueRef::String(b"a") != ValueRef::String(b"ab"));
}

#[test]
fn equality_of_floats_is_ieee() {
    let nan = ValueRef::Float32(f32::NAN.to_bits());
    assert!(nan != ValueRef::Float32(f32::NAN.to_bits()));
    assert!(ValueRef::Float32(0.0f32.to_bits()) == ValueRef::Float32((-0.0f32).to_bits()));
    assert!(ValueRef::Float64(1.5f64.to_bits()) == ValueRef::Float64(1.5f64.to_bits()));
    assert!(ValueRef::Float64(f64::NAN.to_bits()) != ValueRef::Float64(f64::NAN.to_bits()));
}

#[test]
fn addresses_and_uuids_are_never_equal() {
    assert!(ValueRef::Ipv4([1, 2, 3, 4]) != ValueRef::Ipv4([1, 2, 3, 4]));
    assert!(ValueRef::Ipv6([1; 16]) != ValueRef::Ipv6([1; 16]));
    assert!(ValueRef::Uuid([7; 16]) != ValueRef::Uuid([7; 16]));
}

#[test]
fn dates_compare_by_local_date() {
    // Midnight UTC of day 0 is still 31 December 1969 in New York.
    assert!(ValueRef::Date(0, Tz::UTC) == ValueRef::Date(0, Tz::Zulu));
    assert!(ValueRef::Date(0, Tz::UTC) != ValueRef::Date(0, Tz::America__New_York));
    assert!(ValueRef::Date(1, Tz::UTC) != ValueRef::Date(0, Tz::UTC));
}

#[test]
fn date_times_compare_by_instant() {
    assert!(ValueRef::DateTime(0, Tz::UTC) == ValueRef::DateTime(0, Tz::America__New_York));
    assert!(ValueRef::DateTime(1, Tz::UTC) != ValueRef::DateTime(0, Tz::UTC));
}

#[test]
fn decimals_compare_by_number() {
    assert!(ValueRef::Decimal(Decimal::new(2, 1)) == ValueRef::Decimal(Decimal::new(20, 2)));
    assert!(ValueRef::Decimal(Decimal::new(2, 1)) != ValueRef::Decimal(Decimal::new(21, 2)));
    assert!(Decimal::new(-5, 0) == Decimal::new(-500, 2));
}

#[test]
fn nullables_and_arrays_compare_structurally() {
    let null_u8 = ValueRef::Nullable(Either::Left(SqlType::UInt8));
    let null_i8 = ValueRef::Nullable(Either::Left(SqlType::Int8));
    let some = ValueRef::Nullable(Either::Right(Box::new(ValueRef::UInt8(3))));
    assert!(null_u8 == ValueRef::Nullable(Either::Left(SqlType::UInt8)));
    assert!(null_u8 != null_i8);
    assert!(null_u8 != some);
    assert!(some == ValueRef::Nullable(Either::Right(Box::new(ValueRef::UInt8(3)))));
    assert!(int32_array() == int32_array());
    assert!(int32_array() != ValueRef::Array(SqlType::Int64, Arc::new(vec![ValueRef::Int32(1), ValueRef::Int32(2), ValueRef::Int32(3)])));
    assert!(int32_array() != ValueRef::Array(SqlType::Int32, Arc::new(vec![ValueRef::Int32(1), ValueRef::Int32(2)])));
    assert!(int32_array() != ValueRef::Array(SqlType::Int32, Arc::new(vec![ValueRef::Int32(1), ValueRef::Int32(5), ValueRef::Int32(3)])));
}

#[test]
fn equality_is_symmetric_on_examples() {
    let values = vec![
        ValueRef::Date(0, Tz::UTC),
        ValueRef::Date(0, Tz::America__New_York),
        ValueRef::Decimal(Decimal::new(2, 1)),
        ValueRef::Decimal(Decimal::new(20, 2)),
        ValueRef::Float32(0.0f32.to_bits()),
        ValueRef::Float32((-0.0f32).to_bits()),
        int32_array(),
    ];
    for a in &values {
        for b in &values {
            assert_eq!(a == b, b == a);
        }
    }
}

#[test]
fn text_of_numbers_and_decimals() {
    assert_eq!(render(&ValueRef::Int8(-128), false), "-128");
    assert_eq!(render(&ValueRef::Int64(i64::MIN), false), "-9223372036854775808");
    assert_eq!(render(&ValueRef::UInt64(u64::MAX), false), "18446744073709551615");
    assert_eq!(render(&ValueRef::UInt8(0), false), "0");
    assert_eq!(render(&ValueRef::Decimal(Decimal::new(-5, 2)), false), "-0.05");
    assert_eq!(render(&ValueRef::Decimal(Decimal::new(12345, 0)), false), "12345");
    assert_eq!(render(&ValueRef::Decimal(Decimal::new(12345, 3)), false), "12.345");
}

#[test]
fn text_of_addresses_and_uuids() {
    assert_eq!(render(&ValueRef::Ipv4([192, 168, 0, 1]), false), "192.168.0.1");
    let mut v6 = [0u8; 16];
    v6[15] = 1;
    match ValueRef::Ipv6(v6).display_fragments(false).as_slice() {
        [Fragment::Ipv6(a)] => assert_eq!(*a, v6),
        other => panic!("unexpected fragments {:?}", other),
    }
    let uuid = [
        0x67, 0xe5, 0x50, 0x44, 0x10, 0xb1, 0x42, 0x6f, 0x92, 0x47, 0xbb, 0x68, 0x0e, 0x5f, 0xe0,
        0xc8,
    ];
    assert_eq!(render(&ValueRef::Uuid(uuid), false), "67e55044-10b1-426f-9247-bb680e5fe0c8");
}

#[test]
fn text_of_nested_values_uses_the_plain_form() {
    let dates = ValueRef::Array(SqlType::Date, Arc::new(vec![ValueRef::Date(0, Tz::Zulu), ValueRef::Date(1, Tz::Zulu)]));
    assert_eq!(render(&dates, true), "[1970-01-01, 1970-01-02]");
    let some_date = ValueRef::Nullable(Either::Right(Box::new(ValueRef::Date(0, Tz::Zulu))));
    assert_eq!(render(&some_date, true), "1970-01-01");
    let empty = ValueRef::Array(SqlType::UInt8, Arc::new(vec![]));
    assert_eq!(render(&empty, false), "[]");
    assert_eq!(render(&ValueRef::String(&[]), false), "");
}

#[test]
fn text_of_dates_in_other_zones() {
    assert_eq!(render(&ValueRef::Date(0, Tz::America__New_York), false), "1969-12-31");
    assert_eq!(render(&ValueRef::DateTime(3600, Tz::Europe__Berlin), false), "1970-01-01 02:00:00");
}

#[test]
fn round_trip_through_owned_values() {
    let original = ValueRef::Array(
        SqlType::Nullable(Box::new(SqlType::String)),
        Arc::new(vec![
            ValueRef::Nullable(Either::Left(SqlType::String)),
            ValueRef::Nullable(Either::Right(Box::new(ValueRef::String(b"x")))),
        ]),
    );
    let owned = Value::from_ref(&original);
    assert_eq!(
        owned,
        Value::Array(
            SqlType::Nullable(Box::new(SqlType::String)),
            Arc::new(vec![
                Value::Nullable(Either::Left(SqlType::String)),
                Value::Nullable(Either::Right(Box::new(Value::String(Arc::new(b"x".to_vec()))))),
            ]),
        )
    );
    let back = ValueRef::from_value(&owned);
    assert!(back == original);
    assert_eq!(back.sql_type(), original.sql_type());
    assert_eq!(render(&back, false), "[NULL, x]");
    let copy = original.clone();
    assert!(copy == original);
}

#[test]
fn numbers_convert_both_ways() {
    assert_eq!(ValueRef::from(7u8).to_u8(), 7);
    assert_eq!(ValueRef::from(-7i16).to_i16(), -7);
    assert_eq!(ValueRef::from(70000u32).to_u32(), 70000);
    assert_eq!(ValueRef::from(-1i64).to_i64(), -1);
    assert_eq!(ValueRef::from(5u64).sql_type(), SqlType::UInt64);
    assert_eq!(ValueRef::from(5i8).sql_type(), SqlType::Int8);
}

#[test]
fn equal_values_share_a_type_unless_decimal_scales_differ() {
    let a = ValueRef::Nullable(Either::Right(Box::new(ValueRef::Int16(4))));
    let b = ValueRef::Nullable(Either::Right(Box::new(ValueRef::Int16(4))));
    assert!(a == b);
    assert_eq!(a.sql_type(), b.sql_type());
    let x = ValueRef::Decimal(Decimal::new(2, 1));
    let y = ValueRef::Decimal(Decimal::new(20, 2));
    assert!(x == y);
    assert_eq!(x.sql_type(), SqlType::Decimal(18, 1));
    assert_eq!(y.sql_type(), SqlType::Decimal(18, 2));
}
