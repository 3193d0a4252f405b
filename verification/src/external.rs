//! The calls into chrono, chrono-tz, uuid and std that the library makes, with
//! the contracts that the rest of the crate relies on. Nothing here is proved:
//! each contract restates what the called code's source or documentation shows.

use vstd::prelude::*;
use vstd::utf8::valid_utf8;
use vstd::string::StringSliceAdditionalSpecFns;
use chrono::{Datelike, TimeZone};
use chrono_tz::Tz;
use core::str::Utf8Error;
use crate::text::hex_byte;

verus! {

/// chrono-tz's time zone: a copyable tag that names one zone of the tz database.
#[verifier::external_type_specification]
#[verifier::external_body]
pub struct ExTz(Tz);

/// std's error for a byte slice that is not UTF-8.
#[verifier::external_type_specification]
#[verifier::external_body]
pub struct ExUtf8Error(Utf8Error);

/// The largest count of seconds since the Unix epoch that a column value can
/// name: the last day that a `Date` column can hold.
pub open spec fn max_column_seconds() -> int {
    65535int * 86400
}

/// The local calendar date (year, month, day) in zone `tz` of the instant
/// `secs` seconds after the Unix epoch.
pub uninterp spec fn local_date_of(secs: i64, tz: Tz) -> (i32, u32, u32);

/// chrono's `%Y-%m-%d` rendering of the local date, in zone `tz`, of the
/// instant `secs` seconds after the Unix epoch.
pub uninterp spec fn date_text_of(secs: i64, tz: Tz) -> Seq<char>;

/// chrono's `Display` of the `Date<Tz>` of that instant: the local date
/// followed by the zone's abbreviation.
pub uninterp spec fn date_with_zone_text_of(secs: i64, tz: Tz) -> Seq<char>;

/// chrono's `%Y-%m-%d %H:%M:%S` rendering of the local time, in zone `tz`, of
/// the instant `secs` seconds after the Unix epoch.
pub uninterp spec fn date_time_text_of(secs: i64, tz: Tz) -> Seq<char>;

/// chrono's RFC 2822 rendering of the local time, in zone `tz`, of the instant
/// `secs` seconds after the Unix epoch.
pub uninterp spec fn rfc2822_text_of(secs: i64, tz: Tz) -> Seq<char>;

/// The lower-case hexadecimal digits of a run of bytes.
pub open spec fn hex_bytes(s: Seq<u8>) -> Seq<char>
    decreases s.len(),
{
    if s.len() == 0 {
        Seq::empty()
    } else {
        hex_bytes(s.drop_last()) + hex_byte(s.last())
    }
}

/// The hyphenated form of a UUID: lower-case hex in groups of 8, 4, 4, 4 and
/// 12 digits.
pub open spec fn uuid_hyphenated(b: Seq<u8>) -> Seq<char> {
    hex_bytes(b.subrange(0, 4)) + seq!['-'] + hex_bytes(b.subrange(4, 6)) + seq!['-']
        + hex_bytes(b.subrange(6, 8)) + seq!['-'] + hex_bytes(b.subrange(8, 10)) + seq!['-']
        + hex_bytes(b.subrange(10, 16))
}

/// `chrono::TimeZone::timestamp` in zone `tz`, then `DateTime::date` and
/// `Date::naive_local`: the local calendar date of the instant. chrono's
/// `Date<Tz>` compares exactly these local dates. The result is named, not
/// stated: it depends on the tz database compiled into chrono-tz.
/// `timestamp` panics outside chrono's range, which holds every instant
/// allowed here.
#[verifier::external_body]
#[allow(deprecated)]
pub(crate) fn local_date(secs: i64, tz: Tz) -> (r: (i32, u32, u32))
    requires
        0 <= secs <= max_column_seconds(),
    ensures
        r == local_date_of(secs, tz),
{
    let d = tz.timestamp(secs, 0).date().naive_local();
    (d.year(), d.month(), d.day())
}

/// chrono's `==` on two `DateTime`s made by `TimeZone::timestamp`. chrono
/// compares the UTC instants and ignores the zones, so two such values are
/// equal exactly when their second counts are.
#[verifier::external_body]
#[allow(deprecated)]
pub(crate) fn same_instant(a: i64, tz_a: Tz, b: i64, tz_b: Tz) -> (r: bool)
    requires
        0 <= a <= max_column_seconds(),
        0 <= b <= max_column_seconds(),
    ensures
        r == (a == b),
{
    tz_a.timestamp(a, 0) == tz_b.timestamp(b, 0)
}

/// chrono's `format("%Y-%m-%d")` of the `Date<Tz>` of an instant.
#[verifier::external_body]
#[allow(deprecated)]
pub(crate) fn date_text(secs: i64, tz: Tz) -> (r: String)
    requires
        0 <= secs <= max_column_seconds(),
    ensures
        r@ == date_text_of(secs, tz),
{
    tz.timestamp(secs, 0).date().format("%Y-%m-%d").to_string()
}

/// chrono's `Display` of the `Date<Tz>` of an instant (the alternate form of
/// a date column).
#[verifier::external_body]
#[allow(deprecated)]
pub(crate) fn date_with_zone_text(secs: i64, tz: Tz) -> (r: String)
    requires
        0 <= secs <= max_column_seconds(),
    ensures
        r@ == date_with_zone_text_of(secs, tz),
{
    tz.timestamp(secs, 0).date().to_string()
}

/// chrono's `format("%Y-%m-%d %H:%M:%S")` of the `DateTime<Tz>` of an instant.
#[verifier::external_body]
#[allow(deprecated)]
pub(crate) fn date_time_text(secs: i64, tz: Tz) -> (r: String)
    requires
        0 <= secs <= max_column_seconds(),
    ensures
        r@ == date_time_text_of(secs, tz),
{
    tz.timestamp(secs, 0).format("%Y-%m-%d %H:%M:%S").to_string()
}

/// chrono's `DateTime::to_rfc2822` of the `DateTime<Tz>` of an instant.
#[verifier::external_body]
#[allow(deprecated)]
pub(crate) fn rfc2822_text(secs: i64, tz: Tz) -> (r: String)
    requires
        0 <= secs <= max_column_seconds(),
    ensures
        r@ == rfc2822_text_of(secs, tz),
{
    tz.timestamp(secs, 0).to_rfc2822()
}

/// uuid's `Uuid::from_slice` then its `Display`. `from_slice` fails only on
/// a slice whose length is not 16, so the error arm is never taken here;
/// `Display` writes the lower-case hyphenated form.
#[verifier::external_body]
pub(crate) fn uuid_text(bytes: &[u8; 16]) -> (r: String)
    ensures
        r@ == uuid_hyphenated(bytes@),
{
    match uuid::Uuid::from_slice(bytes) {
        Ok(u) => u.to_string(),
        Err(e) => e.to_string(),
    }
}

/// std's `str::from_utf8`: succeeds exactly on valid UTF-8, and the string
/// it returns is made of the given bytes. What the error holds is not stated.
#[verifier::external_body]
pub(crate) fn str_from_utf8<'a>(v: &'a [u8]) -> (r: Result<&'a str, Utf8Error>)
    ensures
        r is Ok <==> valid_utf8(v@),
        r matches Ok(s) ==> s.spec_bytes() == v@,
{
    core::str::from_utf8(v)
}

} // verus!
