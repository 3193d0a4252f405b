# value_ref

Borrowed column values of a ClickHouse result block (`ValueRef`), their SQL
types (`SqlType`), equality, text, and conversion to and from owned values
(`Value`), verified with Verus.

- `src/datum.rs` holds the model: every value is viewed as a `Datum`, and the
  SQL type, equality and text of a value are spec functions over it.
- `src/value_ref.rs`, `src/value.rs`, `src/display.rs`, `src/convert.rs` hold
  the executable code, each function proved against those spec functions.
- `src/external.rs` holds the calls into chrono, chrono-tz, uuid and
  `str::from_utf8`, with the contracts that the proofs rely on.
- `src/laws.rs` proves properties of all values (symmetry and reflexivity of
  equality, types of equal values, round trips).
- `app/` renders floats and IPv6 addresses, implements `Display`, and converts
  to Rust floats and chrono dates.
