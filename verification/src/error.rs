//! Errors of reading a column value as a Rust type.

use vstd::prelude::*;
use core::str::Utf8Error;
use crate::sql_type::{SqlType, sql_name};

verus! {

/// A value that cannot be read as the Rust type asked for.
#[derive(Debug)]
pub enum FromSqlError {
    /// The value's SQL type (`src`) cannot be read as the Rust type `dst`.
    InvalidType { src: String, dst: String },
}

/// The errors of this library.
#[derive(Debug)]
pub enum Error {
    FromSql(FromSqlError),
    /// A string value whose bytes are not UTF-8.
    Utf8(Utf8Error),
}

/// Whether `r` is the error that a value of type `t` cannot be read as the
/// Rust type named `dst`.
pub open spec fn is_invalid_type<T>(r: Result<T, Error>, t: SqlType, dst: Seq<char>) -> bool {
    r matches Err(Error::FromSql(FromSqlError::InvalidType { src, dst: d })) && src@ == sql_name(t)
        && d@ == dst
}

} // verus!
