//! A value of one of two types.

use vstd::prelude::*;

verus! {

/// Either a `Left` or a `Right` value; a nullable column value is
/// `Left(type)` when it is null and `Right(value)` when it is not.
#[derive(Debug, PartialEq)]
pub enum Either<L, R> {
    Left(L),
    Right(R),
}

} // verus!
