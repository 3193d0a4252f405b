//! Borrowed column values of a ClickHouse result block, their SQL types,
//! equality, textual rendering and conversion to owned values.

pub mod text;
pub mod sql_type;
pub mod external;
pub mod decimal;
pub mod either;
pub mod datum;
pub mod value;
pub mod value_ref;
pub mod error;
pub mod display;
pub mod convert;
pub mod laws;

pub use decimal::Decimal;
pub use display::Fragment;
pub use either::Either;
pub use error::{Error, FromSqlError};
pub use sql_type::SqlType;
pub use value::Value;
pub use value_ref::ValueRef;
