//! An embedded query session: code that runs inside a database engine
//! submits parameterized SQL to the engine's own executor and reads the
//! answer back as typed, nullable values.
//!
//! The engine itself stays outside. What goes to it leaves this library as a
//! [`HostRequest`], and what it answers comes back as a [`HostOutcome`]; the
//! value codec, the parameter binder, the rules of the session and the row
//! decoder in between are verified.

pub mod binder;
pub mod codec;
pub mod cursor;
pub mod error;
pub mod row;
pub mod session;
pub mod sql;
pub mod statements;
pub mod tag;
pub mod value;

pub use binder::{bind, parameter_for, Argument, BoundParameter};
pub use codec::{decode, encode, EncodedValue};
pub use cursor::ResultCursor;
pub use error::SpiError;
pub use row::{Column, ColumnKey, Row};
pub use session::{connect, HostOutcome, HostRequest, QuerySession};
pub use sql::placeholder_count;
pub use statements::{HostVersion, Statement};
pub use tag::TypeTag;
pub use value::NativeValue;
