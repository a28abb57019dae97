//! Typed extraction of values from HTTP request headers.
//!
//! A [`Schema`](schema::Schema) describes, per field of a composite result,
//! which header to read, whether it is required, and how to parse its text.
//! Resolving a schema against an [`http::HeaderMap`] yields either every
//! field's parsed value or the first classified failure in declaration
//! order, as a [`HeaderError`].

pub mod error;
pub mod extractors;
pub mod headers;
pub mod resolve;
pub mod schema;
pub mod text;
pub mod value;

pub use error::HeaderError;
pub use extractors::{Optional, Required};
pub use schema::{HeaderBinding, OptionalPolicy, Schema};
pub use value::{Parser, Value};
