//! The error taxonomy of header extraction.
//!
//! Exactly three things can go wrong when one binding is resolved, and each
//! carries the offending header's name: the header can be absent
//! ([`HeaderError::Missing`]), present but not decodable as printable ASCII
//! text ([`HeaderError::InvalidValue`]), or decodable but rejected by the
//! field's typed parser ([`HeaderError::Parse`]).

use vstd::prelude::*;
use vstd::string::StringExecFns;

verus! {

/// A classified failure of header extraction, carrying the name of the
/// offending header.
#[derive(Debug, Clone)]
pub enum HeaderError {
    /// A required header was absent from the map.
    Missing(String),
    /// The header was present but its bytes are not printable ASCII text.
    InvalidValue(String),
    /// The header's text was rejected by the field's typed parser.
    Parse(String),
}

/// The mathematical shadow of [`HeaderError`]: the same three kinds over a
/// sequence of characters.
pub enum ErrorSpec {
    Missing(Seq<char>),
    InvalidValue(Seq<char>),
    Parse(Seq<char>),
}

impl ErrorSpec {
    /// The offending header's name.
    pub open spec fn name(self) -> Seq<char> {
        match self {
            ErrorSpec::Missing(n) => n,
            ErrorSpec::InvalidValue(n) => n,
            ErrorSpec::Parse(n) => n,
        }
    }

    /// The machine-readable code of this kind of error.
    pub open spec fn code(self) -> Seq<char> {
        match self {
            ErrorSpec::Missing(_) => "missing_header"@,
            ErrorSpec::InvalidValue(_) => "invalid_header_value"@,
            ErrorSpec::Parse(_) => "header_parse_error"@,
        }
    }

    /// The human-readable message of this error: a fixed phrase per kind,
    /// with the offending header's name in backticks.
    pub open spec fn message(self) -> Seq<char> {
        match self {
            ErrorSpec::Missing(n) => "Missing required header: `"@ + n + "`"@,
            ErrorSpec::InvalidValue(n) => "Invalid header value (not valid ASCII): `"@ + n + "`"@,
            ErrorSpec::Parse(n) => "Failed to parse header value: `"@ + n + "`"@,
        }
    }
}

impl View for HeaderError {
    type V = ErrorSpec;

    open spec fn view(&self) -> ErrorSpec {
        match self {
            HeaderError::Missing(n) => ErrorSpec::Missing(n@),
            HeaderError::InvalidValue(n) => ErrorSpec::InvalidValue(n@),
            HeaderError::Parse(n) => ErrorSpec::Parse(n@),
        }
    }
}

impl HeaderError {
    /// The name of the offending header.
    pub fn name(&self) -> (r: &String)
        ensures
            r@ == self@.name(),
    {
        match self {
            HeaderError::Missing(n) => n,
            HeaderError::InvalidValue(n) => n,
            HeaderError::Parse(n) => n,
        }
    }

    /// The machine-readable error code, as it appears in a rejection payload.
    pub fn code(&self) -> (r: &'static str)
        ensures
            r@ == self@.code(),
    {
        match self {
            HeaderError::Missing(_) => "missing_header",
            HeaderError::InvalidValue(_) => "invalid_header_value",
            HeaderError::Parse(_) => "header_parse_error",
        }
    }

    /// The human-readable message, naming the offending header.
    pub fn message(&self) -> (r: String)
        ensures
            r@ == self@.message(),
    {
        let prefix: &'static str = match self {
            HeaderError::Missing(_) => "Missing required header: `",
            HeaderError::InvalidValue(_) => "Invalid header value (not valid ASCII): `",
            HeaderError::Parse(_) => "Failed to parse header value: `",
        };
        let mut m = prefix.to_owned();
        m.append(self.name().as_str());
        m.append("`");
        m
    }
}

} // verus!
