//! The trusted boundary around the `http` crate's header map.
//!
//! A request's headers arrive as an [`http::HeaderMap`]: a case-insensitive
//! mapping from header name to (for our purposes) at most one raw byte
//! sequence per name. The map and its values are opaque to verification, so
//! this module names their contents — [`entries`] and [`value_bytes`] — and
//! wraps the two calls the resolver makes, [`get`] and [`to_text`], with
//! contracts over those names. Everything else in the crate is verified
//! against these contracts.

use vstd::prelude::*;

use crate::text::{decodable, decode, lower, valid_header_name};

verus! {

#[verifier::external_type_specification]
#[verifier::external_body]
#[verifier::reject_recursive_types(T)]
pub struct ExHeaderMap<T>(http::HeaderMap<T>);

#[verifier::external_type_specification]
#[verifier::external_body]
pub struct ExHeaderValue(http::HeaderValue);

/// What a header map holds: the raw value stored under each name, keyed by
/// the name in its normalized (ASCII-lowercase) form, which is how the map
/// stores names. Where a name holds several values, its first one.
pub uninterp spec fn entries(m: http::HeaderMap) -> Map<Seq<char>, Seq<u8>>;

/// The raw bytes a single header value holds.
pub uninterp spec fn value_bytes(v: http::HeaderValue) -> Seq<u8>;

/// What a name finds in a map: the entry under the lowercased name, if the
/// name is a well-formed header name at all, else nothing. This is the whole
/// of case-insensitivity and of name validation at lookup time.
pub open spec fn spec_lookup(m: Map<Seq<char>, Seq<u8>>, name: Seq<char>) -> Option<Seq<u8>> {
    if valid_header_name(name) && m.contains_key(lower(name)) {
        Some(m[lower(name)])
    } else {
        None
    }
}

/// Law: lookup is case-insensitive in the name. Two names with the same
/// ASCII-lowercase form find the same entry — `x-user-id`, `X-USER-ID` and
/// `X-User-Id` are one name to the map. (The map's own side of the
/// insensitivity is in the model itself: entries are keyed by the normalized
/// name, however the stored header spells it.)
pub proof fn lemma_lookup_case_insensitive(
    m: Map<Seq<char>, Seq<u8>>,
    n1: Seq<char>,
    n2: Seq<char>,
)
    requires
        lower(n1) == lower(n2),
    ensures
        spec_lookup(m, n1) == spec_lookup(m, n2),
{
    crate::text::lemma_lower_same_validity(n1, n2);
}

/// Relies on `http::HeaderMap::get` with a `&str` key: the key is parsed as
/// a header name — rejecting an empty, over-long, or ill-formed one — and
/// normalized to ASCII lowercase, and the first value stored under the
/// normalized name is returned, `None` where there is none.
#[verifier::external_body]
pub(crate) fn get<'a>(m: &'a http::HeaderMap, name: &str) -> (r: Option<&'a http::HeaderValue>)
    ensures
        match r {
            Some(v) => spec_lookup(entries(*m), name@) == Some(value_bytes(*v)),
            None => spec_lookup(entries(*m), name@) is None,
        },
{
    m.get(name)
}

/// Relies on `http::HeaderValue::to_str`: it returns the value's bytes as
/// text exactly when every byte is printable ASCII or a tab, and refuses the
/// value otherwise.
#[verifier::external_body]
pub(crate) fn to_text<'a>(v: &'a http::HeaderValue) -> (r: Option<&'a str>)
    ensures
        match r {
            Some(s) => decodable(value_bytes(*v)) && s@ == decode(value_bytes(*v)),
            None => !decodable(value_bytes(*v)),
        },
{
    v.to_str().ok()
}

} // verus!
