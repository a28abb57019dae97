//! Wrapper types for single-header extraction.
//!
//! [`Required`] and [`Optional`] wrap one field's extraction outcome: the
//! former holds a value that had to be present, the latter holds what an
//! optional binding found, if anything. For a [`Value`]-typed field each
//! offers a constructor that resolves one binding directly against a header
//! map, which is single-field extraction in the small — a schema of one
//! binding, without the schema.

use vstd::prelude::*;

use crate::error::{ErrorSpec, HeaderError};
use crate::headers::entries;
use crate::resolve::{
    resolve_optional, resolve_required, spec_resolve_optional, spec_resolve_required,
};
use crate::schema::{HeaderBinding, OptionalPolicy};
use crate::value::{Value, ValueSpec};

verus! {

/// A field extracted from a header that had to be present.
#[derive(Debug, Clone)]
pub struct Required<T>(pub T);

/// A field extracted from a header that was allowed to be absent.
#[derive(Debug, Clone)]
pub struct Optional<T>(pub Option<T>);

impl<T> Required<T> {
    /// The extracted value.
    pub fn get(&self) -> (r: &T)
        ensures
            r == self.0,
    {
        &self.0
    }

    /// Unwrap the extracted value.
    pub fn into_inner(self) -> (r: T)
        ensures
            r == self.0,
    {
        self.0
    }

    /// Replace the wrapped value.
    pub fn set(&mut self, v: T)
        ensures
            final(self).0 == v,
    {
        self.0 = v;
    }
}

impl<T> Optional<T> {
    /// The extracted value, if the header was present and accepted.
    pub fn get(&self) -> (r: &Option<T>)
        ensures
            r == self.0,
    {
        &self.0
    }

    /// Unwrap the extraction outcome.
    pub fn into_inner(self) -> (r: Option<T>)
        ensures
            r == self.0,
    {
        self.0
    }

    /// Replace the wrapped outcome.
    pub fn set(&mut self, v: Option<T>)
        ensures
            final(self).0 == v,
    {
        self.0 = v;
    }
}

impl Required<Value> {
    /// Extract one required field from a header map, exactly as
    /// [`spec_resolve_required`] says on the map's contents.
    pub fn from_header_map(map: &http::HeaderMap, binding: &HeaderBinding) -> (r: Result<
        Self,
        HeaderError,
    >)
        ensures
            match r {
                Ok(v) => spec_resolve_required(entries(*map), binding@) == Ok::<
                    ValueSpec,
                    ErrorSpec,
                >(v.0@),
                Err(e) => spec_resolve_required(entries(*map), binding@) == Err::<
                    ValueSpec,
                    ErrorSpec,
                >(e@),
            },
    {
        match resolve_required(map, binding) {
            Ok(v) => Ok(Required(v)),
            Err(e) => Err(e),
        }
    }
}

impl Optional<Value> {
    /// Extract one optional field from a header map under the given policy,
    /// exactly as [`spec_resolve_optional`] says on the map's contents.
    pub fn from_header_map(
        map: &http::HeaderMap,
        binding: &HeaderBinding,
        policy: OptionalPolicy,
    ) -> (r: Result<Self, HeaderError>)
        ensures
            match r {
                Ok(v) => spec_resolve_optional(entries(*map), binding@, policy) == Ok::<
                    Option<ValueSpec>,
                    ErrorSpec,
                >(crate::resolve::field_view(v.0)),
                Err(e) => spec_resolve_optional(entries(*map), binding@, policy) == Err::<
                    Option<ValueSpec>,
                    ErrorSpec,
                >(e@),
            },
    {
        match resolve_optional(map, binding, policy) {
            Ok(o) => Ok(Optional(o)),
            Err(e) => Err(e),
        }
    }
}

} // verus!
