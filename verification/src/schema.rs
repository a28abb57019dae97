//! Schemas: what to extract, field by field.
//!
//! A [`HeaderBinding`] describes one field: the header name to look up, a
//! requiredness flag, and the [`Parser`] for the field's type. A [`Schema`]
//! is an ordered sequence of bindings together with one
//! [`OptionalPolicy`] that governs every optional binding in it. Binding
//! names are validated non-empty when the binding is made — construction
//! fails otherwise — and a schema is immutable once built, shared read-only
//! by every extraction call.

use vstd::prelude::*;

use crate::value::Parser;

verus! {

/// How an optional binding treats a header that is present but malformed.
///
/// Absence of an optional header is never an error; the two policies differ
/// only on a header that is present and then fails to decode or to parse.
#[derive(Debug, Clone, Copy, PartialEq, Eq, Structural)]
pub enum OptionalPolicy {
    /// Optionality suppresses absence alone: a present header that fails to
    /// decode or to parse is reported as the corresponding error.
    Strict,
    /// Any failure of an optional binding — absence, an undecodable value,
    /// or an unparseable one — is absorbed into an empty result.
    Lenient,
}

/// One field of a schema: a header name, whether the header is required, and
/// the parser for the field's type.
#[derive(Debug, Clone)]
pub struct HeaderBinding {
    name: String,
    required: bool,
    parser: Parser,
}

/// The mathematical shadow of [`HeaderBinding`].
pub struct BindingSpec {
    pub name: Seq<char>,
    pub required: bool,
    pub parser: Parser,
}

impl View for HeaderBinding {
    type V = BindingSpec;

    closed spec fn view(&self) -> BindingSpec {
        BindingSpec { name: self.name@, required: self.required, parser: self.parser }
    }
}

impl HeaderBinding {
    /// A binding is well-formed when its name is non-empty; every binding
    /// that [`HeaderBinding::new`] hands out is.
    pub open spec fn wf(self) -> bool {
        self@.name.len() > 0
    }

    /// Make a binding, validating the header name: an empty name is refused
    /// here, at schema-construction time, and never reaches a lookup.
    pub fn new(name: String, required: bool, parser: Parser) -> (r: Option<HeaderBinding>)
        ensures
            match r {
                Some(b) => name@.len() > 0 && b@ == (BindingSpec {
                    name: name@,
                    required,
                    parser,
                }) && b.wf(),
                None => name@.len() == 0,
            },
    {
        if name.as_str().is_empty() {
            None
        } else {
            Some(HeaderBinding { name, required, parser })
        }
    }

    /// The header name this binding looks up.
    pub fn name(&self) -> (r: &String)
        ensures
            r@ == self@.name,
    {
        &self.name
    }

    /// Whether absence of the header is an error.
    pub fn required(&self) -> (r: bool)
        ensures
            r == self@.required,
    {
        self.required
    }

    /// The parser for the field's type.
    pub fn parser(&self) -> (r: Parser)
        ensures
            r == self@.parser,
    {
        self.parser
    }
}

/// An ordered sequence of bindings for one composite value, with the policy
/// its optional bindings follow. Order matters only for which error is
/// reported: the first failing required binding in declaration order wins.
#[derive(Debug, Clone)]
pub struct Schema {
    bindings: Vec<HeaderBinding>,
    policy: OptionalPolicy,
}

/// The mathematical shadow of [`Schema`].
pub struct SchemaSpec {
    pub bindings: Seq<BindingSpec>,
    pub policy: OptionalPolicy,
}

impl View for Schema {
    type V = SchemaSpec;

    closed spec fn view(&self) -> SchemaSpec {
        SchemaSpec {
            bindings: self.bindings@.map_values(|b: HeaderBinding| b@),
            policy: self.policy,
        }
    }
}

impl Schema {
    /// Every binding of the schema is well-formed; every schema built from
    /// [`Schema::new`] and [`Schema::push`] stays so.
    pub open spec fn wf(self) -> bool {
        forall|i: int| 0 <= i < self@.bindings.len() ==> (#[trigger] self@.bindings[i]).name.len() > 0
    }

    /// An empty schema under the given optional-field policy.
    pub fn new(policy: OptionalPolicy) -> (r: Schema)
        ensures
            r@.bindings.len() == 0,
            r@.policy == policy,
            r.wf(),
    {
        Schema { bindings: Vec::new(), policy }
    }

    /// Append one binding; bindings are resolved in the order they were
    /// pushed.
    pub fn push(&mut self, b: HeaderBinding)
        requires
            old(self).wf(),
            b.wf(),
        ensures
            final(self)@.bindings =~= old(self)@.bindings.push(b@),
            final(self)@.policy == old(self)@.policy,
            final(self).wf(),
    {
        self.bindings.push(b);
        proof {
            assert(self@.bindings =~= old(self)@.bindings.push(b@));
        }
    }

    /// How many bindings the schema holds.
    pub fn len(&self) -> (r: usize)
        ensures
            r == self@.bindings.len(),
    {
        self.bindings.len()
    }

    /// The binding at position `i` in declaration order.
    pub fn binding(&self, i: usize) -> (r: &HeaderBinding)
        requires
            i < self@.bindings.len(),
        ensures
            r@ == self@.bindings[i as int],
    {
        &self.bindings[i]
    }

    /// The policy the schema's optional bindings follow.
    pub fn policy(&self) -> (r: OptionalPolicy)
        ensures
            r == self@.policy,
    {
        self.policy
    }
}

} // verus!
