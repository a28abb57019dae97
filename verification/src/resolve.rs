//! The field resolver and the schema aggregator.
//!
//! Resolving one binding against a header map goes lookup → decode → parse,
//! and each step that fails classifies the failure: an absent header is
//! [`Missing`](crate::error::HeaderError::Missing), a present one whose bytes
//! are not printable text is
//! [`InvalidValue`](crate::error::HeaderError::InvalidValue), and decodable
//! text the field's parser refuses is
//! [`Parse`](crate::error::HeaderError::Parse). A whole schema resolves its
//! bindings in declaration order and reports the first short-circuiting
//! failure; what a failure of an *optional* binding means is the schema's
//! [`OptionalPolicy`](crate::schema::OptionalPolicy).
//!
//! Every executable function here returns exactly what the spec-level model
//! (`spec_resolve_required`, `spec_resolve_optional`, `spec_resolve_schema`)
//! says on the map's contents — so two calls on the same map and schema
//! return the same outcome, and the laws proved at the bottom of this module
//! carry over to the executable resolvers.

use vstd::prelude::*;

use crate::error::{ErrorSpec, HeaderError};
use crate::headers::{entries, get, spec_lookup, to_text};
use crate::schema::{BindingSpec, HeaderBinding, OptionalPolicy, Schema};
use crate::text::{decodable, decode};
use crate::value::{parse_value, spec_parse, Value, ValueSpec};

verus! {

/// What resolving one required binding yields: the parsed value, or the
/// first classified failure along lookup → decode → parse.
pub open spec fn spec_resolve_required(m: Map<Seq<char>, Seq<u8>>, b: BindingSpec) -> Result<
    ValueSpec,
    ErrorSpec,
> {
    match spec_lookup(m, b.name) {
        None => Err(ErrorSpec::Missing(b.name)),
        Some(bs) => if !decodable(bs) {
            Err(ErrorSpec::InvalidValue(b.name))
        } else {
            match spec_parse(b.parser, decode(bs)) {
                None => Err(ErrorSpec::Parse(b.name)),
                Some(v) => Ok(v),
            }
        },
    }
}

/// What resolving one optional binding yields. Absence is never an error;
/// under [`OptionalPolicy::Strict`] a present but malformed value keeps its
/// classification, under [`OptionalPolicy::Lenient`] every failure is
/// absorbed into an empty result.
pub open spec fn spec_resolve_optional(
    m: Map<Seq<char>, Seq<u8>>,
    b: BindingSpec,
    policy: OptionalPolicy,
) -> Result<Option<ValueSpec>, ErrorSpec> {
    match spec_lookup(m, b.name) {
        None => Ok(None),
        Some(bs) => if !decodable(bs) {
            match policy {
                OptionalPolicy::Strict => Err(ErrorSpec::InvalidValue(b.name)),
                OptionalPolicy::Lenient => Ok(None),
            }
        } else {
            match spec_parse(b.parser, decode(bs)) {
                None => match policy {
                    OptionalPolicy::Strict => Err(ErrorSpec::Parse(b.name)),
                    OptionalPolicy::Lenient => Ok(None),
                },
                Some(v) => Ok(Some(v)),
            }
        },
    }
}

/// What one binding of a schema contributes: a required binding's value is
/// always present on success, an optional one's may be absent.
pub open spec fn spec_resolve_binding(
    m: Map<Seq<char>, Seq<u8>>,
    b: BindingSpec,
    policy: OptionalPolicy,
) -> Result<Option<ValueSpec>, ErrorSpec> {
    if b.required {
        match spec_resolve_required(m, b) {
            Ok(v) => Ok(Some(v)),
            Err(e) => Err(e),
        }
    } else {
        spec_resolve_optional(m, b, policy)
    }
}

/// What a whole schema resolves to: each binding's contribution in
/// declaration order, or the error of the first binding that
/// short-circuits — an earlier binding's failure always wins.
pub open spec fn spec_resolve_schema(
    m: Map<Seq<char>, Seq<u8>>,
    bs: Seq<BindingSpec>,
    policy: OptionalPolicy,
) -> Result<Seq<Option<ValueSpec>>, ErrorSpec>
    decreases bs.len(),
{
    if bs.len() == 0 {
        Ok(Seq::empty())
    } else {
        match spec_resolve_schema(m, bs.drop_last(), policy) {
            Err(e) => Err(e),
            Ok(pre) => match spec_resolve_binding(m, bs.last(), policy) {
                Err(e) => Err(e),
                Ok(v) => Ok(pre.push(v)),
            },
        }
    }
}

/// Resolve one required binding against a header map, exactly as
/// [`spec_resolve_required`] says on the map's contents.
pub fn resolve_required(map: &http::HeaderMap, binding: &HeaderBinding) -> (r: Result<
    Value,
    HeaderError,
>)
    ensures
        match r {
            Ok(v) => spec_resolve_required(entries(*map), binding@) == Ok::<
                ValueSpec,
                ErrorSpec,
            >(v@),
            Err(e) => spec_resolve_required(entries(*map), binding@) == Err::<
                ValueSpec,
                ErrorSpec,
            >(e@),
        },
{
    match get(map, binding.name().as_str()) {
        None => Err(HeaderError::Missing(binding.name().clone())),
        Some(raw) => match to_text(raw) {
            None => Err(HeaderError::InvalidValue(binding.name().clone())),
            Some(text) => match parse_value(binding.parser(), text) {
                None => Err(HeaderError::Parse(binding.name().clone())),
                Some(v) => Ok(v),
            },
        },
    }
}

/// Resolve one optional binding against a header map under the given
/// policy, exactly as [`spec_resolve_optional`] says on the map's contents.
pub fn resolve_optional(
    map: &http::HeaderMap,
    binding: &HeaderBinding,
    policy: OptionalPolicy,
) -> (r: Result<Option<Value>, HeaderError>)
    ensures
        match r {
            Ok(Some(v)) => spec_resolve_optional(entries(*map), binding@, policy) == Ok::<
                Option<ValueSpec>,
                ErrorSpec,
            >(Some(v@)),
            Ok(None) => spec_resolve_optional(entries(*map), binding@, policy) == Ok::<
                Option<ValueSpec>,
                ErrorSpec,
            >(None),
            Err(e) => spec_resolve_optional(entries(*map), binding@, policy) == Err::<
                Option<ValueSpec>,
                ErrorSpec,
            >(e@),
        },
{
    match get(map, binding.name().as_str()) {
        None => Ok(None),
        Some(raw) => match to_text(raw) {
            None => match policy {
                OptionalPolicy::Strict => Err(HeaderError::InvalidValue(binding.name().clone())),
                OptionalPolicy::Lenient => Ok(None),
            },
            Some(text) => match parse_value(binding.parser(), text) {
                None => match policy {
                    OptionalPolicy::Strict => Err(HeaderError::Parse(binding.name().clone())),
                    OptionalPolicy::Lenient => Ok(None),
                },
                Some(v) => Ok(Some(v)),
            },
        },
    }
}

/// The mathematical shadow of one resolved field.
pub open spec fn field_view(o: Option<Value>) -> Option<ValueSpec> {
    match o {
        Some(v) => Some(v@),
        None => None,
    }
}

/// The mathematical shadow of a resolved composite: each field's value in
/// binding order.
pub open spec fn fields_view(vs: Seq<Option<Value>>) -> Seq<Option<ValueSpec>> {
    vs.map_values(|o: Option<Value>| field_view(o))
}

/// Once a prefix of the schema has failed, the whole schema fails the same
/// way: the first error in declaration order is the outcome, whatever comes
/// after it.
proof fn lemma_error_persists(
    m: Map<Seq<char>, Seq<u8>>,
    bs: Seq<BindingSpec>,
    policy: OptionalPolicy,
    k: int,
)
    requires
        0 <= k <= bs.len(),
        spec_resolve_schema(m, bs.take(k), policy) is Err,
    ensures
        spec_resolve_schema(m, bs, policy) == spec_resolve_schema(m, bs.take(k), policy),
    decreases bs.len() - k,
{
    if k == bs.len() {
        assert(bs.take(k) =~= bs);
    } else {
        assert(bs.take(k + 1).drop_last() =~= bs.take(k));
        lemma_error_persists(m, bs, policy, k + 1);
    }
}

/// Resolve a whole schema against a header map: every field's value in
/// binding order, or the first short-circuiting failure, exactly as
/// [`spec_resolve_schema`] says on the map's contents.
pub fn resolve_schema(map: &http::HeaderMap, schema: &Schema) -> (r: Result<
    Vec<Option<Value>>,
    HeaderError,
>)
    ensures
        match r {
            Ok(fields) => spec_resolve_schema(entries(*map), schema@.bindings, schema@.policy)
                == Ok::<Seq<Option<ValueSpec>>, ErrorSpec>(fields_view(fields@)),
            Err(e) => spec_resolve_schema(entries(*map), schema@.bindings, schema@.policy) == Err::<
                Seq<Option<ValueSpec>>,
                ErrorSpec,
            >(e@),
        },
{
    let ghost m = entries(*map);
    let ghost all = schema@.bindings;
    let ghost policy = schema@.policy;
    let n = schema.len();
    let mut fields: Vec<Option<Value>> = Vec::new();
    proof {
        assert(all.take(0) =~= Seq::<BindingSpec>::empty());
        assert(fields_view(fields@) =~= Seq::<Option<ValueSpec>>::empty());
    }
    let mut i: usize = 0;
    while i < n
        invariant
            0 <= i <= n == all.len(),
            m == entries(*map),
            all == schema@.bindings,
            policy == schema@.policy,
            fields@.len() == i,
            spec_resolve_schema(m, all.take(i as int), policy) == Ok::<
                Seq<Option<ValueSpec>>,
                ErrorSpec,
            >(fields_view(fields@)),
        decreases n - i,
    {
        let binding = schema.binding(i);
        proof {
            assert(all.take(i as int + 1).drop_last() =~= all.take(i as int));
            assert(all.take(i as int + 1).last() == all[i as int]);
        }
        let outcome: Option<Value> = if binding.required() {
            match resolve_required(map, binding) {
                Ok(v) => Some(v),
                Err(e) => {
                    proof {
                        lemma_error_persists(m, all, policy, i as int + 1);
                    }
                    return Err(e);
                },
            }
        } else {
            match resolve_optional(map, binding, schema.policy()) {
                Ok(o) => o,
                Err(e) => {
                    proof {
                        lemma_error_persists(m, all, policy, i as int + 1);
                    }
                    return Err(e);
                },
            }
        };
        let ghost pre_fields = fields@;
        let ghost ov = field_view(outcome);
        proof {
            assert(spec_resolve_binding(m, all[i as int], policy) == Ok::<
                Option<ValueSpec>,
                ErrorSpec,
            >(ov));
        }
        fields.push(outcome);
        proof {
            assert(fields_view(fields@) =~= fields_view(pre_fields).push(ov));
            assert(spec_resolve_schema(m, all.take(i as int + 1), policy) == Ok::<
                Seq<Option<ValueSpec>>,
                ErrorSpec,
            >(fields_view(fields@)));
        }
        i = i + 1;
    }
    proof {
        assert(all.take(n as int) =~= all);
    }
    Ok(fields)
}

/// Law: a schema resolves successfully exactly when every one of its
/// bindings individually resolves successfully, and then each field equals
/// its own binding's individually resolved value. A field's value depends on
/// its binding and the map alone — never on the other bindings or their
/// order; order decides only which error is reported on failure.
pub proof fn lemma_schema_pointwise(
    m: Map<Seq<char>, Seq<u8>>,
    bs: Seq<BindingSpec>,
    policy: OptionalPolicy,
)
    ensures
        spec_resolve_schema(m, bs, policy) is Ok <==> (forall|i: int|
            0 <= i < bs.len() ==> (#[trigger] spec_resolve_binding(m, bs[i], policy)) is Ok),
        spec_resolve_schema(m, bs, policy) is Ok ==> {
            let fields = spec_resolve_schema(m, bs, policy)->Ok_0;
            fields.len() == bs.len() && (forall|i: int|
                0 <= i < bs.len() ==> #[trigger] fields[i] == spec_resolve_binding(
                    m,
                    bs[i],
                    policy,
                )->Ok_0)
        },
    decreases bs.len(),
{
    if bs.len() > 0 {
        let pre = bs.drop_last();
        lemma_schema_pointwise(m, pre, policy);
        assert(forall|i: int| 0 <= i < pre.len() ==> pre[i] == bs[i]);
        if spec_resolve_schema(m, bs, policy) is Ok {
            assert(spec_resolve_binding(m, bs[bs.len() - 1], policy) is Ok);
        }
        if forall|i: int|
            0 <= i < bs.len() ==> (#[trigger] spec_resolve_binding(m, bs[i], policy)) is Ok {
            assert(forall|i: int|
                0 <= i < pre.len() ==> (#[trigger] spec_resolve_binding(m, pre[i], policy)) is Ok);
        }
    }
}

/// Law: the first required binding whose header is absent decides the
/// outcome. Where the bindings before position `k` all succeed and binding
/// `k` is required but finds nothing, the whole schema resolves to
/// `Missing` with that binding's name — and the bindings after `k` have no
/// part in the outcome: the schema cut off just past `k` resolves the same
/// way. Repeated resolutions of one map and schema agree besides, since the
/// outcome is a function of the two.
pub proof fn lemma_missing_required_short_circuits(
    m: Map<Seq<char>, Seq<u8>>,
    bs: Seq<BindingSpec>,
    policy: OptionalPolicy,
    k: int,
)
    requires
        0 <= k < bs.len(),
        bs[k].required,
        spec_lookup(m, bs[k].name) is None,
        forall|i: int|
            0 <= i < k ==> (#[trigger] spec_resolve_binding(m, bs[i], policy)) is Ok,
    ensures
        spec_resolve_schema(m, bs, policy) == Err::<Seq<Option<ValueSpec>>, ErrorSpec>(
            ErrorSpec::Missing(bs[k].name),
        ),
        spec_resolve_schema(m, bs, policy) == spec_resolve_schema(m, bs.take(k + 1), policy),
{
    let cut = bs.take(k + 1);
    lemma_schema_pointwise(m, cut.drop_last(), policy);
    assert(cut.drop_last() =~= bs.take(k));
    assert(forall|i: int| 0 <= i < k ==> bs.take(k)[i] == bs[i]);
    assert(cut.last() == bs[k]);
    assert(spec_resolve_schema(m, cut, policy) == Err::<Seq<Option<ValueSpec>>, ErrorSpec>(
        ErrorSpec::Missing(bs[k].name),
    ));
    lemma_error_persists(m, bs, policy, k + 1);
}

/// Law: under the strict policy, optionality suppresses absence alone. An
/// absent header is an empty result; a present one that fails to decode or
/// to parse keeps its classification, exactly as for a required binding.
pub proof fn lemma_strict_optional(m: Map<Seq<char>, Seq<u8>>, b: BindingSpec)
    ensures
        spec_lookup(m, b.name) is None ==> spec_resolve_optional(m, b, OptionalPolicy::Strict)
            == Ok::<Option<ValueSpec>, ErrorSpec>(None),
        spec_lookup(m, b.name) is Some && !decodable(spec_lookup(m, b.name)->Some_0)
            ==> spec_resolve_optional(m, b, OptionalPolicy::Strict) == Err::<
            Option<ValueSpec>,
            ErrorSpec,
        >(ErrorSpec::InvalidValue(b.name)),
        spec_lookup(m, b.name) is Some && decodable(spec_lookup(m, b.name)->Some_0) && spec_parse(
            b.parser,
            decode(spec_lookup(m, b.name)->Some_0),
        ) is None ==> spec_resolve_optional(m, b, OptionalPolicy::Strict) == Err::<
            Option<ValueSpec>,
            ErrorSpec,
        >(ErrorSpec::Parse(b.name)),
        spec_resolve_optional(m, b, OptionalPolicy::Strict) is Err
            ==> spec_resolve_optional(m, b, OptionalPolicy::Strict) == Err::<
            Option<ValueSpec>,
            ErrorSpec,
        >(spec_resolve_required(m, b)->Err_0),
{
}

/// Law: under the lenient policy, an optional binding never fails. Absence,
/// an undecodable value, and an unparseable one all resolve to an empty
/// result; only a present, decodable, parseable value resolves to a value.
pub proof fn lemma_lenient_optional(m: Map<Seq<char>, Seq<u8>>, b: BindingSpec)
    ensures
        spec_resolve_optional(m, b, OptionalPolicy::Lenient) is Ok,
        spec_resolve_required(m, b) is Err ==> spec_resolve_optional(m, b, OptionalPolicy::Lenient)
            == Ok::<Option<ValueSpec>, ErrorSpec>(None),
        spec_resolve_required(m, b) is Ok ==> spec_resolve_optional(m, b, OptionalPolicy::Lenient)
            == Ok::<Option<ValueSpec>, ErrorSpec>(Some(spec_resolve_required(m, b)->Ok_0)),
{
}

/// Law: under the lenient policy, a schema whose required bindings all find
/// a present, decodable, parseable value resolves successfully — optional
/// bindings can never stand in the way.
pub proof fn lemma_lenient_schema_succeeds(m: Map<Seq<char>, Seq<u8>>, bs: Seq<BindingSpec>)
    requires
        forall|i: int|
            0 <= i < bs.len() && bs[i].required ==> (#[trigger] spec_resolve_required(
                m,
                bs[i],
            )) is Ok,
    ensures
        spec_resolve_schema(m, bs, OptionalPolicy::Lenient) is Ok,
{
    assert forall|i: int| 0 <= i < bs.len() implies (#[trigger] spec_resolve_binding(
        m,
        bs[i],
        OptionalPolicy::Lenient,
    )) is Ok by {
        if !bs[i].required {
            lemma_lenient_optional(m, bs[i]);
        }
    }
    lemma_schema_pointwise(m, bs, OptionalPolicy::Lenient);
}

} // verus!
