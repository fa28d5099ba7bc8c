use vstd::prelude::*;
use crate::context::SpanContext;
use crate::registry::Registry;
use crate::span::{context_of, is_started, SpanBuilder};
use crate::stack::{current_of, ContextId, SpanStack};

verus! {

/// Where a new span takes its parent from.
#[derive(Clone, Copy, Debug, PartialEq, Eq, Structural)]
pub enum ParentHint {
    /// The span with this id, which must be open.
    Explicit(u64),
    /// Whatever span is current on the calling path. With no current span the
    /// new span is a root: there is no ambient fallback.
    Contextual,
    /// No parent, whatever is current.
    Root,
}

/// The span that `hint` names as parent, if any: the explicit one, or the
/// current one on `stack`.
pub open spec fn named_parent(hint: ParentHint, stack: Seq<ContextId>) -> Option<u64> {
    match hint {
        ParentHint::Explicit(id) => Some(id),
        ParentHint::Contextual => current_of(stack),
        ParentHint::Root => None,
    }
}

/// The parent that `hint` names is open. The instrumentation guarantees it;
/// a span it names that is not open is a bug in the caller.
pub open spec fn parent_is_open(
    hint: ParentHint,
    stack: Seq<ContextId>,
    spans: Map<u64, SpanBuilder>,
) -> bool {
    named_parent(hint, stack) matches Some(id) ==> spans.contains_key(id)
}

/// The parent context that `hint` resolves to.
pub open spec fn resolved(
    hint: ParentHint,
    stack: Seq<ContextId>,
    spans: Map<u64, SpanBuilder>,
) -> Option<SpanContext> {
    match named_parent(hint, stack) {
        Some(id) => Some(context_of(spans[id])),
        None => None,
    }
}

/// Whether the parent that `hint` names is open.
pub fn parent_is_open_in(hint: ParentHint, stack: &SpanStack, registry: &Registry) -> (r: bool)
    ensures
        r == parent_is_open(hint, stack@, registry@),
{
    match hint {
        ParentHint::Explicit(id) => registry.contains(id),
        ParentHint::Contextual => match stack.current() {
            Some(id) => registry.contains(id),
            None => true,
        },
        ParentHint::Root => true,
    }
}

/// Resolves the parent context of a new span.
pub fn resolve_parent(hint: ParentHint, stack: &SpanStack, registry: &Registry) -> (r: Option<
    SpanContext,
>)
    requires
        parent_is_open(hint, stack@, registry@),
    ensures
        r == resolved(hint, stack@, registry@),
{
    let id = match hint {
        ParentHint::Explicit(id) => id,
        ParentHint::Contextual => match stack.current() {
            Some(id) => id,
            None => return None,
        },
        ParentHint::Root => return None,
    };
    registry.context_of(id)
}

/// An explicit parent wins over the current span: a span started under an
/// explicit parent `a` takes `a`'s context as its parent, and `a`'s trace
/// id, whatever span `c` is current.
pub proof fn lemma_explicit_parent_overrides(
    a: u64,
    c: u64,
    stack: Seq<ContextId>,
    spans: Map<u64, SpanBuilder>,
    b: SpanBuilder,
    name: Seq<char>,
    attributes: Seq<crate::attributes::KeyValue>,
    span_id: u64,
    fresh_trace_id: u128,
    root_flags: u8,
    now: u64,
)
    requires
        spans.contains_key(a),
        current_of(stack) == Some(c),
        c != a,
        is_started(
            b,
            name,
            attributes,
            resolved(ParentHint::Explicit(a), stack, spans),
            span_id,
            fresh_trace_id,
            root_flags,
            now,
        ),
    ensures
        resolved(ParentHint::Explicit(a), stack, spans) == Some(context_of(spans[a])),
        b.parent_context == Some(context_of(spans[a])),
        b.trace_id == spans[a].trace_id,
{
}

/// Two spans started as explicit roots with different fresh trace ids
/// belong to different traces.
pub proof fn lemma_roots_get_distinct_traces(
    s1: Seq<ContextId>,
    s2: Seq<ContextId>,
    spans1: Map<u64, SpanBuilder>,
    spans2: Map<u64, SpanBuilder>,
    b1: SpanBuilder,
    b2: SpanBuilder,
    name1: Seq<char>,
    name2: Seq<char>,
    attributes1: Seq<crate::attributes::KeyValue>,
    attributes2: Seq<crate::attributes::KeyValue>,
    id1: u64,
    id2: u64,
    t1: u128,
    t2: u128,
    flags1: u8,
    flags2: u8,
    now1: u64,
    now2: u64,
)
    requires
        t1 != t2,
        is_started(b1, name1, attributes1, resolved(ParentHint::Root, s1, spans1), id1, t1, flags1, now1),
        is_started(b2, name2, attributes2, resolved(ParentHint::Root, s2, spans2), id2, t2, flags2, now2),
    ensures
        b1.parent_context is None,
        b2.parent_context is None,
        b1.trace_id != b2.trace_id,
{
}

} // verus!
