use vstd::prelude::*;
use std::collections::HashMap;
use crate::attributes::KeyValue;
use crate::context::SpanContext;
use crate::span::{context_of, is_linked, Event, SpanBuilder};

verus! {

broadcast use vstd::std_specs::hash::group_hash_axioms;

/// The spans that are open, by span id.
pub struct Registry {
    spans: HashMap<u64, SpanBuilder>,
}

impl View for Registry {
    type V = Map<u64, SpanBuilder>;

    closed spec fn view(&self) -> Map<u64, SpanBuilder> {
        self.spans@
    }
}

/// `new` is `old` with `extra` appended to its attributes.
pub open spec fn is_with_attributes(new: SpanBuilder, old: SpanBuilder, extra: Seq<KeyValue>) -> bool {
    new == (SpanBuilder { attributes: new.attributes, ..old })
        && new.attributes@ == old.attributes@ + extra
}

/// `new` is `old` with `e` appended to its events.
pub open spec fn is_with_event(new: SpanBuilder, old: SpanBuilder, e: Event) -> bool {
    new == (SpanBuilder { events: new.events, ..old }) && new.events@ == old.events@.push(e)
}

/// `new` is `old` grafted onto the context `parent`: it takes the parent's
/// trace id and flags, and `parent` as its parent context.
pub open spec fn is_grafted(new: SpanBuilder, old: SpanBuilder, parent: SpanContext) -> bool {
    new == (SpanBuilder {
        trace_id: parent.trace_id,
        trace_flags: parent.trace_flags,
        parent_context: Some(parent),
        ..old
    })
}

/// `new` differs from `old` at most in the entry `id`, which it holds.
pub open spec fn changes_only(new: Map<u64, SpanBuilder>, old: Map<u64, SpanBuilder>, id: u64) -> bool {
    old.contains_key(id) && new == old.insert(id, new[id])
}

impl Registry {
    /// Every span is stored under its own span id, and carries its parent's
    /// trace id and flags.
    pub open spec fn wf(&self) -> bool {
        forall|k: u64|
            #[trigger] self@.contains_key(k) ==> self@[k].span_id == k && is_linked(self@[k])
    }

    pub fn new() -> (r: Registry)
        ensures
            r@ == Map::<u64, SpanBuilder>::empty(),
            r.wf(),
    {
        Registry { spans: HashMap::new() }
    }

    /// Stores `b` under its span id.
    pub fn insert(&mut self, b: SpanBuilder)
        requires
            old(self).wf(),
            is_linked(b),
        ensures
            final(self)@ == old(self)@.insert(b.span_id, b),
            final(self).wf(),
    {
        let id = b.span_id;
        let _ = self.spans.insert(id, b);
    }

    pub fn contains(&self, id: u64) -> (r: bool)
        ensures
            r == self@.contains_key(id),
    {
        self.spans.contains_key(&id)
    }

    /// The context of the open span `id`.
    pub fn context_of(&self, id: u64) -> (r: Option<SpanContext>)
        ensures
            r == (if self@.contains_key(id) {
                Some(context_of(self@[id]))
            } else {
                None
            }),
    {
        match self.spans.get(&id) {
            Some(b) => Some(b.context()),
            None => None,
        }
    }

    /// Removes the span `id`. Removing a span that is not there changes
    /// nothing.
    pub fn remove(&mut self, id: u64) -> (r: Option<SpanBuilder>)
        requires
            old(self).wf(),
        ensures
            final(self)@ == old(self)@.remove(id),
            final(self).wf(),
            r == (if old(self)@.contains_key(id) {
                Some(old(self)@[id])
            } else {
                None
            }),
    {
        self.spans.remove(&id)
    }

    /// Appends `attributes` to the open span `id`; returns whether it is open.
    pub fn add_attributes(&mut self, id: u64, attributes: Vec<KeyValue>) -> (r: bool)
        requires
            old(self).wf(),
        ensures
            final(self).wf(),
            r == old(self)@.contains_key(id),
            r ==> changes_only(final(self)@, old(self)@, id) && is_with_attributes(
                final(self)@[id],
                old(self)@[id],
                attributes@,
            ),
            !r ==> final(self)@ == old(self)@,
    {
        let mut attributes = attributes;
        match self.spans.remove(&id) {
            Some(mut b) => {
                b.attributes.append(&mut attributes);
                self.spans.insert(id, b);
                proof {
                    assert(old(self)@.insert(id, b) =~= self.spans@);
                }
                true
            },
            None => false,
        }
    }

    /// Appends `e` to the events of the open span `id`; returns whether it is
    /// open.
    pub fn add_event(&mut self, id: u64, e: Event) -> (r: bool)
        requires
            old(self).wf(),
        ensures
            final(self).wf(),
            r == old(self)@.contains_key(id),
            r ==> changes_only(final(self)@, old(self)@, id) && is_with_event(
                final(self)@[id],
                old(self)@[id],
                e,
            ),
            !r ==> final(self)@ == old(self)@,
    {
        match self.spans.remove(&id) {
            Some(mut b) => {
                b.events.push(e);
                self.spans.insert(id, b);
                proof {
                    assert(old(self)@.insert(id, b) =~= self.spans@);
                }
                true
            },
            None => false,
        }
    }

    /// Grafts the open span `id` onto `parent`; returns whether it is open.
    pub fn set_parent(&mut self, id: u64, parent: SpanContext) -> (r: bool)
        requires
            old(self).wf(),
        ensures
            final(self).wf(),
            r == old(self)@.contains_key(id),
            r ==> changes_only(final(self)@, old(self)@, id) && is_grafted(
                final(self)@[id],
                old(self)@[id],
                parent,
            ),
            !r ==> final(self)@ == old(self)@,
    {
        match self.spans.remove(&id) {
            Some(mut b) => {
                b.trace_id = parent.trace_id;
                b.trace_flags = parent.trace_flags;
                b.parent_context = Some(parent);
                self.spans.insert(id, b);
                proof {
                    assert(old(self)@.insert(id, b) =~= self.spans@);
                }
                true
            },
            None => false,
        }
    }

    pub fn len(&self) -> (r: usize)
        ensures
            r == self@.len(),
    {
        self.spans.len()
    }

    pub fn is_empty(&self) -> (r: bool)
        ensures
            r == (self@.len() == 0),
    {
        self.spans.is_empty()
    }
}

} // verus!
