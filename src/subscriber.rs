use vstd::prelude::*;
use std::sync::Arc;
use crate::attributes::KeyValue;
use crate::context::SpanContext;
use crate::export::SpanExporter;
use crate::registry::{changes_only, is_grafted, is_with_attributes, is_with_event, Registry};
use crate::resolver::{parent_is_open, parent_is_open_in, resolve_parent, resolved, ParentHint};
use crate::span::{is_finish_of, is_started, Event, FinishedSpan, SpanBuilder, DEFAULT_TRACE_FLAGS};
use crate::stack::{current_of, popped, pushed, SpanStack};

verus! {

/// Relies on `rand::random`: a value drawn from the thread-local generator.
/// Nothing is known of the value.
pub assume_specification<T>[ rand::random::<T> ]() -> (r: T)
    where
        rand::distributions::Standard: rand::distributions::Distribution<T>,
;

/// The tracing backend that a subscriber starts spans for. It decides the
/// sampling flags of spans that start a new trace.
pub trait Tracer {
    spec fn spec_is_recording(&self) -> bool;

    /// Whether spans started through this tracer are kept at all.
    fn is_recording(&self) -> (r: bool)
        ensures
            r == self.spec_is_recording(),
    ;

    spec fn spec_root_flags(&self) -> u8;

    fn root_flags(&self) -> (r: u8)
        ensures
            r == self.spec_root_flags(),
    ;
}

/// A tracer that records nothing: its spans have the empty context.
#[derive(Clone, Copy, Debug)]
pub struct NoopTracer {}

impl Tracer for NoopTracer {
    open spec fn spec_is_recording(&self) -> bool {
        false
    }

    fn is_recording(&self) -> (r: bool) {
        false
    }

    open spec fn spec_root_flags(&self) -> u8 {
        0
    }

    fn root_flags(&self) -> (r: u8) {
        0
    }
}

/// A tracer that samples every trace.
#[derive(Clone, Copy, Debug)]
pub struct AlwaysOnTracer {}

impl Tracer for AlwaysOnTracer {
    open spec fn spec_is_recording(&self) -> bool {
        true
    }

    fn is_recording(&self) -> (r: bool) {
        true
    }

    open spec fn spec_root_flags(&self) -> u8 {
        DEFAULT_TRACE_FLAGS
    }

    fn root_flags(&self) -> (r: u8) {
        DEFAULT_TRACE_FLAGS
    }
}

/// Bridges instrumentation hooks to spans: it resolves parents, keeps the
/// open spans, and turns closed spans into finished ones for export.
pub struct OpentelemetrySubscriber<T: Tracer> {
    tracer: Arc<T>,
    registry: Registry,
}

impl<T: Tracer> OpentelemetrySubscriber<T> {
    /// The open spans, by span id.
    pub closed spec fn spans(&self) -> Map<u64, SpanBuilder> {
        self.registry@
    }

    /// The flags that root spans get.
    pub closed spec fn root_flags(&self) -> u8 {
        self.tracer.spec_root_flags()
    }

    /// Whether spans are kept at all.
    pub closed spec fn recording(&self) -> bool {
        self.tracer.spec_is_recording()
    }

    pub closed spec fn wf(&self) -> bool {
        self.registry.wf()
    }

    pub fn is_recording(&self) -> (r: bool)
        ensures
            r == self.recording(),
    {
        self.tracer.is_recording()
    }

    /// Whether the parent that `hint` names is open.
    pub fn parent_is_open(&self, stack: &SpanStack, hint: ParentHint) -> (r: bool)
        ensures
            r == parent_is_open(hint, stack@, self.spans()),
    {
        parent_is_open_in(hint, stack, &self.registry)
    }

    pub fn builder() -> (r: Builder<NoopTracer>)
        ensures
            r.tracer_root_flags() == 0,
            !r.tracer_recording(),
    {
        Builder::default()
    }

    /// Starts a span named `name` with `attributes` at time `now`, with the
    /// span id `span_id`; `fresh_trace_id` is its trace id if it is a root.
    /// Returns the span's id. A tracer that does not record keeps nothing and
    /// returns the empty span id, zero.
    pub fn new_span_with_ids(
        &mut self,
        stack: &SpanStack,
        hint: ParentHint,
        name: String,
        attributes: Vec<KeyValue>,
        span_id: u64,
        fresh_trace_id: u128,
        now: u64,
    ) -> (r: u64)
        requires
            old(self).wf(),
            old(self).recording() ==> parent_is_open(hint, stack@, old(self).spans()),
        ensures
            final(self).wf(),
            final(self).root_flags() == old(self).root_flags(),
            final(self).recording() == old(self).recording(),
            !old(self).recording() ==> r == 0 && final(self).spans() == old(self).spans(),
            old(self).recording() ==> {
                &&& r == span_id
                &&& final(self).spans() == old(self).spans().insert(
                    span_id,
                    final(self).spans()[span_id],
                )
                &&& is_started(
                    final(self).spans()[span_id],
                    name@,
                    attributes@,
                    resolved(hint, stack@, old(self).spans()),
                    span_id,
                    fresh_trace_id,
                    old(self).root_flags(),
                    now,
                )
            },
    {
        if !self.tracer.is_recording() {
            return 0;
        }
        let parent = resolve_parent(hint, stack, &self.registry);
        let flags = self.tracer.root_flags();
        let b = SpanBuilder::start(name, attributes, parent, span_id, fresh_trace_id, flags, now);
        self.registry.insert(b);
        span_id
    }

    /// Starts a span as `new_span_with_ids` does, with a random span id and,
    /// for a root, a random trace id.
    pub fn new_span(
        &mut self,
        stack: &SpanStack,
        hint: ParentHint,
        name: String,
        attributes: Vec<KeyValue>,
        now: u64,
    ) -> (r: u64)
        requires
            old(self).wf(),
            old(self).recording() ==> parent_is_open(hint, stack@, old(self).spans()),
        ensures
            final(self).wf(),
            final(self).root_flags() == old(self).root_flags(),
            final(self).recording() == old(self).recording(),
            !old(self).recording() ==> r == 0 && final(self).spans() == old(self).spans(),
            old(self).recording() ==> {
                &&& final(self).spans() == old(self).spans().insert(r, final(self).spans()[r])
                &&& exists|t: u128|
                    is_started(
                        #[trigger] final(self).spans()[r],
                        name@,
                        attributes@,
                        resolved(hint, stack@, old(self).spans()),
                        r,
                        t,
                        old(self).root_flags(),
                        now,
                    )
            },
    {
        if !self.tracer.is_recording() {
            return 0;
        }
        let span_id: u64 = rand::random();
        let trace_id: u128 = rand::random();
        self.new_span_with_ids(stack, hint, name, attributes, span_id, trace_id, now)
    }

    /// Appends `attributes` to the open span `id`; returns whether it is open.
    pub fn record(&mut self, id: u64, attributes: Vec<KeyValue>) -> (r: bool)
        requires
            old(self).wf(),
        ensures
            final(self).wf(),
            final(self).root_flags() == old(self).root_flags(),
            final(self).recording() == old(self).recording(),
            r == old(self).spans().contains_key(id),
            r ==> changes_only(final(self).spans(), old(self).spans(), id) && is_with_attributes(
                final(self).spans()[id],
                old(self).spans()[id],
                attributes@,
            ),
            !r ==> final(self).spans() == old(self).spans(),
    {
        self.registry.add_attributes(id, attributes)
    }

    /// Records `e` in the current span. Returns whether it was recorded: an
    /// event with no current span, or whose current span is closed, is
    /// ignored.
    pub fn event(&mut self, stack: &SpanStack, e: Event) -> (r: bool)
        requires
            old(self).wf(),
        ensures
            final(self).wf(),
            final(self).root_flags() == old(self).root_flags(),
            final(self).recording() == old(self).recording(),
            match current_of(stack@) {
                Some(id) if old(self).spans().contains_key(id) => {
                    &&& r
                    &&& changes_only(final(self).spans(), old(self).spans(), id)
                    &&& is_with_event(final(self).spans()[id], old(self).spans()[id], e)
                },
                _ => !r && final(self).spans() == old(self).spans(),
            },
    {
        match stack.current() {
            None => false,
            Some(id) => self.registry.add_event(id, e),
        }
    }

    /// The span that is current on `stack`.
    pub fn current_span_id(&self, stack: &SpanStack) -> (r: Option<u64>)
        ensures
            r == current_of(stack@),
    {
        stack.current()
    }

    /// Enters the span `id` on `stack`.
    pub fn mark_span_as_active(&self, stack: &mut SpanStack, id: u64)
        requires
            old(stack).wf(),
        ensures
            final(stack)@ == pushed(old(stack)@, id),
            final(stack).wf(),
    {
        stack.push(id)
    }

    /// Exits the span `id` on `stack`; nothing changes unless it is the
    /// innermost entry.
    pub fn exit(&self, stack: &mut SpanStack, id: u64) -> (r: Option<u64>)
        requires
            old(stack).wf(),
        ensures
            (final(stack)@, r) == popped(old(stack)@, id),
            final(stack).wf(),
    {
        stack.pop(id)
    }

    /// The context of the open span `id`.
    pub fn get_span_by_id(&self, id: u64) -> (r: Option<SpanContext>)
        ensures
            r == (if self.spans().contains_key(id) {
                Some(crate::span::context_of(self.spans()[id]))
            } else {
                None
            }),
    {
        self.registry.context_of(id)
    }

    /// The context of the span that is current on `stack`, if it is open.
    pub fn get_active_span(&self, stack: &SpanStack) -> (r: Option<SpanContext>)
        ensures
            r == match current_of(stack@) {
                Some(id) if self.spans().contains_key(id) => Some(
                    crate::span::context_of(self.spans()[id]),
                ),
                _ => None,
            },
    {
        match stack.current() {
            Some(id) => self.registry.context_of(id),
            None => None,
        }
    }

    /// Grafts the open span `id` onto an externally supplied context;
    /// returns whether the span is open.
    pub fn set_parent(&mut self, id: u64, parent: SpanContext) -> (r: bool)
        requires
            old(self).wf(),
        ensures
            final(self).wf(),
            final(self).root_flags() == old(self).root_flags(),
            final(self).recording() == old(self).recording(),
            r == old(self).spans().contains_key(id),
            r ==> changes_only(final(self).spans(), old(self).spans(), id) && is_grafted(
                final(self).spans()[id],
                old(self).spans()[id],
                parent,
            ),
            !r ==> final(self).spans() == old(self).spans(),
    {
        self.registry.set_parent(id, parent)
    }

    /// Closes the span `id` at `now`: it leaves the open spans and comes back
    /// finished. Closing a span that is not open changes nothing.
    pub fn close(&mut self, id: u64, now: u64) -> (r: Option<FinishedSpan>)
        requires
            old(self).wf(),
        ensures
            final(self).wf(),
            final(self).root_flags() == old(self).root_flags(),
            final(self).recording() == old(self).recording(),
            final(self).spans() == old(self).spans().remove(id),
            old(self).spans().contains_key(id) <==> r is Some,
            r matches Some(f) ==> is_finish_of(f, old(self).spans()[id], now),
    {
        match self.registry.remove(id) {
            Some(b) => Some(b.finish(now)),
            None => None,
        }
    }

    /// Closes the span `id` at `now` and hands it to `exporter`, waiting while
    /// the export queue is full. Returns whether the span was open. A span
    /// that the queue no longer takes is dropped: export is best effort. A
    /// subscriber shared behind a lock should rather `close` under the lock
    /// and export after releasing it, so that no lock is held while waiting.
    pub fn on_close(&mut self, id: u64, now: u64, exporter: &SpanExporter) -> (r: bool)
        requires
            old(self).wf(),
        ensures
            final(self).wf(),
            final(self).root_flags() == old(self).root_flags(),
            final(self).recording() == old(self).recording(),
            final(self).spans() == old(self).spans().remove(id),
            r == old(self).spans().contains_key(id),
    {
        match self.close(id, now) {
            Some(f) => {
                let _ = exporter.export(f);
                true
            },
            None => false,
        }
    }

    /// The number of open spans.
    pub fn open_spans(&self) -> (r: usize)
        ensures
            r == self.spans().len(),
    {
        self.registry.len()
    }
}

/// A span started under an id that no open span uses, and then closed,
/// leaves the open spans as they were: create/close cycles do not leak.
pub proof fn lemma_create_close_restores(spans: Map<u64, SpanBuilder>, id: u64, b: SpanBuilder)
    requires
        !spans.contains_key(id),
    ensures
        spans.insert(id, b).remove(id) == spans,
{
    assert(spans.insert(id, b).remove(id) =~= spans);
}

/// Configures a new `OpentelemetrySubscriber`.
pub struct Builder<T: Tracer> {
    tracer: Arc<T>,
}

impl<T: Tracer> Builder<T> {
    pub closed spec fn tracer_root_flags(&self) -> u8 {
        self.tracer.spec_root_flags()
    }

    pub closed spec fn tracer_recording(&self) -> bool {
        self.tracer.spec_is_recording()
    }

    pub fn with_tracer<B: Tracer>(self, tracer: Arc<B>) -> (r: Builder<B>)
        ensures
            r.tracer_root_flags() == tracer.spec_root_flags(),
            r.tracer_recording() == tracer.spec_is_recording(),
    {
        Builder { tracer }
    }

    pub fn init(self) -> (r: OpentelemetrySubscriber<T>)
        ensures
            r.spans() == Map::<u64, SpanBuilder>::empty(),
            r.root_flags() == self.tracer_root_flags(),
            r.recording() == self.tracer_recording(),
            r.wf(),
    {
        OpentelemetrySubscriber { tracer: self.tracer, registry: Registry::new() }
    }
}

impl Default for Builder<NoopTracer> {
    fn default() -> (r: Self)
        ensures
            r.tracer_root_flags() == 0,
            !r.tracer_recording(),
    {
        Builder { tracer: Arc::new(NoopTracer {}) }
    }
}

} // verus!
