use vstd::prelude::*;
use crate::context::SpanContext;
use crate::subscriber::{NoopTracer, Tracer};

verus! {

/// A span that records nothing and whose context is empty.
#[derive(Clone, Copy, Debug)]
pub struct NoopSpan {
    span_context: SpanContext,
}

impl NoopSpan {
    pub fn new() -> (r: Self)
        ensures
            r.spec_context() == SpanContext::new_spec(0, 0, 0, false),
    {
        NoopSpan { span_context: SpanContext::new(0, 0, 0, false) }
    }

    pub closed spec fn spec_context(&self) -> SpanContext {
        self.span_context
    }

    pub fn get_context(&self) -> (r: SpanContext)
        ensures
            r == self.spec_context(),
    {
        self.span_context
    }

    pub fn is_recording(&self) -> (r: bool)
        ensures
            !r,
    {
        false
    }
}

/// Hands out tracers by name.
pub trait Provider {
    type Tracer: Tracer;

    fn get_tracer(&self, name: &str) -> Self::Tracer;
}

/// A provider whose tracers sample nothing.
#[derive(Clone, Copy, Debug)]
pub struct NoopProvider {}

impl Provider for NoopProvider {
    type Tracer = NoopTracer;

    fn get_tracer(&self, _name: &str) -> (r: NoopTracer) {
        NoopTracer {}
    }
}

/// The process-wide trace provider: one that samples nothing.
pub fn trace_provider() -> (r: NoopProvider) {
    NoopProvider {}
}

} // verus!
