use vstd::prelude::*;

verus! {

/// The identity of a span: the minimal data that links a child span to its
/// parent, possibly across processes.
#[derive(Clone, Copy, Debug, PartialEq, Eq, Structural)]
pub struct SpanContext {
    /// Identifier shared by every span of one trace tree.
    pub trace_id: u128,
    /// Identifier of this span within its trace.
    pub span_id: u64,
    /// Sampling flags; bit 0 is the sampling decision.
    pub trace_flags: u8,
    /// Whether the context was decoded from an inbound carrier.
    pub is_remote: bool,
}

impl SpanContext {
    pub open spec fn new_spec(trace_id: u128, span_id: u64, trace_flags: u8, is_remote: bool) -> Self {
        SpanContext { trace_id, span_id, trace_flags, is_remote }
    }

    /// A context with the given identifiers and flags.
    pub fn new(trace_id: u128, span_id: u64, trace_flags: u8, is_remote: bool) -> (r: Self)
        ensures
            r == Self::new_spec(trace_id, span_id, trace_flags, is_remote),
    {
        SpanContext { trace_id, span_id, trace_flags, is_remote }
    }

    /// The context of no span: all identifiers and flags are zero.
    pub fn empty_context() -> (r: Self)
        ensures
            r == (SpanContext { trace_id: 0, span_id: 0, trace_flags: 0, is_remote: false }),
    {
        SpanContext { trace_id: 0, span_id: 0, trace_flags: 0, is_remote: false }
    }

    pub fn trace_id(&self) -> (r: u128)
        ensures
            r == self.trace_id,
    {
        self.trace_id
    }

    pub fn span_id(&self) -> (r: u64)
        ensures
            r == self.span_id,
    {
        self.span_id
    }

    pub fn trace_flags(&self) -> (r: u8)
        ensures
            r == self.trace_flags,
    {
        self.trace_flags
    }

    pub fn is_remote(&self) -> (r: bool)
        ensures
            r == self.is_remote,
    {
        self.is_remote
    }

    /// A context is valid when both of its identifiers are non-zero.
    pub open spec fn spec_is_valid(&self) -> bool {
        self.trace_id != 0 && self.span_id != 0
    }

    pub fn is_valid(&self) -> (r: bool)
        ensures
            r == self.spec_is_valid(),
    {
        self.trace_id != 0 && self.span_id != 0
    }
}

} // verus!
