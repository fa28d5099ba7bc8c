use vstd::prelude::*;
use vstd::string::*;
use crate::attributes::{Key, KeyValue, Value};
use crate::context::SpanContext;

verus! {

/// Flags of a root span: sampled.
pub const DEFAULT_TRACE_FLAGS: u8 = 1;

/// A timestamped event recorded in a span. Times are nanoseconds since the
/// Unix epoch.
#[derive(Clone, Debug)]
pub struct Event {
    pub name: String,
    pub timestamp: u64,
    pub attributes: Vec<KeyValue>,
}

impl Event {
    pub fn new(name: String, timestamp: u64, attributes: Vec<KeyValue>) -> (r: Event)
        ensures
            r == (Event { name, timestamp, attributes }),
    {
        Event { name, timestamp, attributes }
    }
}

/// Whether `field` is the field that names an event.
pub fn is_message_field(field: &str) -> (r: bool)
    ensures
        r == (field@ == "message"@),
{
    let m = "message";
    proof {
        reveal_strlit("message");
    }
    let n = field.unicode_len();
    if n != 7 {
        return false;
    }
    let mut i: usize = 0;
    while i < 7
        invariant
            n == 7,
            field@.len() == 7,
            m@ == "message"@,
            m@.len() == 7,
            i <= 7,
            forall|j: int| 0 <= j < i ==> field@[j] == m@[j],
        decreases 7 - i,
    {
        if field.get_char(i) != m.get_char(i) {
            return false;
        }
        i += 1;
    }
    assert(field@ =~= m@);
    true
}

impl Event {
    /// Records one field of an instrumentation event: the `message` field
    /// names the event, any other field is appended as a string attribute.
    pub fn record_field(&mut self, field: &str, value: String)
        ensures
            final(self).timestamp == old(self).timestamp,
            field@ == "message"@ ==> final(self).name == value && final(self).attributes
                == old(self).attributes,
            field@ != "message"@ ==> {
                &&& final(self).name == old(self).name
                &&& final(self).attributes@.len() == old(self).attributes@.len() + 1
                &&& final(self).attributes@.drop_last() == old(self).attributes@
                &&& final(self).attributes@.last().key@ == field@
                &&& final(self).attributes@.last().value == Value::String(value)
            },
    {
        if is_message_field(field) {
            self.name = value;
        } else {
            self.attributes.push(KeyValue { key: Key::new(field), value: Value::String(value) });
            assert(self.attributes@.drop_last() =~= old(self).attributes@);
        }
    }
}

/// The state of a span between its creation and its close.
#[derive(Clone, Debug)]
pub struct SpanBuilder {
    pub name: String,
    pub start_time: u64,
    pub end_time: Option<u64>,
    pub attributes: Vec<KeyValue>,
    pub events: Vec<Event>,
    pub parent_context: Option<SpanContext>,
    pub trace_id: u128,
    pub span_id: u64,
    pub trace_flags: u8,
}

/// A closed span, as handed to the export queue.
#[derive(Clone, Debug)]
pub struct FinishedSpan {
    pub name: String,
    pub start_time: u64,
    pub end_time: u64,
    pub attributes: Vec<KeyValue>,
    pub events: Vec<Event>,
    pub parent_context: Option<SpanContext>,
    pub trace_id: u128,
    pub span_id: u64,
    pub trace_flags: u8,
}

/// The context that children of the span `b` inherit.
pub open spec fn context_of(b: SpanBuilder) -> SpanContext {
    SpanContext { trace_id: b.trace_id, span_id: b.span_id, trace_flags: b.trace_flags, is_remote: false }
}

/// `b` is a span freshly started with the given values: it inherits trace
/// id and flags from its parent, or mints `fresh_trace_id` with `root_flags`
/// when it has none.
pub open spec fn is_started(
    b: SpanBuilder,
    name: Seq<char>,
    attributes: Seq<KeyValue>,
    parent: Option<SpanContext>,
    span_id: u64,
    fresh_trace_id: u128,
    root_flags: u8,
    now: u64,
) -> bool {
    &&& b.name@ == name
    &&& b.start_time == now
    &&& b.end_time is None
    &&& b.attributes@ == attributes
    &&& b.events@.len() == 0
    &&& b.parent_context == parent
    &&& b.span_id == span_id
    &&& b.trace_id == match parent {
        Some(p) => p.trace_id,
        None => fresh_trace_id,
    }
    &&& b.trace_flags == match parent {
        Some(p) => p.trace_flags,
        None => root_flags,
    }
}

/// A span with a parent carries its parent's trace id and flags.
pub open spec fn is_linked(b: SpanBuilder) -> bool {
    b.parent_context matches Some(p) ==> b.trace_id == p.trace_id && b.trace_flags == p.trace_flags
}

/// `f` is the span `b` closed at `end_time`.
pub open spec fn is_finish_of(f: FinishedSpan, b: SpanBuilder, end_time: u64) -> bool {
    &&& f.name == b.name
    &&& f.start_time == b.start_time
    &&& f.end_time == end_time
    &&& f.attributes == b.attributes
    &&& f.events == b.events
    &&& f.parent_context == b.parent_context
    &&& f.trace_id == b.trace_id
    &&& f.span_id == b.span_id
    &&& f.trace_flags == b.trace_flags
}

impl SpanBuilder {
    /// Starts a span under `parent`, or as a root of a new trace
    /// `fresh_trace_id` when there is no parent.
    pub fn start(
        name: String,
        attributes: Vec<KeyValue>,
        parent: Option<SpanContext>,
        span_id: u64,
        fresh_trace_id: u128,
        root_flags: u8,
        now: u64,
    ) -> (r: SpanBuilder)
        ensures
            is_started(r, name@, attributes@, parent, span_id, fresh_trace_id, root_flags, now),
            is_linked(r),
    {
        let (trace_id, trace_flags) = match parent {
            Some(p) => (p.trace_id, p.trace_flags),
            None => (fresh_trace_id, root_flags),
        };
        SpanBuilder {
            name,
            start_time: now,
            end_time: None,
            attributes,
            events: Vec::new(),
            parent_context: parent,
            trace_id,
            span_id,
            trace_flags,
        }
    }

    /// The context that children of this span inherit.
    pub fn context(&self) -> (r: SpanContext)
        ensures
            r == context_of(*self),
    {
        SpanContext {
            trace_id: self.trace_id,
            span_id: self.span_id,
            trace_flags: self.trace_flags,
            is_remote: false,
        }
    }

    /// Closes the span at `end_time`.
    pub fn finish(self, end_time: u64) -> (r: FinishedSpan)
        ensures
            is_finish_of(r, self, end_time),
    {
        FinishedSpan {
            name: self.name,
            start_time: self.start_time,
            end_time,
            attributes: self.attributes,
            events: self.events,
            parent_context: self.parent_context,
            trace_id: self.trace_id,
            span_id: self.span_id,
            trace_flags: self.trace_flags,
        }
    }
}

} // verus!
