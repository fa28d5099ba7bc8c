//! Correlation and export bridge between a hierarchical instrumentation
//! event stream and a distributed-tracing backend.
//!
//! The library resolves the parent of each new span, tracks the spans that
//! are entered on a call path, accumulates span state until the span is
//! closed, hands finished spans to an export queue, and encodes span
//! contexts for propagation across process boundaries.

pub mod api;
pub mod attributes;
pub mod codec;
pub mod context;
pub mod export;
pub mod metrics;
pub mod registry;
pub mod resolver;
pub mod span;
pub mod stack;
pub mod subscriber;

pub use api::{trace_provider, NoopProvider, NoopSpan, Provider};
pub use attributes::{Key, KeyValue, Value};
pub use codec::{decode, encode, extract, inject, Carrier, TRACER_CONTEXT_HEADER_NAME};
pub use context::SpanContext;
pub use export::{export_queue, SpanExporter, SpanReceiver, MAX_QUEUE_CAPACITY};
pub use metrics::{
    global_meter, Counter, CounterHandle, Gauge, GaugeHandle, Handle, Instrument, LabelSet, Measure,
    MeasureHandle, Measurement, MeasurementValue, NoopCounter, NoopGauge, NoopHandle, NoopLabelSet,
    NoopMeasure, NoopMeter, Options, Unit,
};
pub use registry::Registry;
pub use resolver::{parent_is_open_in, resolve_parent, ParentHint};
pub use span::{is_message_field, Event, FinishedSpan, SpanBuilder, DEFAULT_TRACE_FLAGS};
pub use stack::{ContextId, SpanStack, StackOp};
pub use subscriber::{AlwaysOnTracer, Builder, NoopTracer, OpentelemetrySubscriber, Tracer};
