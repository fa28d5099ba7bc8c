use tracing_otel_bridge::{
    AlwaysOnTracer, Event, Key, OpentelemetrySubscriber, ParentHint, SpanContext, SpanStack,
    Value, DEFAULT_TRACE_FLAGS, NoopTracer,
};
use std::sync::Arc;

fn subscriber() -> OpentelemetrySubscriber<AlwaysOnTracer> {
    OpentelemetrySubscriber::<AlwaysOnTracer>::builder()
        .with_tracer(Arc::new(AlwaysOnTracer {}))
        .init()
}

#[test]
fn root_span_mints_its_trace() {
    let mut sub = subscriber();
    let stack = SpanStack::new();
    let id = sub
        .new_span_with_ids(&stack, ParentHint::Root, "root".to_string(), vec![], 11, 77, 1000);
    assert_eq!(id, 11);
    let ctx = sub.get_span_by_id(11).unwrap();
    assert_eq!(ctx, SpanContext::new(77, 11, DEFAULT_TRACE_FLAGS, false));
    let f = sub.close(11, 2000).unwrap();
    assert_eq!(f.parent_context, None);
    assert_eq!(f.trace_id, 77);
    assert_eq!(f.start_time, 1000);
    assert_eq!(f.end_time, 2000);
    assert_eq!(f.name, "root");
    assert_eq!(sub.open_spans(), 0);
}

#[test]
fn noop_tracer_keeps_nothing() {
    let mut sub = OpentelemetrySubscriber::<NoopTracer>::builder().init();
    assert!(!sub.is_recording());
    let stack = SpanStack::new();
    let id = sub.new_span_with_ids(&stack, ParentHint::Root, "r".to_string(), vec![], 1, 2, 0);
    assert_eq!(id, 0);
    assert_eq!(sub.open_spans(), 0);
    assert_eq!(sub.get_span_by_id(1), None);
    assert!(sub.close(0, 1).is_none());
    // an explicit parent need not be open when nothing is recorded
    assert_eq!(sub.new_span(&stack, ParentHint::Explicit(9), "c".to_string(), vec![], 0), 0);
}

#[test]
fn contextual_span_inherits_current_trace() {
    let mut sub = subscriber();
    let mut stack = SpanStack::new();
    sub.new_span_with_ids(&stack, ParentHint::Root, "a".to_string(), vec![], 1, 500, 0);
    sub.mark_span_as_active(&mut stack, 1);
    sub.new_span_with_ids(&stack, ParentHint::Contextual, "b".to_string(), vec![], 2, 999, 0);
    let b = sub.close(2, 5).unwrap();
    assert_eq!(b.trace_id, 500);
    assert_eq!(b.parent_context, Some(SpanContext::new(500, 1, DEFAULT_TRACE_FLAGS, false)));
}

#[test]
fn contextual_span_without_current_is_root() {
    let mut sub = subscriber();
    let stack = SpanStack::new();
    sub.new_span_with_ids(&stack, ParentHint::Contextual, "b".to_string(), vec![], 2, 999, 0);
    let b = sub.close(2, 5).unwrap();
    assert_eq!(b.parent_context, None);
    assert_eq!(b.trace_id, 999);
}

#[test]
fn explicit_parent_overrides_current_span() {
    let mut sub = subscriber();
    let mut stack = SpanStack::new();
    sub.new_span_with_ids(&stack, ParentHint::Root, "a".to_string(), vec![], 1, 100, 0);
    sub.new_span_with_ids(&stack, ParentHint::Root, "c".to_string(), vec![], 3, 300, 0);
    sub.mark_span_as_active(&mut stack, 3);
    assert_eq!(sub.current_span_id(&stack), Some(3));
    sub.new_span_with_ids(&stack, ParentHint::Explicit(1), "b".to_string(), vec![], 2, 200, 0);
    let b = sub.close(2, 1).unwrap();
    assert_eq!(b.parent_context, sub.get_span_by_id(1));
    assert_eq!(b.trace_id, 100);
}

#[test]
fn explicit_parent_must_be_open() {
    let mut sub = subscriber();
    let stack = SpanStack::new();
    assert!(!sub.parent_is_open(&stack, ParentHint::Explicit(42)));
    assert!(sub.parent_is_open(&stack, ParentHint::Root));
    assert!(sub.parent_is_open(&stack, ParentHint::Contextual));
    sub.new_span_with_ids(&stack, ParentHint::Root, "a".to_string(), vec![], 42, 1, 0);
    assert!(sub.parent_is_open(&stack, ParentHint::Explicit(42)));
}

#[test]
fn explicit_roots_get_distinct_traces() {
    let mut sub = subscriber();
    let stack = SpanStack::new();
    let mut traces = std::collections::HashSet::new();
    for _ in 0..200 {
        let id = sub
            .new_span(&stack, ParentHint::Root, "root".to_string(), vec![], 0);
        let f = sub.close(id, 1).unwrap();
        assert!(traces.insert(f.trace_id));
    }
    // with injected ids the roots' traces are the ids handed in
    sub.new_span_with_ids(&stack, ParentHint::Root, "x".to_string(), vec![], 1, 10, 0);
    sub.new_span_with_ids(&stack, ParentHint::Root, "y".to_string(), vec![], 2, 20, 0);
    assert_ne!(sub.get_span_by_id(1).unwrap().trace_id(), sub.get_span_by_id(2).unwrap().trace_id());
}

#[test]
fn record_appends_attributes_in_order() {
    let mut sub = subscriber();
    let stack = SpanStack::new();
    let first = vec![Key::new("a").u64(1)];
    sub.new_span_with_ids(&stack, ParentHint::Root, "s".to_string(), first, 1, 1, 0);
    assert!(sub.record(1, vec![Key::new("a").u64(2), Key::new("b").bool(true)]));
    assert!(!sub.record(9, vec![Key::new("a").u64(3)]));
    let f = sub.close(1, 1).unwrap();
    assert_eq!(f.attributes.len(), 3);
    assert_eq!(f.attributes[0].key.as_str(), "a");
    assert!(matches!(f.attributes[0].value, Value::U64(1)));
    assert!(matches!(f.attributes[1].value, Value::U64(2)));
    assert_eq!(f.attributes[2].key.as_str(), "b");
}

#[test]
fn event_goes_to_current_span() {
    let mut sub = subscriber();
    let mut stack = SpanStack::new();
    let e = Event::new("nothing current".to_string(), 5, vec![]);
    assert!(!sub.event(&stack, e));
    sub.new_span_with_ids(&stack, ParentHint::Root, "s".to_string(), vec![], 1, 1, 0);
    sub.mark_span_as_active(&mut stack, 1);
    let e = Event::new("hello".to_string(), 7, vec![Key::new("k").string("v")]);
    assert!(sub.event(&stack, e));
    let f = sub.close(1, 9).unwrap();
    assert_eq!(f.events.len(), 1);
    assert_eq!(f.events[0].name, "hello");
    assert_eq!(f.events[0].timestamp, 7);
    // the current span is closed: the event is ignored
    assert!(!sub.event(&stack, Event::new("late".to_string(), 8, vec![])));
    assert_eq!(sub.get_active_span(&stack), None);
}

#[test]
fn close_is_idempotent() {
    let mut sub = subscriber();
    let stack = SpanStack::new();
    sub.new_span_with_ids(&stack, ParentHint::Root, "s".to_string(), vec![], 1, 1, 0);
    assert!(sub.close(1, 1).is_some());
    assert!(sub.close(1, 2).is_none());
    assert_eq!(sub.open_spans(), 0);
}

#[test]
fn set_parent_grafts_onto_remote_context() {
    let mut sub = subscriber();
    let stack = SpanStack::new();
    sub.new_span_with_ids(&stack, ParentHint::Root, "s".to_string(), vec![], 1, 1, 0);
    let remote = tracing_otel_bridge::decode("abc:1f:0:0").unwrap();
    assert!(sub.set_parent(1, remote));
    assert!(!sub.set_parent(2, remote));
    let ctx = sub.get_span_by_id(1).unwrap();
    assert_eq!(ctx, SpanContext::new(0xabc, 1, 0, false));
    let f = sub.close(1, 1).unwrap();
    assert_eq!(f.parent_context, Some(remote));
}

#[test]
fn exit_pops_only_innermost() {
    let sub = subscriber();
    let mut stack = SpanStack::new();
    sub.mark_span_as_active(&mut stack, 1);
    sub.mark_span_as_active(&mut stack, 2);
    assert_eq!(sub.exit(&mut stack, 1), None);
    assert_eq!(sub.exit(&mut stack, 2), Some(2));
    assert_eq!(sub.current_span_id(&stack), Some(1));
}

#[test]
fn active_span_context_follows_stack() {
    let mut sub = subscriber();
    let mut stack = SpanStack::new();
    assert_eq!(sub.get_active_span(&stack), None);
    sub.new_span_with_ids(&stack, ParentHint::Root, "s".to_string(), vec![], 4, 40, 0);
    sub.mark_span_as_active(&mut stack, 4);
    assert_eq!(sub.get_active_span(&stack), Some(SpanContext::new(40, 4, 1, false)));
}

#[test]
fn event_fields_name_or_annotate() {
    let mut e = Event::new(String::new(), 3, vec![]);
    e.record_field("message", "hello".to_string());
    e.record_field("user", "ada".to_string());
    assert_eq!(e.name, "hello");
    assert_eq!(e.attributes.len(), 1);
    assert_eq!(e.attributes[0].key.as_str(), "user");
    assert!(matches!(&e.attributes[0].value, Value::String(v) if v == "ada"));
    assert!(tracing_otel_bridge::is_message_field("message"));
    assert!(!tracing_otel_bridge::is_message_field("messages"));
    assert!(!tracing_otel_bridge::is_message_field("Message"));
}
