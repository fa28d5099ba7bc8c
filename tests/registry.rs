use tracing_otel_bridge::{parent_is_open_in, resolve_parent, Event, Key, ParentHint, Registry, SpanBuilder, SpanContext, SpanStack};

fn builder(id: u64, trace: u128) -> SpanBuilder {
    SpanBuilder::start("s".to_string(), vec![], None, id, trace, 1, 0)
}

#[test]
fn registry_insert_lookup_remove() {
    let mut r = Registry::new();
    assert!(r.is_empty());
    r.insert(builder(3, 30));
    assert!(r.contains(3));
    assert_eq!(r.context_of(3), Some(SpanContext::new(30, 3, 1, false)));
    assert_eq!(r.context_of(4), None);
    assert!(r.add_attributes(3, vec![Key::new("k").i64(1)]));
    assert!(r.add_event(3, Event::new("e".to_string(), 1, vec![])));
    assert!(!r.add_event(4, Event::new("e".to_string(), 1, vec![])));
    let b = r.remove(3).unwrap();
    assert_eq!(b.attributes.len(), 1);
    assert_eq!(b.events.len(), 1);
    assert!(r.remove(3).is_none());
    assert_eq!(r.len(), 0);
}

#[test]
fn child_builder_inherits_parent_identity() {
    let parent = SpanContext::new(9, 1, 0, true);
    let b = SpanBuilder::start("c".to_string(), vec![], Some(parent), 2, 77, 1, 5);
    assert_eq!(b.trace_id, 9);
    assert_eq!(b.trace_flags, 0);
    assert_eq!(b.context(), SpanContext::new(9, 2, 0, false));
    let f = b.finish(8);
    assert_eq!(f.end_time, 8);
    assert_eq!(f.start_time, 5);
}

#[test]
fn resolve_follows_hint() {
    let mut r = Registry::new();
    r.insert(builder(1, 10));
    r.insert(builder(2, 20));
    let mut stack = SpanStack::new();
    assert_eq!(resolve_parent(ParentHint::Contextual, &stack, &r), None);
    stack.push(2);
    assert_eq!(resolve_parent(ParentHint::Contextual, &stack, &r), r.context_of(2));
    assert_eq!(resolve_parent(ParentHint::Explicit(1), &stack, &r), r.context_of(1));
    assert_eq!(resolve_parent(ParentHint::Root, &stack, &r), None);
    assert!(!parent_is_open_in(ParentHint::Explicit(5), &stack, &r));
    assert!(parent_is_open_in(ParentHint::Contextual, &stack, &r));
    stack.push(6);
    assert!(!parent_is_open_in(ParentHint::Contextual, &stack, &r));
}
