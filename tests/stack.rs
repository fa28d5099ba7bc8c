use tracing_otel_bridge::SpanStack;

#[test]
fn reentrant_push_then_pop_keeps_current() {
    let mut s = SpanStack::new();
    s.push(1);
    s.push(2);
    let before = s.current();
    assert_eq!(before, Some(2));
    // duplicate push of an already-active id
    s.push(1);
    assert_eq!(s.current(), Some(2));
    s.push(3);
    assert_eq!(s.current(), Some(3));
    assert_eq!(s.pop(3), Some(3));
    assert_eq!(s.pop(1), Some(1));
    assert_eq!(s.current(), before);
    assert_eq!(s.len(), 2);
}

#[test]
fn pop_of_other_id_changes_nothing() {
    let mut s = SpanStack::new();
    assert_eq!(s.pop(7), None);
    s.push(7);
    s.push(8);
    assert_eq!(s.pop(7), None);
    assert_eq!(s.len(), 2);
    assert_eq!(s.current(), Some(8));
}

#[test]
fn current_of_empty_stack_is_none() {
    let s = SpanStack::new();
    assert!(s.is_empty());
    assert_eq!(s.current(), None);
}

#[test]
fn duplicates_are_marked() {
    let mut s = SpanStack::new();
    s.push(5);
    s.push(5);
    assert!(s.contains(5));
    assert_eq!(s.current(), Some(5));
    assert_eq!(s.pop(5), Some(5));
    assert_eq!(s.current(), Some(5));
    assert_eq!(s.pop(5), Some(5));
    assert_eq!(s.current(), None);
    assert!(!s.contains(5));
}
