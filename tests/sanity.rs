use tracing_otel_bridge::SpanContext;

#[test]
fn it_works() {
    assert_eq!(2 + 2, 4);
}

#[test]
fn empty_context_is_invalid() {
    let c = SpanContext::empty_context();
    assert!(!c.is_valid());
    assert_eq!(c.trace_id(), 0);
    assert!(SpanContext::new(1, 2, 0, false).is_valid());
    assert!(!SpanContext::new(1, 0, 0, false).is_valid());
}
