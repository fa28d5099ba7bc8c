use tracing_otel_bridge::{
    global_meter, trace_provider, Counter, Gauge, Key, Measure, NoopSpan, Options, Provider,
    SpanContext, Tracer, Unit, Value,
};

#[test]
fn noop_span_has_empty_context() {
    let s = NoopSpan::new();
    assert_eq!(s.get_context(), SpanContext::empty_context());
    assert!(!s.is_recording());
}

#[test]
fn provider_hands_out_unsampled_tracers() {
    let t = trace_provider().get_tracer("component");
    assert_eq!(t.root_flags(), 0);
}

#[test]
fn options_builders_set_one_field_each() {
    let o = Options::default()
        .with_description("requests served")
        .with_unit(Unit::new("1"))
        .with_keys(vec![Key::new("route")])
        .with_absolute(true);
    assert_eq!(o.description, "requests served");
    assert_eq!(o.keys.len(), 1);
    assert_eq!(o.keys[0].as_str(), "route");
    assert!(!o.alternate);
    assert!(o.with_absolute(false).alternate);
}

#[test]
fn integer_measurements_keep_their_bits() {
    let m = global_meter();
    let c = m.new_i64_counter("c", Options::default());
    assert_eq!(c.measurement(5).value.0, 5);
    let g = m.new_i64_gauge("g", Options::default());
    assert_eq!(g.measurement(-1).value.0, u64::MAX);
    let ms = m.new_i64_measure("m", Options::default());
    assert_eq!(ms.measurement(i64::MIN).value.0, 1u64 << 63);
}

#[test]
fn key_builds_typed_values() {
    let k = Key::new("answer");
    assert!(matches!(k.bool(true).value, Value::Bool(true)));
    assert!(matches!(k.i64(-4).value, Value::I64(-4)));
    assert!(matches!(k.u64(4).value, Value::U64(4)));
    match k.string("forty-two").value {
        Value::String(s) => assert_eq!(s, "forty-two"),
        _ => panic!("expected a string value"),
    }
    match k.bytes(vec![4, 2]).value {
        Value::Bytes(b) => assert_eq!(b, vec![4, 2]),
        _ => panic!("expected a byte value"),
    }
    assert_eq!(k.u64(4).key.as_str(), "answer");
}
