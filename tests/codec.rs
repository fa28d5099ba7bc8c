use tracing_otel_bridge::{decode, encode, SpanContext};

#[test]
fn encode_gives_lowercase_hex_fields() {
    let ctx = SpanContext::new(0xabc, 0x1f, 1, false);
    assert_eq!(encode(&ctx), "abc:1f:0:1");
    let zero = SpanContext::new(0, 0, 0, false);
    assert_eq!(encode(&zero), "0:0:0:0");
}

#[test]
fn decode_reads_four_fields_as_remote() {
    let ctx = decode("abc:1f:0:1").unwrap();
    assert_eq!(ctx, SpanContext::new(0xabc, 0x1f, 1, true));
}

#[test]
fn round_trip_keeps_ids_and_flags() {
    let cases = [
        SpanContext::new(1, 2, 1, false),
        SpanContext::new(u128::MAX, u64::MAX, u8::MAX, false),
        SpanContext::new(0x0123_4567_89ab_cdef_0011_2233_4455_6677, 0xdead_beef, 0, true),
        SpanContext::new(0, 0, 0, false),
    ];
    for ctx in cases.iter() {
        let back = decode(&encode(ctx)).unwrap();
        assert_eq!(back.trace_id(), ctx.trace_id());
        assert_eq!(back.span_id(), ctx.span_id());
        assert_eq!(back.trace_flags(), ctx.trace_flags());
        assert!(back.is_remote());
    }
}

#[test]
fn decode_malformed_header_gives_no_context() {
    assert_eq!(decode("not-a-valid-header"), None);
}

#[test]
fn decode_rejects_wrong_field_count() {
    assert_eq!(decode(""), None);
    assert_eq!(decode("1:2:0"), None);
    assert_eq!(decode("1:2:0:1:5"), None);
}

#[test]
fn decode_rejects_bad_fields() {
    assert_eq!(decode("1:2:0:"), None);
    assert_eq!(decode(":2:0:1"), None);
    assert_eq!(decode("1g:2:0:1"), None);
    assert_eq!(decode("1:2:0:1 "), None);
    assert_eq!(decode("1:\u{e9}:0:1"), None);
}

#[test]
fn decode_rejects_values_too_wide() {
    // flags are one byte
    assert_eq!(decode("1:2:0:100"), None);
    assert_eq!(decode("1:2:0:ff").unwrap().trace_flags(), 255);
    // span id is 64 bits
    assert_eq!(decode("1:10000000000000000:0:1"), None);
    // trace id is 128 bits
    assert_eq!(decode("100000000000000000000000000000000:2:0:1"), None);
    assert_eq!(
        decode("ffffffffffffffffffffffffffffffff:2:0:1").unwrap().trace_id(),
        u128::MAX
    );
}

#[test]
fn decode_accepts_uppercase_and_leading_zeros() {
    let ctx = decode("00AbC:001F:0000:01").unwrap();
    assert_eq!(ctx, SpanContext::new(0xabc, 0x1f, 1, true));
}
