use vstd::prelude::*;
use vstd::string::*;
use crate::context::SpanContext;

verus! {

/// Name of the carrier entry that holds an encoded span context.
pub const TRACER_CONTEXT_HEADER_NAME: &'static str = "uber-trace-id";

/// Whether `c` is a hexadecimal digit, in either case.
pub open spec fn is_hex_digit(c: char) -> bool {
    ('0' as u32 <= c as u32 && c as u32 <= '9' as u32)
        || ('a' as u32 <= c as u32 && c as u32 <= 'f' as u32)
        || ('A' as u32 <= c as u32 && c as u32 <= 'F' as u32)
}

/// The value of a hexadecimal digit.
pub open spec fn digit_value(c: char) -> nat {
    if '0' as u32 <= c as u32 && c as u32 <= '9' as u32 {
        (c as u32 - '0' as u32) as nat
    } else if 'a' as u32 <= c as u32 && c as u32 <= 'f' as u32 {
        (c as u32 - 'a' as u32 + 10) as nat
    } else {
        (c as u32 - 'A' as u32 + 10) as nat
    }
}

pub open spec fn all_hex(s: Seq<char>) -> bool {
    forall|i: int| 0 <= i < s.len() ==> is_hex_digit(#[trigger] s[i])
}

/// The number that a sequence of hexadecimal digits denotes, most
/// significant digit first.
pub open spec fn hex_value(s: Seq<char>) -> nat
    decreases s.len(),
{
    if s.len() == 0 {
        0
    } else {
        hex_value(s.drop_last()) * 16 + digit_value(s.last())
    }
}

/// The lowercase digit for a value below sixteen.
pub open spec fn hex_char(d: nat) -> char {
    if d == 0 { '0' } else if d == 1 { '1' } else if d == 2 { '2' } else if d == 3 { '3' }
    else if d == 4 { '4' } else if d == 5 { '5' } else if d == 6 { '6' } else if d == 7 { '7' }
    else if d == 8 { '8' } else if d == 9 { '9' } else if d == 10 { 'a' } else if d == 11 { 'b' }
    else if d == 12 { 'c' } else if d == 13 { 'd' } else if d == 14 { 'e' } else { 'f' }
}

/// Lowercase hexadecimal form of `n`, without leading zeros (zero is `0`).
pub open spec fn hex_digits(n: nat) -> Seq<char>
    decreases n,
{
    if n < 16 {
        seq![hex_char(n)]
    } else {
        hex_digits(n / 16).push(hex_char(n % 16))
    }
}

/// Positions of the field separators in `s`, in increasing order.
pub open spec fn colon_positions(s: Seq<char>) -> Seq<int>
    decreases s.len(),
{
    if s.len() == 0 {
        Seq::empty()
    } else if s.last() == ':' {
        colon_positions(s.drop_last()).push(s.len() - 1)
    } else {
        colon_positions(s.drop_last())
    }
}

/// A field holds at least one digit, only digits, and a value up to `max`.
pub open spec fn valid_field(f: Seq<char>, max: nat) -> bool {
    f.len() > 0 && all_hex(f) && hex_value(f) <= max
}

/// The text form of a span context: trace id, span id, a parent field that
/// is always zero, and flags, each in lowercase hexadecimal, separated by
/// colons.
pub open spec fn encoded(ctx: SpanContext) -> Seq<char> {
    hex_digits(ctx.trace_id as nat) + seq![':'] + hex_digits(ctx.span_id as nat) + seq![':']
        + hex_digits(0) + seq![':'] + hex_digits(ctx.trace_flags as nat)
}

/// What decoding a carrier value yields: a remote context when the value has
/// exactly four well-formed hexadecimal fields whose values fit their
/// widths, and no context otherwise.
pub open spec fn decoded(s: Seq<char>) -> Option<SpanContext> {
    let p = colon_positions(s);
    if p.len() != 3 {
        None
    } else {
        let f0 = s.subrange(0, p[0]);
        let f1 = s.subrange(p[0] + 1, p[1]);
        let f2 = s.subrange(p[1] + 1, p[2]);
        let f3 = s.subrange(p[2] + 1, s.len() as int);
        if valid_field(f0, u128::MAX as nat) && valid_field(f1, u64::MAX as nat)
            && valid_field(f2, u64::MAX as nat) && valid_field(f3, u8::MAX as nat) {
            Some(SpanContext {
                trace_id: hex_value(f0) as u128,
                span_id: hex_value(f1) as u64,
                trace_flags: hex_value(f3) as u8,
                is_remote: true,
            })
        } else {
            None
        }
    }
}

fn digit_of(c: char) -> (r: Option<u128>)
    ensures
        r == (if is_hex_digit(c) { Some(digit_value(c) as u128) } else { None }),
        r matches Some(d) ==> d < 16,
{
    let v = c as u32;
    if '0' as u32 <= v && v <= '9' as u32 {
        Some((v - '0' as u32) as u128)
    } else if 'a' as u32 <= v && v <= 'f' as u32 {
        Some((v - 'a' as u32 + 10) as u128)
    } else if 'A' as u32 <= v && v <= 'F' as u32 {
        Some((v - 'A' as u32 + 10) as u128)
    } else {
        None
    }
}

fn chars_of(s: &str) -> (r: Vec<char>)
    ensures
        r@ == s@,
{
    let n = s.unicode_len();
    let mut v: Vec<char> = Vec::new();
    let mut i: usize = 0;
    while i < n
        invariant
            n == s@.len(),
            i <= n,
            v@ == s@.subrange(0, i as int),
        decreases n - i,
    {
        v.push(s.get_char(i));
        i += 1;
        assert(v@ =~= s@.subrange(0, i as int));
    }
    assert(v@ =~= s@);
    v
}

proof fn lemma_colon_positions(s: Seq<char>)
    ensures
        forall|i: int|
            0 <= i < colon_positions(s).len() ==> 0 <= #[trigger] colon_positions(s)[i] < s.len(),
        forall|i: int, j: int|
            0 <= i < j < colon_positions(s).len() ==> colon_positions(s)[i] < colon_positions(
                s,
            )[j],
    decreases s.len(),
{
    if s.len() > 0 {
        let p = colon_positions(s.drop_last());
        lemma_colon_positions(s.drop_last());
        if s.last() == ':' {
            assert forall|i: int, j: int|
                0 <= i < j < colon_positions(s).len() implies colon_positions(s)[i]
                < colon_positions(s)[j] by {
                if j == p.len() {
                    assert(p[i] < s.len() - 1);
                }
            }
        }
    }
}

fn find_colons(s: &Vec<char>) -> (r: Vec<usize>)
    ensures
        r@.len() == colon_positions(s@).len(),
        forall|i: int| 0 <= i < r@.len() ==> r@[i] as int == #[trigger] colon_positions(s@)[i],
{
    let mut r: Vec<usize> = Vec::new();
    let mut i: usize = 0;
    while i < s.len()
        invariant
            i <= s@.len(),
            r@.len() == colon_positions(s@.subrange(0, i as int)).len(),
            forall|k: int|
                0 <= k < r@.len() ==> r@[k] as int == #[trigger] colon_positions(
                    s@.subrange(0, i as int),
                )[k],
        decreases s@.len() - i,
    {
        assert(s@.subrange(0, i + 1).drop_last() =~= s@.subrange(0, i as int));
        if s[i] == ':' {
            r.push(i);
        }
        i += 1;
    }
    assert(s@.subrange(0, s@.len() as int) =~= s@);
    r
}

proof fn lemma_hex_value_prefix(s: Seq<char>, j: int)
    requires
        0 <= j <= s.len(),
    ensures
        hex_value(s.subrange(0, j)) <= hex_value(s),
    decreases s.len(),
{
    if j < s.len() {
        lemma_hex_value_prefix(s.drop_last(), j);
        assert(s.drop_last().subrange(0, j) =~= s.subrange(0, j));
    } else {
        assert(s.subrange(0, j) =~= s);
    }
}

fn parse_field(s: &Vec<char>, lo: usize, hi: usize, max: u128) -> (r: Option<u128>)
    requires
        lo <= hi <= s@.len(),
        max >= 15,
    ensures
        r == (if valid_field(s@.subrange(lo as int, hi as int), max as nat) {
            Some(hex_value(s@.subrange(lo as int, hi as int)) as u128)
        } else {
            None
        }),
{
    let ghost f = s@.subrange(lo as int, hi as int);
    if lo == hi {
        return None;
    }
    let mut acc: u128 = 0;
    let mut i: usize = lo;
    assert(s@.subrange(lo as int, lo as int) =~= Seq::<char>::empty());
    while i < hi
        invariant
            lo <= i <= hi <= s@.len(),
            f == s@.subrange(lo as int, hi as int),
            max >= 15,
            all_hex(s@.subrange(lo as int, i as int)),
            acc as nat == hex_value(s@.subrange(lo as int, i as int)),
            acc <= max,
        decreases hi - i,
    {
        let c = s[i];
        match digit_of(c) {
            None => {
                assert(f[i - lo] == c);
                return None;
            },
            Some(d) => {
                let ghost next = s@.subrange(lo as int, i + 1);
                assert(next.drop_last() =~= s@.subrange(lo as int, i as int));
                assert(hex_value(next) == acc * 16 + d);
                if acc > (max - d) / 16 {
                    assert(acc * 16 + d > max) by (nonlinear_arith)
                        requires
                            acc > (max - d) / 16,
                            d < 16,
                            max >= 15,
                    ;
                    proof {
                        if all_hex(f) {
                            lemma_hex_value_prefix(f, i + 1 - lo);
                            assert(f.subrange(0, i + 1 - lo) =~= next);
                        }
                    }
                    return None;
                }
                assert(acc * 16 + d <= max) by (nonlinear_arith)
                    requires
                        acc <= (max - d) / 16,
                        d < 16,
                        max >= 15,
                ;
                acc = acc * 16 + d;
                i += 1;
                assert forall|k: int| 0 <= k < next.len() implies is_hex_digit(#[trigger] next[k]) by {
                    if k < next.len() - 1 {
                        assert(next[k] == s@.subrange(lo as int, i - 1)[k]);
                    }
                }
            },
        }
    }
    assert(s@.subrange(lo as int, i as int) =~= f);
    Some(acc)
}

/// Decodes a carrier value. Malformed input yields no context: there is no
/// error case.
pub fn decode(value: &str) -> (r: Option<SpanContext>)
    ensures
        r == decoded(value@),
{
    let s = chars_of(value);
    let colons = find_colons(&s);
    if colons.len() != 3 {
        return None;
    }
    proof {
        lemma_colon_positions(s@);
        assert(colons@[0] as int == colon_positions(s@)[0]);
        assert(colons@[1] as int == colon_positions(s@)[1]);
        assert(colons@[2] as int == colon_positions(s@)[2]);
    }
    let p0 = colons[0];
    let p1 = colons[1];
    let p2 = colons[2];
    let t = parse_field(&s, 0, p0, u128::MAX);
    let sp = parse_field(&s, p0 + 1, p1, u64::MAX as u128);
    let parent = parse_field(&s, p1 + 1, p2, u64::MAX as u128);
    let f = parse_field(&s, p2 + 1, s.len(), u8::MAX as u128);
    match (t, sp, parent, f) {
        (Some(t), Some(sp), Some(_), Some(f)) => Some(
            SpanContext { trace_id: t, span_id: sp as u64, trace_flags: f as u8, is_remote: true },
        ),
        _ => None,
    }
}

proof fn lemma_hex_digits(n: nat)
    ensures
        hex_digits(n).len() > 0,
        all_hex(hex_digits(n)),
        forall|i: int| 0 <= i < hex_digits(n).len() ==> #[trigger] hex_digits(n)[i] != ':',
        hex_value(hex_digits(n)) == n,
    decreases n,
{
    let d = n % 16;
    assert(is_hex_digit(hex_char(d)) && hex_char(d) != ':' && digit_value(hex_char(d)) == d);
    if n < 16 {
        assert(hex_digits(n).drop_last() =~= Seq::<char>::empty());
        assert(hex_value(Seq::<char>::empty()) == 0);
        assert(hex_value(hex_digits(n)) == digit_value(hex_char(d)));
    } else {
        lemma_hex_digits(n / 16);
        let h = hex_digits(n);
        assert(h.drop_last() =~= hex_digits(n / 16));
        assert(h.last() == hex_char(d));
        assert(hex_value(h) == (n / 16) * 16 + d);
        assert forall|i: int| 0 <= i < h.len() implies is_hex_digit(#[trigger] h[i]) && h[i]
            != ':' by {
            if i < h.len() - 1 {
                assert(h[i] == hex_digits(n / 16)[i]);
            }
        }
    }
}

proof fn lemma_colons_unchanged(a: Seq<char>, b: Seq<char>)
    requires
        forall|i: int| 0 <= i < b.len() ==> #[trigger] b[i] != ':',
    ensures
        colon_positions(a + b) == colon_positions(a),
    decreases b.len(),
{
    if b.len() == 0 {
        assert(a + b =~= a);
    } else {
        lemma_colons_unchanged(a, b.drop_last());
        assert((a + b).drop_last() =~= a + b.drop_last());
        assert((a + b).last() == b[b.len() - 1]);
    }
}

proof fn lemma_colons_separator(a: Seq<char>)
    ensures
        colon_positions(a + seq![':']) == colon_positions(a).push(a.len() as int),
{
    assert((a + seq![':']).drop_last() =~= a);
}

/// Decoding the encoding of a context gives back its trace id, span id and
/// flags, marked as remote.
pub proof fn lemma_decode_encode(ctx: SpanContext)
    ensures
        decoded(encoded(ctx)) == Some(SpanContext { is_remote: true, ..ctx }),
{
    let h0 = hex_digits(ctx.trace_id as nat);
    let h1 = hex_digits(ctx.span_id as nat);
    let h2 = hex_digits(0);
    let h3 = hex_digits(ctx.trace_flags as nat);
    lemma_hex_digits(ctx.trace_id as nat);
    lemma_hex_digits(ctx.span_id as nat);
    lemma_hex_digits(0);
    lemma_hex_digits(ctx.trace_flags as nat);
    let sep = seq![':'];
    let a1 = h0 + sep;
    let a2 = a1 + h1;
    let a3 = a2 + sep;
    let a4 = a3 + h2;
    let a5 = a4 + sep;
    let s = a5 + h3;
    assert(s =~= encoded(ctx));
    lemma_colons_unchanged(Seq::empty(), h0);
    assert(Seq::<char>::empty() + h0 =~= h0);
    assert(colon_positions(Seq::<char>::empty()) == Seq::<int>::empty());
    lemma_colons_separator(h0);
    lemma_colons_unchanged(a1, h1);
    lemma_colons_separator(a2);
    lemma_colons_unchanged(a3, h2);
    lemma_colons_separator(a4);
    lemma_colons_unchanged(a5, h3);
    let p = colon_positions(s);
    assert(p =~= seq![h0.len() as int, a2.len() as int, a4.len() as int]);
    assert(s.subrange(0, p[0]) =~= h0);
    assert(s.subrange(p[0] + 1, p[1]) =~= h1);
    assert(s.subrange(p[1] + 1, p[2]) =~= h2);
    assert(s.subrange(p[2] + 1, s.len() as int) =~= h3);
}

/// A key/value transport for span contexts, such as request headers.
pub trait Carrier {
    /// The value stored under `key`, if any.
    fn get(&self, key: &str) -> Option<String>;

    /// Stores `value` under `key`; returns false when the carrier rejects the
    /// key.
    fn set(&mut self, key: &str, value: String) -> bool;
}

/// Writes the encoding of `ctx` into `carrier`. A carrier that rejects the
/// key is left as it is: injection never fails the caller.
pub fn inject<C: Carrier>(ctx: &SpanContext, carrier: &mut C) {
    let _ = carrier.set(TRACER_CONTEXT_HEADER_NAME, encode(ctx));
}

/// Reads a span context from `carrier`; a missing or malformed value gives
/// no context.
pub fn extract<C: Carrier>(carrier: &C) -> (r: Option<SpanContext>)
    ensures
        r matches Some(c) ==> c.is_remote,
{
    match carrier.get(TRACER_CONTEXT_HEADER_NAME) {
        Some(v) => decode(v.as_str()),
        None => None,
    }
}

fn hex_str(d: u128) -> (r: &'static str)
    requires
        d < 16,
    ensures
        r@ == seq![hex_char(d as nat)],
{
    if d == 0 {
        proof {
            reveal_strlit("0");
        }
        "0"
    } else if d == 1 {
        proof {
            reveal_strlit("1");
        }
        "1"
    } else if d == 2 {
        proof {
            reveal_strlit("2");
        }
        "2"
    } else if d == 3 {
        proof {
            reveal_strlit("3");
        }
        "3"
    } else if d == 4 {
        proof {
            reveal_strlit("4");
        }
        "4"
    } else if d == 5 {
        proof {
            reveal_strlit("5");
        }
        "5"
    } else if d == 6 {
        proof {
            reveal_strlit("6");
        }
        "6"
    } else if d == 7 {
        proof {
            reveal_strlit("7");
        }
        "7"
    } else if d == 8 {
        proof {
            reveal_strlit("8");
        }
        "8"
    } else if d == 9 {
        proof {
            reveal_strlit("9");
        }
        "9"
    } else if d == 10 {
        proof {
            reveal_strlit("a");
        }
        "a"
    } else if d == 11 {
        proof {
            reveal_strlit("b");
        }
        "b"
    } else if d == 12 {
        proof {
            reveal_strlit("c");
        }
        "c"
    } else if d == 13 {
        proof {
            reveal_strlit("d");
        }
        "d"
    } else if d == 14 {
        proof {
            reveal_strlit("e");
        }
        "e"
    } else {
        proof {
            reveal_strlit("f");
        }
        "f"
    }
}

fn separator() -> (r: &'static str)
    ensures
        r@ == seq![':'],
{
    proof {
        reveal_strlit(":");
    }
    ":"
}

fn push_hex(s: &mut String, n: u128)
    ensures
        final(s)@ == old(s)@ + hex_digits(n as nat),
    decreases n,
{
    if n >= 16 {
        push_hex(s, n / 16);
    }
    s.append(hex_str(n % 16));
    proof {
        if n < 16 {
            assert(old(s)@ + hex_digits(n as nat) =~= old(s)@.push(hex_char(n as nat)));
        } else {
            assert(old(s)@ + hex_digits(n as nat) =~= (old(s)@ + hex_digits(
                (n / 16) as nat,
            )).push(hex_char((n % 16) as nat)));
        }
    }
}

/// Encodes `ctx` as a carrier value.
pub fn encode(ctx: &SpanContext) -> (r: String)
    ensures
        r@ == encoded(*ctx),
{
    let mut s = String::new();
    push_hex(&mut s, ctx.trace_id);
    s.append(separator());
    push_hex(&mut s, ctx.span_id as u128);
    s.append(separator());
    push_hex(&mut s, 0);
    s.append(separator());
    push_hex(&mut s, ctx.trace_flags as u128);
    proof {
        assert(s@ =~= encoded(*ctx));
    }
    s
}

} // verus!
