//! Chat message sanitisation and approximate money figures for intel level 1.

use vstd::prelude::*;

use crate::text::{push_char, string_from_chars};

verus! {

/// Unicode general category Cc: U+0000..=U+001F and U+007F..=U+009F.
pub open spec fn is_control(c: char) -> bool {
    (c as u32) <= 0x1f || (0x7f <= (c as u32) && (c as u32) <= 0x9f)
}

/// Unicode White_Space property, the set that `str::trim` removes.
pub open spec fn is_white_space(c: char) -> bool {
    let u = c as u32;
    (0x09 <= u && u <= 0x0d) || u == 0x20 || u == 0x85 || u == 0xa0 || u == 0x1680
        || (0x2000 <= u && u <= 0x200a) || u == 0x2028 || u == 0x2029 || u == 0x202f
        || u == 0x205f || u == 0x3000
}

/// A character survives sanitisation unless it is a control character other than newline.
pub open spec fn keeps_char(c: char) -> bool {
    !is_control(c) || c == '\n'
}

/// The characters of `s` that are not control characters (newline excepted), in order.
pub open spec fn strip_controls(s: Seq<char>) -> Seq<char>
    decreases s.len(),
{
    if s.len() == 0 {
        s
    } else if keeps_char(s.last()) {
        strip_controls(s.drop_last()).push(s.last())
    } else {
        strip_controls(s.drop_last())
    }
}

/// `s` without its leading white space.
pub open spec fn trim_start(s: Seq<char>) -> Seq<char>
    decreases s.len(),
{
    if s.len() > 0 && is_white_space(s[0]) {
        trim_start(s.drop_first())
    } else {
        s
    }
}

/// `s` without its trailing white space.
pub open spec fn trim_end(s: Seq<char>) -> Seq<char>
    decreases s.len(),
{
    if s.len() > 0 && is_white_space(s.last()) {
        trim_end(s.drop_last())
    } else {
        s
    }
}

/// `s` without leading and trailing white space.
pub open spec fn trim(s: Seq<char>) -> Seq<char> {
    trim_end(trim_start(s))
}

/// What `sanitize_chat` returns for a message.
pub open spec fn sanitized(message: Seq<char>) -> Option<Seq<char>> {
    let t = trim(strip_controls(message));
    if t.len() == 0 {
        None
    } else {
        Some(t)
    }
}

proof fn lemma_trim_start_suffix(s: Seq<char>)
    ensures
        exists|k: int| 0 <= k <= s.len() && trim_start(s) == s.subrange(k, s.len() as int)
            && (forall|j: int| 0 <= j < k ==> is_white_space(#[trigger] s[j]))
            && (k < s.len() ==> !is_white_space(s[k])),
    decreases s.len(),
{
    if s.len() > 0 && is_white_space(s[0]) {
        lemma_trim_start_suffix(s.drop_first());
        let k = choose|k: int| 0 <= k <= s.drop_first().len()
            && trim_start(s.drop_first()) == s.drop_first().subrange(k, s.drop_first().len() as int)
            && (forall|j: int| 0 <= j < k ==> is_white_space(#[trigger] s.drop_first()[j]))
            && (k < s.drop_first().len() ==> !is_white_space(s.drop_first()[k]));
        assert(s.drop_first().subrange(k, s.drop_first().len() as int) =~= s.subrange(k + 1, s.len() as int));
        assert forall|j: int| 0 <= j < k + 1 implies is_white_space(#[trigger] s[j]) by {
            if j > 0 {
                assert(s[j] == s.drop_first()[j - 1]);
            }
        }
    } else {
        assert(s.subrange(0, s.len() as int) =~= s);
    }
}

proof fn lemma_trim_end_prefix(s: Seq<char>)
    ensures
        exists|k: int| 0 <= k <= s.len() && trim_end(s) == s.subrange(0, k)
            && (forall|j: int| k <= j < s.len() ==> is_white_space(#[trigger] s[j]))
            && (k > 0 ==> !is_white_space(s[k - 1])),
    decreases s.len(),
{
    if s.len() > 0 && is_white_space(s.last()) {
        lemma_trim_end_prefix(s.drop_last());
        let k = choose|k: int| 0 <= k <= s.drop_last().len()
            && trim_end(s.drop_last()) == s.drop_last().subrange(0, k)
            && (forall|j: int| k <= j < s.drop_last().len() ==> is_white_space(#[trigger] s.drop_last()[j]))
            && (k > 0 ==> !is_white_space(s.drop_last()[k - 1]));
        assert(s.drop_last().subrange(0, k) =~= s.subrange(0, k));
        assert forall|j: int| k <= j < s.len() implies is_white_space(#[trigger] s[j]) by {
            if j < s.len() - 1 {
                assert(s[j] == s.drop_last()[j]);
            }
        }
    } else {
        assert(s.subrange(0, s.len() as int) =~= s);
    }
}

/// `trim` removes exactly the white space before index `a` and from index `b` on,
/// where `s[a]` and `s[b - 1]` are not white space.
proof fn lemma_trim_window(s: Seq<char>, a: int, b: int)
    requires
        0 <= a <= b <= s.len(),
        forall|j: int| 0 <= j < a ==> is_white_space(#[trigger] s[j]),
        forall|j: int| b <= j < s.len() ==> is_white_space(#[trigger] s[j]),
        a < b ==> !is_white_space(s[a]) && !is_white_space(s[b - 1]),
        a == b ==> forall|j: int| 0 <= j < s.len() ==> is_white_space(#[trigger] s[j]),
    ensures
        trim(s) == s.subrange(a, b),
{
    lemma_trim_start_suffix(s);
    let k = choose|k: int| 0 <= k <= s.len() && trim_start(s) == s.subrange(k, s.len() as int)
        && (forall|j: int| 0 <= j < k ==> is_white_space(#[trigger] s[j]))
        && (k < s.len() ==> !is_white_space(s[k]));
    let t = trim_start(s);
    lemma_trim_end_prefix(t);
    let m = choose|m: int| 0 <= m <= t.len() && trim_end(t) == t.subrange(0, m)
        && (forall|j: int| m <= j < t.len() ==> is_white_space(#[trigger] t[j]))
        && (m > 0 ==> !is_white_space(t[m - 1]));
    if a < b {
        if k < a {
            assert(is_white_space(s[k]));
        }
        if k > a {
            assert(is_white_space(s[a]));
        }
        assert(k == a);
        if k + m > b {
            assert(t[b - 1 - k] == s[b - 1]);
        }
        if k + m < b {
            assert(t[b - 1 - k] == s[b - 1]);
            assert(is_white_space(t[b - 1 - k]));
        }
        assert(k + m == b);
        assert(t.subrange(0, m) =~= s.subrange(a, b));
    } else {
        if k < s.len() {
            assert(is_white_space(s[k]));
        }
        assert(k == s.len());
        assert(t.len() == 0);
        assert(t.subrange(0, m) =~= s.subrange(a, b));
    }
}

/// `trim` leaves nothing exactly when every character is white space.
pub proof fn lemma_trim_empty_iff_blank(s: Seq<char>)
    ensures
        (trim(s).len() == 0) == (forall|j: int| 0 <= j < s.len() ==> is_white_space(#[trigger] s[j])),
{
    lemma_trim_start_suffix(s);
    let k = choose|k: int| 0 <= k <= s.len() && trim_start(s) == s.subrange(k, s.len() as int)
        && (forall|j: int| 0 <= j < k ==> is_white_space(#[trigger] s[j]))
        && (k < s.len() ==> !is_white_space(s[k]));
    let t = trim_start(s);
    lemma_trim_end_prefix(t);
    let m = choose|m: int| 0 <= m <= t.len() && trim_end(t) == t.subrange(0, m)
        && (forall|j: int| m <= j < t.len() ==> is_white_space(#[trigger] t[j]))
        && (m > 0 ==> !is_white_space(t[m - 1]));
    if k < s.len() {
        assert(t[0] == s[k]);
        if m == 0 {
            assert(is_white_space(t[0]));
        }
        assert(!is_white_space(s[k]));
    }
}

proof fn lemma_strip_controls_keeps(s: Seq<char>)
    ensures
        forall|j: int| 0 <= j < strip_controls(s).len() ==> keeps_char(#[trigger] strip_controls(s)[j]),
    decreases s.len(),
{
    if s.len() > 0 {
        lemma_strip_controls_keeps(s.drop_last());
        let p = strip_controls(s.drop_last());
        if keeps_char(s.last()) {
            assert forall|j: int| 0 <= j < strip_controls(s).len() implies keeps_char(#[trigger] strip_controls(s)[j]) by {
                if j < p.len() {
                    assert(strip_controls(s)[j] == p[j]);
                }
            }
        }
    }
}

proof fn lemma_strip_controls_identity(s: Seq<char>)
    requires
        forall|j: int| 0 <= j < s.len() ==> keeps_char(#[trigger] s[j]),
    ensures
        strip_controls(s) == s,
    decreases s.len(),
{
    if s.len() > 0 {
        lemma_strip_controls_identity(s.drop_last());
        assert(s.drop_last().push(s.last()) =~= s);
    }
}

/// The trimmed text is a run of the text that starts and ends with a
/// character that is not white space (when it is not empty).
proof fn lemma_trim_shape(c: Seq<char>)
    ensures
        exists|a: int| 0 <= a && a + trim(c).len() <= c.len() && trim(c) == #[trigger] c.subrange(a, a + trim(c).len()),
        trim(c).len() > 0 ==> !is_white_space(trim(c)[0]) && !is_white_space(trim(c).last()),
{
    lemma_trim_start_suffix(c);
    let k = choose|k: int| 0 <= k <= c.len() && trim_start(c) == c.subrange(k, c.len() as int)
        && (forall|j: int| 0 <= j < k ==> is_white_space(#[trigger] c[j]))
        && (k < c.len() ==> !is_white_space(c[k]));
    let u = trim_start(c);
    lemma_trim_end_prefix(u);
    let m = choose|m: int| 0 <= m <= u.len() && trim_end(u) == u.subrange(0, m)
        && (forall|j: int| m <= j < u.len() ==> is_white_space(#[trigger] u[j]))
        && (m > 0 ==> !is_white_space(u[m - 1]));
    assert(trim(c) =~= c.subrange(k, k + m));
    if m > 0 {
        assert(trim(c)[0] == c[k]);
        assert(trim(c).last() == u[m - 1]);
    }
}

/// A sanitized message is left as it is by a second sanitization.
pub proof fn sanitizing_is_idempotent(message: Seq<char>)
    ensures
        sanitized(message) matches Some(t) ==> sanitized(t) == Some(t),
{
    let c = strip_controls(message);
    let t = trim(c);
    if t.len() > 0 {
        lemma_strip_controls_keeps(message);
        lemma_trim_shape(c);
        let a = choose|a: int| 0 <= a && a + t.len() <= c.len() && t == #[trigger] c.subrange(a, a + t.len());
        assert forall|j: int| 0 <= j < t.len() implies keeps_char(#[trigger] t[j]) by {
            assert(t[j] == c[a + j]);
        }
        lemma_strip_controls_identity(t);
        lemma_trim_window(t, 0, t.len() as int);
        assert(t.subrange(0, t.len() as int) =~= t);
    }
}

proof fn lemma_utf8_len_concat(a: Seq<char>, b: Seq<char>)
    ensures
        vstd::utf8::encode_utf8(a + b).len() == vstd::utf8::encode_utf8(a).len() + vstd::utf8::encode_utf8(b).len(),
    decreases a.len(),
{
    if a.len() > 0 {
        assert((a + b)[0] == a[0]);
        assert((a + b).drop_first() =~= a.drop_first() + b);
        lemma_utf8_len_concat(a.drop_first(), b);
    } else {
        assert(a + b =~= b);
    }
}

proof fn lemma_strip_controls_shorter(s: Seq<char>)
    ensures
        vstd::utf8::encode_utf8(strip_controls(s)).len() <= vstd::utf8::encode_utf8(s).len(),
    decreases s.len(),
{
    if s.len() > 0 {
        let p = s.drop_last();
        lemma_strip_controls_shorter(p);
        assert(p + seq![s.last()] =~= s);
        lemma_utf8_len_concat(p, seq![s.last()]);
        if keeps_char(s.last()) {
            assert(strip_controls(p).push(s.last()) =~= strip_controls(p) + seq![s.last()]);
            lemma_utf8_len_concat(strip_controls(p), seq![s.last()]);
        }
    }
}

proof fn lemma_run_shorter(c: Seq<char>, a: int, b: int)
    requires
        0 <= a <= b <= c.len(),
    ensures
        vstd::utf8::encode_utf8(c.subrange(a, b)).len() <= vstd::utf8::encode_utf8(c).len(),
{
    let front = c.subrange(0, a);
    let mid = c.subrange(a, b);
    let back = c.subrange(b, c.len() as int);
    assert(front + mid + back =~= c);
    lemma_utf8_len_concat(front + mid, back);
    lemma_utf8_len_concat(front, mid);
}

/// A sanitized message is not empty, has no white space at either end, holds
/// no control character but newline, and is no longer in UTF-8 bytes than the
/// message it came from.
pub proof fn sanitized_text_shape(message: Seq<char>)
    ensures
        sanitized(message) matches Some(t) ==> {
            &&& t.len() > 0
            &&& trim(t) == t
            &&& forall|j: int| 0 <= j < t.len() ==> keeps_char(#[trigger] t[j])
            &&& forall|j: int| 0 <= j < t.len() ==> (!is_control(#[trigger] t[j]) || t[j] == '\n')
            &&& vstd::utf8::encode_utf8(t).len() <= vstd::utf8::encode_utf8(message).len()
        },
{
    let c = strip_controls(message);
    let t = trim(c);
    if t.len() > 0 {
        lemma_strip_controls_keeps(message);
        lemma_trim_shape(c);
        let a = choose|a: int| 0 <= a && a + t.len() <= c.len() && t == #[trigger] c.subrange(a, a + t.len());
        assert forall|j: int| 0 <= j < t.len() implies keeps_char(#[trigger] t[j]) by {
            assert(t[j] == c[a + j]);
        }
        lemma_trim_window(t, 0, t.len() as int);
        assert(t.subrange(0, t.len() as int) =~= t);
        lemma_run_shorter(c, a, a + t.len());
        lemma_strip_controls_shorter(message);
    }
}

/// Sanitizing removes every control character but newline and keeps every
/// other character of the message (white space at the ends aside): a
/// message with no control character and no surrounding white space comes
/// back unchanged, and one with a carriage return never keeps it.
pub proof fn sanitizing_strips_only_controls(message: Seq<char>)
    ensures
        sanitized(message) matches Some(t) ==> forall|j: int| 0 <= j < t.len() ==> t[j] != '\r'
            && (!is_control(#[trigger] t[j]) || t[j] == '\n'),
        (message.len() > 0
            && (forall|j: int| 0 <= j < message.len() ==> !is_control(#[trigger] message[j]))
            && !is_white_space(message[0]) && !is_white_space(message.last()))
            ==> sanitized(message) == Some(message),
{
    sanitized_text_shape(message);
    if message.len() > 0
        && (forall|j: int| 0 <= j < message.len() ==> !is_control(#[trigger] message[j]))
        && !is_white_space(message[0]) && !is_white_space(message.last()) {
        assert forall|j: int| 0 <= j < message.len() implies keeps_char(#[trigger] message[j]) by {
            assert(!is_control(message[j]));
        }
        lemma_strip_controls_identity(message);
        lemma_trim_window(message, 0, message.len() as int);
        assert(message.subrange(0, message.len() as int) =~= message);
    }
}

/// Sanitize a chat message: strip control characters (newlines are kept),
/// then trim white space. Returns `None` if nothing is left.
pub fn sanitize_chat(message: &str) -> (r: Option<String>)
    ensures
        match (r, sanitized(message@)) {
            (Some(s), Some(t)) => s@ == t,
            (None, None) => true,
            _ => false,
        },
        r matches Some(s) ==> forall|j: int| 0 <= j < s@.len() ==> (!is_control(#[trigger] s@[j]) || s@[j] == '\n'),
{
    let mut cleaned: Vec<char> = Vec::new();
    let ghost src = message@;
    for c in it: message.chars()
        invariant
            it.seq() == src,
            cleaned@ == strip_controls(src.take(it.index() as int)),
    {
        proof {
            assert(src.take(it.index() + 1).drop_last() =~= src.take(it.index() as int));
            assert(src.take(it.index() + 1).last() == c);
        }
        let control = (c as u32) <= 0x1f || (0x7f <= (c as u32) && (c as u32) <= 0x9f);
        if !control || c == '\n' {
            cleaned.push(c);
        }
    }
    proof {
        assert(src.take(src.len() as int) =~= src);
    }
    let t = trim_chars(&cleaned);
    proof {
        sanitized_text_shape(src);
    }
    if t.len() == 0 {
        None
    } else {
        Some(string_from_chars(&t, 0, t.len()))
    }
}

/// The characters of `cleaned` without leading and trailing white space.
pub(crate) fn trim_chars(cleaned: &Vec<char>) -> (r: Vec<char>)
    ensures
        r@ == trim(cleaned@),
{
    let n = cleaned.len();
    let mut start: usize = 0;
    while start < n && is_white_space_char(cleaned[start])
        invariant
            n == cleaned.len(),
            start <= n,
            forall|j: int| 0 <= j < start ==> is_white_space(#[trigger] cleaned@[j]),
        decreases n - start,
    {
        start += 1;
    }
    let mut end: usize = n;
    while end > start && is_white_space_char(cleaned[end - 1])
        invariant
            n == cleaned.len(),
            start <= end <= n,
            forall|j: int| end <= j < n ==> is_white_space(#[trigger] cleaned@[j]),
        decreases end,
    {
        end -= 1;
    }
    proof {
        if start == end {
            assert forall|j: int| 0 <= j < n implies is_white_space(#[trigger] cleaned@[j]) by {
                if j >= end {
                } else {
                }
            }
        }
        lemma_trim_window(cleaned@, start as int, end as int);
    }
    let mut r: Vec<char> = Vec::new();
    let mut i = start;
    while i < end
        invariant
            start <= i <= end <= cleaned.len(),
            r@ == cleaned@.subrange(start as int, i as int),
        decreases end - i,
    {
        r.push(cleaned[i]);
        assert(cleaned@.subrange(start as int, i + 1) =~= cleaned@.subrange(start as int, i as int).push(cleaned@[i as int]));
        i += 1;
    }
    r
}

pub(crate) fn is_white_space_char(c: char) -> (b: bool)
    ensures
        b == is_white_space(c),
{
    let u = c as u32;
    (0x09 <= u && u <= 0x0d) || u == 0x20 || u == 0x85 || u == 0xa0 || u == 0x1680
        || (0x2000 <= u && u <= 0x200a) || u == 0x2028 || u == 0x2029 || u == 0x202f
        || u == 0x205f || u == 0x3000
}


/// Rounding bucket for a magnitude: 1,000 below 10,000; 100,000 below
/// 1,000,000; 1,000,000 otherwise.
pub open spec fn money_bucket(abs: int) -> int {
    if abs < 10_000 {
        1_000
    } else if abs < 1_000_000 {
        100_000
    } else {
        1_000_000
    }
}

/// The magnitude rounded half-up to the nearest multiple of its bucket.
pub open spec fn rounded_magnitude(abs: int) -> int {
    let b = money_bucket(abs);
    ((abs + b / 2) / b) * b
}

/// Reinterprets a value in `0..2^64` as a two's-complement `i64`.
pub open spec fn wrap_i64(x: int) -> int {
    if x <= i64::MAX {
        x
    } else {
        x - 0x1_0000_0000_0000_0000
    }
}

/// What `approximate_money` returns: the rounded magnitude, reinterpreted as
/// an `i64`, with the sign of the input.
pub open spec fn approximate_money_spec(value: int) -> int {
    let abs = if value >= 0 { value } else { -value };
    let r = wrap_i64(rounded_magnitude(abs));
    if value >= 0 {
        r
    } else {
        -r
    }
}

/// Round a money value to an approximate range for intel level 1 (basic
/// financials): values below 10,000 in magnitude go to the nearest 1,000,
/// below 1,000,000 to the nearest 100,000, and larger ones to the nearest
/// 1,000,000 (halves round away from zero).
pub fn approximate_money(value: i64) -> (r: i64)
    ensures
        r == approximate_money_spec(value as int),
{
    let abs: u64 = if value >= 0 {
        value as u64
    } else {
        ((-(value + 1)) as u64) + 1
    };
    let bucket: u64 = if abs < 10_000 {
        1_000
    } else if abs < 1_000_000 {
        100_000
    } else {
        1_000_000
    };
    let q = (abs + bucket / 2) / bucket;
    assert(q * bucket <= abs + bucket / 2) by (nonlinear_arith)
        requires
            q as int == (abs as int + bucket as int / 2) / (bucket as int),
            bucket > 0,
    ;
    let rounded: u64 = q * bucket;
    let signed: i64 = if rounded <= i64::MAX as u64 {
        rounded as i64
    } else {
        let over: u64 = rounded - (i64::MAX as u64) - 1;
        i64::MIN + (over as i64)
    };
    if value >= 0 {
        signed
    } else {
        -signed
    }
}

/// An approximation is a multiple of its bucket, and it lies within half a
/// bucket of the exact value (for magnitudes that stay in `i64` range once rounded).
pub proof fn approximation_is_close(value: i64)
    requires
        rounded_magnitude(if value >= 0 { value as int } else { -value }) <= i64::MAX,
    ensures
        ({
            let abs = if value >= 0 { value as int } else { -value };
            let b = money_bucket(abs);
            let r = approximate_money_spec(value as int);
            &&& r % b == 0
            &&& r - value <= b / 2
            &&& value - r <= b / 2
            &&& (value >= 0 ==> r >= 0)
            &&& (value <= 0 ==> r <= 0)
        }),
{
    let abs = if value >= 0 { value as int } else { -value };
    let b = money_bucket(abs);
    let q = (abs + b / 2) / b;
    assert(q * b <= abs + b / 2 < q * b + b) by (nonlinear_arith)
        requires
            q == (abs + b / 2) / b,
            b > 0,
    ;
    vstd::arithmetic::div_mod::lemma_mod_multiples_basic(q, b);
    vstd::arithmetic::div_mod::lemma_mod_multiples_basic(-q, b);
    assert((-q) * b == -(q * b)) by (nonlinear_arith);
    assert(q >= 0) by (nonlinear_arith)
        requires
            q == (abs + b / 2) / b,
            b > 0,
            abs >= 0,
    ;
    assert(q * b >= 0) by (nonlinear_arith)
        requires
            q >= 0,
            b > 0,
    ;
}

/// Approximation is symmetric: negating the input negates the output.
pub proof fn approximation_is_odd(value: i64)
    requires
        value > i64::MIN,
    ensures
        approximate_money_spec(-(value as int)) == -approximate_money_spec(value as int),
{
}

} // verus!
