//! Elapsed time at nanosecond resolution, and its compound literal form
//! (`1h1m1s`, `1s500ms`, `0ns`).
use vstd::prelude::*;

use crate::text::{
    all_digits, chars_of, decimal, digit_value, digits_value, lemma_decimal_round_trip,
    push_decimal,
};

verus! {

/// Number of units in the literal grammar, from years down to nanoseconds.
pub const UNIT_COUNT: usize = 9;

const NANOS_PER_SEC: u128 = 1_000_000_000;

const NANOS_PER_DAY: u128 = 86_400 * NANOS_PER_SEC;

/// Length in nanoseconds of unit `i` (0 = year of 365 days, ..., 8 = nanosecond).
pub open spec fn unit_nanos(i: nat) -> nat {
    if i == 0 {
        365 * 86_400 * 1_000_000_000
    } else if i == 1 {
        7 * 86_400 * 1_000_000_000
    } else if i == 2 {
        86_400 * 1_000_000_000
    } else if i == 3 {
        3_600 * 1_000_000_000
    } else if i == 4 {
        60 * 1_000_000_000
    } else if i == 5 {
        1_000_000_000
    } else if i == 6 {
        1_000_000
    } else if i == 7 {
        1_000
    } else {
        1
    }
}

/// Suffix of unit `i` in a literal.
pub open spec fn unit_suffix(i: nat) -> Seq<char> {
    if i == 0 {
        seq!['y']
    } else if i == 1 {
        seq!['w']
    } else if i == 2 {
        seq!['d']
    } else if i == 3 {
        seq!['h']
    } else if i == 4 {
        seq!['m']
    } else if i == 5 {
        seq!['s']
    } else if i == 6 {
        seq!['m', 's']
    } else if i == 7 {
        seq!['u', 's']
    } else {
        seq!['n', 's']
    }
}

/// Greedy decomposition of `n` nanoseconds over units `i..`: one
/// `(coefficient, unit)` term for each unit that fits in what is left.
pub open spec fn duration_terms(n: nat, i: nat) -> Seq<(nat, nat)>
    decreases UNIT_COUNT - i,
{
    if i >= UNIT_COUNT {
        seq![]
    } else if n >= unit_nanos(i) {
        seq![(n / unit_nanos(i), i)] + duration_terms(n % unit_nanos(i), i + 1)
    } else {
        duration_terms(n, i + 1)
    }
}

/// Text of a sequence of terms: each coefficient in decimal followed by its unit's suffix.
pub open spec fn render_terms(ts: Seq<(nat, nat)>) -> Seq<char>
    decreases ts.len(),
{
    if ts.len() == 0 {
        seq![]
    } else {
        decimal(ts[0].0) + unit_suffix(ts[0].1) + render_terms(ts.skip(1))
    }
}

/// Total length in nanoseconds of a sequence of terms.
pub open spec fn terms_total(ts: Seq<(nat, nat)>) -> nat
    decreases ts.len(),
{
    if ts.len() == 0 {
        0
    } else {
        ts[0].0 * unit_nanos(ts[0].1) + terms_total(ts.skip(1))
    }
}

/// Every coefficient is positive and the units are valid and strictly descending
/// in size (strictly ascending in index), so no unit repeats.
pub open spec fn canonical_terms(ts: Seq<(nat, nat)>) -> bool {
    &&& forall|k: int| 0 <= k < ts.len() ==> (#[trigger] ts[k]).0 > 0 && ts[k].1 < UNIT_COUNT
    &&& forall|j: int, k: int| 0 <= j < k < ts.len() ==> (#[trigger] ts[j]).1 < (#[trigger] ts[k]).1
}

/// The literal of a duration of `n` nanoseconds: `0ns` for zero, else the greedy
/// decomposition from years down to nanoseconds.
pub open spec fn duration_literal(n: nat) -> Seq<char> {
    if n == 0 {
        seq!['0', 'n', 's']
    } else {
        render_terms(duration_terms(n, 0))
    }
}

/// Number of leading decimal digits of `s`.
pub open spec fn digit_run(s: Seq<char>) -> nat
    decreases s.len(),
{
    if s.len() > 0 && digit_value(s[0]) is Some {
        1 + digit_run(s.skip(1))
    } else {
        0
    }
}

/// The unit whose suffix starts `s`, with the suffix length; two-letter suffixes
/// take precedence over `m`.
pub open spec fn unit_at(s: Seq<char>) -> Option<(nat, nat)> {
    if s.len() >= 2 && s[1] == 's' && (s[0] == 'm' || s[0] == 'u' || s[0] == 'n') {
        Some((if s[0] == 'm' { 6nat } else if s[0] == 'u' { 7nat } else { 8nat }, 2nat))
    } else if s.len() >= 1 && s[0] == 'y' {
        Some((0nat, 1nat))
    } else if s.len() >= 1 && s[0] == 'w' {
        Some((1nat, 1nat))
    } else if s.len() >= 1 && s[0] == 'd' {
        Some((2nat, 1nat))
    } else if s.len() >= 1 && s[0] == 'h' {
        Some((3nat, 1nat))
    } else if s.len() >= 1 && s[0] == 'm' {
        Some((4nat, 1nat))
    } else if s.len() >= 1 && s[0] == 's' {
        Some((5nat, 1nat))
    } else {
        None
    }
}

/// Sum of the terms `<digits><suffix>` that make up all of `s` (zero for empty text),
/// or `None` when `s` is not such a sequence.
pub open spec fn decode_terms(s: Seq<char>) -> Option<nat>
    decreases s.len() via decode_terms_decreases
{
    if s.len() == 0 {
        Some(0)
    } else {
        let k = digit_run(s);
        if k == 0 {
            None
        } else {
            match unit_at(s.skip(k as int)) {
                None => None,
                Some((u, l)) => match decode_terms(s.skip((k + l) as int)) {
                    None => None,
                    Some(rest) => Some(digits_value(s.take(k as int)) * unit_nanos(u) + rest),
                },
            }
        }
    }
}

pub proof fn lemma_digit_run_len(s: Seq<char>)
    ensures
        digit_run(s) <= s.len(),
        forall|i: int| 0 <= i < digit_run(s) ==> (#[trigger] digit_value(s[i])) is Some,
        digit_run(s) < s.len() ==> digit_value(s[digit_run(s) as int]) is None,
    decreases s.len(),
{
    if s.len() > 0 && digit_value(s[0]) is Some {
        lemma_digit_run_len(s.skip(1));
        assert forall|i: int| 0 <= i < digit_run(s) implies (#[trigger] digit_value(s[i])) is Some by {
            if i > 0 {
                assert(s[i] == s.skip(1)[i - 1]);
            }
        }
        if digit_run(s) < s.len() {
            assert(s[digit_run(s) as int] == s.skip(1)[digit_run(s.skip(1)) as int]);
        }
    }
}

#[via_fn]
proof fn decode_terms_decreases(s: Seq<char>) {
    lemma_digit_run_len(s);
}

/// The number of nanoseconds a duration literal denotes; the empty text is no literal.
pub open spec fn decode_literal(s: Seq<char>) -> Option<nat> {
    if s.len() == 0 {
        None
    } else {
        decode_terms(s)
    }
}

/// The greedy decomposition over units `i..` is canonical and adds up to `n`, provided
/// `n` is below the unit before `i`.
pub proof fn lemma_duration_terms(n: nat, i: nat)
    requires
        i <= UNIT_COUNT,
        i == 0 || n < unit_nanos((i - 1) as nat),
    ensures
        canonical_terms(duration_terms(n, i)),
        terms_total(duration_terms(n, i)) == n,
        forall|k: int|
            0 <= k < duration_terms(n, i).len() ==> (#[trigger] duration_terms(n, i)[k]).1 >= i,
    decreases UNIT_COUNT - i,
{
    if i >= UNIT_COUNT {
        assert(n == 0);
    } else {
        let u = unit_nanos(i);
        if n >= u {
            let rest = duration_terms(n % u, i + 1);
            lemma_duration_terms(n % u, i + 1);
            let ts = duration_terms(n, i);
            assert(ts == seq![(n / u, i)] + rest);
            assert(ts.skip(1) =~= rest);
            assert(n / u > 0) by (nonlinear_arith)
                requires
                    n >= u,
                    u > 0,
            ;
            assert((n / u) * u + n % u == n) by (nonlinear_arith)
                requires
                    u > 0,
            ;
            assert forall|k: int| 0 < k < ts.len() implies #[trigger] ts[k] == rest[k - 1] by {}
        } else {
            lemma_duration_terms(n, i + 1);
        }
    }
}

/// `digit_run` stops at the end of a digit string followed by a non-digit.
pub proof fn lemma_digit_run_concat(a: Seq<char>, b: Seq<char>)
    requires
        all_digits(a),
        b.len() > 0 ==> digit_value(b[0]) is None,
    ensures
        digit_run(a + b) == a.len(),
    decreases a.len(),
{
    if a.len() == 0 {
        assert(a + b =~= b);
    } else {
        let t = a.skip(1);
        assert((a + b).skip(1) =~= t + b);
        assert(all_digits(t)) by {
            assert forall|i: int| 0 <= i < t.len() implies (#[trigger] digit_value(t[i])) is Some by {
                assert(t[i] == a[i + 1]);
            }
        }
        assert((a + b)[0] == a[0]);
        lemma_digit_run_concat(t, b);
    }
}

/// Rendering terms and decoding the text gives back their total.
pub proof fn lemma_decode_render(ts: Seq<(nat, nat)>)
    requires
        forall|k: int| 0 <= k < ts.len() ==> (#[trigger] ts[k]).1 < UNIT_COUNT,
    ensures
        decode_terms(render_terms(ts)) == Some(terms_total(ts)),
        render_terms(ts).len() > 0 ==> digit_value(render_terms(ts)[0]) is Some,
    decreases ts.len(),
{
    if ts.len() > 0 {
        let (c, u) = ts[0];
        let rest = ts.skip(1);
        assert forall|k: int| 0 <= k < rest.len() implies (#[trigger] rest[k]).1 < UNIT_COUNT by {
            assert(rest[k] == ts[k + 1]);
        }
        lemma_decode_render(rest);
        lemma_decimal_round_trip(c);
        let d = decimal(c);
        let sfx = unit_suffix(u);
        let tail = render_terms(rest);
        let s = render_terms(ts);
        assert(s == d + sfx + tail);
        assert(s =~= d + (sfx + tail));
        assert(sfx.len() > 0);
        assert((sfx + tail)[0] == sfx[0]);
        lemma_digit_run_concat(d, sfx + tail);
        assert(s.skip(d.len() as int) =~= sfx + tail);
        assert(s.take(d.len() as int) =~= d);
        assert(unit_at(sfx + tail) == Some((u, sfx.len())));
        assert(s.skip((d.len() + sfx.len()) as int) =~= tail);
        assert(s[0] == d[0]);
    }
}

/// Decoding the literal of a duration gives the duration back; for a non-zero
/// duration the literal is made of canonical terms: no zero coefficient, and
/// units strictly from largest to smallest, none repeated.
pub proof fn lemma_duration_round_trip(n: nat)
    ensures
        decode_literal(duration_literal(n)) == Some(n),
        n > 0 ==> duration_literal(n) == render_terms(duration_terms(n, 0)),
        n > 0 ==> canonical_terms(duration_terms(n, 0)),
        n > 0 ==> terms_total(duration_terms(n, 0)) == n,
{
    if n == 0 {
        let ts = seq![(0nat, 8nat)];
        lemma_decode_render(ts);
        assert(ts.skip(1) =~= Seq::<(nat, nat)>::empty());
        assert(render_terms(ts.skip(1)) == Seq::<char>::empty());
        assert(terms_total(ts.skip(1)) == 0);
        assert(decimal(0) == seq!['0']);
        assert(render_terms(ts) =~= duration_literal(0));
        assert(terms_total(ts) == 0);
    } else {
        let ts = duration_terms(n, 0);
        lemma_duration_terms(n, 0);
        lemma_decode_render(ts);
        if ts.len() == 0 {
            assert(terms_total(ts) == 0);
        }
        lemma_decimal_round_trip(ts[0].0);
        assert(render_terms(ts).len() > 0);
    }
}

/// A non-negative span of elapsed time, counted in nanoseconds.
#[derive(Clone, Copy, Debug, PartialEq, Eq)]
pub struct Duration {
    nanos: u128,
}

impl View for Duration {
    type V = nat;

    /// The number of nanoseconds.
    closed spec fn view(&self) -> nat {
        self.nanos as nat
    }
}

impl Duration {
    /// The empty duration.
    pub fn zero() -> (r: Duration)
        ensures
            r@ == 0,
    {
        Duration { nanos: 0 }
    }

    /// A duration of `nanos` nanoseconds.
    pub fn from_nanos(nanos: u64) -> (r: Duration)
        ensures
            r@ == nanos,
    {
        Duration { nanos: nanos as u128 }
    }

    /// A duration of `micros` microseconds.
    pub fn from_micros(micros: u64) -> (r: Duration)
        ensures
            r@ == micros * 1_000,
    {
        Duration { nanos: micros as u128 * 1_000 }
    }

    /// A duration of `millis` milliseconds.
    pub fn from_millis(millis: u64) -> (r: Duration)
        ensures
            r@ == millis * 1_000_000,
    {
        Duration { nanos: millis as u128 * 1_000_000 }
    }

    /// A duration of `secs` seconds.
    pub fn from_secs(secs: u64) -> (r: Duration)
        ensures
            r@ == secs * 1_000_000_000,
    {
        Duration { nanos: secs as u128 * NANOS_PER_SEC }
    }

    /// A duration of any number of nanoseconds that a `u128` holds.
    pub fn from_total_nanos(nanos: u128) -> (r: Duration)
        ensures
            r@ == nanos,
    {
        Duration { nanos }
    }

    /// The number of nanoseconds.
    pub fn as_nanos(&self) -> (r: u128)
        ensures
            r == self@,
    {
        self.nanos
    }
}

fn unit_nanos_of(i: usize) -> (r: u128)
    requires
        i < UNIT_COUNT,
    ensures
        r == unit_nanos(i as nat),
        r > 0,
{
    if i == 0 {
        365 * NANOS_PER_DAY
    } else if i == 1 {
        7 * NANOS_PER_DAY
    } else if i == 2 {
        NANOS_PER_DAY
    } else if i == 3 {
        3_600 * NANOS_PER_SEC
    } else if i == 4 {
        60 * NANOS_PER_SEC
    } else if i == 5 {
        NANOS_PER_SEC
    } else if i == 6 {
        1_000_000
    } else if i == 7 {
        1_000
    } else {
        1
    }
}

fn unit_suffix_of(i: usize) -> (r: &'static str)
    requires
        i < UNIT_COUNT,
    ensures
        r@ == unit_suffix(i as nat),
{
    proof {
        reveal_strlit("y");
        reveal_strlit("w");
        reveal_strlit("d");
        reveal_strlit("h");
        reveal_strlit("m");
        reveal_strlit("s");
        reveal_strlit("ms");
        reveal_strlit("us");
        reveal_strlit("ns");
    }
    if i == 0 {
        "y"
    } else if i == 1 {
        "w"
    } else if i == 2 {
        "d"
    } else if i == 3 {
        "h"
    } else if i == 4 {
        "m"
    } else if i == 5 {
        "s"
    } else if i == 6 {
        "ms"
    } else if i == 7 {
        "us"
    } else {
        "ns"
    }
}

/// Renders a duration as a compound literal: the largest units first, each with a
/// non-zero coefficient, and `0ns` for the empty duration.
pub fn duration_to_string(duration: Duration) -> (r: String)
    ensures
        r@ == duration_literal(duration@),
{
    let total = duration.as_nanos();
    if total == 0 {
        proof {
            reveal_strlit("0ns");
        }
        return "0ns".to_string();
    }
    let mut nanos = total;
    let mut result = String::new();
    let mut i: usize = 0;
    assert(result@ + render_terms(duration_terms(nanos as nat, 0)) =~= duration_literal(total as nat));
    while i < UNIT_COUNT
        invariant
            i <= UNIT_COUNT,
            total > 0,
            result@ + render_terms(duration_terms(nanos as nat, i as nat)) == duration_literal(
                total as nat,
            ),
        decreases UNIT_COUNT - i,
    {
        let unit = unit_nanos_of(i);
        if nanos >= unit {
            let ghost before = result@;
            let ghost rest = duration_terms((nanos % unit) as nat, (i + 1) as nat);
            let ghost ts = duration_terms(nanos as nat, i as nat);
            assert(ts == seq![((nanos / unit) as nat, i as nat)] + rest);
            assert(ts.skip(1) =~= rest);
            push_decimal(&mut result, nanos / unit);
            result.append(unit_suffix_of(i));
            nanos = nanos % unit;
            assert(result@ + render_terms(rest) =~= before + render_terms(ts));
        }
        i += 1;
    }
    assert(result@ + render_terms(duration_terms(nanos as nat, i as nat)) =~= result@);
    result
}

/// `acc` added to an optional total.
pub open spec fn offset_total(acc: nat, o: Option<nat>) -> Option<nat> {
    match o {
        Some(x) => Some(acc + x),
        None => None,
    }
}

/// `digit_run` of a text whose first `k` characters are digits and whose next is not.
pub proof fn lemma_digit_run_exact(x: Seq<char>, k: nat)
    requires
        k <= x.len(),
        forall|j: int| 0 <= j < k ==> (#[trigger] digit_value(x[j])) is Some,
        k < x.len() ==> digit_value(x[k as int]) is None,
    ensures
        digit_run(x) == k,
    decreases k,
{
    if k > 0 {
        assert forall|j: int| 0 <= j < k - 1 implies (#[trigger] digit_value(x.skip(1)[j])) is Some by {
            assert(x.skip(1)[j] == x[j + 1]);
        }
        if k - 1 < x.skip(1).len() {
            assert(x.skip(1)[k - 1] == x[k as int]);
        }
        lemma_digit_run_exact(x.skip(1), (k - 1) as nat);
        assert(digit_value(x[0]) is Some);
    }
}

/// Appending a digit does not decrease the value of a digit string.
pub proof fn lemma_digits_value_grows(x: Seq<char>, k: nat)
    requires
        k <= x.len(),
    ensures
        digits_value(x.take(k as int)) <= digits_value(x),
    decreases x.len() - k,
{
    if k < x.len() {
        lemma_digits_value_grows(x.drop_last(), k);
        assert(x.drop_last().take(k as int) =~= x.take(k as int));
    } else {
        assert(x.take(k as int) =~= x);
    }
}

/// Every term adds to the total: a total is at least its first term.
proof fn lemma_unit_positive(u: nat)
    ensures
        unit_nanos(u) >= 1,
{
}

fn digit_of(c: char) -> (r: Option<u128>)
    ensures
        r is Some <==> digit_value(c) is Some,
        r is Some ==> r.unwrap() == digit_value(c).unwrap(),
        r is Some ==> r.unwrap() < 10,
{
    if '0' <= c && c <= '9' {
        Some((c as u32 - '0' as u32) as u128)
    } else {
        None
    }
}

/// The unit whose suffix starts at `pos`, with the suffix length.
fn unit_at_pos(chars: &Vec<char>, pos: usize) -> (r: Option<(usize, usize)>)
    requires
        pos <= chars.len(),
    ensures
        r is Some <==> unit_at(chars@.skip(pos as int)) is Some,
        r is Some ==> r.unwrap().0 < UNIT_COUNT && unit_at(chars@.skip(pos as int)) == Some(
            (r.unwrap().0 as nat, r.unwrap().1 as nat),
        ),
{
    let n = chars.len();
    let ghost t = chars@.skip(pos as int);
    if pos >= n {
        return None;
    }
    assert(t[0] == chars@[pos as int]);
    if n - pos >= 2 {
        assert(t[1] == chars@[pos + 1]);
        if chars[pos + 1] == 's' && (chars[pos] == 'm' || chars[pos] == 'u' || chars[pos] == 'n') {
            let u: usize = if chars[pos] == 'm' {
                6
            } else if chars[pos] == 'u' {
                7
            } else {
                8
            };
            return Some((u, 2));
        }
    }
    let c = chars[pos];
    if c == 'y' {
        Some((0, 1))
    } else if c == 'w' {
        Some((1, 1))
    } else if c == 'd' {
        Some((2, 1))
    } else if c == 'h' {
        Some((3, 1))
    } else if c == 'm' {
        Some((4, 1))
    } else if c == 's' {
        Some((5, 1))
    } else {
        None
    }
}

/// Reads a duration literal (`1h30m`, `500ms`, `0ns`): terms of decimal digits each
/// followed by a unit suffix (`y`, `w`, `d`, `h`, `m`, `s`, `ms`, `us`, `ns`), whose
/// values are added up. `None` when the text is no such literal, or when its total
/// does not fit in a `u128` count of nanoseconds.
pub fn parse_duration(s: &str) -> (r: Option<Duration>)
    ensures
        r is Some <==> (decode_literal(s@) is Some && decode_literal(s@).unwrap() <= u128::MAX),
        r is Some ==> r.unwrap()@ == decode_literal(s@).unwrap(),
{
    let chars = chars_of(s);
    let n = chars.len();
    if n == 0 {
        return None;
    }
    let ghost c = chars@;
    let mut pos: usize = 0;
    let mut total: u128 = 0;
    assert(c.skip(0) =~= c);
    loop
        invariant
            c == chars@,
            c == s@,
            n == c.len(),
            n > 0,
            pos <= n,
            decode_terms(c) == offset_total(total as nat, decode_terms(c.skip(pos as int))),
        decreases n - pos,
    {
        if pos == n {
            assert(c.skip(pos as int) =~= Seq::<char>::empty());
            return Some(Duration::from_total_nanos(total));
        }
        let ghost rest = c.skip(pos as int);
        let start = pos;
        let mut value: u128 = 0;
        while pos < n
            invariant
                start <= pos <= n,
                n == c.len(),
                c == chars@,
                forall|j: int| start <= j < pos ==> (#[trigger] digit_value(c[j])) is Some,
                value == digits_value(c.subrange(start as int, pos as int)),
            ensures
                start <= pos <= n,
                forall|j: int| start <= j < pos ==> (#[trigger] digit_value(c[j])) is Some,
                pos < n ==> digit_value(c[pos as int]) is None || digits_value(
                    c.subrange(start as int, pos + 1),
                ) > u128::MAX,
                value == digits_value(c.subrange(start as int, pos as int)),
            decreases n - pos,
        {
            let d = match digit_of(chars[pos]) {
                Some(d) => d,
                None => break,
            };
            let ghost next = c.subrange(start as int, pos + 1);
            assert(next.drop_last() =~= c.subrange(start as int, pos as int));
            let grown = match value.checked_mul(10) {
                Some(t) => t.checked_add(d),
                None => None,
            };
            match grown {
                Some(v) => {
                    value = v;
                    pos += 1;
                },
                None => break,
            }
        }
        let k = pos - start;
        assert(rest.take(k as int) =~= c.subrange(start as int, pos as int));
        proof {
            assert forall|j: int| 0 <= j < k implies (#[trigger] digit_value(rest[j])) is Some by {
                assert(rest[j] == c[start + j]);
            }
            lemma_digit_run_len(rest);
        }
        if pos < n {
            if let Some(_) = digit_of(chars[pos]) {
                proof {
                    assert(rest.take(k + 1) =~= c.subrange(start as int, pos + 1));
                    assert(rest[k as int] == c[pos as int]);
                    lemma_digits_too_large(rest, (k + 1) as nat, total as nat);
                }
                return None;
            }
        }
        proof {
            if pos < n {
                assert(rest[k as int] == c[pos as int]);
            }
            lemma_digit_run_exact(rest, k as nat);
        }
        if k == 0 {
            return None;
        }
        assert(rest.skip(k as int) =~= c.skip(pos as int));
        let (u, l) = match unit_at_pos(&chars, pos) {
            Some(ul) => ul,
            None => return None,
        };
        assert(rest.skip((k + l) as int) =~= c.skip(pos + l));
        let unit = unit_nanos_of(u);
        let term = match value.checked_mul(unit) {
            Some(t) => t,
            None => {
                proof {
                    lemma_term_too_large(rest, k as nat, u as nat, l as nat);
                }
                return None;
            },
        };
        total = match total.checked_add(term) {
            Some(t) => t,
            None => {
                proof {
                    lemma_term_too_large(rest, k as nat, u as nat, l as nat);
                }
                return None;
            },
        };
        pos = pos + l;
    }
}

/// When the first `m` characters of `rest` are digits worth more than a `u128`, the
/// text starting there decodes to no total, or to one that does not fit.
proof fn lemma_digits_too_large(rest: Seq<char>, m: nat, acc: nat)
    requires
        m <= rest.len(),
        forall|j: int| 0 <= j < m ==> (#[trigger] digit_value(rest[j])) is Some,
        digits_value(rest.take(m as int)) > u128::MAX,
    ensures
        decode_terms(rest) matches Some(x) ==> acc + x > u128::MAX,
{
    lemma_digit_run_len(rest);
    let kk = digit_run(rest);
    if kk < m {
        assert(digit_value(rest[kk as int]) is Some);
    }
    if decode_terms(rest) is Some {
        let ul = unit_at(rest.skip(kk as int)).unwrap();
        let dv = digits_value(rest.take(kk as int));
        lemma_digits_value_grows(rest.take(kk as int), m);
        assert(rest.take(kk as int).take(m as int) =~= rest.take(m as int));
        lemma_unit_positive(ul.0);
        let un = unit_nanos(ul.0);
        assert(dv * un >= dv) by (nonlinear_arith)
            requires
                un >= 1,
        ;
    }
}

/// When the first term of `rest` (its `k` digits, then unit `u` with a suffix of
/// length `l`) is worth more than a `u128`, or the running total `acc` plus it is,
/// decoding gives no total that fits.
proof fn lemma_term_too_large(rest: Seq<char>, k: nat, u: nat, l: nat)
    requires
        k > 0,
        digit_run(rest) == k,
        unit_at(rest.skip(k as int)) == Some((u, l)),
    ensures
        decode_terms(rest) matches Some(x) ==> x >= digits_value(rest.take(k as int)) * unit_nanos(u),
{
}

} // verus!
