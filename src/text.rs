//! Text building blocks shared by every statement renderer.
use vstd::prelude::*;

verus! {

/// Appends `part` to a statement under construction: parts are separated by
/// exactly one space, and an empty part leaves the statement unchanged.
pub open spec fn glue(prev: Seq<char>, part: Seq<char>) -> Seq<char> {
    if part.len() == 0 {
        prev
    } else if prev.len() == 0 {
        part
    } else {
        prev + " "@ + part
    }
}

/// Clauses glued one after the other, first to last.
pub open spec fn assemble(parts: Seq<Seq<char>>) -> Seq<char>
    decreases parts.len(),
{
    if parts.len() == 0 {
        seq![]
    } else {
        glue(assemble(parts.drop_last()), parts.last())
    }
}

/// The clauses that are present (not empty), in order.
pub open spec fn present(parts: Seq<Seq<char>>) -> Seq<Seq<char>> {
    parts.filter(|p: Seq<char>| p.len() > 0)
}

pub proof fn lemma_assemble_push(parts: Seq<Seq<char>>, p: Seq<char>)
    ensures
        assemble(parts.push(p)) == glue(assemble(parts), p),
{
    assert(parts.push(p).drop_last() =~= parts);
}

pub proof fn lemma_assemble_take(parts: Seq<Seq<char>>, k: int)
    requires
        0 <= k < parts.len(),
    ensures
        assemble(parts.take(k + 1)) == glue(assemble(parts.take(k)), parts[k]),
{
    assert(parts.take(k + 1) =~= parts.take(k).push(parts[k]));
    lemma_assemble_push(parts.take(k), parts[k]);
}

/// A statement's text is its present clauses and nothing more, each separated from
/// the next by exactly one space: a clause that is absent leaves no trace.
pub proof fn lemma_assemble_joins_present(parts: Seq<Seq<char>>)
    ensures
        assemble(parts) == join(present(parts), " "@),
        assemble(parts).len() == 0 <==> present(parts).len() == 0,
    decreases parts.len(),
{
    reveal_strlit(" ");
    let pred = |p: Seq<char>| p.len() > 0;
    if parts.len() == 0 {
        assert(parts.filter(pred) =~= Seq::<Seq<char>>::empty()) by {
            reveal(Seq::filter);
        }
    } else {
        let init = parts.drop_last();
        let last = parts.last();
        lemma_assemble_joins_present(init);
        assert(parts =~= init.push(last));
        init.lemma_filter_push(last, pred);
        let xs = present(init);
        if last.len() > 0 {
            assert(present(parts) == xs.push(last));
            assert(xs.push(last).drop_last() =~= xs);
            if xs.len() == 0 {
                assert(join(xs.push(last), " "@) == xs.push(last)[0]);
            }
        }
    }
}

/// Adds one clause to `query` (see [`glue`]).
pub fn push_clause(query: &mut String, part: &str)
    ensures
        final(query)@ == glue(old(query)@, part@),
{
    if part.is_empty() {
        return;
    }
    if !query.as_str().is_empty() {
        query.append(" ");
    }
    query.append(part);
}

/// A value that can stand as a piece of statement text.
pub trait IntoText: Sized {
    /// The characters the value stands for.
    spec fn text(&self) -> Seq<char>;

    /// Converts the value into an owned string holding [`IntoText::text`].
    fn into_text(self) -> (r: String)
        ensures
            r@ == self.text(),
    ;
}

impl<'a> IntoText for &'a str {
    open spec fn text(&self) -> Seq<char> {
        (*self)@
    }

    fn into_text(self) -> (r: String) {
        self.to_string()
    }
}

impl IntoText for String {
    open spec fn text(&self) -> Seq<char> {
        self@
    }

    fn into_text(self) -> (r: String) {
        self
    }
}

/// The character of a decimal digit.
pub open spec fn digit_char(d: nat) -> char {
    if d == 0 {
        '0'
    } else if d == 1 {
        '1'
    } else if d == 2 {
        '2'
    } else if d == 3 {
        '3'
    } else if d == 4 {
        '4'
    } else if d == 5 {
        '5'
    } else if d == 6 {
        '6'
    } else if d == 7 {
        '7'
    } else if d == 8 {
        '8'
    } else {
        '9'
    }
}

/// The value of a decimal digit character, if it is one.
pub open spec fn digit_value(c: char) -> Option<nat> {
    if '0' <= c && c <= '9' {
        Some((c as u32 - '0' as u32) as nat)
    } else {
        None
    }
}

/// Shortest decimal notation of `n`, without sign or leading zeros.
pub open spec fn decimal(n: nat) -> Seq<char>
    decreases n,
{
    if n < 10 {
        seq![digit_char(n)]
    } else {
        decimal(n / 10).push(digit_char(n % 10))
    }
}

/// The number that a string of decimal digits denotes.
pub open spec fn digits_value(s: Seq<char>) -> nat
    decreases s.len(),
{
    if s.len() == 0 {
        0
    } else {
        digits_value(s.drop_last()) * 10 + match digit_value(s.last()) {
            Some(d) => d,
            None => 0,
        }
    }
}

/// Every character of `s` is a decimal digit.
pub open spec fn all_digits(s: Seq<char>) -> bool {
    forall|i: int| 0 <= i < s.len() ==> (#[trigger] digit_value(s[i])) is Some
}

pub proof fn lemma_digit_char(d: nat)
    requires
        d < 10,
    ensures
        digit_value(digit_char(d)) == Some(d),
{
}

/// Decimal notation is made of digits only, and reads back as the number it was made from.
pub proof fn lemma_decimal_round_trip(n: nat)
    ensures
        decimal(n).len() > 0,
        all_digits(decimal(n)),
        digits_value(decimal(n)) == n,
    decreases n,
{
    if n < 10 {
        lemma_digit_char(n);
        assert(decimal(n).drop_last() =~= Seq::<char>::empty());
        assert(digits_value(Seq::<char>::empty()) == 0);
    } else {
        lemma_decimal_round_trip(n / 10);
        lemma_digit_char(n % 10);
        let s = decimal(n);
        assert(s.drop_last() =~= decimal(n / 10));
        assert(s.last() == digit_char(n % 10));
        assert((n / 10) * 10 + n % 10 == n) by (nonlinear_arith);
        assert forall|i: int| 0 <= i < s.len() implies (#[trigger] digit_value(s[i])) is Some by {
            if i < s.len() - 1 {
                assert(s[i] == decimal(n / 10)[i]);
            }
        }
    }
}

/// The one-character string of digit `d`.
fn digit_str(d: u128) -> (r: &'static str)
    requires
        d < 10,
    ensures
        r@ == seq![digit_char(d as nat)],
{
    proof {
        reveal_strlit("0");
        reveal_strlit("1");
        reveal_strlit("2");
        reveal_strlit("3");
        reveal_strlit("4");
        reveal_strlit("5");
        reveal_strlit("6");
        reveal_strlit("7");
        reveal_strlit("8");
        reveal_strlit("9");
    }
    if d == 0 {
        "0"
    } else if d == 1 {
        "1"
    } else if d == 2 {
        "2"
    } else if d == 3 {
        "3"
    } else if d == 4 {
        "4"
    } else if d == 5 {
        "5"
    } else if d == 6 {
        "6"
    } else if d == 7 {
        "7"
    } else if d == 8 {
        "8"
    } else {
        "9"
    }
}

/// Appends the decimal notation of `n` to `out`.
pub fn push_decimal(out: &mut String, n: u128)
    ensures
        final(out)@ == old(out)@ + decimal(n as nat),
    decreases n,
{
    if n >= 10 {
        push_decimal(out, n / 10);
    }
    out.append(digit_str(n % 10));
    proof {
        if n >= 10 {
            assert(decimal(n as nat) == decimal((n / 10) as nat).push(digit_char((n % 10) as nat)));
        }
    }
    assert(final(out)@ =~= old(out)@ + decimal(n as nat));
}

/// Concatenation of `parts` with `sep` between consecutive ones.
pub open spec fn join(parts: Seq<Seq<char>>, sep: Seq<char>) -> Seq<char>
    decreases parts.len(),
{
    if parts.len() == 0 {
        seq![]
    } else if parts.len() == 1 {
        parts[0]
    } else {
        join(parts.drop_last(), sep) + sep + parts.last()
    }
}

/// The character sequences of a list of strings.
pub open spec fn texts(v: Seq<String>) -> Seq<Seq<char>> {
    v.map_values(|s: String| s@)
}

/// Joins `parts` with `sep` between consecutive ones.
pub fn join_strings(parts: &Vec<String>, sep: &str) -> (r: String)
    ensures
        r@ == join(texts(parts@), sep@),
{
    let ghost ps = texts(parts@);
    let mut out = String::new();
    let mut i: usize = 0;
    assert(ps.take(0) =~= Seq::<Seq<char>>::empty());
    while i < parts.len()
        invariant
            i <= parts.len(),
            ps == texts(parts@),
            out@ == join(ps.take(i as int), sep@),
        decreases parts.len() - i,
    {
        if i > 0 {
            out.append(sep);
        }
        out.append(parts[i].as_str());
        assert(ps.take(i + 1).drop_last() =~= ps.take(i as int));
        if i == 0 {
            assert(ps.take(1) =~= seq![ps[0]]);
        }
        assert(out@ =~= join(ps.take(i + 1), sep@));
        i += 1;
    }
    assert(ps.take(i as int) =~= ps);
    out
}

/// Copies a list of string-like values into owned strings.
pub fn collect_texts<S: IntoText>(items: Vec<S>) -> (r: Vec<String>)
    ensures
        texts(r@) == items@.map_values(|s: S| s.text()),
{
    let mut items = items;
    let mut out: Vec<String> = Vec::new();
    let ghost all = items@;
    assert(texts(out@) + items@.map_values(|s: S| s.text()) =~= all.map_values(|s: S| s.text()));
    while items.len() > 0
        invariant
            texts(out@) + items@.map_values(|s: S| s.text()) == all.map_values(|s: S| s.text()),
        decreases items.len(),
    {
        let ghost before = items@;
        let x = items.remove(0);
        assert(before =~= seq![x] + items@);
        let t = x.into_text();
        out.push(t);
        assert(texts(out@) + items@.map_values(|s: S| s.text()) =~= all.map_values(
            |s: S| s.text(),
        ));
    }
    assert(texts(out@) =~= all.map_values(|s: S| s.text()));
    out
}

/// A character of the Unicode `White_Space` property.
pub open spec fn is_space(c: char) -> bool {
    ('\u{9}' <= c && c <= '\u{d}') || c == ' ' || c == '\u{85}' || c == '\u{a0}' || c == '\u{1680}'
        || ('\u{2000}' <= c && c <= '\u{200a}') || c == '\u{2028}' || c == '\u{2029}' || c
        == '\u{202f}' || c == '\u{205f}' || c == '\u{3000}'
}

/// `s` without its trailing whitespace.
pub open spec fn trim_end(s: Seq<char>) -> Seq<char>
    decreases s.len(),
{
    if s.len() > 0 && is_space(s.last()) {
        trim_end(s.drop_last())
    } else {
        s
    }
}

/// Trimming keeps a prefix, and trims nothing more from it.
pub proof fn lemma_trim_end(s: Seq<char>)
    ensures
        trim_end(s).len() <= s.len(),
        trim_end(s) == s.take(trim_end(s).len() as int),
        trim_end(trim_end(s)) == trim_end(s),
    decreases s.len(),
{
    if s.len() > 0 && is_space(s.last()) {
        lemma_trim_end(s.drop_last());
        let t = trim_end(s.drop_last());
        assert(s.drop_last().take(t.len() as int) =~= s.take(t.len() as int));
    } else {
        assert(s.take(s.len() as int) =~= s);
    }
}

/// ASCII upper case of a character; other characters are kept.
pub open spec fn ascii_upper(c: char) -> char {
    if 'a' <= c && c <= 'z' {
        ((c as u32) - 32) as char
    } else {
        c
    }
}

/// Whether `c` is a whitespace character.
pub fn char_is_space(c: char) -> (r: bool)
    ensures
        r == is_space(c),
{
    ('\u{9}' <= c && c <= '\u{d}') || c == ' ' || c == '\u{85}' || c == '\u{a0}' || c == '\u{1680}'
        || ('\u{2000}' <= c && c <= '\u{200a}') || c == '\u{2028}' || c == '\u{2029}' || c
        == '\u{202f}' || c == '\u{205f}' || c == '\u{3000}'
}

/// The characters of `s`, one by one.
pub fn chars_of(s: &str) -> (r: Vec<char>)
    ensures
        r@ == s@,
{
    let n = s.unicode_len();
    let mut out: Vec<char> = Vec::new();
    let mut i: usize = 0;
    while i < n
        invariant
            i <= n,
            n == s@.len(),
            out@ == s@.take(i as int),
        decreases n - i,
    {
        out.push(s.get_char(i));
        assert(out@ =~= s@.take(i + 1));
        i += 1;
    }
    assert(s@.take(n as int) =~= s@);
    out
}

/// Length of `chars[..len]` without its trailing whitespace.
pub fn trimmed_len(chars: &Vec<char>, len: usize) -> (r: usize)
    requires
        len <= chars.len(),
    ensures
        r <= len,
        chars@.take(r as int) == trim_end(chars@.take(len as int)),
{
    let mut r = len;
    while r > 0 && char_is_space(chars[r - 1])
        invariant
            r <= len <= chars.len(),
            trim_end(chars@.take(r as int)) == trim_end(chars@.take(len as int)),
        decreases r,
    {
        assert(chars@.take(r as int).drop_last() =~= chars@.take(r - 1));
        r -= 1;
    }
    assert(trim_end(chars@.take(r as int)) == chars@.take(r as int));
    r
}

} // verus!
