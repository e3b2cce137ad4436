//! Character-level text utilities shared by the normalizer and the feed writer.
//!
//! Strings are modelled by their view, a `Seq<char>`. The executable functions
//! work on `Vec<char>` so that every position can be inspected in constant time.

use vstd::prelude::*;

verus! {

/// `String::push` appends one character to the end of the string.
pub assume_specification[ String::push ](s: &mut String, c: char)
    ensures
        final(s)@ == old(s)@.push(c),
;

/// The characters of `s`, in order.
pub fn chars_of(s: &str) -> (r: Vec<char>)
    ensures
        r@ == s@,
{
    let mut out: Vec<char> = Vec::new();
    for c in it: s.chars()
        invariant
            out@ == it.seq().take(it.index()),
            it.seq() == s@,
    {
        out.push(c);
    }
    out
}

/// The string made of the characters of `v`, in order.
pub fn string_of(v: &Vec<char>) -> (r: String)
    ensures
        r@ == v@,
{
    let mut out = String::new();
    let mut i: usize = 0;
    while i < v.len()
        invariant
            i <= v.len(),
            out@ == v@.take(i as int),
        decreases v.len() - i,
    {
        out.push(v[i]);
        i += 1;
    }
    out
}

/// Appends the characters of `tail` to `out`.
pub fn push_all(out: &mut Vec<char>, tail: &Vec<char>)
    ensures
        final(out)@ == old(out)@ + tail@,
{
    let mut i: usize = 0;
    while i < tail.len()
        invariant
            i <= tail.len(),
            out@ == old(out)@ + tail@.take(i as int),
        decreases tail.len() - i,
    {
        out.push(tail[i]);
        i += 1;
    }
}

/// Appends the characters of the string `tail` to `out`.
pub fn push_str(out: &mut Vec<char>, tail: &str)
    ensures
        final(out)@ == old(out)@ + tail@,
{
    let chars = chars_of(tail);
    push_all(out, &chars);
}

/// Whether `pattern` occurs in `text` starting exactly at position `at`.
pub open spec fn occurs_at(text: Seq<char>, at: int, pattern: Seq<char>) -> bool {
    &&& 0 <= at
    &&& at + pattern.len() <= text.len()
    &&& text.subrange(at, at + pattern.len()) == pattern
}

/// Tests whether `pattern` occurs in `text` at position `at`.
pub fn matches_at(text: &Vec<char>, at: usize, pattern: &Vec<char>) -> (r: bool)
    requires
        at <= text.len(),
    ensures
        r == occurs_at(text@, at as int, pattern@),
{
    if pattern.len() > text.len() - at {
        return false;
    }
    let mut k: usize = 0;
    while k < pattern.len()
        invariant
            at + pattern.len() <= text.len(),
            k <= pattern.len(),
            forall|j: int| 0 <= j < k ==> text@[at + j] == pattern@[j],
        decreases pattern.len() - k,
    {
        if text[at + k] != pattern[k] {
            assert(text@.subrange(at as int, at + pattern.len())[k as int] != pattern@[k as int]);
            return false;
        }
        k += 1;
    }
    assert(text@.subrange(at as int, at + pattern.len()) =~= pattern@);
    true
}

/// Whether `text` begins with `prefix`.
pub fn starts_with(text: &Vec<char>, prefix: &Vec<char>) -> (r: bool)
    ensures
        r == prefix@.is_prefix_of(text@),
{
    matches_at(text, 0, prefix)
}

/// Whether two strings hold the same characters.
pub fn same_text(a: &str, b: &str) -> (r: bool)
    ensures
        r == (a@ == b@),
{
    let x = chars_of(a);
    let y = chars_of(b);
    if x.len() != y.len() {
        return false;
    }
    assert(x@.subrange(0, x@.len() as int) =~= x@);
    matches_at(&x, 0, &y)
}

/// `text` with every occurrence of `from` replaced by `to`. Occurrences are
/// found from left to right and do not overlap; an empty `from` replaces
/// nothing.
pub open spec fn replace_all(text: Seq<char>, from: Seq<char>, to: Seq<char>) -> Seq<char>
    decreases text.len(),
{
    if from.len() == 0 || text.len() < from.len() {
        text
    } else if text.subrange(0, from.len() as int) == from {
        to + replace_all(text.subrange(from.len() as int, text.len() as int), from, to)
    } else {
        seq![text[0]] + replace_all(text.subrange(1, text.len() as int), from, to)
    }
}

/// Replaces every occurrence of `from` in `text` by `to`.
pub fn replace(text: &Vec<char>, from: &Vec<char>, to: &Vec<char>) -> (r: Vec<char>)
    ensures
        r@ == replace_all(text@, from@, to@),
{
    let n = text.len();
    let m = from.len();
    let mut out: Vec<char> = Vec::new();
    if m == 0 {
        push_all(&mut out, text);
        return out;
    }
    let mut i: usize = 0;
    proof {
        assert(text@.subrange(0, n as int) =~= text@);
        assert(out@ + replace_all(text@, from@, to@) =~= replace_all(text@, from@, to@));
    }
    while i < n
        invariant
            n == text.len(),
            m == from.len(),
            m > 0,
            i <= n,
            out@ + replace_all(text@.subrange(i as int, n as int), from@, to@) == replace_all(
                text@,
                from@,
                to@,
            ),
        decreases n - i,
    {
        let ghost rest = text@.subrange(i as int, n as int);
        if matches_at(text, i, from) {
            proof {
                assert(rest.subrange(0, m as int) =~= text@.subrange(i as int, i + m));
                assert(rest.subrange(m as int, rest.len() as int) =~= text@.subrange(
                    i + m,
                    n as int,
                ));
                assert(out@ + (to@ + replace_all(text@.subrange(i + m, n as int), from@, to@))
                    =~= (out@ + to@) + replace_all(text@.subrange(i + m, n as int), from@, to@));
            }
            push_all(&mut out, to);
            i += m;
        } else {
            proof {
                if rest.len() >= m {
                    assert(rest.subrange(0, m as int) =~= text@.subrange(i as int, i + m));
                }
                assert(rest.subrange(1, rest.len() as int) =~= text@.subrange(i + 1, n as int));
                if rest.len() < m {
                    lemma_replace_short(rest, from@, to@);
                    lemma_replace_short(text@.subrange(i + 1, n as int), from@, to@);
                    assert(rest =~= seq![rest[0]] + text@.subrange(i + 1, n as int));
                }
                assert(out@ + (seq![text@[i as int]] + replace_all(
                    text@.subrange(i + 1, n as int),
                    from@,
                    to@,
                )) =~= out@.push(text@[i as int]) + replace_all(
                    text@.subrange(i + 1, n as int),
                    from@,
                    to@,
                ));
            }
            out.push(text[i]);
            i += 1;
        }
    }
    proof {
        assert(text@.subrange(n as int, n as int) =~= Seq::<char>::empty());
        assert(out@ + Seq::<char>::empty() =~= out@);
    }
    out
}

/// A text shorter than the pattern is left as it is.
pub proof fn lemma_replace_short(text: Seq<char>, from: Seq<char>, to: Seq<char>)
    requires
        text.len() < from.len(),
    ensures
        replace_all(text, from, to) == text,
{
}

/// A text in which `from` occurs nowhere is left as it is.
pub proof fn lemma_replace_absent(text: Seq<char>, from: Seq<char>, to: Seq<char>)
    requires
        forall|at: int| !occurs_at(text, at, from),
    ensures
        replace_all(text, from, to) == text,
    decreases text.len(),
{
    if from.len() == 0 || text.len() < from.len() {
    } else {
        assert(!occurs_at(text, 0, from));
        let rest = text.subrange(1, text.len() as int);
        assert forall|at: int| !occurs_at(rest, at, from) by {
            if occurs_at(rest, at, from) {
                assert(rest.subrange(at, at + from.len()) =~= text.subrange(
                    at + 1,
                    at + 1 + from.len(),
                ));
                assert(occurs_at(text, at + 1, from));
            }
        }
        lemma_replace_absent(rest, from, to);
        assert(seq![text[0]] + rest =~= text);
    }
}

/// Whether `c` is one of the ten ASCII decimal digits.
pub open spec fn is_digit(c: char) -> bool {
    '0' <= c <= '9'
}

/// Whether every character of `s` is an ASCII decimal digit.
pub open spec fn all_digits(s: Seq<char>) -> bool {
    forall|i: int| 0 <= i < s.len() ==> is_digit(#[trigger] s[i])
}

/// The number a digit stands for.
pub open spec fn digit_value(c: char) -> nat {
    (c as u32 - '0' as u32) as nat
}

/// The character that stands for a number below ten.
pub open spec fn digit_char(d: nat) -> char
    recommends
        d < 10,
{
    (d + '0' as u32) as char
}

/// The number that a sequence of decimal digits denotes; zero for the empty
/// sequence.
pub open spec fn digits_value(s: Seq<char>) -> nat
    decreases s.len(),
{
    if s.len() == 0 {
        0
    } else {
        digits_value(s.drop_last()) * 10 + digit_value(s.last())
    }
}

/// The decimal notation of `n`, without sign or leading zeros.
pub open spec fn decimal(n: nat) -> Seq<char>
    decreases n,
{
    if n < 10 {
        seq![digit_char(n)]
    } else {
        decimal(n / 10).push(digit_char(n % 10))
    }
}

/// What a sequence of characters denotes as an unsigned decimal number of at
/// most `limit`: nothing unless it is a non-empty run of ASCII digits whose
/// value does not exceed the limit.
pub open spec fn decimal_value(s: Seq<char>, limit: nat) -> Option<nat> {
    if s.len() > 0 && all_digits(s) && digits_value(s) <= limit {
        Some(digits_value(s))
    } else {
        None
    }
}

/// Appending digits never makes the denoted number smaller.
pub proof fn lemma_digits_value_prefix(s: Seq<char>, k: int)
    requires
        0 <= k <= s.len(),
    ensures
        digits_value(s.take(k)) <= digits_value(s),
    decreases s.len() - k,
{
    if k == s.len() {
        assert(s.take(k) =~= s);
    } else {
        lemma_digits_value_prefix(s, k + 1);
        assert(s.take(k + 1).drop_last() =~= s.take(k));
        assert(digits_value(s.take(k + 1)) == digits_value(s.take(k)) * 10 + digit_value(
            s.take(k + 1).last(),
        ));
    }
}

/// Reads an unsigned decimal number.
pub fn parse_u64(s: &Vec<char>) -> (r: Option<u64>)
    ensures
        r matches Some(n) ==> decimal_value(s@, u64::MAX as nat) == Some(n as nat),
        r is None ==> decimal_value(s@, u64::MAX as nat) is None,
{
    if s.len() == 0 {
        return None;
    }
    let mut acc: u64 = 0;
    let mut i: usize = 0;
    while i < s.len()
        invariant
            i <= s.len(),
            all_digits(s@.take(i as int)),
            acc == digits_value(s@.take(i as int)),
        decreases s.len() - i,
    {
        let c = s[i];
        if !(c >= '0' && c <= '9') {
            assert(!is_digit(s@[i as int]));
            return None;
        }
        let d: u64 = (c as u32 - '0' as u32) as u64;
        proof {
            assert(s@.take(i + 1).drop_last() =~= s@.take(i as int));
            assert(s@.take(i + 1).last() == c);
            assert(digits_value(s@.take(i + 1)) == acc * 10 + d);
            lemma_digits_value_prefix(s@, i + 1);
        }
        if acc > (u64::MAX - d) / 10 {
            return None;
        }
        acc = acc * 10 + d;
        i += 1;
    }
    assert(s@.take(s.len() as int) =~= s@);
    Some(acc)
}

/// Writes `n` in decimal notation.
pub fn decimal_digits(n: u64) -> (r: Vec<char>)
    ensures
        r@ == decimal(n as nat),
    decreases n,
{
    if n < 10 {
        let c = char_of_digit(n as u8);
        let mut out: Vec<char> = Vec::new();
        out.push(c);
        assert(out@ =~= seq![digit_char(n as nat)]);
        out
    } else {
        let mut out = decimal_digits(n / 10);
        out.push(char_of_digit((n % 10) as u8));
        out
    }
}

/// The character for a number below ten.
pub fn char_of_digit(d: u8) -> (c: char)
    requires
        d < 10,
    ensures
        c == digit_char(d as nat),
        is_digit(c),
        digit_value(c) == d,
{
    (d + 48) as char
}

/// The decimal notation of a number is a non-empty run of digits that denotes
/// that number.
pub proof fn lemma_decimal_round_trip(n: nat)
    ensures
        decimal(n).len() > 0,
        all_digits(decimal(n)),
        digits_value(decimal(n)) == n,
    decreases n,
{
    if n < 10 {
        let s = decimal(n);
        assert(s.len() == 1);
        assert(s[0] == digit_char(n));
        assert(is_digit(s[0])) by {
            assert(s[0] as u32 == n + 48);
        }
        assert(s.drop_last() =~= Seq::<char>::empty());
        assert(digits_value(s.drop_last()) == 0);
        assert(digit_value(s.last()) == n);
    } else {
        lemma_decimal_round_trip(n / 10);
        let s = decimal(n);
        let c = digit_char(n % 10);
        assert(s.drop_last() =~= decimal(n / 10));
        assert(s.last() == c);
        assert(c as u32 == (n % 10) + 48);
        assert forall|i: int| 0 <= i < s.len() implies is_digit(#[trigger] s[i]) by {
            if i < s.len() - 1 {
                assert(s[i] == decimal(n / 10)[i]);
            }
        }
    }
}

} // verus!
