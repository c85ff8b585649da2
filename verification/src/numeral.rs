//! Decimal numerals: what a sequence of characters reads as, and the functions
//! that read it.

use vstd::prelude::*;

verus! {

/// Whether `c` is one of the ten decimal digits.
pub open spec fn is_digit(c: char) -> bool {
    48 <= c as u32 <= 57
}

/// The number that the digit `c` stands for.
pub open spec fn digit_value(c: char) -> nat {
    (c as u32 - 48) as nat
}

/// Whether every character of `s` is a decimal digit.
pub open spec fn all_digits(s: Seq<char>) -> bool {
    forall|i: int| 0 <= i < s.len() ==> is_digit(#[trigger] s[i])
}

/// The number that a sequence of digits stands for, the empty sequence for zero.
pub open spec fn decimal_value(s: Seq<char>) -> nat
    decreases s.len(),
{
    if s.len() == 0 {
        0
    } else {
        10 * decimal_value(s.drop_last()) + digit_value(s.last())
    }
}

/// Whether `s` is a numeral without sign: one digit or more, nothing else.
pub open spec fn is_numeral(s: Seq<char>) -> bool {
    s.len() > 0 && all_digits(s)
}

/// What `s` reads as where a number from zero to `max` is wanted: an optional
/// plus sign and a numeral whose value is at most `max`.
pub open spec fn unsigned_reading(s: Seq<char>, max: nat) -> Option<nat> {
    let digits = if s.len() > 0 && s[0] == '+' {
        s.skip(1)
    } else {
        s
    };
    if is_numeral(digits) && decimal_value(digits) <= max {
        Some(decimal_value(digits))
    } else {
        None
    }
}

/// What `s` reads as where a number from `-bound - 1` to `bound` is wanted: an
/// optional sign and a numeral whose signed value lies in that range.
pub open spec fn signed_reading(s: Seq<char>, bound: nat) -> Option<int> {
    if s.len() > 0 && s[0] == '-' {
        let digits = s.skip(1);
        if is_numeral(digits) && decimal_value(digits) <= bound + 1 {
            Some(-(decimal_value(digits) as int))
        } else {
            None
        }
    } else {
        match unsigned_reading(s, bound) {
            Some(v) => Some(v as int),
            None => None,
        }
    }
}

/// A numeral is worth at least as much as each of its prefixes.
pub proof fn lemma_prefix_value(s: Seq<char>, k: int)
    requires
        0 <= k <= s.len(),
    ensures
        decimal_value(s.take(k)) <= decimal_value(s),
    decreases s.len(),
{
    if k == s.len() {
        assert(s.take(k) =~= s);
    } else {
        lemma_prefix_value(s.drop_last(), k);
        assert(s.drop_last().take(k) =~= s.take(k));
    }
}

/// The characters of `s`, in order.
pub fn chars_of(s: &str) -> (v: Vec<char>)
    ensures
        v@ == s@,
{
    broadcast use vstd::string::group_string_axioms;

    let mut v: Vec<char> = Vec::new();
    for c in it: s.chars()
        invariant
            it.seq() == s@,
            v.len() == it.index(),
            forall|j: int| 0 <= j < v.len() ==> v@[j] == it.seq()[j],
    {
        v.push(c);
    }
    v
}

/// Reads the characters of `s` from `start` up to `end` as a numeral without
/// sign.
fn read_numeral(s: &Vec<char>, start: usize, end: usize, max: u64) -> (r: Option<u64>)
    requires
        start <= end <= s.len(),
    ensures
        r matches Some(v) ==> is_numeral(s@.subrange(start as int, end as int)) && v
            == decimal_value(s@.subrange(start as int, end as int)) && v <= max,
        r is None ==> !(is_numeral(s@.subrange(start as int, end as int)) && decimal_value(
            s@.subrange(start as int, end as int),
        ) <= max),
{
    let ghost digits = s@.subrange(start as int, end as int);
    if start >= end {
        return None;
    }
    let mut acc: u64 = 0;
    let mut i: usize = start;
    while i < end
        invariant
            start <= i <= end <= s.len(),
            digits == s@.subrange(start as int, end as int),
            all_digits(digits.take(i - start)),
            acc == decimal_value(digits.take(i - start)),
            acc <= max,
        decreases end - i,
    {
        let c: char = s[i];
        let code: u32 = c as u32;
        proof {
            let next = digits.take(i + 1 - start);
            assert(next.drop_last() =~= digits.take(i - start));
            lemma_prefix_value(digits, i + 1 - start);
        }
        if code < 48 || code > 57 {
            return None;
        }
        let d: u64 = (code - 48) as u64;
        if d > max || acc > (max - d) / 10 {
            return None;
        }
        acc = acc * 10 + d;
        i += 1;
    }
    assert(digits.take(end - start) =~= digits);
    Some(acc)
}

/// Reads the characters of `s` from `start` up to `end` as a number from zero
/// to `max`.
pub fn parse_unsigned_in(s: &Vec<char>, start: usize, end: usize, max: u64) -> (r: Option<u64>)
    requires
        start <= end <= s.len(),
    ensures
        r matches Some(v) ==> unsigned_reading(s@.subrange(start as int, end as int), max as nat)
            == Some(v as nat),
        r is None ==> unsigned_reading(s@.subrange(start as int, end as int), max as nat) is None,
{
    let ghost whole = s@.subrange(start as int, end as int);
    if start < end && s[start] == '+' {
        assert(whole.skip(1) =~= s@.subrange(start + 1, end as int));
        read_numeral(s, start + 1, end, max)
    } else {
        read_numeral(s, start, end, max)
    }
}

/// Reads `text` as a number from zero to `max`.
pub fn parse_unsigned(text: &str, max: u64) -> (r: Option<u64>)
    ensures
        r matches Some(v) ==> unsigned_reading(text@, max as nat) == Some(v as nat),
        r is None ==> unsigned_reading(text@, max as nat) is None,
{
    let s = chars_of(text);
    assert(s@.subrange(0, s@.len() as int) =~= s@);
    parse_unsigned_in(&s, 0, s.len(), max)
}

/// Reads `text` as a number from `-bound - 1` to `bound`.
pub fn parse_signed(text: &str, bound: u32) -> (r: Option<i64>)
    ensures
        r matches Some(v) ==> signed_reading(text@, bound as nat) == Some(v as int),
        r is None ==> signed_reading(text@, bound as nat) is None,
{
    let s = chars_of(text);
    assert(s@.subrange(0, s@.len() as int) =~= s@);
    if s.len() > 0 && s[0] == '-' {
        match read_numeral(&s, 1, s.len(), bound as u64 + 1) {
            Some(v) => Some(-(v as i64)),
            None => None,
        }
    } else {
        match parse_unsigned_in(&s, 0, s.len(), bound as u64) {
            Some(v) => Some(v as i64),
            None => None,
        }
    }
}

/// The digit that stands for `d`, a number below ten.
pub open spec fn digit_of(d: nat) -> char {
    (48 + d) as char
}

/// The numeral that `n` is written as: no sign, and no zero in front but for
/// zero itself.
pub open spec fn decimal_text(n: nat) -> Seq<char>
    decreases n,
{
    if n < 10 {
        seq![digit_of(n)]
    } else {
        decimal_text(n / 10).push(digit_of(n % 10))
    }
}

/// What a whole number is written as: a minus sign in front of a negative
/// one.
pub open spec fn signed_text(n: int) -> Seq<char> {
    if n < 0 {
        seq!['-'] + decimal_text((-n) as nat)
    } else {
        decimal_text(n as nat)
    }
}

/// What is written can be read again: the text of a number is a numeral, and
/// its value is the number.
pub proof fn lemma_text_reads_back(n: nat)
    ensures
        is_numeral(decimal_text(n)),
        decimal_value(decimal_text(n)) == n,
    decreases n,
{
    let text = decimal_text(n);
    if n < 10 {
        assert(decimal_value(text.drop_last()) == 0);
    } else {
        lemma_text_reads_back(n / 10);
        assert(text.drop_last() =~= decimal_text(n / 10));
    }
}

/// A number is read from its text as itself, wherever it is within the
/// bound.
pub proof fn lemma_reading_of_text(n: nat, max: nat)
    requires
        n <= max,
    ensures
        unsigned_reading(decimal_text(n), max) == Some(n),
{
    lemma_text_reads_back(n);
}

/// Writes `n` behind what `out` holds.
pub fn push_decimal(out: &mut Vec<char>, n: u64)
    ensures
        final(out)@ == old(out)@ + decimal_text(n as nat),
    decreases n,
{
    if n >= 10 {
        push_decimal(out, n / 10);
    }
    let digit: u8 = 48 + (n % 10) as u8;
    out.push(digit as char);
}

/// Writes `n` behind what `out` holds, with a minus sign if it is negative.
pub fn push_signed(out: &mut Vec<char>, n: i64)
    ensures
        final(out)@ == old(out)@ + signed_text(n as int),
{
    if n < 0 {
        out.push('-');
        let magnitude: u64 = if n == i64::MIN {
            0x8000_0000_0000_0000
        } else {
            (-n) as u64
        };
        push_decimal(out, magnitude);
    } else {
        push_decimal(out, n as u64);
    }
}

} // verus!
