//! Decimal numbers of a request, held exactly as counts of thousandths.

use vstd::prelude::*;
use crate::text::{chars_of, find_char, first_index, push_char};

verus! {

/// Whether a character is one of `0` to `9`.
pub open spec fn is_digit(c: char) -> bool {
    '0' <= c <= '9'
}

/// The number that a digit stands for.
pub open spec fn digit_value(c: char) -> nat {
    (c as u32 - '0' as u32) as nat
}

/// The digit that stands for a number below ten.
pub open spec fn digit_char(d: nat) -> char {
    (('0' as u32 + d) as u8) as char
}

/// Whether every character of a text is a digit.
pub open spec fn all_digits(s: Seq<char>) -> bool {
    forall|i: int| 0 <= i < s.len() ==> is_digit(#[trigger] s[i])
}

/// The number that a text of digits writes in base ten.
pub open spec fn digits_value(s: Seq<char>) -> nat
    decreases s.len(),
{
    if s.len() == 0 {
        0
    } else {
        10 * digits_value(s.drop_last()) + digit_value(s.last())
    }
}

/// A number in base ten, without leading zeros.
pub open spec fn decimal_digits(n: nat) -> Seq<char>
    decreases n,
{
    if n < 10 {
        seq![digit_char(n)]
    } else {
        decimal_digits(n / 10).push(digit_char(n % 10))
    }
}

/// The digit at place `i` of a fraction, zero beyond its end.
pub open spec fn fraction_digit(frac: Seq<char>, i: int) -> nat {
    if 0 <= i < frac.len() {
        digit_value(frac[i])
    } else {
        0
    }
}

/// The first three places of a fraction as a count of thousandths; further
/// places are cut off.
pub open spec fn fraction_thousandths(frac: Seq<char>) -> nat {
    100 * fraction_digit(frac, 0) + 10 * fraction_digit(frac, 1) + fraction_digit(frac, 2)
}

/// The value, in thousandths, of a text of the form `digits` or
/// `digits.digits`, each run of digits non-empty; `None` for any other text.
pub open spec fn parse_thousandths(s: Seq<char>) -> Option<nat> {
    let dot = first_index(s, '.');
    let whole = s.take(dot);
    if whole.len() == 0 || !all_digits(whole) {
        None
    } else if dot == s.len() {
        Some(1000 * digits_value(whole))
    } else {
        let frac = s.skip(dot + 1);
        if frac.len() == 0 || !all_digits(frac) {
            None
        } else {
            Some(1000 * digits_value(whole) + fraction_thousandths(frac))
        }
    }
}

/// Printing a number and reading the digits back gives the number.
pub proof fn lemma_decimal_digits(n: nat)
    ensures
        decimal_digits(n).len() >= 1,
        all_digits(decimal_digits(n)),
        digits_value(decimal_digits(n)) == n,
    decreases n,
{
    if n < 10 {
        let s = seq![digit_char(n)];
        assert(s.drop_last() =~= Seq::<char>::empty());
        assert(digits_value(s.drop_last()) == 0);
        assert(s.last() == digit_char(n));
    } else {
        lemma_decimal_digits(n / 10);
        let s = decimal_digits(n / 10).push(digit_char(n % 10));
        assert(s.drop_last() =~= decimal_digits(n / 10));
        assert(s.last() == digit_char(n % 10));
    }
}

/// Two numbers with the same digits are the same number.
pub proof fn lemma_decimal_digits_injective(a: nat, b: nat)
    requires
        decimal_digits(a) == decimal_digits(b),
    ensures
        a == b,
{
    lemma_decimal_digits(a);
    lemma_decimal_digits(b);
}

/// A prefix of a text of digits writes no larger a number than the text.
pub proof fn lemma_digits_value_prefix(s: Seq<char>, k: int)
    requires
        0 <= k <= s.len(),
    ensures
        digits_value(s.take(k)) <= digits_value(s),
    decreases s.len(),
{
    if k == s.len() {
        assert(s.take(k) =~= s);
    } else {
        lemma_digits_value_prefix(s.drop_last(), k);
        assert(s.drop_last().take(k) =~= s.take(k));
    }
}

fn digit_of(c: char) -> (d: Option<u8>)
    ensures
        is_digit(c) <==> d is Some,
        d matches Some(v) ==> v == digit_value(c) && v < 10,
{
    if c >= '0' && c <= '9' {
        Some((c as u32 - '0' as u32) as u8)
    } else {
        None
    }
}

/// Reads `text[from..to]` as a run of digits; `None` if a character is no
/// digit or the number is above `limit`.
pub(crate) fn read_digits(text: &[char], from: usize, to: usize, limit: u64) -> (value: Option<u64>)
    requires
        from <= to <= text.len(),
    ensures
        value == (if all_digits(text@.subrange(from as int, to as int)) && digits_value(
            text@.subrange(from as int, to as int),
        ) <= limit {
            Some(digits_value(text@.subrange(from as int, to as int)) as u64)
        } else {
            None
        }),
{
    let ghost run = text@.subrange(from as int, to as int);
    let mut acc: u128 = 0;
    let mut i: usize = from;
    while i < to
        invariant
            from <= i <= to <= text.len(),
            run == text@.subrange(from as int, to as int),
            all_digits(run.take(i - from)),
            acc == digits_value(run.take(i - from)),
            acc <= limit,
        decreases to - i,
    {
        let ghost before = run.take(i - from);
        let ghost after = run.take(i - from + 1);
        assert(after.drop_last() =~= before);
        assert(after.last() == text@[i as int]);
        match digit_of(text[i]) {
            None => {
                assert(!is_digit(run[i - from]));
                return None;
            },
            Some(d) => {
                acc = acc * 10 + d as u128;
                if acc > limit as u128 {
                    proof {
                        if all_digits(run) {
                            lemma_digits_value_prefix(run, i - from + 1);
                        }
                    }
                    return None;
                }
                assert forall|k: int| 0 <= k < after.len() implies is_digit(#[trigger] after[k]) by {
                    if k < before.len() {
                        assert(after[k] == before[k]);
                    }
                }
            },
        }
        i += 1;
    }
    assert(run.take(to - from) =~= run);
    Some(acc as u64)
}

/// A non-negative decimal number with three places after the point, held as a
/// count of thousandths.
#[derive(Debug, Clone, Copy, PartialEq, Eq, Structural)]
pub struct Decimal {
    pub thousandths: u32,
}

impl Decimal {
    /// The number that a text writes, if it writes one that fits.
    pub open spec fn parse_spec(text: Seq<char>) -> Option<Decimal> {
        match parse_thousandths(text) {
            Some(v) => if v <= u32::MAX {
                Some(Decimal { thousandths: v as u32 })
            } else {
                None
            },
            None => None,
        }
    }

    /// What stands for the number in a canonical text: its thousandths in base ten.
    pub open spec fn digits(self) -> Seq<char> {
        decimal_digits(self.thousandths as nat)
    }

    /// Reads a number of the form `digits` or `digits.digits`. Places after
    /// the third are cut off. Any other text, and a number above
    /// 4294967.295, gives `None`.
    pub fn parse(text: &str) -> (number: Option<Decimal>)
        ensures
            number == Self::parse_spec(text@),
    {
        let cs = chars_of(text);
        let dot = find_char(&cs, 0, '.');
        assert(cs@.skip(0) =~= cs@);
        assert(cs@.take(dot as int) =~= cs@.subrange(0, dot as int));
        if dot == 0 {
            return None;
        }
        let whole = match read_digits(&cs, 0, dot, 4_294_967) {
            Some(w) => w,
            None => {
                return None;
            },
        };
        if dot == cs.len() {
            return Some(Decimal { thousandths: (whole * 1000) as u32 });
        }
        let ghost frac = cs@.skip(dot + 1);
        assert(frac =~= cs@.subrange(dot + 1, cs.len() as int));
        if dot + 1 == cs.len() || !only_digits(&cs, dot + 1, cs.len()) {
            return None;
        }
        let first: usize = dot + 1;
        let places: u64 = 100 * place_at(&cs, first, 0) + 10 * place_at(&cs, first, 1) + place_at(
            &cs,
            first,
            2,
        );
        let total: u64 = whole * 1000 + places;
        if total > 0xffff_ffff {
            None
        } else {
            Some(Decimal { thousandths: total as u32 })
        }
    }
}

/// Whether `text[from..to]` holds digits only.
fn only_digits(text: &[char], from: usize, to: usize) -> (all: bool)
    requires
        from <= to <= text.len(),
    ensures
        all == all_digits(text@.subrange(from as int, to as int)),
{
    let ghost run = text@.subrange(from as int, to as int);
    let mut i: usize = from;
    while i < to
        invariant
            from <= i <= to <= text.len(),
            run == text@.subrange(from as int, to as int),
            forall|k: int| 0 <= k < i - from ==> is_digit(#[trigger] run[k]),
        decreases to - i,
    {
        if digit_of(text[i]).is_none() {
            assert(run[i - from] == text@[i as int]);
            return false;
        }
        i += 1;
    }
    true
}

/// The digit at place `i` of the fraction `text[from..]`, zero beyond its end.
fn place_at(text: &[char], from: usize, i: usize) -> (d: u64)
    requires
        from <= text.len(),
        all_digits(text@.skip(from as int)),
    ensures
        d == fraction_digit(text@.skip(from as int), i as int),
        d <= 9,
{
    if i < text.len() - from {
        assert(text@.skip(from as int)[i as int] == text@[from + i]);
        assert(is_digit(text@.skip(from as int)[i as int]));
        match digit_of(text[from + i]) {
            Some(d) => d as u64,
            None => 0,
        }
    } else {
        0
    }
}

/// Appends a number in base ten, without leading zeros.
pub(crate) fn push_decimal(out: &mut String, n: u32)
    ensures
        final(out)@ == old(out)@ + decimal_digits(n as nat),
    decreases n,
{
    if n >= 10 {
        push_decimal(out, n / 10);
    }
    let d: u8 = (n % 10) as u8;
    push_char(out, (('0' as u8) + d) as char);
    assert(out@ =~= old(out)@ + decimal_digits(n as nat));
}

} // verus!
