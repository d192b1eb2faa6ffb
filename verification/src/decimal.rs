//! Decimal text of integers.
//!
//! A number is written with the fewest digits that give it: no sign for a
//! number that is not negative, one `-` for one that is, no leading zero but
//! for zero itself. Reading goes from left to right over the digits that
//! stand at a place, and gives a number only within a limit.

use vstd::prelude::*;
use vstd::string::StringExecFns;

verus! {

/// Whether `c` is one of `0` to `9`.
pub open spec fn is_digit(c: char) -> bool {
    '0' <= c && c <= '9'
}

/// The number that a digit stands for.
pub open spec fn digit_value(c: char) -> nat
    recommends
        is_digit(c),
{
    (c as int - '0' as int) as nat
}

/// The digit that stands for a number below ten.
pub open spec fn digit_char(d: nat) -> char
    recommends
        d < 10,
{
    (d + '0' as int) as char
}

/// The digits of `n`, the most significant first.
pub open spec fn nat_text(n: nat) -> Seq<char>
    decreases n,
{
    if n < 10 {
        seq![digit_char(n)]
    } else {
        nat_text(n / 10).push(digit_char(n % 10))
    }
}

/// The digits of `n`, after a `-` if `n` is negative.
pub open spec fn int_text(n: int) -> Seq<char> {
    if n < 0 {
        seq!['-'] + nat_text((-n) as nat)
    } else {
        nat_text(n as nat)
    }
}

/// The place of the first character from `from` on that is no digit, or the
/// end of `s` if only digits follow.
pub open spec fn digits_end(s: Seq<char>, from: int) -> int
    decreases s.len() - from,
{
    if 0 <= from < s.len() && is_digit(s[from]) {
        digits_end(s, from + 1)
    } else {
        from
    }
}

/// The number that a row of digits gives, the most significant first.
pub open spec fn digits_value(digits: Seq<char>) -> nat
    decreases digits.len(),
{
    if digits.len() == 0 {
        0
    } else {
        digits_value(digits.drop_last()) * 10 + digit_value(digits.last())
    }
}

/// The number that the digits from `from` on give, if there is a digit at
/// `from` and the number is `limit` at most, and the place after its last
/// digit.
pub open spec fn nat_at(s: Seq<char>, from: int, limit: nat) -> Option<(nat, int)> {
    let end = digits_end(s, from);
    let value = digits_value(s.subrange(from, end));
    if 0 <= from < end && value <= limit {
        Some((value, end))
    } else {
        None
    }
}

/// The number within the range of `i32` that stands at `from` in `s`, with a
/// `-` before its digits or without, and the place after its last digit.
pub open spec fn int_at(s: Seq<char>, from: int) -> Option<(int, int)> {
    if 0 <= from < s.len() && s[from] == '-' {
        match nat_at(s, from + 1, 0x8000_0000) {
            Some((value, end)) => Some((-(value as int), end)),
            None => None,
        }
    } else {
        match nat_at(s, from, 0x7fff_ffff) {
            Some((value, end)) => Some((value as int, end)),
            None => None,
        }
    }
}

/// The text of one digit.
fn digit_text(d: u64) -> (text: &'static str)
    requires
        d < 10,
    ensures
        text@ == seq![digit_char(d as nat)],
{
    proof {
        reveal_strlit("0");
        reveal_strlit("1");
        reveal_strlit("2");
        reveal_strlit("3");
        reveal_strlit("4");
        reveal_strlit("5");
        reveal_strlit("6");
        reveal_strlit("7");
        reveal_strlit("8");
        reveal_strlit("9");
    }
    let text: &'static str = if d == 0 {
        "0"
    } else if d == 1 {
        "1"
    } else if d == 2 {
        "2"
    } else if d == 3 {
        "3"
    } else if d == 4 {
        "4"
    } else if d == 5 {
        "5"
    } else if d == 6 {
        "6"
    } else if d == 7 {
        "7"
    } else if d == 8 {
        "8"
    } else {
        "9"
    };
    assert(text@ =~= seq![digit_char(d as nat)]);
    text
}

/// Writes `n` at the end of `text`.
pub fn append_nat(text: &mut String, n: u64)
    ensures
        final(text)@ == old(text)@ + nat_text(n as nat),
    decreases n,
{
    if n >= 10 {
        append_nat(text, n / 10);
    }
    text.append(digit_text(n % 10));
    proof {
        if n >= 10 {
            assert(old(text)@ + nat_text((n / 10) as nat) + seq![digit_char((n % 10) as nat)]
                =~= old(text)@ + nat_text(n as nat));
        }
    }
}

/// Writes `n` at the end of `text`.
pub fn append_int(text: &mut String, n: i32)
    ensures
        final(text)@ == old(text)@ + int_text(n as int),
{
    if n < 0 {
        proof {
            reveal_strlit("-");
        }
        text.append("-");
        let magnitude: u64 = (-(n as i64)) as u64;
        append_nat(text, magnitude);
        assert(old(text)@ + "-"@ + nat_text(magnitude as nat) =~= old(text)@ + int_text(n as int));
    } else {
        append_nat(text, n as u64);
    }
}

/// Reads the number up to `limit` that stands at `from`.
pub fn read_nat(chars: &Vec<char>, from: usize, limit: u32) -> (found: Option<(u32, usize)>)
    ensures
        match found {
            Some((value, end)) => nat_at(chars@, from as int, limit as nat) == Some(
                (value as nat, end as int),
            ),
            None => nat_at(chars@, from as int, limit as nat) is None,
        },
{
    if from >= chars.len() {
        return None;
    }
    let mut pos: usize = from;
    let mut acc: u64 = 0;
    proof {
        lemma_digits_value_of_subrange(chars@, from as int, from as int);
    }
    while pos < chars.len() && '0' <= chars[pos] && chars[pos] <= '9'
        invariant
            from <= pos <= chars.len(),
            acc <= limit,
            digits_end(chars@, from as int) == digits_end(chars@, pos as int),
            acc == digits_value(chars@.subrange(from as int, pos as int)),
        decreases chars.len() - pos,
    {
        let digit: u64 = (chars[pos] as u64) - ('0' as u64);
        acc = acc * 10 + digit;
        proof {
            lemma_digits_value_of_subrange(chars@, from as int, pos + 1);
            lemma_digits_end_bounds(chars@, pos + 1);
        }
        if acc > limit as u64 {
            proof {
                lemma_digits_value_grows(
                    chars@,
                    from as int,
                    pos + 1,
                    digits_end(chars@, from as int),
                );
            }
            return None;
        }
        pos = pos + 1;
    }
    if pos == from {
        None
    } else {
        Some((acc as u32, pos))
    }
}

/// Reads the number within the range of `i32` that stands at `from`.
pub fn read_int(chars: &Vec<char>, from: usize) -> (found: Option<(i32, usize)>)
    ensures
        match found {
            Some((value, end)) => int_at(chars@, from as int) == Some((value as int, end as int)),
            None => int_at(chars@, from as int) is None,
        },
{
    if from < chars.len() && chars[from] == '-' {
        match read_nat(chars, from + 1, 0x8000_0000) {
            Some((magnitude, end)) => Some(((-(magnitude as i64)) as i32, end)),
            None => None,
        }
    } else {
        match read_nat(chars, from, 0x7fff_ffff) {
            Some((value, end)) => Some((value as i32, end)),
            None => None,
        }
    }
}

/// The text of a number is never empty and holds digits only.
pub proof fn lemma_nat_text_digits(n: nat)
    ensures
        nat_text(n).len() >= 1,
        forall|i: int| 0 <= i < nat_text(n).len() ==> is_digit(#[trigger] nat_text(n)[i]),
    decreases n,
{
    if n >= 10 {
        lemma_nat_text_digits(n / 10);
    }
}

/// The digits end at `from` or behind it, and within `s` if `from` is.
pub proof fn lemma_digits_end_bounds(s: Seq<char>, from: int)
    ensures
        from <= digits_end(s, from),
        from <= s.len() ==> digits_end(s, from) <= s.len(),
    decreases s.len() - from,
{
    if 0 <= from < s.len() && is_digit(s[from]) {
        lemma_digits_end_bounds(s, from + 1);
    }
}

/// Where digits stand from `from` up to `end` and no digit stands at `end`,
/// the digits end at `end`.
pub proof fn lemma_digits_end_of_run(s: Seq<char>, from: int, end: int)
    requires
        0 <= from <= end <= s.len(),
        forall|i: int| from <= i < end ==> is_digit(#[trigger] s[i]),
        end == s.len() || !is_digit(s[end]),
    ensures
        digits_end(s, from) == end,
    decreases end - from,
{
    if from < end {
        lemma_digits_end_of_run(s, from + 1, end);
    }
}

/// One more digit is worth ten times the digits before it, and itself.
proof fn lemma_digits_value_of_subrange(s: Seq<char>, from: int, end: int)
    requires
        0 <= from <= end <= s.len(),
    ensures
        from == end ==> digits_value(s.subrange(from, end)) == 0,
        from < end ==> digits_value(s.subrange(from, end)) == digits_value(
            s.subrange(from, end - 1),
        ) * 10 + digit_value(s[end - 1]),
{
    if from < end {
        assert(s.subrange(from, end).drop_last() =~= s.subrange(from, end - 1));
    }
}

/// More digits never give a smaller number.
proof fn lemma_digits_value_grows(s: Seq<char>, from: int, mid: int, end: int)
    requires
        0 <= from <= mid <= end <= s.len(),
    ensures
        digits_value(s.subrange(from, mid)) <= digits_value(s.subrange(from, end)),
    decreases end - mid,
{
    if mid < end {
        lemma_digits_value_grows(s, from, mid, end - 1);
        lemma_digits_value_of_subrange(s, from, end);
        assert(digits_value(s.subrange(from, end - 1)) * 10 >= digits_value(
            s.subrange(from, end - 1),
        )) by (nonlinear_arith);
    }
}

/// The digits of a number give the number.
pub proof fn lemma_digits_value_of_text(n: nat)
    ensures
        digits_value(nat_text(n)) == n,
    decreases n,
{
    if n < 10 {
        assert(nat_text(n).drop_last() =~= Seq::<char>::empty());
        assert(digits_value(nat_text(n).drop_last()) == 0);
    } else {
        lemma_digits_value_of_text(n / 10);
        assert(nat_text(n).drop_last() =~= nat_text(n / 10));
    }
}

/// Where the text of `n` stands in `s` and no digit follows it, reading
/// gives `n`, if `n` is within the limit.
pub proof fn lemma_nat_at_text(s: Seq<char>, from: int, n: nat, limit: nat)
    requires
        0 <= from,
        from + nat_text(n).len() <= s.len(),
        s.subrange(from, from + nat_text(n).len()) == nat_text(n),
        from + nat_text(n).len() == s.len() || !is_digit(s[from + nat_text(n).len()]),
        n <= limit,
    ensures
        nat_at(s, from, limit) == Some((n, from + nat_text(n).len())),
{
    let end = from + nat_text(n).len();
    lemma_nat_text_digits(n);
    assert forall|i: int| from <= i < end implies is_digit(#[trigger] s[i]) by {
        assert(s[i] == s.subrange(from, end)[i - from]);
    }
    lemma_digits_end_of_run(s, from, end);
    lemma_digits_value_of_text(n);
}

/// Where the text of `n` stands in `s` and no digit follows it, reading
/// gives `n`, if `n` is within the range of `i32`.
pub proof fn lemma_int_at_text(s: Seq<char>, from: int, n: int)
    requires
        0 <= from,
        from + int_text(n).len() <= s.len(),
        s.subrange(from, from + int_text(n).len()) == int_text(n),
        from + int_text(n).len() == s.len() || !is_digit(s[from + int_text(n).len()]),
        i32::MIN <= n <= i32::MAX,
    ensures
        int_at(s, from) == Some((n, from + int_text(n).len())),
{
    let text = int_text(n);
    assert(s[from] == s.subrange(from, from + text.len())[0]);
    if n < 0 {
        let digits = nat_text((-n) as nat);
        lemma_nat_text_digits((-n) as nat);
        assert(text[0] == '-');
        assert(s.subrange(from + 1, from + 1 + digits.len()) =~= digits) by {
            assert forall|i: int| 0 <= i < digits.len() implies s.subrange(
                from + 1,
                from + 1 + digits.len(),
            )[i] == digits[i] by {
                assert(s.subrange(from, from + text.len())[i + 1] == text[i + 1]);
            }
        }
        lemma_nat_at_text(s, from + 1, (-n) as nat, 0x8000_0000);
    } else {
        lemma_nat_text_digits(n as nat);
        lemma_nat_at_text(s, from, n as nat, 0x7fff_ffff);
    }
}

} // verus!
