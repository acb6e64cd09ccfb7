//! Window ids as decimal text.

use vstd::prelude::*;

verus! {

/// Whether `c` is one of `0` to `9`.
pub open spec fn is_digit(c: char) -> bool {
    0x30 <= c as u32 <= 0x39
}

/// What a digit counts for; 0 for any other character.
pub open spec fn digit_value(c: char) -> nat {
    if is_digit(c) {
        (c as u32 - 0x30) as nat
    } else {
        0
    }
}

/// The character that writes `d`, for `d` below ten.
pub open spec fn digit_char(d: nat) -> char {
    ((0x30 + d) as u8) as char
}

/// Whether every character of `text` is a digit.
pub open spec fn all_digits(text: Seq<char>) -> bool {
    forall|i: int| 0 <= i < text.len() ==> is_digit(#[trigger] text[i])
}

/// The number that a run of digits writes, however large.
pub open spec fn digits_value(digits: Seq<char>) -> nat
    decreases digits.len(),
{
    if digits.len() == 0 {
        0
    } else {
        digits_value(digits.drop_last()) * 10 + digit_value(digits.last())
    }
}

/// `text` without one leading `+` sign.
pub open spec fn unsigned_digits(text: Seq<char>) -> Seq<char> {
    if text.len() > 0 && text[0] == '+' {
        text.skip(1)
    } else {
        text
    }
}

/// The window id that `text` writes: an optional `+`, then one digit or more, no more than
/// a `u64` holds. Anything else writes none.
pub open spec fn unsigned_value(text: Seq<char>) -> Option<u64> {
    let digits = unsigned_digits(text);
    if digits.len() > 0 && all_digits(digits) && digits_value(digits) <= u64::MAX {
        Some(digits_value(digits) as u64)
    } else {
        None
    }
}

/// `n` in decimal, without a sign or leading zeros.
pub open spec fn decimal_text(n: nat) -> Seq<char>
    decreases n,
{
    if n < 10 {
        seq![digit_char(n)]
    } else {
        decimal_text(n / 10).push(digit_char(n % 10))
    }
}

/// A number's beginning writes no more than the whole number.
pub proof fn lemma_digits_value_prefix(digits: Seq<char>, upto: int)
    requires
        0 <= upto <= digits.len(),
    ensures
        digits_value(digits.take(upto)) <= digits_value(digits),
    decreases digits.len(),
{
    if upto == digits.len() {
        assert(digits.take(upto) =~= digits);
    } else {
        assert(digits.drop_last().take(upto) =~= digits.take(upto));
        lemma_digits_value_prefix(digits.drop_last(), upto);
    }
}

/// The decimal text of a number is one digit or more, all digits, and writes the number.
pub proof fn lemma_decimal_text_digits(n: nat)
    ensures
        decimal_text(n).len() > 0,
        all_digits(decimal_text(n)),
        digits_value(decimal_text(n)) == n,
    decreases n,
{
    if n < 10 {
        let text = decimal_text(n);
        assert(text.drop_last() =~= Seq::<char>::empty());
        assert(digits_value(text.drop_last()) == 0);
        assert(is_digit(digit_char(n)));
    } else {
        lemma_decimal_text_digits(n / 10);
        let text = decimal_text(n);
        let shorter = decimal_text(n / 10);
        assert(text.drop_last() =~= shorter);
        assert(is_digit(digit_char(n % 10)));
        assert(text.last() == digit_char(n % 10));
    }
}

/// Whether `c` is one of `0` to `9`.
fn digit(c: char) -> (b: bool)
    ensures
        b == is_digit(c),
{
    let u: u32 = c as u32;
    0x30 <= u && u <= 0x39
}

/// Reads the window id that `text` writes.
pub fn read_unsigned(text: &[char]) -> (value: Option<u64>)
    ensures
        value == unsigned_value(text@),
{
    let first: usize = if text.len() > 0 && text[0] == '+' {
        1
    } else {
        0
    };
    let ghost digits = text@.skip(first as int);
    assert(digits =~= unsigned_digits(text@));
    if first == text.len() {
        return None;
    }
    let mut value: u64 = 0;
    let mut at: usize = first;
    while at < text.len()
        invariant
            first <= at <= text.len(),
            first < text.len(),
            digits == text@.skip(first as int),
            digits == unsigned_digits(text@),
            all_digits(digits.take(at - first)),
            value == digits_value(digits.take(at - first)),
        decreases text.len() - at,
    {
        let c = text[at];
        let ghost seen = digits.take(at - first + 1);
        assert(seen.drop_last() =~= digits.take(at - first));
        assert(seen.last() == c);
        if !digit(c) {
            assert(!is_digit(digits[at - first]));
            return None;
        }
        let d: u64 = (c as u32 - 0x30) as u64;
        proof {
            lemma_digits_value_prefix(digits, at - first + 1);
        }
        let next = match value.checked_mul(10) {
            Some(tens) => tens.checked_add(d),
            None => None,
        };
        match next {
            Some(sum) => {
                value = sum;
            },
            None => {
                assert(digits_value(seen) > u64::MAX);
                return None;
            },
        }
        at += 1;
    }
    assert(digits.take(at - first) =~= digits);
    Some(value)
}

/// The character that writes `d`.
fn digit_of(d: u64) -> (c: char)
    requires
        d < 10,
    ensures
        c == digit_char(d as nat),
{
    ((0x30 + d) as u8) as char
}

/// Appends `n` in decimal to `out`.
pub fn push_decimal(out: &mut String, n: u64)
    ensures
        final(out)@ == old(out)@ + decimal_text(n as nat),
    decreases n,
{
    if n >= 10 {
        push_decimal(out, n / 10);
    }
    out.push(digit_of(n % 10));
    assert(final(out)@ =~= old(out)@ + decimal_text(n as nat));
}

} // verus!
