//! Numbers as decimal text: reading an unsigned number, and writing one.

use vstd::prelude::*;

verus! {

/// Whether `c` is one of the ten decimal digits.
pub open spec fn is_digit(c: char) -> bool {
    '0' <= c <= '9'
}

/// The value of the decimal digit `c`.
pub open spec fn digit_value(c: char) -> nat {
    (c as u32 - '0' as u32) as nat
}

/// Whether `text` is made of decimal digits only.
pub open spec fn all_digits(text: Seq<char>) -> bool {
    forall|i: int| 0 <= i < text.len() ==> is_digit(#[trigger] text[i])
}

/// The number that the digits of `digits` write, the first digit counting most.
pub open spec fn digits_value(digits: Seq<char>) -> nat
    decreases digits.len(),
{
    if digits.len() == 0 {
        0
    } else {
        10 * digits_value(digits.drop_last()) + digit_value(digits.last())
    }
}

/// `text` without the plus sign that may stand before a number.
pub open spec fn unsigned_part(text: Seq<char>) -> Seq<char> {
    if text.len() > 0 && text[0] == '+' {
        text.drop_first()
    } else {
        text
    }
}

/// The number that `text` writes: an optional plus sign, then one decimal digit
/// or more, and nothing else. A number that does not fit a `usize` is none.
pub open spec fn parsed(text: Seq<char>) -> Option<usize> {
    let digits = unsigned_part(text);
    if digits.len() > 0 && all_digits(digits) && digits_value(digits) <= usize::MAX {
        Some(digits_value(digits) as usize)
    } else {
        None
    }
}

proof fn lemma_value_grows(digits: Seq<char>, n: int)
    requires
        0 <= n <= digits.len(),
    ensures
        digits_value(digits.take(n)) <= digits_value(digits),
    decreases digits.len() - n,
{
    if n == digits.len() {
        assert(digits.take(n) == digits);
    } else {
        lemma_value_grows(digits, n + 1);
        assert(digits.take(n + 1).drop_last() == digits.take(n));
    }
}

/// Reads `text` as an unsigned decimal number.
pub fn parse_usize(text: &str) -> (number: Option<usize>)
    ensures
        number == parsed(text@),
{
    let mut value: usize = 0;
    let mut at_start = true;
    let mut signed = false;
    let mut any = false;
    let ghost digits = unsigned_part(text@);
    for c in it: text.chars()
        invariant
            it.seq() == text@,
            digits == unsigned_part(text@),
            at_start == (it.index() == 0),
            signed == (it.index() > 0 && text@[0] == '+'),
            any == (it.index() > 0 && !(it.index() == 1 && signed)),
            ({
                let seen = digits.take(it.index() - if signed { 1int } else { 0 });
                all_digits(seen) && value == digits_value(seen)
            }),
    {
        let ghost start = if signed { 1int } else { 0 };
        let ghost seen = digits.take(it.index() - start);
        if at_start && c == '+' {
            signed = true;
            at_start = false;
        } else {
            at_start = false;
            proof {
                assert(digits[it.index() - start] == c);
                assert(digits.take(it.index() + 1 - start).drop_last() == seen);
            }
            if c < '0' || c > '9' {
                return None;
            }
            let digit = (c as u32 - '0' as u32) as usize;
            proof {
                lemma_value_grows(digits, it.index() + 1 - start);
            }
            if value > (usize::MAX - digit) / 10 {
                return None;
            }
            value = 10 * value + digit;
            any = true;
        }
    }
    proof {
        assert(digits.take(digits.len() as int) == digits);
    }
    if any {
        Some(value)
    } else {
        None
    }
}

/// The decimal digit that writes `d`, for `d` below ten.
pub open spec fn digit_char(d: nat) -> char {
    if d == 0 {
        '0'
    } else if d == 1 {
        '1'
    } else if d == 2 {
        '2'
    } else if d == 3 {
        '3'
    } else if d == 4 {
        '4'
    } else if d == 5 {
        '5'
    } else if d == 6 {
        '6'
    } else if d == 7 {
        '7'
    } else if d == 8 {
        '8'
    } else {
        '9'
    }
}

/// The decimal digits of `n`, without leading zeros.
pub open spec fn decimal(n: nat) -> Seq<char>
    decreases n,
{
    if n < 10 {
        seq![digit_char(n)]
    } else {
        decimal(n / 10).push(digit_char(n % 10))
    }
}

/// The decimal text of `i`, with a minus sign where it is negative.
pub open spec fn signed_decimal(i: int) -> Seq<char> {
    if i < 0 {
        seq!['-'] + decimal((-i) as nat)
    } else {
        decimal(i as nat)
    }
}

fn digit_of(d: u64) -> (c: char)
    requires
        d < 10,
    ensures
        c == digit_char(d as nat),
{
    if d == 0 {
        '0'
    } else if d == 1 {
        '1'
    } else if d == 2 {
        '2'
    } else if d == 3 {
        '3'
    } else if d == 4 {
        '4'
    } else if d == 5 {
        '5'
    } else if d == 6 {
        '6'
    } else if d == 7 {
        '7'
    } else if d == 8 {
        '8'
    } else {
        '9'
    }
}

/// Appends the decimal digits of `n` to `text`.
pub fn push_decimal(text: &mut String, n: u64)
    ensures
        final(text)@ == old(text)@ + decimal(n as nat),
    decreases n,
{
    if n >= 10 {
        push_decimal(text, n / 10);
    }
    text.push(digit_of(n % 10));
}

/// The decimal text of `n`.
pub fn usize_text(n: usize) -> (text: String)
    ensures
        text@ == decimal(n as nat),
{
    let mut text = String::new();
    push_decimal(&mut text, n as u64);
    text
}

/// The decimal text of `i`.
pub fn i32_text(i: i32) -> (text: String)
    ensures
        text@ == signed_decimal(i as int),
{
    let mut text = String::new();
    let wide = i as i64;
    if wide < 0 {
        text.push('-');
        push_decimal(&mut text, (-wide) as u64);
    } else {
        push_decimal(&mut text, wide as u64);
    }
    text
}

/// The digits of a number write that number, and begin with no sign.
pub proof fn lemma_decimal_value(n: nat)
    ensures
        decimal(n).len() > 0,
        all_digits(decimal(n)),
        digits_value(decimal(n)) == n,
    decreases n,
{
    if n < 10 {
        assert(decimal(n).drop_last() == Seq::<char>::empty());
        assert(digits_value(Seq::<char>::empty()) == 0);
    } else {
        lemma_decimal_value(n / 10);
        assert(decimal(n).drop_last() == decimal(n / 10));
    }
}

/// A number that was written as decimal text is read back from it.
pub proof fn lemma_decimal_reads_back(n: usize)
    ensures
        parsed(decimal(n as nat)) == Some(n),
{
    lemma_decimal_value(n as nat);
}

} // verus!
