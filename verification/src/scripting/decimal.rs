//! Integers as decimal text.
//!
//! A number literal holds its integer in decimal: the digits without leading
//! zeros, after a `-` where the integer is negative. [`text_value`] reads
//! such text back, and [`lemma_text_round_trip`] shows that nothing is lost.

use vstd::prelude::*;

verus! {

/// The character of a digit from 0 to 9.
pub open spec fn digit_char(d: int) -> char {
    if d == 0 {
        '0'
    } else if d == 1 {
        '1'
    } else if d == 2 {
        '2'
    } else if d == 3 {
        '3'
    } else if d == 4 {
        '4'
    } else if d == 5 {
        '5'
    } else if d == 6 {
        '6'
    } else if d == 7 {
        '7'
    } else if d == 8 {
        '8'
    } else {
        '9'
    }
}

/// The digit that a character stands for; 0 for any other character.
pub open spec fn digit_value(c: char) -> int {
    if c == '1' {
        1
    } else if c == '2' {
        2
    } else if c == '3' {
        3
    } else if c == '4' {
        4
    } else if c == '5' {
        5
    } else if c == '6' {
        6
    } else if c == '7' {
        7
    } else if c == '8' {
        8
    } else if c == '9' {
        9
    } else {
        0
    }
}

/// The decimal digits of `n`, the most significant first, without leading
/// zeros. Zero has the one digit `0`.
pub open spec fn decimal_digits(n: nat) -> Seq<char>
    decreases n,
{
    if n < 10 {
        seq![digit_char(n as int)]
    } else {
        decimal_digits(n / 10).push(digit_char((n % 10) as int))
    }
}

/// The decimal text of `i`: its digits, after a `-` where `i` is negative.
pub open spec fn decimal_text(i: int) -> Seq<char> {
    if i < 0 {
        seq!['-'] + decimal_digits((-i) as nat)
    } else {
        decimal_digits(i as nat)
    }
}

/// The number that a run of digits stands for.
pub open spec fn digits_value(digits: Seq<char>) -> nat
    decreases digits.len(),
{
    if digits.len() == 0 {
        0
    } else {
        (digits_value(digits.drop_last()) * 10 + digit_value(digits.last())) as nat
    }
}

/// The integer that decimal text stands for.
pub open spec fn text_value(text: Seq<char>) -> int {
    if text.len() > 0 && text[0] == '-' {
        -(digits_value(text.skip(1)) as int)
    } else {
        digits_value(text) as int
    }
}

/// A number has at least one digit, its first digit is no sign, and its
/// digits stand for that number.
pub proof fn lemma_digits_round_trip(n: nat)
    ensures
        decimal_digits(n).len() >= 1,
        decimal_digits(n)[0] != '-',
        digits_value(decimal_digits(n)) == n,
    decreases n,
{
    if n < 10 {
        let digits = decimal_digits(n);
        assert(digits.drop_last() =~= Seq::<char>::empty());
        assert(digits_value(digits.drop_last()) == 0);
    } else {
        lemma_digits_round_trip(n / 10);
        let upper = decimal_digits(n / 10);
        let digits = decimal_digits(n);
        assert(digits.drop_last() =~= upper);
        assert(digits.last() == digit_char((n % 10) as int));
        assert(digits[0] == upper[0]);
    }
}

/// Reading the decimal text of an integer gives the integer back.
pub proof fn lemma_text_round_trip(i: int)
    ensures
        text_value(decimal_text(i)) == i,
{
    if i < 0 {
        let digits = decimal_digits((-i) as nat);
        lemma_digits_round_trip((-i) as nat);
        assert(decimal_text(i).skip(1) =~= digits);
    } else {
        lemma_digits_round_trip(i as nat);
    }
}

/// Two integers with the same decimal text are the same integer.
pub proof fn lemma_text_injective(i: int, j: int)
    requires
        decimal_text(i) == decimal_text(j),
    ensures
        i == j,
{
    lemma_text_round_trip(i);
    lemma_text_round_trip(j);
}

/// The text of one digit.
fn digit_str(d: u8) -> (r: &'static str)
    requires
        d < 10,
    ensures
        r@ == seq![digit_char(d as int)],
{
    proof {
        reveal_strlit("0");
        reveal_strlit("1");
        reveal_strlit("2");
        reveal_strlit("3");
        reveal_strlit("4");
        reveal_strlit("5");
        reveal_strlit("6");
        reveal_strlit("7");
        reveal_strlit("8");
        reveal_strlit("9");
    }
    let r = if d == 0 {
        "0"
    } else if d == 1 {
        "1"
    } else if d == 2 {
        "2"
    } else if d == 3 {
        "3"
    } else if d == 4 {
        "4"
    } else if d == 5 {
        "5"
    } else if d == 6 {
        "6"
    } else if d == 7 {
        "7"
    } else if d == 8 {
        "8"
    } else {
        "9"
    };
    assert(r@ =~= seq![digit_char(d as int)]);
    r
}

/// Appends the decimal digits of `n` to `out`.
fn push_digits(n: u128, out: &mut String)
    ensures
        final(out)@ == old(out)@ + decimal_digits(n as nat),
    decreases n,
{
    if n >= 10 {
        push_digits(n / 10, out);
    }
    let d: u8 = (n % 10) as u8;
    out.append(digit_str(d));
    proof {
        if n < 10 {
            assert(old(out)@ + seq![digit_char(d as int)] =~= old(out)@ + decimal_digits(n as nat));
        } else {
            assert((old(out)@ + decimal_digits((n / 10) as nat)) + seq![digit_char(d as int)]
                =~= old(out)@ + decimal_digits(n as nat));
        }
    }
}

/// The decimal text of an unsigned integer.
pub fn unsigned_text(n: u128) -> (r: String)
    ensures
        r@ == decimal_text(n as int),
{
    let mut out = String::new();
    push_digits(n, &mut out);
    assert(out@ =~= decimal_digits(n as nat));
    out
}

/// The decimal text of a signed integer.
pub fn signed_text(n: i128) -> (r: String)
    ensures
        r@ == decimal_text(n as int),
{
    if n < 0 {
        let magnitude: u128 = (-(n + 1)) as u128 + 1;
        let mut out = String::new();
        proof {
            reveal_strlit("-");
        }
        out.append("-");
        push_digits(magnitude, &mut out);
        assert(out@ =~= seq!['-'] + decimal_digits((-n) as nat));
        out
    } else {
        unsigned_text(n as u128)
    }
}

} // verus!
