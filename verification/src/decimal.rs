//! Decimal text of machine integers, as it is written on the renderer's
//! command line.

use vstd::prelude::*;
use vstd::string::StringExecFns;

verus! {

/// The character for the decimal digit `d`, for `0 <= d <= 9`.
pub open spec fn digit_char(d: int) -> char {
    ((48 + d) as u8) as char
}

/// The decimal digits of `n`, most significant first, without leading zeros.
/// Zero is written as the single digit `0`.
pub open spec fn natural_digits(n: nat) -> Seq<char>
    decreases n,
{
    if n < 10 {
        seq![digit_char(n as int)]
    } else {
        natural_digits(n / 10).push(digit_char((n % 10) as int))
    }
}

/// The decimal text of `n`: a minus sign for a negative number, then the
/// digits of its magnitude.
pub open spec fn decimal_text(n: int) -> Seq<char> {
    if n < 0 {
        seq!['-'] + natural_digits((-n) as nat)
    } else {
        natural_digits(n as nat)
    }
}

/// The number that a string of decimal digits denotes.
pub open spec fn natural_value(digits: Seq<char>) -> int
    decreases digits.len(),
{
    if digits.len() == 0 {
        0
    } else {
        natural_value(digits.drop_last()) * 10 + (digits.last() as int - 48)
    }
}

/// The number that a decimal text denotes: its digits, negated after a
/// leading minus sign.
pub open spec fn decimal_value(text: Seq<char>) -> int {
    if text.len() > 0 && text[0] == '-' {
        -natural_value(text.drop_first())
    } else {
        natural_value(text)
    }
}

/// The one-character string for a single decimal digit.
fn digit_str(d: u8) -> (s: &'static str)
    requires
        d < 10,
    ensures
        s@ == seq![digit_char(d as int)],
{
    proof {
        reveal_strlit("0");
        reveal_strlit("1");
        reveal_strlit("2");
        reveal_strlit("3");
        reveal_strlit("4");
        reveal_strlit("5");
        reveal_strlit("6");
        reveal_strlit("7");
        reveal_strlit("8");
        reveal_strlit("9");
    }
    let s = match d {
        0 => "0",
        1 => "1",
        2 => "2",
        3 => "3",
        4 => "4",
        5 => "5",
        6 => "6",
        7 => "7",
        8 => "8",
        _ => "9",
    };
    assert(s@ =~= seq![digit_char(d as int)]);
    s
}

/// Writes `n` in decimal.
pub fn decimal_string(n: i32) -> (text: String)
    ensures
        text@ == decimal_text(n as int),
{
    let wide: i64 = n as i64;
    let magnitude: u64 = if wide < 0 {
        (0 - wide) as u64
    } else {
        wide as u64
    };
    let mut rest: u64 = magnitude / 10;
    let mut digits: String = String::from_str(digit_str((magnitude % 10) as u8));
    while rest > 0
        invariant
            natural_digits(magnitude as nat) == if rest == 0 {
                digits@
            } else {
                natural_digits(rest as nat) + digits@
            },
        decreases rest,
    {
        let low: &'static str = digit_str((rest % 10) as u8);
        proof {
            if rest >= 10 {
                assert(natural_digits((rest / 10) as nat).push(digit_char((rest % 10) as int))
                    + digits@ =~= natural_digits((rest / 10) as nat) + (low@ + digits@));
            }
        }
        digits = String::from_str(low).concat(digits.as_str());
        rest = rest / 10;
    }
    if wide < 0 {
        proof {
            reveal_strlit("-");
            assert("-"@ =~= seq!['-']);
        }
        String::from_str("-").concat(digits.as_str())
    } else {
        digits
    }
}

/// The digits of a number are digits, and denote that number.
proof fn lemma_natural_round_trip(n: nat)
    ensures
        natural_digits(n).len() > 0,
        natural_digits(n)[0] != '-',
        natural_value(natural_digits(n)) == n,
    decreases n,
{
    let digits = natural_digits(n);
    if n < 10 {
        assert(digits.drop_last().len() == 0);
        assert(natural_value(digits.drop_last()) == 0);
    } else {
        lemma_natural_round_trip(n / 10);
        assert(digits.drop_last() =~= natural_digits(n / 10));
        assert(digits[0] == natural_digits(n / 10)[0]);
    }
}

/// A number can be read back from its decimal text: nothing is truncated,
/// and no two numbers are written alike.
pub proof fn lemma_decimal_round_trip(n: int)
    ensures
        decimal_value(decimal_text(n)) == n,
{
    if n < 0 {
        lemma_natural_round_trip((-n) as nat);
        assert(decimal_text(n).drop_first() =~= natural_digits((-n) as nat));
    } else {
        lemma_natural_round_trip(n as nat);
    }
}

} // verus!
