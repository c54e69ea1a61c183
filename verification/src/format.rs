//! Verified plain-text rendering of integers and fixed-point money amounts.

use vstd::prelude::*;

verus! {

/// The decimal digit character for `d` (expects `d <= 9`).
pub open spec fn digit_char(d: nat) -> char {
    if d == 0 {
        '0'
    } else if d == 1 {
        '1'
    } else if d == 2 {
        '2'
    } else if d == 3 {
        '3'
    } else if d == 4 {
        '4'
    } else if d == 5 {
        '5'
    } else if d == 6 {
        '6'
    } else if d == 7 {
        '7'
    } else if d == 8 {
        '8'
    } else {
        '9'
    }
}

/// Decimal representation of `n`, most significant digit first, without
/// leading zeros (a single `'0'` for zero).
pub open spec fn dec_digits(n: nat) -> Seq<char>
    decreases n,
{
    if n < 10 {
        seq![digit_char(n)]
    } else {
        dec_digits(n / 10) + seq![digit_char(n % 10)]
    }
}

/// A money amount of `units` ten-thousandths of a dollar rounded to a whole
/// number of cents, half a cent rounding up.
pub open spec fn rounded_cents(units: nat) -> nat {
    (units + 50) / 100
}

/// The display form of a money amount: a dollar sign, the whole dollars, a
/// point, and exactly two cent digits, e.g. `$7.20`.
pub open spec fn money_digits(units: nat) -> Seq<char> {
    let cents = rounded_cents(units);
    seq!['$'] + dec_digits(cents / 100) + seq!['.'] + seq![
        digit_char((cents / 10) % 10),
        digit_char(cents % 10),
    ]
}

/// Decimal representation of a signed value: a leading minus sign for a
/// negative value, then the digits of its magnitude.
pub open spec fn int_digits(i: int) -> Seq<char> {
    if i < 0 {
        seq!['-'] + dec_digits((-i) as nat)
    } else {
        dec_digits(i as nat)
    }
}

/// `needle` occurs contiguously somewhere inside `hay`.
pub open spec fn contains_seq(hay: Seq<char>, needle: Seq<char>) -> bool {
    exists|i: int|
        0 <= i && i + needle.len() <= hay.len() && #[trigger] hay.subrange(i, i + needle.len())
            == needle
}

fn digit_str(d: u64) -> (r: &'static str)
    requires
        d < 10,
    ensures
        r@ == seq![digit_char(d as nat)],
{
    proof {
        reveal_strlit("0");
        reveal_strlit("1");
        reveal_strlit("2");
        reveal_strlit("3");
        reveal_strlit("4");
        reveal_strlit("5");
        reveal_strlit("6");
        reveal_strlit("7");
        reveal_strlit("8");
        reveal_strlit("9");
    }
    let r: &'static str = if d == 0 {
        "0"
    } else if d == 1 {
        "1"
    } else if d == 2 {
        "2"
    } else if d == 3 {
        "3"
    } else if d == 4 {
        "4"
    } else if d == 5 {
        "5"
    } else if d == 6 {
        "6"
    } else if d == 7 {
        "7"
    } else if d == 8 {
        "8"
    } else {
        "9"
    };
    proof {
        assert(r@ =~= seq![digit_char(d as nat)]);
    }
    r
}

/// Appends the decimal representation of `n` to `s`.
pub fn push_decimal(s: &mut String, n: u64)
    ensures
        final(s)@ == old(s)@ + dec_digits(n as nat),
    decreases n,
{
    if n < 10 {
        s.append(digit_str(n));
    } else {
        push_decimal(s, n / 10);
        s.append(digit_str(n % 10));
        proof {
            assert(final(s)@ =~= old(s)@ + dec_digits(n as nat));
        }
    }
}

/// The decimal representation of `n` as a fresh string.
pub fn u64_string(n: u64) -> (r: String)
    ensures
        r@ == dec_digits(n as nat),
{
    let mut s = String::new();
    push_decimal(&mut s, n);
    proof {
        assert(s@ =~= dec_digits(n as nat));
    }
    s
}

/// Appends the decimal representation of the signed value `code` to `s`.
pub fn push_int(s: &mut String, code: i32)
    ensures
        final(s)@ == old(s)@ + int_digits(code as int),
{
    if code < 0 {
        proof {
            reveal_strlit("-");
        }
        s.append("-");
        let magnitude: u64 = (-(code as i64)) as u64;
        proof {
            assert(magnitude == -(code as int));
        }
        push_decimal(s, magnitude);
        proof {
            assert(final(s)@ =~= old(s)@ + int_digits(code as int));
        }
    } else {
        push_decimal(s, code as u64);
    }
}

/// Appends the money display form of `units` to `s`.
pub fn push_money(s: &mut String, units: u64)
    requires
        units <= u64::MAX - 50,
    ensures
        final(s)@ == old(s)@ + money_digits(units as nat),
{
    proof {
        reveal_strlit("$");
        reveal_strlit(".");
    }
    let cents: u64 = (units + 50) / 100;
    s.append("$");
    push_decimal(s, cents / 100);
    s.append(".");
    s.append(digit_str((cents / 10) % 10));
    s.append(digit_str(cents % 10));
    proof {
        assert(final(s)@ =~= old(s)@ + money_digits(units as nat));
    }
}

} // verus!
