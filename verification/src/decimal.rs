//! Decimal text for integer replies.

use vstd::prelude::*;
use vstd::string::StringExecFns;

verus! {

/// The character for one decimal digit.
pub open spec fn digit_char(d: nat) -> char {
    if d == 0 {
        '0'
    } else if d == 1 {
        '1'
    } else if d == 2 {
        '2'
    } else if d == 3 {
        '3'
    } else if d == 4 {
        '4'
    } else if d == 5 {
        '5'
    } else if d == 6 {
        '6'
    } else if d == 7 {
        '7'
    } else if d == 8 {
        '8'
    } else {
        '9'
    }
}

/// The decimal digits of a non-negative number, most significant first and
/// without leading zeroes (a lone zero for zero itself).
pub open spec fn decimal_digits(m: nat) -> Seq<char>
    decreases m,
{
    if m < 10 {
        seq![digit_char(m)]
    } else {
        decimal_digits(m / 10).push(digit_char(m % 10))
    }
}

/// The decimal text of an integer: a minus sign before the digits of its
/// magnitude when it is negative.
pub open spec fn decimal_of(n: int) -> Seq<char> {
    if n < 0 {
        seq!['-'] + decimal_digits((-n) as nat)
    } else {
        decimal_digits(n as nat)
    }
}

/// The one-character text of a decimal digit.
fn digit_str(d: u64) -> (r: &'static str)
    requires
        d < 10,
    ensures
        r@ == seq![digit_char(d as nat)],
{
    let r = match d {
        0 => "0",
        1 => "1",
        2 => "2",
        3 => "3",
        4 => "4",
        5 => "5",
        6 => "6",
        7 => "7",
        8 => "8",
        _ => "9",
    };
    proof {
        reveal_strlit("0");
        reveal_strlit("1");
        reveal_strlit("2");
        reveal_strlit("3");
        reveal_strlit("4");
        reveal_strlit("5");
        reveal_strlit("6");
        reveal_strlit("7");
        reveal_strlit("8");
        reveal_strlit("9");
        assert(r@ =~= seq![digit_char(d as nat)]);
    }
    r
}

/// Append the decimal digits of a non-negative number to a string.
fn push_decimal(m: u64, out: &mut String)
    ensures
        final(out)@ == old(out)@ + decimal_digits(m as nat),
    decreases m,
{
    if m < 10 {
        out.append(digit_str(m));
        proof {
            assert(final(out)@ =~= old(out)@ + decimal_digits(m as nat));
        }
    } else {
        proof {
            assert(m / 10 < m && m / 10 >= 1) by (nonlinear_arith)
                requires
                    m >= 10,
            ;
        }
        push_decimal(m / 10, out);
        out.append(digit_str(m % 10));
        proof {
            assert(final(out)@ =~= old(out)@ + decimal_digits(m as nat));
        }
    }
}

/// The decimal text of a signed integer.
pub fn decimal_string(n: i64) -> (r: String)
    ensures
        r@ == decimal_of(n as int),
{
    let mut out = String::new();
    if n < 0 {
        out.append("-");
        // The magnitude of the most negative value does not fit in `i64`,
        // so step to `n + 1` before negating and carry the one over.
        let magnitude: u64 = ((-(n + 1)) as u64) + 1;
        proof {
            reveal_strlit("-");
            assert(magnitude as int == -(n as int));
        }
        push_decimal(magnitude, &mut out);
        proof {
            assert(out@ =~= decimal_of(n as int));
        }
    } else {
        push_decimal(n as u64, &mut out);
        proof {
            assert(out@ =~= decimal_of(n as int));
        }
    }
    out
}

} // verus!
