//! Decimal rendering of fixed-point readings: a centi-unit value prints with
//! exactly two decimals (12.34), and a whole-unit axis label prints with no
//! decimals, space-padded to at least two characters.

use vstd::prelude::*;

verus! {

/// The character of one decimal digit.
pub open spec fn digit_char(d: int) -> char {
    if d == 0 {
        '0'
    } else if d == 1 {
        '1'
    } else if d == 2 {
        '2'
    } else if d == 3 {
        '3'
    } else if d == 4 {
        '4'
    } else if d == 5 {
        '5'
    } else if d == 6 {
        '6'
    } else if d == 7 {
        '7'
    } else if d == 8 {
        '8'
    } else {
        '9'
    }
}

/// The decimal digits of a nonnegative number, most significant first.
pub open spec fn dec_digits(n: nat) -> Seq<char>
    decreases n,
{
    if n < 10 {
        seq![digit_char(n as int)]
    } else {
        dec_digits(n / 10).push(digit_char((n % 10) as int))
    }
}

/// The decimal form of an integer, with a leading minus for negatives.
pub open spec fn decimal(v: int) -> Seq<char> {
    if v < 0 {
        seq!['-'] + dec_digits((-v) as nat)
    } else {
        dec_digits(v as nat)
    }
}

/// A centi-unit value printed with two decimals: sign, whole part, a dot,
/// then exactly two fraction digits.
pub open spec fn cents_decimal(v: int) -> Seq<char> {
    if v < 0 {
        seq!['-'] + cents_magnitude((-v) as nat)
    } else {
        cents_magnitude(v as nat)
    }
}

/// Two-decimal form of a nonnegative centi-unit value.
pub open spec fn cents_magnitude(n: nat) -> Seq<char> {
    dec_digits(n / 100) + seq!['.', digit_char(((n % 100) / 10) as int), digit_char(
        (n % 10) as int,
    )]
}

/// A whole-unit axis label: the decimal form, space-padded on the left to at
/// least two characters (only one-digit nonnegative values need the pad).
pub open spec fn whole_label(v: int) -> Seq<char> {
    if 0 <= v <= 9 {
        seq![' '] + decimal(v)
    } else {
        decimal(v)
    }
}

/// One digit as a string slice.
fn digit_str(d: u64) -> (r: &'static str)
    requires
        d < 10,
    ensures
        r@ =~= seq![digit_char(d as int)],
{
    proof {
        reveal_strlit("0");
        reveal_strlit("1");
        reveal_strlit("2");
        reveal_strlit("3");
        reveal_strlit("4");
        reveal_strlit("5");
        reveal_strlit("6");
        reveal_strlit("7");
        reveal_strlit("8");
        reveal_strlit("9");
    }
    if d == 0 {
        "0"
    } else if d == 1 {
        "1"
    } else if d == 2 {
        "2"
    } else if d == 3 {
        "3"
    } else if d == 4 {
        "4"
    } else if d == 5 {
        "5"
    } else if d == 6 {
        "6"
    } else if d == 7 {
        "7"
    } else if d == 8 {
        "8"
    } else {
        "9"
    }
}

/// Append the decimal digits of `n` to `s`.
fn push_decimal(s: &mut String, n: u64)
    ensures
        final(s)@ == old(s)@ + dec_digits(n as nat),
    decreases n,
{
    if n >= 10 {
        proof {
            vstd::arithmetic::div_mod::lemma_div_is_strictly_smaller(n as int, 10);
        }
        push_decimal(s, n / 10);
        s.append(digit_str(n % 10));
        assert(s@ =~= old(s)@ + dec_digits(n as nat));
    } else {
        s.append(digit_str(n));
        assert(s@ =~= old(s)@ + dec_digits(n as nat));
    }
}

/// The magnitude of an `i64` as a `u64` (total, also at `i64::MIN`).
fn magnitude(v: i64) -> (r: u64)
    ensures
        r as int == if v < 0 {
            -(v as int)
        } else {
            v as int
        },
{
    if v < 0 {
        (-(v as i128)) as u64
    } else {
        v as u64
    }
}

/// Render a centi-unit reading with two decimals, as the dashboard shows
/// current values.
pub fn format_cents(v: i64) -> (r: String)
    ensures
        r@ == cents_decimal(v as int),
{
    let mut s = String::new();
    if v < 0 {
        s.append("-");
        proof {
            reveal_strlit("-");
        }
    }
    let m = magnitude(v);
    let ghost prefix = s@;
    push_decimal(&mut s, m / 100);
    s.append(".");
    s.append(digit_str((m % 100) / 10));
    s.append(digit_str(m % 10));
    proof {
        reveal_strlit(".");
        assert((m as nat) % 100 / 10 == ((m as nat) % 100) / 10);
        assert(s@ =~= prefix + cents_magnitude(m as nat));
        assert(s@ =~= cents_decimal(v as int));
    }
    s
}

/// Render a whole-unit axis label, space-padded to at least two characters,
/// as the dashboard labels its y-axis.
pub fn format_whole(v: i64) -> (r: String)
    ensures
        r@ == whole_label(v as int),
{
    let mut s = String::new();
    if 0 <= v && v <= 9 {
        s.append(" ");
        proof {
            reveal_strlit(" ");
        }
    }
    if v < 0 {
        s.append("-");
        proof {
            reveal_strlit("-");
        }
    }
    let m = magnitude(v);
    push_decimal(&mut s, m);
    proof {
        assert(s@ =~= whole_label(v as int));
    }
    s
}

} // verus!
