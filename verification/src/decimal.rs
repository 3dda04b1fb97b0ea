//! Decimal rendering of machine integers, verified against a recursive
//! specification of the digit sequence.
use vstd::prelude::*;

verus! {

/// The character for a single decimal digit.
pub open spec fn digit_char(d: nat) -> char {
    if d == 0 {
        '0'
    } else if d == 1 {
        '1'
    } else if d == 2 {
        '2'
    } else if d == 3 {
        '3'
    } else if d == 4 {
        '4'
    } else if d == 5 {
        '5'
    } else if d == 6 {
        '6'
    } else if d == 7 {
        '7'
    } else if d == 8 {
        '8'
    } else {
        '9'
    }
}

/// The decimal digit sequence of a natural number, most significant digit
/// first, with no leading zeros (a single '0' for zero).
pub open spec fn dec_nat(n: nat) -> Seq<char>
    decreases n,
{
    if n < 10 {
        seq![digit_char(n)]
    } else {
        dec_nat(n / 10) + seq![digit_char(n % 10)]
    }
}

/// The decimal rendering of a signed 64-bit integer: a leading '-' for
/// negative values, then the digits of the magnitude.
pub open spec fn dec_i64(v: i64) -> Seq<char> {
    if v < 0 {
        seq!['-'] + dec_nat((-(v as int)) as nat)
    } else {
        dec_nat(v as nat)
    }
}

fn digit_string(d: u64) -> (r: String)
    requires
        d < 10,
    ensures
        r@ == seq![digit_char(d as nat)],
{
    proof {
        reveal_strlit("0");
        reveal_strlit("1");
        reveal_strlit("2");
        reveal_strlit("3");
        reveal_strlit("4");
        reveal_strlit("5");
        reveal_strlit("6");
        reveal_strlit("7");
        reveal_strlit("8");
        reveal_strlit("9");
    }
    let s: &str = if d == 0 {
        "0"
    } else if d == 1 {
        "1"
    } else if d == 2 {
        "2"
    } else if d == 3 {
        "3"
    } else if d == 4 {
        "4"
    } else if d == 5 {
        "5"
    } else if d == 6 {
        "6"
    } else if d == 7 {
        "7"
    } else if d == 8 {
        "8"
    } else {
        "9"
    };
    let r = s.to_owned();
    proof {
        assert(r@ =~= seq![digit_char(d as nat)]);
    }
    r
}

/// Renders an unsigned 64-bit integer in decimal.
pub fn dec_u64_string(n: u64) -> (r: String)
    ensures
        r@ == dec_nat(n as nat),
    decreases n,
{
    if n < 10 {
        digit_string(n)
    } else {
        let high = dec_u64_string(n / 10);
        let low = digit_string(n % 10);
        let r = high.concat(low.as_str());
        proof {
            assert(r@ == dec_nat((n / 10) as nat) + seq![digit_char((n % 10) as nat)]);
        }
        r
    }
}

/// Renders a signed 64-bit integer in decimal.
pub fn dec_i64_string(v: i64) -> (r: String)
    ensures
        r@ == dec_i64(v),
{
    if v >= 0 {
        dec_u64_string(v as u64)
    } else {
        let m: u64 = (-(v as i128)) as u64;
        proof {
            assert(m == -(v as int));
        }
        let digits = dec_u64_string(m);
        let r = "-".to_owned().concat(digits.as_str());
        proof {
            reveal_strlit("-");
            assert(("-")@ =~= seq!['-']);
        }
        r
    }
}

} // verus!
