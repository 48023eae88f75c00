//! Decimal text for sensor readings.
//!
//! A reading arrives from the sensor in tenths of a unit. Its text form is
//! the signed decimal with exactly one fractional digit, and a full payload
//! is the two values bracketed and comma-separated, e.g. `[23.5, 61.2]`.
use vstd::prelude::*;
use vstd::string::StringExecFns;

verus! {

/// The decimal digit character for `d`.
pub open spec fn digit_char(d: int) -> char {
    if d == 0 {
        '0'
    } else if d == 1 {
        '1'
    } else if d == 2 {
        '2'
    } else if d == 3 {
        '3'
    } else if d == 4 {
        '4'
    } else if d == 5 {
        '5'
    } else if d == 6 {
        '6'
    } else if d == 7 {
        '7'
    } else if d == 8 {
        '8'
    } else {
        '9'
    }
}

/// The decimal digits of `n`, most significant first, with no leading zero
/// except for `n == 0` itself.
pub open spec fn dec_rep(n: nat) -> Seq<char>
    decreases n,
{
    if n < 10 {
        seq![digit_char(n as int)]
    } else {
        dec_rep(n / 10).push(digit_char((n % 10) as int))
    }
}

/// The text of a value counted in tenths: the whole part, a dot, and the one
/// remaining tenths digit, with a leading minus sign when negative.
pub open spec fn tenths_text(v: int) -> Seq<char> {
    if v >= 0 {
        tenths_text_abs(v as nat)
    } else {
        seq!['-'] + tenths_text_abs((-v) as nat)
    }
}

pub open spec fn tenths_text_abs(m: nat) -> Seq<char> {
    dec_rep(m / 10) + seq!['.'] + seq![digit_char((m % 10) as int)]
}

fn digit_str(d: u32) -> (r: &'static str)
    requires
        d < 10,
    ensures
        r@ == seq![digit_char(d as int)],
{
    let r: &'static str = if d == 0 {
        "0"
    } else if d == 1 {
        "1"
    } else if d == 2 {
        "2"
    } else if d == 3 {
        "3"
    } else if d == 4 {
        "4"
    } else if d == 5 {
        "5"
    } else if d == 6 {
        "6"
    } else if d == 7 {
        "7"
    } else if d == 8 {
        "8"
    } else {
        "9"
    };
    proof {
        reveal_strlit("0");
        reveal_strlit("1");
        reveal_strlit("2");
        reveal_strlit("3");
        reveal_strlit("4");
        reveal_strlit("5");
        reveal_strlit("6");
        reveal_strlit("7");
        reveal_strlit("8");
        reveal_strlit("9");
        assert(r@ =~= seq![digit_char(d as int)]);
    }
    r
}

/// The decimal text of `n`: digits only, most significant first.
pub fn u32_decimal(n: u32) -> (s: String)
    ensures
        s@ == dec_rep(n as nat),
    decreases n,
{
    if n < 10 {
        String::from_str(digit_str(n))
    } else {
        let mut s = u32_decimal(n / 10);
        s.append(digit_str(n % 10));
        proof {
            assert(s@ =~= dec_rep((n / 10) as nat).push(digit_char((n % 10) as int)));
        }
        s
    }
}

/// The text of a tenths-valued reading: one fractional digit, a minus sign
/// when the value is below zero.
pub fn format_tenths(v: i32) -> (s: String)
    ensures
        s@ == tenths_text(v as int),
{
    let wide: i64 = v as i64;
    let m: u32 = if wide < 0 {
        (-wide) as u32
    } else {
        wide as u32
    };
    let mut s: String = if wide < 0 {
        let neg = String::from_str("-");
        proof {
            reveal_strlit("-");
            assert(neg@ =~= seq!['-']);
        }
        neg
    } else {
        let empty = String::from_str("");
        proof {
            reveal_strlit("");
            assert(empty@ =~= Seq::<char>::empty());
        }
        empty
    };
    let whole = u32_decimal(m / 10);
    s.append(whole.as_str());
    s.append(".");
    proof {
        reveal_strlit(".");
    }
    s.append(digit_str(m % 10));
    proof {
        assert(s@ =~= tenths_text(v as int));
    }
    s
}

} // verus!
