//! Decimal rendering of machine integers, used to put an offending numeric
//! value into a human-readable error message.

use vstd::prelude::*;
use vstd::string::StringExecFns;

verus! {

/// The decimal digit character for a value below ten.
pub open spec fn digit_char(d: nat) -> char {
    if d == 0 {
        '0'
    } else if d == 1 {
        '1'
    } else if d == 2 {
        '2'
    } else if d == 3 {
        '3'
    } else if d == 4 {
        '4'
    } else if d == 5 {
        '5'
    } else if d == 6 {
        '6'
    } else if d == 7 {
        '7'
    } else if d == 8 {
        '8'
    } else {
        '9'
    }
}

/// The usual base-ten rendering of a natural number, most significant digit
/// first, with no leading zeros (a lone zero for zero itself).
pub open spec fn dec_digits(n: nat) -> Seq<char>
    decreases n,
{
    if n < 10 {
        seq![digit_char(n)]
    } else {
        dec_digits(n / 10).push(digit_char(n % 10))
    }
}

/// The base-ten rendering of an integer: a leading minus sign for a negative
/// value, then the digits of its magnitude.
pub open spec fn signed_dec_digits(v: int) -> Seq<char> {
    if v < 0 {
        seq!['-'] + dec_digits((-v) as nat)
    } else {
        dec_digits(v as nat)
    }
}

fn digit_str(d: u64) -> (s: &'static str)
    requires
        d < 10,
    ensures
        s@ == seq![digit_char(d as nat)],
{
    if d == 0 {
        proof {
            reveal_strlit("0");
        }
        let s = "0";
        proof {
            assert(s@ =~= seq![digit_char(d as nat)]);
        }
        s
    } else if d == 1 {
        proof {
            reveal_strlit("1");
        }
        let s = "1";
        proof {
            assert(s@ =~= seq![digit_char(d as nat)]);
        }
        s
    } else if d == 2 {
        proof {
            reveal_strlit("2");
        }
        let s = "2";
        proof {
            assert(s@ =~= seq![digit_char(d as nat)]);
        }
        s
    } else if d == 3 {
        proof {
            reveal_strlit("3");
        }
        let s = "3";
        proof {
            assert(s@ =~= seq![digit_char(d as nat)]);
        }
        s
    } else if d == 4 {
        proof {
            reveal_strlit("4");
        }
        let s = "4";
        proof {
            assert(s@ =~= seq![digit_char(d as nat)]);
        }
        s
    } else if d == 5 {
        proof {
            reveal_strlit("5");
        }
        let s = "5";
        proof {
            assert(s@ =~= seq![digit_char(d as nat)]);
        }
        s
    } else if d == 6 {
        proof {
            reveal_strlit("6");
        }
        let s = "6";
        proof {
            assert(s@ =~= seq![digit_char(d as nat)]);
        }
        s
    } else if d == 7 {
        proof {
            reveal_strlit("7");
        }
        let s = "7";
        proof {
            assert(s@ =~= seq![digit_char(d as nat)]);
        }
        s
    } else if d == 8 {
        proof {
            reveal_strlit("8");
        }
        let s = "8";
        proof {
            assert(s@ =~= seq![digit_char(d as nat)]);
        }
        s
    } else {
        proof {
            reveal_strlit("9");
        }
        let s = "9";
        proof {
            assert(s@ =~= seq![digit_char(d as nat)]);
        }
        s
    }
}

/// Renders an unsigned value in base ten.
pub fn u64_dec_string(n: u64) -> (s: String)
    ensures
        s@ == dec_digits(n as nat),
    decreases n,
{
    if n < 10 {
        digit_str(n).to_owned()
    } else {
        let mut s = u64_dec_string(n / 10);
        s.append(digit_str(n % 10));
        proof {
            assert(s@ =~= dec_digits((n / 10) as nat).push(digit_char((n % 10) as nat)));
        }
        s
    }
}

/// Renders a signed value in base ten.
pub fn i64_dec_string(v: i64) -> (s: String)
    ensures
        s@ == signed_dec_digits(v as int),
{
    if v < 0 {
        let wide: i128 = v as i128;
        let magnitude: u64 = (-wide) as u64;
        proof {
            assert(magnitude as nat == (-(v as int)) as nat);
        }
        proof {
            reveal_strlit("-");
        }
        let mut s: String = "-".to_owned();
        proof {
            assert(s@ =~= seq!['-']);
        }
        let rest = u64_dec_string(magnitude);
        s.append(rest.as_str());
        s
    } else {
        u64_dec_string(v as u64)
    }
}

} // verus!
