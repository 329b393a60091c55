//! Decimal rendering of the click rate.
//!
//! The rate is carried as a whole number of tenths of a click per second, so
//! the user-facing text with one digit after the point ("50.0") is exact.

use vstd::prelude::*;

verus! {

/// The decimal digit character for `d`, which must lie in 0..=9.
pub open spec fn digit_char(d: int) -> char {
    if d == 0 {
        '0'
    } else if d == 1 {
        '1'
    } else if d == 2 {
        '2'
    } else if d == 3 {
        '3'
    } else if d == 4 {
        '4'
    } else if d == 5 {
        '5'
    } else if d == 6 {
        '6'
    } else if d == 7 {
        '7'
    } else if d == 8 {
        '8'
    } else {
        '9'
    }
}

/// The base-ten rendering of `n`, most significant digit first, with no
/// leading zeros (a lone `'0'` for zero).
pub open spec fn dec_str(n: nat) -> Seq<char>
    decreases n,
{
    if n < 10 {
        seq![digit_char(n as int)]
    } else {
        dec_str(n / 10).push(digit_char((n % 10) as int))
    }
}

/// The rendering of a tenths-scaled value with one digit after the point:
/// 500 tenths reads "50.0".
pub open spec fn tenths_str(t: nat) -> Seq<char> {
    dec_str(t / 10) + seq!['.'] + seq![digit_char((t % 10) as int)]
}

/// The one-character string for digit `d`.
fn digit_string(d: u32) -> (s: &'static str)
    requires
        d < 10,
    ensures
        s@ == seq![digit_char(d as int)],
{
    if d == 0 {
        proof {
            reveal_strlit("0");
            assert("0"@ =~= seq![digit_char(0)]);
        }
        "0"
    } else if d == 1 {
        proof {
            reveal_strlit("1");
            assert("1"@ =~= seq![digit_char(1)]);
        }
        "1"
    } else if d == 2 {
        proof {
            reveal_strlit("2");
            assert("2"@ =~= seq![digit_char(2)]);
        }
        "2"
    } else if d == 3 {
        proof {
            reveal_strlit("3");
            assert("3"@ =~= seq![digit_char(3)]);
        }
        "3"
    } else if d == 4 {
        proof {
            reveal_strlit("4");
            assert("4"@ =~= seq![digit_char(4)]);
        }
        "4"
    } else if d == 5 {
        proof {
            reveal_strlit("5");
            assert("5"@ =~= seq![digit_char(5)]);
        }
        "5"
    } else if d == 6 {
        proof {
            reveal_strlit("6");
            assert("6"@ =~= seq![digit_char(6)]);
        }
        "6"
    } else if d == 7 {
        proof {
            reveal_strlit("7");
            assert("7"@ =~= seq![digit_char(7)]);
        }
        "7"
    } else if d == 8 {
        proof {
            reveal_strlit("8");
            assert("8"@ =~= seq![digit_char(8)]);
        }
        "8"
    } else {
        proof {
            reveal_strlit("9");
            assert("9"@ =~= seq![digit_char(9)]);
        }
        "9"
    }
}

/// The base-ten string for `n`, as `dec_str` describes it.
pub fn dec_string(n: u32) -> (s: String)
    ensures
        s@ == dec_str(n as nat),
    decreases n,
{
    if n < 10 {
        String::from_str(digit_string(n))
    } else {
        let mut s = dec_string(n / 10);
        s.append(digit_string(n % 10));
        proof {
            assert(dec_str((n as nat) / 10).push(digit_char((n % 10) as int)) =~= dec_str(
                (n as nat) / 10,
            ) + seq![digit_char((n % 10) as int)]);
        }
        s
    }
}

/// The one-decimal string for `t` tenths, as `tenths_str` describes it.
pub fn tenths_string(t: u32) -> (s: String)
    ensures
        s@ == tenths_str(t as nat),
{
    let mut s = dec_string(t / 10);
    s.append(".");
    s.append(digit_string(t % 10));
    proof {
        reveal_strlit(".");
        assert("."@ =~= seq!['.']);
    }
    s
}

} // verus!
