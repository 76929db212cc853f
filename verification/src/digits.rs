//! Decimal rendering of unsigned integers, with the zero-padded forms used by
//! timestamp formatting.

use vstd::prelude::*;
use vstd::string::StringExecFns;

verus! {

/// The character for a single decimal digit.
pub open spec fn digit_char(d: int) -> char {
    if d == 1 {
        '1'
    } else if d == 2 {
        '2'
    } else if d == 3 {
        '3'
    } else if d == 4 {
        '4'
    } else if d == 5 {
        '5'
    } else if d == 6 {
        '6'
    } else if d == 7 {
        '7'
    } else if d == 8 {
        '8'
    } else if d == 9 {
        '9'
    } else {
        '0'
    }
}

/// The decimal digit string of `n`, with no leading zeros (a single `'0'` for
/// zero itself).
pub open spec fn dec_digits(n: int) -> Seq<char>
    recommends
        n >= 0,
    decreases n,
{
    if n < 10 {
        seq![digit_char(n)]
    } else {
        dec_digits(n / 10) + seq![digit_char(n % 10)]
    }
}

/// `dec_digits`, left-padded with `'0'` to at least two characters.
pub open spec fn pad2(n: int) -> Seq<char> {
    if 0 <= n < 10 {
        seq!['0'] + dec_digits(n)
    } else {
        dec_digits(n)
    }
}

/// `dec_digits`, left-padded with `'0'` to at least three characters.
pub open spec fn pad3(n: int) -> Seq<char> {
    if 0 <= n < 10 {
        seq!['0', '0'] + dec_digits(n)
    } else if 10 <= n < 100 {
        seq!['0'] + dec_digits(n)
    } else {
        dec_digits(n)
    }
}

/// `dec_digits`, left-padded with `'0'` to at least four characters.
pub open spec fn pad4(n: int) -> Seq<char> {
    if 0 <= n < 10 {
        seq!['0', '0', '0'] + dec_digits(n)
    } else if 10 <= n < 100 {
        seq!['0', '0'] + dec_digits(n)
    } else if 100 <= n < 1000 {
        seq!['0'] + dec_digits(n)
    } else {
        dec_digits(n)
    }
}

/// A one-character string slice for a single decimal digit.
pub fn digit_str(d: u64) -> (r: &'static str)
    requires
        d < 10,
    ensures
        r@ == seq![digit_char(d as int)],
{
    let r: &'static str = if d == 0 {
        "0"
    } else if d == 1 {
        "1"
    } else if d == 2 {
        "2"
    } else if d == 3 {
        "3"
    } else if d == 4 {
        "4"
    } else if d == 5 {
        "5"
    } else if d == 6 {
        "6"
    } else if d == 7 {
        "7"
    } else if d == 8 {
        "8"
    } else {
        "9"
    };
    proof {
        reveal_strlit("0");
        reveal_strlit("1");
        reveal_strlit("2");
        reveal_strlit("3");
        reveal_strlit("4");
        reveal_strlit("5");
        reveal_strlit("6");
        reveal_strlit("7");
        reveal_strlit("8");
        reveal_strlit("9");
        assert(r@ =~= seq![digit_char(d as int)]);
    }
    r
}

/// Renders `n` in decimal with no leading zeros.
pub fn u64_to_string(n: u64) -> (r: String)
    ensures
        r@ == dec_digits(n as int),
    decreases n,
{
    if n < 10 {
        let r: String = digit_str(n).to_owned();
        proof {
            assert(r@ =~= dec_digits(n as int));
        }
        r
    } else {
        let mut r: String = u64_to_string(n / 10);
        r.append(digit_str(n % 10));
        proof {
            assert(r@ =~= dec_digits(n as int));
        }
        r
    }
}

/// Renders `n` in decimal, zero-padded to at least two characters.
pub fn two_digits(n: u64) -> (r: String)
    ensures
        r@ == pad2(n as int),
{
    if n < 10 {
        let mut r: String = "0".to_owned();
        r.append(digit_str(n));
        proof {
            reveal_strlit("0");
            assert(r@ =~= pad2(n as int));
        }
        r
    } else {
        u64_to_string(n)
    }
}

/// Renders `n` in decimal, zero-padded to at least three characters.
pub fn three_digits(n: u64) -> (r: String)
    ensures
        r@ == pad3(n as int),
{
    if n < 10 {
        let mut r: String = "00".to_owned();
        r.append(digit_str(n));
        proof {
            reveal_strlit("00");
            assert(r@ =~= pad3(n as int));
        }
        r
    } else if n < 100 {
        let mut r: String = "0".to_owned();
        r.append(u64_to_string(n).as_str());
        proof {
            reveal_strlit("0");
            assert(r@ =~= pad3(n as int));
        }
        r
    } else {
        u64_to_string(n)
    }
}

/// Renders `n` in decimal, zero-padded to at least four characters.
pub fn four_digits(n: u64) -> (r: String)
    ensures
        r@ == pad4(n as int),
{
    if n < 10 {
        let mut r: String = "000".to_owned();
        r.append(digit_str(n));
        proof {
            reveal_strlit("000");
            assert(r@ =~= pad4(n as int));
        }
        r
    } else if n < 100 {
        let mut r: String = "00".to_owned();
        r.append(u64_to_string(n).as_str());
        proof {
            reveal_strlit("00");
            assert(r@ =~= pad4(n as int));
        }
        r
    } else if n < 1000 {
        let mut r: String = "0".to_owned();
        r.append(u64_to_string(n).as_str());
        proof {
            reveal_strlit("0");
            assert(r@ =~= pad4(n as int));
        }
        r
    } else {
        u64_to_string(n)
    }
}

} // verus!
