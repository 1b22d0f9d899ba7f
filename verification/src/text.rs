//! Decimal text helpers.
//!
//! Small verified building blocks for the strings the engine must produce:
//! decimal renderings of numbers and their zero-padded forms.

use vstd::prelude::*;

verus! {

pub open spec fn spec_digit(d: int) -> char {
    if d == 0 {
        '0'
    } else if d == 1 {
        '1'
    } else if d == 2 {
        '2'
    } else if d == 3 {
        '3'
    } else if d == 4 {
        '4'
    } else if d == 5 {
        '5'
    } else if d == 6 {
        '6'
    } else if d == 7 {
        '7'
    } else if d == 8 {
        '8'
    } else {
        '9'
    }
}

/// The decimal rendering of a non-negative number, most significant digit
/// first, with no leading zeros (except for zero itself).
pub open spec fn spec_dec(n: int) -> Seq<char>
    recommends
        n >= 0,
    decreases n,
{
    if n < 10 {
        seq![spec_digit(n)]
    } else {
        spec_dec(n / 10).push(spec_digit(n % 10))
    }
}

/// `n` rendered to two digits with a leading zero.
pub open spec fn spec_pad2(n: int) -> Seq<char>
    recommends
        0 <= n < 100,
{
    if n < 10 {
        seq!['0'] + spec_dec(n)
    } else {
        spec_dec(n)
    }
}

/// `n` rendered to four digits with leading zeros.
pub open spec fn spec_pad4(n: int) -> Seq<char>
    recommends
        0 <= n < 10000,
{
    if n < 10 {
        seq!['0', '0', '0'] + spec_dec(n)
    } else if n < 100 {
        seq!['0', '0'] + spec_dec(n)
    } else if n < 1000 {
        seq!['0'] + spec_dec(n)
    } else {
        spec_dec(n)
    }
}

fn digit_string(d: u32) -> (r: &'static str)
    requires
        d < 10,
    ensures
        r@ == seq![spec_digit(d as int)],
{
    let s: &'static str = if d == 0 {
        "0"
    } else if d == 1 {
        "1"
    } else if d == 2 {
        "2"
    } else if d == 3 {
        "3"
    } else if d == 4 {
        "4"
    } else if d == 5 {
        "5"
    } else if d == 6 {
        "6"
    } else if d == 7 {
        "7"
    } else if d == 8 {
        "8"
    } else {
        "9"
    };
    proof {
        reveal_strlit("0");
        reveal_strlit("1");
        reveal_strlit("2");
        reveal_strlit("3");
        reveal_strlit("4");
        reveal_strlit("5");
        reveal_strlit("6");
        reveal_strlit("7");
        reveal_strlit("8");
        reveal_strlit("9");
    }
    assert(s@ =~= seq![spec_digit(d as int)]);
    s
}

/// The decimal rendering of `n`.
pub fn dec_u32(n: u32) -> (r: String)
    ensures
        r@ == spec_dec(n as int),
    decreases n,
{
    if n < 10 {
        String::from_str(digit_string(n))
    } else {
        let q = dec_u32(n / 10);
        let r = q.concat(digit_string(n % 10));
        assert(r@ =~= spec_dec((n / 10) as int).push(spec_digit((n % 10) as int)));
        r
    }
}

/// The two-digit zero-padded rendering of `n`.
pub fn pad2(n: u32) -> (r: String)
    requires
        n < 100,
    ensures
        r@ == spec_pad2(n as int),
{
    if n < 10 {
        proof {
            reveal_strlit("0");
        }
        let r = String::from_str("0").concat(dec_u32(n).as_str());
        assert(r@ =~= spec_pad2(n as int));
        r
    } else {
        dec_u32(n)
    }
}

/// The four-digit zero-padded rendering of `n`.
pub fn pad4(n: u32) -> (r: String)
    requires
        n < 10000,
    ensures
        r@ == spec_pad4(n as int),
{
    if n < 10 {
        proof {
            reveal_strlit("000");
        }
        let r = String::from_str("000").concat(dec_u32(n).as_str());
        assert(r@ =~= spec_pad4(n as int));
        r
    } else if n < 100 {
        proof {
            reveal_strlit("00");
        }
        let r = String::from_str("00").concat(dec_u32(n).as_str());
        assert(r@ =~= spec_pad4(n as int));
        r
    } else if n < 1000 {
        proof {
            reveal_strlit("0");
        }
        let r = String::from_str("0").concat(dec_u32(n).as_str());
        assert(r@ =~= spec_pad4(n as int));
        r
    } else {
        dec_u32(n)
    }
}

} // verus!
