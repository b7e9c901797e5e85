//! Decimal rendering of the integer payloads that indentation-class tokens
//! carry. The spec-level form is the usual base-ten digit sequence, most
//! significant digit first, with a leading `-` for negative values; the
//! executable functions are proved to produce exactly that sequence.

use vstd::prelude::*;
use vstd::string::StringExecFns;

verus! {

/// The character for one decimal digit value.
pub open spec fn dec_digit(d: int) -> char {
    if d == 0 {
        '0'
    } else if d == 1 {
        '1'
    } else if d == 2 {
        '2'
    } else if d == 3 {
        '3'
    } else if d == 4 {
        '4'
    } else if d == 5 {
        '5'
    } else if d == 6 {
        '6'
    } else if d == 7 {
        '7'
    } else if d == 8 {
        '8'
    } else {
        '9'
    }
}

/// The decimal digit sequence of a non-negative integer, most significant
/// digit first and without a sign or leading zeros (a single `0` for zero).
pub open spec fn spec_udec(n: int) -> Seq<char>
    decreases n,
{
    if n < 10 {
        seq![dec_digit(n)]
    } else {
        spec_udec(n / 10).push(dec_digit(n % 10))
    }
}

/// The decimal rendering of a signed integer: the digit sequence of its
/// magnitude, preceded by `-` when the value is negative.
pub open spec fn spec_dec(n: int) -> Seq<char> {
    if n < 0 {
        seq!['-'] + spec_udec(-n)
    } else {
        spec_udec(n)
    }
}

fn digit_str(d: u64) -> (r: &'static str)
    requires
        d < 10,
    ensures
        r@ == seq![dec_digit(d as int)],
{
    proof {
        reveal_strlit("0");
        reveal_strlit("1");
        reveal_strlit("2");
        reveal_strlit("3");
        reveal_strlit("4");
        reveal_strlit("5");
        reveal_strlit("6");
        reveal_strlit("7");
        reveal_strlit("8");
        reveal_strlit("9");
    }
    let r: &'static str = if d == 0 {
        "0"
    } else if d == 1 {
        "1"
    } else if d == 2 {
        "2"
    } else if d == 3 {
        "3"
    } else if d == 4 {
        "4"
    } else if d == 5 {
        "5"
    } else if d == 6 {
        "6"
    } else if d == 7 {
        "7"
    } else if d == 8 {
        "8"
    } else {
        "9"
    };
    proof {
        assert(r@ =~= seq![dec_digit(d as int)]);
    }
    r
}

/// Renders a non-negative integer in decimal.
pub fn udec_string(n: u64) -> (r: String)
    ensures
        r@ == spec_udec(n as int),
    decreases n,
{
    if n < 10 {
        String::from_str(digit_str(n))
    } else {
        let mut s = udec_string(n / 10);
        s.append(digit_str(n % 10));
        proof {
            assert(s@ =~= spec_udec(n as int));
        }
        s
    }
}

/// Renders a signed integer in decimal, with a `-` sign for negatives.
pub fn i32_dec_string(n: i32) -> (r: String)
    ensures
        r@ == spec_dec(n as int),
{
    if n < 0 {
        let m: u64 = (-(n as i64)) as u64;
        assert(m as int == -(n as int));
        let mut s = String::from_str("-");
        let digits = udec_string(m);
        s.append(digits.as_str());
        proof {
            reveal_strlit("-");
            assert(s@ =~= spec_dec(n as int));
        }
        s
    } else {
        udec_string(n as u64)
    }
}

/// Whether a character is one of the ten decimal digit characters.
pub open spec fn is_dec_digit_char(c: char) -> bool {
    c == '0' || c == '1' || c == '2' || c == '3' || c == '4' || c == '5' || c == '6' || c == '7'
        || c == '8' || c == '9'
}

/// The digit sequence of a non-negative integer is never empty, is a single
/// digit exactly below ten, and starts with a digit character.
pub proof fn lemma_udec_shape(n: int)
    requires
        n >= 0,
    ensures
        spec_udec(n).len() >= 1,
        n < 10 <==> spec_udec(n).len() == 1,
        is_dec_digit_char(spec_udec(n)[0]),
    decreases n,
{
    if n >= 10 {
        lemma_udec_shape(n / 10);
    }
}

/// Distinct non-negative integers have distinct digit sequences.
pub proof fn lemma_udec_injective(m: int, n: int)
    requires
        m >= 0,
        n >= 0,
        spec_udec(m) == spec_udec(n),
    ensures
        m == n,
    decreases m + n,
{
    lemma_udec_shape(m);
    lemma_udec_shape(n);
    if m < 10 && n < 10 {
        assert(spec_udec(m)[0] == dec_digit(m));
        assert(spec_udec(n)[0] == dec_digit(n));
    } else if m >= 10 && n >= 10 {
        let bm = spec_udec(m / 10);
        let bn = spec_udec(n / 10);
        assert(spec_udec(m).last() == dec_digit(m % 10));
        assert(spec_udec(n).last() == dec_digit(n % 10));
        assert(m % 10 == n % 10);
        assert(bm.len() == bn.len());
        assert forall|i: int| 0 <= i < bm.len() implies bm[i] == bn[i] by {
            assert(bm.push(dec_digit(m % 10))[i] == bm[i]);
            assert(bn.push(dec_digit(n % 10))[i] == bn[i]);
        }
        assert(bm =~= bn);
        lemma_udec_injective(m / 10, n / 10);
        vstd::arithmetic::div_mod::lemma_fundamental_div_mod(m, 10);
        vstd::arithmetic::div_mod::lemma_fundamental_div_mod(n, 10);
    } else {
        assert(spec_udec(m).len() != spec_udec(n).len());
        assert(false);
    }
}

/// Distinct integers have distinct decimal renderings.
pub proof fn lemma_dec_injective(m: int, n: int)
    requires
        spec_dec(m) == spec_dec(n),
    ensures
        m == n,
{
    if m < 0 && n < 0 {
        lemma_udec_shape(-m);
        lemma_udec_shape(-n);
        let um = spec_udec(-m);
        let un = spec_udec(-n);
        assert(spec_dec(m) == seq!['-'] + um);
        assert(spec_dec(n) == seq!['-'] + un);
        assert((seq!['-'] + um).len() == 1 + um.len());
        assert((seq!['-'] + un).len() == 1 + un.len());
        assert(um.len() == un.len());
        assert forall|i: int| 0 <= i < um.len() implies um[i] == un[i] by {
            assert((seq!['-'] + um)[1 + i] == um[i]);
            assert((seq!['-'] + un)[1 + i] == un[i]);
        }
        assert(um =~= un);
        lemma_udec_injective(-m, -n);
    } else if m >= 0 && n >= 0 {
        lemma_udec_injective(m, n);
    } else if m < 0 {
        lemma_udec_shape(n);
        assert(spec_dec(m)[0] == '-');
        assert(false);
    } else {
        lemma_udec_shape(m);
        assert(spec_dec(n)[0] == '-');
        assert(false);
    }
}

} // verus!
