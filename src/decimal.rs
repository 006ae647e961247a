//! Decimal and fixed-point text for integers and ratios of integers.

use vstd::arithmetic::div_mod::{lemma_div_multiples_vanish_fancy, lemma_fundamental_div_mod};
use vstd::prelude::*;

verus! {

/// The character of the decimal digit `d` (for `d < 10`).
pub open spec fn digit_char(d: nat) -> char {
    seq!['0', '1', '2', '3', '4', '5', '6', '7', '8', '9'][d as int]
}

/// The decimal digits of `n`, most significant first, with no leading zeros.
pub open spec fn decimal(n: nat) -> Seq<char>
    decreases n,
{
    if n < 10 {
        seq![digit_char(n)]
    } else {
        decimal(n / 10).push(digit_char(n % 10))
    }
}

/// Ten to the power `p`.
pub open spec fn pow10(p: nat) -> nat
    decreases p,
{
    if p == 0 {
        1
    } else {
        10 * pow10((p - 1) as nat)
    }
}

/// `num / den` rounded to the nearest integer, halves rounded up.
pub open spec fn round_div(num: nat, den: nat) -> nat {
    if den == 0 {
        0
    } else {
        (2 * num + den) / (2 * den)
    }
}

/// `v / 10^p` written with exactly `p` decimals, for `p` of 1 or 2.
pub open spec fn point_text(v: nat, p: nat) -> Seq<char> {
    let frac = v % pow10(p);
    let pad = if p == 2 && frac < 10 {
        seq!['0']
    } else {
        Seq::empty()
    };
    decimal(v / pow10(p)) + seq!['.'] + pad + decimal(frac)
}

/// `num / den` rounded to `p` decimals (halves up) and written in fixed point.
pub open spec fn fixed(num: nat, den: nat, p: nat) -> Seq<char> {
    point_text(round_div(num * pow10(p), den), p)
}

/// The sign written before a signed quantity: `-` for a negative one, and
/// for the rest `+` when `plus` is asked for, nothing otherwise.
pub open spec fn sign_text(num: int, plus: bool) -> Seq<char> {
    if num < 0 {
        seq!['-']
    } else if plus {
        seq!['+']
    } else {
        Seq::empty()
    }
}

/// The magnitude of `num`.
pub open spec fn magnitude(num: int) -> nat {
    if num < 0 {
        (-num) as nat
    } else {
        num as nat
    }
}

/// `num / den` with its sign, rounded to `p` decimals on the magnitude.
pub open spec fn signed_fixed(num: int, den: nat, p: nat, plus: bool) -> Seq<char> {
    sign_text(num, plus) + fixed(magnitude(num), den, p)
}

pub(crate) fn digit_str(d: u128) -> (r: &'static str)
    requires
        d < 10,
    ensures
        r@ == seq![digit_char(d as nat)],
{
    proof {
        reveal_strlit("0");
        reveal_strlit("1");
        reveal_strlit("2");
        reveal_strlit("3");
        reveal_strlit("4");
        reveal_strlit("5");
        reveal_strlit("6");
        reveal_strlit("7");
        reveal_strlit("8");
        reveal_strlit("9");
    }
    let r = if d == 0 {
        "0"
    } else if d == 1 {
        "1"
    } else if d == 2 {
        "2"
    } else if d == 3 {
        "3"
    } else if d == 4 {
        "4"
    } else if d == 5 {
        "5"
    } else if d == 6 {
        "6"
    } else if d == 7 {
        "7"
    } else if d == 8 {
        "8"
    } else {
        "9"
    };
    assert(r@ =~= seq![digit_char(d as nat)]);
    r
}

/// The decimal digits of `n`.
pub fn decimal_string(n: u128) -> (r: String)
    ensures
        r@ == decimal(n as nat),
    decreases n,
{
    if n < 10 {
        String::from_str(digit_str(n))
    } else {
        let mut s = decimal_string(n / 10);
        s.append(digit_str(n % 10));
        proof {
            assert(s@ =~= decimal((n / 10) as nat) + seq![digit_char((n % 10) as nat)]);
        }
        s
    }
}

/// `num / den` rounded to the nearest integer, halves up.
pub fn round_div_exec(num: u128, den: u128) -> (r: u128)
    requires
        den > 0,
    ensures
        r == round_div(num as nat, den as nat),
{
    let q = num / den;
    let rem = num % den;
    proof {
        lemma_fundamental_div_mod(num as int, den as int);
    }
    if rem >= den - rem {
        proof {
            assert(q < u128::MAX) by (nonlinear_arith)
                requires
                    num == den * q + rem,
                    den >= 2,
                    num <= u128::MAX,
            ;
            let d2 = 2 * den;
            assert(2 * num + den == d2 * (q + 1) + (2 * rem - den)) by (nonlinear_arith)
                requires
                    num == den * q + rem,
                    d2 == 2 * den,
            ;
            lemma_div_multiples_vanish_fancy((q + 1) as int, (2 * rem - den) as int, d2 as int);
        }
        q + 1
    } else {
        proof {
            let d2 = 2 * den;
            assert(2 * num + den == d2 * q + (2 * rem + den)) by (nonlinear_arith)
                requires
                    num == den * q + rem,
                    d2 == 2 * den,
            ;
            lemma_div_multiples_vanish_fancy(q as int, (2 * rem + den) as int, d2 as int);
        }
        q
    }
}

pub(crate) fn point_string(v: u128, p: u32) -> (r: String)
    requires
        p == 1 || p == 2,
    ensures
        r@ == point_text(v as nat, p as nat),
{
    let scale: u128 = if p == 1 {
        10
    } else {
        100
    };
    proof {
        reveal_with_fuel(pow10, 3);
        assert(scale == pow10(p as nat));
    }
    let whole = v / scale;
    let frac = v % scale;
    let mut s = decimal_string(whole);
    s.append(".");
    if p == 2 && frac < 10 {
        s.append("0");
    }
    let digits = decimal_string(frac);
    s.append(digits.as_str());
    proof {
        reveal_strlit(".");
        reveal_strlit("0");
        assert(s@ =~= point_text(v as nat, p as nat));
    }
    s
}

/// `num / den` rounded to `p` decimals (halves up), in fixed point.
pub fn fixed_string(num: u128, den: u128, p: u32) -> (r: String)
    requires
        den > 0,
        p == 1 || p == 2,
        num < 0x1_0000_0000_0000_0000_0000_0000_0000,
    ensures
        r@ == fixed(num as nat, den as nat, p as nat),
{
    let scale: u128 = if p == 1 {
        10
    } else {
        100
    };
    proof {
        reveal_with_fuel(pow10, 3);
    }
    let v = round_div_exec(num * scale, den);
    point_string(v, p)
}

/// `num / den` with its sign, rounded to `p` decimals on the magnitude; a
/// non-negative value carries `+` when `plus` is set.
pub fn signed_fixed_string(num: i128, den: u128, p: u32, plus: bool) -> (r: String)
    requires
        den > 0,
        p == 1 || p == 2,
        -0x1_0000_0000_0000_0000_0000_0000_0000 < num < 0x1_0000_0000_0000_0000_0000_0000_0000,
    ensures
        r@ == signed_fixed(num as int, den as nat, p as nat, plus),
{
    let mag: u128 = if num < 0 {
        (-num) as u128
    } else {
        num as u128
    };
    let body = fixed_string(mag, den, p);
    let mut s = String::new();
    if num < 0 {
        s.append("-");
    } else if plus {
        s.append("+");
    }
    s.append(body.as_str());
    proof {
        reveal_strlit("-");
        reveal_strlit("+");
        assert(s@ =~= signed_fixed(num as int, den as nat, p as nat, plus));
    }
    s
}

} // verus!
