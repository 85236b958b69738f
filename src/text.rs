//! Writing fixed-point values as decimal text.
use crate::bignum::{floor_quotient, fits_under, BigNat};
use crate::number::{lemma_pow10_max_scale, lemma_pow10_monotone, pow10, power_of_ten, round_div, MAX_SCALE};
use vstd::string::StrSliceExecFns;
use vstd::prelude::*;
use vstd::string::StringExecFns;

verus! {

/// The character of the decimal digit `d`.
pub open spec fn digit_char(d: int) -> char {
    if d == 0 {
        '0'
    } else if d == 1 {
        '1'
    } else if d == 2 {
        '2'
    } else if d == 3 {
        '3'
    } else if d == 4 {
        '4'
    } else if d == 5 {
        '5'
    } else if d == 6 {
        '6'
    } else if d == 7 {
        '7'
    } else if d == 8 {
        '8'
    } else {
        '9'
    }
}

/// The decimal digits of `n`, most significant first, with no leading zero.
pub open spec fn decimal_text(n: nat) -> Seq<char>
    decreases n,
{
    if n < 10 {
        seq![digit_char(n as int)]
    } else {
        decimal_text(n / 10).push(digit_char((n % 10) as int))
    }
}

/// The last `width` decimal digits of `n`, padded with leading zeros.
pub open spec fn padded_digits(n: nat, width: nat) -> Seq<char>
    decreases width,
{
    if width == 0 {
        seq![]
    } else {
        padded_digits(n / 10, (width - 1) as nat).push(digit_char((n % 10) as int))
    }
}

/// `num / den` rounded to `places` decimal places, a half rounded up.
pub open spec fn fixed_text(num: nat, den: nat, places: nat) -> Seq<char> {
    let q = round_div((num * pow10(places)) as int, den as int) as nat;
    if places == 0 {
        decimal_text(q)
    } else {
        decimal_text(q / pow10(places)) + seq!['.'] + padded_digits(q % pow10(places), places)
    }
}

/// `s` aligned to the right in a field of `width` characters.
pub open spec fn right_aligned(s: Seq<char>, width: nat) -> Seq<char> {
    if s.len() >= width {
        s
    } else {
        Seq::new((width - s.len()) as nat, |i: int| ' ') + s
    }
}

/// The text of the decimal digit `d`.
fn digit_str(d: u128) -> (r: &'static str)
    requires
        d < 10,
    ensures
        r@ == seq![digit_char(d as int)],
{
    proof {
        reveal_strlit("0");
        reveal_strlit("1");
        reveal_strlit("2");
        reveal_strlit("3");
        reveal_strlit("4");
        reveal_strlit("5");
        reveal_strlit("6");
        reveal_strlit("7");
        reveal_strlit("8");
        reveal_strlit("9");
    }
    match d {
        0 => "0",
        1 => "1",
        2 => "2",
        3 => "3",
        4 => "4",
        5 => "5",
        6 => "6",
        7 => "7",
        8 => "8",
        _ => "9",
    }
}

/// Appends the decimal digits of `n`.
fn push_decimal(out: &mut String, n: u128)
    ensures
        final(out)@ == old(out)@ + decimal_text(n as nat),
    decreases n,
{
    if n >= 10 {
        push_decimal(out, n / 10);
    }
    let d = digit_str(n % 10);
    out.append(d);
    assert(final(out)@ =~= old(out)@ + decimal_text(n as nat));
}

/// Appends the last `width` decimal digits of `n`, padded with leading zeros.
fn push_padded(out: &mut String, n: u128, width: u32)
    ensures
        final(out)@ == old(out)@ + padded_digits(n as nat, width as nat),
    decreases width,
{
    if width > 0 {
        push_padded(out, n / 10, width - 1);
        let d = digit_str(n % 10);
        out.append(d);
    }
    assert(final(out)@ =~= old(out)@ + padded_digits(n as nat, width as nat));
}

/// `num / den` rounded to `places` decimal places, a half rounded up.
pub fn format_fixed(num: u128, den: u128, places: u32) -> (r: String)
    requires
        0 < den,
        places <= MAX_SCALE,
    ensures
        r@ == fixed_text(num as nat, den as nat, places as nat),
{
    let p = power_of_ten(places) as u128;
    let whole = num / den;
    let rem = num % den;
    let scaled_rem = BigNat::from_u128(rem).mul_u128(p).mul_u64(2).add(&BigNat::from_u128(den));
    let twice_den = BigNat::from_u128(den).mul_u64(2);
    let frac = floor_quotient(&scaled_rem, &twice_den, false);
    proof {
        lemma_pow10_max_scale();
        lemma_pow10_monotone(0, places as nat);
        lemma_pow10_monotone(places as nat, MAX_SCALE as nat);
        let d = den as int;
        let m = rem as int;
        let pp = p as int;
        let x = 2 * (m * pp) + d;
        assert(scaled_rem@ == x);
        assert(twice_den@ == 2 * d);
        let f = frac as int;
        assert((2 * d) * f <= x);
        if frac < u128::MAX {
            assert(!fits_under(f + 1, x, 2 * d, false));
            assert(x < (2 * d) * (f + 1));
        } else {
            assert(x < (2 * d) * (f + 1)) by (nonlinear_arith)
                requires
                    0 <= m < d,
                    1 <= pp <= 1_000_000_000_000_000_000,
                    x == 2 * (m * pp) + d,
                    f == 0xffff_ffff_ffff_ffff_ffff_ffff_ffff_ffff,
            ;
        }
        assert(x == f * (2 * d) + (x - (2 * d) * f)) by (nonlinear_arith);
        assert(x - (2 * d) * f < 2 * d) by (nonlinear_arith)
            requires
                x < (2 * d) * (f + 1),
        ;
        vstd::arithmetic::div_mod::lemma_fundamental_div_mod_converse(
            x,
            2 * d,
            f,
            x - (2 * d) * f,
        );
    }
    proof {
        let n = num as int;
        let d = den as int;
        let pp = p as int;
        let w = whole as int;
        let m = rem as int;
        let f = frac as int;
        let x = 2 * (m * pp) + d;
        assert(f == x / (2 * d));
        vstd::arithmetic::div_mod::lemma_fundamental_div_mod(n, d);
        assert(2 * (n * pp) + d == x + (w * pp) * (2 * d)) by (nonlinear_arith)
            requires
                n == d * w + m,
                x == 2 * (m * pp) + d,
        ;
        vstd::arithmetic::div_mod::lemma_hoist_over_denominator(x, w * pp, (2 * d) as nat);
        assert(round_div(n * pp, d) == w * pp + f);
        vstd::arithmetic::div_mod::lemma_fundamental_div_mod(x, 2 * d);
        let rr = x % (2 * d);
        assert(f <= pp) by (nonlinear_arith)
            requires
                0 <= m < d,
                1 <= pp,
                0 <= rr,
                x == (2 * d) * f + rr,
                x == 2 * (m * pp) + d,
        ;
        if m == 0 {
            assert(m * pp == 0) by (nonlinear_arith)
                requires
                    m == 0,
            ;
            vstd::arithmetic::div_mod::lemma_fundamental_div_mod_converse(d, 2 * d, 0, d);
            assert(f == 0);
        } else {
            assert(w <= n / 2) by (nonlinear_arith)
                requires
                    n == d * w + m,
                    0 < m < d,
                    0 <= w,
            ;
        }
        vstd::arithmetic::div_mod::lemma_hoist_over_denominator(f, w, pp as nat);
        vstd::arithmetic::div_mod::lemma_mod_multiples_vanish(w, f, pp);
        assert(w * pp + f == pp * w + f) by (nonlinear_arith);
        if f == pp {
            vstd::arithmetic::div_mod::lemma_div_by_self(pp);
        } else {
            vstd::arithmetic::div_mod::lemma_basic_div(f, pp);
        }
        assert(f / pp == 0 || (f / pp == 1 && w <= n / 2));
        let q = round_div((num * pow10(places as nat)) as int, den as int) as nat;
        assert(q == w * pp + f);
        assert(q / pow10(places as nat) == w + f / pp);
        assert(q % pow10(places as nat) == f % pp);
        if places == 0 {
            assert(pp == 1);
            assert(f / pp == f);
        }
        reveal_strlit(".");
    }
    let int_part = whole + frac / p;
    let frac_part = frac % p;
    let mut out = String::new();
    if places == 0 {
        push_decimal(&mut out, int_part);
    } else {
        push_decimal(&mut out, int_part);
        out.append(".");
        push_padded(&mut out, frac_part, places);
    }
    out
}

/// Appends `s`, aligned to the right in a field of `width` characters.
pub fn push_right_aligned(out: &mut String, s: &str, width: usize)
    ensures
        final(out)@ == old(out)@ + right_aligned(s@, width as nat),
{
    let len = s.unicode_len();
    if len < width {
        let mut i: usize = 0;
        let ghost start = out@;
        while i < width - len
            invariant
                len < width,
                i <= width - len,
                out@ == start + Seq::new(i as nat, |j: int| ' '),
            decreases width - len - i,
        {
            proof {
                reveal_strlit(" ");
            }
            out.append(" ");
            i = i + 1;
            assert(out@ =~= start + Seq::new(i as nat, |j: int| ' '));
        }
    }
    out.append(s);
    assert(final(out)@ =~= old(out)@ + right_aligned(s@, width as nat));
}

} // verus!
