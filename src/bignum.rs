//! Unbounded natural numbers, enough to compare exact products of quantities.
use vstd::prelude::*;

verus! {

/// The base of one limb, `2^64`.
pub open spec fn limb_base() -> int {
    0x1_0000_0000_0000_0000
}

/// `limb_base()` raised to `n`.
pub open spec fn limb_pow(n: nat) -> int
    decreases n,
{
    if n == 0 {
        1
    } else {
        limb_base() * limb_pow((n - 1) as nat)
    }
}

/// Limb `i` of `s`, zero beyond its end.
pub open spec fn limb(s: Seq<u64>, i: int) -> int {
    if 0 <= i < s.len() {
        s[i] as int
    } else {
        0
    }
}

/// The value of the lowest `n` limbs of `s`, least significant first.
pub open spec fn value_of_limbs(s: Seq<u64>, n: nat) -> int
    decreases n,
{
    if n == 0 {
        0
    } else {
        value_of_limbs(s, (n - 1) as nat) + limb(s, n - 1) * limb_pow((n - 1) as nat)
    }
}

/// Powers of the limb base are positive.
proof fn lemma_limb_pow_positive(n: nat)
    ensures
        limb_pow(n) >= 1,
    decreases n,
{
    if n > 0 {
        lemma_limb_pow_positive((n - 1) as nat);
        assert(limb_base() * limb_pow((n - 1) as nat) >= 1) by (nonlinear_arith)
            requires
                limb_pow((n - 1) as nat) >= 1,
        ;
    }
}

/// The lowest `n` limbs are worth less than `limb_pow(n)`, and nothing negative.
proof fn lemma_value_bounds(s: Seq<u64>, n: nat)
    ensures
        0 <= value_of_limbs(s, n) < limb_pow(n),
    decreases n,
{
    if n > 0 {
        let m = (n - 1) as nat;
        lemma_value_bounds(s, m);
        lemma_limb_pow_positive(m);
        let v = value_of_limbs(s, m);
        let l = limb(s, n - 1);
        let p = limb_pow(m);
        assert(0 <= v + l * p < limb_base() * p) by (nonlinear_arith)
            requires
                0 <= v < p,
                0 <= l < limb_base(),
        ;
    }
}

/// Limbs at or beyond the end add nothing.
proof fn lemma_value_past_end(s: Seq<u64>, n: nat)
    requires
        n >= s.len(),
    ensures
        value_of_limbs(s, n) == value_of_limbs(s, s.len()),
    decreases n,
{
    if n > s.len() {
        lemma_value_past_end(s, (n - 1) as nat);
    }
}

/// Pushing a limb leaves the value of the lower limbs alone.
proof fn lemma_value_push(s: Seq<u64>, x: u64, n: nat)
    requires
        n <= s.len(),
    ensures
        value_of_limbs(s.push(x), n) == value_of_limbs(s, n),
    decreases n,
{
    if n > 0 {
        lemma_value_push(s, x, (n - 1) as nat);
    }
}

/// A natural number of any size.
#[derive(Debug)]
pub struct BigNat {
    limbs: Vec<u64>,
}

impl View for BigNat {
    type V = int;

    closed spec fn view(&self) -> int {
        value_of_limbs(self.limbs@, self.limbs@.len())
    }
}

impl BigNat {
    /// The number `x`.
    pub fn from_u128(x: u128) -> (r: BigNat)
        ensures
            r@ == x,
    {
        let lo = (x % 0x1_0000_0000_0000_0000) as u64;
        let hi = (x / 0x1_0000_0000_0000_0000) as u64;
        let mut limbs: Vec<u64> = Vec::new();
        limbs.push(lo);
        limbs.push(hi);
        proof {
            let sq = limbs@;
            assert(limb(sq, 0) == lo && limb(sq, 1) == hi);
            assert(limb_pow(0) == 1);
            assert(limb_pow(1) == limb_base() * limb_pow(0));
            assert(value_of_limbs(sq, 0) == 0);
            assert(value_of_limbs(sq, 1) == lo);
            assert(value_of_limbs(sq, 2) == lo + hi * limb_base());
        }
        BigNat { limbs }
    }

    /// `self * m`.
    pub fn mul_u64(&self, m: u64) -> (r: BigNat)
        ensures
            r@ == self@ * m,
    {
        let n = self.limbs.len();
        let mut out: Vec<u64> = Vec::new();
        let mut carry: u64 = 0;
        let mut i: usize = 0;
        while i < n
            invariant
                n == self.limbs@.len(),
                i <= n,
                out@.len() == i,
                value_of_limbs(out@, i as nat) + carry * limb_pow(i as nat) == value_of_limbs(
                    self.limbs@,
                    i as nat,
                ) * m,
            decreases n - i,
        {
            let a = self.limbs[i];
            proof {
                assert(a * m + carry <= 0xffff_ffff_ffff_ffff * 0xffff_ffff_ffff_ffff
                    + 0xffff_ffff_ffff_ffff) by (nonlinear_arith)
                    requires
                        a <= 0xffff_ffff_ffff_ffff,
                        m <= 0xffff_ffff_ffff_ffff,
                ;
            }
            let t: u128 = a as u128 * m as u128 + carry as u128;
            let lo = (t % 0x1_0000_0000_0000_0000) as u64;
            let hi = (t / 0x1_0000_0000_0000_0000) as u64;
            proof {
                let ii = i as nat;
                let p = limb_pow(ii);
                lemma_value_push(out@, lo, ii);
                assert(limb(out@.push(lo), ii as int) == lo);
                assert(limb(self.limbs@, ii as int) == a);
                assert(limb_pow(ii + 1) == limb_base() * p);
                assert(t == lo + hi * limb_base());
                let vo = value_of_limbs(out@, ii);
                let va = value_of_limbs(self.limbs@, ii);
                assert(vo + lo * p + hi * (limb_base() * p) == (va + a * p) * m) by (nonlinear_arith)
                    requires
                        vo + carry * p == va * m,
                        t == lo + hi * limb_base(),
                        t == a * m + carry,
                ;
            }
            out.push(lo);
            carry = hi;
            i = i + 1;
        }
        proof {
            lemma_value_push(out@, carry, n as nat);
            assert(limb(out@.push(carry), n as int) == carry);
        }
        out.push(carry);
        BigNat { limbs: out }
    }

    /// `self * x`.
    pub fn mul_u128(&self, x: u128) -> (r: BigNat)
        ensures
            r@ == self@ * x,
    {
        let lo = (x % 0x1_0000_0000_0000_0000) as u64;
        let hi = (x / 0x1_0000_0000_0000_0000) as u64;
        let low_part = self.mul_u64(lo);
        let high_part = self.mul_u64(hi).mul_u64(0x1_0000_0000).mul_u64(0x1_0000_0000);
        proof {
            let v = self@;
            assert(v * hi * 0x1_0000_0000 * 0x1_0000_0000 + v * lo == v * x) by (nonlinear_arith)
                requires
                    x == lo + hi * 0x1_0000_0000_0000_0000,
            ;
        }
        low_part.add(&high_part)
    }

    /// `self + other`.
    pub fn add(&self, other: &BigNat) -> (r: BigNat)
        ensures
            r@ == self@ + other@,
    {
        let la = self.limbs.len();
        let lb = other.limbs.len();
        let n = if la < lb {
            lb
        } else {
            la
        };
        let mut out: Vec<u64> = Vec::new();
        let mut carry: u64 = 0;
        let mut i: usize = 0;
        while i < n
            invariant
                la == self.limbs@.len(),
                lb == other.limbs@.len(),
                la <= n,
                lb <= n,
                i <= n,
                out@.len() == i,
                carry <= 1,
                value_of_limbs(out@, i as nat) + carry * limb_pow(i as nat) == value_of_limbs(
                    self.limbs@,
                    i as nat,
                ) + value_of_limbs(other.limbs@, i as nat),
            decreases n - i,
        {
            let a: u64 = if i < la {
                self.limbs[i]
            } else {
                0
            };
            let b: u64 = if i < lb {
                other.limbs[i]
            } else {
                0
            };
            let t: u128 = a as u128 + b as u128 + carry as u128;
            let lo = (t % 0x1_0000_0000_0000_0000) as u64;
            let hi = (t / 0x1_0000_0000_0000_0000) as u64;
            proof {
                let ii = i as nat;
                let p = limb_pow(ii);
                lemma_value_push(out@, lo, ii);
                assert(limb(out@.push(lo), ii as int) == lo);
                assert(limb(self.limbs@, ii as int) == a);
                assert(limb(other.limbs@, ii as int) == b);
                assert(limb_pow(ii + 1) == limb_base() * p);
                let vo = value_of_limbs(out@, ii);
                assert(value_of_limbs(self.limbs@, ii + 1) == value_of_limbs(self.limbs@, ii) + a * p);
                assert(value_of_limbs(other.limbs@, ii + 1) == value_of_limbs(other.limbs@, ii) + b * p);
                assert(value_of_limbs(out@.push(lo), ii + 1) == vo + lo * p);
                assert(t == lo + hi * limb_base());
                assert((a + b + carry) * p == a * p + b * p + carry * p) by (nonlinear_arith);
                assert(vo + lo * p + hi * (limb_base() * p) == vo + (a + b + carry) * p)
                    by (nonlinear_arith)
                    requires
                        a + b + carry == lo + hi * limb_base(),
                ;
            }
            out.push(lo);
            carry = hi;
            i = i + 1;
        }
        proof {
            lemma_value_push(out@, carry, n as nat);
            assert(limb(out@.push(carry), n as int) == carry);
            lemma_value_past_end(self.limbs@, n as nat);
            lemma_value_past_end(other.limbs@, n as nat);
        }
        out.push(carry);
        BigNat { limbs: out }
    }

    /// Whether `self < other`.
    pub fn lt(&self, other: &BigNat) -> (r: bool)
        ensures
            r == (self@ < other@),
    {
        let la = self.limbs.len();
        let lb = other.limbs.len();
        let n = if la < lb {
            lb
        } else {
            la
        };
        let mut borrow: u64 = 0;
        let mut i: usize = 0;
        proof {
            reveal_with_fuel(limb_pow, 1);
        }
        while i < n
            invariant
                la == self.limbs@.len(),
                lb == other.limbs@.len(),
                la <= n,
                lb <= n,
                i <= n,
                borrow <= 1,
                0 <= value_of_limbs(self.limbs@, i as nat) - value_of_limbs(other.limbs@, i as nat)
                    + borrow * limb_pow(i as nat) < limb_pow(i as nat),
            decreases n - i,
        {
            let a: u64 = if i < la {
                self.limbs[i]
            } else {
                0
            };
            let b: u64 = if i < lb {
                other.limbs[i]
            } else {
                0
            };
            let next: u64 = if (a as u128) < (b as u128) + (borrow as u128) {
                1
            } else {
                0
            };
            proof {
                let ii = i as nat;
                let p = limb_pow(ii);
                assert(limb(self.limbs@, ii as int) == a);
                assert(limb(other.limbs@, ii as int) == b);
                assert(limb_pow(ii + 1) == limb_base() * p);
                let d = value_of_limbs(self.limbs@, ii) - value_of_limbs(other.limbs@, ii) + borrow
                    * p;
                let digit = a - b - borrow + next * limb_base();
                assert(0 <= digit < limb_base());
                assert(0 <= d + digit * p < limb_base() * p) by (nonlinear_arith)
                    requires
                        0 <= d < p,
                        0 <= digit < limb_base(),
                ;
                assert(d + digit * p == value_of_limbs(self.limbs@, ii + 1) - value_of_limbs(
                    other.limbs@,
                    ii + 1,
                ) + next * (limb_base() * p)) by (nonlinear_arith)
                    requires
                        d == value_of_limbs(self.limbs@, ii) - value_of_limbs(other.limbs@, ii)
                            + borrow * p,
                        digit == a - b - borrow + next * limb_base(),
                        value_of_limbs(self.limbs@, ii + 1) == value_of_limbs(self.limbs@, ii) + a
                            * p,
                        value_of_limbs(other.limbs@, ii + 1) == value_of_limbs(other.limbs@, ii)
                            + b * p,
                ;
            }
            borrow = next;
            i = i + 1;
        }
        proof {
            lemma_value_past_end(self.limbs@, n as nat);
            lemma_value_past_end(other.limbs@, n as nat);
        }
        borrow == 1
    }

    /// Big numbers are never negative.
    pub proof fn lemma_nonnegative(&self)
        ensures
            self@ >= 0,
    {
        lemma_value_bounds(self.limbs@, self.limbs@.len());
    }

    /// Whether `self <= other`.
    pub fn le(&self, other: &BigNat) -> (r: bool)
        ensures
            r == (self@ <= other@),
    {
        !other.lt(self)
    }
}

impl PartialEq for BigNat {
    /// Whether the two numbers are equal.
    fn eq(&self, other: &BigNat) -> (r: bool)
        ensures
            r == (self@ == other@),
    {
        self.le(other) && other.le(self)
    }
}

impl vstd::std_specs::cmp::PartialEqSpecImpl for BigNat {
    open spec fn obeys_eq_spec() -> bool {
        true
    }

    open spec fn eq_spec(&self, other: &BigNat) -> bool {
        self@ == other@
    }
}

/// `d * v` (or `d * v^3` when `cube`) does not exceed `n`.
pub open spec fn fits_under(v: int, n: int, d: int, cube: bool) -> bool {
    if cube {
        d * v * v * v <= n
    } else {
        d * v <= n
    }
}

/// Whether `d * v` (or `d * v^3`) does not exceed `n`.
fn fits(v: u128, n: &BigNat, d: &BigNat, cube: bool) -> (r: bool)
    ensures
        r == fits_under(v as int, n@, d@, cube),
{
    if cube {
        d.mul_u128(v).mul_u128(v).mul_u128(v).le(n)
    } else {
        d.mul_u128(v).le(n)
    }
}

/// `v` is the largest number up to `u128::MAX` that fits under `n` with `d`.
pub open spec fn is_floor(v: u128, n: int, d: int, cube: bool) -> bool {
    &&& fits_under(v as int, n, d, cube)
    &&& (v == u128::MAX || !fits_under(v + 1, n, d, cube))
}

/// The largest number up to `u128::MAX` that fits under `n` with `d`: the
/// floor of `n / d`, or of its cube root, held at `u128::MAX` if larger.
pub open spec fn floor_value(n: int, d: int, cube: bool) -> u128 {
    choose|v: u128| #[trigger] is_floor(v, n, d, cube)
}

/// Only one number is the floor.
proof fn lemma_floor_unique(a: u128, b: u128, n: int, d: int, cube: bool)
    requires
        d > 0,
        is_floor(a, n, d, cube),
        is_floor(b, n, d, cube),
    ensures
        a == b,
{
    if a < b {
        lemma_fits_monotone((a + 1) as int, b as int, n, d, cube);
    } else if b < a {
        lemma_fits_monotone((b + 1) as int, a as int, n, d, cube);
    }
}

/// A smaller number fits wherever a larger one does.
proof fn lemma_fits_monotone(x: int, y: int, n: int, d: int, cube: bool)
    requires
        0 <= x <= y,
        d > 0,
        fits_under(y, n, d, cube),
    ensures
        fits_under(x, n, d, cube),
{
    if cube {
        assert(x * x <= y * y) by (nonlinear_arith)
            requires
                0 <= x <= y,
        ;
        assert(x * x * x <= y * y * y) by (nonlinear_arith)
            requires
                0 <= x <= y,
                x * x <= y * y,
        ;
        assert(d * x * x * x <= d * y * y * y) by (nonlinear_arith)
            requires
                x * x * x <= y * y * y,
                d > 0,
        ;
    } else {
        assert(d * x <= d * y) by (nonlinear_arith)
            requires
                x <= y,
                d > 0,
        ;
    }
}

/// The largest `v`, up to `u128::MAX`, with `d * v <= n` (or `d * v^3 <= n`
/// when `cube`): the floor of `n / d`, or of its cube root.
pub fn floor_quotient(n: &BigNat, d: &BigNat, cube: bool) -> (r: u128)
    ensures
        is_floor(r, n@, d@, cube),
        d@ > 0 ==> r == floor_value(n@, d@, cube),
{
    if fits(u128::MAX, n, d, cube) {
        proof {
            lemma_floor_is_chosen(u128::MAX, n@, d@, cube);
        }
        return u128::MAX;
    }
    proof {
        n.lemma_nonnegative();
        assert(d@ * 0 * 0 * 0 == 0 && d@ * 0 == 0);
    }
    let mut lo: u128 = 0;
    let mut hi: u128 = u128::MAX;
    while lo + 1 < hi
        invariant
            lo < hi,
            fits_under(lo as int, n@, d@, cube),
            !fits_under(hi as int, n@, d@, cube),
        decreases hi - lo,
    {
        let mid = lo + (hi - lo) / 2;
        if fits(mid, n, d, cube) {
            lo = mid;
        } else {
            hi = mid;
        }
    }
    proof {
        lemma_floor_is_chosen(lo, n@, d@, cube);
    }
    lo
}

/// A number that is the floor is the one `floor_value` names.
proof fn lemma_floor_is_chosen(v: u128, n: int, d: int, cube: bool)
    requires
        is_floor(v, n, d, cube),
    ensures
        d > 0 ==> v == floor_value(n, d, cube),
{
    if d > 0 {
        let c = floor_value(n, d, cube);
        assert(is_floor(c, n, d, cube));
        lemma_floor_unique(c, v, n, d, cube);
    }
}

} // verus!
