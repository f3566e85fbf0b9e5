use vstd::prelude::*;
use vstd::arithmetic::div_mod::*;
use vstd::arithmetic::mul::*;

verus! {

/// Number of attos in one whole unit: amounts carry eighteen fractional digits.
pub const SCALE: u128 = 1_000_000_000_000_000_000;

/// A non-negative fixed-point amount, counted in attos (10^-18 of a unit).
#[derive(Clone, Copy, Debug, PartialEq, Eq, Structural)]
pub struct Decimal {
    pub attos: u128,
}

/// The exact product of two amounts given in attos, truncated to attos.
pub open spec fn mul_attos(a: int, b: int) -> int {
    (a * b) / (SCALE as int)
}

/// A quantity of one resource: what a bucket holds on the ledger.
#[derive(Clone, Copy, Debug, PartialEq, Eq, Structural)]
pub struct Asset {
    pub resource: u64,
    pub amount: Decimal,
}

impl Decimal {
    pub fn zero() -> (r: Decimal)
        ensures
            r.attos == 0,
    {
        Decimal { attos: 0 }
    }

    pub fn one() -> (r: Decimal)
        ensures
            r.attos == SCALE,
    {
        Decimal { attos: SCALE }
    }

    /// The amount of `n` whole units.
    pub fn from_units(n: u64) -> (r: Decimal)
        ensures
            r.attos == n * SCALE,
    {
        assert(n * SCALE <= u64::MAX * SCALE) by (nonlinear_arith)
            requires n <= u64::MAX;
        Decimal { attos: n as u128 * SCALE }
    }

    pub fn add(self, o: Decimal) -> (r: Decimal)
        requires
            self.attos + o.attos <= u128::MAX,
        ensures
            r.attos == self.attos + o.attos,
    {
        Decimal { attos: self.attos + o.attos }
    }

    pub fn sub(self, o: Decimal) -> (r: Decimal)
        requires
            o.attos <= self.attos,
        ensures
            r.attos == self.attos - o.attos,
    {
        Decimal { attos: self.attos - o.attos }
    }

    pub fn min(self, o: Decimal) -> (r: Decimal)
        ensures
            r.attos == if self.attos <= o.attos { self.attos } else { o.attos },
    {
        if self.attos <= o.attos { self } else { o }
    }

    /// Fixed-point product, truncated to attos.
    pub fn mul(self, o: Decimal) -> (r: Decimal)
        requires
            mul_attos(self.attos as int, o.attos as int) <= u128::MAX,
        ensures
            r.attos == mul_attos(self.attos as int, o.attos as int),
    {
        let a1 = self.attos / SCALE;
        let a0 = self.attos % SCALE;
        let b1 = o.attos / SCALE;
        let b0 = o.attos % SCALE;
        proof {
            lemma_split_product(self.attos as int, o.attos as int);
        }
        let low = a0 * b0 / SCALE;
        let mid = a0 * b1;
        let high = a1 * o.attos;
        Decimal { attos: high + mid + low }
    }

    /// Division by a positive whole number, truncated to attos.
    pub fn div_int(self, d: u64) -> (r: Decimal)
        requires
            d > 0,
        ensures
            r.attos == self.attos as int / (d as int),
    {
        Decimal { attos: self.attos / (d as u128) }
    }
}

/// `a * b / SCALE` splits along the whole and fractional parts of both factors,
/// each part bounded by the whole.
pub proof fn lemma_split_product(a: int, b: int)
    requires
        0 <= a,
        0 <= b,
    ensures
        mul_attos(a, b) == (a / SCALE as int) * b + (a % SCALE as int) * (b / SCALE as int)
            + ((a % SCALE as int) * (b % SCALE as int)) / (SCALE as int),
        (a % SCALE as int) * (b % SCALE as int) < (SCALE as int) * (SCALE as int),
        (a / SCALE as int) * b <= mul_attos(a, b),
        (a % SCALE as int) * (b / SCALE as int) <= mul_attos(a, b),
        0 <= (a / SCALE as int) * b,
        0 <= (a % SCALE as int) * (b / SCALE as int),
{
    let s = SCALE as int;
    let a1 = a / s;
    let a0 = a % s;
    let b1 = b / s;
    let b0 = b % s;
    lemma_fundamental_div_mod(a, s);
    lemma_fundamental_div_mod(b, s);
    lemma_mod_bound(a, s);
    lemma_mod_bound(b, s);
    assert(0 <= a1) by { lemma_div_pos_is_pos(a, s); }
    assert(0 <= b1) by { lemma_div_pos_is_pos(b, s); }
    assert(a * b == s * (a1 * b + a0 * b1) + a0 * b0) by (nonlinear_arith)
        requires a == s * a1 + a0, b == s * b1 + b0;
    assert(0 <= a0 * b0 < s * s) by (nonlinear_arith)
        requires 0 <= a0 < s, 0 <= b0 < s;
    assert(0 <= a1 * b) by (nonlinear_arith) requires 0 <= a1, 0 <= b;
    assert(0 <= a0 * b1) by (nonlinear_arith) requires 0 <= a0, 0 <= b1;
    lemma_div_plus_multiple(a0 * b0, a1 * b + a0 * b1, s);
    assert(0 <= (a0 * b0) / s) by { lemma_div_pos_is_pos(a0 * b0, s); }
}

proof fn lemma_div_plus_multiple(x: int, k: int, d: int)
    requires
        0 <= x,
        0 < d,
    ensures
        (d * k + x) / d == k + x / d,
{
    lemma_fundamental_div_mod(x, d);
    lemma_mod_bound(x, d);
    let q = x / d;
    let r = x % d;
    assert(d * k + x == d * (k + q) + r) by (nonlinear_arith)
        requires x == d * q + r;
    lemma_fundamental_div_mod_converse(d * k + x, d, k + q, r);
}

} // verus!
