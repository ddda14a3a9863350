//! Amounts in the ledger's smallest denomination, 256 bits wide.

use vstd::prelude::*;

verus! {

/// Two to the power 256: the first number that no amount can hold.
pub open spec fn amount_limit() -> int {
    0x1_0000_0000_0000_0000_0000_0000_0000_0000_0000_0000_0000_0000_0000_0000_0000_0000int
}

/// The number that four 64-bit limbs stand for, least significant first.
pub open spec fn limbs_value(w0: int, w1: int, w2: int, w3: int) -> int {
    w0 + 0x1_0000_0000_0000_0000int * w1 + 0x1_0000_0000_0000_0000_0000_0000_0000_0000int * w2
        + 0x1_0000_0000_0000_0000_0000_0000_0000_0000_0000_0000_0000_0000int * w3
}

/// An unsigned 256-bit amount, held as four 64-bit limbs, least significant first.
///
/// Every combination of limbs is an amount, and two amounts are equal exactly
/// when they stand for the same number.
#[derive(Clone, Copy, Debug, PartialEq, Eq, Structural)]
pub struct Wei {
    pub w0: u64,
    pub w1: u64,
    pub w2: u64,
    pub w3: u64,
}

impl View for Wei {
    type V = nat;

    open spec fn view(&self) -> nat {
        limbs_value(self.w0 as int, self.w1 as int, self.w2 as int, self.w3 as int) as nat
    }
}

/// Adds two limbs and an incoming carry; the second component is the outgoing carry.
fn add_limbs(a: u64, b: u64, carry: bool) -> (r: (u64, bool))
    ensures
        r.0 + (if r.1 {
            0x1_0000_0000_0000_0000int
        } else {
            0
        }) == a + b + (if carry {
            1int
        } else {
            0
        }),
{
    let c: u128 = if carry {
        1
    } else {
        0
    };
    let t: u128 = a as u128 + b as u128 + c;
    if t >= 0x1_0000_0000_0000_0000u128 {
        ((t - 0x1_0000_0000_0000_0000u128) as u64, true)
    } else {
        (t as u64, false)
    }
}

/// Multiplies a limb by a factor and adds an incoming carry; the second
/// component is the outgoing carry.
fn mul_limb(a: u64, factor: u64, carry: u64) -> (r: (u64, u64))
    ensures
        r.0 + 0x1_0000_0000_0000_0000int * r.1 == a * factor + carry,
{
    assert(a * factor <= 0xffff_ffff_ffff_ffffint * 0xffff_ffff_ffff_ffffint) by (nonlinear_arith)
        requires
            0 <= a <= 0xffff_ffff_ffff_ffffint,
            0 <= factor <= 0xffff_ffff_ffff_ffffint,
    ;
    let t: u128 = a as u128 * factor as u128 + carry as u128;
    let low: u128 = t % 0x1_0000_0000_0000_0000u128;
    let high: u128 = t / 0x1_0000_0000_0000_0000u128;
    (low as u64, high as u64)
}

/// A number written as a lowest limb and the rest gives both back when it is
/// divided by two to the power 64.
proof fn lemma_lowest_limb(low: int, rest: int)
    requires
        0 <= low < 0x1_0000_0000_0000_0000int,
    ensures
        (low + 0x1_0000_0000_0000_0000int * rest) / 0x1_0000_0000_0000_0000int == rest,
        (low + 0x1_0000_0000_0000_0000int * rest) % 0x1_0000_0000_0000_0000int == low,
{
    vstd::arithmetic::div_mod::lemma_fundamental_div_mod_converse(
        low + 0x1_0000_0000_0000_0000int * rest,
        0x1_0000_0000_0000_0000int,
        rest,
        low,
    );
}

/// A number that is not negative is its lowest limb plus two to the power 64
/// times the rest, and neither is negative.
proof fn lemma_limb_of(n: int)
    requires
        0 <= n,
    ensures
        n == n % 0x1_0000_0000_0000_0000int + 0x1_0000_0000_0000_0000int * (n
            / 0x1_0000_0000_0000_0000int),
        0 <= n % 0x1_0000_0000_0000_0000int < 0x1_0000_0000_0000_0000int,
        0 <= n / 0x1_0000_0000_0000_0000int,
{
    vstd::arithmetic::div_mod::lemma_fundamental_div_mod(n, 0x1_0000_0000_0000_0000int);
    vstd::arithmetic::div_mod::lemma_mod_pos_bound(n, 0x1_0000_0000_0000_0000int);
    vstd::arithmetic::div_mod::lemma_div_pos_is_pos(n, 0x1_0000_0000_0000_0000int);
}

impl Wei {
    /// The amount that stands for `n`, for `n` below two to the power 256.
    pub open spec fn of(n: int) -> Wei {
        let q1 = n / 0x1_0000_0000_0000_0000int;
        let q2 = q1 / 0x1_0000_0000_0000_0000int;
        let q3 = q2 / 0x1_0000_0000_0000_0000int;
        Wei {
            w0: (n % 0x1_0000_0000_0000_0000int) as u64,
            w1: (q1 % 0x1_0000_0000_0000_0000int) as u64,
            w2: (q2 % 0x1_0000_0000_0000_0000int) as u64,
            w3: (q3 % 0x1_0000_0000_0000_0000int) as u64,
        }
    }

    /// Every amount is below two to the power 256, and `of` undoes the view.
    pub proof fn lemma_view_of(self)
        ensures
            self@ < amount_limit(),
            Wei::of(self@ as int) == self,
    {
        let x2 = self.w2 + 0x1_0000_0000_0000_0000int * self.w3;
        let x1 = self.w1 + 0x1_0000_0000_0000_0000int * x2;
        assert(self@ == self.w0 + 0x1_0000_0000_0000_0000int * x1);
        lemma_lowest_limb(self.w0 as int, x1);
        lemma_lowest_limb(self.w1 as int, x2);
        lemma_lowest_limb(self.w2 as int, self.w3 as int);
        lemma_lowest_limb(self.w3 as int, 0);
    }

    /// The view undoes `of` on every number below two to the power 256.
    pub proof fn lemma_of_view(n: int)
        requires
            0 <= n < amount_limit(),
        ensures
            Wei::of(n)@ == n,
    {
        let q1 = n / 0x1_0000_0000_0000_0000int;
        let q2 = q1 / 0x1_0000_0000_0000_0000int;
        let q3 = q2 / 0x1_0000_0000_0000_0000int;
        lemma_limb_of(n);
        lemma_limb_of(q1);
        lemma_limb_of(q2);
        lemma_limb_of(q3);
        assert(q3 < 0x1_0000_0000_0000_0000int);
        assert(q3 / 0x1_0000_0000_0000_0000int == 0);
    }

    /// The amount zero.
    pub fn zero() -> (r: Wei)
        ensures
            r@ == 0,
            r == Wei::of(0),
    {
        Wei { w0: 0, w1: 0, w2: 0, w3: 0 }
    }

    /// The amount `value`.
    pub fn from_u64(value: u64) -> (r: Wei)
        ensures
            r@ == value,
            r == Wei::of(value as int),
    {
        Wei { w0: value, w1: 0, w2: 0, w3: 0 }
    }

    /// The amount whose limbs are `limbs`, least significant first.
    pub fn from_limbs(limbs: [u64; 4]) -> (r: Wei)
        ensures
            r == (Wei { w0: limbs[0], w1: limbs[1], w2: limbs[2], w3: limbs[3] }),
    {
        Wei { w0: limbs[0], w1: limbs[1], w2: limbs[2], w3: limbs[3] }
    }

    /// The limbs of the amount, least significant first.
    pub fn to_limbs(&self) -> (r: [u64; 4])
        ensures
            r[0] == self.w0,
            r[1] == self.w1,
            r[2] == self.w2,
            r[3] == self.w3,
    {
        [self.w0, self.w1, self.w2, self.w3]
    }

    /// Whether the amount is zero.
    pub fn is_zero(&self) -> (r: bool)
        ensures
            r == (self@ == 0),
    {
        self.w0 == 0 && self.w1 == 0 && self.w2 == 0 && self.w3 == 0
    }

    /// Whether the amount is strictly below `other`.
    pub fn lt(&self, other: &Wei) -> (r: bool)
        ensures
            r == (self@ < other@),
    {
        if self.w3 != other.w3 {
            self.w3 < other.w3
        } else if self.w2 != other.w2 {
            self.w2 < other.w2
        } else if self.w1 != other.w1 {
            self.w1 < other.w1
        } else {
            self.w0 < other.w0
        }
    }

    /// The sum of two amounts, or `None` where it does not fit in 256 bits.
    pub fn checked_add(&self, other: &Wei) -> (r: Option<Wei>)
        ensures
            r == if self@ + other@ < amount_limit() {
                Some(Wei::of((self@ + other@) as int))
            } else {
                None
            },
            r matches Some(sum) ==> sum@ == self@ + other@,
    {
        let (s0, c0) = add_limbs(self.w0, other.w0, false);
        let (s1, c1) = add_limbs(self.w1, other.w1, c0);
        let (s2, c2) = add_limbs(self.w2, other.w2, c1);
        let (s3, c3) = add_limbs(self.w3, other.w3, c2);
        if c3 {
            None
        } else {
            let sum = Wei { w0: s0, w1: s1, w2: s2, w3: s3 };
            proof {
                assert(sum@ == self@ + other@);
                sum.lemma_view_of();
            }
            Some(sum)
        }
    }

    /// The amount times `factor`, or `None` where it does not fit in 256 bits.
    pub fn checked_mul_u64(&self, factor: u64) -> (r: Option<Wei>)
        ensures
            r == if self@ * factor < amount_limit() {
                Some(Wei::of(self@ * factor))
            } else {
                None
            },
            r matches Some(product) ==> product@ == self@ * factor,
    {
        let (p0, c0) = mul_limb(self.w0, factor, 0);
        let (p1, c1) = mul_limb(self.w1, factor, c0);
        let (p2, c2) = mul_limb(self.w2, factor, c1);
        let (p3, c3) = mul_limb(self.w3, factor, c2);
        let product = Wei { w0: p0, w1: p1, w2: p2, w3: p3 };
        proof {
            let f = factor as int;
            assert(limbs_value(self.w0 as int, self.w1 as int, self.w2 as int, self.w3 as int) * f
                == limbs_value(self.w0 * f, self.w1 * f, self.w2 * f, self.w3 * f))
                by (nonlinear_arith);
            assert(product@ + amount_limit() * c3 == self@ * factor);
            product.lemma_view_of();
        }
        if c3 != 0 {
            None
        } else {
            Some(product)
        }
    }
}

} // verus!
