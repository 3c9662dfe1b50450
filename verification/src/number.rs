//! Prices and profits, as far as decisions read them: the order of double-precision numbers.
//!
//! A `Real` carries the bit pattern of an IEEE 754 binary64 number. The library compares such
//! numbers; the arithmetic on them belongs to the caller.

use vstd::arithmetic::power2::*;
use vstd::prelude::*;

verus! {

/// The sign bit of a double-precision number.
pub const SIGN: u64 = 0x8000_0000_0000_0000;

/// The bit pattern of infinity. A larger magnitude is no number.
pub const INFINITY: u64 = 0x7ff0_0000_0000_0000;

/// A double-precision number, by its bit pattern.
#[derive(Clone, Copy, Debug, PartialEq, Eq)]
pub struct Real {
    pub bits: u64,
}

impl Real {
    /// Whether the sign bit is set.
    pub open spec fn is_negative(self) -> bool {
        self.bits >= SIGN
    }

    /// The pattern without its sign. Among numbers of one sign it grows with the distance from
    /// zero.
    pub open spec fn magnitude(self) -> int {
        if self.is_negative() {
            self.bits - SIGN
        } else {
            self.bits as int
        }
    }

    /// Whether the pattern stands for no number at all.
    pub open spec fn is_nan(self) -> bool {
        self.magnitude() > INFINITY
    }

    /// Where the number stands in the order of all numbers. The two zeros share a place.
    pub open spec fn rank(self) -> int {
        if self.is_negative() {
            -self.magnitude()
        } else {
            self.magnitude()
        }
    }

    /// `self < other`, which is false where either is no number.
    pub open spec fn below(self, other: Real) -> bool {
        !self.is_nan() && !other.is_nan() && self.rank() < other.rank()
    }

    /// `self <= other`, which is false where either is no number.
    pub open spec fn at_most(self, other: Real) -> bool {
        !self.is_nan() && !other.is_nan() && self.rank() <= other.rank()
    }

    /// The number zero.
    pub fn zero() -> (r: Real)
        ensures
            r.bits == 0,
    {
        Real { bits: 0 }
    }

    /// The pattern without its sign.
    fn absolute(&self) -> (r: u64)
        ensures
            r == self.magnitude(),
            r < SIGN,
    {
        if self.bits >= SIGN {
            self.bits - SIGN
        } else {
            self.bits
        }
    }

    /// Whether `self < other`.
    pub fn is_below(&self, other: &Real) -> (r: bool)
        ensures
            r <==> self.below(*other),
            self.bits == other.bits ==> !r,
            self.bits < other.bits <= 0x7ff0_0000_0000_0000 ==> r,
            r && self.bits < 0x8000_0000_0000_0000 ==> self.bits < other.bits
                <= 0x7ff0_0000_0000_0000,
            r && other.bits >= 0x8000_0000_0000_0000 ==> other.bits < self.bits
                <= 0xfff0_0000_0000_0000,
    {
        let a: u64 = self.absolute();
        let b: u64 = other.absolute();
        if a > INFINITY || b > INFINITY {
            return false;
        }
        if self.bits >= SIGN {
            if other.bits >= SIGN {
                b < a
            } else {
                a > 0 || b > 0
            }
        } else {
            other.bits < SIGN && a < b
        }
    }

    /// Whether `self <= other`.
    pub fn is_at_most(&self, other: &Real) -> (r: bool)
        ensures
            r <==> self.at_most(*other),
            self.bits <= other.bits <= 0x7ff0_0000_0000_0000 ==> r,
            r && 0 < self.bits < 0x8000_0000_0000_0000 ==> self.bits <= other.bits
                <= 0x7ff0_0000_0000_0000,
            r && other.bits > 0x8000_0000_0000_0000 ==> other.bits <= self.bits
                <= 0xfff0_0000_0000_0000,
    {
        let a: u64 = self.absolute();
        let b: u64 = other.absolute();
        a <= INFINITY && b <= INFINITY && !other.is_below(self)
    }
}

/// Numbers are totally ordered: of two, exactly one is below the other unless they are equal in
/// rank, and `<=` is the absence of `>`.
pub proof fn law_numbers_are_ordered(a: Real, b: Real)
    requires
        !a.is_nan(),
        !b.is_nan(),
    ensures
        a.at_most(b) || b.at_most(a),
        a.at_most(b) <==> !b.below(a),
        a.below(b) <==> a.at_most(b) && !b.at_most(a),
{
}

/// The order is transitive.
pub proof fn law_order_is_transitive(a: Real, b: Real, c: Real)
    requires
        a.at_most(b),
        b.at_most(c),
    ensures
        a.at_most(c),
        a.below(b) || b.below(c) ==> a.below(c),
{
}

/// What is no number compares with nothing.
pub proof fn law_nan_compares_with_nothing(a: Real, b: Real)
    requires
        a.is_nan(),
    ensures
        !a.below(b),
        !b.below(a),
        !a.at_most(b),
        !b.at_most(a),
{
}

/// The order, told by the bit patterns alone: patterns without the sign bit are ordered as
/// integers, patterns with it the other way round, and what has it is below what has not, but for
/// the two zeros, which are equal.
pub proof fn law_order_is_told_by_the_bits(a: Real, b: Real)
    ensures
        a.is_nan() <==> 0x7ff0_0000_0000_0000 < a.bits < 0x8000_0000_0000_0000 || a.bits
            > 0xfff0_0000_0000_0000,
        a.is_nan() || b.is_nan() ==> !a.below(b) && !a.at_most(b),
        !a.is_nan() && !b.is_nan() && a.bits < 0x8000_0000_0000_0000 && b.bits
            < 0x8000_0000_0000_0000 ==> (a.below(b) <==> a.bits < b.bits) && (a.at_most(b)
            <==> a.bits <= b.bits),
        !a.is_nan() && !b.is_nan() && a.bits >= 0x8000_0000_0000_0000 && b.bits
            >= 0x8000_0000_0000_0000 ==> (a.below(b) <==> b.bits < a.bits) && (a.at_most(b)
            <==> b.bits <= a.bits),
        !a.is_nan() && !b.is_nan() && a.bits >= 0x8000_0000_0000_0000 && b.bits
            < 0x8000_0000_0000_0000 ==> a.at_most(b) && (a.below(b) <==> !(a.bits
            == 0x8000_0000_0000_0000 && b.bits == 0)),
        !a.is_nan() && !b.is_nan() && a.bits < 0x8000_0000_0000_0000 && b.bits
            >= 0x8000_0000_0000_0000 ==> !a.below(b) && (a.at_most(b) <==> a.bits == 0 && b.bits
            == 0x8000_0000_0000_0000),
{
}

/// Two numbers that are at most each other are the same number, or the two zeros.
pub proof fn law_order_is_antisymmetric(a: Real, b: Real)
    requires
        a.at_most(b),
        b.at_most(a),
    ensures
        a.bits == b.bits || (a.bits % 0x8000_0000_0000_0000 == 0 && b.bits
            % 0x8000_0000_0000_0000 == 0),
{
}

/// The size that a pattern without its sign stands for, as a multiple of the smallest positive
/// number: the lowest 52 bits are the fraction, the ones above them the exponent. A number whose
/// exponent is not zero has a leading one in front of its fraction.
pub open spec fn size_of(pattern: nat) -> nat {
    let exponent = pattern / 0x10_0000_0000_0000;
    let fraction = pattern % 0x10_0000_0000_0000;
    if exponent == 0 {
        fraction
    } else {
        (0x10_0000_0000_0000nat + fraction) * pow2((exponent - 1) as nat)
    }
}

/// A larger pattern stands for a larger size.
proof fn lemma_sizes_grow(a: nat, b: nat)
    requires
        a < b,
    ensures
        size_of(a) < size_of(b),
{
    let one: nat = 0x10_0000_0000_0000;
    let ea = a / one;
    let eb = b / one;
    let fa = a % one;
    let fb = b % one;
    assert(a == one * ea + fa);
    assert(b == one * eb + fb);
    assert(ea <= eb);
    if eb == 0 {
    } else if ea == eb {
        let p = pow2((ea - 1) as nat);
        lemma_pow2_pos((ea - 1) as nat);
        assert((one + fa) * p < (one + fb) * p) by (nonlinear_arith)
            requires
                fa < fb,
                p > 0,
        ;
    } else {
        let p = pow2((eb - 1) as nat);
        lemma_pow2_pos((eb - 1) as nat);
        assert((one + fb) * p >= one * p) by (nonlinear_arith)
            requires
                fb >= 0,
                p > 0,
        ;
        if ea == 0 {
            assert(one * p >= one) by (nonlinear_arith)
                requires
                    p > 0,
                    one > 0,
            ;
        } else {
            let q = pow2((ea - 1) as nat);
            lemma_pow2_pos((ea - 1) as nat);
            lemma_pow2_unfold(ea);
            if ea < eb - 1 {
                lemma_pow2_strictly_increases(ea, (eb - 1) as nat);
            }
            assert((one + fa) * q < one * p) by (nonlinear_arith)
                requires
                    fa < one,
                    q > 0,
                    2 * q <= p,
            ;
        }
    }
}

impl Real {
    /// What a finite number stands for, as a multiple of the smallest positive number.
    pub open spec fn value(self) -> int {
        if self.bits >= 0x8000_0000_0000_0000 {
            -(size_of((self.bits - 0x8000_0000_0000_0000) as nat) as int)
        } else {
            size_of(self.bits as nat) as int
        }
    }
}

/// The order of finite numbers is the order of what they stand for.
pub proof fn law_order_is_that_of_the_values(a: Real, b: Real)
    requires
        a.bits % 0x8000_0000_0000_0000 < 0x7ff0_0000_0000_0000,
        b.bits % 0x8000_0000_0000_0000 < 0x7ff0_0000_0000_0000,
    ensures
        a.below(b) <==> a.value() < b.value(),
        a.at_most(b) <==> a.value() <= b.value(),
{
    let x = (a.bits % 0x8000_0000_0000_0000) as nat;
    let y = (b.bits % 0x8000_0000_0000_0000) as nat;
    if x < y {
        lemma_sizes_grow(x, y);
    }
    if y < x {
        lemma_sizes_grow(y, x);
    }
    if x > 0 {
        lemma_sizes_grow(0, x);
    }
    if y > 0 {
        lemma_sizes_grow(0, y);
    }
    assert(size_of(0) == 0);
}

} // verus!
