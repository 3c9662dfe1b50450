//! Token amounts: unsigned 256-bit integers, as the chain counts them.
//!
//! The arithmetic is that of `ethers::types::U256`. Each function of it that the library needs
//! stands behind one small function here, whose contract says what the number type promises.

use crate::digits::{decimal, pow10};
use vstd::arithmetic::power2::*;
use vstd::prelude::*;

verus! {

/// A 256-bit unsigned integer, in four 64-bit limbs, the lowest first.
#[derive(Clone, Copy, Debug, PartialEq, Eq)]
pub struct Amount {
    pub limbs: [u64; 4],
}

/// One more than the largest amount.
pub open spec fn amount_limit() -> nat {
    0x1_0000_0000_0000_0000_0000_0000_0000_0000_0000_0000_0000_0000_0000_0000_0000_0000nat
}

impl View for Amount {
    type V = nat;

    open spec fn view(&self) -> nat {
        (self.limbs@[0] + self.limbs@[1] * 0x1_0000_0000_0000_0000 + self.limbs@[2]
            * 0x1_0000_0000_0000_0000_0000_0000_0000_0000 + self.limbs@[3]
            * 0x1_0000_0000_0000_0000_0000_0000_0000_0000_0000_0000_0000_0000) as nat
    }
}

/// Every amount is below the limit.
pub proof fn law_amounts_are_bounded(a: Amount)
    ensures
        a@ < amount_limit(),
{
}

/// Amounts with the same value are the same amount.
pub proof fn law_amounts_are_their_values(a: Amount, b: Amount)
    requires
        a@ == b@,
    ensures
        a.limbs@ == b.limbs@,
{
    assert(a.limbs@ =~= b.limbs@);
}

impl Amount {
    /// The amount zero.
    pub fn zero() -> (r: Amount)
        ensures
            r@ == 0,
            r.limbs@ == seq![0u64, 0, 0, 0],
    {
        let r = Amount { limbs: [0, 0, 0, 0] };
        assert(r.limbs@ =~= seq![0u64, 0, 0, 0]);
        r
    }

    /// The amount as a 64-bit integer. It must fit.
    pub fn as_u64(&self) -> (r: u64)
        requires
            self@ <= u64::MAX,
        ensures
            r as nat == self@,
            r == self.limbs@[0],
    {
        self.limbs[0]
    }

    /// Whether the amount is zero.
    pub fn is_zero(&self) -> (r: bool)
        ensures
            r <==> self@ == 0,
            r <==> self.limbs@ == seq![0u64, 0, 0, 0],
    {
        let r = self.limbs[0] == 0 && self.limbs[1] == 0 && self.limbs[2] == 0 && self.limbs[3]
            == 0;
        assert(r ==> self.limbs@ =~= seq![0u64, 0, 0, 0]);
        r
    }

    /// Whether the amount fits in 64 bits.
    pub fn fits_u64(&self) -> (r: bool)
        ensures
            r <==> self@ <= u64::MAX,
            r <==> self.limbs@.skip(1) == seq![0u64, 0, 0],
    {
        let r = self.limbs[1] == 0 && self.limbs[2] == 0 && self.limbs[3] == 0;
        proof {
            let high = self.limbs@.skip(1);
            assert(high[0] == self.limbs@[1] && high[1] == self.limbs@[2] && high[2]
                == self.limbs@[3]);
            assert(r ==> high =~= seq![0u64, 0, 0]);
            assert(high == seq![0u64, 0, 0] ==> high[0] == 0 && high[1] == 0 && high[2] == 0);
        }
        r
    }
}

/// `U256::to_string`: the shortest decimal numeral of the number.
#[verifier::external_body]
pub(crate) fn u256_to_string(a: &Amount) -> (r: String)
    ensures
        r@ == decimal(a@),
{
    ethers::types::U256(a.limbs).to_string()
}

/// `U256::exp10`: a power of ten. It panics where the power does not fit in 256 bits.
#[verifier::external_body]
pub(crate) fn u256_exp10(e: usize) -> (r: Amount)
    requires
        pow10(e as nat) < amount_limit(),
    ensures
        r@ == pow10(e as nat),
{
    Amount { limbs: ethers::types::U256::exp10(e).0 }
}

/// `U256::from(u128)`: the same number in 256 bits.
#[verifier::external_body]
pub(crate) fn u256_from_u128(n: u128) -> (r: Amount)
    ensures
        r@ == n as nat,
{
    Amount { limbs: ethers::types::U256::from(n).0 }
}

/// `U256 * U256`: the product. It panics where the product does not fit in 256 bits.
#[verifier::external_body]
pub(crate) fn u256_mul(a: &Amount, b: &Amount) -> (r: Amount)
    requires
        a@ * b@ < amount_limit(),
    ensures
        r@ == a@ * b@,
{
    Amount { limbs: (ethers::types::U256(a.limbs) * ethers::types::U256(b.limbs)).0 }
}

/// `U256 + U256`: the sum. It panics where the sum does not fit in 256 bits.
#[verifier::external_body]
pub(crate) fn u256_add(a: &Amount, b: &Amount) -> (r: Amount)
    requires
        a@ + b@ < amount_limit(),
    ensures
        r@ == a@ + b@,
{
    Amount { limbs: (ethers::types::U256(a.limbs) + ethers::types::U256(b.limbs)).0 }
}

/// `U256::checked_mul`: the product, or nothing where it does not fit in 256 bits.
#[verifier::external_body]
pub(crate) fn u256_checked_mul(a: &Amount, b: &Amount) -> (r: Option<Amount>)
    ensures
        r is Some <==> a@ * b@ < amount_limit(),
        r matches Some(p) ==> p@ == a@ * b@,
{
    match ethers::types::U256(a.limbs).checked_mul(ethers::types::U256(b.limbs)) {
        Some(p) => Some(Amount { limbs: p.0 }),
        None => None,
    }
}

/// The value of an amount: each limb counts 2^64 times as much as the one before it.
pub proof fn law_limbs_make_the_value(a: Amount)
    ensures
        a@ == a.limbs@[0] + a.limbs@[1] * pow2(64) + a.limbs@[2] * pow2(128) + a.limbs@[3] * pow2(
            192,
        ),
{
    lemma2_to64();
    lemma_pow2_adds(64, 64);
    lemma_pow2_adds(64, 128);
}

/// Amounts are the numbers of 256 bits.
pub proof fn law_amount_limit()
    ensures
        amount_limit() == pow2(256),
{
    lemma2_to64();
    lemma_pow2_adds(64, 64);
    lemma_pow2_adds(64, 128);
    lemma_pow2_adds(64, 192);
}

} // verus!
