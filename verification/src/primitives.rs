//! Fixed-width chain values as plain data: addresses, transaction hashes and
//! 256-bit quantities, laid out as the chain client lays them out.

use ethers::types::{I256, U256};
use vstd::arithmetic::power::pow;
use vstd::prelude::*;

verus! {

/// A 20-byte account or contract address.
#[derive(Clone, Copy, Debug, PartialEq, Eq, Hash)]
pub struct Address {
    pub bytes: [u8; 20],
}

/// A 32-byte transaction hash.
#[derive(Clone, Copy, Debug, PartialEq, Eq, Hash)]
pub struct TxHash {
    pub bytes: [u8; 32],
}

/// An unsigned 256-bit quantity as four 64-bit limbs, least significant first.
#[derive(Clone, Copy, Debug, PartialEq, Eq, Hash)]
pub struct Amount {
    pub limbs: [u64; 4],
}

/// A signed 256-bit quantity in two's complement, as four 64-bit limbs,
/// least significant first.
#[derive(Clone, Copy, Debug, PartialEq, Eq, Hash)]
pub struct SignedAmount {
    pub raw: [u64; 4],
}

/// Two to the power 64: the weight of one limb.
pub open spec fn limb_base() -> int {
    0x1_0000_0000_0000_0000
}

/// The number that four limbs spell, least significant first.
pub open spec fn limbs_value(limbs: [u64; 4]) -> int {
    limbs[0] + limb_base() * (limbs[1] + limb_base() * (limbs[2] + limb_base() * limbs[3]))
}

impl Address {
    /// The address is the one of twenty zero bytes.
    pub open spec fn is_zero_spec(self) -> bool {
        forall|i: int| 0 <= i < 20 ==> self.bytes[i] == 0
    }

    /// The address of twenty zero bytes, which stands for "no address".
    pub fn zero() -> (a: Address)
        ensures
            a.is_zero_spec(),
    {
        Address { bytes: [0u8; 20] }
    }

    /// Whether two addresses are the same twenty bytes.
    pub fn same(&self, other: &Address) -> (r: bool)
        ensures
            r == (*self == *other),
    {
        let mut i: usize = 0;
        while i < 20
            invariant
                i <= 20,
                forall|k: int| 0 <= k < i ==> self.bytes[k] == other.bytes[k],
            decreases 20 - i,
        {
            if self.bytes[i] != other.bytes[i] {
                return false;
            }
            i += 1;
        }
        assert(self.bytes =~= other.bytes);
        true
    }

    /// Whether this is the zero address.
    pub fn is_zero(&self) -> (r: bool)
        ensures
            r == self.is_zero_spec(),
    {
        let mut i: usize = 0;
        while i < 20
            invariant
                i <= 20,
                forall|k: int| 0 <= k < i ==> self.bytes[k] == 0,
            decreases 20 - i,
        {
            if self.bytes[i] != 0 {
                return false;
            }
            i += 1;
        }
        true
    }
}

/// A number has one lowest limb and one rest: where `low + 2^64 * high` is
/// the same number for two pairs with `low` below 2^64, the pairs are equal.
pub proof fn same_digits(low: int, high: int, other_low: int, other_high: int)
    requires
        0 <= low < limb_base(),
        0 <= other_low < limb_base(),
        low + limb_base() * high == other_low + limb_base() * other_high,
    ensures
        low == other_low,
        high == other_high,
{
    if high < other_high {
        assert(limb_base() * other_high - limb_base() * high >= limb_base()) by (nonlinear_arith)
            requires
                high < other_high,
        ;
    } else if other_high < high {
        assert(limb_base() * high - limb_base() * other_high >= limb_base()) by (nonlinear_arith)
            requires
                other_high < high,
        ;
    }
}

/// Two to the power 256: the first number that an `Amount` cannot hold.
pub open spec fn amount_limit() -> int {
    limb_base() * limb_base() * limb_base() * limb_base()
}

impl Amount {
    /// The number this amount stands for, between 0 and 2^256 - 1.
    pub open spec fn value(self) -> int {
        limbs_value(self.limbs)
    }

    /// Every amount stands for a number from 0 up to, and not including,
    /// 2^256.
    pub proof fn value_in_range(self)
        ensures
            0 <= self.value() < amount_limit(),
    {
        assert(limb_base() * limb_base() * limb_base() * limb_base()
            == 0x1_0000_0000_0000_0000 * 0x1_0000_0000_0000_0000 * 0x1_0000_0000_0000_0000
            * 0x1_0000_0000_0000_0000);
    }

    /// Two amounts that stand for the same number are the same amount.
    pub proof fn value_determines_amount(self, other: Amount)
        requires
            self.value() == other.value(),
        ensures
            self == other,
    {
        let b = limb_base();
        let high = self.limbs[1] + b * (self.limbs[2] + b * self.limbs[3]);
        let other_high = other.limbs[1] + b * (other.limbs[2] + b * other.limbs[3]);
        assert(self.limbs[0] == other.limbs[0] && high == other_high) by {
            same_digits(self.limbs[0] as int, high, other.limbs[0] as int, other_high);
        }
        let top = self.limbs[2] + b * self.limbs[3];
        let other_top = other.limbs[2] + b * other.limbs[3];
        assert(self.limbs[1] == other.limbs[1] && top == other_top) by {
            same_digits(self.limbs[1] as int, top, other.limbs[1] as int, other_top);
        }
        assert(self.limbs[2] == other.limbs[2] && self.limbs[3] == other.limbs[3]) by {
            same_digits(
                self.limbs[2] as int,
                self.limbs[3] as int,
                other.limbs[2] as int,
                other.limbs[3] as int,
            );
        }
        assert(self.limbs =~= other.limbs);
    }

    /// The amount zero.
    pub fn zero() -> (a: Amount)
        ensures
            a.value() == 0,
    {
        Amount { limbs: [0u64; 4] }
    }

    /// The amount that stands for a number of 64 bits.
    pub fn from_u64(n: u64) -> (a: Amount)
        ensures
            a.value() == n,
    {
        Amount { limbs: [n, 0, 0, 0] }
    }
}

impl SignedAmount {
    /// The number this quantity stands for, between -2^255 and 2^255 - 1:
    /// the limbs read as an unsigned number, less 2^256 where the top bit is set.
    pub open spec fn value(self) -> int {
        if self.raw[3] >= 0x8000_0000_0000_0000 {
            limbs_value(self.raw) - amount_limit()
        } else {
            limbs_value(self.raw)
        }
    }
}

/// Whether a signed quantity is zero.
///
/// Trusted: calls `I256::is_zero` of ethers on the quantity rebuilt from its
/// limbs with `I256::from_raw`. That function tests the raw limbs for zero,
/// and the limbs are all zero exactly where the value is.
#[verifier::external_body]
pub(crate) fn signed_is_zero(x: &SignedAmount) -> (r: bool)
    ensures
        r == (x.value() == 0),
{
    I256::from_raw(U256(x.raw)).is_zero()
}

/// Whether one signed quantity is less than another.
///
/// Trusted: compares with the `Ord` of ethers' `I256`, which orders by sign
/// first and by magnitude within a sign, that is by the signed value.
#[verifier::external_body]
pub(crate) fn signed_lt(a: &SignedAmount, b: &SignedAmount) -> (r: bool)
    ensures
        r == (a.value() < b.value()),
{
    I256::from_raw(U256(a.raw)) < I256::from_raw(U256(b.raw))
}

/// A copy of `v`, element for element.
pub fn copy_vec<T: Copy>(v: &Vec<T>) -> (r: Vec<T>)
    ensures
        r@ == v@,
{
    let mut r: Vec<T> = Vec::new();
    let mut i: usize = 0;
    while i < v.len()
        invariant
            i <= v.len(),
            r@ == v@.take(i as int),
        decreases v.len() - i,
    {
        r.push(v[i]);
        assert(v@.take(i + 1) == v@.take(i as int).push(v@[i as int]));
        i += 1;
    }
    assert(v@.take(v.len() as int) == v@);
    r
}

/// The sum of two amounts, unless it passes 2^256 - 1.
///
/// Trusted: calls `U256::checked_add` of ethers on the two amounts rebuilt
/// from their limbs. That function adds with carry over the four limbs and
/// gives `None` exactly where a carry leaves the top limb.
#[verifier::external_body]
pub(crate) fn amount_checked_add(a: &Amount, b: &Amount) -> (r: Option<Amount>)
    ensures
        match r {
            Some(sum) => sum.value() == a.value() + b.value(),
            None => a.value() + b.value() >= amount_limit(),
        },
{
    match U256(a.limbs).checked_add(U256(b.limbs)) {
        Some(sum) => Some(Amount { limbs: sum.0 }),
        None => None,
    }
}

/// The difference of two amounts, unless the second is the larger.
///
/// Trusted: calls `U256::checked_sub` of ethers, which subtracts with borrow
/// over the four limbs and gives `None` exactly where a borrow leaves the
/// top limb.
#[verifier::external_body]
pub(crate) fn amount_checked_sub(a: &Amount, b: &Amount) -> (r: Option<Amount>)
    ensures
        match r {
            Some(difference) => difference.value() == a.value() - b.value(),
            None => a.value() < b.value(),
        },
{
    match U256(a.limbs).checked_sub(U256(b.limbs)) {
        Some(difference) => Some(Amount { limbs: difference.0 }),
        None => None,
    }
}

/// The quotient of two amounts, rounded down, unless the divisor is zero.
///
/// Trusted: calls `U256::checked_div` of ethers, which gives `None` for the
/// divisor zero and the integer quotient otherwise.
#[verifier::external_body]
pub(crate) fn amount_checked_div(a: &Amount, b: &Amount) -> (r: Option<Amount>)
    ensures
        match r {
            Some(quotient) => b.value() != 0 && quotient.value() == a.value() / b.value(),
            None => b.value() == 0,
        },
{
    match U256(a.limbs).checked_div(U256(b.limbs)) {
        Some(quotient) => Some(Amount { limbs: quotient.0 }),
        None => None,
    }
}

/// A power of an amount, unless it passes 2^256 - 1.
///
/// Trusted: calls `U256::checked_pow` of ethers, which raises by repeated
/// squaring, keeps track of every product that left the 256 bits, and gives
/// `None` exactly where one did.
#[verifier::external_body]
pub(crate) fn amount_checked_pow(base: &Amount, exponent: &Amount) -> (r: Option<Amount>)
    ensures
        match r {
            Some(power) => power.value() == pow(base.value(), exponent.value() as nat),
            None => pow(base.value(), exponent.value() as nat) >= amount_limit(),
        },
{
    match U256(base.limbs).checked_pow(U256(exponent.limbs)) {
        Some(power) => Some(Amount { limbs: power.0 }),
        None => None,
    }
}

} // verus!
