//! A 256-bit unsigned integer with saturating arithmetic.

use vstd::prelude::*;

verus! {

/// A 256-bit unsigned integer, held as four 64-bit limbs, least significant
/// first. Every combination of limbs is a value, so the type carries no
/// invariant beyond the width of its fields.
#[derive(Clone, Copy, Debug, PartialEq, Eq, Structural)]
pub struct U256 {
    /// Bits 0 to 63 (least significant).
    pub limb0: u64,
    /// Bits 64 to 127.
    pub limb1: u64,
    /// Bits 128 to 191.
    pub limb2: u64,
    /// Bits 192 to 255 (most significant).
    pub limb3: u64,
}

/// The largest value representable in 256 bits: 2^256 - 1.
pub open spec fn u256_max() -> nat {
    0xffffffffffffffffffffffffffffffffffffffffffffffffffffffffffffffffnat
}

impl View for U256 {
    type V = nat;

    /// The mathematical value: the limbs weighted by powers of 2^64.
    open spec fn view(&self) -> nat {
        self.limb0 as nat
            + self.limb1 as nat * 0x10000000000000000nat
            + self.limb2 as nat * 0x100000000000000000000000000000000nat
            + self.limb3 as nat * 0x1000000000000000000000000000000000000000000000000nat
    }
}

/// Every `U256` value lies below 2^256.
pub proof fn lemma_u256_bound(v: U256)
    ensures
        v@ <= u256_max(),
{
}

/// One limb of a full addition: sum of two limbs and an incoming carry,
/// split into a result limb and an outgoing carry.
fn add_limb_with_carry(a: u64, b: u64, carry_in: u64) -> (r: (u64, u64))
    requires
        carry_in <= 1,
    ensures
        r.0 + r.1 * 0x10000000000000000 == a + b + carry_in,
        r.1 <= 1,
{
    match a.checked_add(b) {
        Some(ab) => match ab.checked_add(carry_in) {
            Some(abc) => (abc, 0),
            None => (0, 1),
        },
        None => (a.wrapping_add(b) + carry_in, 1),
    }
}

/// One limb of a full subtraction: difference of two limbs and an incoming
/// borrow, split into a result limb and an outgoing borrow.
fn sub_limb_with_borrow(a: u64, b: u64, borrow_in: u64) -> (r: (u64, u64))
    requires
        borrow_in <= 1,
    ensures
        r.0 == a - b - borrow_in + r.1 * 0x10000000000000000,
        r.1 <= 1,
{
    match a.checked_sub(b) {
        Some(ab) => match ab.checked_sub(borrow_in) {
            Some(abc) => (abc, 0),
            None => (u64::MAX, 1),
        },
        None => (a.wrapping_sub(b) - borrow_in, 1),
    }
}

impl U256 {
    /// The value zero.
    pub fn zero() -> (r: U256)
        ensures
            r@ == 0,
    {
        U256 { limb0: 0, limb1: 0, limb2: 0, limb3: 0 }
    }

    /// The value one.
    pub fn one() -> (r: U256)
        ensures
            r@ == 1,
    {
        U256 { limb0: 1, limb1: 0, limb2: 0, limb3: 0 }
    }

    /// The largest representable value, 2^256 - 1.
    pub fn max_value() -> (r: U256)
        ensures
            r@ == u256_max(),
    {
        U256 { limb0: u64::MAX, limb1: u64::MAX, limb2: u64::MAX, limb3: u64::MAX }
    }

    /// The value of a single 64-bit integer.
    pub fn from_u64(value: u64) -> (r: U256)
        ensures
            r@ == value,
    {
        U256 { limb0: value, limb1: 0, limb2: 0, limb3: 0 }
    }

    /// Addition that clamps to the largest representable value instead of
    /// wrapping around on overflow.
    pub fn saturating_add(self, rhs: U256) -> (r: U256)
        ensures
            r@ == if self@ + rhs@ <= u256_max() {
                self@ + rhs@
            } else {
                u256_max()
            },
    {
        let (s0, c0) = add_limb_with_carry(self.limb0, rhs.limb0, 0);
        let (s1, c1) = add_limb_with_carry(self.limb1, rhs.limb1, c0);
        let (s2, c2) = add_limb_with_carry(self.limb2, rhs.limb2, c1);
        let (s3, c3) = add_limb_with_carry(self.limb3, rhs.limb3, c2);
        if c3 == 0 {
            let r = U256 { limb0: s0, limb1: s1, limb2: s2, limb3: s3 };
            proof {
                lemma_u256_bound(r);
            }
            r
        } else {
            U256::max_value()
        }
    }

    /// Subtraction that clamps to zero instead of wrapping around on
    /// underflow.
    pub fn saturating_sub(self, rhs: U256) -> (r: U256)
        ensures
            r@ == if self@ >= rhs@ {
                self@ - rhs@
            } else {
                0
            },
    {
        let (d0, b0) = sub_limb_with_borrow(self.limb0, rhs.limb0, 0);
        let (d1, b1) = sub_limb_with_borrow(self.limb1, rhs.limb1, b0);
        let (d2, b2) = sub_limb_with_borrow(self.limb2, rhs.limb2, b1);
        let (d3, b3) = sub_limb_with_borrow(self.limb3, rhs.limb3, b2);
        if b3 == 0 {
            U256 { limb0: d0, limb1: d1, limb2: d2, limb3: d3 }
        } else {
            U256::zero()
        }
    }
}

} // verus!
