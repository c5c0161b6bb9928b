//! The mutation operators: five pure, total transforms of a 256-bit
//! unsigned integer, each safe at the bounds of the type. A fuzzing
//! harness composes them to vary smart-contract call arguments.

use vstd::prelude::*;

use crate::address::Address160;
use crate::uint256::{lemma_u256_bound, u256_max, U256};

verus! {

/// `value + 1`, clamped to the largest 256-bit value.
pub open spec fn increment_saturating(v: nat) -> nat {
    if v >= u256_max() {
        u256_max()
    } else {
        v + 1
    }
}

/// `value - 1`, clamped to zero.
pub open spec fn decrement_saturating(v: nat) -> nat {
    if v == 0 {
        0
    } else {
        (v - 1) as nat
    }
}

/// A mutation operator over an address and a value. The address is accepted
/// to match the calling convention of a host fuzzing harness; it has no
/// effect on the result, which is the value unchanged.
pub fn web3_mutation_operator(address: Address160, value: U256) -> (r: U256)
    ensures
        r == value,
{
    value
}

/// Mutate a value by incrementing it, saturating at the maximum.
pub fn mutate_u256_increment(value: U256) -> (r: U256)
    ensures
        r@ == increment_saturating(value@),
{
    proof {
        lemma_u256_bound(value);
    }
    value.saturating_add(U256::one())
}

/// Mutate a value by decrementing it, saturating at zero.
pub fn mutate_u256_decrement(value: U256) -> (r: U256)
    ensures
        r@ == decrement_saturating(value@),
{
    value.saturating_sub(U256::one())
}

/// Mutate a value by replacing it with zero, whatever it was.
pub fn mutate_u256_zero(_value: U256) -> (r: U256)
    ensures
        r@ == 0,
{
    U256::zero()
}

/// Mutate a value by replacing it with the largest 256-bit value, whatever
/// it was.
pub fn mutate_u256_max(_value: U256) -> (r: U256)
    ensures
        r@ == u256_max(),
{
    U256::max_value()
}

/// Incrementing after decrementing gives back the starting value, except
/// that zero, which decrements to itself, comes back as one.
pub proof fn lemma_increment_of_decrement(value: U256)
    ensures
        increment_saturating(decrement_saturating(value@)) == if value@ == 0 {
            1nat
        } else {
            value@
        },
{
    lemma_u256_bound(value);
}

/// Decrementing after incrementing gives back the starting value, except
/// that the maximum, which increments to itself, comes back as the maximum
/// minus one.
pub proof fn lemma_decrement_of_increment(value: U256)
    ensures
        decrement_saturating(increment_saturating(value@)) == if value@ == u256_max() {
            (u256_max() - 1) as nat
        } else {
            value@
        },
{
    lemma_u256_bound(value);
}

} // verus!
