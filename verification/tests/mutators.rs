use web3_mutators::{
    mutate_u256_decrement, mutate_u256_increment, mutate_u256_max, mutate_u256_zero,
    web3_mutation_operator, Address160, U256,
};

#[test]
fn test_web3_integration() {
    let address = Address160::from_low_u64(0x1234);
    let value = U256::from_u64(100);
    let result = web3_mutation_operator(address, value);
    assert_eq!(result, value);
}

#[test]
fn test_mutate_u256_increment() {
    let value = U256::from_u64(100);
    let result = mutate_u256_increment(value);
    assert_eq!(result, U256::from_u64(101));
}

#[test]
fn test_mutate_u256_decrement() {
    let value = U256::from_u64(100);
    let result = mutate_u256_decrement(value);
    assert_eq!(result, U256::from_u64(99));
}

#[test]
fn test_mutate_u256_zero() {
    let value = U256::from_u64(100);
    let result = mutate_u256_zero(value);
    assert_eq!(result, U256::zero());
}

#[test]
fn test_mutate_u256_max() {
    let value = U256::from_u64(100);
    let result = mutate_u256_max(value);
    assert_eq!(result, U256::max_value());
}

#[test]
fn test_address_creation() {
    let address = Address160::from_low_u64(0xDEADBEEF);
    assert!(!address.is_zero());
}

#[test]
fn test_increment_saturates_at_max() {
    let result = mutate_u256_increment(U256::max_value());
    assert_eq!(result, U256::max_value());
}

#[test]
fn test_decrement_saturates_at_zero() {
    let result = mutate_u256_decrement(U256::zero());
    assert_eq!(result, U256::zero());
}

#[test]
fn test_increment_of_decrement() {
    let value = U256::from_u64(100);
    assert_eq!(mutate_u256_increment(mutate_u256_decrement(value)), value);
    assert_eq!(
        mutate_u256_increment(mutate_u256_decrement(U256::zero())),
        U256::one()
    );
}

#[test]
fn test_decrement_of_increment() {
    let value = U256::from_u64(100);
    assert_eq!(mutate_u256_decrement(mutate_u256_increment(value)), value);
    let max_minus_one = U256 {
        limb0: u64::MAX - 1,
        limb1: u64::MAX,
        limb2: u64::MAX,
        limb3: u64::MAX,
    };
    assert_eq!(
        mutate_u256_decrement(mutate_u256_increment(U256::max_value())),
        max_minus_one
    );
}

#[test]
fn test_passthrough_ignores_address() {
    let value = U256::from_u64(100);
    assert_eq!(web3_mutation_operator(Address160::zero(), value), value);
    assert_eq!(
        web3_mutation_operator(Address160::from_low_u64(0x1234), value),
        value
    );
    let high_address = Address160 {
        lo: 7,
        mid: 11,
        hi: 13,
    };
    assert_eq!(web3_mutation_operator(high_address, value), value);
}

#[test]
fn test_zero_and_max_ignore_input() {
    assert_eq!(mutate_u256_zero(U256::zero()), U256::zero());
    assert_eq!(mutate_u256_zero(U256::max_value()), U256::zero());
    assert_eq!(mutate_u256_max(U256::zero()), U256::max_value());
    assert_eq!(mutate_u256_max(U256::max_value()), U256::max_value());
}

#[test]
fn test_increment_carries_across_limbs() {
    let value = U256 {
        limb0: u64::MAX,
        limb1: 0,
        limb2: 0,
        limb3: 0,
    };
    let expected = U256 {
        limb0: 0,
        limb1: 1,
        limb2: 0,
        limb3: 0,
    };
    assert_eq!(mutate_u256_increment(value), expected);
}

#[test]
fn test_decrement_borrows_across_limbs() {
    let value = U256 {
        limb0: 0,
        limb1: 0,
        limb2: 1,
        limb3: 0,
    };
    let expected = U256 {
        limb0: u64::MAX,
        limb1: u64::MAX,
        limb2: 0,
        limb3: 0,
    };
    assert_eq!(mutate_u256_decrement(value), expected);
}

#[test]
fn test_saturating_add() {
    let a = U256::from_u64(100);
    let b = U256::from_u64(23);
    assert_eq!(a.saturating_add(b), U256::from_u64(123));
    assert_eq!(U256::max_value().saturating_add(a), U256::max_value());
}

#[test]
fn test_saturating_sub() {
    let a = U256::from_u64(100);
    let b = U256::from_u64(23);
    assert_eq!(a.saturating_sub(b), U256::from_u64(77));
    assert_eq!(b.saturating_sub(a), U256::zero());
}
