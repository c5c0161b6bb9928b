//! Mutation operators for fuzzing smart-contract call arguments: pure,
//! total transforms of a 256-bit unsigned integer with saturating
//! arithmetic at the bounds, plus an address-aware passthrough.

pub mod address;
pub mod mutators;
pub mod uint256;

pub use address::Address160;
pub use mutators::{
    mutate_u256_decrement, mutate_u256_increment, mutate_u256_max, mutate_u256_zero,
    web3_mutation_operator,
};
pub use uint256::U256;
