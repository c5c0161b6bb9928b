//! A 160-bit account address, as conventionally used to identify a
//! blockchain account. It carries no invariant beyond its width and is
//! never inspected by the mutation operators.

use vstd::prelude::*;

verus! {

/// A 160-bit unsigned integer, held as three fields, least significant
/// first. Every combination of fields is a value.
#[derive(Clone, Copy, Debug, PartialEq, Eq, Structural)]
pub struct Address160 {
    /// Bits 0 to 63 (least significant).
    pub lo: u64,
    /// Bits 64 to 127.
    pub mid: u64,
    /// Bits 128 to 159 (most significant).
    pub hi: u32,
}

impl View for Address160 {
    type V = nat;

    /// The mathematical value: the fields weighted by powers of 2^64.
    open spec fn view(&self) -> nat {
        self.lo as nat
            + self.mid as nat * 0x10000000000000000nat
            + self.hi as nat * 0x100000000000000000000000000000000nat
    }
}

impl Address160 {
    /// The zero address.
    pub fn zero() -> (r: Address160)
        ensures
            r@ == 0,
    {
        Address160 { lo: 0, mid: 0, hi: 0 }
    }

    /// The address whose low 64 bits are `value` and whose upper bits are
    /// zero.
    pub fn from_low_u64(value: u64) -> (r: Address160)
        ensures
            r@ == value,
    {
        Address160 { lo: value, mid: 0, hi: 0 }
    }

    /// Whether this is the zero address.
    pub fn is_zero(&self) -> (r: bool)
        ensures
            r == (self@ == 0),
    {
        self.lo == 0 && self.mid == 0 && self.hi == 0
    }
}

} // verus!
