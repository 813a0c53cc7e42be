//! What the serialization natives bill: the parameters of the price and the
//! amounts worked out from them.

use vstd::prelude::*;
use move_core_types::gas_schedule::{AbstractMemorySize, GasAlgebra, InternalGasUnits};

verus! {

/// The prices of the serialization natives, in the meter's units.
#[derive(Clone, Copy, Debug, PartialEq, Eq, Structural)]
pub struct GasParameters {
    /// Billed for resolving the layout, once serialization has succeeded.
    pub layout: u64,
    /// Billed for reading the value, once serialization has succeeded.
    pub value: u64,
    /// Billed for each byte that serialization produced.
    pub per_byte_serialized: u64,
    /// The one fee billed when serialization fails at any step; also the flat
    /// fee of the size query.
    pub failure: u64,
}

/// The price of a serialization that produced `bytes` bytes: the two flat
/// phase costs and the per-byte rate times the output length.
pub open spec fn serialization_cost(gas: GasParameters, bytes: nat) -> nat {
    (gas.layout + gas.value + gas.per_byte_serialized * bytes) as nat
}

/// An amount as the meter takes it: amounts beyond `u64::MAX` are billed as
/// `u64::MAX`.
pub open spec fn metered(units: nat) -> u64 {
    if units <= u64::MAX {
        units as u64
    } else {
        u64::MAX
    }
}

/// `GasAlgebra::mul` of move-core-types, on an amount per byte and a number
/// of bytes: the product of the two carriers. The outside function multiplies
/// with the plain operator, so the product has to fit in the carrier.
#[verifier::external_body]
fn gas_product(rate: u64, bytes: u64) -> (cost: u64)
    requires
        rate * bytes <= u64::MAX,
    ensures
        cost == rate * bytes,
{
    InternalGasUnits::new(rate).mul(AbstractMemorySize::new(bytes)).get()
}

/// `GasAlgebra::add` of move-core-types, on two amounts: the sum of the two
/// carriers. The outside function adds with the plain operator, so the sum
/// has to fit in the carrier.
#[verifier::external_body]
fn gas_sum(left: u64, right: u64) -> (cost: u64)
    requires
        left + right <= u64::MAX,
    ensures
        cost == left + right,
{
    InternalGasUnits::new(left).add(InternalGasUnits::new(right)).get()
}

/// `rate` times `bytes`, as the meter takes it.
fn scaled(rate: u64, bytes: u64) -> (cost: u64)
    ensures
        cost == metered((rate * bytes) as nat),
{
    if rate == 0 || bytes <= u64::MAX / rate {
        assert(rate * bytes <= u64::MAX) by (nonlinear_arith)
            requires
                rate == 0 || (rate > 0 && bytes <= u64::MAX / rate),
        ;
        gas_product(rate, bytes)
    } else {
        assert(rate * bytes > u64::MAX) by (nonlinear_arith)
            requires
                rate > 0,
                bytes > u64::MAX / rate,
        ;
        u64::MAX
    }
}

/// `left` plus `right`, as the meter takes it.
fn combined(left: u64, right: u64) -> (cost: u64)
    ensures
        cost == metered((left + right) as nat),
{
    if left <= u64::MAX - right {
        gas_sum(left, right)
    } else {
        u64::MAX
    }
}

impl GasParameters {
    /// The amount billed for a serialization that produced `bytes` bytes.
    pub fn serialization_charge(&self, bytes: usize) -> (cost: u64)
        ensures
            cost == metered(serialization_cost(*self, bytes as nat)),
    {
        let output = scaled(self.per_byte_serialized, bytes as u64);
        let flat = combined(self.layout, self.value);
        assert(self.per_byte_serialized * bytes >= 0) by (nonlinear_arith);
        combined(flat, output)
    }
}

} // verus!
