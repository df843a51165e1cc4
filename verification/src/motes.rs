use vstd::prelude::*;

verus! {

/// A balance in value units ("motes"), the smallest denomination the ledger
/// tracks. A balance is never negative, and all arithmetic on it is checked:
/// an operation whose mathematical result falls outside the representable
/// range reports `None` instead of wrapping.
#[derive(Clone, Copy, PartialEq, Eq, Structural, Debug)]
pub struct Motes {
    pub value: u128,
}

/// A quantity of abstract execution cost ("gas") reported by the execution
/// engine for one unit of work. Gas is converted to value units at a fixed
/// positive rate; see [`Motes::from_gas`].
#[derive(Clone, Copy, PartialEq, Eq, Structural, Debug)]
pub struct Gas {
    pub value: u64,
}

/// The product of two values that fit in 64 bits always fits in 128 bits.
pub proof fn lemma_u64_mul_fits_u128(a: u64, b: u64)
    ensures
        a * b <= u128::MAX,
{
    assert(a * b <= 0xffff_ffff_ffff_ffffu64 * 0xffff_ffff_ffff_ffffu64) by (nonlinear_arith)
        requires
            a <= 0xffff_ffff_ffff_ffffu64,
            b <= 0xffff_ffff_ffff_ffffu64,
    ;
}

impl Motes {
    /// Wraps a raw number of value units.
    pub fn new(value: u128) -> (r: Motes)
        ensures
            r.value == value,
    {
        Motes { value }
    }

    /// The zero balance.
    pub fn zero() -> (r: Motes)
        ensures
            r.value == 0,
    {
        Motes { value: 0 }
    }

    /// Checked addition: `None` exactly when the sum does not fit.
    pub fn checked_add(self, other: Motes) -> (r: Option<Motes>)
        ensures
            r == if self.value + other.value <= u128::MAX {
                Some(Motes { value: (self.value + other.value) as u128 })
            } else {
                None::<Motes>
            },
    {
        if self.value <= u128::MAX - other.value {
            Some(Motes { value: self.value + other.value })
        } else {
            None
        }
    }

    /// Checked subtraction: `None` exactly when the difference would be
    /// negative. Balances never go below zero, so underflow is rejected
    /// rather than wrapped.
    pub fn checked_sub(self, other: Motes) -> (r: Option<Motes>)
        ensures
            r == if self.value >= other.value {
                Some(Motes { value: (self.value - other.value) as u128 })
            } else {
                None::<Motes>
            },
    {
        if self.value >= other.value {
            Some(Motes { value: self.value - other.value })
        } else {
            None
        }
    }

    /// Converts an execution cost to value units at `rate` motes per gas
    /// unit. The conversion is exact: with a 64-bit cost and a 64-bit rate
    /// the product always fits in a balance. A zero rate leaves the
    /// conversion undefined and is rejected rather than silently mapped to a
    /// zero fee.
    pub fn from_gas(gas: Gas, rate: u64) -> (r: Option<Motes>)
        ensures
            r == if rate == 0 {
                None::<Motes>
            } else {
                Some(Motes { value: (gas.value * rate) as u128 })
            },
    {
        if rate == 0 {
            None
        } else {
            proof {
                lemma_u64_mul_fits_u128(gas.value, rate);
            }
            Some(Motes { value: (gas.value as u128) * (rate as u128) })
        }
    }
}

} // verus!
