//! Fixed-point decimals as the adapter reads them: the atomic units of an
//! 18-fractional-digit decimal, and the fee composition a pool reports.

use vstd::prelude::*;

use crate::error::ContractError;

verus! {

/// Atomic units per whole unit of a decimal: 10^18.
pub const DECIMAL_FRACTIONAL: u128 = 1_000_000_000_000_000_000;

/// A fixed-point decimal with 18 fractional digits, held as its atomic
/// units: the value is `atomics / 10^18`.
#[derive(Debug, Clone, Copy, PartialEq, Eq, Structural)]
pub struct Decimal {
    pub atomics: u128,
}

/// Relies on `cosmwasm_std::Decimal::from_ratio`: the resulting decimal's
/// atomic units are `numerator * 10^18 / denominator`, rounded down. The
/// call panics on a zero denominator and on overflow of the result, so both
/// are excluded here.
#[verifier::external_body]
pub(crate) fn from_ratio(numerator: u128, denominator: u128) -> (r: Decimal)
    requires
        denominator != 0,
        numerator * DECIMAL_FRACTIONAL / (denominator as int) <= u128::MAX,
    ensures
        r.atomics == numerator * DECIMAL_FRACTIONAL / (denominator as int),
{
    Decimal { atomics: cosmwasm_std::Decimal::from_ratio(numerator, denominator).atomics().u128() }
}

/// The fee composition of the underlying pool: each field is the share that
/// one fee takes of a trade.
#[derive(Debug, Clone, Copy, PartialEq, Eq, Structural)]
pub struct PoolFee {
    pub protocol_fee: Decimal,
    pub swap_fee: Decimal,
    pub burn_fee: Decimal,
    pub osmosis_fee: Decimal,
}

/// What aggregating a pool's fees yields: the sum of the four shares, or the
/// first pair of addends whose sum does not fit.
pub open spec fn aggregate_spec(f: PoolFee) -> Result<Decimal, ContractError> {
    let a = f.protocol_fee.atomics;
    let b = f.swap_fee.atomics;
    let c = f.burn_fee.atomics;
    let d = f.osmosis_fee.atomics;
    if a + b > u128::MAX {
        Err(ContractError::OverflowError { operand1: a, operand2: b })
    } else if a + b + c > u128::MAX {
        Err(ContractError::OverflowError { operand1: (a + b) as u128, operand2: c })
    } else if a + b + c + d > u128::MAX {
        Err(ContractError::OverflowError { operand1: (a + b + c) as u128, operand2: d })
    } else {
        Ok(Decimal { atomics: (a + b + c + d) as u128 })
    }
}

impl PoolFee {
    /// Aggregates the four fees into the single total share a trade pays.
    pub fn aggregate(&self) -> (r: Result<Decimal, ContractError>)
        ensures
            r == aggregate_spec(*self),
    {
        let base = match self.protocol_fee.atomics.checked_add(self.swap_fee.atomics) {
            Some(v) => v,
            None => {
                return Err(ContractError::OverflowError {
                    operand1: self.protocol_fee.atomics,
                    operand2: self.swap_fee.atomics,
                });
            },
        };
        let base = match base.checked_add(self.burn_fee.atomics) {
            Some(v) => v,
            None => {
                return Err(ContractError::OverflowError {
                    operand1: base,
                    operand2: self.burn_fee.atomics,
                });
            },
        };
        match base.checked_add(self.osmosis_fee.atomics) {
            Some(v) => Ok(Decimal { atomics: v }),
            None => Err(ContractError::OverflowError {
                operand1: base,
                operand2: self.osmosis_fee.atomics,
            }),
        }
    }
}

} // verus!
