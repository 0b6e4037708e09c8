//! The adapter's persistent state as an explicit store object: the
//! configuration, the contract-version record, and the single-slot scratch
//! storage that carries an assertion context across the suspension point of
//! an in-flight swap.

use vstd::prelude::*;

use crate::asset::AssetInfo;
use crate::msg::Config;

verus! {

/// Which way the caller's bound constrains the realized balance delta.
#[derive(Debug, Clone, Copy, PartialEq, Eq, Structural)]
pub enum BoundDirection {
    /// The beneficiary's balance must grow by at least the bound.
    Minimum,
    /// The beneficiary's balance may shrink by at most the bound.
    Maximum,
}

/// The scratch record that survives the suspension point between "swap
/// dispatched" and "swap outcome observed": the asset being measured, the
/// balance snapshot taken before dispatch, the caller's bound, the
/// beneficiary, and the bound's direction. Created immediately before the
/// trade instruction is issued; consumed exactly once, at resumption.
#[derive(Debug, PartialEq, Eq)]
pub struct AssertionContext {
    pub asset_info: AssetInfo,
    pub prev_balance: u128,
    pub bound: u128,
    pub receiver: String,
    pub direction: BoundDirection,
}

impl Clone for AssertionContext {
    fn clone(&self) -> (r: Self)
        ensures
            r == *self,
    {
        AssertionContext {
            asset_info: self.asset_info.clone(),
            prev_balance: self.prev_balance,
            bound: self.bound,
            receiver: self.receiver.clone(),
            direction: self.direction,
        }
    }
}

/// Everything the adapter owns durably. The assertion slot holds at most one
/// context: a swap started while another is pending is rejected.
#[derive(Debug, PartialEq, Eq)]
pub struct Store {
    pub config: Config,
    pub contract_name: String,
    pub contract_version: String,
    pub assertion: Option<AssertionContext>,
}

} // verus!
