//! The adapter's error taxonomy.
//!
//! Every error is terminal for the enclosing transaction: the host rolls the
//! whole operation back, so no partial effect of a failed swap is ever
//! observable.

use vstd::prelude::*;

use crate::version::Version;

verus! {

/// Everything the adapter can refuse or fail on.
#[derive(Debug, PartialEq, Eq)]
pub enum ContractError {
    /// A swap of a zero amount is never meaningful.
    ZeroAmount,
    /// The named denom is not among the pool's traded assets.
    AssetNotInPool { denom: String },
    /// Every asset of the pool equals the given one, so no counter-asset
    /// exists to trade into.
    PairedAssetNotFound { denom: String },
    /// The resolved counter-asset is a contract asset; only native-ledger
    /// assets are tradeable through this adapter.
    UnsupportedAssetKind,
    /// The resolved counter-asset's denom is not the one the caller asked
    /// to trade into.
    PairedAssetMissmatch,
    /// A swap is already awaiting its balance assertion; a second swap may
    /// not start before the first resolves.
    PendingAssertionData,
    /// The resumption signal arrived with no assertion context stored.
    CannotReadAssertionData,
    /// A balance moved against the trade's favorable direction: the
    /// subtraction `operand1 - operand2` would underflow.
    OverflowError { operand1: u128, operand2: u128 },
    /// The realized output fell short of the caller's minimum.
    MinimumReceiveAssertion { minimum_receive: u128, swap_amount: u128 },
    /// The required input exceeded the caller's maximum.
    MaximumTokenInAssertion { token_in_max_amount: u128, token_in_used: u128 },
    /// A resumption callback carried an id this adapter never issued.
    UnknownReplyId { id: u64 },
    /// A migration addressed a contract stored under a different name.
    ContractNameMismatch,
    /// A version string did not parse; carries the parser's message.
    SemVer(String),
    /// Only strict upgrades migrate: the stored version was not below the
    /// incoming one.
    MigrateInvalidVersion { new_version: Version, current_version: Version },
}

} // verus!
