//! Assets as the adapter reads them: a denom string for a native-ledger
//! asset, an address for a contract asset, an amount in atomic units, and
//! the pair composition a pool declares.

use vstd::prelude::*;

verus! {

/// One side of what a pool trades: a native-ledger asset named by its denom,
/// or a contract asset named by its address.
#[derive(Debug, PartialEq, Eq)]
pub enum AssetInfo {
    Token { contract_addr: String },
    NativeToken { denom: String },
}

impl Clone for AssetInfo {
    fn clone(&self) -> (r: Self)
        ensures
            r == *self,
    {
        match self {
            AssetInfo::Token { contract_addr } => AssetInfo::Token {
                contract_addr: contract_addr.clone(),
            },
            AssetInfo::NativeToken { denom } => AssetInfo::NativeToken { denom: denom.clone() },
        }
    }
}

/// An asset together with an amount of it, in atomic units.
#[derive(Debug, PartialEq, Eq)]
pub struct Asset {
    pub info: AssetInfo,
    pub amount: u128,
}

impl Clone for Asset {
    fn clone(&self) -> (r: Self)
        ensures
            r == *self,
    {
        Asset { info: self.info.clone(), amount: self.amount }
    }
}

/// An amount of a native-ledger asset.
#[derive(Debug, PartialEq, Eq)]
pub struct Coin {
    pub denom: String,
    pub amount: u128,
}

impl Clone for Coin {
    fn clone(&self) -> (r: Self)
        ensures
            r == *self,
    {
        Coin { denom: self.denom.clone(), amount: self.amount }
    }
}

/// The set of assets a pool declares it trades. Fetched live from the pool
/// on every validation and never cached, since the composition can change
/// between calls.
#[derive(Debug, PartialEq, Eq)]
pub struct PairInfo {
    pub asset_infos: Vec<AssetInfo>,
}

/// `a` is the native asset named `denom`.
pub open spec fn matches_native(a: AssetInfo, denom: Seq<char>) -> bool {
    a matches AssetInfo::NativeToken { denom: d } && d@ == denom
}

/// Some asset of `assets` is the native asset named `denom`.
pub open spec fn contains_native(assets: Seq<AssetInfo>, denom: Seq<char>) -> bool {
    exists|i: int| 0 <= i < assets.len() && matches_native(assets[i], denom)
}

/// The first asset of `assets` that is not the native asset named `denom`,
/// if any: the candidate counter-asset for a trade of `denom`.
pub open spec fn counter_asset(assets: Seq<AssetInfo>, denom: Seq<char>) -> Option<AssetInfo>
    decreases assets.len(),
{
    if assets.len() == 0 {
        None
    } else if !matches_native(assets[0], denom) {
        Some(assets[0])
    } else {
        counter_asset(assets.drop_first(), denom)
    }
}

/// Dropping a fully-matching prefix leaves the counter-asset unchanged.
pub proof fn lemma_counter_asset_skip(assets: Seq<AssetInfo>, denom: Seq<char>, i: int)
    requires
        0 <= i <= assets.len(),
        forall|j: int| 0 <= j < i ==> matches_native(assets[j], denom),
    ensures
        counter_asset(assets, denom) == counter_asset(assets.skip(i), denom),
    decreases i,
{
    if i > 0 {
        assert(assets.skip(0) =~= assets);
        assert(counter_asset(assets, denom) == counter_asset(assets.drop_first(), denom));
        assert(assets.drop_first() =~= assets.skip(1));
        lemma_counter_asset_skip(assets.skip(1), denom, i - 1);
        assert(assets.skip(1).skip(i - 1) =~= assets.skip(i));
    } else {
        assert(assets.skip(0) =~= assets);
    }
}

/// Whether `a` is the native asset named by `denom`, as the executable check.
pub(crate) fn is_native_with_denom(a: &AssetInfo, denom: &String) -> (r: bool)
    ensures
        r == matches_native(*a, denom@),
{
    match a {
        AssetInfo::NativeToken { denom: d } => *d == *denom,
        AssetInfo::Token { .. } => false,
    }
}

} // verus!
