//! The quote resolver and the read-only query surface.
//!
//! Each query's numeric inputs — the pool's live reserves, its fee
//! composition, a simulation's answer — are fetched by the host and handed
//! in as plain values; the adapter treats the simulation results as ground
//! truth and never recomputes the pool's pricing.

use vstd::prelude::*;

use crate::asset::{is_native_with_denom, matches_native, Asset, AssetInfo, Coin, PairInfo};
use crate::commands::{get_paired_asset_info, paired_asset_result};
use crate::decimal::{aggregate_spec, from_ratio, Decimal, PoolFee, DECIMAL_FRACTIONAL};
use crate::error::ContractError;
use crate::msg::{
    CalcInAmtGivenOutResponse, CalcOutAmtGivenInResponse, Config, GetSwapFeeResponse,
    SpotPriceResponse, TotalPoolLiquidityResponse,
};
use crate::state::Store;

verus! {

/// Some asset of `assets` is the native asset named `denom`.
pub open spec fn assets_contain_native(assets: Seq<Asset>, denom: Seq<char>) -> bool {
    exists|i: int| 0 <= i < assets.len() && matches_native(assets[i].info, denom)
}

/// The amount of the first asset of `assets` that is the native asset named
/// `denom`, if any.
pub open spec fn find_amount(assets: Seq<Asset>, denom: Seq<char>) -> Option<u128>
    decreases assets.len(),
{
    if assets.len() == 0 {
        None
    } else if matches_native(assets[0].info, denom) {
        Some(assets[0].amount)
    } else {
        find_amount(assets.drop_first(), denom)
    }
}

/// Dropping a prefix with no match leaves the found amount unchanged.
pub proof fn lemma_find_amount_skip(assets: Seq<Asset>, denom: Seq<char>, i: int)
    requires
        0 <= i <= assets.len(),
        forall|j: int| 0 <= j < i ==> !matches_native(assets[j].info, denom),
    ensures
        find_amount(assets, denom) == find_amount(assets.skip(i), denom),
    decreases i,
{
    if i > 0 {
        assert(assets.drop_first() =~= assets.skip(1));
        lemma_find_amount_skip(assets.skip(1), denom, i - 1);
        assert(assets.skip(1).skip(i - 1) =~= assets.skip(i));
    } else {
        assert(assets.skip(0) =~= assets);
    }
}

/// Finds the amount of the first asset in `assets` that is the native asset
/// named `denom`.
pub fn find_asset_amount_by_denom(assets: &Vec<Asset>, denom: &String) -> (r: Option<u128>)
    ensures
        r == find_amount(assets@, denom@),
{
    let n = assets.len();
    let mut i: usize = 0;
    while i < n
        invariant
            0 <= i <= n,
            n == assets@.len(),
            forall|j: int| 0 <= j < i ==> !matches_native(assets@[j].info, denom@),
        decreases n - i,
    {
        if is_native_with_denom(&assets[i].info, denom) {
            proof {
                lemma_find_amount_skip(assets@, denom@, i as int);
                assert(assets@.skip(i as int)[0] == assets@[i as int]);
            }
            return Some(assets[i].amount);
        }
        i += 1;
    }
    proof {
        lemma_find_amount_skip(assets@, denom@, n as int);
    }
    None
}

/// Both denoms name native assets of the pool; the first denom is reported
/// when both are absent.
pub open spec fn assert_denoms_result(
    assets: Seq<Asset>,
    token_0: String,
    token_1: String,
) -> Result<(), ContractError> {
    if !assets_contain_native(assets, token_0@) {
        Err(ContractError::AssetNotInPool { denom: token_0 })
    } else if !assets_contain_native(assets, token_1@) {
        Err(ContractError::AssetNotInPool { denom: token_1 })
    } else {
        Ok(())
    }
}

/// Checks that `token_0` and `token_1` both name native assets of the pool.
pub fn assert_denoms(assets: &Vec<Asset>, token_0: &String, token_1: &String) -> (r: Result<
    (),
    ContractError,
>)
    ensures
        r == assert_denoms_result(assets@, *token_0, *token_1),
{
    if !contains_denom(assets, token_0) {
        return Err(ContractError::AssetNotInPool { denom: token_0.clone() });
    }
    if !contains_denom(assets, token_1) {
        return Err(ContractError::AssetNotInPool { denom: token_1.clone() });
    }
    Ok(())
}

/// Whether some asset of `assets` is the native asset named `denom`.
fn contains_denom(assets: &Vec<Asset>, denom: &String) -> (r: bool)
    ensures
        r == assets_contain_native(assets@, denom@),
{
    let n = assets.len();
    let mut found = false;
    let mut i: usize = 0;
    while i < n
        invariant
            0 <= i <= n,
            n == assets@.len(),
            found == exists|j: int| 0 <= j < i && matches_native(assets@[j].info, denom@),
        decreases n - i,
    {
        if is_native_with_denom(&assets[i].info, denom) {
            found = true;
        }
        i += 1;
    }
    found
}

/// What the forward quote answers: the pair validator's error, or a coin of
/// the ask denom carrying the amount the pool's simulation returned. The
/// validation is the same one a real swap attempt performs, so a quote for
/// an asset outside the pool — or into a denom the pool does not pair with
/// it — fails identically.
pub open spec fn calc_out_result(
    assets: Seq<AssetInfo>,
    token_in: Coin,
    token_out_denom: String,
    return_amount: u128,
) -> Result<CalcOutAmtGivenInResponse, ContractError> {
    match paired_asset_result(token_in, assets, token_out_denom) {
        Err(e) => Err(e),
        Ok(_) => Ok(
            CalcOutAmtGivenInResponse {
                token_out: Coin { denom: token_out_denom, amount: return_amount },
            },
        ),
    }
}

/// Calculates the amount of the ask token a given input buys. `pair_info`
/// is the pool's live composition and `return_amount` the answer of the
/// pool's simulation for `token_in`, both fetched by the host; the pair is
/// validated first, exactly as a swap would validate it.
pub fn calc_out_amt_given_in(
    pair_info: &PairInfo,
    token_in: Coin,
    token_out_denom: String,
    return_amount: u128,
) -> (r: Result<CalcOutAmtGivenInResponse, ContractError>)
    ensures
        r == calc_out_result(pair_info.asset_infos@, token_in, token_out_denom, return_amount),
{
    match get_paired_asset_info(&token_in, pair_info, &token_out_denom) {
        Err(e) => Err(e),
        Ok(_) => Ok(
            CalcOutAmtGivenInResponse {
                token_out: Coin { denom: token_out_denom, amount: return_amount },
            },
        ),
    }
}

/// What the reverse quote answers: the pair validator's error, or a coin of
/// the offer denom carrying the amount the pool's reverse simulation
/// requires. The validation is the same one a real swap attempt performs.
pub open spec fn calc_in_result(
    assets: Seq<AssetInfo>,
    token_out: Coin,
    token_in_denom: String,
    offer_amount: u128,
) -> Result<CalcInAmtGivenOutResponse, ContractError> {
    match paired_asset_result(token_out, assets, token_in_denom) {
        Err(e) => Err(e),
        Ok(_) => Ok(
            CalcInAmtGivenOutResponse {
                token_in: Coin { denom: token_in_denom, amount: offer_amount },
            },
        ),
    }
}

/// Calculates the amount of the offer token needed for a given output.
/// `offer_amount` is the answer of the pool's reverse simulation for
/// `token_out`; the pair is validated first, exactly as a swap would
/// validate it.
pub fn calc_in_amt_given_out(
    pair_info: &PairInfo,
    token_out: Coin,
    token_in_denom: String,
    offer_amount: u128,
) -> (r: Result<CalcInAmtGivenOutResponse, ContractError>)
    ensures
        r == calc_in_result(pair_info.asset_infos@, token_out, token_in_denom, offer_amount),
{
    match get_paired_asset_info(&token_out, pair_info, &token_in_denom) {
        Err(e) => Err(e),
        Ok(_) => Ok(
            CalcInAmtGivenOutResponse {
                token_in: Coin { denom: token_in_denom, amount: offer_amount },
            },
        ),
    }
}

/// Whether computing the spot price cannot hit an undefined ratio: wherever
/// both reserves are found, the quote reserve is nonzero and the ratio fits.
pub open spec fn spot_price_defined(
    assets: Seq<Asset>,
    quote_asset_denom: Seq<char>,
    base_asset_denom: Seq<char>,
) -> bool {
    (find_amount(assets, quote_asset_denom) matches Some(qa) && find_amount(
        assets,
        base_asset_denom,
    ) matches Some(ba)) ==> (find_amount(assets, quote_asset_denom) matches Some(qa) && find_amount(
        assets,
        base_asset_denom,
    ) matches Some(ba) && qa != 0 && ba * DECIMAL_FRACTIONAL / (qa as int) <= u128::MAX)
}

/// What the spot-price query answers: the price of the base asset in units
/// of the quote asset, `base_reserve / quote_reserve`, from the pool's live
/// amounts.
pub open spec fn spot_price_result(
    assets: Seq<Asset>,
    quote_asset_denom: String,
    base_asset_denom: String,
) -> Result<SpotPriceResponse, ContractError> {
    match find_amount(assets, quote_asset_denom@) {
        Option::None => Err(ContractError::AssetNotInPool { denom: quote_asset_denom }),
        Option::Some(qa) => match find_amount(assets, base_asset_denom@) {
            Option::None => Err(ContractError::AssetNotInPool { denom: base_asset_denom }),
            Option::Some(ba) => Ok(
                SpotPriceResponse {
                    spot_price: Decimal {
                        atomics: (ba * DECIMAL_FRACTIONAL / (qa as int)) as u128,
                    },
                },
            ),
        },
    }
}

/// Computes the spot price of the base asset in the quote asset from the
/// pool's live reserves. A zero quote reserve and a ratio beyond the decimal
/// range are excluded, as the underlying decimal construction does not
/// return on them.
pub fn spot_price(
    assets: &Vec<Asset>,
    quote_asset_denom: String,
    base_asset_denom: String,
) -> (r: Result<SpotPriceResponse, ContractError>)
    requires
        spot_price_defined(assets@, quote_asset_denom@, base_asset_denom@),
    ensures
        r == spot_price_result(assets@, quote_asset_denom, base_asset_denom),
{
    let quote_asset_amount = match find_asset_amount_by_denom(assets, &quote_asset_denom) {
        Some(a) => a,
        None => {
            return Err(ContractError::AssetNotInPool { denom: quote_asset_denom });
        },
    };
    let base_asset_amount = match find_asset_amount_by_denom(assets, &base_asset_denom) {
        Some(a) => a,
        None => {
            return Err(ContractError::AssetNotInPool { denom: base_asset_denom });
        },
    };
    Ok(SpotPriceResponse { spot_price: from_ratio(base_asset_amount, quote_asset_amount) })
}

/// What the fee query answers: the pool's four fee shares aggregated into
/// one.
pub open spec fn get_swap_fee_result(pool_fees: PoolFee) -> Result<
    GetSwapFeeResponse,
    ContractError,
> {
    match aggregate_spec(pool_fees) {
        Ok(d) => Ok(GetSwapFeeResponse { swap_fee: d }),
        Err(e) => Err(e),
    }
}

/// Aggregates the pool's fee composition, fetched by the host from the
/// pool's configuration, into the single fee share the query surface
/// reports.
pub fn get_swap_fee(pool_fees: &PoolFee) -> (r: Result<GetSwapFeeResponse, ContractError>)
    ensures
        r == get_swap_fee_result(*pool_fees),
{
    match pool_fees.aggregate() {
        Ok(d) => Ok(GetSwapFeeResponse { swap_fee: d }),
        Err(e) => Err(e),
    }
}

/// Every asset of `assets` is a native-ledger asset.
pub open spec fn all_native(assets: Seq<Asset>) -> bool {
    forall|i: int| 0 <= i < assets.len() ==> assets[i].info is NativeToken
}

/// The coin list of an all-native asset list, denom and amount kept in
/// order.
pub open spec fn native_coins(assets: Seq<Asset>) -> Seq<Coin> {
    Seq::new(assets.len(), |i: int| Coin { denom: assets[i].info->denom, amount: assets[i].amount })
}

/// Converts an asset list into a coin list; a contract asset among them is
/// refused, as a coin can only name a native asset.
pub fn to_coins(assets: &Vec<Asset>) -> (r: Result<Vec<Coin>, ContractError>)
    ensures
        all_native(assets@) ==> (r matches Ok(coins) && coins@ == native_coins(assets@)),
        !all_native(assets@) ==> r == Err::<Vec<Coin>, ContractError>(
            ContractError::UnsupportedAssetKind,
        ),
{
    let n = assets.len();
    let mut coins: Vec<Coin> = Vec::new();
    let mut i: usize = 0;
    while i < n
        invariant
            0 <= i <= n,
            n == assets@.len(),
            forall|j: int| 0 <= j < i ==> assets@[j].info is NativeToken,
            coins@.len() == i,
            forall|j: int|
                0 <= j < i ==> coins@[j] == (Coin {
                    denom: assets@[j].info->denom,
                    amount: assets@[j].amount,
                }),
        decreases n - i,
    {
        match &assets[i].info {
            AssetInfo::Token { .. } => {
                return Err(ContractError::UnsupportedAssetKind);
            },
            AssetInfo::NativeToken { denom } => {
                coins.push(Coin { denom: denom.clone(), amount: assets[i].amount });
            },
        }
        i += 1;
    }
    proof {
        assert(coins@ =~= native_coins(assets@));
    }
    Ok(coins)
}

/// Reports the pool's live reserves as a coin list.
pub fn get_total_pool_liquidity(assets: &Vec<Asset>) -> (r: Result<
    TotalPoolLiquidityResponse,
    ContractError,
>)
    ensures
        all_native(assets@) ==> (r matches Ok(resp) && resp.total_pool_liquidity@ == native_coins(
            assets@,
        )),
        !all_native(assets@) ==> r == Err::<TotalPoolLiquidityResponse, ContractError>(
            ContractError::UnsupportedAssetKind,
        ),
{
    match to_coins(assets) {
        Ok(coins) => Ok(TotalPoolLiquidityResponse { total_pool_liquidity: coins }),
        Err(e) => Err(e),
    }
}

/// Reads the adapter's configuration.
pub fn get_config(store: &Store) -> (r: &Config)
    ensures
        *r == store.config,
{
    &store.config
}

} // verus!
