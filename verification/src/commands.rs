//! The swap orchestrator: pair validation, the two swap commands, and the
//! construction of the outbound trade instruction.
//!
//! A swap command validates the pairing against the pool's live composition,
//! snapshots the beneficiary's balance into the assertion slot, and yields
//! the instruction to dispatch together with the advisory response data. The
//! authoritative slippage check happens afterwards, at the resumption point
//! (`crate::contract::reply`).

use vstd::prelude::*;

use crate::asset::{
    contains_native, counter_asset, is_native_with_denom, lemma_counter_asset_skip, matches_native,
    AssetInfo, Coin, PairInfo,
};
use crate::error::ContractError;
use crate::msg::{
    SwapExactAmountInResponseData, SwapExactAmountOutResponseData, SwapInstruction,
    MAX_SPREAD_PERCENT,
};
use crate::state::{AssertionContext, BoundDirection, Store};

verus! {

/// What resolving the asset paired with `token_a` yields, when the caller
/// expects to trade into `token_b_denom`: the pool's first asset that is not
/// `token_a`'s, provided `token_a`'s denom is in the pool at all, the
/// counter-asset is native, and its denom is the expected one.
pub open spec fn paired_asset_result(
    token_a: Coin,
    assets: Seq<AssetInfo>,
    token_b_denom: String,
) -> Result<AssetInfo, ContractError> {
    if !contains_native(assets, token_a.denom@) {
        Err(ContractError::AssetNotInPool { denom: token_a.denom })
    } else {
        match counter_asset(assets, token_a.denom@) {
            Option::None => Err(ContractError::PairedAssetNotFound { denom: token_a.denom }),
            Option::Some(c) => match c {
                AssetInfo::Token { .. } => Err(ContractError::UnsupportedAssetKind),
                AssetInfo::NativeToken { denom: d } => if d@ != token_b_denom@ {
                    Err(ContractError::PairedAssetMissmatch)
                } else {
                    Ok(c)
                },
            },
        }
    }
}

/// Resolves the asset `token_a` is paired with in the pool and verifies it
/// is the native asset the caller expects to trade into.
pub fn get_paired_asset_info(
    token_a: &Coin,
    pair_info: &PairInfo,
    token_b_denom: &String,
) -> (r: Result<AssetInfo, ContractError>)
    ensures
        r == paired_asset_result(*token_a, pair_info.asset_infos@, *token_b_denom),
{
    let assets = &pair_info.asset_infos;
    let n = assets.len();

    let mut found = false;
    let mut i: usize = 0;
    while i < n
        invariant
            0 <= i <= n,
            n == assets@.len(),
            assets@ == pair_info.asset_infos@,
            found == exists|j: int| 0 <= j < i && matches_native(assets@[j], token_a.denom@),
        decreases n - i,
    {
        if is_native_with_denom(&assets[i], &token_a.denom) {
            found = true;
        }
        i += 1;
    }
    if !found {
        return Err(ContractError::AssetNotInPool { denom: token_a.denom.clone() });
    }

    let mut j: usize = 0;
    while j < n
        invariant
            0 <= j <= n,
            n == assets@.len(),
            assets@ == pair_info.asset_infos@,
            forall|k: int| 0 <= k < j ==> matches_native(assets@[k], token_a.denom@),
            contains_native(assets@, token_a.denom@),
        decreases n - j,
    {
        if !is_native_with_denom(&assets[j], &token_a.denom) {
            proof {
                lemma_counter_asset_skip(assets@, token_a.denom@, j as int);
                assert(assets@.skip(j as int).len() == n - j);
                assert(assets@.skip(j as int)[0] == assets@[j as int]);
                assert(counter_asset(assets@.skip(j as int), token_a.denom@) == Some(
                    assets@[j as int],
                ));
            }
            let c = assets[j].clone();
            match &c {
                AssetInfo::Token { .. } => {
                    return Err(ContractError::UnsupportedAssetKind);
                },
                AssetInfo::NativeToken { denom: d } => {
                    if *d != *token_b_denom {
                        return Err(ContractError::PairedAssetMissmatch);
                    }
                },
            }
            return Ok(c);
        }
        j += 1;
    }
    proof {
        lemma_counter_asset_skip(assets@, token_a.denom@, n as int);
    }
    Err(ContractError::PairedAssetNotFound { denom: token_a.denom.clone() })
}

/// Builds the trade instruction for the underlying pool: swap `offer`
/// against `contract_addr`, crediting `sender`, with the fixed spread bound.
pub fn create_swap_msg(contract_addr: String, offer: Coin, sender: String) -> (r: SwapInstruction)
    ensures
        r == (SwapInstruction {
            pool_contract: contract_addr,
            offer: offer,
            recipient: sender,
            max_spread_percent: MAX_SPREAD_PERCENT,
        }),
{
    SwapInstruction {
        pool_contract: contract_addr,
        offer,
        recipient: sender,
        max_spread_percent: MAX_SPREAD_PERCENT,
    }
}

/// What an exact-amount-in swap yields at dispatch time, for a pool whose
/// declared assets are `assets` and whose simulation promised
/// `expected_token_out` for `token_in`: the trade instruction and the
/// advisory response, or the first failing check's error.
pub open spec fn swap_in_result(
    store: Store,
    sender: String,
    token_in: Coin,
    token_out_denom: String,
    token_out_min_amount: u128,
    assets: Seq<AssetInfo>,
    expected_token_out: u128,
) -> Result<(SwapInstruction, SwapExactAmountInResponseData), ContractError> {
    if token_in.amount == 0 {
        Err(ContractError::ZeroAmount)
    } else {
        match paired_asset_result(token_in, assets, token_out_denom) {
            Err(e) => Err(e),
            Ok(_) => if store.assertion is Some {
                Err(ContractError::PendingAssertionData)
            } else {
                Ok(
                    (
                        SwapInstruction {
                            pool_contract: store.config.white_whale_pool,
                            offer: token_in,
                            recipient: sender,
                            max_spread_percent: MAX_SPREAD_PERCENT,
                        },
                        SwapExactAmountInResponseData { token_out_amount: expected_token_out },
                    ),
                )
            },
        }
    }
}

/// The store after an exact-amount-in swap was dispatched: on success the
/// assertion slot holds the ask asset, the balance snapshot, the minimum
/// bound and the beneficiary; on failure the store is unchanged.
pub open spec fn swap_in_new_store(
    store: Store,
    sender: String,
    token_in: Coin,
    token_out_denom: String,
    token_out_min_amount: u128,
    assets: Seq<AssetInfo>,
    expected_token_out: u128,
    receiver_balance: u128,
) -> Store {
    if swap_in_result(
        store,
        sender,
        token_in,
        token_out_denom,
        token_out_min_amount,
        assets,
        expected_token_out,
    ) is Ok {
        Store {
            assertion: Some(
                AssertionContext {
                    asset_info: match counter_asset(assets, token_in.denom@) {
                        Option::Some(c) => c,
                        Option::None => AssetInfo::NativeToken { denom: token_out_denom },
                    },
                    prev_balance: receiver_balance,
                    bound: token_out_min_amount,
                    receiver: sender,
                    direction: BoundDirection::Minimum,
                },
            ),
            ..store
        }
    } else {
        store
    }
}

/// Swaps an exact amount of tokens in for as many tokens out as possible.
///
/// `pair_info` is the pool's live composition, `expected_token_out` the
/// pool's simulated output for `token_in`, and `receiver_balance` the
/// sender's current balance in the ask denom; the host fetches all three
/// immediately before the call. On success the assertion context is stored
/// and the returned instruction must be dispatched with a resumption
/// callback carrying `crate::contract::ASSERT_MINIMUM_RECEIVE_REPLY_ID`.
pub fn swap_exact_amount_in(
    store: &mut Store,
    sender: String,
    token_in: Coin,
    token_out_denom: String,
    token_out_min_amount: u128,
    pair_info: &PairInfo,
    expected_token_out: u128,
    receiver_balance: u128,
) -> (r: Result<(SwapInstruction, SwapExactAmountInResponseData), ContractError>)
    ensures
        r == swap_in_result(
            *old(store),
            sender,
            token_in,
            token_out_denom,
            token_out_min_amount,
            pair_info.asset_infos@,
            expected_token_out,
        ),
        *final(store) == swap_in_new_store(
            *old(store),
            sender,
            token_in,
            token_out_denom,
            token_out_min_amount,
            pair_info.asset_infos@,
            expected_token_out,
            receiver_balance,
        ),
{
    if token_in.amount == 0 {
        return Err(ContractError::ZeroAmount);
    }
    let ask_asset_info = match get_paired_asset_info(&token_in, pair_info, &token_out_denom) {
        Ok(info) => info,
        Err(e) => {
            return Err(e);
        },
    };
    if store.assertion.is_some() {
        return Err(ContractError::PendingAssertionData);
    }
    store.assertion = Some(
        AssertionContext {
            asset_info: ask_asset_info,
            prev_balance: receiver_balance,
            bound: token_out_min_amount,
            receiver: sender.clone(),
            direction: BoundDirection::Minimum,
        },
    );
    let instruction = create_swap_msg(store.config.white_whale_pool.clone(), token_in, sender);
    Ok((instruction, SwapExactAmountInResponseData { token_out_amount: expected_token_out }))
}

/// What an exact-amount-out swap yields at dispatch time: the instruction
/// offering exactly the input the pool's reverse simulation requires, or the
/// first failing check's error. The upper bound is checked synchronously,
/// before anything is dispatched.
pub open spec fn swap_out_result(
    store: Store,
    sender: String,
    token_out: Coin,
    token_in_max_amount: u128,
    token_in_denom: String,
    assets: Seq<AssetInfo>,
    expected_token_in: u128,
) -> Result<(SwapInstruction, SwapExactAmountOutResponseData), ContractError> {
    if token_out.amount == 0 {
        Err(ContractError::ZeroAmount)
    } else {
        match paired_asset_result(token_out, assets, token_in_denom) {
            Err(e) => Err(e),
            Ok(_) => if expected_token_in > token_in_max_amount {
                Err(
                    ContractError::MaximumTokenInAssertion {
                        token_in_max_amount: token_in_max_amount,
                        token_in_used: expected_token_in,
                    },
                )
            } else if store.assertion is Some {
                Err(ContractError::PendingAssertionData)
            } else {
                Ok(
                    (
                        SwapInstruction {
                            pool_contract: store.config.white_whale_pool,
                            offer: Coin { denom: token_in_denom, amount: expected_token_in },
                            recipient: sender,
                            max_spread_percent: MAX_SPREAD_PERCENT,
                        },
                        SwapExactAmountOutResponseData { token_in_amount: expected_token_in },
                    ),
                )
            },
        }
    }
}

/// The store after an exact-amount-out swap was dispatched: on success the
/// assertion slot holds the offer asset, the snapshot of the sender's offer
/// balance, and the maximum bound; on failure the store is unchanged.
pub open spec fn swap_out_new_store(
    store: Store,
    sender: String,
    token_out: Coin,
    token_in_max_amount: u128,
    token_in_denom: String,
    assets: Seq<AssetInfo>,
    expected_token_in: u128,
    sender_balance: u128,
) -> Store {
    if swap_out_result(
        store,
        sender,
        token_out,
        token_in_max_amount,
        token_in_denom,
        assets,
        expected_token_in,
    ) is Ok {
        Store {
            assertion: Some(
                AssertionContext {
                    asset_info: AssetInfo::NativeToken { denom: token_in_denom },
                    prev_balance: sender_balance,
                    bound: token_in_max_amount,
                    receiver: sender,
                    direction: BoundDirection::Maximum,
                },
            ),
            ..store
        }
    } else {
        store
    }
}

/// Swaps as many tokens in as possible for an exact amount of tokens out.
///
/// `expected_token_in` is the pool's reverse-simulated input for
/// `token_out`, and `sender_balance` the sender's current balance in the
/// offer denom. An input requirement above the caller's maximum fails fast,
/// before anything is dispatched; on success the assertion context is stored
/// so the realized spend is still checked at resumption.
pub fn swap_exact_amount_out(
    store: &mut Store,
    sender: String,
    token_out: Coin,
    token_in_max_amount: u128,
    token_in_denom: String,
    pair_info: &PairInfo,
    expected_token_in: u128,
    sender_balance: u128,
) -> (r: Result<(SwapInstruction, SwapExactAmountOutResponseData), ContractError>)
    ensures
        r == swap_out_result(
            *old(store),
            sender,
            token_out,
            token_in_max_amount,
            token_in_denom,
            pair_info.asset_infos@,
            expected_token_in,
        ),
        *final(store) == swap_out_new_store(
            *old(store),
            sender,
            token_out,
            token_in_max_amount,
            token_in_denom,
            pair_info.asset_infos@,
            expected_token_in,
            sender_balance,
        ),
{
    if token_out.amount == 0 {
        return Err(ContractError::ZeroAmount);
    }
    match get_paired_asset_info(&token_out, pair_info, &token_in_denom) {
        Ok(_) => {},
        Err(e) => {
            return Err(e);
        },
    }
    if expected_token_in > token_in_max_amount {
        return Err(
            ContractError::MaximumTokenInAssertion {
                token_in_max_amount,
                token_in_used: expected_token_in,
            },
        );
    }
    if store.assertion.is_some() {
        return Err(ContractError::PendingAssertionData);
    }
    store.assertion = Some(
        AssertionContext {
            asset_info: AssetInfo::NativeToken { denom: token_in_denom.clone() },
            prev_balance: sender_balance,
            bound: token_in_max_amount,
            receiver: sender.clone(),
            direction: BoundDirection::Maximum,
        },
    );
    let offer = Coin { denom: token_in_denom, amount: expected_token_in };
    let instruction = create_swap_msg(store.config.white_whale_pool.clone(), offer, sender);
    Ok((instruction, SwapExactAmountOutResponseData { token_in_amount: expected_token_in }))
}

/// Pairing correctness: in a pool whose assets are the two natives `a` and
/// `b`, resolving either one expecting the other succeeds and returns the
/// other; expecting a denom outside the pool fails as a pair mismatch; and
/// resolving a denom outside the pool fails as absent, whatever counter-denom
/// was expected.
pub proof fn lemma_pairing_correctness(
    a: Coin,
    b: Coin,
    other_denom: String,
    d: Coin,
    assets: Seq<AssetInfo>,
)
    requires
        assets =~= seq![
            AssetInfo::NativeToken { denom: a.denom },
            AssetInfo::NativeToken { denom: b.denom },
        ],
        a.denom@ != b.denom@,
        other_denom@ != a.denom@,
        other_denom@ != b.denom@,
        d.denom@ != a.denom@,
        d.denom@ != b.denom@,
    ensures
        paired_asset_result(a, assets, b.denom) == Ok::<AssetInfo, ContractError>(
            AssetInfo::NativeToken { denom: b.denom },
        ),
        paired_asset_result(b, assets, a.denom) == Ok::<AssetInfo, ContractError>(
            AssetInfo::NativeToken { denom: a.denom },
        ),
        paired_asset_result(a, assets, other_denom) == Err::<AssetInfo, ContractError>(
            ContractError::PairedAssetMissmatch,
        ),
        paired_asset_result(d, assets, other_denom) == Err::<AssetInfo, ContractError>(
            ContractError::AssetNotInPool { denom: d.denom },
        ),
{
    assert(matches_native(assets[0], a.denom@));
    assert(matches_native(assets[1], b.denom@));
    assert(contains_native(assets, a.denom@));
    assert(contains_native(assets, b.denom@));

    let tail = assets.drop_first();
    assert(tail =~= seq![AssetInfo::NativeToken { denom: b.denom }]);
    assert(tail.len() == 1 && tail[0] == AssetInfo::NativeToken { denom: b.denom });
    assert(!matches_native(tail[0], a.denom@));
    assert(counter_asset(tail, a.denom@) == Some(tail[0]));
    assert(matches_native(assets[0], a.denom@));
    assert(counter_asset(assets, a.denom@) == counter_asset(tail, a.denom@));

    assert(!matches_native(assets[0], b.denom@));
    assert(counter_asset(assets, b.denom@) == Some(assets[0]));

    assert(!contains_native(assets, d.denom@));
}

} // verus!
