//! The adapter's operations: instantiation, the command and query
//! dispatchers, the balance-assertion engine's resumption handler, the
//! migration guard, and the transaction runners that state the whole
//! dispatch-then-assert sequence under the host's all-or-nothing semantics.

use vstd::prelude::*;

use crate::asset::{Asset, AssetInfo, Coin, PairInfo};
use crate::commands::{
    paired_asset_result, swap_exact_amount_in, swap_exact_amount_out, swap_in_new_store,
    swap_in_result, swap_out_new_store, swap_out_result,
};
use crate::decimal::PoolFee;
use crate::error::ContractError;
use crate::msg::{
    Config, QueryMsg, QueryResponse, SudoMsg, SudoResponse, SwapExactAmountInResponseData,
    SwapExactAmountOutResponseData,
};
use crate::queries::{
    all_native, calc_in_amt_given_out, calc_in_result, calc_out_amt_given_in, calc_out_result,
    get_swap_fee, get_swap_fee_result, get_total_pool_liquidity, native_coins, spot_price,
    spot_price_defined, spot_price_result,
};
use crate::state::{AssertionContext, BoundDirection, Store};
use crate::version::{
    parse_version, parsed_version, precedes, semver_error_message, semver_precedes, version_lt,
    Version,
};

verus! {

/// The id under which the host schedules the resumption callback after the
/// dispatched swap instruction's effects are durable.
pub const ASSERT_MINIMUM_RECEIVE_REPLY_ID: u64 = 1;

/// Sets up the adapter's store: the underlying pool's address (validated by
/// the host) and the contract-version record; the assertion slot starts
/// empty.
pub fn instantiate(white_whale_pool: String, contract_name: String, contract_version: String) -> (r:
    Store)
    ensures
        r == (Store {
            config: Config { white_whale_pool },
            contract_name,
            contract_version,
            assertion: None::<AssertionContext>,
        }),
{
    Store {
        config: Config { white_whale_pool },
        contract_name,
        contract_version,
        assertion: None,
    }
}

/// The assertion slot, for the host to learn which asset and beneficiary to
/// re-query at the resumption point.
pub fn pending_assertion(store: &Store) -> (r: &Option<AssertionContext>)
    ensures
        r == &store.assertion,
{
    &store.assertion
}

/// What the balance-assertion engine decides at resumption, given the
/// beneficiary's re-queried balance: the realized delta, measured in the
/// trade's favorable direction, must meet the stored bound. A balance that
/// moved against that direction is an underflow, never silently clamped.
pub open spec fn reply_result(store: Store, reply_id: u64, receiver_balance: u128) -> Result<
    (),
    ContractError,
> {
    if reply_id != ASSERT_MINIMUM_RECEIVE_REPLY_ID {
        Err(ContractError::UnknownReplyId { id: reply_id })
    } else {
        match store.assertion {
            Option::None => Err(ContractError::CannotReadAssertionData),
            Option::Some(ctx) => match ctx.direction {
                BoundDirection::Minimum => if receiver_balance < ctx.prev_balance {
                    Err(
                        ContractError::OverflowError {
                            operand1: receiver_balance,
                            operand2: ctx.prev_balance,
                        },
                    )
                } else if receiver_balance - ctx.prev_balance < ctx.bound {
                    Err(
                        ContractError::MinimumReceiveAssertion {
                            minimum_receive: ctx.bound,
                            swap_amount: (receiver_balance - ctx.prev_balance) as u128,
                        },
                    )
                } else {
                    Ok(())
                },
                BoundDirection::Maximum => if ctx.prev_balance < receiver_balance {
                    Err(
                        ContractError::OverflowError {
                            operand1: ctx.prev_balance,
                            operand2: receiver_balance,
                        },
                    )
                } else if ctx.prev_balance - receiver_balance > ctx.bound {
                    Err(
                        ContractError::MaximumTokenInAssertion {
                            token_in_max_amount: ctx.bound,
                            token_in_used: (ctx.prev_balance - receiver_balance) as u128,
                        },
                    )
                } else {
                    Ok(())
                },
            },
        }
    }
}

/// The store after resumption: the context is consumed exactly once, on
/// success; any failure leaves the store as it was, and the host's rollback
/// of the enclosing transaction removes the rest.
pub open spec fn reply_new_store(store: Store, reply_id: u64, receiver_balance: u128) -> Store {
    if reply_result(store, reply_id, receiver_balance) is Ok {
        Store { assertion: None, ..store }
    } else {
        store
    }
}

/// The balance-assertion engine's resumption point: loads the stored
/// context, compares the re-queried balance against the snapshot, enforces
/// the bound, and clears the slot on success. `receiver_balance` is the
/// beneficiary's current balance in the recorded asset, re-queried by the
/// host (see [`pending_assertion`]).
pub fn reply(store: &mut Store, reply_id: u64, receiver_balance: u128) -> (r: Result<
    (),
    ContractError,
>)
    ensures
        r == reply_result(*old(store), reply_id, receiver_balance),
        *final(store) == reply_new_store(*old(store), reply_id, receiver_balance),
{
    if reply_id != ASSERT_MINIMUM_RECEIVE_REPLY_ID {
        return Err(ContractError::UnknownReplyId { id: reply_id });
    }
    let (prev_balance, bound, direction) = match &store.assertion {
        Option::None => {
            return Err(ContractError::CannotReadAssertionData);
        },
        Option::Some(ctx) => (ctx.prev_balance, ctx.bound, ctx.direction),
    };
    match direction {
        BoundDirection::Minimum => {
            if receiver_balance < prev_balance {
                return Err(
                    ContractError::OverflowError {
                        operand1: receiver_balance,
                        operand2: prev_balance,
                    },
                );
            }
            let swap_amount = receiver_balance - prev_balance;
            if swap_amount < bound {
                return Err(
                    ContractError::MinimumReceiveAssertion {
                        minimum_receive: bound,
                        swap_amount,
                    },
                );
            }
        },
        BoundDirection::Maximum => {
            if prev_balance < receiver_balance {
                return Err(
                    ContractError::OverflowError {
                        operand1: prev_balance,
                        operand2: receiver_balance,
                    },
                );
            }
            let token_in_used = prev_balance - receiver_balance;
            if token_in_used > bound {
                return Err(
                    ContractError::MaximumTokenInAssertion {
                        token_in_max_amount: bound,
                        token_in_used,
                    },
                );
            }
        },
    }
    store.assertion = None;
    Ok(())
}

/// What a command yields at dispatch time, one arm per command; the
/// activation toggle is out of this adapter's scope.
pub open spec fn sudo_result(
    store: Store,
    msg: SudoMsg,
    assets: Seq<AssetInfo>,
    simulated_amount: u128,
) -> Result<SudoResponse, ContractError> {
    match msg {
        SudoMsg::SetActive { .. } => arbitrary(),
        SudoMsg::SwapExactAmountIn { sender, token_in, token_out_denom, token_out_min_amount } => {
            match swap_in_result(
                store,
                sender,
                token_in,
                token_out_denom,
                token_out_min_amount,
                assets,
                simulated_amount,
            ) {
                Ok((instruction, data)) => Ok(SudoResponse::SwapExactAmountIn { instruction, data }),
                Err(e) => Err(e),
            }
        },
        SudoMsg::SwapExactAmountOut { sender, token_out, token_in_denom, token_in_max_amount } => {
            match swap_out_result(
                store,
                sender,
                token_out,
                token_in_max_amount,
                token_in_denom,
                assets,
                simulated_amount,
            ) {
                Ok((instruction, data)) => Ok(
                    SudoResponse::SwapExactAmountOut { instruction, data },
                ),
                Err(e) => Err(e),
            }
        },
    }
}

/// The store after a command was dispatched.
pub open spec fn sudo_new_store(
    store: Store,
    msg: SudoMsg,
    assets: Seq<AssetInfo>,
    simulated_amount: u128,
    prev_balance: u128,
) -> Store {
    match msg {
        SudoMsg::SetActive { .. } => store,
        SudoMsg::SwapExactAmountIn { sender, token_in, token_out_denom, token_out_min_amount } => {
            swap_in_new_store(
                store,
                sender,
                token_in,
                token_out_denom,
                token_out_min_amount,
                assets,
                simulated_amount,
                prev_balance,
            )
        },
        SudoMsg::SwapExactAmountOut { sender, token_out, token_in_denom, token_in_max_amount } => {
            swap_out_new_store(
                store,
                sender,
                token_out,
                token_in_max_amount,
                token_in_denom,
                assets,
                simulated_amount,
                prev_balance,
            )
        },
    }
}

/// Routes a command to its swap. `pair_info` is the pool's live composition;
/// `simulated_amount` is the pool's simulated output for the offered coin
/// (exact-amount-in) or its reverse-simulated required input (exact-amount-
/// out); `prev_balance` is the sender's balance in the ask denom (exact-
/// amount-in) or the offer denom (exact-amount-out). The activation toggle
/// is an unimplemented stub out of this adapter's scope, so the host never
/// routes it here.
pub fn sudo(
    store: &mut Store,
    msg: SudoMsg,
    pair_info: &PairInfo,
    simulated_amount: u128,
    prev_balance: u128,
) -> (r: Result<SudoResponse, ContractError>)
    requires
        !(msg is SetActive),
    ensures
        r == sudo_result(*old(store), msg, pair_info.asset_infos@, simulated_amount),
        *final(store) == sudo_new_store(
            *old(store),
            msg,
            pair_info.asset_infos@,
            simulated_amount,
            prev_balance,
        ),
{
    match msg {
        SudoMsg::SetActive { .. } => {
            // ruled out by this function's precondition
            proof {
                assert(false);
            }
            Err(ContractError::PendingAssertionData)
        },
        SudoMsg::SwapExactAmountIn { sender, token_in, token_out_denom, token_out_min_amount } => {
            match swap_exact_amount_in(
                store,
                sender,
                token_in,
                token_out_denom,
                token_out_min_amount,
                pair_info,
                simulated_amount,
                prev_balance,
            ) {
                Ok((instruction, data)) => Ok(SudoResponse::SwapExactAmountIn { instruction, data }),
                Err(e) => Err(e),
            }
        },
        SudoMsg::SwapExactAmountOut { sender, token_out, token_in_denom, token_in_max_amount } => {
            match swap_exact_amount_out(
                store,
                sender,
                token_out,
                token_in_max_amount,
                token_in_denom,
                pair_info,
                simulated_amount,
                prev_balance,
            ) {
                Ok((instruction, data)) => Ok(
                    SudoResponse::SwapExactAmountOut { instruction, data },
                ),
                Err(e) => Err(e),
            }
        },
    }
}

/// Answers a query. `pair_info` is the pool's live composition, `assets`
/// its live reserve list, `pool_fees` its fee composition, and
/// `simulated_amount` the pool's (reverse) simulation answer for the quoted
/// coin; the host fetches whichever of them the query needs. The activity
/// query is unimplemented by design — callers are directed to the underlying
/// pool's configuration — so the host never routes it here.
pub fn query(
    store: &Store,
    msg: QueryMsg,
    pair_info: &PairInfo,
    assets: &Vec<Asset>,
    pool_fees: &PoolFee,
    simulated_amount: u128,
) -> (r: Result<QueryResponse, ContractError>)
    requires
        !(msg is IsActive),
        msg matches QueryMsg::SpotPrice { quote_asset_denom, base_asset_denom } ==> spot_price_defined(
            assets@,
            quote_asset_denom@,
            base_asset_denom@,
        ),
    ensures
        msg is GetSwapFee ==> r == (match get_swap_fee_result(*pool_fees) {
            Ok(resp) => Ok::<QueryResponse, ContractError>(QueryResponse::SwapFee(resp)),
            Err(e) => Err(e),
        }),
        msg is GetTotalPoolLiquidity && all_native(assets@) ==> (r matches Ok(
            QueryResponse::TotalPoolLiquidity(resp),
        ) && resp.total_pool_liquidity@ == native_coins(assets@)),
        msg is GetTotalPoolLiquidity && !all_native(assets@) ==> r == Err::<
            QueryResponse,
            ContractError,
        >(ContractError::UnsupportedAssetKind),
        msg matches QueryMsg::SpotPrice { quote_asset_denom, base_asset_denom } ==> r == (
        match spot_price_result(assets@, quote_asset_denom, base_asset_denom) {
            Ok(resp) => Ok::<QueryResponse, ContractError>(QueryResponse::SpotPrice(resp)),
            Err(e) => Err(e),
        }),
        msg matches QueryMsg::CalcOutAmtGivenIn { token_in, token_out_denom } ==> r == (
        match calc_out_result(pair_info.asset_infos@, token_in, token_out_denom, simulated_amount) {
            Ok(resp) => Ok::<QueryResponse, ContractError>(QueryResponse::CalcOutAmtGivenIn(resp)),
            Err(e) => Err(e),
        }),
        msg matches QueryMsg::CalcInAmtGivenOut { token_out, token_in_denom } ==> r == (
        match calc_in_result(pair_info.asset_infos@, token_out, token_in_denom, simulated_amount) {
            Ok(resp) => Ok::<QueryResponse, ContractError>(QueryResponse::CalcInAmtGivenOut(resp)),
            Err(e) => Err(e),
        }),
        msg is GetConfig ==> r == Ok::<QueryResponse, ContractError>(
            QueryResponse::Config(store.config),
        ),
{
    match msg {
        QueryMsg::GetSwapFee {} => match get_swap_fee(pool_fees) {
            Ok(resp) => Ok(QueryResponse::SwapFee(resp)),
            Err(e) => Err(e),
        },
        QueryMsg::IsActive {} => {
            // ruled out by this function's precondition
            proof {
                assert(false);
            }
            Err(ContractError::PendingAssertionData)
        },
        QueryMsg::GetTotalPoolLiquidity {} => match get_total_pool_liquidity(assets) {
            Ok(resp) => Ok(QueryResponse::TotalPoolLiquidity(resp)),
            Err(e) => Err(e),
        },
        QueryMsg::SpotPrice { quote_asset_denom, base_asset_denom } => {
            match spot_price(assets, quote_asset_denom, base_asset_denom) {
                Ok(resp) => Ok(QueryResponse::SpotPrice(resp)),
                Err(e) => Err(e),
            }
        },
        QueryMsg::CalcOutAmtGivenIn { token_in, token_out_denom } => {
            match calc_out_amt_given_in(pair_info, token_in, token_out_denom, simulated_amount) {
                Ok(resp) => Ok(QueryResponse::CalcOutAmtGivenIn(resp)),
                Err(e) => Err(e),
            }
        },
        QueryMsg::CalcInAmtGivenOut { token_out, token_in_denom } => {
            match calc_in_amt_given_out(pair_info, token_out, token_in_denom, simulated_amount) {
                Ok(resp) => Ok(QueryResponse::CalcInAmtGivenOut(resp)),
                Err(e) => Err(e),
            }
        },
        QueryMsg::GetConfig {} => Ok(QueryResponse::Config(store.config.clone())),
    }
}

/// The migration guard's verdict on two parsed versions: only a strict
/// upgrade in semantic-version precedence passes; otherwise the error
/// carries both versions verbatim, pre-release tags included.
pub open spec fn migrate_outcome(stored: Version, new: Version) -> Result<(), ContractError> {
    if semver_precedes(stored, new) {
        Ok(())
    } else {
        Err(ContractError::MigrateInvalidVersion { new_version: new, current_version: stored })
    }
}

/// Guards a migration: the stored contract name must equal the incoming
/// one, both version strings must parse, and the stored version must
/// strictly precede the incoming one in semantic-version precedence; then
/// the version record is advanced. A parse failure carries the parser's
/// message verbatim; between two releases (no pre-release tag) precedence is
/// the numeric triple's order.
pub fn migrate(store: &mut Store, contract_name: &String, new_version_str: &String) -> (r: Result<
    (),
    ContractError,
>)
    ensures
        old(store).contract_name@ != contract_name@ ==> r == Err::<(), ContractError>(
            ContractError::ContractNameMismatch,
        ) && *final(store) == *old(store),
        old(store).contract_name@ == contract_name@ && parsed_version(new_version_str@) is None
            ==> (r matches Err(ContractError::SemVer(m)) && m@ == semver_error_message(
            new_version_str@,
        )) && *final(store) == *old(store),
        old(store).contract_name@ == contract_name@ && parsed_version(new_version_str@) is Some
            && parsed_version(old(store).contract_version@) is None ==> (r matches Err(
            ContractError::SemVer(m),
        ) && m@ == semver_error_message(old(store).contract_version@)) && *final(store) == *old(
            store,
        ),
        ({
            let nv_opt = parsed_version(new_version_str@);
            let sv_opt = parsed_version(old(store).contract_version@);
            old(store).contract_name@ == contract_name@ && nv_opt is Some && sv_opt is Some ==> {
                let nv = nv_opt->Some_0;
                let sv = sv_opt->Some_0;
                &&& r == migrate_outcome(sv, nv)
                &&& (semver_precedes(sv, nv) ==> *final(store) == Store {
                    contract_version: *new_version_str,
                    ..*old(store)
                })
                &&& (!semver_precedes(sv, nv) ==> *final(store) == *old(store))
                &&& (sv.pre@.len() == 0 && nv.pre@.len() == 0 ==> (r is Ok <==> version_lt(sv, nv)))
                &&& (sv == nv ==> r is Err)
            }
        }),
{
    if store.contract_name != *contract_name {
        return Err(ContractError::ContractNameMismatch);
    }
    let version = match parse_version(new_version_str.as_str()) {
        Ok(v) => v,
        Err(m) => {
            return Err(ContractError::SemVer(m));
        },
    };
    let storage_version = match parse_version(store.contract_version.as_str()) {
        Ok(v) => v,
        Err(m) => {
            return Err(ContractError::SemVer(m));
        },
    };
    if !precedes(&storage_version, &version) {
        return Err(
            ContractError::MigrateInvalidVersion {
                new_version: version,
                current_version: storage_version,
            },
        );
    }
    store.contract_version = new_version_str.clone();
    Ok(())
}

/// Version guard: for any stored and incoming version, migration's
/// comparison succeeds exactly when the stored version strictly precedes
/// the incoming one in semantic-version precedence — never the other way
/// and never for equal precedence — and every rejection's error carries
/// both versions verbatim.
pub proof fn lemma_version_guard(stored: Version, new: Version)
    ensures
        migrate_outcome(stored, new) is Ok <==> semver_precedes(stored, new),
        !semver_precedes(stored, new) ==> migrate_outcome(stored, new) == Err::<(), ContractError>(
            ContractError::MigrateInvalidVersion { new_version: new, current_version: stored },
        ),
{
}

/// What a whole exact-amount-in transaction yields, under the host's
/// all-or-nothing semantics: the dispatch step, then — with the swap's
/// effects reflected in `post_balance` — the balance assertion at the
/// resumption point.
pub open spec fn run_swap_in_result(
    store: Store,
    sender: String,
    token_in: Coin,
    token_out_denom: String,
    token_out_min_amount: u128,
    assets: Seq<AssetInfo>,
    expected_token_out: u128,
    prev_balance: u128,
    post_balance: u128,
) -> Result<SwapExactAmountInResponseData, ContractError> {
    match swap_in_result(
        store,
        sender,
        token_in,
        token_out_denom,
        token_out_min_amount,
        assets,
        expected_token_out,
    ) {
        Err(e) => Err(e),
        Ok((_instruction, data)) => {
            let mid = swap_in_new_store(
                store,
                sender,
                token_in,
                token_out_denom,
                token_out_min_amount,
                assets,
                expected_token_out,
                prev_balance,
            );
            match reply_result(mid, ASSERT_MINIMUM_RECEIVE_REPLY_ID, post_balance) {
                Err(e) => Err(e),
                Ok(_) => Ok(data),
            }
        },
    }
}

/// Runs a whole exact-amount-in swap transaction: dispatch, then the
/// balance assertion once the host reports the beneficiary's post-trade
/// balance. Whatever happens, the store ends as it began — on failure the
/// host's rollback discards everything, and on success the assertion
/// context was consumed — so no dangling context ever remains.
pub fn run_swap_exact_amount_in(
    store: &mut Store,
    sender: String,
    token_in: Coin,
    token_out_denom: String,
    token_out_min_amount: u128,
    pair_info: &PairInfo,
    expected_token_out: u128,
    prev_balance: u128,
    post_balance: u128,
) -> (r: Result<SwapExactAmountInResponseData, ContractError>)
    ensures
        *final(store) == *old(store),
        r == run_swap_in_result(
            *old(store),
            sender,
            token_in,
            token_out_denom,
            token_out_min_amount,
            pair_info.asset_infos@,
            expected_token_out,
            prev_balance,
            post_balance,
        ),
{
    let data = match swap_exact_amount_in(
        store,
        sender,
        token_in,
        token_out_denom,
        token_out_min_amount,
        pair_info,
        expected_token_out,
        prev_balance,
    ) {
        Ok((_instruction, data)) => data,
        Err(e) => {
            return Err(e);
        },
    };
    match reply(store, ASSERT_MINIMUM_RECEIVE_REPLY_ID, post_balance) {
        Ok(_) => Ok(data),
        Err(e) => {
            store.assertion = None;
            Err(e)
        },
    }
}

/// What a whole exact-amount-out transaction yields: the dispatch step with
/// its synchronous upper-bound check, then the post-trade assertion on the
/// sender's offer-denom balance.
pub open spec fn run_swap_out_result(
    store: Store,
    sender: String,
    token_out: Coin,
    token_in_max_amount: u128,
    token_in_denom: String,
    assets: Seq<AssetInfo>,
    expected_token_in: u128,
    prev_balance: u128,
    post_balance: u128,
) -> Result<SwapExactAmountOutResponseData, ContractError> {
    match swap_out_result(
        store,
        sender,
        token_out,
        token_in_max_amount,
        token_in_denom,
        assets,
        expected_token_in,
    ) {
        Err(e) => Err(e),
        Ok((_instruction, data)) => {
            let mid = swap_out_new_store(
                store,
                sender,
                token_out,
                token_in_max_amount,
                token_in_denom,
                assets,
                expected_token_in,
                prev_balance,
            );
            match reply_result(mid, ASSERT_MINIMUM_RECEIVE_REPLY_ID, post_balance) {
                Err(e) => Err(e),
                Ok(_) => Ok(data),
            }
        },
    }
}

/// Runs a whole exact-amount-out swap transaction: dispatch with the
/// fail-fast upper-bound check, then the post-trade assertion once the host
/// reports the sender's post-trade offer-denom balance. The store ends as
/// it began, whatever the outcome.
pub fn run_swap_exact_amount_out(
    store: &mut Store,
    sender: String,
    token_out: Coin,
    token_in_max_amount: u128,
    token_in_denom: String,
    pair_info: &PairInfo,
    expected_token_in: u128,
    prev_balance: u128,
    post_balance: u128,
) -> (r: Result<SwapExactAmountOutResponseData, ContractError>)
    ensures
        *final(store) == *old(store),
        r == run_swap_out_result(
            *old(store),
            sender,
            token_out,
            token_in_max_amount,
            token_in_denom,
            pair_info.asset_infos@,
            expected_token_in,
            prev_balance,
            post_balance,
        ),
{
    let data = match swap_exact_amount_out(
        store,
        sender,
        token_out,
        token_in_max_amount,
        token_in_denom,
        pair_info,
        expected_token_in,
        prev_balance,
    ) {
        Ok((_instruction, data)) => data,
        Err(e) => {
            return Err(e);
        },
    };
    match reply(store, ASSERT_MINIMUM_RECEIVE_REPLY_ID, post_balance) {
        Ok(_) => Ok(data),
        Err(e) => {
            store.assertion = None;
            Err(e)
        },
    }
}

/// Slippage enforcement for exact-amount-in swaps: against a pool that
/// realizes exactly its simulated output, a transaction whose minimum
/// exceeds the simulated output aborts with that bound and the realized
/// amount, and one whose minimum is met succeeds with the simulated output
/// as its response.
pub proof fn lemma_slippage_enforcement_amount_in(
    store: Store,
    sender: String,
    token_in: Coin,
    token_out_denom: String,
    token_out_min_amount: u128,
    assets: Seq<AssetInfo>,
    simulated_out: u128,
    prev_balance: u128,
)
    requires
        store.assertion is None,
        token_in.amount != 0,
        paired_asset_result(token_in, assets, token_out_denom) is Ok,
        prev_balance + simulated_out <= u128::MAX,
    ensures
        token_out_min_amount > simulated_out ==> run_swap_in_result(
            store,
            sender,
            token_in,
            token_out_denom,
            token_out_min_amount,
            assets,
            simulated_out,
            prev_balance,
            (prev_balance + simulated_out) as u128,
        ) == Err::<SwapExactAmountInResponseData, ContractError>(
            ContractError::MinimumReceiveAssertion {
                minimum_receive: token_out_min_amount,
                swap_amount: simulated_out,
            },
        ),
        token_out_min_amount <= simulated_out ==> run_swap_in_result(
            store,
            sender,
            token_in,
            token_out_denom,
            token_out_min_amount,
            assets,
            simulated_out,
            prev_balance,
            (prev_balance + simulated_out) as u128,
        ) == Ok::<SwapExactAmountInResponseData, ContractError>(
            SwapExactAmountInResponseData { token_out_amount: simulated_out },
        ),
{
}

/// Slippage enforcement for exact-amount-out swaps: a transaction whose
/// maximum is below the required input aborts before dispatch with both
/// amounts, and one whose maximum covers it — against a pool that debits
/// exactly the required input — succeeds with that input as its response.
pub proof fn lemma_slippage_enforcement_amount_out(
    store: Store,
    sender: String,
    token_out: Coin,
    token_in_max_amount: u128,
    token_in_denom: String,
    assets: Seq<AssetInfo>,
    required_input: u128,
    prev_balance: u128,
)
    requires
        store.assertion is None,
        token_out.amount != 0,
        paired_asset_result(token_out, assets, token_in_denom) is Ok,
        prev_balance >= required_input,
    ensures
        token_in_max_amount < required_input ==> run_swap_out_result(
            store,
            sender,
            token_out,
            token_in_max_amount,
            token_in_denom,
            assets,
            required_input,
            prev_balance,
            (prev_balance - required_input) as u128,
        ) == Err::<SwapExactAmountOutResponseData, ContractError>(
            ContractError::MaximumTokenInAssertion {
                token_in_max_amount: token_in_max_amount,
                token_in_used: required_input,
            },
        ),
        token_in_max_amount >= required_input ==> run_swap_out_result(
            store,
            sender,
            token_out,
            token_in_max_amount,
            token_in_denom,
            assets,
            required_input,
            prev_balance,
            (prev_balance - required_input) as u128,
        ) == Ok::<SwapExactAmountOutResponseData, ContractError>(
            SwapExactAmountOutResponseData { token_in_amount: required_input },
        ),
{
}

} // verus!
