//! The balance-assertion engine: resumption with and without a stored
//! context, both bound directions, underflows, the single-slot guard, and
//! the atomicity of a whole failed transaction.

use osmosis_cw_pool::asset::{AssetInfo, Coin, PairInfo};
use osmosis_cw_pool::contract::{instantiate, pending_assertion, reply, run_swap_exact_amount_in,
    sudo, ASSERT_MINIMUM_RECEIVE_REPLY_ID};
use osmosis_cw_pool::error::ContractError;
use osmosis_cw_pool::msg::{SudoMsg, SudoResponse};
use osmosis_cw_pool::state::{AssertionContext, BoundDirection, Store};

fn native(denom: &str) -> AssetInfo {
    AssetInfo::NativeToken {
        denom: denom.to_string(),
    }
}

fn coin(amount: u128, denom: &str) -> Coin {
    Coin {
        denom: denom.to_string(),
        amount,
    }
}

fn pair() -> PairInfo {
    PairInfo {
        asset_infos: vec![native("uosmo"), native("uwhale")],
    }
}

fn store_with_context(prev_balance: u128, bound: u128, direction: BoundDirection) -> Store {
    let mut store = instantiate("pool".to_string(), "name".to_string(), "1.0.0".to_string());
    store.assertion = Some(AssertionContext {
        asset_info: native("uwhale"),
        prev_balance,
        bound,
        receiver: "sender".to_string(),
        direction,
    });
    store
}

#[test]
fn reply_without_context_fails() {
    let mut store = instantiate("pool".to_string(), "name".to_string(), "1.0.0".to_string());
    let err = reply(&mut store, ASSERT_MINIMUM_RECEIVE_REPLY_ID, 100).unwrap_err();
    assert_eq!(err, ContractError::CannotReadAssertionData);
}

#[test]
fn reply_with_unknown_id_fails() {
    let mut store = store_with_context(0, 10, BoundDirection::Minimum);
    let err = reply(&mut store, 7, 100).unwrap_err();
    assert_eq!(err, ContractError::UnknownReplyId { id: 7 });
    // the context is untouched; only a successful assertion consumes it
    assert!(pending_assertion(&store).is_some());
}

#[test]
fn reply_minimum_met_consumes_context() {
    let mut store = store_with_context(50, 10, BoundDirection::Minimum);
    reply(&mut store, ASSERT_MINIMUM_RECEIVE_REPLY_ID, 60).unwrap();
    assert!(pending_assertion(&store).is_none());
}

#[test]
fn reply_minimum_violated_reports_bound_and_delta() {
    let mut store = store_with_context(50, 10, BoundDirection::Minimum);
    let err = reply(&mut store, ASSERT_MINIMUM_RECEIVE_REPLY_ID, 59).unwrap_err();
    assert_eq!(
        err,
        ContractError::MinimumReceiveAssertion {
            minimum_receive: 10,
            swap_amount: 9,
        }
    );
}

#[test]
fn reply_minimum_with_decreased_balance_underflows() {
    let mut store = store_with_context(50, 10, BoundDirection::Minimum);
    let err = reply(&mut store, ASSERT_MINIMUM_RECEIVE_REPLY_ID, 49).unwrap_err();
    assert_eq!(
        err,
        ContractError::OverflowError {
            operand1: 49,
            operand2: 50,
        }
    );
}

#[test]
fn reply_maximum_met_consumes_context() {
    let mut store = store_with_context(100, 30, BoundDirection::Maximum);
    reply(&mut store, ASSERT_MINIMUM_RECEIVE_REPLY_ID, 70).unwrap();
    assert!(pending_assertion(&store).is_none());
}

#[test]
fn reply_maximum_violated_reports_bound_and_delta() {
    let mut store = store_with_context(100, 30, BoundDirection::Maximum);
    let err = reply(&mut store, ASSERT_MINIMUM_RECEIVE_REPLY_ID, 69).unwrap_err();
    assert_eq!(
        err,
        ContractError::MaximumTokenInAssertion {
            token_in_max_amount: 30,
            token_in_used: 31,
        }
    );
}

#[test]
fn reply_maximum_with_increased_balance_underflows() {
    let mut store = store_with_context(100, 30, BoundDirection::Maximum);
    let err = reply(&mut store, ASSERT_MINIMUM_RECEIVE_REPLY_ID, 101).unwrap_err();
    assert_eq!(
        err,
        ContractError::OverflowError {
            operand1: 100,
            operand2: 101,
        }
    );
}

#[test]
fn second_swap_while_pending_is_rejected() {
    let mut store = store_with_context(0, 10, BoundDirection::Minimum);
    let expected = store_with_context(0, 10, BoundDirection::Minimum);
    let err = sudo(
        &mut store,
        SudoMsg::SwapExactAmountIn {
            sender: "sender".to_string(),
            token_in: coin(10_000, "uosmo"),
            token_out_denom: "uwhale".to_string(),
            token_out_min_amount: 1,
        },
        &pair(),
        9_963,
        0,
    )
    .unwrap_err();
    assert_eq!(err, ContractError::PendingAssertionData);
    assert_eq!(store, expected);
}

#[test]
fn dispatch_stores_the_assertion_context() {
    let mut store = instantiate("pool".to_string(), "name".to_string(), "1.0.0".to_string());
    let response = sudo(
        &mut store,
        SudoMsg::SwapExactAmountIn {
            sender: "sender".to_string(),
            token_in: coin(10_000, "uosmo"),
            token_out_denom: "uwhale".to_string(),
            token_out_min_amount: 9_950,
        },
        &pair(),
        9_963,
        1_234,
    )
    .unwrap();
    match response {
        SudoResponse::SwapExactAmountIn { instruction, data } => {
            assert_eq!(instruction.pool_contract, "pool");
            assert_eq!(instruction.offer, coin(10_000, "uosmo"));
            assert_eq!(instruction.recipient, "sender");
            assert_eq!(data.token_out_amount, 9_963);
        }
        other => panic!("unexpected response: {:?}", other),
    }
    assert_eq!(
        pending_assertion(&store),
        &Some(AssertionContext {
            asset_info: native("uwhale"),
            prev_balance: 1_234,
            bound: 9_950,
            receiver: "sender".to_string(),
            direction: BoundDirection::Minimum,
        })
    );
}

#[test]
fn failed_assertion_leaves_no_trace() {
    // however the engine fails, the store is indistinguishable from the
    // pre-call state: no dangling assertion context remains even though the
    // underlying pool already moved its reserves
    let mut store = instantiate("pool".to_string(), "name".to_string(), "1.0.0".to_string());
    let before = instantiate("pool".to_string(), "name".to_string(), "1.0.0".to_string());
    let err = run_swap_exact_amount_in(
        &mut store,
        "sender".to_string(),
        coin(10_000, "uosmo"),
        "uwhale".to_string(),
        10_000,
        &pair(),
        9_963,
        500,
        500 + 9_963,
    )
    .unwrap_err();
    assert_eq!(
        err,
        ContractError::MinimumReceiveAssertion {
            minimum_receive: 10_000,
            swap_amount: 9_963,
        }
    );
    assert_eq!(store, before);
    assert!(pending_assertion(&store).is_none());
}

#[test]
fn successful_transaction_leaves_no_trace() {
    let mut store = instantiate("pool".to_string(), "name".to_string(), "1.0.0".to_string());
    let before = instantiate("pool".to_string(), "name".to_string(), "1.0.0".to_string());
    run_swap_exact_amount_in(
        &mut store,
        "sender".to_string(),
        coin(10_000, "uosmo"),
        "uwhale".to_string(),
        9_950,
        &pair(),
        9_963,
        500,
        500 + 9_963,
    )
    .unwrap();
    assert_eq!(store, before);
}

#[test]
fn dispatch_out_stores_a_maximum_context() {
    let mut store = instantiate("pool".to_string(), "name".to_string(), "1.0.0".to_string());
    let response = sudo(
        &mut store,
        SudoMsg::SwapExactAmountOut {
            sender: "sender".to_string(),
            token_out: coin(10_000, "uwhale"),
            token_in_denom: "uosmo".to_string(),
            token_in_max_amount: 10_100,
        },
        &pair(),
        10_040,
        5_000_000,
    )
    .unwrap();
    match response {
        SudoResponse::SwapExactAmountOut { instruction, data } => {
            // the instruction offers exactly the required input
            assert_eq!(instruction.offer, coin(10_040, "uosmo"));
            assert_eq!(instruction.recipient, "sender");
            assert_eq!(data.token_in_amount, 10_040);
        }
        other => panic!("unexpected response: {:?}", other),
    }
    assert_eq!(
        pending_assertion(&store),
        &Some(AssertionContext {
            asset_info: native("uosmo"),
            prev_balance: 5_000_000,
            bound: 10_100,
            receiver: "sender".to_string(),
            direction: BoundDirection::Maximum,
        })
    );
}
