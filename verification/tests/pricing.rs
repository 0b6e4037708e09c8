//! Spot prices and fee aggregation, held against the real decimal
//! arithmetic of the crates the adapter delegates to.

use osmosis_cw_pool::asset::{Asset, AssetInfo};
use osmosis_cw_pool::decimal::{Decimal, PoolFee, DECIMAL_FRACTIONAL};
use osmosis_cw_pool::error::ContractError;
use osmosis_cw_pool::queries::{get_swap_fee, spot_price};

fn asset(amount: u128, denom: &str) -> Asset {
    Asset {
        info: AssetInfo::NativeToken {
            denom: denom.to_string(),
        },
        amount,
    }
}

fn permille(n: u64) -> Decimal {
    Decimal {
        atomics: cosmwasm_std::Decimal::permille(n).atomics().u128(),
    }
}

#[test]
fn spot_price_is_base_over_quote() {
    let assets = vec![asset(4, "uosmo"), asset(9, "uwhale")];
    // base uwhale over quote uosmo: 9 / 4 = 2.25
    let resp = spot_price(&assets, "uosmo".to_string(), "uwhale".to_string()).unwrap();
    assert_eq!(resp.spot_price.atomics, 9 * DECIMAL_FRACTIONAL / 4);
    assert_eq!(
        resp.spot_price.atomics,
        cosmwasm_std::Decimal::from_ratio(9u128, 4u128).atomics().u128()
    );
}

#[test]
fn spot_price_reports_missing_assets() {
    let assets = vec![asset(4, "uosmo"), asset(9, "uwhale")];
    let err = spot_price(&assets, "usdc".to_string(), "uwhale".to_string()).unwrap_err();
    assert_eq!(
        err,
        ContractError::AssetNotInPool {
            denom: "usdc".to_string()
        }
    );
    let err = spot_price(&assets, "uosmo".to_string(), "usdc".to_string()).unwrap_err();
    assert_eq!(
        err,
        ContractError::AssetNotInPool {
            denom: "usdc".to_string()
        }
    );
}

#[test]
fn fee_aggregation_matches_the_pool_network() {
    let fees = PoolFee {
        protocol_fee: permille(1),
        swap_fee: permille(1),
        burn_fee: permille(0),
        osmosis_fee: permille(1),
    };
    let resp = get_swap_fee(&fees).unwrap();

    // the same composition, aggregated by the pool network's own code
    let ww_fees = white_whale_std::pool_network::pair::PoolFee {
        protocol_fee: white_whale_std::fee::Fee {
            share: cosmwasm_std::Decimal::permille(1),
        },
        swap_fee: white_whale_std::fee::Fee {
            share: cosmwasm_std::Decimal::permille(1),
        },
        burn_fee: white_whale_std::fee::Fee {
            share: cosmwasm_std::Decimal::permille(0),
        },
        osmosis_fee: white_whale_std::fee::Fee {
            share: cosmwasm_std::Decimal::permille(1),
        },
    };
    let expected = ww_fees.aggregate().unwrap();
    assert_eq!(resp.swap_fee.atomics, expected.atomics().u128());
    assert_eq!(resp.swap_fee, permille(3));
}

#[test]
fn fee_aggregation_overflow_is_reported() {
    let fees = PoolFee {
        protocol_fee: Decimal { atomics: u128::MAX },
        swap_fee: Decimal { atomics: 1 },
        burn_fee: Decimal { atomics: 0 },
        osmosis_fee: Decimal { atomics: 0 },
    };
    let err = get_swap_fee(&fees).unwrap_err();
    assert_eq!(
        err,
        ContractError::OverflowError {
            operand1: u128::MAX,
            operand2: 1,
        }
    );
}
