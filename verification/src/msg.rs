//! The adapter's message surface: what the pool manager sends and what the
//! adapter answers, over plain values.

use vstd::prelude::*;

use crate::asset::Coin;
use crate::decimal::Decimal;

verus! {

/// The adapter's configuration: the address of the underlying White Whale
/// pool. Written once at instantiation, read on every operation.
#[derive(Debug, PartialEq, Eq)]
pub struct Config {
    pub white_whale_pool: String,
}

impl Clone for Config {
    fn clone(&self) -> (r: Self)
        ensures
            r == *self,
    {
        Config { white_whale_pool: self.white_whale_pool.clone() }
    }
}

/// The spread bound, in percent, that every outbound trade instruction
/// carries to the underlying pool.
pub const MAX_SPREAD_PERCENT: u64 = 30;

/// The outbound trade instruction for the underlying pool: swap `offer`
/// against the pool at `pool_contract`, crediting the proceeds to
/// `recipient`, with the fixed spread bound. The host serializes this into
/// the pool's own execute message and attaches `offer` as funds.
#[derive(Debug, PartialEq, Eq)]
pub struct SwapInstruction {
    pub pool_contract: String,
    pub offer: Coin,
    pub recipient: String,
    pub max_spread_percent: u64,
}

/// The mutating commands the host forwards to the adapter.
#[derive(Debug, PartialEq, Eq)]
pub enum SudoMsg {
    SetActive { is_active: bool },
    SwapExactAmountIn {
        sender: String,
        token_in: Coin,
        token_out_denom: String,
        token_out_min_amount: u128,
    },
    SwapExactAmountOut {
        sender: String,
        token_out: Coin,
        token_in_denom: String,
        token_in_max_amount: u128,
    },
}

/// The read-only queries the host forwards to the adapter.
#[derive(Debug, PartialEq, Eq)]
pub enum QueryMsg {
    GetSwapFee {},
    IsActive {},
    GetTotalPoolLiquidity {},
    SpotPrice { quote_asset_denom: String, base_asset_denom: String },
    CalcOutAmtGivenIn { token_in: Coin, token_out_denom: String },
    CalcInAmtGivenOut { token_out: Coin, token_in_denom: String },
    GetConfig {},
}

/// The response data of an exact-amount-in swap: the expected output amount,
/// advisory for callers composing further steps; the authoritative check
/// happens at the resumption point.
#[derive(Debug, PartialEq, Eq)]
pub struct SwapExactAmountInResponseData {
    pub token_out_amount: u128,
}

/// The response data of an exact-amount-out swap: the input amount the
/// underlying pool requires.
#[derive(Debug, PartialEq, Eq)]
pub struct SwapExactAmountOutResponseData {
    pub token_in_amount: u128,
}

/// What a swap command yields at dispatch time: the instruction for the
/// underlying pool and the response data for the caller.
#[derive(Debug, PartialEq, Eq)]
pub enum SudoResponse {
    SwapExactAmountIn { instruction: SwapInstruction, data: SwapExactAmountInResponseData },
    SwapExactAmountOut { instruction: SwapInstruction, data: SwapExactAmountOutResponseData },
}

/// The pool's aggregated fee share.
#[derive(Debug, PartialEq, Eq)]
pub struct GetSwapFeeResponse {
    pub swap_fee: Decimal,
}

/// The pool's live reserves, one coin per native asset.
#[derive(Debug, PartialEq, Eq)]
pub struct TotalPoolLiquidityResponse {
    pub total_pool_liquidity: Vec<Coin>,
}

/// The price of the base asset in units of the quote asset.
#[derive(Debug, PartialEq, Eq)]
pub struct SpotPriceResponse {
    pub spot_price: Decimal,
}

/// The expected output for a given input.
#[derive(Debug, PartialEq, Eq)]
pub struct CalcOutAmtGivenInResponse {
    pub token_out: Coin,
}

/// The expected input for a given output.
#[derive(Debug, PartialEq, Eq)]
pub struct CalcInAmtGivenOutResponse {
    pub token_in: Coin,
}

/// Whether the pool accepts trades. The adapter itself never answers this
/// query; callers are directed to the underlying pool's configuration.
#[derive(Debug, PartialEq, Eq)]
pub struct IsActiveResponse {
    pub is_active: bool,
}

/// The answer to a query, one variant per query kind.
#[derive(Debug, PartialEq, Eq)]
pub enum QueryResponse {
    SwapFee(GetSwapFeeResponse),
    TotalPoolLiquidity(TotalPoolLiquidityResponse),
    SpotPrice(SpotPriceResponse),
    CalcOutAmtGivenIn(CalcOutAmtGivenInResponse),
    CalcInAmtGivenOut(CalcInAmtGivenOutResponse),
    Config(Config),
}

} // verus!
