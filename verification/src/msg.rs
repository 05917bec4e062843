use vstd::prelude::*;

verus! {

use crate::oracle::PairOracleState;

/// An amount of a native coin, identified by its denomination.
#[derive(Debug, Clone, PartialEq, Eq)]
pub struct Coin {
    pub denom: String,
    pub amount: u128,
}

/// An amount of a fungible-token contract's token, identified by the
/// contract's address.
#[derive(Debug, Clone, PartialEq, Eq)]
pub struct Cw20Coin {
    pub address: String,
    pub amount: u128,
}

#[derive(Debug, Clone, PartialEq, Eq)]
pub struct MigrateMsg {}

#[derive(Debug, Clone, PartialEq, Eq)]
pub struct InstantiateMsg {
    pub collateral_denom: String,
    pub token_code_id: u64,
    pub synth_symbol: String,
    pub synth_name: String,
    pub share_symbol: String,
    pub share_name: String,
    pub share_max_cap: u128,
}

impl InstantiateMsg {
    /// A zero share-token cap is rejected at instantiation.
    pub fn validate(&self) -> (r: Result<(), crate::error::ContractError>)
        ensures
            self.share_max_cap == 0 <==> r is Err,
            self.share_max_cap == 0 ==> (r matches Err(
                crate::error::ContractError::Generic { msg },
            ) && msg@ == "Share max cap must be greater than zero"@),
    {
        if self.share_max_cap == 0 {
            Err(
                crate::error::ContractError::Generic {
                    msg: "Share max cap must be greater than zero".to_owned(),
                },
            )
        } else {
            Ok(())
        }
    }
}

/// The payload carried inside a fungible-token transfer envelope.
#[derive(Debug, Clone, PartialEq, Eq)]
pub enum Cw20CallbackMsg {
    Redeem { min_collateral_out: u128, min_share_out: u128 },
}

#[derive(Debug, Clone, PartialEq, Eq)]
pub enum QueryMsg {
    GetPoolInfo {},
    GetUserInfo { address: String },
    CalcMint { collateral_amount: u128 },
    CalcRedeem { synth_amount: u128 },
    GetPrice {},
}

/// A downstream instruction emitted by a pool operation; the runtime shim
/// turns each into the corresponding host message after the state change
/// commits.
#[derive(Debug, Clone, PartialEq, Eq)]
pub enum PoolMsg {
    /// Swap `amount` of the collateral denom into the share token through
    /// the external router, crediting this contract.
    SwapCollateralForShare { denom: String, amount: u128 },
    /// Self-call that burns the contract's entire share-token balance at
    /// execution time, not just what the swap bought.
    BurnShare,
    /// Mint `amount` of the synthetic token to `recipient`.
    MintSynth { recipient: String, amount: u128 },
    /// Mint `amount` of the share token to `recipient`.
    MintShare { recipient: String, amount: u128 },
    /// Send `amount` of the collateral denom to `to_address`.
    SendCollateral { to_address: String, denom: String, amount: u128 },
}

#[derive(Debug, Clone, Copy, PartialEq, Eq)]
pub struct CalcMintResult {
    pub synth_out: u128,
    pub buy_share_value: u128,
    pub fee: u128,
}

#[derive(Debug, Clone, Copy, PartialEq, Eq)]
pub struct CalcRedeemResult {
    pub collateral_out: u128,
    pub share_out: u128,
    pub fee: u128,
}

#[derive(Debug, Clone, Copy, PartialEq, Eq)]
pub struct GetPriceResult {
    pub share_spot: u128,
    pub synth_spot: u128,
    pub share_twap: Option<u128>,
    pub synth_twap: Option<u128>,
}

#[derive(Debug, Clone, PartialEq, Eq)]
pub struct OracleInfoResponse {
    pub synth: PairOracleState,
    pub share: PairOracleState,
}

#[derive(Debug, Clone, PartialEq, Eq)]
pub struct PoolInfoResponse {
    pub collateral_denom: String,
    pub synth: String,
    pub share: String,
    pub collateral_ratio: u128,
    pub min_collateral_ratio: u128,
    pub last_refresh_collateral_ratio: u64,
    pub price_band: u128,
    pub collateral_ratio_step: u128,
    pub refresh_collateral_ratio_cooldown: u64,
    /// The contract's collateral balance net of accrued fees and pending
    /// user claims.
    pub collateral_balance: u128,
    pub minting_fee: u128,
    pub redemption_fee: u128,
    pub total_unclaimed_collateral: u128,
    pub total_unclaimed_synth: u128,
    pub total_unclaimed_share: u128,
    pub oracle: OracleInfoResponse,
    pub mint_paused: bool,
    pub redeem_paused: bool,
    pub owner: String,
}

impl PoolInfoResponse {
    /// Assembles the pool-info query response from the pool record, the
    /// contract's collateral balance as read by the caller, the two oracle
    /// records, and the owner address. The reported balance is net of
    /// accrued fees and pending collateral claims, which therefore must not
    /// exceed what the contract holds.
    pub fn build(
        pool: &crate::pool::PoolConfig,
        collateral_balance: u128,
        synth_oracle: &crate::oracle::PairOracle,
        share_oracle: &crate::oracle::PairOracle,
        owner: String,
    ) -> (r: PoolInfoResponse)
        requires
            pool.total_fee + pool.total_unclaimed_collateral <= collateral_balance,
        ensures
            r.collateral_denom == pool.collateral_denom,
            r.synth == pool.synth,
            r.share == pool.share,
            r.collateral_ratio == pool.collateral_ratio,
            r.min_collateral_ratio == pool.min_collateral_ratio,
            r.last_refresh_collateral_ratio == pool.last_refresh_collateral_ratio,
            r.price_band == pool.price_band,
            r.collateral_ratio_step == pool.collateral_ratio_step,
            r.refresh_collateral_ratio_cooldown == pool.refresh_collateral_ratio_cooldown,
            r.collateral_balance == collateral_balance - pool.total_fee
                - pool.total_unclaimed_collateral,
            r.minting_fee == pool.minting_fee,
            r.redemption_fee == pool.redemption_fee,
            r.total_unclaimed_collateral == pool.total_unclaimed_collateral,
            r.total_unclaimed_synth == pool.total_unclaimed_synth,
            r.total_unclaimed_share == pool.total_unclaimed_share,
            r.oracle.synth == synth_oracle.0,
            r.oracle.share == share_oracle.0,
            r.mint_paused == pool.mint_paused,
            r.redeem_paused == pool.redeem_paused,
            r.owner == owner,
    {
        PoolInfoResponse {
            collateral_denom: pool.collateral_denom.clone(),
            collateral_balance: collateral_balance - pool.total_fee
                - pool.total_unclaimed_collateral,
            synth: pool.synth.clone(),
            share: pool.share.clone(),
            collateral_ratio: pool.collateral_ratio,
            last_refresh_collateral_ratio: pool.last_refresh_collateral_ratio,
            collateral_ratio_step: pool.collateral_ratio_step,
            refresh_collateral_ratio_cooldown: pool.refresh_collateral_ratio_cooldown,
            price_band: pool.price_band,
            minting_fee: pool.minting_fee,
            redemption_fee: pool.redemption_fee,
            total_unclaimed_collateral: pool.total_unclaimed_collateral,
            total_unclaimed_synth: pool.total_unclaimed_synth,
            total_unclaimed_share: pool.total_unclaimed_share,
            oracle: OracleInfoResponse {
                share: share_oracle.get_state(),
                synth: synth_oracle.get_state(),
            },
            min_collateral_ratio: pool.min_collateral_ratio,
            mint_paused: pool.mint_paused,
            redeem_paused: pool.redeem_paused,
            owner: owner,
        }
    }
}

} // verus!
