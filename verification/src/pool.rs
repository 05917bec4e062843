use vstd::prelude::*;

verus! {

use vstd::seq_lib::*;
use vstd::arithmetic::div_mod::{
    lemma_div_is_ordered,
    lemma_div_pos_is_pos,
    lemma_div_multiples_vanish,
};
use vstd::arithmetic::mul::{
    lemma_mul_by_zero_is_zero,
    lemma_mul_inequality,
    lemma_mul_is_commutative,
    lemma_mul_nonnegative,
};
use crate::epoch::Epoch;
use crate::error::ContractError;
use crate::helpers::{lemma_mul_div_le_self, Unit, PRECISION};
use crate::msg::{CalcMintResult, CalcRedeemResult, Coin, Cw20Coin, PoolMsg};
use crate::oracle::PairOracle;

/// The durable pool record: collateral ratio, fee schedule, pause flags and
/// the pool-wide unclaimed accumulators.
#[derive(Debug, Clone, PartialEq, Eq)]
pub struct PoolConfig {
    /// Denomination of the collateral token.
    pub collateral_denom: String,
    /// Address of the synthetic token; set exactly once after instantiation.
    pub synth: String,
    /// Address of the share token; set exactly once after instantiation.
    pub share: String,
    /// Part of each mint and redemption that is collateral-backed.
    pub collateral_ratio: u128,
    pub min_collateral_ratio: u128,
    pub last_refresh_collateral_ratio: u64,
    pub refresh_collateral_ratio_cooldown: u64,
    pub collateral_ratio_step: u128,
    pub price_band: u128,
    /// Fee charged in collateral terms on each mint.
    pub minting_fee: u128,
    /// Fee charged in synthetic terms on each redemption.
    pub redemption_fee: u128,
    pub total_fee: u128,
    pub total_unclaimed_synth: u128,
    pub total_unclaimed_collateral: u128,
    pub total_unclaimed_share: u128,
    pub mint_paused: bool,
    pub redeem_paused: bool,
}

/// Pending amounts owed to one account, claimable via collect.
#[derive(Debug, Clone, Copy, PartialEq, Eq)]
pub struct UserInfo {
    /// Height of the account's most recent mint or redeem.
    pub last_action_block: u64,
    pub synth_balance: u128,
    pub share_balance: u128,
    pub collateral_balance: u128,
}

impl UserInfo {
    /// The record an account starts with on first interaction.
    pub open spec fn is_initial(self) -> bool {
        &&& self.last_action_block == 0
        &&& self.synth_balance == 0
        &&& self.share_balance == 0
        &&& self.collateral_balance == 0
    }
}

impl Default for UserInfo {
    fn default() -> (r: Self)
        ensures
            r.is_initial(),
    {
        UserInfo { last_action_block: 0, synth_balance: 0, share_balance: 0, collateral_balance: 0 }
    }
}

#[derive(Debug, Clone, Copy, PartialEq, Eq)]
pub struct CollectResult {
    pub collateral_amount: u128,
    pub synth_amount: u128,
    pub share_amount: u128,
}

impl PoolConfig {
    /// Every ratio and fee is a fixed-point fraction of at most 1.0.
    pub open spec fn wf(self) -> bool {
        &&& self.collateral_ratio <= PRECISION
        &&& self.min_collateral_ratio <= PRECISION
        &&& self.minting_fee <= PRECISION
        &&& self.redemption_fee <= PRECISION
        &&& self.price_band <= PRECISION
        &&& self.collateral_ratio_step <= PRECISION
    }

    /// The record written at instantiation.
    pub open spec fn is_initial_config(self, collateral_denom: String) -> bool {
        &&& self.collateral_denom == collateral_denom
        &&& self.synth@.len() == 0
        &&& self.share@.len() == 0
        &&& self.collateral_ratio == PRECISION
        &&& self.min_collateral_ratio == PRECISION
        &&& self.last_refresh_collateral_ratio == 0
        &&& self.refresh_collateral_ratio_cooldown == 600
        &&& self.collateral_ratio_step == 2500
        &&& self.price_band == 5000
        &&& self.minting_fee == 3000
        &&& self.redemption_fee == 5000
        &&& self.total_fee == 0
        &&& self.total_unclaimed_synth == 0
        &&& self.total_unclaimed_collateral == 0
        &&& self.total_unclaimed_share == 0
        &&& !self.mint_paused
        &&& !self.redeem_paused
    }

    /// Uncollateralized part of the collateral input, routed to buying and
    /// burning the share token.
    pub open spec fn spec_buy_share_value(self, amount: u128) -> int {
        amount * (PRECISION - self.collateral_ratio) / (PRECISION as int)
    }

    /// Synthetic tokens owed for the full collateral input, net of the
    /// minting fee and independent of the collateral ratio.
    pub open spec fn spec_synth_out(self, amount: u128) -> int {
        amount * (PRECISION - self.minting_fee) / (PRECISION as int)
    }

    /// Minting fee, charged on the collateral-backed part only.
    pub open spec fn spec_mint_fee(self, amount: u128) -> int {
        amount * self.collateral_ratio * self.minting_fee / (PRECISION as int) / (PRECISION as int)
    }

    /// Collateral owed for a redemption, net of the redemption fee.
    pub open spec fn spec_collateral_out(self, amount: u128) -> int {
        amount * self.collateral_ratio * (PRECISION - self.redemption_fee) / (PRECISION as int) / (
        PRECISION as int)
    }

    /// Redemption fee, charged in synthetic terms.
    pub open spec fn spec_redeem_fee(self, amount: u128) -> int {
        amount * self.redemption_fee / (PRECISION as int)
    }

    /// Share tokens owed for the uncollateralized part of a redemption, at
    /// the given share price.
    pub open spec fn spec_share_out(self, amount: u128, share_price: u128) -> int {
        amount * (PRECISION - self.redemption_fee) * (PRECISION - self.collateral_ratio) / (
        share_price as int) / (PRECISION as int)
    }

    /// Machine-limit bounds under which the mint formulas cannot overflow.
    pub open spec fn calc_mint_fits(self, amount: u128) -> bool {
        &&& amount * (PRECISION - self.collateral_ratio) <= u128::MAX
        &&& amount * (PRECISION - self.minting_fee) <= u128::MAX
        &&& amount * self.collateral_ratio <= u128::MAX
        &&& amount * self.collateral_ratio * self.minting_fee <= u128::MAX
    }

    /// Machine-limit bounds under which the redeem formulas cannot overflow,
    /// including a positive share price for the division.
    pub open spec fn calc_redeem_fits(self, amount: u128, share_price: u128) -> bool {
        &&& share_price > 0
        &&& amount * self.collateral_ratio <= u128::MAX
        &&& amount * self.collateral_ratio * (PRECISION - self.redemption_fee) <= u128::MAX
        &&& amount * self.redemption_fee <= u128::MAX
        &&& amount * (PRECISION - self.redemption_fee) <= u128::MAX
        &&& amount * (PRECISION - self.redemption_fee) * (PRECISION - self.collateral_ratio)
            <= u128::MAX
    }

    /// The collateral ratio after one refresh step driven by the synthetic
    /// token's TWAP: one step down above the peg band, one step up below it,
    /// clamped to `[min_collateral_ratio, PRECISION]`.
    pub open spec fn spec_refreshed_ratio(self, synth_twap: u128) -> int {
        let moved = if synth_twap > PRECISION + self.price_band {
            self.collateral_ratio - self.collateral_ratio_step
        } else if synth_twap < PRECISION - self.price_band {
            self.collateral_ratio + self.collateral_ratio_step
        } else {
            self.collateral_ratio as int
        };
        if moved < self.min_collateral_ratio {
            self.min_collateral_ratio as int
        } else if moved > PRECISION {
            PRECISION as int
        } else {
            moved
        }
    }

    pub fn init(collateral_denom: String) -> (r: Self)
        ensures
            r.is_initial_config(collateral_denom),
            r.wf(),
    {
        PoolConfig {
            collateral_denom,
            synth: String::new(),
            share: String::new(),
            collateral_ratio: Unit::precision(),
            min_collateral_ratio: Unit::precision(),
            last_refresh_collateral_ratio: 0,
            refresh_collateral_ratio_cooldown: 600,
            collateral_ratio_step: 2500,
            price_band: 5000,
            minting_fee: 3000,
            redemption_fee: 5000,
            total_fee: 0,
            total_unclaimed_synth: 0,
            total_unclaimed_collateral: 0,
            total_unclaimed_share: 0,
            mint_paused: false,
            redeem_paused: false,
        }
    }

    pub fn calc_mint(&self, collateral_amount: u128) -> (r: CalcMintResult)
        requires
            self.wf(),
            self.calc_mint_fits(collateral_amount),
        ensures
            r.buy_share_value == self.spec_buy_share_value(collateral_amount),
            r.synth_out == self.spec_synth_out(collateral_amount),
            r.fee == self.spec_mint_fee(collateral_amount),
    {
        let precision = Unit::precision();
        let buy_share_value = collateral_amount * (precision - self.collateral_ratio) / precision;
        let synth_out = collateral_amount * (precision - self.minting_fee) / precision;
        let fee = collateral_amount * self.collateral_ratio * self.minting_fee / precision
            / precision;
        CalcMintResult { synth_out, buy_share_value, fee }
    }

    /// Collateral amount, share amount and fee owed for redeeming
    /// `synth_amount` at the given share price.
    pub fn calc_redeem(&self, synth_amount: u128, share_price: u128) -> (r: CalcRedeemResult)
        requires
            self.wf(),
            self.calc_redeem_fits(synth_amount, share_price),
        ensures
            r.collateral_out == self.spec_collateral_out(synth_amount),
            r.share_out == self.spec_share_out(synth_amount, share_price),
            r.fee == self.spec_redeem_fee(synth_amount),
    {
        let precision = Unit::precision();
        let collateral_out = synth_amount * self.collateral_ratio * (precision
            - self.redemption_fee) / precision / precision;
        let fee = synth_amount * self.redemption_fee / precision;
        let share_out = synth_amount * (precision - self.redemption_fee) * (precision
            - self.collateral_ratio) / share_price / precision;
        CalcRedeemResult { collateral_out, share_out, fee }
    }

    pub fn mint(&mut self, user: &mut UserInfo, block_height: u64, collateral_amount: u128) -> (r:
        CalcMintResult)
        requires
            old(self).wf(),
            old(self).calc_mint_fits(collateral_amount),
            old(self).total_unclaimed_synth + old(self).spec_synth_out(collateral_amount)
                <= u128::MAX,
            old(self).total_fee + old(self).spec_mint_fee(collateral_amount) <= u128::MAX,
            old(user).synth_balance + old(self).spec_synth_out(collateral_amount) <= u128::MAX,
        ensures
            final(self).wf(),
            r.buy_share_value == old(self).spec_buy_share_value(collateral_amount),
            r.synth_out == old(self).spec_synth_out(collateral_amount),
            r.fee == old(self).spec_mint_fee(collateral_amount),
            mint_updates(
                *old(self),
                *old(user),
                *final(self),
                *final(user),
                collateral_amount,
                block_height,
            ),
    {
        let result = self.calc_mint(collateral_amount);
        self.total_unclaimed_synth = self.total_unclaimed_synth + result.synth_out;
        self.total_fee = self.total_fee + result.fee;
        user.last_action_block = block_height;
        user.synth_balance = user.synth_balance + result.synth_out;
        result
    }

    pub fn redeem(&mut self, user: &mut UserInfo, block_height: u64, synth_amount: u128,
        share_price: u128) -> (r: CalcRedeemResult)
        requires
            old(self).wf(),
            old(self).calc_redeem_fits(synth_amount, share_price),
            old(self).total_unclaimed_collateral + old(self).spec_collateral_out(synth_amount)
                <= u128::MAX,
            old(self).total_unclaimed_share + old(self).spec_share_out(synth_amount, share_price)
                <= u128::MAX,
            old(self).total_fee + old(self).spec_redeem_fee(synth_amount) <= u128::MAX,
            old(user).share_balance + old(self).spec_share_out(synth_amount, share_price)
                <= u128::MAX,
            old(user).collateral_balance + old(self).spec_collateral_out(synth_amount)
                <= u128::MAX,
        ensures
            final(self).wf(),
            r.collateral_out == old(self).spec_collateral_out(synth_amount),
            r.share_out == old(self).spec_share_out(synth_amount, share_price),
            r.fee == old(self).spec_redeem_fee(synth_amount),
            redeem_updates(
                *old(self),
                *old(user),
                *final(self),
                *final(user),
                synth_amount,
                share_price,
                block_height,
            ),
    {
        let result = self.calc_redeem(synth_amount, share_price);
        self.total_unclaimed_collateral = self.total_unclaimed_collateral + result.collateral_out;
        self.total_unclaimed_share = self.total_unclaimed_share + result.share_out;
        self.total_fee = self.total_fee + result.fee;
        user.last_action_block = block_height;
        user.share_balance = user.share_balance + result.share_out;
        user.collateral_balance = user.collateral_balance + result.collateral_out;
        result
    }

    /// Zeroes the user's three pending balances and decrements the matching
    /// pool-wide accumulators by the same amounts. The bounds required here
    /// are exactly what the unclaimed-totals invariant guarantees.
    pub fn collect(&mut self, user: &mut UserInfo) -> (r: CollectResult)
        requires
            old(user).synth_balance <= old(self).total_unclaimed_synth,
            old(user).share_balance <= old(self).total_unclaimed_share,
            old(user).collateral_balance <= old(self).total_unclaimed_collateral,
        ensures
            r == (CollectResult {
                collateral_amount: old(user).collateral_balance,
                synth_amount: old(user).synth_balance,
                share_amount: old(user).share_balance,
            }),
            collect_updates(*old(self), *old(user), *final(self), *final(user)),
    {
        let synth_amount = user.synth_balance;
        let share_amount = user.share_balance;
        let collateral_amount = user.collateral_balance;
        self.total_unclaimed_collateral = self.total_unclaimed_collateral - collateral_amount;
        self.total_unclaimed_share = self.total_unclaimed_share - share_amount;
        self.total_unclaimed_synth = self.total_unclaimed_synth - synth_amount;
        user.collateral_balance = 0;
        user.share_balance = 0;
        user.synth_balance = 0;
        CollectResult { collateral_amount, synth_amount, share_amount }
    }

    /// Nudges the collateral ratio by one step toward or away from full
    /// collateralization depending on where the synthetic TWAP sits relative
    /// to the peg band, clamped to `[min_collateral_ratio, PRECISION]`.
    pub fn refresh_collateral_ratio(&mut self, synth_twap: u128)
        requires
            old(self).wf(),
            synth_twap > PRECISION + old(self).price_band ==> old(self).collateral_ratio_step
                <= old(self).collateral_ratio,
        ensures
            final(self).wf(),
            *final(self) == (PoolConfig {
                collateral_ratio: old(self).spec_refreshed_ratio(synth_twap) as u128,
                ..*old(self)
            }),
    {
        let mut collateral_ratio = self.collateral_ratio;
        let target_price = Unit::precision();
        let max_collateral_ratio = Unit::precision();
        if synth_twap > target_price + self.price_band {
            collateral_ratio = collateral_ratio - self.collateral_ratio_step;
        } else if synth_twap < target_price - self.price_band {
            collateral_ratio = collateral_ratio + self.collateral_ratio_step;
        }
        let clamped = if collateral_ratio < self.min_collateral_ratio {
            self.min_collateral_ratio
        } else if collateral_ratio > max_collateral_ratio {
            max_collateral_ratio
        } else {
            collateral_ratio
        };
        self.collateral_ratio = clamped;
    }
}

/// How a mint changes the pool and the acting user: the synthetic output is
/// credited to the user's pending balance and to the pool-wide total, the
/// fee accrues to the pool, and the user's action height is recorded.
pub open spec fn mint_updates(
    pre: PoolConfig,
    pre_user: UserInfo,
    post: PoolConfig,
    post_user: UserInfo,
    amount: u128,
    block_height: u64,
) -> bool {
    &&& post == (PoolConfig {
        total_unclaimed_synth: (pre.total_unclaimed_synth + pre.spec_synth_out(amount)) as u128,
        total_fee: (pre.total_fee + pre.spec_mint_fee(amount)) as u128,
        ..pre
    })
    &&& post_user == (UserInfo {
        last_action_block: block_height,
        synth_balance: (pre_user.synth_balance + pre.spec_synth_out(amount)) as u128,
        ..pre_user
    })
}

/// How a redemption changes the pool and the acting user: collateral and
/// share outputs are credited to the user's pending balances and the
/// pool-wide totals, the fee accrues to the pool, and the user's action
/// height is recorded.
pub open spec fn redeem_updates(
    pre: PoolConfig,
    pre_user: UserInfo,
    post: PoolConfig,
    post_user: UserInfo,
    amount: u128,
    share_price: u128,
    block_height: u64,
) -> bool {
    &&& post == (PoolConfig {
        total_unclaimed_collateral: (pre.total_unclaimed_collateral + pre.spec_collateral_out(
            amount,
        )) as u128,
        total_unclaimed_share: (pre.total_unclaimed_share + pre.spec_share_out(
            amount,
            share_price,
        )) as u128,
        total_fee: (pre.total_fee + pre.spec_redeem_fee(amount)) as u128,
        ..pre
    })
    &&& post_user == (UserInfo {
        last_action_block: block_height,
        share_balance: (pre_user.share_balance + pre.spec_share_out(amount, share_price)) as u128,
        collateral_balance: (pre_user.collateral_balance + pre.spec_collateral_out(
            amount,
        )) as u128,
        ..pre_user
    })
}

/// How a collect changes the pool and the acting user: the user's pending
/// balances drop to zero and the pool-wide totals shrink by the same
/// amounts.
pub open spec fn collect_updates(
    pre: PoolConfig,
    pre_user: UserInfo,
    post: PoolConfig,
    post_user: UserInfo,
) -> bool {
    &&& post == (PoolConfig {
        total_unclaimed_synth: (pre.total_unclaimed_synth - pre_user.synth_balance) as u128,
        total_unclaimed_share: (pre.total_unclaimed_share - pre_user.share_balance) as u128,
        total_unclaimed_collateral: (pre.total_unclaimed_collateral
            - pre_user.collateral_balance) as u128,
        ..pre
    })
    &&& post_user == (UserInfo {
        synth_balance: 0,
        share_balance: 0,
        collateral_balance: 0,
        ..pre_user
    })
}

/// The collateral supplied with a mint call: the amount of the first coin
/// among the attached funds whose denomination matches, zero when none does.
pub open spec fn collateral_in(funds: Seq<Coin>, denom: Seq<char>) -> u128
    decreases funds.len(),
{
    if funds.len() == 0 {
        0
    } else if funds.first().denom@ == denom {
        funds.first().amount
    } else {
        collateral_in(funds.drop_first(), denom)
    }
}

/// The downstream instructions a mint emits: nothing when the mint is fully
/// collateralized, otherwise a swap of the uncollateralized value into the
/// share token followed by the burn-all self-call.
pub open spec fn mint_messages(pool: PoolConfig, buy_share_value: u128) -> Seq<PoolMsg> {
    if buy_share_value == 0 {
        Seq::empty()
    } else {
        seq![
            PoolMsg::SwapCollateralForShare {
                denom: pool.collateral_denom,
                amount: buy_share_value,
            },
            PoolMsg::BurnShare,
        ]
    }
}

/// The downstream instructions a collect emits: one mint or transfer per
/// non-zero pending balance, in the order synth, share, collateral.
pub open spec fn collect_messages(pool: PoolConfig, user: UserInfo, sender: String) -> Seq<
    PoolMsg,
> {
    let synth_part: Seq<PoolMsg> = if user.synth_balance != 0 {
        seq![PoolMsg::MintSynth { recipient: sender, amount: user.synth_balance }]
    } else {
        Seq::empty()
    };
    let share_part: Seq<PoolMsg> = if user.share_balance != 0 {
        seq![PoolMsg::MintShare { recipient: sender, amount: user.share_balance }]
    } else {
        Seq::empty()
    };
    let collateral_part: Seq<PoolMsg> = if user.collateral_balance != 0 {
        seq![
            PoolMsg::SendCollateral {
                to_address: sender,
                denom: pool.collateral_denom,
                amount: user.collateral_balance,
            },
        ]
    } else {
        Seq::empty()
    };
    synth_part + share_part + collateral_part
}

/// Whether a mint call goes through all of its checks.
pub open spec fn mint_accepted(
    pool: PoolConfig,
    epoch_state: crate::epoch::State,
    current_synth_supply: u128,
    funds: Seq<Coin>,
    min_synth_out: u128,
    now: u64,
) -> bool {
    let cin = collateral_in(funds, pool.collateral_denom@);
    let synth_out = pool.spec_synth_out(cin);
    &&& !pool.mint_paused
    &&& cin != 0
    &&& synth_out >= min_synth_out
    &&& !epoch_state.mint_blocked(current_synth_supply, synth_out as u128, now)
}

/// Machine-limit side conditions for a mint call, each required only on the
/// path that reaches the computation it protects.
pub open spec fn mint_fits(
    pool: PoolConfig,
    user: UserInfo,
    epoch_state: crate::epoch::State,
    current_synth_supply: u128,
    funds: Seq<Coin>,
    min_synth_out: u128,
    now: u64,
) -> bool {
    let cin = collateral_in(funds, pool.collateral_denom@);
    let active = !pool.mint_paused && cin != 0;
    let synth_out = pool.spec_synth_out(cin);
    let passes_slippage = active && synth_out >= min_synth_out;
    &&& (active ==> pool.calc_mint_fits(cin))
    &&& (passes_slippage && epoch_state.max_supply is Some ==> epoch_state.wf() && now
        >= epoch_state.start_timestamp && current_synth_supply + synth_out <= u128::MAX)
    &&& (passes_slippage && epoch_state.max_supply is Some && epoch_state.epoch_duration / 2 == 0
        ==> now > epoch_state.start_timestamp)
    &&& (passes_slippage && !epoch_state.mint_blocked(
        current_synth_supply,
        synth_out as u128,
        now,
    ) ==> pool.total_unclaimed_synth + synth_out <= u128::MAX && pool.total_fee
        + pool.spec_mint_fee(cin) <= u128::MAX && user.synth_balance + synth_out <= u128::MAX)
}

/// Whether a redeem call goes through all of its checks.
pub open spec fn redeem_accepted(
    pool: PoolConfig,
    synth_input: Cw20Coin,
    share_price: u128,
    min_collateral_out: u128,
    min_share_out: u128,
) -> bool {
    &&& !pool.redeem_paused
    &&& pool.synth@ == synth_input.address@
    &&& synth_input.amount != 0
    &&& pool.spec_collateral_out(synth_input.amount) >= min_collateral_out
    &&& pool.spec_share_out(synth_input.amount, share_price) >= min_share_out
}

/// Machine-limit side conditions for a redeem call, each required only on
/// the path that reaches the computation it protects.
pub open spec fn redeem_fits(
    pool: PoolConfig,
    user: UserInfo,
    synth_input: Cw20Coin,
    share_price: u128,
    min_collateral_out: u128,
    min_share_out: u128,
) -> bool {
    let amount = synth_input.amount;
    let active = !pool.redeem_paused && pool.synth@ == synth_input.address@ && amount != 0;
    &&& (active ==> pool.calc_redeem_fits(amount, share_price))
    &&& (redeem_accepted(pool, synth_input, share_price, min_collateral_out, min_share_out)
        ==> pool.total_unclaimed_collateral + pool.spec_collateral_out(amount) <= u128::MAX
        && pool.total_unclaimed_share + pool.spec_share_out(amount, share_price) <= u128::MAX
        && pool.total_fee + pool.spec_redeem_fee(amount) <= u128::MAX && user.share_balance
        + pool.spec_share_out(amount, share_price) <= u128::MAX && user.collateral_balance
        + pool.spec_collateral_out(amount) <= u128::MAX)
}

fn find_collateral_in(funds: &Vec<Coin>, denom: &String) -> (r: u128)
    ensures
        r == collateral_in(funds@, denom@),
{
    let n = funds.len();
    let mut i: usize = 0;
    proof {
        assert(funds@.skip(0) =~= funds@);
    }
    while i < n
        invariant
            n == funds@.len(),
            0 <= i <= n,
            collateral_in(funds@, denom@) == collateral_in(funds@.skip(i as int), denom@),
        decreases n - i,
    {
        if funds[i].denom == *denom {
            proof {
                assert(funds@.skip(i as int).first() == funds@[i as int]);
            }
            return funds[i].amount;
        }
        proof {
            assert(funds@.skip(i as int).first() == funds@[i as int]);
            assert(funds@.skip(i as int).drop_first() =~= funds@.skip(i as int + 1));
        }
        i = i + 1;
    }
    proof {
        assert(funds@.skip(n as int) =~= Seq::<Coin>::empty());
    }
    0
}

/// The pool component: policy checks, pricing and accounting for mint,
/// redeem, collect and the collateral-ratio refresh. Owner gating of the
/// admin setters is the caller's duty.
#[derive(Debug, Clone, PartialEq, Eq)]
pub struct Pool {
    pub pool: PoolConfig,
}

impl Pool {
    pub fn new(pool: PoolConfig) -> (r: Pool)
        ensures
            r.pool == pool,
    {
        Pool { pool }
    }

    /// A pool in its instantiation state.
    pub fn initialize(collateral_denom: String) -> (r: Pool)
        ensures
            r.pool.is_initial_config(collateral_denom),
            r.pool.wf(),
    {
        Pool { pool: PoolConfig::init(collateral_denom) }
    }

    fn buy_share_and_burn(pool: &PoolConfig, buy_share_value: u128) -> (msgs: Vec<PoolMsg>)
        ensures
            msgs@ == mint_messages(*pool, buy_share_value),
    {
        let mut messages: Vec<PoolMsg> = Vec::new();
        if buy_share_value > 0 {
            messages.push(
                PoolMsg::SwapCollateralForShare {
                    denom: pool.collateral_denom.clone(),
                    amount: buy_share_value,
                },
            );
            messages.push(PoolMsg::BurnShare);
        }
        proof {
            assert(messages@ =~= mint_messages(*pool, buy_share_value));
        }
        messages
    }

    /// Mints synthetic tokens against the attached collateral funds. Fails
    /// while minting is paused, without matching collateral, on slippage,
    /// or when the epoch's supply ceiling would be exceeded; the whole call
    /// is rejected atomically in every failure case.
    pub fn mint(&mut self, user: &mut UserInfo, epoch: &Epoch, current_synth_supply: u128,
        block_height: u64, now: u64, funds: &Vec<Coin>, min_synth_out: u128) -> (r: Result<
        (CalcMintResult, Vec<PoolMsg>),
        ContractError,
    >)
        requires
            old(self).pool.wf(),
            mint_fits(
                old(self).pool,
                *old(user),
                epoch.0,
                current_synth_supply,
                funds@,
                min_synth_out,
                now,
            ),
        ensures
            final(self).pool.wf(),
            r is Err ==> *final(self) == *old(self) && *final(user) == *old(user),
            r is Ok <==> mint_accepted(
                old(self).pool,
                epoch.0,
                current_synth_supply,
                funds@,
                min_synth_out,
                now,
            ),
            old(self).pool.mint_paused ==> r == Err::<(CalcMintResult, Vec<PoolMsg>),
                ContractError,
            >(ContractError::MintingPaused),
            !old(self).pool.mint_paused && collateral_in(funds@, old(self).pool.collateral_denom@)
                == 0 ==> r == Err::<(CalcMintResult, Vec<PoolMsg>), ContractError>(
                ContractError::MintInvalidCollateralAmount,
            ),
            ({
                let cin = collateral_in(funds@, old(self).pool.collateral_denom@);
                !old(self).pool.mint_paused && cin != 0 && old(self).pool.spec_synth_out(cin)
                    < min_synth_out ==> r == Err::<(CalcMintResult, Vec<PoolMsg>), ContractError>(
                    ContractError::SlippageReached,
                )
            }),
            ({
                let cin = collateral_in(funds@, old(self).pool.collateral_denom@);
                let synth_out = old(self).pool.spec_synth_out(cin);
                !old(self).pool.mint_paused && cin != 0 && synth_out >= min_synth_out
                    && epoch.0.mint_blocked(current_synth_supply, synth_out as u128, now) ==> r
                    == Err::<(CalcMintResult, Vec<PoolMsg>), ContractError>(
                    ContractError::Epoch(crate::epoch::Error::MintAmountTooLarge),
                )
            }),
            ({
                let cin = collateral_in(funds@, old(self).pool.collateral_denom@);
                r matches Ok(p) ==> p.0.synth_out == old(self).pool.spec_synth_out(cin)
                    && p.0.buy_share_value == old(self).pool.spec_buy_share_value(cin) && p.0.fee
                    == old(self).pool.spec_mint_fee(cin) && mint_updates(
                    old(self).pool,
                    *old(user),
                    final(self).pool,
                    *final(user),
                    cin,
                    block_height,
                ) && p.1@ == mint_messages(
                    old(self).pool,
                    old(self).pool.spec_buy_share_value(cin) as u128,
                )
            }),
    {
        if self.pool.mint_paused {
            return Err(ContractError::MintingPaused);
        }
        let collateral_amount = find_collateral_in(funds, &self.pool.collateral_denom);
        if collateral_amount == 0 {
            return Err(ContractError::MintInvalidCollateralAmount);
        }
        let result = self.pool.calc_mint(collateral_amount);
        if result.synth_out < min_synth_out {
            return Err(ContractError::SlippageReached);
        }
        match epoch.assert_mint_amount(current_synth_supply, result.synth_out, now) {
            Err(e) => {
                return Err(ContractError::Epoch(e));
            },
            Ok(()) => {},
        }
        let messages = Pool::buy_share_and_burn(&self.pool, result.buy_share_value);
        let result = self.pool.mint(user, block_height, collateral_amount);
        Ok((result, messages))
    }

    /// Redeems synthetic tokens for pending collateral and share balances at
    /// the share token's current spot price. Fails while redemption is
    /// paused, for a token other than the configured synthetic token, for a
    /// zero amount, or on slippage; the whole call is rejected atomically in
    /// every failure case.
    pub fn redeem(&mut self, user: &mut UserInfo, block_height: u64, synth_input: Cw20Coin,
        share_price: u128, min_collateral_out: u128, min_share_out: u128) -> (r: Result<
        CalcRedeemResult,
        ContractError,
    >)
        requires
            old(self).pool.wf(),
            redeem_fits(
                old(self).pool,
                *old(user),
                synth_input,
                share_price,
                min_collateral_out,
                min_share_out,
            ),
        ensures
            final(self).pool.wf(),
            r is Err ==> *final(self) == *old(self) && *final(user) == *old(user),
            r is Ok <==> redeem_accepted(
                old(self).pool,
                synth_input,
                share_price,
                min_collateral_out,
                min_share_out,
            ),
            old(self).pool.redeem_paused ==> r == Err::<CalcRedeemResult, ContractError>(
                ContractError::RedemptionPaused,
            ),
            !old(self).pool.redeem_paused && old(self).pool.synth@ != synth_input.address@ ==> r
                == Err::<CalcRedeemResult, ContractError>(
                (ContractError::RedeemInvalidSynthInput {
                    want: old(self).pool.synth,
                    send: synth_input.address,
                }),
            ),
            !old(self).pool.redeem_paused && old(self).pool.synth@ == synth_input.address@
                && synth_input.amount == 0 ==> r == Err::<CalcRedeemResult, ContractError>(
                ContractError::RedeemEmptyAmount,
            ),
            !old(self).pool.redeem_paused && old(self).pool.synth@ == synth_input.address@
                && synth_input.amount != 0 && (old(self).pool.spec_collateral_out(
                synth_input.amount,
            ) < min_collateral_out || old(self).pool.spec_share_out(
                synth_input.amount,
                share_price,
            ) < min_share_out) ==> r == Err::<CalcRedeemResult, ContractError>(
                ContractError::SlippageReached,
            ),
            r matches Ok(res) ==> res.collateral_out == old(self).pool.spec_collateral_out(
                synth_input.amount,
            ) && res.share_out == old(self).pool.spec_share_out(synth_input.amount, share_price)
                && res.fee == old(self).pool.spec_redeem_fee(synth_input.amount) && redeem_updates(
                old(self).pool,
                *old(user),
                final(self).pool,
                *final(user),
                synth_input.amount,
                share_price,
                block_height,
            ),
    {
        if self.pool.redeem_paused {
            return Err(ContractError::RedemptionPaused);
        }
        if self.pool.synth != synth_input.address {
            return Err(
                ContractError::RedeemInvalidSynthInput {
                    want: self.pool.synth.clone(),
                    send: synth_input.address,
                },
            );
        }
        let synth_amount = synth_input.amount;
        if synth_amount == 0 {
            return Err(ContractError::RedeemEmptyAmount);
        }
        let result = self.pool.calc_redeem(synth_amount, share_price);
        if result.collateral_out < min_collateral_out || result.share_out < min_share_out {
            return Err(ContractError::SlippageReached);
        }
        let result = self.pool.redeem(user, block_height, synth_amount, share_price);
        Ok(result)
    }

    /// Pays out the caller's pending balances. Fails in the same block as
    /// the caller's last mint or redeem, the flash-loan guard; one block
    /// later it succeeds, zeroes all three pending balances, and emits one
    /// instruction per non-zero balance.
    pub fn collect(&mut self, user: &mut UserInfo, sender: &String, block_height: u64) -> (r:
        Result<(CollectResult, Vec<PoolMsg>), ContractError>)
        requires
            block_height > old(user).last_action_block ==> old(user).synth_balance <= old(
                self,
            ).pool.total_unclaimed_synth && old(user).share_balance <= old(
                self,
            ).pool.total_unclaimed_share && old(user).collateral_balance <= old(
                self,
            ).pool.total_unclaimed_collateral,
        ensures
            block_height <= old(user).last_action_block ==> r == Err::<
                (CollectResult, Vec<PoolMsg>),
                ContractError,
            >(ContractError::CollectTooEarly) && *final(self) == *old(self) && *final(user)
                == *old(user),
            block_height > old(user).last_action_block ==> r is Ok,
            r matches Ok(p) ==> p.0 == (CollectResult {
                collateral_amount: old(user).collateral_balance,
                synth_amount: old(user).synth_balance,
                share_amount: old(user).share_balance,
            }) && collect_updates(old(self).pool, *old(user), final(self).pool, *final(user))
                && p.1@ == collect_messages(old(self).pool, *old(user), *sender),
    {
        if block_height <= user.last_action_block {
            return Err(ContractError::CollectTooEarly);
        }
        let result = self.pool.collect(user);
        let mut messages: Vec<PoolMsg> = Vec::new();
        if result.synth_amount > 0 {
            messages.push(
                PoolMsg::MintSynth { recipient: sender.clone(), amount: result.synth_amount },
            );
        }
        if result.share_amount > 0 {
            messages.push(
                PoolMsg::MintShare { recipient: sender.clone(), amount: result.share_amount },
            );
        }
        if result.collateral_amount > 0 {
            messages.push(
                PoolMsg::SendCollateral {
                    to_address: sender.clone(),
                    denom: self.pool.collateral_denom.clone(),
                    amount: result.collateral_amount,
                },
            );
        }
        proof {
            assert(messages@ =~= collect_messages(old(self).pool, *old(user), *sender));
        }
        Ok((result, messages))
    }

    /// Applies one collateral-ratio refresh step. Fails while the cooldown
    /// has not elapsed, and with a TWAP that is missing or was computed
    /// before the previous refresh, the stale-price guard. Only the ratio
    /// moves: the recorded refresh timestamp is left alone, so both guards
    /// keep measuring against the timestamp the record already holds.
    pub fn refresh_collateral_ratio(&mut self, synth_oracle: &PairOracle, now: u64) -> (r: Result<
        (),
        ContractError,
    >)
        requires
            old(self).pool.wf(),
            old(self).pool.last_refresh_collateral_ratio + old(
                self,
            ).pool.refresh_collateral_ratio_cooldown <= u64::MAX,
            ({
                let pool = old(self).pool;
                now >= pool.last_refresh_collateral_ratio + pool.refresh_collateral_ratio_cooldown
                    && (synth_oracle.0.twap matches Some(t) && synth_oracle.0.last_update
                    >= pool.last_refresh_collateral_ratio && t > PRECISION + pool.price_band)
                    ==> pool.collateral_ratio_step <= pool.collateral_ratio
            }),
        ensures
            final(self).pool.wf(),
            now < old(self).pool.last_refresh_collateral_ratio + old(
                self,
            ).pool.refresh_collateral_ratio_cooldown ==> r == Err::<(), ContractError>(
                ContractError::CollateralRatioRefreshCooldown,
            ) && *final(self) == *old(self),
            now >= old(self).pool.last_refresh_collateral_ratio + old(
                self,
            ).pool.refresh_collateral_ratio_cooldown && synth_oracle.0.twap is None ==> r == Err::<
                (),
                ContractError,
            >(ContractError::PriceUnavailableOrOutdated) && *final(self) == *old(self),
            now >= old(self).pool.last_refresh_collateral_ratio + old(
                self,
            ).pool.refresh_collateral_ratio_cooldown && synth_oracle.0.twap is Some
                && synth_oracle.0.last_update < old(self).pool.last_refresh_collateral_ratio ==> r
                == Err::<(), ContractError>(ContractError::PriceUnavailableOrOutdated)
                && *final(self) == *old(self),
            ({
                let pool = old(self).pool;
                now >= pool.last_refresh_collateral_ratio + pool.refresh_collateral_ratio_cooldown
                    && synth_oracle.0.last_update >= pool.last_refresh_collateral_ratio
                    ==> match synth_oracle.0.twap {
                    Some(t) => r == Ok::<(), ContractError>(()) && final(self).pool == (PoolConfig {
                        collateral_ratio: pool.spec_refreshed_ratio(t) as u128,
                        ..pool
                    }),
                    None => true,
                }
            }),
    {
        let gate = self.pool.last_refresh_collateral_ratio
            + self.pool.refresh_collateral_ratio_cooldown;
        if now < gate {
            return Err(ContractError::CollateralRatioRefreshCooldown);
        }
        let (synth_twap, last_twap_update) = match synth_oracle.get_twap() {
            Ok(pair) => pair,
            Err(e) => {
                return Err(e);
            },
        };
        if last_twap_update < self.pool.last_refresh_collateral_ratio {
            return Err(ContractError::PriceUnavailableOrOutdated);
        }
        self.pool.refresh_collateral_ratio(synth_twap);
        Ok(())
    }

    /// Sets the two fees directly; owner gating is the caller's duty.
    pub fn set_fee(&mut self, minting_fee: u128, redemption_fee: u128)
        requires
            old(self).pool.wf(),
            minting_fee <= PRECISION,
            redemption_fee <= PRECISION,
        ensures
            final(self).pool.wf(),
            final(self).pool == (PoolConfig {
                minting_fee: minting_fee,
                redemption_fee: redemption_fee,
                ..old(self).pool
            }),
    {
        self.pool.minting_fee = minting_fee;
        self.pool.redemption_fee = redemption_fee;
    }

    /// Sets the two independent kill-switches; owner gating is the caller's
    /// duty.
    pub fn toggle(&mut self, mint_paused: bool, redeem_paused: bool)
        requires
            old(self).pool.wf(),
        ensures
            final(self).pool.wf(),
            final(self).pool == (PoolConfig {
                mint_paused: mint_paused,
                redeem_paused: redeem_paused,
                ..old(self).pool
            }),
    {
        self.pool.mint_paused = mint_paused;
        self.pool.redeem_paused = redeem_paused;
    }

    /// Sets the lower clamp of the collateral ratio; owner gating is the
    /// caller's duty.
    pub fn set_min_collateral_ratio(&mut self, value: u128)
        requires
            old(self).pool.wf(),
            value <= PRECISION,
        ensures
            final(self).pool.wf(),
            final(self).pool == (PoolConfig { min_collateral_ratio: value, ..old(self).pool }),
    {
        self.pool.min_collateral_ratio = value;
    }

    /// Binds the synthetic token's address, exactly once.
    pub fn set_synth_address(&mut self, addr: String) -> (r: Result<(), ContractError>)
        ensures
            old(self).pool.synth@.len() != 0 ==> r == Err::<(), ContractError>(
                ContractError::SynthAlreadySet,
            ) && *final(self) == *old(self),
            old(self).pool.synth@.len() == 0 ==> r == Ok::<(), ContractError>(()) && final(self).pool == (PoolConfig { synth: addr, ..old(self).pool }),
    {
        if self.pool.synth.as_str().is_empty() {
            self.pool.synth = addr;
            Ok(())
        } else {
            Err(ContractError::SynthAlreadySet)
        }
    }

    /// Binds the share token's address, exactly once.
    pub fn set_share_address(&mut self, addr: String) -> (r: Result<(), ContractError>)
        ensures
            old(self).pool.share@.len() != 0 ==> r == Err::<(), ContractError>(
                ContractError::ShareAlreadySet,
            ) && *final(self) == *old(self),
            old(self).pool.share@.len() == 0 ==> r == Ok::<(), ContractError>(()) && final(self).pool == (PoolConfig { share: addr, ..old(self).pool }),
    {
        if self.pool.share.as_str().is_empty() {
            self.pool.share = addr;
            Ok(())
        } else {
            Err(ContractError::ShareAlreadySet)
        }
    }
}

// ======== The unclaimed-totals invariant ========
//
// The pool-wide accumulators `total_unclaimed_synth`, `total_unclaimed_share`
// and `total_unclaimed_collateral` always equal the sums of the matching
// per-user pending balances. The lemmas below establish the base state and
// show that every mint, redeem and collect preserves the equality.

pub open spec fn sum_synth_balances(users: Seq<UserInfo>) -> int
    decreases users.len(),
{
    if users.len() == 0 {
        0
    } else {
        users.first().synth_balance + sum_synth_balances(users.drop_first())
    }
}

pub open spec fn sum_share_balances(users: Seq<UserInfo>) -> int
    decreases users.len(),
{
    if users.len() == 0 {
        0
    } else {
        users.first().share_balance + sum_share_balances(users.drop_first())
    }
}

pub open spec fn sum_collateral_balances(users: Seq<UserInfo>) -> int
    decreases users.len(),
{
    if users.len() == 0 {
        0
    } else {
        users.first().collateral_balance + sum_collateral_balances(users.drop_first())
    }
}

/// Each pool-wide unclaimed total equals the sum of the matching pending
/// balances over all user records.
pub open spec fn unclaimed_totals_invariant(pool: PoolConfig, users: Seq<UserInfo>) -> bool {
    &&& pool.total_unclaimed_synth == sum_synth_balances(users)
    &&& pool.total_unclaimed_share == sum_share_balances(users)
    &&& pool.total_unclaimed_collateral == sum_collateral_balances(users)
}

proof fn lemma_sum_balances_update(users: Seq<UserInfo>, i: int, u: UserInfo)
    requires
        0 <= i < users.len(),
    ensures
        sum_synth_balances(users.update(i, u)) == sum_synth_balances(users) - users[
            i
        ].synth_balance + u.synth_balance,
        sum_share_balances(users.update(i, u)) == sum_share_balances(users) - users[
            i
        ].share_balance + u.share_balance,
        sum_collateral_balances(users.update(i, u)) == sum_collateral_balances(users) - users[
            i
        ].collateral_balance + u.collateral_balance,
    decreases users.len(),
{
    let updated = users.update(i, u);
    if i == 0 {
        assert(updated.drop_first() =~= users.drop_first());
    } else {
        lemma_sum_balances_update(users.drop_first(), i - 1, u);
        assert(updated.drop_first() =~= users.drop_first().update(i - 1, u));
        assert(updated.first() == users.first());
    }
}

proof fn lemma_sum_balances_nonneg(users: Seq<UserInfo>)
    ensures
        sum_synth_balances(users) >= 0,
        sum_share_balances(users) >= 0,
        sum_collateral_balances(users) >= 0,
    decreases users.len(),
{
    if users.len() != 0 {
        lemma_sum_balances_nonneg(users.drop_first());
    }
}

proof fn lemma_sum_balances_push(users: Seq<UserInfo>, u: UserInfo)
    ensures
        sum_synth_balances(users.push(u)) == sum_synth_balances(users) + u.synth_balance,
        sum_share_balances(users.push(u)) == sum_share_balances(users) + u.share_balance,
        sum_collateral_balances(users.push(u)) == sum_collateral_balances(users)
            + u.collateral_balance,
    decreases users.len(),
{
    if users.len() == 0 {
        assert(users.push(u).first() == u);
        assert(users.push(u).drop_first() =~= Seq::<UserInfo>::empty());
        assert(sum_synth_balances(Seq::<UserInfo>::empty()) == 0);
        assert(sum_share_balances(Seq::<UserInfo>::empty()) == 0);
        assert(sum_collateral_balances(Seq::<UserInfo>::empty()) == 0);
    } else {
        lemma_sum_balances_push(users.drop_first(), u);
        assert(users.push(u).drop_first() =~= users.drop_first().push(u));
        assert(users.push(u).first() == users.first());
    }
}

/// Law: with the invariant, one user's pending balances never exceed the
/// pool-wide totals, so a collect can never drive a total negative.
pub proof fn lemma_user_within_totals(pool: PoolConfig, users: Seq<UserInfo>, i: int)
    requires
        unclaimed_totals_invariant(pool, users),
        0 <= i < users.len(),
    ensures
        users[i].synth_balance <= pool.total_unclaimed_synth,
        users[i].share_balance <= pool.total_unclaimed_share,
        users[i].collateral_balance <= pool.total_unclaimed_collateral,
{
    lemma_user_within_sums(users, i);
}

proof fn lemma_user_within_sums(users: Seq<UserInfo>, i: int)
    requires
        0 <= i < users.len(),
    ensures
        users[i].synth_balance <= sum_synth_balances(users),
        users[i].share_balance <= sum_share_balances(users),
        users[i].collateral_balance <= sum_collateral_balances(users),
    decreases users.len(),
{
    lemma_sum_balances_nonneg(users.drop_first());
    if i != 0 {
        lemma_user_within_sums(users.drop_first(), i - 1);
    }
}

/// Law: a pool in its instantiation state satisfies the unclaimed-totals
/// invariant over the empty set of user records.
pub proof fn lemma_initial_state_satisfies_invariant(pool: PoolConfig, collateral_denom: String)
    requires
        pool.is_initial_config(collateral_denom),
    ensures
        unclaimed_totals_invariant(pool, Seq::<UserInfo>::empty()),
{
}

/// Law: a lazily created user record starts empty, so adding it leaves every
/// sum, and with it the invariant, unchanged.
pub proof fn lemma_new_user_preserves_invariant(
    pool: PoolConfig,
    users: Seq<UserInfo>,
    u: UserInfo,
)
    requires
        unclaimed_totals_invariant(pool, users),
        u.is_initial(),
    ensures
        unclaimed_totals_invariant(pool, users.push(u)),
{
    lemma_sum_balances_push(users, u);
}

/// Law: a mint credited to user `i` preserves the unclaimed-totals
/// invariant: the synthetic total and that user's pending synthetic balance
/// grow by the same output, and the other sums do not move.
pub proof fn lemma_mint_preserves_invariant(
    pre: PoolConfig,
    post: PoolConfig,
    pre_user: UserInfo,
    post_user: UserInfo,
    users: Seq<UserInfo>,
    i: int,
    amount: u128,
    block_height: u64,
)
    requires
        pre.wf(),
        unclaimed_totals_invariant(pre, users),
        0 <= i < users.len(),
        users[i] == pre_user,
        pre.total_unclaimed_synth + pre.spec_synth_out(amount) <= u128::MAX,
        pre_user.synth_balance + pre.spec_synth_out(amount) <= u128::MAX,
        mint_updates(pre, pre_user, post, post_user, amount, block_height),
    ensures
        unclaimed_totals_invariant(post, users.update(i, post_user)),
{
    lemma_mul_div_le_self(amount as int, PRECISION - pre.minting_fee, PRECISION as int);
    lemma_sum_balances_update(users, i, post_user);
}

/// Law: a redemption credited to user `i` preserves the unclaimed-totals
/// invariant: the share and collateral totals and that user's pending
/// balances grow by the same outputs, and the synthetic sum does not move.
pub proof fn lemma_redeem_preserves_invariant(
    pre: PoolConfig,
    post: PoolConfig,
    pre_user: UserInfo,
    post_user: UserInfo,
    users: Seq<UserInfo>,
    i: int,
    amount: u128,
    share_price: u128,
    block_height: u64,
)
    requires
        pre.wf(),
        share_price >= 1,
        unclaimed_totals_invariant(pre, users),
        0 <= i < users.len(),
        users[i] == pre_user,
        pre.total_unclaimed_share + pre.spec_share_out(amount, share_price) <= u128::MAX,
        pre.total_unclaimed_collateral + pre.spec_collateral_out(amount) <= u128::MAX,
        pre_user.share_balance + pre.spec_share_out(amount, share_price) <= u128::MAX,
        pre_user.collateral_balance + pre.spec_collateral_out(amount) <= u128::MAX,
        redeem_updates(pre, pre_user, post, post_user, amount, share_price, block_height),
    ensures
        unclaimed_totals_invariant(post, users.update(i, post_user)),
{
    lemma_calc_bounds(pre, amount, share_price);
    lemma_sum_balances_update(users, i, post_user);
}

/// Law: a collect for user `i` preserves the unclaimed-totals invariant:
/// the user's pending balances drop to zero and each total shrinks by
/// exactly what that user held.
pub proof fn lemma_collect_preserves_invariant(
    pre: PoolConfig,
    post: PoolConfig,
    pre_user: UserInfo,
    post_user: UserInfo,
    users: Seq<UserInfo>,
    i: int,
)
    requires
        unclaimed_totals_invariant(pre, users),
        0 <= i < users.len(),
        users[i] == pre_user,
        collect_updates(pre, pre_user, post, post_user),
    ensures
        unclaimed_totals_invariant(post, users.update(i, post_user)),
{
    lemma_user_within_sums(users, i);
    lemma_sum_balances_update(users, i, post_user);
}

/// Law: for every well-formed fee and ratio configuration and positive share
/// price, the mint and redeem formulas never underflow: each result lies in
/// `[0, input]` where the formula divides by at least its multiplier, and
/// every fee is nonnegative. A fully collateralized pool routes nothing to
/// the share buy-back.
pub proof fn lemma_calc_bounds(cfg: PoolConfig, amount: u128, share_price: u128)
    requires
        cfg.wf(),
        share_price >= 1,
    ensures
        0 <= cfg.spec_buy_share_value(amount) <= amount,
        0 <= cfg.spec_synth_out(amount) <= amount,
        0 <= cfg.spec_mint_fee(amount) <= amount,
        0 <= cfg.spec_collateral_out(amount) <= amount,
        0 <= cfg.spec_redeem_fee(amount) <= amount,
        0 <= cfg.spec_share_out(amount, share_price),
        cfg.collateral_ratio == PRECISION ==> cfg.spec_buy_share_value(amount) == 0,
{
    let p = PRECISION as int;
    let a = amount as int;
    lemma_mul_div_le_self(a, p - cfg.collateral_ratio, p);
    lemma_mul_div_le_self(a, p - cfg.minting_fee, p);
    lemma_mul_div_le_self(a, cfg.redemption_fee as int, p);
    // mint fee: ((a * cr) * mf) / p / p <= a
    let t = a * cfg.collateral_ratio;
    lemma_mul_nonnegative(a, cfg.collateral_ratio as int);
    lemma_mul_inequality(cfg.collateral_ratio as int, p, a);
    lemma_mul_is_commutative(cfg.collateral_ratio as int, a);
    lemma_mul_is_commutative(p, a);
    assert(t <= a * p);
    lemma_mul_div_le_self(t, cfg.minting_fee as int, p);
    lemma_div_is_ordered(t * cfg.minting_fee / p, t, p);
    lemma_div_is_ordered(t, a * p, p);
    lemma_div_multiples_vanish(a, p);
    lemma_mul_is_commutative(p, a);
    lemma_div_pos_is_pos(t * cfg.minting_fee / p, p);
    // collateral out: ((a * cr) * (p - rf)) / p / p <= a, same shape
    lemma_mul_div_le_self(t, p - cfg.redemption_fee, p);
    lemma_div_is_ordered(t * (p - cfg.redemption_fee) / p, t, p);
    lemma_div_pos_is_pos(t * (p - cfg.redemption_fee) / p, p);
    // share out: nonnegative
    let s = a * (p - cfg.redemption_fee);
    lemma_mul_nonnegative(a, p - cfg.redemption_fee);
    lemma_mul_nonnegative(s, p - cfg.collateral_ratio);
    lemma_div_pos_is_pos(s * (p - cfg.collateral_ratio), share_price as int);
    lemma_div_pos_is_pos(s * (p - cfg.collateral_ratio) / (share_price as int), p);
    if cfg.collateral_ratio == PRECISION {
        lemma_mul_by_zero_is_zero(a);
        assert(a * (p - cfg.collateral_ratio) == 0);
    }
}

} // verus!
