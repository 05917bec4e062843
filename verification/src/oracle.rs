use vstd::prelude::*;

verus! {

use crate::error::ContractError;
use crate::helpers::PRECISION;

/// Durable record of one time-weighted-average-price oracle. Two instances
/// exist, one for the synthetic token's market and one for the share
/// token's market.
#[derive(Debug, Clone, PartialEq, Eq)]
pub struct PairOracleState {
    pub pair_addr: String,
    pub base_index: u8,
    pub price_cumulative_last: u128,
    /// None until the first successful update; reading it then is an error.
    pub twap: Option<u128>,
    pub last_update: u64,
    pub twap_period: u64,
}

impl PairOracleState {
    /// The fresh record written at instantiation: no source configured, no
    /// TWAP yet, default period of 600 seconds.
    pub open spec fn is_initial(self) -> bool {
        &&& self.pair_addr@.len() == 0
        &&& self.base_index == 0
        &&& self.price_cumulative_last == 0
        &&& self.twap is None
        &&& self.last_update == 0
        &&& self.twap_period == 600
    }

    pub open spec fn wf(self) -> bool {
        self.base_index <= 1
    }

    /// The reserve of the configured base leg.
    pub open spec fn spec_base_reserve(self, reserve0: u128, reserve1: u128) -> u128 {
        if self.base_index == 0 {
            reserve0
        } else {
            reserve1
        }
    }

    /// The reserve of the other, quote leg.
    pub open spec fn spec_quote_reserve(self, reserve0: u128, reserve1: u128) -> u128 {
        if self.base_index == 0 {
            reserve1
        } else {
            reserve0
        }
    }

    /// The instantaneous price of the base leg in quote units, scaled by the
    /// fixed-point precision and independent of the TWAP window.
    pub open spec fn spec_spot_price(self, reserve0: u128, reserve1: u128) -> int {
        self.spec_quote_reserve(reserve0, reserve1) * PRECISION / (
        self.spec_base_reserve(reserve0, reserve1) as int)
    }

    /// Computes the spot price from the pair's two reserves, read by the
    /// caller from the swap pair at the configured address.
    pub fn get_spot_price(&self, reserve0: u128, reserve1: u128) -> (r: u128)
        requires
            self.spec_base_reserve(reserve0, reserve1) > 0,
            self.spec_quote_reserve(reserve0, reserve1) * PRECISION <= u128::MAX,
        ensures
            r == self.spec_spot_price(reserve0, reserve1),
    {
        let (base_reserve, quote_reserve) = if self.base_index == 0 {
            (reserve0, reserve1)
        } else {
            (reserve1, reserve0)
        };
        quote_reserve * PRECISION / base_reserve
    }
}

impl Default for PairOracleState {
    fn default() -> (r: Self)
        ensures
            r.is_initial(),
            r.wf(),
    {
        PairOracleState {
            pair_addr: String::new(),
            base_index: 0,
            price_cumulative_last: 0,
            twap: None,
            last_update: 0,
            twap_period: 600,
        }
    }
}

/// How one TWAP update changes the record: nothing before the period has
/// elapsed, otherwise the averaged price over the closed window is stored
/// and the window restarts at `now`.
pub open spec fn twap_updated(
    pre: PairOracleState,
    post: PairOracleState,
    cumulative_price: u128,
    now: u64,
) -> bool {
    if pre.last_update + pre.twap_period > now {
        post == pre
    } else {
        post == (PairOracleState {
            twap: Some(
                ((cumulative_price - pre.price_cumulative_last) / (now - pre.last_update)) as u128,
            ),
            price_cumulative_last: cumulative_price,
            last_update: now,
            ..pre
        })
    }
}

/// The oracle component: wraps one durable TWAP record.
#[derive(Debug, Clone, PartialEq, Eq)]
pub struct PairOracle(pub PairOracleState);

impl PairOracle {
    pub fn new(state: PairOracleState) -> (r: Self)
        ensures
            r.0 == state,
    {
        PairOracle(state)
    }

    pub fn initialize(&mut self)
        ensures
            final(self).0.is_initial(),
            final(self).0.wf(),
    {
        self.0 = PairOracleState::default();
    }

    /// The last computed TWAP and when it was computed; an error while no
    /// update has ever succeeded.
    pub fn get_twap(&self) -> (r: Result<(u128, u64), ContractError>)
        ensures
            self.0.twap is None ==> r == Err::<(u128, u64), ContractError>(
                ContractError::PriceUnavailableOrOutdated,
            ),
            self.0.twap matches Some(t) ==> r == Ok::<(u128, u64), ContractError>(
                (t, self.0.last_update),
            ),
    {
        match self.0.twap {
            None => Err(ContractError::PriceUnavailableOrOutdated),
            Some(t) => Ok((t, self.0.last_update)),
        }
    }

    /// A copy of the stored record.
    pub fn get_state(&self) -> (r: PairOracleState)
        ensures
            r == self.0,
    {
        PairOracleState {
            pair_addr: self.0.pair_addr.clone(),
            base_index: self.0.base_index,
            price_cumulative_last: self.0.price_cumulative_last,
            twap: self.0.twap,
            last_update: self.0.last_update,
            twap_period: self.0.twap_period,
        }
    }

    /// Spot price from the pair's reserves; see `PairOracleState`.
    pub fn get_spot_price(&self, reserve0: u128, reserve1: u128) -> (r: u128)
        requires
            self.0.spec_base_reserve(reserve0, reserve1) > 0,
            self.0.spec_quote_reserve(reserve0, reserve1) * PRECISION <= u128::MAX,
        ensures
            r == self.0.spec_spot_price(reserve0, reserve1),
    {
        self.0.get_spot_price(reserve0, reserve1)
    }

    /// Recalculates the TWAP once the period has elapsed, from the current
    /// cumulative price read by the caller from the swap pair. On success the
    /// update time advances by at least the full period.
    pub fn update_twap(&mut self, cumulative_price: u128, now: u64) -> (r: Result<
        (),
        ContractError,
    >)
        requires
            old(self).0.last_update + old(self).0.twap_period <= u64::MAX,
            old(self).0.last_update + old(self).0.twap_period <= now ==> now > old(
                self,
            ).0.last_update && cumulative_price >= old(self).0.price_cumulative_last,
        ensures
            twap_updated(old(self).0, final(self).0, cumulative_price, now),
            old(self).0.last_update + old(self).0.twap_period > now ==> r == Err::<
                (),
                ContractError,
            >(
                ContractError::TwapPeriodNotElapsed {
                    time: (old(self).0.last_update + old(self).0.twap_period) as u64,
                },
            ),
            old(self).0.last_update + old(self).0.twap_period <= now ==> r == Ok::<
                (),
                ContractError,
            >(()),
            r is Ok ==> final(self).0.last_update >= old(self).0.last_update + old(
                self,
            ).0.twap_period,
    {
        let next_update: u64 = self.0.last_update + self.0.twap_period;
        if next_update > now {
            return Err(ContractError::TwapPeriodNotElapsed { time: next_update });
        }
        let elapsed: u64 = now - self.0.last_update;
        self.0.twap = Some(
            (cumulative_price - self.0.price_cumulative_last) / (elapsed as u128),
        );
        self.0.price_cumulative_last = cumulative_price;
        self.0.last_update = now;
        Ok(())
    }

    /// Re-points the oracle at a pair and restarts its window; owner gating
    /// is the caller's duty. The TWAP is cleared until the next update.
    pub fn config(&mut self, pair_addr: String, base_index: u8, twap_period: u64,
        cumulative_price: u128, now: u64) -> (r: Result<(), ContractError>)
        ensures
            r is Ok ==> final(self).0.wf(),
            base_index > 1 ==> (r matches Err(ContractError::Generic { msg }) && msg@
                == "Token index should be 0 or 1"@) && *final(self) == *old(self),
            base_index <= 1 ==> r == Ok::<(), ContractError>(()) && final(self).0 == (
            PairOracleState {
                pair_addr: pair_addr,
                base_index: base_index,
                last_update: now,
                price_cumulative_last: cumulative_price,
                twap: None,
                twap_period: twap_period,
            }),
    {
        if base_index > 1 {
            return Err(ContractError::Generic { msg: "Token index should be 0 or 1".to_owned() });
        }
        self.0 = PairOracleState {
            pair_addr,
            base_index,
            last_update: now,
            price_cumulative_last: cumulative_price,
            twap: None,
            twap_period,
        };
        Ok(())
    }
}

/// Assembles the price query response: the two spot prices are read by the
/// caller from the pairs' reserves, and each TWAP is reported as stored,
/// absent until an update has computed one.
pub fn get_price(
    synth_oracle: &PairOracle,
    share_oracle: &PairOracle,
    synth_spot: u128,
    share_spot: u128,
) -> (r: crate::msg::GetPriceResult)
    ensures
        r.share_spot == share_spot,
        r.synth_spot == synth_spot,
        r.share_twap == share_oracle.0.twap,
        r.synth_twap == synth_oracle.0.twap,
{
    crate::msg::GetPriceResult {
        share_spot,
        synth_spot,
        share_twap: share_oracle.0.twap,
        synth_twap: synth_oracle.0.twap,
    }
}

/// The periodic oracle refresh: each of the two oracles advances
/// independently, and one oracle not being ready never blocks the other.
/// Mirrors the best-effort orchestration where each failure is ignored.
pub fn update_oracle(
    share_oracle: &mut PairOracle,
    synth_oracle: &mut PairOracle,
    share_cumulative_price: u128,
    synth_cumulative_price: u128,
    now: u64,
)
    requires
        old(share_oracle).0.last_update + old(share_oracle).0.twap_period <= u64::MAX,
        old(synth_oracle).0.last_update + old(synth_oracle).0.twap_period <= u64::MAX,
        old(share_oracle).0.last_update + old(share_oracle).0.twap_period <= now ==> now > old(
            share_oracle,
        ).0.last_update && share_cumulative_price >= old(share_oracle).0.price_cumulative_last,
        old(synth_oracle).0.last_update + old(synth_oracle).0.twap_period <= now ==> now > old(
            synth_oracle,
        ).0.last_update && synth_cumulative_price >= old(synth_oracle).0.price_cumulative_last,
    ensures
        twap_updated(old(share_oracle).0, final(share_oracle).0, share_cumulative_price, now),
        twap_updated(old(synth_oracle).0, final(synth_oracle).0, synth_cumulative_price, now),
{
    let _ = share_oracle.update_twap(share_cumulative_price, now);
    let _ = synth_oracle.update_twap(synth_cumulative_price, now);
}

} // verus!
