use vstd::prelude::*;

verus! {

use vstd::arithmetic::div_mod::{
    lemma_div_pos_is_pos,
    lemma_hoist_over_denominator,
};
use vstd::arithmetic::mul::{
    lemma_mul_is_commutative,
    lemma_mul_is_distributive_add,
    lemma_mul_nonnegative,
};
use crate::helpers::{mul_div_le, mul_div_precision, LUNA, PRECISION};

#[derive(Debug, Clone, PartialEq, Eq)]
pub enum Error {
    EpochNotElapsed,
    MintAmountTooLarge,
    InvalidConfig { msg: String },
}

/// Supply breakpoints of the expansion-rate table, in smallest-denomination
/// units of the synthetic token.
pub const SUPPLY_TIER_1: u128 = 500_000 * LUNA;

pub const SUPPLY_TIER_2: u128 = 1_000_000 * LUNA;

pub const SUPPLY_TIER_3: u128 = 1_500_000 * LUNA;

pub const SUPPLY_TIER_4: u128 = 2_000_000 * LUNA;

pub const SUPPLY_TIER_5: u128 = 5_000_000 * LUNA;

pub const SUPPLY_TIER_6: u128 = 10_000_000 * LUNA;

pub const SUPPLY_TIER_7: u128 = 20_000_000 * LUNA;

pub const SUPPLY_TIER_8: u128 = 50_000_000 * LUNA;

/// The mintable amount of the next epoch is calculated from the TWAP of the
/// prior one.
#[derive(Debug, Clone, PartialEq, Eq)]
pub struct State {
    pub pair_addr: String,
    pub base_index: u8,
    pub price_cumulative_last: u128,
    pub start_timestamp: u64,
    pub epoch_duration: u64,
    pub base_supply: u128,
    pub max_supply: Option<u128>,
    pub ceil_price: Option<u128>,
    pub max_expansion_rate: Option<u128>,
}

impl State {
    /// The fresh record written at instantiation: epoch zero has not started
    /// and no expansion policy is configured.
    pub open spec fn is_initial(self) -> bool {
        &&& self.pair_addr@.len() == 0
        &&& self.base_index == 0
        &&& self.price_cumulative_last == 0
        &&& self.start_timestamp == 0
        &&& self.epoch_duration == 0
        &&& self.base_supply == 0
        &&& self.max_supply is None
        &&& self.ceil_price is None
        &&& self.max_expansion_rate is None
    }

    pub open spec fn wf(self) -> bool {
        &&& self.base_index <= 1
        &&& (self.max_supply matches Some(m) ==> self.base_supply <= m)
    }

    /// Expansion rate of the tier directly below the first breakpoint that
    /// lies strictly above `supply`; none once the top breakpoint is reached.
    pub open spec fn spec_tier_rate(supply: u128) -> Option<u128> {
        if supply < SUPPLY_TIER_1 {
            Some(450u128)
        } else if supply < SUPPLY_TIER_2 {
            Some(400u128)
        } else if supply < SUPPLY_TIER_3 {
            Some(350u128)
        } else if supply < SUPPLY_TIER_4 {
            Some(300u128)
        } else if supply < SUPPLY_TIER_5 {
            Some(250u128)
        } else if supply < SUPPLY_TIER_6 {
            Some(200u128)
        } else if supply < SUPPLY_TIER_7 {
            Some(150u128)
        } else if supply < SUPPLY_TIER_8 {
            Some(125u128)
        } else {
            None
        }
    }

    /// No expansion without a ceiling price, or while the TWAP sits at or
    /// below it; otherwise the tier rate, raised to at least the configured
    /// `max_expansion_rate` when one is set.
    pub open spec fn spec_expansion_rate(self, supply: u128, twap: u128) -> Option<u128> {
        match self.ceil_price {
            None => None,
            Some(ceil) => if twap <= ceil {
                None
            } else {
                match State::spec_tier_rate(supply) {
                    None => None,
                    Some(rate) => match self.max_expansion_rate {
                        None => Some(rate),
                        Some(cap) => if rate >= cap {
                            Some(rate)
                        } else {
                            Some(cap)
                        },
                    },
                }
            },
        }
    }

    /// The TWAP derived from the cumulative-price delta over the epoch window.
    pub open spec fn epoch_twap(self, price_cumulative: u128, now: u64) -> int {
        (price_cumulative - self.price_cumulative_last) / (now - self.start_timestamp)
    }

    /// The rate applied when the epoch advances: zero when no expansion rate
    /// applies.
    pub open spec fn next_rate(self, token_supply: u128, twap: u128) -> u128 {
        match self.spec_expansion_rate(token_supply, twap) {
            None => 0u128,
            Some(r) => r,
        }
    }

    /// The supply ceiling recorded when the epoch advances.
    pub open spec fn next_max_supply(self, token_supply: u128, twap: u128) -> int {
        token_supply * (self.next_rate(token_supply, twap) + PRECISION) / (PRECISION as int)
    }

    /// The new supply ceiling stays within the machine word.
    pub open spec fn next_fits(self, token_supply: u128, price_cumulative: u128, now: u64) -> bool {
        self.next_max_supply(
            token_supply,
            self.epoch_twap(price_cumulative, now) as u128,
        ) <= u128::MAX
    }

    /// Linear ramp from `base_supply` to the ceiling `m` over the first half
    /// of the epoch, flat at `m` afterwards.
    pub open spec fn interpolated_supply(self, m: u128, now: u64) -> int {
        let elapsed = now - self.start_timestamp;
        let fully = self.epoch_duration as int / 2;
        if elapsed > fully {
            m as int
        } else {
            self.base_supply + (m - self.base_supply) * elapsed / fully
        }
    }

    /// Whether a mint of `mint_amount` on top of `current_supply` would
    /// exceed the ceiling allowed at `now`.
    pub open spec fn mint_blocked(self, current_supply: u128, mint_amount: u128, now: u64) -> bool {
        match self.max_supply {
            None => false,
            Some(m) => current_supply + mint_amount > self.interpolated_supply(m, now),
        }
    }

    fn tier_rate(supply: u128) -> (r: Option<u128>)
        ensures
            r == State::spec_tier_rate(supply),
    {
        if supply < SUPPLY_TIER_1 {
            Some(450)
        } else if supply < SUPPLY_TIER_2 {
            Some(400)
        } else if supply < SUPPLY_TIER_3 {
            Some(350)
        } else if supply < SUPPLY_TIER_4 {
            Some(300)
        } else if supply < SUPPLY_TIER_5 {
            Some(250)
        } else if supply < SUPPLY_TIER_6 {
            Some(200)
        } else if supply < SUPPLY_TIER_7 {
            Some(150)
        } else if supply < SUPPLY_TIER_8 {
            Some(125)
        } else {
            None
        }
    }

    pub fn get_expansion_rate(&self, supply: u128, twap: u128) -> (r: Option<u128>)
        ensures
            r == self.spec_expansion_rate(supply, twap),
    {
        match self.ceil_price {
            None => None,
            Some(ceil) => {
                if twap <= ceil {
                    None
                } else {
                    match State::tier_rate(supply) {
                        None => None,
                        Some(rate) => match self.max_expansion_rate {
                            None => Some(rate),
                            Some(cap) => if rate >= cap {
                                Some(rate)
                            } else {
                                Some(cap)
                            },
                        },
                    }
                }
            },
        }
    }

    /// Advances the epoch window. The very first call only seeds the window
    /// and reports a TWAP of zero without touching the expansion policy;
    /// later calls reset the window, record the supply base, and recompute
    /// the supply ceiling from the expansion rate.
    pub fn next(&mut self, token_supply: u128, price_cumulative: u128, now: u64) -> (twap: u128)
        requires
            old(self).wf(),
            old(self).start_timestamp != 0 ==> now > old(self).start_timestamp,
            old(self).start_timestamp != 0 ==> price_cumulative >= old(self).price_cumulative_last,
            old(self).start_timestamp != 0 ==> old(self).next_fits(
                token_supply,
                price_cumulative,
                now,
            ),
        ensures
            final(self).wf(),
            old(self).start_timestamp == 0 ==> twap == 0,
            old(self).start_timestamp == 0 ==> *final(self) == (State {
                start_timestamp: now,
                price_cumulative_last: price_cumulative,
                ..*old(self)
            }),
            old(self).start_timestamp != 0 ==> twap == old(self).epoch_twap(
                price_cumulative,
                now,
            ),
            old(self).start_timestamp != 0 ==> *final(self) == (State {
                start_timestamp: now,
                price_cumulative_last: price_cumulative,
                base_supply: token_supply,
                max_supply: Some(
                    old(self).next_max_supply(token_supply, twap) as u128,
                ),
                ..*old(self)
            }),
    {
        if self.start_timestamp == 0 {
            self.start_timestamp = now;
            self.price_cumulative_last = price_cumulative;
            return 0;
        }
        let elapsed: u64 = now - self.start_timestamp;
        let twap: u128 = (price_cumulative - self.price_cumulative_last) / (elapsed as u128);
        let rate: u128 = match self.get_expansion_rate(token_supply, twap) {
            Some(r) => r,
            None => 0,
        };
        proof {
            lemma_ratio_split(token_supply as int, rate as int);
            lemma_mul_nonnegative(token_supply as int, rate as int);
            lemma_div_pos_is_pos(token_supply as int * rate as int, PRECISION as int);
        }
        let extra = mul_div_precision(token_supply, rate);
        let max_supply = token_supply + extra;
        self.start_timestamp = now;
        self.price_cumulative_last = price_cumulative;
        self.base_supply = token_supply;
        self.max_supply = Some(max_supply);
        twap
    }

    /// The supply the pool may reach at `now`: none when unconstrained,
    /// otherwise the ramped ceiling.
    pub fn get_allowed_supply(&self, now: u64) -> (r: Option<u128>)
        requires
            self.max_supply is Some ==> self.wf() && now >= self.start_timestamp,
            self.max_supply is Some && self.epoch_duration / 2 == 0 ==> now
                > self.start_timestamp,
        ensures
            r is Some <==> self.max_supply is Some,
            r matches Some(v) ==> self.max_supply matches Some(m) && v
                == self.interpolated_supply(m, now),
    {
        match self.max_supply {
            None => None,
            Some(max_supply) => {
                let elapsed: u64 = now - self.start_timestamp;
                let fully_expanded: u64 = self.epoch_duration / 2;
                if elapsed > fully_expanded {
                    Some(max_supply)
                } else {
                    let ramp = mul_div_le(max_supply - self.base_supply, elapsed, fully_expanded);
                    Some(self.base_supply + ramp)
                }
            },
        }
    }
}

impl Default for State {
    fn default() -> (r: Self)
        ensures
            r.is_initial(),
            r.wf(),
    {
        State {
            pair_addr: String::new(),
            base_index: 0,
            price_cumulative_last: 0,
            start_timestamp: 0,
            epoch_duration: 0,
            base_supply: 0,
            max_supply: None,
            ceil_price: None,
            max_expansion_rate: None,
        }
    }
}

/// `token_supply * (rate + PRECISION) / PRECISION` splits into the supply
/// plus the rate-scaled part, which is how the ceiling is computed without a
/// wide intermediate product.
proof fn lemma_ratio_split(ts: int, rate: int)
    requires
        0 <= ts,
        0 <= rate,
    ensures
        ts * (rate + PRECISION) / (PRECISION as int) == ts + ts * rate / (PRECISION as int),
{
    let p = PRECISION as int;
    lemma_mul_is_distributive_add(ts, rate, p);
    lemma_mul_nonnegative(ts, rate);
    lemma_hoist_over_denominator(ts * rate, ts, PRECISION as nat);
    lemma_mul_is_commutative(ts, p);
}

/// The epoch component: wraps the durable epoch record and enforces the
/// supply-expansion policy.
#[derive(Debug, Clone, PartialEq, Eq)]
pub struct Epoch(pub State);

impl Epoch {
    pub fn new(state: State) -> (r: Self)
        ensures
            r.0 == state,
    {
        Epoch(state)
    }

    pub fn initialize(&mut self)
        ensures
            final(self).0.is_initial(),
            final(self).0.wf(),
    {
        self.0 = State::default();
    }

    /// Rejects a mint that would push the synthetic token's supply above the
    /// ceiling currently allowed; a pool without a ceiling never rejects.
    pub fn assert_mint_amount(&self, current_supply: u128, mint_amount: u128, now: u64) -> (r:
        Result<(), Error>)
        requires
            self.0.max_supply is Some ==> self.0.wf() && now >= self.0.start_timestamp
                && current_supply + mint_amount <= u128::MAX,
            self.0.max_supply is Some && self.0.epoch_duration / 2 == 0 ==> now
                > self.0.start_timestamp,
        ensures
            self.0.mint_blocked(current_supply, mint_amount, now) ==> r == Err::<(), Error>(
                Error::MintAmountTooLarge,
            ),
            !self.0.mint_blocked(current_supply, mint_amount, now) ==> r == Ok::<(), Error>(()),
    {
        match self.0.get_allowed_supply(now) {
            None => Ok(()),
            Some(max_supply) => {
                if current_supply + mint_amount > max_supply {
                    Err(Error::MintAmountTooLarge)
                } else {
                    Ok(())
                }
            },
        }
    }

    /// Advances the epoch once its duration has elapsed, returning the TWAP
    /// computed over the closed window.
    pub fn next_epoch(&mut self, token_supply: u128, price_cumulative: u128, now: u64) -> (r:
        Result<u128, Error>)
        requires
            old(self).0.wf(),
            old(self).0.start_timestamp + old(self).0.epoch_duration <= u64::MAX,
            old(self).0.start_timestamp != 0 && old(self).0.start_timestamp + old(
                self,
            ).0.epoch_duration <= now ==> now > old(self).0.start_timestamp && price_cumulative
                >= old(self).0.price_cumulative_last && old(self).0.next_fits(
                token_supply,
                price_cumulative,
                now,
            ),
        ensures
            final(self).0.wf(),
            old(self).0.start_timestamp + old(self).0.epoch_duration > now ==> r == Err::<
                u128,
                Error,
            >(Error::EpochNotElapsed) && *final(self) == *old(self),
            old(self).0.start_timestamp + old(self).0.epoch_duration <= now && old(
                self,
            ).0.start_timestamp == 0 ==> r == Ok::<u128, Error>(0) && final(self).0 == (State {
                start_timestamp: now,
                price_cumulative_last: price_cumulative,
                ..old(self).0
            }),
            old(self).0.start_timestamp + old(self).0.epoch_duration <= now && old(
                self,
            ).0.start_timestamp != 0 ==> r == Ok::<u128, Error>(
                old(self).0.epoch_twap(price_cumulative, now) as u128,
            ) && final(self).0 == (State {
                start_timestamp: now,
                price_cumulative_last: price_cumulative,
                base_supply: token_supply,
                max_supply: Some(
                    old(self).0.next_max_supply(
                        token_supply,
                        old(self).0.epoch_twap(price_cumulative, now) as u128,
                    ) as u128,
                ),
                ..old(self).0
            }),
    {
        if self.0.start_timestamp + self.0.epoch_duration > now {
            return Err(Error::EpochNotElapsed);
        }
        let twap = self.0.next(token_supply, price_cumulative, now);
        Ok(twap)
    }

    /// Re-points the epoch at a price source; owner gating is the caller's
    /// duty. Resets the window without recomputing the expansion policy.
    pub fn config_oracle(&mut self, pair_addr: String, base_index: u8, cumulative_price: u128, now:
        u64) -> (r: Result<(), Error>)
        requires
            old(self).0.wf(),
        ensures
            final(self).0.wf(),
            base_index > 1 ==> (r matches Err(Error::InvalidConfig { msg }) && msg@
                == "Token index should be 0 or 1"@) && *final(self) == *old(self),
            base_index <= 1 ==> r == Ok::<(), Error>(()) && final(self).0 == (State {
                pair_addr: pair_addr,
                base_index: base_index,
                start_timestamp: now,
                price_cumulative_last: cumulative_price,
                ..old(self).0
            }),
    {
        if base_index > 1 {
            return Err(Error::InvalidConfig { msg: "Token index should be 0 or 1".to_owned() });
        }
        self.0.pair_addr = pair_addr;
        self.0.base_index = base_index;
        self.0.start_timestamp = now;
        self.0.price_cumulative_last = cumulative_price;
        Ok(())
    }

    /// Sets the expansion policy; owner gating is the caller's duty. A
    /// configured ceiling price below one whole unit is rejected.
    pub fn config_epoch(&mut self, epoch_duration: u64, ceil_price: Option<u128>,
        max_expansion_rate: Option<u128>) -> (r: Result<(), Error>)
        requires
            old(self).0.wf(),
        ensures
            final(self).0.wf(),
            (ceil_price matches Some(c) && c < PRECISION) ==> (r matches Err(
                Error::InvalidConfig { msg },
            ) && msg@ == "Ceil price cannot be lower than 1"@) && *final(self) == *old(self),
            (match ceil_price {
                Some(c) => c >= PRECISION,
                None => true,
            }) ==> r == Ok::<(), Error>(()) && final(self).0 == (State {
                ceil_price: ceil_price,
                max_expansion_rate: max_expansion_rate,
                epoch_duration: epoch_duration,
                ..old(self).0
            }),
    {
        let invalid = match ceil_price {
            Some(c) => c < PRECISION,
            None => false,
        };
        if invalid {
            return Err(Error::InvalidConfig { msg: "Ceil price cannot be lower than 1".to_owned() });
        }
        self.0.ceil_price = ceil_price;
        self.0.max_expansion_rate = max_expansion_rate;
        self.0.epoch_duration = epoch_duration;
        Ok(())
    }
}

} // verus!
