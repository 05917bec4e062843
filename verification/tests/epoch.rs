use fantastic_pool::epoch::{Epoch, Error, State};
use fantastic_pool::helpers::Unit;

fn expansion_state(ceil_price: Option<u128>, max_expansion_rate: Option<u128>) -> State {
    let mut state = State::default();
    state.ceil_price = ceil_price;
    state.max_expansion_rate = max_expansion_rate;
    state
}

#[test]
fn first_next_returns_zero_twap_and_sets_no_ceiling() {
    let mut state = State::default();
    let twap = state.next(123_456, 999_999, 789);
    assert_eq!(twap, 0);
    assert_eq!(state.start_timestamp, 789);
    assert_eq!(state.price_cumulative_last, 999_999);
    assert_eq!(state.max_supply, None);
    assert_eq!(state.base_supply, 0);
}

#[test]
fn expansion_rate_absent_without_ceiling_or_below_it() {
    let state = expansion_state(None, None);
    assert_eq!(state.get_expansion_rate(0, 2_000_000), None);
    let state = expansion_state(Some(1_500_000), None);
    assert_eq!(state.get_expansion_rate(0, 1_500_000), None);
    assert_eq!(state.get_expansion_rate(0, 1_500_001), Some(450));
}

#[test]
fn expansion_rate_follows_the_supply_tiers() {
    let state = expansion_state(Some(1_000_000), None);
    let twap = 1_000_001;
    assert_eq!(state.get_expansion_rate(0, twap), Some(450));
    assert_eq!(state.get_expansion_rate(Unit::luna(500_000) - 1, twap), Some(450));
    assert_eq!(state.get_expansion_rate(Unit::luna(500_000), twap), Some(400));
    assert_eq!(state.get_expansion_rate(Unit::luna(1_000_000), twap), Some(350));
    assert_eq!(state.get_expansion_rate(Unit::luna(1_500_000), twap), Some(300));
    assert_eq!(state.get_expansion_rate(Unit::luna(2_000_000), twap), Some(250));
    assert_eq!(state.get_expansion_rate(Unit::luna(5_000_000), twap), Some(200));
    assert_eq!(state.get_expansion_rate(Unit::luna(10_000_000), twap), Some(150));
    assert_eq!(state.get_expansion_rate(Unit::luna(20_000_000), twap), Some(125));
    assert_eq!(state.get_expansion_rate(Unit::luna(50_000_000), twap), None);
}

#[test]
fn expansion_rate_cap_raises_to_at_least_the_cap() {
    // the configured cap is a floor on the returned rate, not a ceiling:
    // max(rate, cap) is preserved from the original formula
    let state = expansion_state(Some(1_000_000), Some(500));
    assert_eq!(state.get_expansion_rate(0, 1_000_001), Some(500));
    let state = expansion_state(Some(1_000_000), Some(100));
    assert_eq!(state.get_expansion_rate(0, 1_000_001), Some(450));
}

#[test]
fn next_recomputes_ceiling_from_expansion_rate() {
    let mut state = expansion_state(Some(1_000_000), None);
    state.start_timestamp = 1_000;
    state.price_cumulative_last = 0;
    let twap = state.next(1_000_000, 2_000_000, 1_001);
    assert_eq!(twap, 2_000_000);
    assert_eq!(state.base_supply, 1_000_000);
    // rate 450: 1_000_000 * 1_000_450 / 1_000_000
    assert_eq!(state.max_supply, Some(1_000_450));
    assert_eq!(state.start_timestamp, 1_001);
    assert_eq!(state.price_cumulative_last, 2_000_000);
}

#[test]
fn next_without_expansion_caps_at_current_supply() {
    let mut state = expansion_state(None, None);
    state.start_timestamp = 1_000;
    state.price_cumulative_last = 500;
    let twap = state.next(777, 1_500, 1_002);
    assert_eq!(twap, 500);
    assert_eq!(state.max_supply, Some(777));
    assert_eq!(state.base_supply, 777);
}

#[test]
fn allowed_supply_ramps_over_the_first_half_of_the_epoch() {
    let mut state = State::default();
    state.start_timestamp = 0;
    state.epoch_duration = 600;
    state.base_supply = 1_000;
    state.max_supply = Some(2_000);
    assert_eq!(state.get_allowed_supply(0), Some(1_000));
    assert_eq!(state.get_allowed_supply(150), Some(1_500));
    assert_eq!(state.get_allowed_supply(300), Some(2_000));
    assert_eq!(state.get_allowed_supply(301), Some(2_000));
    assert_eq!(state.get_allowed_supply(10_000), Some(2_000));
}

#[test]
fn next_ceiling_survives_a_wide_intermediate_product() {
    // a supply of 10^35 times the rate factor exceeds the machine word
    // mid-formula; the quotient is still exact
    let mut state = expansion_state(Some(1_000_000), None);
    state.start_timestamp = 1_000;
    state.price_cumulative_last = 0;
    let supply: u128 = 100_000_000_000_000_000_000_000_000_000_000_000;
    let twap = state.next(supply, 2_000_000, 1_001);
    assert_eq!(twap, 2_000_000);
    // past the top tier no rate applies, so the ceiling equals the supply,
    // and a policy cap does not bring a rate back
    assert_eq!(state.max_supply, Some(supply));
    let capped = expansion_state(Some(1_000_000), Some(450));
    assert_eq!(capped.get_expansion_rate(supply, 2_000_000), None);
}

#[test]
fn next_applies_the_rate_with_a_wide_intermediate_product() {
    // keep the supply below the first tier but big enough that
    // supply * (rate + precision) would overflow the machine word
    let mut state = expansion_state(Some(1_000_000), Some(400_000_000_000_000_000_000_000_000_000_000));
    state.start_timestamp = 1_000;
    state.price_cumulative_last = 0;
    let supply: u128 = 400_000_000_000;
    // the cap is far above the tier rate, so the rate is the cap itself
    let rate: u128 = 400_000_000_000_000_000_000_000_000_000_000;
    let twap = state.next(supply, 2_000_000, 1_001);
    assert_eq!(twap, 2_000_000);
    let expected = supply + supply / 1_000_000 * rate;
    assert_eq!(state.max_supply, Some(expected));
}

#[test]
fn allowed_supply_ramp_survives_a_wide_intermediate_product() {
    let mut state = State::default();
    state.start_timestamp = 0;
    state.epoch_duration = 1_000;
    state.base_supply = 0;
    state.max_supply = Some(1u128 << 100);
    assert_eq!(state.get_allowed_supply(250), Some(1u128 << 99));
    assert_eq!(state.get_allowed_supply(500), Some(1u128 << 100));
}

#[test]
fn allowed_supply_unconstrained_without_a_ceiling() {
    let mut state = State::default();
    state.start_timestamp = 50;
    assert_eq!(state.get_allowed_supply(60), None);
}

#[test]
fn assert_mint_amount_enforces_the_ceiling() {
    let mut state = State::default();
    state.start_timestamp = 0;
    state.epoch_duration = 0;
    state.base_supply = 2_000;
    state.max_supply = Some(2_000);
    let epoch = Epoch::new(state);
    assert_eq!(epoch.assert_mint_amount(1_500, 500, 1), Ok(()));
    assert_eq!(epoch.assert_mint_amount(1_500, 501, 1), Err(Error::MintAmountTooLarge));
}

#[test]
fn assert_mint_amount_unconstrained_always_allows() {
    let epoch = Epoch::new(State::default());
    assert_eq!(epoch.assert_mint_amount(u128::MAX - 7, 7, 0), Ok(()));
}

#[test]
fn next_epoch_waits_for_the_duration() {
    let mut state = State::default();
    state.start_timestamp = 1_000;
    state.epoch_duration = 600;
    state.price_cumulative_last = 0;
    let mut epoch = Epoch::new(state);
    assert_eq!(epoch.next_epoch(10, 5_000, 1_599), Err(Error::EpochNotElapsed));
    assert_eq!(epoch.0.start_timestamp, 1_000);
    let twap = epoch.next_epoch(10, 6_000, 1_600).expect("duration elapsed");
    assert_eq!(twap, 6_000 / 600);
    assert_eq!(epoch.0.start_timestamp, 1_600);
    assert_eq!(epoch.0.base_supply, 10);
}

#[test]
fn config_epoch_rejects_subunit_ceiling_price() {
    let mut epoch = Epoch::new(State::default());
    let err = epoch.config_epoch(600, Some(999_999), None).unwrap_err();
    assert!(matches!(err, Error::InvalidConfig { .. }));
    assert_eq!(epoch.0, State::default());
    epoch.config_epoch(600, Some(1_000_000), Some(42)).expect("whole-unit ceiling");
    assert_eq!(epoch.0.epoch_duration, 600);
    assert_eq!(epoch.0.ceil_price, Some(1_000_000));
    assert_eq!(epoch.0.max_expansion_rate, Some(42));
    epoch.config_epoch(900, None, None).expect("no ceiling is fine");
    assert_eq!(epoch.0.ceil_price, None);
}

#[test]
fn config_oracle_rejects_bad_index_and_reseeds_the_window() {
    let mut epoch = Epoch::new(State::default());
    let err = epoch.config_oracle("pair".to_string(), 2, 123, 456).unwrap_err();
    assert!(matches!(err, Error::InvalidConfig { .. }));
    assert_eq!(epoch.0, State::default());
    epoch.config_oracle("pair".to_string(), 1, 123, 456).expect("valid index");
    assert_eq!(epoch.0.pair_addr, "pair");
    assert_eq!(epoch.0.base_index, 1);
    assert_eq!(epoch.0.start_timestamp, 456);
    assert_eq!(epoch.0.price_cumulative_last, 123);
}
