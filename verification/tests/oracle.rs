use fantastic_pool::oracle::{get_price, update_oracle, PairOracle, PairOracleState};
use fantastic_pool::ContractError;

fn configured_oracle(base_index: u8, twap_period: u64, cumulative: u128, now: u64) -> PairOracle {
    let mut oracle = PairOracle::new(PairOracleState::default());
    oracle
        .config("pair".to_string(), base_index, twap_period, cumulative, now)
        .expect("valid config");
    oracle
}

#[test]
fn initialize_resets_to_defaults() {
    let mut oracle = configured_oracle(1, 300, 77, 1_000);
    oracle.initialize();
    assert_eq!(oracle.0, PairOracleState::default());
    assert_eq!(oracle.0.twap_period, 600);
    assert_eq!(oracle.0.twap, None);
}

#[test]
fn config_rejects_base_index_above_one() {
    let mut oracle = PairOracle::new(PairOracleState::default());
    let before = oracle.0.clone();
    let err = oracle.config("pair".to_string(), 2, 600, 0, 0).unwrap_err();
    assert!(matches!(err, ContractError::Generic { .. }));
    assert_eq!(oracle.0, before);
}

#[test]
fn config_resets_twap_and_window() {
    let mut oracle = configured_oracle(0, 600, 1_000, 500);
    oracle.update_twap(61_000, 1_100).expect("period elapsed");
    assert!(oracle.0.twap.is_some());
    oracle.config("pair2".to_string(), 1, 900, 5_000, 2_000).expect("valid config");
    assert_eq!(oracle.0.pair_addr, "pair2");
    assert_eq!(oracle.0.base_index, 1);
    assert_eq!(oracle.0.twap_period, 900);
    assert_eq!(oracle.0.price_cumulative_last, 5_000);
    assert_eq!(oracle.0.last_update, 2_000);
    assert_eq!(oracle.0.twap, None);
}

#[test]
fn get_twap_before_any_update_is_an_error() {
    let oracle = configured_oracle(0, 600, 1_000, 500);
    assert_eq!(oracle.get_twap().unwrap_err(), ContractError::PriceUnavailableOrOutdated);
}

#[test]
fn update_twap_computes_average_over_window() {
    let mut oracle = configured_oracle(0, 600, 1_000, 1_000);
    oracle.update_twap(61_000, 1_600).expect("period elapsed");
    // (61_000 - 1_000) / (1_600 - 1_000) = 100
    assert_eq!(oracle.0.twap, Some(100));
    assert_eq!(oracle.0.price_cumulative_last, 61_000);
    assert_eq!(oracle.0.last_update, 1_600);
    assert_eq!(oracle.get_twap().unwrap(), (100, 1_600));
}

#[test]
fn update_twap_twice_within_period_fails_the_second_time() {
    let mut oracle = configured_oracle(0, 600, 1_000, 1_000);
    oracle.update_twap(61_000, 1_600).expect("first update after period");
    let before = oracle.0.clone();
    let err = oracle.update_twap(70_000, 1_700).unwrap_err();
    assert_eq!(err, ContractError::TwapPeriodNotElapsed { time: 2_200 });
    assert_eq!(oracle.0, before);
    // after the period elapses the update succeeds and last_update advances
    // by at least the period
    oracle.update_twap(121_000, 2_200).expect("period elapsed again");
    assert_eq!(oracle.0.twap, Some((121_000 - 61_000) / 600));
    assert!(oracle.0.last_update >= before.last_update + before.twap_period);
}

#[test]
fn spot_price_uses_quote_over_base() {
    let oracle0 = configured_oracle(0, 600, 0, 0);
    // base = reserve0 = 2_000_000, quote = reserve1 = 1_000_000
    assert_eq!(oracle0.get_spot_price(2_000_000, 1_000_000), 500_000);
    let oracle1 = configured_oracle(1, 600, 0, 0);
    // base = reserve1 = 1_000_000, quote = reserve0 = 2_000_000
    assert_eq!(oracle1.get_spot_price(2_000_000, 1_000_000), 2_000_000);
}

#[test]
fn get_state_returns_a_faithful_copy() {
    let oracle = configured_oracle(1, 900, 42, 7);
    let state = oracle.get_state();
    assert_eq!(state, oracle.0);
}

#[test]
fn update_oracle_is_best_effort_per_oracle() {
    // the share oracle is ready, the synth oracle is not: only the share
    // oracle advances, and the synth oracle's failure does not block it
    let mut share = configured_oracle(0, 600, 1_000, 1_000);
    let mut synth = configured_oracle(0, 600, 1_000, 1_200);
    update_oracle(&mut share, &mut synth, 61_000, 61_000, 1_600);
    assert_eq!(share.0.twap, Some(100));
    assert_eq!(share.0.last_update, 1_600);
    assert_eq!(synth.0.twap, None);
    assert_eq!(synth.0.last_update, 1_200);
}

#[test]
fn get_price_reports_spots_and_stored_twaps() {
    let mut synth = configured_oracle(0, 600, 1_000, 1_000);
    synth.update_twap(61_000, 1_600).expect("period elapsed");
    let share = configured_oracle(0, 600, 0, 0);
    let r = get_price(&synth, &share, 123, 456);
    assert_eq!(r.synth_spot, 123);
    assert_eq!(r.share_spot, 456);
    assert_eq!(r.synth_twap, Some(100));
    assert_eq!(r.share_twap, None);
}
