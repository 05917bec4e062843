use fantastic_pool::epoch::{self, Epoch, State};
use fantastic_pool::msg::{Coin, Cw20Coin, PoolMsg, PoolInfoResponse};
use fantastic_pool::oracle::{PairOracle, PairOracleState};
use fantastic_pool::pool::{Pool, UserInfo};
use fantastic_pool::ContractError;

fn test_pool() -> Pool {
    let mut pool = Pool::initialize("uluna".to_string());
    pool.pool.collateral_ratio = 500_000;
    pool.pool.min_collateral_ratio = 0;
    pool
}

fn funds(amount: u128) -> Vec<Coin> {
    vec![Coin { denom: "uluna".to_string(), amount }]
}

fn unconstrained_epoch() -> Epoch {
    Epoch::new(State::default())
}

fn user() -> UserInfo {
    UserInfo::default()
}

#[test]
fn initialize_writes_the_default_config() {
    let pool = Pool::initialize("uluna".to_string()).pool;
    assert_eq!(pool.collateral_denom, "uluna");
    assert_eq!(pool.synth, "");
    assert_eq!(pool.share, "");
    assert_eq!(pool.collateral_ratio, 1_000_000);
    assert_eq!(pool.min_collateral_ratio, 1_000_000);
    assert_eq!(pool.refresh_collateral_ratio_cooldown, 600);
    assert_eq!(pool.collateral_ratio_step, 2_500);
    assert_eq!(pool.price_band, 5_000);
    assert_eq!(pool.minting_fee, 3_000);
    assert_eq!(pool.redemption_fee, 5_000);
    assert_eq!(pool.total_fee, 0);
    assert_eq!(pool.total_unclaimed_synth, 0);
    assert!(!pool.mint_paused);
    assert!(!pool.redeem_paused);
}

#[test]
fn mint_credits_user_and_emits_swap_and_burn() {
    let mut pool = test_pool();
    let mut u = user();
    let (result, messages) = pool
        .mint(&mut u, &unconstrained_epoch(), 0, 7, 1_000, &funds(1_000_000), 0)
        .expect("mint accepted");
    assert_eq!(result.synth_out, 997_000);
    assert_eq!(result.buy_share_value, 500_000);
    assert_eq!(result.fee, 1_500);
    assert_eq!(u.synth_balance, 997_000);
    assert_eq!(u.last_action_block, 7);
    assert_eq!(pool.pool.total_unclaimed_synth, 997_000);
    assert_eq!(pool.pool.total_fee, 1_500);
    assert_eq!(
        messages,
        vec![
            PoolMsg::SwapCollateralForShare { denom: "uluna".to_string(), amount: 500_000 },
            PoolMsg::BurnShare,
        ]
    );
}

#[test]
fn mint_fully_collateralized_emits_no_downstream_messages() {
    let mut pool = Pool::initialize("uluna".to_string());
    let mut u = user();
    let (result, messages) = pool
        .mint(&mut u, &unconstrained_epoch(), 0, 7, 1_000, &funds(1_000_000), 0)
        .expect("mint accepted");
    assert_eq!(result.buy_share_value, 0);
    assert!(messages.is_empty());
}

#[test]
fn mint_fails_while_paused() {
    let mut pool = test_pool();
    pool.toggle(true, false);
    let mut u = user();
    let err = pool
        .mint(&mut u, &unconstrained_epoch(), 0, 7, 1_000, &funds(1_000_000), 0)
        .unwrap_err();
    assert_eq!(err, ContractError::MintingPaused);
    assert_eq!(u, user());
    assert_eq!(pool.pool.total_unclaimed_synth, 0);
}

#[test]
fn mint_without_matching_collateral_fails() {
    let mut pool = test_pool();
    let mut u = user();
    let err = pool
        .mint(&mut u, &unconstrained_epoch(), 0, 7, 1_000, &Vec::new(), 0)
        .unwrap_err();
    assert_eq!(err, ContractError::MintInvalidCollateralAmount);
    let wrong = vec![Coin { denom: "uusd".to_string(), amount: 5 }];
    let err = pool.mint(&mut u, &unconstrained_epoch(), 0, 7, 1_000, &wrong, 0).unwrap_err();
    assert_eq!(err, ContractError::MintInvalidCollateralAmount);
}

#[test]
fn mint_takes_the_first_coin_of_the_matching_denom() {
    let mut pool = test_pool();
    let mut u = user();
    let mixed = vec![
        Coin { denom: "uusd".to_string(), amount: 5 },
        Coin { denom: "uluna".to_string(), amount: 1_000_000 },
        Coin { denom: "uluna".to_string(), amount: 9 },
    ];
    let (result, _) = pool
        .mint(&mut u, &unconstrained_epoch(), 0, 7, 1_000, &mixed, 0)
        .expect("mint accepted");
    assert_eq!(result.synth_out, 997_000);
}

#[test]
fn mint_enforces_slippage() {
    let mut pool = test_pool();
    let mut u = user();
    let err = pool
        .mint(&mut u, &unconstrained_epoch(), 0, 7, 1_000, &funds(1_000_000), 997_001)
        .unwrap_err();
    assert_eq!(err, ContractError::SlippageReached);
    assert_eq!(pool.pool.total_unclaimed_synth, 0);
}

#[test]
fn mint_rejected_atomically_when_epoch_ceiling_hit() {
    let mut state = State::default();
    state.start_timestamp = 0;
    state.epoch_duration = 0;
    state.base_supply = 500_000;
    state.max_supply = Some(500_000);
    let epoch = Epoch::new(state);
    let mut pool = test_pool();
    let mut u = user();
    // current supply 0; synth_out 997_000 exceeds the 500_000 ceiling
    let err = pool.mint(&mut u, &epoch, 0, 7, 1, &funds(1_000_000), 0).unwrap_err();
    assert_eq!(err, ContractError::Epoch(epoch::Error::MintAmountTooLarge));
    assert_eq!(u, user());
    assert_eq!(pool.pool.total_unclaimed_synth, 0);
    assert_eq!(pool.pool.total_fee, 0);
}

fn redeem_pool() -> Pool {
    let mut pool = test_pool();
    pool.set_synth_address("synth_token".to_string()).expect("first bind");
    pool
}

#[test]
fn redeem_credits_pending_balances() {
    let mut pool = redeem_pool();
    let mut u = user();
    let input = Cw20Coin { address: "synth_token".to_string(), amount: 1_000_000 };
    let result = pool.redeem(&mut u, 9, input, 2_000_000, 0, 0).expect("redeem accepted");
    assert_eq!(result.collateral_out, 497_500);
    assert_eq!(result.share_out, 248_750);
    assert_eq!(result.fee, 5_000);
    assert_eq!(u.collateral_balance, 497_500);
    assert_eq!(u.share_balance, 248_750);
    assert_eq!(u.last_action_block, 9);
    assert_eq!(pool.pool.total_unclaimed_collateral, 497_500);
    assert_eq!(pool.pool.total_unclaimed_share, 248_750);
    assert_eq!(pool.pool.total_fee, 5_000);
}

#[test]
fn redeem_fails_while_paused() {
    let mut pool = redeem_pool();
    pool.toggle(false, true);
    let mut u = user();
    let input = Cw20Coin { address: "synth_token".to_string(), amount: 1_000_000 };
    let err = pool.redeem(&mut u, 9, input, 2_000_000, 0, 0).unwrap_err();
    assert_eq!(err, ContractError::RedemptionPaused);
}

#[test]
fn redeem_rejects_a_foreign_token() {
    let mut pool = redeem_pool();
    let mut u = user();
    let input = Cw20Coin { address: "impostor".to_string(), amount: 1_000_000 };
    let err = pool.redeem(&mut u, 9, input, 2_000_000, 0, 0).unwrap_err();
    assert_eq!(
        err,
        ContractError::RedeemInvalidSynthInput {
            want: "synth_token".to_string(),
            send: "impostor".to_string(),
        }
    );
}

#[test]
fn redeem_rejects_a_zero_amount() {
    let mut pool = redeem_pool();
    let mut u = user();
    let input = Cw20Coin { address: "synth_token".to_string(), amount: 0 };
    let err = pool.redeem(&mut u, 9, input, 2_000_000, 0, 0).unwrap_err();
    assert_eq!(err, ContractError::RedeemEmptyAmount);
}

#[test]
fn redeem_enforces_both_slippage_bounds() {
    let mut pool = redeem_pool();
    let mut u = user();
    let input = Cw20Coin { address: "synth_token".to_string(), amount: 1_000_000 };
    let err = pool.redeem(&mut u, 9, input.clone(), 2_000_000, 497_501, 0).unwrap_err();
    assert_eq!(err, ContractError::SlippageReached);
    let err = pool.redeem(&mut u, 9, input, 2_000_000, 0, 248_751).unwrap_err();
    assert_eq!(err, ContractError::SlippageReached);
    assert_eq!(u, user());
}

#[test]
fn collect_in_the_same_block_fails_and_later_succeeds() {
    let mut pool = test_pool();
    let mut u = user();
    pool.mint(&mut u, &unconstrained_epoch(), 0, 7, 1_000, &funds(1_000_000), 0)
        .expect("mint accepted");
    let sender = "alice".to_string();
    let err = pool.collect(&mut u, &sender, 7).unwrap_err();
    assert_eq!(err, ContractError::CollectTooEarly);
    assert_eq!(u.synth_balance, 997_000);
    let (result, messages) = pool.collect(&mut u, &sender, 8).expect("one block later");
    assert_eq!(result.synth_amount, 997_000);
    assert_eq!(result.share_amount, 0);
    assert_eq!(result.collateral_amount, 0);
    assert_eq!(u.synth_balance, 0);
    assert_eq!(u.share_balance, 0);
    assert_eq!(u.collateral_balance, 0);
    assert_eq!(pool.pool.total_unclaimed_synth, 0);
    assert_eq!(
        messages,
        vec![PoolMsg::MintSynth { recipient: "alice".to_string(), amount: 997_000 }]
    );
}

#[test]
fn collect_emits_one_message_per_nonzero_balance() {
    let mut pool = redeem_pool();
    let mut u = user();
    pool.mint(&mut u, &unconstrained_epoch(), 0, 7, 1_000, &funds(1_000_000), 0)
        .expect("mint accepted");
    let input = Cw20Coin { address: "synth_token".to_string(), amount: 1_000_000 };
    pool.redeem(&mut u, 7, input, 2_000_000, 0, 0).expect("redeem accepted");
    let sender = "bob".to_string();
    let (result, messages) = pool.collect(&mut u, &sender, 8).expect("one block later");
    assert_eq!(result.synth_amount, 997_000);
    assert_eq!(result.share_amount, 248_750);
    assert_eq!(result.collateral_amount, 497_500);
    assert_eq!(
        messages,
        vec![
            PoolMsg::MintSynth { recipient: "bob".to_string(), amount: 997_000 },
            PoolMsg::MintShare { recipient: "bob".to_string(), amount: 248_750 },
            PoolMsg::SendCollateral {
                to_address: "bob".to_string(),
                denom: "uluna".to_string(),
                amount: 497_500,
            },
        ]
    );
}

#[test]
fn unclaimed_totals_track_user_sums_through_a_session() {
    // two users minting, redeeming and collecting: after every step each
    // pool-wide total equals the sum of the users' pending balances
    let mut pool = redeem_pool();
    let mut alice = user();
    let mut bob = user();
    let check = |pool: &Pool, alice: &UserInfo, bob: &UserInfo| {
        assert_eq!(
            pool.pool.total_unclaimed_synth,
            alice.synth_balance + bob.synth_balance
        );
        assert_eq!(
            pool.pool.total_unclaimed_share,
            alice.share_balance + bob.share_balance
        );
        assert_eq!(
            pool.pool.total_unclaimed_collateral,
            alice.collateral_balance + bob.collateral_balance
        );
    };
    pool.mint(&mut alice, &unconstrained_epoch(), 0, 1, 10, &funds(1_000_000), 0)
        .expect("mint accepted");
    check(&pool, &alice, &bob);
    pool.mint(&mut bob, &unconstrained_epoch(), 0, 1, 10, &funds(400_000), 0)
        .expect("mint accepted");
    check(&pool, &alice, &bob);
    let input = Cw20Coin { address: "synth_token".to_string(), amount: 200_000 };
    pool.redeem(&mut bob, 2, input, 2_000_000, 0, 0).expect("redeem accepted");
    check(&pool, &alice, &bob);
    pool.collect(&mut alice, &"alice".to_string(), 3).expect("collect");
    check(&pool, &alice, &bob);
    pool.collect(&mut bob, &"bob".to_string(), 3).expect("collect");
    check(&pool, &alice, &bob);
    assert_eq!(pool.pool.total_unclaimed_synth, 0);
    assert_eq!(pool.pool.total_unclaimed_share, 0);
    assert_eq!(pool.pool.total_unclaimed_collateral, 0);
}

fn oracle_with_twap(twap: u128, last_update: u64) -> PairOracle {
    let mut state = PairOracleState::default();
    state.twap = Some(twap);
    state.last_update = last_update;
    PairOracle::new(state)
}

#[test]
fn refresh_collateral_ratio_respects_the_cooldown() {
    let mut pool = test_pool();
    let oracle = oracle_with_twap(1_000_000, 100);
    let err = pool.refresh_collateral_ratio(&oracle, 599).unwrap_err();
    assert_eq!(err, ContractError::CollateralRatioRefreshCooldown);
    assert_eq!(pool.pool.collateral_ratio, 500_000);
}

#[test]
fn refresh_collateral_ratio_needs_a_twap() {
    let mut pool = test_pool();
    let oracle = PairOracle::new(PairOracleState::default());
    let err = pool.refresh_collateral_ratio(&oracle, 600).unwrap_err();
    assert_eq!(err, ContractError::PriceUnavailableOrOutdated);
}

#[test]
fn refresh_collateral_ratio_rejects_a_stale_twap() {
    let mut pool = test_pool();
    pool.pool.last_refresh_collateral_ratio = 1_000;
    let oracle = oracle_with_twap(1_000_000, 999);
    let err = pool.refresh_collateral_ratio(&oracle, 1_600).unwrap_err();
    assert_eq!(err, ContractError::PriceUnavailableOrOutdated);
}

#[test]
fn refresh_collateral_ratio_moves_one_step_by_the_band() {
    // TWAP above the band: one step down
    let mut pool = test_pool();
    pool.refresh_collateral_ratio(&oracle_with_twap(1_005_001, 100), 600).expect("fresh twap");
    assert_eq!(pool.pool.collateral_ratio, 497_500);
    // TWAP below the band: one step up
    let mut pool = test_pool();
    pool.refresh_collateral_ratio(&oracle_with_twap(994_999, 100), 600).expect("fresh twap");
    assert_eq!(pool.pool.collateral_ratio, 502_500);
    // TWAP within the band: unchanged
    let mut pool = test_pool();
    pool.refresh_collateral_ratio(&oracle_with_twap(1_000_000, 100), 600).expect("fresh twap");
    assert_eq!(pool.pool.collateral_ratio, 500_000);
}

#[test]
fn refresh_collateral_ratio_clamps_to_the_bounds() {
    // clamped above at full collateralization
    let mut pool = Pool::initialize("uluna".to_string());
    pool.refresh_collateral_ratio(&oracle_with_twap(994_999, 100), 600).expect("fresh twap");
    assert_eq!(pool.pool.collateral_ratio, 1_000_000);
    // clamped below at the configured minimum
    let mut pool = test_pool();
    pool.set_min_collateral_ratio(500_000);
    pool.refresh_collateral_ratio(&oracle_with_twap(1_005_001, 100), 600).expect("fresh twap");
    assert_eq!(pool.pool.collateral_ratio, 500_000);
}

#[test]
fn set_fee_updates_both_fees() {
    let mut pool = test_pool();
    pool.set_fee(1_000, 2_000);
    assert_eq!(pool.pool.minting_fee, 1_000);
    assert_eq!(pool.pool.redemption_fee, 2_000);
}

#[test]
fn token_addresses_bind_exactly_once() {
    let mut pool = test_pool();
    pool.set_synth_address("synth_token".to_string()).expect("first bind");
    assert_eq!(pool.pool.synth, "synth_token");
    let err = pool.set_synth_address("other".to_string()).unwrap_err();
    assert_eq!(err, ContractError::SynthAlreadySet);
    assert_eq!(pool.pool.synth, "synth_token");
    pool.set_share_address("share_token".to_string()).expect("first bind");
    assert_eq!(pool.pool.share, "share_token");
    let err = pool.set_share_address("other".to_string()).unwrap_err();
    assert_eq!(err, ContractError::ShareAlreadySet);
    assert_eq!(pool.pool.share, "share_token");
}

#[test]
fn pool_info_reports_net_collateral_balance() {
    let mut pool = redeem_pool();
    let mut u = user();
    pool.mint(&mut u, &unconstrained_epoch(), 0, 1, 10, &funds(1_000_000), 0)
        .expect("mint accepted");
    let synth_oracle = oracle_with_twap(42, 5);
    let share_oracle = PairOracle::new(PairOracleState::default());
    let info = PoolInfoResponse::build(
        &pool.pool,
        1_000_000,
        &synth_oracle,
        &share_oracle,
        "owner".to_string(),
    );
    // fee of 1_500 accrued, nothing pending in collateral
    assert_eq!(info.collateral_balance, 998_500);
    assert_eq!(info.collateral_denom, "uluna");
    assert_eq!(info.synth, "synth_token");
    assert_eq!(info.total_unclaimed_synth, 997_000);
    assert_eq!(info.oracle.synth, synth_oracle.0);
    assert_eq!(info.oracle.share, share_oracle.0);
    assert_eq!(info.owner, "owner");
}
