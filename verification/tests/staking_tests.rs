use hfmmt::accounts::initialize;
use hfmmt::accounts::Config;
use hfmmt::accounts::ConfigParams;
use hfmmt::accounts::MarketMaker;
use hfmmt::errors::CustomError;
use hfmmt::staking::distribute_rewards;
use hfmmt::staking::enable_auto_compound;
use hfmmt::staking::request_priority_execution;
use hfmmt::staking::stake_tokens;
use hfmmt::staking::update_performance;
use hfmmt::transfer::Endpoint;

fn fresh_market_maker() -> MarketMaker {
    MarketMaker {
        staked_amount: 0,
        execution_volume: 0,
        spread_efficiency: 0,
        order_flow: 0,
        has_priority_access: false,
        auto_compound: false,
        last_trade_time: 0,
        last_stake_time: 0,
        reward_multiplier: 1,
    }
}

#[test]
fn initialize_copies_params() {
    let config = initialize(ConfigParams { reward_rate: 5, volatility_threshold: 40 });
    assert_eq!(config.reward_rate, 5);
    assert_eq!(config.volatility_threshold, 40);
}

#[test]
fn stake_accumulates_and_stamps_timestamps() {
    let mut staker = fresh_market_maker();
    let transfer = stake_tokens(&mut staker, 250, 1_000).unwrap();
    assert_eq!(staker.staked_amount, 250);
    assert_eq!(staker.last_trade_time, 1_000);
    assert_eq!(staker.last_stake_time, 1_000);
    assert_eq!(transfer.amount, 250);
    assert_eq!(transfer.from, Endpoint::StakerWallet);
    assert_eq!(transfer.to, Endpoint::Vault);

    let transfer = stake_tokens(&mut staker, 50, 2_000).unwrap();
    assert_eq!(staker.staked_amount, 300);
    assert_eq!(staker.last_stake_time, 2_000);
    assert_eq!(transfer.amount, 50);
}

#[test]
fn stake_to_max_then_one_more_overflows_and_leaves_state() {
    let mut staker = fresh_market_maker();
    stake_tokens(&mut staker, u64::MAX, 7).unwrap();
    assert_eq!(staker.staked_amount, u64::MAX);

    let before = staker;
    let result = stake_tokens(&mut staker, 1, 8);
    assert_eq!(result, Err(CustomError::ArithmeticOverflow));
    assert_eq!(staker, before);
}

#[test]
fn update_performance_accumulates_counters() {
    let mut staker = fresh_market_maker();
    update_performance(&mut staker, 100, 20, 3, 500).unwrap();
    update_performance(&mut staker, 50, 5, 1, 600).unwrap();
    assert_eq!(staker.execution_volume, 150);
    assert_eq!(staker.spread_efficiency, 25);
    assert_eq!(staker.order_flow, 4);
    assert_eq!(staker.last_trade_time, 600);
    assert_eq!(staker.last_stake_time, 0);
}

#[test]
fn update_performance_overflow_is_all_or_nothing() {
    let mut staker = fresh_market_maker();
    staker.order_flow = u64::MAX;
    let before = staker;
    let result = update_performance(&mut staker, 10, 10, 1, 500);
    assert_eq!(result, Err(CustomError::ArithmeticOverflow));
    assert_eq!(staker, before);
}

#[test]
fn distribute_rewards_pays_score_over_rate() {
    let mut staker = fresh_market_maker();
    staker.execution_volume = 100;
    staker.spread_efficiency = 50;
    staker.order_flow = 10;
    let config = Config { reward_rate: 5, volatility_threshold: 0 };
    let transfer = distribute_rewards(&mut staker, &config).unwrap().unwrap();
    assert_eq!(transfer.amount, 72);
    assert_eq!(transfer.from, Endpoint::Vault);
    assert_eq!(transfer.to, Endpoint::StakerWallet);
    assert_eq!(staker.staked_amount, 0);
    assert_eq!(staker.execution_volume, 100);
}

#[test]
fn distribute_rewards_auto_compound_stakes_reward() {
    let mut staker = fresh_market_maker();
    staker.execution_volume = 100;
    staker.spread_efficiency = 50;
    staker.order_flow = 10;
    staker.auto_compound = true;
    let config = Config { reward_rate: 5, volatility_threshold: 0 };
    let transfer = distribute_rewards(&mut staker, &config).unwrap();
    assert_eq!(transfer, None);
    assert_eq!(staker.staked_amount, 72);
}

#[test]
fn distribute_rewards_zero_rate_is_division_by_zero() {
    let mut staker = fresh_market_maker();
    staker.execution_volume = 100;
    let config = Config { reward_rate: 0, volatility_threshold: 0 };
    let before = staker;
    let result = distribute_rewards(&mut staker, &config);
    assert_eq!(result, Err(CustomError::DivisionByZero));
    assert_eq!(staker, before);
}

#[test]
fn distribute_rewards_score_overflow_fails() {
    let mut staker = fresh_market_maker();
    staker.execution_volume = u64::MAX;
    let config = Config { reward_rate: 5, volatility_threshold: 0 };
    let before = staker;
    let result = distribute_rewards(&mut staker, &config);
    assert_eq!(result, Err(CustomError::ArithmeticOverflow));
    assert_eq!(staker, before);
}

#[test]
fn distribute_rewards_compound_overflow_fails() {
    let mut staker = fresh_market_maker();
    staker.staked_amount = u64::MAX;
    staker.execution_volume = 100;
    staker.auto_compound = true;
    let config = Config { reward_rate: 5, volatility_threshold: 0 };
    let before = staker;
    let result = distribute_rewards(&mut staker, &config);
    assert_eq!(result, Err(CustomError::ArithmeticOverflow));
    assert_eq!(staker, before);
}

#[test]
fn priority_execution_needs_threshold_stake() {
    let mut staker = fresh_market_maker();
    staker.staked_amount = 999;
    let result = request_priority_execution(&mut staker);
    assert_eq!(result, Err(CustomError::InsufficientStake));
    assert!(!staker.has_priority_access);

    staker.staked_amount = 1000;
    request_priority_execution(&mut staker).unwrap();
    assert!(staker.has_priority_access);
}

#[test]
fn enable_auto_compound_sets_flag() {
    let mut staker = fresh_market_maker();
    enable_auto_compound(&mut staker);
    assert!(staker.auto_compound);
    assert_eq!(staker.staked_amount, 0);
}
