use hfmmt::accounts::MarketMaker;
use hfmmt::accounts::Proposal;
use hfmmt::accounts::Voter;
use hfmmt::errors::CustomError;
use hfmmt::governance::vote;
use hfmmt::risk::adjust_rewards_by_volatility;
use hfmmt::risk::enforce_activity_slashing;
use hfmmt::risk::enforce_min_trade_volume;
use hfmmt::risk::enforce_stake_cooldown;
use hfmmt::risk::INACTIVITY_WINDOW_SECS;
use hfmmt::risk::STAKE_COOLDOWN_SECS;
use hfmmt::transfer::Endpoint;

fn fresh_market_maker() -> MarketMaker {
    MarketMaker {
        staked_amount: 0,
        execution_volume: 0,
        spread_efficiency: 0,
        order_flow: 0,
        has_priority_access: false,
        auto_compound: false,
        last_trade_time: 0,
        last_stake_time: 0,
        reward_multiplier: 1,
    }
}

#[test]
fn min_trade_volume_gate() {
    let mut staker = fresh_market_maker();
    staker.execution_volume = 9_999;
    assert_eq!(enforce_min_trade_volume(&staker), Err(CustomError::TradeVolumeTooLow));

    staker.execution_volume = 10_000;
    assert_eq!(enforce_min_trade_volume(&staker), Ok(()));
}

#[test]
fn stake_cooldown_gate_is_strict() {
    let mut staker = fresh_market_maker();
    staker.last_stake_time = 100;
    assert_eq!(
        enforce_stake_cooldown(&staker, 100 + STAKE_COOLDOWN_SECS),
        Err(CustomError::CooldownActive)
    );
    assert_eq!(enforce_stake_cooldown(&staker, 100 + STAKE_COOLDOWN_SECS + 1), Ok(()));
}

#[test]
fn volatility_adjustment_picks_multiplier() {
    let mut staker = fresh_market_maker();
    adjust_rewards_by_volatility(&mut staker, 51);
    assert_eq!(staker.reward_multiplier, 2);

    adjust_rewards_by_volatility(&mut staker, 50);
    assert_eq!(staker.reward_multiplier, 1);
}

#[test]
fn slashing_past_window_takes_a_tenth() {
    let mut staker = fresh_market_maker();
    staker.staked_amount = 1_000;
    staker.last_trade_time = 0;
    let transfer = enforce_activity_slashing(&mut staker, INACTIVITY_WINDOW_SECS + 1).unwrap();
    assert_eq!(transfer.amount, 100);
    assert_eq!(transfer.from, Endpoint::Vault);
    assert_eq!(transfer.to, Endpoint::Treasury);
    assert_eq!(staker.staked_amount, 900);
}

#[test]
fn slashing_within_window_is_idempotent_noop() {
    let mut staker = fresh_market_maker();
    staker.staked_amount = 1_000;
    staker.last_trade_time = 0;
    let before = staker;
    assert_eq!(enforce_activity_slashing(&mut staker, INACTIVITY_WINDOW_SECS), None);
    assert_eq!(staker, before);
    assert_eq!(enforce_activity_slashing(&mut staker, INACTIVITY_WINDOW_SECS), None);
    assert_eq!(staker, before);
}

#[test]
fn vote_adds_weight_to_tally() {
    let voter = Voter { token_balance: 100 };
    let mut proposal = Proposal { proposal_id: 1, votes: 0 };
    vote(&voter, &mut proposal, 60).unwrap();
    assert_eq!(proposal.votes, 60);
    assert_eq!(proposal.proposal_id, 1);
}

#[test]
fn vote_beyond_balance_is_rejected() {
    let voter = Voter { token_balance: 100 };
    let mut proposal = Proposal { proposal_id: 1, votes: 7 };
    let result = vote(&voter, &mut proposal, 101);
    assert_eq!(result, Err(CustomError::InsufficientVotingPower));
    assert_eq!(proposal.votes, 7);
}

#[test]
fn vote_does_not_spend_the_balance() {
    // The token balance only bounds each vote's weight; it is not
    // decremented, so the same balance can back repeated votes.
    let voter = Voter { token_balance: 100 };
    let mut proposal = Proposal { proposal_id: 1, votes: 0 };
    vote(&voter, &mut proposal, 100).unwrap();
    vote(&voter, &mut proposal, 100).unwrap();
    assert_eq!(proposal.votes, 200);
}

#[test]
fn vote_tally_overflow_fails() {
    let voter = Voter { token_balance: u64::MAX };
    let mut proposal = Proposal { proposal_id: 1, votes: u64::MAX };
    let result = vote(&voter, &mut proposal, 1);
    assert_eq!(result, Err(CustomError::ArithmeticOverflow));
    assert_eq!(proposal.votes, u64::MAX);
}
