use vstd::prelude::*;

use crate::accounts::Config;
use crate::accounts::MarketMaker;
use crate::arith;
use crate::errors::CustomError;
use crate::transfer::Endpoint;
use crate::transfer::TransferInstruction;

verus! {

/// Minimum staked amount required for priority execution.
pub const PRIORITY_STAKE_THRESHOLD: u64 = 1000;

/// Outcome of staking `amount` at `current_time`: the updated record plus
/// the transfer of the stake into the vault, or the arithmetic failure.
pub open spec fn stake_outcome(staker: MarketMaker, amount: u64, current_time: i64) -> Result<
    (MarketMaker, TransferInstruction),
    CustomError,
> {
    if staker.staked_amount + amount > u64::MAX {
        Err(CustomError::ArithmeticOverflow)
    } else {
        Ok(
            (
                MarketMaker {
                    staked_amount: (staker.staked_amount + amount) as u64,
                    last_trade_time: current_time,
                    last_stake_time: current_time,
                    ..staker
                },
                TransferInstruction {
                    from: Endpoint::StakerWallet,
                    to: Endpoint::Vault,
                    amount,
                },
            ),
        )
    }
}

/// Stake tokens: add `amount` to the staked balance (checked), stamp both
/// the last-trade and last-stake timestamps, and authorize the matching
/// transfer from the staker's wallet into the vault.
pub fn stake_tokens(staker: &mut MarketMaker, amount: u64, current_time: i64) -> (r: Result<
    TransferInstruction,
    CustomError,
>)
    requires
        amount > 0,
    ensures
        stake_outcome(*old(staker), amount, current_time) matches Ok(p) ==> r == Ok::<
            TransferInstruction,
            CustomError,
        >(p.1) && *final(staker) == p.0,
        stake_outcome(*old(staker), amount, current_time) matches Err(e) ==> r == Err::<
            TransferInstruction,
            CustomError,
        >(e) && *final(staker) == *old(staker),
{
    let total = match arith::checked_add(staker.staked_amount, amount) {
        Ok(v) => v,
        Err(e) => {
            return Err(e);
        },
    };
    staker.staked_amount = total;
    staker.last_trade_time = current_time;
    staker.last_stake_time = current_time;
    Ok(TransferInstruction { from: Endpoint::StakerWallet, to: Endpoint::Vault, amount })
}

/// Outcome of recording one batch of performance metrics: each counter is
/// checked-added to its running total and the last-trade timestamp is
/// stamped; any overflow fails the whole batch.
pub open spec fn update_performance_outcome(
    staker: MarketMaker,
    execution_volume: u64,
    spread_efficiency: u64,
    order_flow: u64,
    current_time: i64,
) -> Result<MarketMaker, CustomError> {
    if staker.execution_volume + execution_volume > u64::MAX || staker.spread_efficiency
        + spread_efficiency > u64::MAX || staker.order_flow + order_flow > u64::MAX {
        Err(CustomError::ArithmeticOverflow)
    } else {
        Ok(
            MarketMaker {
                execution_volume: (staker.execution_volume + execution_volume) as u64,
                spread_efficiency: (staker.spread_efficiency + spread_efficiency) as u64,
                order_flow: (staker.order_flow + order_flow) as u64,
                last_trade_time: current_time,
                ..staker
            },
        )
    }
}

/// Record one batch of caller-reported performance metrics. The values are
/// trusted inputs from an external execution-reporting system; no upper
/// bound is enforced beyond the checked additions.
pub fn update_performance(
    staker: &mut MarketMaker,
    execution_volume: u64,
    spread_efficiency: u64,
    order_flow: u64,
    current_time: i64,
) -> (r: Result<(), CustomError>)
    ensures
        update_performance_outcome(
            *old(staker),
            execution_volume,
            spread_efficiency,
            order_flow,
            current_time,
        ) matches Ok(m) ==> r == Ok::<(), CustomError>(()) && *final(staker) == m,
        update_performance_outcome(
            *old(staker),
            execution_volume,
            spread_efficiency,
            order_flow,
            current_time,
        ) matches Err(e) ==> r == Err::<(), CustomError>(e) && *final(staker) == *old(staker),
{
    let new_volume = match arith::checked_add(staker.execution_volume, execution_volume) {
        Ok(v) => v,
        Err(e) => {
            return Err(e);
        },
    };
    let new_spread = match arith::checked_add(staker.spread_efficiency, spread_efficiency) {
        Ok(v) => v,
        Err(e) => {
            return Err(e);
        },
    };
    let new_flow = match arith::checked_add(staker.order_flow, order_flow) {
        Ok(v) => v,
        Err(e) => {
            return Err(e);
        },
    };
    staker.execution_volume = new_volume;
    staker.spread_efficiency = new_spread;
    staker.order_flow = new_flow;
    staker.last_trade_time = current_time;
    Ok(())
}

/// The weighted performance score: twice the execution volume, three times
/// the spread efficiency, plus the order flow.
pub open spec fn weighted_score(staker: MarketMaker) -> int {
    2 * staker.execution_volume + 3 * staker.spread_efficiency + staker.order_flow
}

/// Outcome of a reward distribution: the reward is the weighted score
/// divided by the configured rate. With auto-compound on, the reward is
/// checked-added to the staked balance and nothing is transferred; off, the
/// record is unchanged and a payout from the vault is authorized. The
/// performance counters are deliberately not reset, so scores compound
/// across repeated distributions unless an external process resets them.
pub open spec fn distribute_rewards_outcome(staker: MarketMaker, config: Config) -> Result<
    (MarketMaker, Option<TransferInstruction>),
    CustomError,
> {
    if weighted_score(staker) > u64::MAX {
        Err(CustomError::ArithmeticOverflow)
    } else if config.reward_rate == 0 {
        Err(CustomError::DivisionByZero)
    } else {
        let reward = weighted_score(staker) / config.reward_rate as int;
        if staker.auto_compound {
            if staker.staked_amount + reward > u64::MAX {
                Err(CustomError::ArithmeticOverflow)
            } else {
                Ok(
                    (
                        MarketMaker {
                            staked_amount: (staker.staked_amount + reward) as u64,
                            ..staker
                        },
                        None,
                    ),
                )
            }
        } else {
            Ok(
                (
                    staker,
                    Some(
                        TransferInstruction {
                            from: Endpoint::Vault,
                            to: Endpoint::StakerWallet,
                            amount: reward as u64,
                        },
                    ),
                ),
            )
        }
    }
}

/// Compute the weighted performance score and convert it into a reward,
/// routed to auto-compounding or to a direct payout from the vault.
pub fn distribute_rewards(staker: &mut MarketMaker, config: &Config) -> (r: Result<
    Option<TransferInstruction>,
    CustomError,
>)
    ensures
        distribute_rewards_outcome(*old(staker), *config) matches Ok(p) ==> r == Ok::<
            Option<TransferInstruction>,
            CustomError,
        >(p.1) && *final(staker) == p.0,
        distribute_rewards_outcome(*old(staker), *config) matches Err(e) ==> r == Err::<
            Option<TransferInstruction>,
            CustomError,
        >(e) && *final(staker) == *old(staker),
{
    let doubled_volume = match arith::checked_mul(staker.execution_volume, 2) {
        Ok(v) => v,
        Err(e) => {
            return Err(e);
        },
    };
    let weighted_spread = match arith::checked_mul(staker.spread_efficiency, 3) {
        Ok(v) => v,
        Err(e) => {
            return Err(e);
        },
    };
    let partial_score = match arith::checked_add(doubled_volume, weighted_spread) {
        Ok(v) => v,
        Err(e) => {
            return Err(e);
        },
    };
    let score = match arith::checked_add(partial_score, staker.order_flow) {
        Ok(v) => v,
        Err(e) => {
            return Err(e);
        },
    };
    let reward = match arith::checked_div(score, config.reward_rate) {
        Ok(v) => v,
        Err(e) => {
            return Err(e);
        },
    };
    proof {
        vstd::arithmetic::div_mod::lemma_div_nonincreasing(
            score as int,
            config.reward_rate as int,
        );
    }
    if staker.auto_compound {
        let compounded = match arith::checked_add(staker.staked_amount, reward) {
            Ok(v) => v,
            Err(e) => {
                return Err(e);
            },
        };
        staker.staked_amount = compounded;
        Ok(None)
    } else {
        Ok(
            Some(
                TransferInstruction {
                    from: Endpoint::Vault,
                    to: Endpoint::StakerWallet,
                    amount: reward,
                },
            ),
        )
    }
}

/// Outcome of a priority-execution request: granted exactly when the staked
/// amount reaches the threshold.
pub open spec fn request_priority_outcome(staker: MarketMaker) -> Result<
    MarketMaker,
    CustomError,
> {
    if staker.staked_amount >= PRIORITY_STAKE_THRESHOLD {
        Ok(MarketMaker { has_priority_access: true, ..staker })
    } else {
        Err(CustomError::InsufficientStake)
    }
}

/// Grant priority access when the staked amount reaches the threshold;
/// otherwise fail and change nothing.
pub fn request_priority_execution(staker: &mut MarketMaker) -> (r: Result<(), CustomError>)
    ensures
        request_priority_outcome(*old(staker)) matches Ok(m) ==> r == Ok::<(), CustomError>(())
            && *final(staker) == m,
        request_priority_outcome(*old(staker)) matches Err(e) ==> r == Err::<(), CustomError>(e)
            && *final(staker) == *old(staker),
{
    if staker.staked_amount >= PRIORITY_STAKE_THRESHOLD {
        staker.has_priority_access = true;
        Ok(())
    } else {
        Err(CustomError::InsufficientStake)
    }
}

/// Turn auto-compounding on: future rewards are added to the staked balance
/// instead of being paid out.
pub fn enable_auto_compound(staker: &mut MarketMaker)
    ensures
        *final(staker) == (MarketMaker { auto_compound: true, ..*old(staker) }),
{
    staker.auto_compound = true;
}

} // verus!
