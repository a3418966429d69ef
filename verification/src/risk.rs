use vstd::prelude::*;

use crate::accounts::MarketMaker;
use crate::errors::CustomError;
use crate::transfer::Endpoint;
use crate::transfer::TransferInstruction;

verus! {

/// Minimum recorded execution volume to pass the Sybil-resistance gate.
pub const MIN_TRADE_VOLUME: u64 = 10000;

/// Seconds after a stake during which the cooldown gate stays closed.
pub const STAKE_COOLDOWN_SECS: i64 = 60;

/// Seconds of trading inactivity after which slashing applies (30 days).
pub const INACTIVITY_WINDOW_SECS: i64 = 2592000;

/// Volatility index above which the doubled reward multiplier applies.
/// This bound is a constant of the engine, separate from the
/// `volatility_threshold` field of `Config`.
pub const HIGH_VOLATILITY_INDEX: u64 = 50;

/// Pure gate: passes exactly when the recorded execution volume reaches
/// the minimum trade volume. Mutates nothing.
pub fn enforce_min_trade_volume(staker: &MarketMaker) -> (r: Result<(), CustomError>)
    ensures
        r is Ok <==> staker.execution_volume >= MIN_TRADE_VOLUME,
        r is Err ==> r == Err::<(), CustomError>(CustomError::TradeVolumeTooLow),
{
    if staker.execution_volume >= MIN_TRADE_VOLUME {
        Ok(())
    } else {
        Err(CustomError::TradeVolumeTooLow)
    }
}

/// Pure gate: passes exactly when the cooldown window since the last stake
/// has strictly elapsed. Mutates nothing.
pub fn enforce_stake_cooldown(staker: &MarketMaker, current_time: i64) -> (r: Result<
    (),
    CustomError,
>)
    ensures
        r is Ok <==> current_time > staker.last_stake_time + STAKE_COOLDOWN_SECS,
        r is Err ==> r == Err::<(), CustomError>(CustomError::CooldownActive),
{
    let cooldown_end: i128 = staker.last_stake_time as i128 + STAKE_COOLDOWN_SECS as i128;
    if current_time as i128 > cooldown_end {
        Ok(())
    } else {
        Err(CustomError::CooldownActive)
    }
}

/// The reward multiplier chosen for a volatility index: 2 above the
/// high-volatility bound, else 1.
pub open spec fn volatility_multiplier(volatility_index: u64) -> u64 {
    if volatility_index > HIGH_VOLATILITY_INDEX {
        2
    } else {
        1
    }
}

/// Set the market maker's reward multiplier from the current volatility
/// index, overwriting whatever multiplier was there before.
pub fn adjust_rewards_by_volatility(staker: &mut MarketMaker, volatility_index: u64)
    ensures
        *final(staker) == (MarketMaker {
            reward_multiplier: volatility_multiplier(volatility_index),
            ..*old(staker)
        }),
{
    if volatility_index > HIGH_VOLATILITY_INDEX {
        staker.reward_multiplier = 2;
    } else {
        staker.reward_multiplier = 1;
    }
}

/// The slash for an inactive staker: a tenth of the staked amount, rounded
/// down.
pub open spec fn slash_amount(staker: MarketMaker) -> int {
    (staker.staked_amount as int) / 10
}

/// Outcome of the inactivity check at `current_time`: past the inactivity
/// window, a tenth of the stake is slashed and its transfer to the treasury
/// is authorized; within the window the record is untouched and nothing is
/// transferred.
pub open spec fn slashing_outcome(staker: MarketMaker, current_time: i64) -> (
    MarketMaker,
    Option<TransferInstruction>,
) {
    if current_time > staker.last_trade_time + INACTIVITY_WINDOW_SECS {
        (
            MarketMaker {
                staked_amount: (staker.staked_amount - slash_amount(staker)) as u64,
                ..staker
            },
            Some(
                TransferInstruction {
                    from: Endpoint::Vault,
                    to: Endpoint::Treasury,
                    amount: slash_amount(staker) as u64,
                },
            ),
        )
    } else {
        (staker, None)
    }
}

/// Slash a tenth of the stake after the inactivity window has strictly
/// elapsed, authorizing its transfer to the treasury; a call within the
/// window is a no-op, so repeated calls there change nothing.
pub fn enforce_activity_slashing(staker: &mut MarketMaker, current_time: i64) -> (r: Option<
    TransferInstruction,
>)
    ensures
        *final(staker) == slashing_outcome(*old(staker), current_time).0,
        r == slashing_outcome(*old(staker), current_time).1,
{
    let window_end: i128 = staker.last_trade_time as i128 + INACTIVITY_WINDOW_SECS as i128;
    if current_time as i128 > window_end {
        let slash: u64 = staker.staked_amount / 10;
        proof {
            vstd::arithmetic::div_mod::lemma_div_nonincreasing(
                staker.staked_amount as int,
                10,
            );
        }
        staker.staked_amount = staker.staked_amount - slash;
        Some(TransferInstruction { from: Endpoint::Vault, to: Endpoint::Treasury, amount: slash })
    } else {
        None
    }
}

} // verus!
