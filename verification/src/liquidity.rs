use vstd::prelude::*;

use crate::accounts::LiquidityProvider;
use crate::arith;
use crate::errors::CustomError;
use crate::transfer::Endpoint;
use crate::transfer::TransferInstruction;

verus! {

/// Seconds a deposit must age before rewards become claimable: the
/// flash-loan resistance window (7 days).
pub const FLASH_LOAN_WINDOW_SECS: i64 = 604800;

/// Outcome of depositing `amount` at `current_time`: the updated record
/// plus the transfer of the deposit into the pool, or the arithmetic
/// failure.
pub open spec fn provide_liquidity_outcome(
    provider: LiquidityProvider,
    amount: u64,
    current_time: i64,
) -> Result<(LiquidityProvider, TransferInstruction), CustomError> {
    if provider.liquidity + amount > u64::MAX {
        Err(CustomError::ArithmeticOverflow)
    } else {
        Ok(
            (
                LiquidityProvider {
                    liquidity: (provider.liquidity + amount) as u64,
                    last_deposit_time: current_time,
                    ..provider
                },
                TransferInstruction {
                    from: Endpoint::ProviderWallet,
                    to: Endpoint::LiquidityPool,
                    amount,
                },
            ),
        )
    }
}

/// Deposit liquidity: add `amount` to the tracked liquidity (checked),
/// stamp the deposit time, and authorize the matching transfer into the
/// pool.
pub fn provide_liquidity(provider: &mut LiquidityProvider, amount: u64, current_time: i64) -> (r:
    Result<TransferInstruction, CustomError>)
    requires
        amount > 0,
    ensures
        provide_liquidity_outcome(*old(provider), amount, current_time) matches Ok(p) ==> r
            == Ok::<TransferInstruction, CustomError>(p.1) && *final(provider) == p.0,
        provide_liquidity_outcome(*old(provider), amount, current_time) matches Err(e) ==> r
            == Err::<TransferInstruction, CustomError>(e) && *final(provider) == *old(provider),
{
    let total = match arith::checked_add(provider.liquidity, amount) {
        Ok(v) => v,
        Err(e) => {
            return Err(e);
        },
    };
    provider.liquidity = total;
    provider.last_deposit_time = current_time;
    Ok(
        TransferInstruction {
            from: Endpoint::ProviderWallet,
            to: Endpoint::LiquidityPool,
            amount,
        },
    )
}

/// Outcome of withdrawing `amount`: more than the current liquidity is
/// rejected outright; otherwise the liquidity drops by exactly `amount` and
/// the matching payout from the pool is authorized.
pub open spec fn withdraw_liquidity_outcome(provider: LiquidityProvider, amount: u64) -> Result<
    (LiquidityProvider, TransferInstruction),
    CustomError,
> {
    if amount > provider.liquidity {
        Err(CustomError::InsufficientFunds)
    } else {
        Ok(
            (
                LiquidityProvider { liquidity: (provider.liquidity - amount) as u64, ..provider },
                TransferInstruction {
                    from: Endpoint::LiquidityPool,
                    to: Endpoint::ProviderWallet,
                    amount,
                },
            ),
        )
    }
}

/// Withdraw liquidity: fails when `amount` exceeds the current liquidity,
/// otherwise subtracts it and authorizes the payout from the pool.
pub fn withdraw_liquidity(provider: &mut LiquidityProvider, amount: u64) -> (r: Result<
    TransferInstruction,
    CustomError,
>)
    requires
        amount > 0,
    ensures
        withdraw_liquidity_outcome(*old(provider), amount) matches Ok(p) ==> r == Ok::<
            TransferInstruction,
            CustomError,
        >(p.1) && *final(provider) == p.0,
        withdraw_liquidity_outcome(*old(provider), amount) matches Err(e) ==> r == Err::<
            TransferInstruction,
            CustomError,
        >(e) && *final(provider) == *old(provider),
{
    if amount > provider.liquidity {
        return Err(CustomError::InsufficientFunds);
    }
    provider.liquidity = provider.liquidity - amount;
    Ok(
        TransferInstruction {
            from: Endpoint::LiquidityPool,
            to: Endpoint::ProviderWallet,
            amount,
        },
    )
}

/// The reward multiplier earned by a lock duration, scaled by 100: a
/// three-month lock earns 1.5x and a six-month lock 2x. Any other duration
/// maps to the base 1x multiplier rather than being rejected.
pub open spec fn lock_multiplier(lock_duration: u64) -> u64 {
    if lock_duration == 3 {
        150
    } else if lock_duration == 6 {
        200
    } else {
        100
    }
}

/// Record a lock duration and set the reward multiplier it earns. Durations
/// outside the known set are accepted and fall back to the base multiplier;
/// they are not treated as an error.
pub fn lock_liquidity(provider: &mut LiquidityProvider, lock_duration: u64)
    ensures
        *final(provider) == (LiquidityProvider {
            lock_duration,
            reward_multiplier: lock_multiplier(lock_duration),
            ..*old(provider)
        }),
{
    provider.lock_duration = lock_duration;
    if lock_duration == 3 {
        provider.reward_multiplier = 150;
    } else if lock_duration == 6 {
        provider.reward_multiplier = 200;
    } else {
        provider.reward_multiplier = 100;
    }
}

/// Outcome of a reward claim at `current_time`: claims strictly inside the
/// flash-loan window fail, a zero balance fails, and otherwise the whole
/// reward balance is paid out of the pool and reset to zero.
pub open spec fn claim_liquidity_rewards_outcome(
    provider: LiquidityProvider,
    current_time: i64,
) -> Result<(LiquidityProvider, TransferInstruction), CustomError> {
    if !(current_time > provider.last_deposit_time + FLASH_LOAN_WINDOW_SECS) {
        Err(CustomError::FlashLoanDetected)
    } else if provider.reward_balance == 0 {
        Err(CustomError::NoRewardAvailable)
    } else {
        Ok(
            (
                LiquidityProvider { reward_balance: 0, ..provider },
                TransferInstruction {
                    from: Endpoint::LiquidityPool,
                    to: Endpoint::ProviderWallet,
                    amount: provider.reward_balance,
                },
            ),
        )
    }
}

/// Claim the accumulated liquidity rewards. The claim is rejected unless
/// the flash-loan resistance window since the last deposit has strictly
/// elapsed; a successful claim pays the full reward balance and resets it.
pub fn claim_liquidity_rewards(provider: &mut LiquidityProvider, current_time: i64) -> (r: Result<
    TransferInstruction,
    CustomError,
>)
    ensures
        claim_liquidity_rewards_outcome(*old(provider), current_time) matches Ok(p) ==> r == Ok::<
            TransferInstruction,
            CustomError,
        >(p.1) && *final(provider) == p.0,
        claim_liquidity_rewards_outcome(*old(provider), current_time) matches Err(e) ==> r
            == Err::<TransferInstruction, CustomError>(e) && *final(provider) == *old(provider),
{
    let window_end: i128 = provider.last_deposit_time as i128 + FLASH_LOAN_WINDOW_SECS as i128;
    if !(current_time as i128 > window_end) {
        return Err(CustomError::FlashLoanDetected);
    }
    let reward = provider.reward_balance;
    if reward == 0 {
        return Err(CustomError::NoRewardAvailable);
    }
    provider.reward_balance = 0;
    Ok(
        TransferInstruction {
            from: Endpoint::LiquidityPool,
            to: Endpoint::ProviderWallet,
            amount: reward,
        },
    )
}

} // verus!
