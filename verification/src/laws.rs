use vstd::prelude::*;

use crate::accounts::FeeRebatePool;
use crate::accounts::LiquidityProvider;
use crate::accounts::MarketMaker;
use crate::errors::CustomError;
use crate::liquidity::claim_liquidity_rewards_outcome;
use crate::liquidity::withdraw_liquidity_outcome;
use crate::liquidity::FLASH_LOAN_WINDOW_SECS;
use crate::pools::claim_fee_rebate_outcome;
use crate::risk::slash_amount;
use crate::risk::slashing_outcome;
use crate::risk::INACTIVITY_WINDOW_SECS;
use crate::staking::stake_outcome;
use crate::transfer::TransferInstruction;

verus! {

/// Law: checked staking never wraps. Once a successful stake brings the
/// staked balance to `u64::MAX`, any further stake fails with
/// `ArithmeticOverflow`; the failure carries no updated record, so the
/// balance stays at `u64::MAX`.
pub proof fn lemma_stake_never_wraps(
    staker: MarketMaker,
    first: u64,
    second: u64,
    first_time: i64,
    second_time: i64,
)
    requires
        second > 0,
        staker.staked_amount + first == u64::MAX,
    ensures
        stake_outcome(staker, first, first_time) is Ok,
        (stake_outcome(staker, first, first_time)->Ok_0).0.staked_amount == u64::MAX,
        stake_outcome((stake_outcome(staker, first, first_time)->Ok_0).0, second, second_time)
            == Err::<(MarketMaker, TransferInstruction), CustomError>(
            CustomError::ArithmeticOverflow,
        ),
{
}

/// Law: a withdrawal of more than the current liquidity always fails with
/// `InsufficientFunds`; the failure carries no updated record, so the
/// liquidity is left unchanged.
pub proof fn lemma_withdraw_cannot_overdraw(provider: LiquidityProvider, amount: u64)
    requires
        amount > provider.liquidity,
    ensures
        withdraw_liquidity_outcome(provider, amount) == Err::<
            (LiquidityProvider, TransferInstruction),
            CustomError,
        >(CustomError::InsufficientFunds),
{
}

/// Law: the flash-loan window is strict. A reward claim at exactly the end
/// of the window still fails with `FlashLoanDetected`, whatever the reward
/// balance.
pub proof fn lemma_flash_loan_window_is_strict(provider: LiquidityProvider, current_time: i64)
    requires
        current_time == provider.last_deposit_time + FLASH_LOAN_WINDOW_SECS,
    ensures
        claim_liquidity_rewards_outcome(provider, current_time) == Err::<
            (LiquidityProvider, TransferInstruction),
            CustomError,
        >(CustomError::FlashLoanDetected),
{
}

/// Law: past the inactivity window, slashing takes exactly a tenth of the
/// staked amount (rounded down) and authorizes the transfer of exactly
/// that amount to the treasury.
pub proof fn lemma_slashing_takes_a_tenth(staker: MarketMaker, current_time: i64)
    requires
        current_time > staker.last_trade_time + INACTIVITY_WINDOW_SECS,
    ensures
        slashing_outcome(staker, current_time).0.staked_amount == staker.staked_amount
            - slash_amount(staker),
        slashing_outcome(staker, current_time).1 matches Some(t) && t.amount == slash_amount(
            staker,
        ),
{
    vstd::arithmetic::div_mod::lemma_div_pos_is_pos(staker.staked_amount as int, 10);
    vstd::arithmetic::div_mod::lemma_div_nonincreasing(staker.staked_amount as int, 10);
}

/// Law: within the inactivity window the slashing check is a no-op, and
/// idempotently so: it neither changes the record nor authorizes a
/// transfer, and running it again from the state it left behaves the same.
pub proof fn lemma_slashing_noop_within_window(staker: MarketMaker, current_time: i64)
    requires
        current_time <= staker.last_trade_time + INACTIVITY_WINDOW_SECS,
    ensures
        slashing_outcome(staker, current_time) == (staker, None::<TransferInstruction>),
        slashing_outcome(slashing_outcome(staker, current_time).0, current_time) == (
            staker,
            None::<TransferInstruction>,
        ),
{
}

/// Law: a fee-rebate claim conserves the pool. A successful claim pays at
/// most the tracked fees and debits the pool by exactly the amount paid;
/// a failed claim carries no updated pool. Since `total_fees` is unsigned,
/// no claim can drive it negative.
pub proof fn lemma_fee_rebate_conserves_pool(staker: MarketMaker, pool: FeeRebatePool)
    ensures
        claim_fee_rebate_outcome(staker, pool) matches Ok(p) ==> (p.1.amount <= pool.total_fees
            && p.0.total_fees + p.1.amount == pool.total_fees),
{
    if pool.total_fees * staker.execution_volume <= u64::MAX && pool.total_execution_volume != 0 {
        vstd::arithmetic::mul::lemma_mul_nonnegative(
            pool.total_fees as int,
            staker.execution_volume as int,
        );
        vstd::arithmetic::div_mod::lemma_div_pos_is_pos(
            pool.total_fees * staker.execution_volume,
            pool.total_execution_volume as int,
        );
    }
}

/// Law: serialized fee-rebate claims never overdraw the pool. When two
/// consecutive claims against the same pool both succeed, each observed
/// the fees the previous one left, the rebates paid sum to at most the
/// fees the pool began with, and the pool ends debited by exactly that
/// sum.
pub proof fn lemma_serialized_claims_never_overdraw(
    first: MarketMaker,
    second: MarketMaker,
    pool: FeeRebatePool,
)
    ensures
        claim_fee_rebate_outcome(first, pool) matches Ok(p1) ==> (claim_fee_rebate_outcome(
            second,
            p1.0,
        ) matches Ok(p2) ==> (p1.1.amount + p2.1.amount <= pool.total_fees && p2.0.total_fees
            == pool.total_fees - p1.1.amount - p2.1.amount)),
{
    lemma_fee_rebate_conserves_pool(first, pool);
    if claim_fee_rebate_outcome(first, pool) is Ok {
        lemma_fee_rebate_conserves_pool(second, (claim_fee_rebate_outcome(first, pool)->Ok_0).0);
    }
}

} // verus!
