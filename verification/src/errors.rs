use vstd::prelude::*;

verus! {

/// Typed failure of an engine operation.
///
/// Every operation is all-or-nothing: when it returns one of these, the
/// account records it was handed are unchanged and no transfer has been
/// authorized.
#[derive(Clone, Copy, Debug, PartialEq, Eq, Structural)]
pub enum CustomError {
    /// A checked addition or multiplication would exceed `u64::MAX`.
    ArithmeticOverflow,
    /// A checked subtraction would go below zero.
    ArithmeticUnderflow,
    /// A divisor was zero.
    DivisionByZero,
    /// A withdrawal asked for more than the current liquidity.
    InsufficientFunds,
    /// The staked amount is below the priority-execution threshold.
    InsufficientStake,
    /// The voter's token balance is below the requested vote weight.
    InsufficientVotingPower,
    /// The stake cooldown window has not elapsed yet.
    CooldownActive,
    /// The flash-loan resistance window since the last deposit has not
    /// elapsed yet.
    FlashLoanDetected,
    /// The recorded execution volume is below the minimum trade volume gate.
    TradeVolumeTooLow,
    /// The recorded execution volume is below the gas-rebate threshold.
    NotEligibleForGasRebate,
    /// The pro-rata fee rebate came out to zero.
    NoRebateAvailable,
    /// The liquidity reward balance is zero.
    NoRewardAvailable,
    /// No loss has been recorded, so no insurance payout is due.
    NoLossDetected,
}

} // verus!
