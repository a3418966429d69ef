use vstd::prelude::*;

use crate::accounts::FeeRebatePool;
use crate::accounts::GasFeePool;
use crate::accounts::InsurancePool;
use crate::accounts::LiquidityProvider;
use crate::accounts::MarketMaker;
use crate::arith;
use crate::errors::CustomError;
use crate::transfer::Endpoint;
use crate::transfer::TransferInstruction;

verus! {

/// Execution volume above which a gas-fee rebate can be claimed.
pub const GAS_REBATE_VOLUME_THRESHOLD: u64 = 100000;

/// The pro-rata fee rebate: the pool's fees scaled by the claimant's share
/// of the pool's total execution volume, rounded down.
pub open spec fn fee_rebate_amount(staker: MarketMaker, pool: FeeRebatePool) -> int {
    (pool.total_fees * staker.execution_volume) / (pool.total_execution_volume as int)
}

/// Outcome of a fee-rebate claim: the pro-rata rebate is computed with
/// checked arithmetic, a zero rebate is rejected, a rebate larger than the
/// pool's tracked fees is rejected as an underflow, and a successful claim
/// debits the pool by exactly the transferred rebate.
pub open spec fn claim_fee_rebate_outcome(staker: MarketMaker, pool: FeeRebatePool) -> Result<
    (FeeRebatePool, TransferInstruction),
    CustomError,
> {
    if pool.total_fees * staker.execution_volume > u64::MAX {
        Err(CustomError::ArithmeticOverflow)
    } else if pool.total_execution_volume == 0 {
        Err(CustomError::DivisionByZero)
    } else {
        let rebate = fee_rebate_amount(staker, pool);
        if rebate == 0 {
            Err(CustomError::NoRebateAvailable)
        } else if rebate > pool.total_fees {
            Err(CustomError::ArithmeticUnderflow)
        } else {
            Ok(
                (
                    FeeRebatePool { total_fees: (pool.total_fees - rebate) as u64, ..pool },
                    TransferInstruction {
                        from: Endpoint::FeeRebateVault,
                        to: Endpoint::StakerWallet,
                        amount: rebate as u64,
                    },
                ),
            )
        }
    }
}

/// Claim a pro-rata fee rebate against the shared rebate pool. A
/// successful claim authorizes the payout and subtracts it from the pool's
/// tracked fees; every failure leaves the pool untouched. Claims against
/// one pool must be serialized by the environment across this
/// read-compute-mutate span.
pub fn claim_fee_rebate(staker: &MarketMaker, pool: &mut FeeRebatePool) -> (r: Result<
    TransferInstruction,
    CustomError,
>)
    ensures
        claim_fee_rebate_outcome(*staker, *old(pool)) matches Ok(p) ==> r == Ok::<
            TransferInstruction,
            CustomError,
        >(p.1) && *final(pool) == p.0,
        claim_fee_rebate_outcome(*staker, *old(pool)) matches Err(e) ==> r == Err::<
            TransferInstruction,
            CustomError,
        >(e) && *final(pool) == *old(pool),
{
    let product = match arith::checked_mul(pool.total_fees, staker.execution_volume) {
        Ok(v) => v,
        Err(e) => {
            return Err(e);
        },
    };
    let rebate = match arith::checked_div(product, pool.total_execution_volume) {
        Ok(v) => v,
        Err(e) => {
            return Err(e);
        },
    };
    proof {
        vstd::arithmetic::div_mod::lemma_div_nonincreasing(
            product as int,
            pool.total_execution_volume as int,
        );
    }
    if rebate == 0 {
        return Err(CustomError::NoRebateAvailable);
    }
    let remaining = match arith::checked_sub(pool.total_fees, rebate) {
        Ok(v) => v,
        Err(e) => {
            return Err(e);
        },
    };
    pool.total_fees = remaining;
    Ok(
        TransferInstruction {
            from: Endpoint::FeeRebateVault,
            to: Endpoint::StakerWallet,
            amount: rebate,
        },
    )
}

/// The gas rebate for a claimant: a thousandth of its execution volume,
/// rounded down.
pub open spec fn gas_rebate_amount(staker: MarketMaker) -> int {
    (staker.execution_volume as int) / 1000
}

/// Outcome of a gas-rebate claim: only claimants strictly above the volume
/// threshold are eligible; an eligible claim authorizes the rebate payout.
pub open spec fn claim_gas_fee_rebate_outcome(staker: MarketMaker) -> Result<
    TransferInstruction,
    CustomError,
> {
    if !(staker.execution_volume > GAS_REBATE_VOLUME_THRESHOLD) {
        Err(CustomError::NotEligibleForGasRebate)
    } else {
        Ok(
            TransferInstruction {
                from: Endpoint::GasFeeVault,
                to: Endpoint::StakerWallet,
                amount: gas_rebate_amount(staker) as u64,
            },
        )
    }
}

/// Claim a gas-fee rebate for high-frequency trading. The payout is
/// authorized out of the gas-fee reserve, but the pool's tracked balance is
/// not debited against it; the pool record is taken read-only to make that
/// explicit.
pub fn claim_gas_fee_rebate(staker: &MarketMaker, pool: &GasFeePool) -> (r: Result<
    TransferInstruction,
    CustomError,
>)
    ensures
        r == claim_gas_fee_rebate_outcome(*staker),
{
    if staker.execution_volume <= GAS_REBATE_VOLUME_THRESHOLD {
        return Err(CustomError::NotEligibleForGasRebate);
    }
    let rebate: u64 = staker.execution_volume / 1000;
    Ok(
        TransferInstruction {
            from: Endpoint::GasFeeVault,
            to: Endpoint::StakerWallet,
            amount: rebate,
        },
    )
}

/// The insurance payout for a provider: a tenth of its tracked liquidity,
/// rounded down.
pub open spec fn insurance_payout_amount(provider: LiquidityProvider) -> int {
    (provider.liquidity as int) / 10
}

/// Outcome of an insurance claim: only a provider with a recorded loss is
/// paid, a tenth of its liquidity, out of the insurance reserve.
pub open spec fn claim_insurance_payout_outcome(provider: LiquidityProvider) -> Result<
    TransferInstruction,
    CustomError,
> {
    if !provider.loss_occurred {
        Err(CustomError::NoLossDetected)
    } else {
        Ok(
            TransferInstruction {
                from: Endpoint::InsuranceVault,
                to: Endpoint::ProviderWallet,
                amount: insurance_payout_amount(provider) as u64,
            },
        )
    }
}

/// Claim an insurance payout after an externally recorded loss. The payout
/// is authorized out of the insurance reserve, but the pool's tracked
/// balance is not debited against it; the pool record is taken read-only to
/// make that explicit.
pub fn claim_insurance_payout(provider: &LiquidityProvider, pool: &InsurancePool) -> (r: Result<
    TransferInstruction,
    CustomError,
>)
    ensures
        r == claim_insurance_payout_outcome(*provider),
{
    if !provider.loss_occurred {
        return Err(CustomError::NoLossDetected);
    }
    let payout: u64 = provider.liquidity / 10;
    Ok(
        TransferInstruction {
            from: Endpoint::InsuranceVault,
            to: Endpoint::ProviderWallet,
            amount: payout,
        },
    )
}

} // verus!
