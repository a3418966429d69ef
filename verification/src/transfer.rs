use vstd::prelude::*;

verus! {

/// The balance endpoints the engine can name in a transfer authorization.
/// Moving the actual funds between them is the external ledger's job.
#[derive(Clone, Copy, Debug, PartialEq, Eq, Structural)]
pub enum Endpoint {
    /// The market maker's own token account.
    StakerWallet,
    /// The liquidity provider's own token account.
    ProviderWallet,
    /// The vault holding staked capital.
    Vault,
    /// The pooled liquidity account.
    LiquidityPool,
    /// The treasury that receives slashed stake.
    Treasury,
    /// The reserve backing fee rebates.
    FeeRebateVault,
    /// The reserve backing gas-fee rebates.
    GasFeeVault,
    /// The reserve backing insurance payouts.
    InsuranceVault,
}

/// A transfer the engine authorizes as part of an operation. The external
/// ledger executes it before or atomically with committing the updated
/// records; if the transfer fails, the records must not be committed.
#[derive(Clone, Copy, Debug, PartialEq, Eq, Structural)]
pub struct TransferInstruction {
    pub from: Endpoint,
    pub to: Endpoint,
    pub amount: u64,
}

} // verus!
