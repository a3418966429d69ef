use vstd::prelude::*;

verus! {

/// Parameters supplied when the protocol configuration is created.
#[derive(Clone, Copy, Debug, PartialEq, Eq, Structural)]
pub struct ConfigParams {
    pub reward_rate: u64,
    pub volatility_threshold: u64,
}

/// Process-wide configuration, created once and read by every operation
/// that needs it. `reward_rate` is the divisor of the reward formula.
#[derive(Clone, Copy, Debug, PartialEq, Eq, Structural)]
pub struct Config {
    pub reward_rate: u64,
    pub volatility_threshold: u64,
}

/// A market maker's record: staked capital, running performance counters,
/// flags, and the timestamps the anti-abuse gates read.
#[derive(Clone, Copy, Debug, PartialEq, Eq, Structural)]
pub struct MarketMaker {
    pub staked_amount: u64,
    pub execution_volume: u64,
    pub spread_efficiency: u64,
    pub order_flow: u64,
    pub has_priority_access: bool,
    pub auto_compound: bool,
    pub last_trade_time: i64,
    pub last_stake_time: i64,
    pub reward_multiplier: u64,
}

/// A liquidity provider's record. `reward_multiplier` is scaled by 100,
/// so 100 means 1.0x. `loss_occurred` is set by an external loss-detection
/// process and only read here.
#[derive(Clone, Copy, Debug, PartialEq, Eq, Structural)]
pub struct LiquidityProvider {
    pub liquidity: u64,
    pub lock_duration: u64,
    pub reward_multiplier: u64,
    pub last_deposit_time: i64,
    pub reward_balance: u64,
    pub loss_occurred: bool,
}

/// Shared reserve for pro-rata fee rebates: claimable fees and the total
/// execution volume the pro-rata share is measured against.
#[derive(Clone, Copy, Debug, PartialEq, Eq, Structural)]
pub struct FeeRebatePool {
    pub total_fees: u64,
    pub total_execution_volume: u64,
}

/// Shared reserve for gas-fee rebates.
#[derive(Clone, Copy, Debug, PartialEq, Eq, Structural)]
pub struct GasFeePool {
    pub total_funds: u64,
}

/// Shared reserve for insurance payouts.
#[derive(Clone, Copy, Debug, PartialEq, Eq, Structural)]
pub struct InsurancePool {
    pub total_funds: u64,
}

/// A governance proposal and its monotonically accumulating vote tally.
#[derive(Clone, Copy, Debug, PartialEq, Eq, Structural)]
pub struct Proposal {
    pub proposal_id: u64,
    pub votes: u64,
}

/// A voter's record: the token balance that bounds its vote weight.
#[derive(Clone, Copy, Debug, PartialEq, Eq, Structural)]
pub struct Voter {
    pub token_balance: u64,
}

/// Create the protocol configuration from its parameters.
pub fn initialize(config_params: ConfigParams) -> (config: Config)
    ensures
        config.reward_rate == config_params.reward_rate,
        config.volatility_threshold == config_params.volatility_threshold,
{
    Config {
        reward_rate: config_params.reward_rate,
        volatility_threshold: config_params.volatility_threshold,
    }
}

} // verus!
