//! Incentive-and-risk engine for a market-making and liquidity protocol.
//!
//! The engine tracks staked capital, trading performance, liquidity
//! deposits, and distributes rewards, rebates, slashes and insurance
//! payouts by deterministic rules. Each operation is a single atomic state
//! transition over the account records it names: it either returns updated
//! records together with at most one authorized transfer instruction for
//! the external ledger to execute, or a typed failure with the records
//! untouched. Moving funds, authenticating callers, storing records and
//! reading the clock are the surrounding environment's jobs; the engine
//! only consumes a supplied current time and authorizes transfer amounts.

pub mod accounts;
pub mod arith;
pub mod errors;
pub mod governance;
pub mod laws;
pub mod liquidity;
pub mod pools;
pub mod risk;
pub mod staking;
pub mod transfer;

pub use accounts::initialize;
pub use accounts::Config;
pub use accounts::ConfigParams;
pub use accounts::FeeRebatePool;
pub use accounts::GasFeePool;
pub use accounts::InsurancePool;
pub use accounts::LiquidityProvider;
pub use accounts::MarketMaker;
pub use accounts::Proposal;
pub use accounts::Voter;
pub use errors::CustomError;
pub use governance::vote;
pub use liquidity::claim_liquidity_rewards;
pub use liquidity::lock_liquidity;
pub use liquidity::provide_liquidity;
pub use liquidity::withdraw_liquidity;
pub use pools::claim_fee_rebate;
pub use pools::claim_gas_fee_rebate;
pub use pools::claim_insurance_payout;
pub use risk::adjust_rewards_by_volatility;
pub use risk::enforce_activity_slashing;
pub use risk::enforce_min_trade_volume;
pub use risk::enforce_stake_cooldown;
pub use staking::distribute_rewards;
pub use staking::enable_auto_compound;
pub use staking::request_priority_execution;
pub use staking::stake_tokens;
pub use staking::update_performance;
pub use transfer::Endpoint;
pub use transfer::TransferInstruction;
