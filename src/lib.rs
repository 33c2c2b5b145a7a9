//! Usage-based payment settlement: escrow accounting, settlement of verified
//! usage, fee distribution between a protocol pool and referring builders, and
//! subsidized payouts from an operator-funded pool.
//!
//! Every operation is a single all-or-nothing step over plain records. Fund
//! movements are not performed here: each operation returns the transfers the
//! host ledger must execute in the same transaction that stores the updated
//! records.
pub mod builder;
pub mod config;
pub mod error;
pub mod escrow;
pub mod fee;
pub mod fuel;
pub mod key;
pub mod laws;
pub mod settlement;
pub mod splitter;
pub mod transfer;

pub use builder::{
    BuilderBalance, claim_builder_balance, register_builder, resolve_builder, update_builder_wallet,
};
pub use config::{MarketConfig, initialize_market_config, update_authority, update_fee_bps};
pub use error::ErrorCode;
pub use escrow::{EscrowAccount, deposit_escrow, refund_remainder, withdraw_escrow};
pub use fee::{FeeSplit, FeeVaultState, claim_protocol_fees, distribute_fee, initialize_fee_vault};
pub use fuel::{FuelTank, initialize_fuel_tank, payout_user};
pub use key::Key;
pub use settlement::{Settlement, SettlementRecord, close_settlement};
pub use splitter::{
    PaymentSplit, SplitterConfig, SplitterError, initialize, split_payment, update_default_bps,
    update_treasury,
};
pub use transfer::{Pool, Transfer};
