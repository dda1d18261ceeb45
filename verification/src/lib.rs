//! Settlement engine for a stable-asset payment network with a tapering
//! reward schedule.
//!
//! A settlement moves an amount of the stable asset from a payer to a
//! recipient, diverts a fee into a pool, and pays both parties a reward
//! from a treasury whenever a fee was collected. Every account is held as
//! a plain value, so each operation is a verified state transition.

pub mod curve;
pub mod keys;
pub mod accounts;
pub mod mover;
pub mod admin;
pub mod settle;

pub use crate::accounts::{
    Authority, ErrorCode, Init, NetworkConfig, SetNetworkConfig, Stats, TokenAccount,
    TransferPool, TransferTreasury, TransferUSDC,
};
pub use crate::admin::{
    authorize, init, init_with, set_network_config, set_network_config_with, transfer_pool,
    transfer_pool_with, transfer_treasury, transfer_treasury_with,
};
pub use crate::curve::{
    get_reward_rate, BASIS_PTS_PRECISION, INITIAL_REWARD, ONE_SHEKEL_TOKEN, TARGET_MOVED_AMT,
    TARGET_REWARD,
};
pub use crate::keys::{operator, program_id, signing_authority, Address, AUTHORITY_TAG, OWNER, PROGRAM_ID};
pub use crate::mover::{reward_tokens, reward_tokens_with, transfer_usdc};
pub use crate::settle::{fee_amount, reward_payout, transact, transact_with, within_limits};
