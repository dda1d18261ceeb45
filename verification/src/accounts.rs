//! The records that the engine keeps and the accounts that an operation
//! is handed, each as a plain value.

use vstd::prelude::*;
use crate::keys::Address;

verus! {

/// Why an operation was refused.
#[derive(Clone, Copy, Debug, PartialEq, Eq, Structural)]
pub enum ErrorCode {
    /// The fee would take the whole amount or more.
    FeeGreaterThanAmt,
    /// The amount to settle was zero.
    ZeroAmt,
    /// The pool account is not the engine's.
    InvalidPoolAccount,
    /// An account holds less than was to be taken from it.
    InsufficientFunds,
    /// The signer is not the authority that the operation needs.
    Unauthorized,
    /// An account holds another asset than the configuration names.
    AssetMismatch,
}

impl ErrorCode {
    /// The text of the message that belongs to the error.
    pub open spec fn message_text(self) -> Seq<char> {
        match self {
            ErrorCode::FeeGreaterThanAmt => "Fee computed to be greater than amt"@,
            ErrorCode::ZeroAmt => "Amt can't be 0"@,
            ErrorCode::InvalidPoolAccount => "Invalid pool account"@,
            ErrorCode::InsufficientFunds => "Insufficient funds"@,
            ErrorCode::Unauthorized => "Signer is not the required authority"@,
            ErrorCode::AssetMismatch => "Account holds another asset"@,
        }
    }

    /// The message that belongs to the error.
    pub fn message(&self) -> (text: &'static str)
        ensures
            text@ == self.message_text(),
    {
        let text = match self {
            ErrorCode::FeeGreaterThanAmt => "Fee computed to be greater than amt",
            ErrorCode::ZeroAmt => "Amt can't be 0",
            ErrorCode::InvalidPoolAccount => "Invalid pool account",
            ErrorCode::InsufficientFunds => "Insufficient funds",
            ErrorCode::Unauthorized => "Signer is not the required authority",
            ErrorCode::AssetMismatch => "Account holds another asset",
        };
        text
    }
}

/// The network-wide parameters: the two assets and the fee rates, in basis
/// points. No rate is held to a range.
#[derive(Clone, Copy, Debug, PartialEq, Eq)]
pub struct NetworkConfig {
    pub merchant_tx_fee_basis_points: u64,
    pub purchase_protection_fee_basis_points: u64,
    pub usdc_mint: Address,
    pub shekel_token_mint: Address,
}

/// The running totals: the volume settled, and the rewards paid to senders
/// and to recipients. They start at zero, only settlements raise them, and
/// nothing resets them.
#[derive(Clone, Copy, Debug, PartialEq, Eq)]
pub struct Stats {
    pub amount_moved: u64,
    pub amount_rewarded_sender: u64,
    pub amount_rewarded_recipient: u64,
}

impl Default for Stats {
    fn default() -> (r: Stats)
        ensures
            r.amount_moved == 0,
            r.amount_rewarded_sender == 0,
            r.amount_rewarded_recipient == 0,
    {
        Stats { amount_moved: 0, amount_rewarded_sender: 0, amount_rewarded_recipient: 0 }
    }
}

/// The record that marks the engine's signing authority; `key` is the
/// address at which it lives.
#[derive(Clone, Copy, Debug, PartialEq, Eq)]
pub struct Authority {
    pub key: Address,
}

impl Default for NetworkConfig {
    fn default() -> (r: NetworkConfig)
        ensures
            r.merchant_tx_fee_basis_points == 0,
            r.purchase_protection_fee_basis_points == 0,
            r.usdc_mint@ == Address::zero_bytes(),
            r.shekel_token_mint@ == Address::zero_bytes(),
    {
        NetworkConfig {
            merchant_tx_fee_basis_points: 0,
            purchase_protection_fee_basis_points: 0,
            usdc_mint: Address::zero(),
            shekel_token_mint: Address::zero(),
        }
    }
}

impl Default for Authority {
    fn default() -> (r: Authority)
        ensures
            r.key@ == Address::zero_bytes(),
    {
        Authority { key: Address::zero() }
    }
}

/// An account that holds a balance of one asset for one owner.
#[derive(Clone, Copy, Debug, PartialEq, Eq)]
pub struct TokenAccount {
    pub mint: Address,
    pub owner: Address,
    pub amount: u64,
}

impl TokenAccount {
    /// The same account with another balance.
    pub open spec fn with_amount(self, amount: int) -> TokenAccount {
        TokenAccount { mint: self.mint, owner: self.owner, amount: amount as u64 }
    }
}

/// The accounts of one settlement.
#[derive(Clone, Copy, Debug, PartialEq, Eq)]
pub struct TransferUSDC {
    /// The payer, who signs.
    pub owner: Address,
    /// The payer's stable-asset account.
    pub source: TokenAccount,
    /// The payer's reward-asset account.
    pub source_token_account: TokenAccount,
    /// The recipient's stable-asset account.
    pub destination: TokenAccount,
    /// The recipient's reward-asset account.
    pub destination_token_account: TokenAccount,
    pub network_config: NetworkConfig,
    /// Where fees are collected.
    pub pool_account: TokenAccount,
    pub stats: Stats,
    /// Where rewards are paid from.
    pub treasury: TokenAccount,
    pub authority: Authority,
}

/// The accounts of the first configuration.
#[derive(Clone, Copy, Debug, PartialEq, Eq)]
pub struct Init {
    pub network_config: NetworkConfig,
    /// Who asks for it, and signs.
    pub payer: Address,
    /// The ledger: all zero when its record was just created. The
    /// configuration never writes to it.
    pub stats: Stats,
    pub shekel_token_mint: Address,
    pub usdc_mint: Address,
}

/// The accounts of a later configuration.
#[derive(Clone, Copy, Debug, PartialEq, Eq)]
pub struct SetNetworkConfig {
    pub network_config: NetworkConfig,
    pub shekel_token_mint: Address,
    pub usdc_mint: Address,
    /// Who asks for it, and signs.
    pub signer: Address,
}

/// The accounts of a withdrawal from the treasury.
#[derive(Clone, Copy, Debug, PartialEq, Eq)]
pub struct TransferTreasury {
    pub token_treasury: TokenAccount,
    pub destination: TokenAccount,
    pub network_config: NetworkConfig,
    /// Who asks for it, and signs.
    pub signer: Address,
    pub authority: Authority,
}

/// The accounts of a withdrawal from the pool.
#[derive(Clone, Copy, Debug, PartialEq, Eq)]
pub struct TransferPool {
    pub pool_account: TokenAccount,
    pub destination: TokenAccount,
    pub network_config: NetworkConfig,
    /// Who asks for it, and signs.
    pub signer: Address,
    pub authority: Authority,
}

} // verus!
