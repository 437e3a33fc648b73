//! The messages that the entry points accept.

use vstd::prelude::*;
use cosmwasm_std::Binary;
use cw20::Logo;
use cw_utils::Expiration;

verus! {

/// A command that changes the ledger.
#[derive(Debug, PartialEq)]
pub enum ExecuteMsg {
    /// Move `amount` from the caller to `recipient`.
    Transfer { recipient: String, amount: u128 },
    /// Destroy `amount` of the caller's balance.
    Burn { amount: u128 },
    /// Move `amount` to the contract `contract` and hand it `msg`.
    Send { contract: String, amount: u128, msg: Binary },
    /// Create `amount` in `recipient`'s balance; the caller must be the minter.
    Mint { recipient: String, amount: u128 },
    /// Let `spender` spend `amount` more of the caller's balance.
    IncreaseAllowance { spender: String, amount: u128, expires: Option<Expiration> },
    /// Let `spender` spend `amount` less of the caller's balance.
    DecreaseAllowance { spender: String, amount: u128, expires: Option<Expiration> },
    /// Move `amount` from `owner` to `recipient`, out of the caller's allowance.
    TransferFrom { owner: String, recipient: String, amount: u128 },
    /// Destroy `amount` of `owner`'s balance, out of the caller's allowance.
    BurnFrom { owner: String, amount: u128 },
    /// Move `amount` from `owner` to the contract `contract`, out of the
    /// caller's allowance, and hand it `msg`.
    SendFrom { owner: String, contract: String, amount: u128, msg: Binary },
    /// Replace the marketing metadata; the caller must be the marketing admin.
    UpdateMarketing {
        project: Option<String>,
        description: Option<String>,
        marketing: Option<String>,
    },
    /// Replace the stored logo; the caller must be the marketing admin.
    UploadLogo(Logo),
}

/// A question about the ledger.
#[derive(Clone, Debug, PartialEq)]
pub enum QueryMsg {
    /// The balance of `address`.
    Balance { address: String },
    /// Name, symbol, decimals and total supply.
    TokenInfo {},
    /// Who may mint, and up to which cap.
    Minter {},
    /// What `spender` may spend of `owner`'s balance.
    Allowance { owner: String, spender: String },
    /// The allowances that `owner` has granted, by pages.
    AllAllowances { owner: String, start_after: Option<String>, limit: Option<u32> },
    /// The accounts that hold a balance, by pages.
    AllAccounts { start_after: Option<String>, limit: Option<u32> },
    /// The marketing metadata.
    MarketingInfo {},
    /// The stored logo.
    DownloadLogo {},
}

/// The migration message: it carries nothing.
#[derive(Clone, Copy, Debug, PartialEq, Eq, Default)]
pub struct MigrateMsg {}

} // verus!
