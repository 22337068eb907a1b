//! The router's message types.
//!
//! Each enum is a closed tagged union: the command set and the query set of
//! a CW20 token. The router's dispatch matches on these exhaustively, so a
//! new variant cannot be added without extending the dispatch, and no
//! variant can be dropped silently. The field values themselves are never
//! inspected by the router; they are handed to the token library unchanged.

use vstd::prelude::*;

use cosmwasm_std::{Binary, Uint128};
use cw20::Logo;
use cw_utils::Expiration;

verus! {

/// A command for the token ledger. Every variant maps to exactly one
/// operation of the token library.
pub enum ExecuteMsg {
    /// Move `amount` from the sender's balance to `recipient`'s.
    Transfer { recipient: String, amount: Uint128 },
    /// Destroy `amount` of the sender's balance, shrinking total supply.
    Burn { amount: Uint128 },
    /// Move `amount` to the contract `contract` and trigger its receive
    /// hook with the payload `msg`.
    Send { contract: String, amount: Uint128, msg: Binary },
    /// Create `amount` new tokens for `recipient`; minter only.
    Mint { recipient: String, amount: Uint128 },
    /// Raise what `spender` may spend from the sender's balance.
    IncreaseAllowance { spender: String, amount: Uint128, expires: Option<Expiration> },
    /// Lower what `spender` may spend from the sender's balance.
    DecreaseAllowance { spender: String, amount: Uint128, expires: Option<Expiration> },
    /// Move `amount` from `owner` to `recipient` on the sender's allowance.
    TransferFrom { owner: String, recipient: String, amount: Uint128 },
    /// Destroy `amount` of `owner`'s balance on the sender's allowance.
    BurnFrom { owner: String, amount: Uint128 },
    /// Move `amount` from `owner` to the contract `contract` on the
    /// sender's allowance, triggering its receive hook with `msg`.
    SendFrom { owner: String, contract: String, amount: Uint128, msg: Binary },
    /// Replace the stored marketing metadata; marketing account only.
    UpdateMarketing {
        project: Option<String>,
        description: Option<String>,
        marketing: Option<String>,
    },
    /// Replace the stored token logo; marketing account only.
    UploadLogo(Logo),
}

/// A read-only question about the token ledger. Every variant maps to
/// exactly one read-only operation of the token library.
pub enum QueryMsg {
    /// The balance recorded for `address`, zero if unset.
    Balance { address: String },
    /// Name, symbol, decimals and total supply.
    TokenInfo {},
    /// The configured mint authority and cap, if any.
    Minter {},
    /// What `spender` may still spend from `owner`, zero if unset.
    Allowance { owner: String, spender: String },
    /// The allowances granted by `owner`, paginated.
    AllAllowances { owner: String, start_after: Option<String>, limit: Option<u32> },
    /// The addresses that hold a balance, paginated.
    AllAccounts { start_after: Option<String>, limit: Option<u32> },
    /// The stored marketing metadata.
    MarketingInfo {},
    /// The stored embedded logo; an error if none is stored.
    DownloadLogo {},
}

} // verus!
