//! The message router: the three entry handlers of the token contract.
//!
//! Each handler decodes nothing and computes nothing: it pattern-matches a
//! closed message set and forwards each variant to exactly one operation of
//! the token library, arguments in order and unchanged. The matches are
//! exhaustive, so no variant is ever dropped. A command failure is wrapped
//! by the single error policy of [`crate::error`]; a query failure is the
//! host's standard error, propagated as it stands.
//!
//! The contracts on these handlers deliberately state the error policy and
//! nothing more. Every message field, every response and every error is an
//! opaque host or library value, and each call's outcome depends on the
//! persistent store, so no honest `ensures` can pin which operation ran or
//! what it returned: that the tag selects the one matching operation is
//! carried by the exhaustive match itself and exercised by the integration
//! tests, not stated as a clause.

use vstd::prelude::*;

use cosmwasm_std::{Binary, Empty, Env, MessageInfo, Response, StdError};

use crate::bindings;
use crate::bindings::{StoreMut, StoreRef};
use crate::error::{wrap_cw20_result, RouterError};
use crate::msg::{ExecuteMsg, QueryMsg};

verus! {

/// Forwards the whole token configuration, unmodified, to the token
/// library's instantiation routine. The router adds no check of its own;
/// a library failure comes back wrapped by the single error policy. Where
/// the library's strict sum of the initial balances overflows, the call
/// aborts instead of returning — see [`crate::bindings`].
pub fn instantiate(
    store: StoreMut<'_>,
    env: Env,
    info: MessageInfo,
    msg: cw20_base::msg::InstantiateMsg,
) -> (r: Result<Response<Empty>, RouterError>)
    ensures
        r is Err ==> r->Err_0 is Cw20Error,
{
    wrap_cw20_result(bindings::base_instantiate(store, env, info, msg))
}

/// Forwards a command to the one token-library operation its tag selects,
/// arguments in order and unchanged. Whatever the library returns comes
/// back through the wrapping policy: its response untouched on success,
/// its error tagged as a delegated accounting error on failure — so every
/// error this function reports is a library error, none arises here. On
/// the mint and allowance-increase paths the library's strict arithmetic
/// aborts on overflow instead of erring, so the call may not return — see
/// [`crate::bindings`].
pub fn execute(
    store: StoreMut<'_>,
    env: Env,
    info: MessageInfo,
    msg: ExecuteMsg,
) -> (r: Result<Response<Empty>, RouterError>)
    ensures
        r is Err ==> r->Err_0 is Cw20Error,
{
    match msg {
        ExecuteMsg::Transfer { recipient, amount } => {
            wrap_cw20_result(bindings::base_transfer(store, env, info, recipient, amount))
        }
        ExecuteMsg::Burn { amount } => wrap_cw20_result(bindings::base_burn(store, env, info, amount)),
        ExecuteMsg::Send { contract, amount, msg } => {
            wrap_cw20_result(bindings::base_send(store, env, info, contract, amount, msg))
        }
        ExecuteMsg::Mint { recipient, amount } => {
            wrap_cw20_result(bindings::base_mint(store, env, info, recipient, amount))
        }
        ExecuteMsg::IncreaseAllowance { spender, amount, expires } => {
            wrap_cw20_result(bindings::base_increase_allowance(store, env, info, spender, amount, expires))
        }
        ExecuteMsg::DecreaseAllowance { spender, amount, expires } => {
            wrap_cw20_result(bindings::base_decrease_allowance(store, env, info, spender, amount, expires))
        }
        ExecuteMsg::TransferFrom { owner, recipient, amount } => {
            wrap_cw20_result(bindings::base_transfer_from(store, env, info, owner, recipient, amount))
        }
        ExecuteMsg::BurnFrom { owner, amount } => {
            wrap_cw20_result(bindings::base_burn_from(store, env, info, owner, amount))
        }
        ExecuteMsg::SendFrom { owner, contract, amount, msg } => {
            wrap_cw20_result(bindings::base_send_from(store, env, info, owner, contract, amount, msg))
        }
        ExecuteMsg::UpdateMarketing { project, description, marketing } => {
            wrap_cw20_result(bindings::base_update_marketing(store, env, info, project, description, marketing))
        }
        ExecuteMsg::UploadLogo(logo) => wrap_cw20_result(bindings::base_upload_logo(store, env, info, logo)),
    }
}

/// Forwards a query to the one read-only token-library operation its tag
/// selects, arguments in order and unchanged, and hands out the library's
/// response in the host's binary encoding, or its error as it stands.
/// Its contract is deliberately empty: both sides of the result are
/// opaque values from the trusted boundary, and nothing true of them can
/// be stated here.
pub fn query(store: StoreRef<'_>, env: Env, msg: QueryMsg) -> Result<Binary, StdError> {
    match msg {
        QueryMsg::Balance { address } => bindings::base_query_balance(store, address),
        QueryMsg::TokenInfo {} => bindings::base_query_token_info(store),
        QueryMsg::Minter {} => bindings::base_query_minter(store),
        QueryMsg::Allowance { owner, spender } => {
            bindings::base_query_allowance(store, owner, spender)
        }
        QueryMsg::AllAllowances { owner, start_after, limit } => {
            bindings::base_query_all_allowances(store, owner, start_after, limit)
        }
        QueryMsg::AllAccounts { start_after, limit } => {
            bindings::base_query_all_accounts(store, start_after, limit)
        }
        QueryMsg::MarketingInfo {} => bindings::base_query_marketing_info(store),
        QueryMsg::DownloadLogo {} => bindings::base_query_download_logo(store),
    }
}

} // verus!
