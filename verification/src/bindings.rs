//! Trusted declarations of the host-platform and token-library types, and
//! the wrappers through which the router calls the token library.
//!
//! Everything in this module is taken on trust: Verus sees the declared
//! types as opaque values and believes each wrapper's contract without
//! reading its body. All the router's own logic lives outside this module.
//!
//! The token library owns the whole ledger (balances, allowances, supply,
//! marketing metadata) inside the host's persistent store, so what each
//! call returns depends on that store: none of these wrappers can promise
//! success or pin a result, and the router's verified code treats every
//! outcome as possible.
//!
//! Nor can every wrapper promise to return at all. The library adds with
//! strict `Uint128` arithmetic in several paths; where such an add can
//! overflow on inputs the ledger itself can produce — summing the initial
//! balances, minting, raising an allowance — the call aborts instead of
//! returning an error, and the wrapper's doc comment says so. The
//! recipient-side adds of the transfer and send paths are strict too, but
//! can overflow only on a store whose recorded balances already sum past
//! `u128::MAX`, which no run of the library produces.

use vstd::prelude::*;

use cosmwasm_std::{Binary, Empty, Env, MessageInfo, Response, StdError, Uint128};
use cw20::Logo;
use cw_utils::Expiration;

verus! {

/// Read-write handle on the host's persistent store, as the token library
/// expects it. `cosmwasm_std::DepsMut` itself cannot be declared to Verus
/// (its `CustomQuery` bound is an outside trait), so it is carried opaquely
/// in a struct of the router's own; the field stays public so that the
/// unverified host shell can build the handle directly.
#[verifier::external_body]
pub struct StoreMut<'a> {
    pub deps: cosmwasm_std::DepsMut<'a>,
}

/// Read-only counterpart of [`StoreMut`], carrying `cosmwasm_std::Deps`.
#[verifier::external_body]
pub struct StoreRef<'a> {
    pub deps: cosmwasm_std::Deps<'a>,
}

#[verifier::external_type_specification]
#[verifier::external_body]
pub struct ExEnv(cosmwasm_std::Env);

#[verifier::external_type_specification]
#[verifier::external_body]
pub struct ExMessageInfo(cosmwasm_std::MessageInfo);

#[verifier::external_type_specification]
#[verifier::external_body]
pub struct ExEmpty(cosmwasm_std::Empty);

#[verifier::external_type_specification]
#[verifier::external_body]
#[verifier::reject_recursive_types(T)]
pub struct ExResponse<T>(cosmwasm_std::Response<T>);

#[verifier::external_type_specification]
#[verifier::external_body]
pub struct ExBinary(cosmwasm_std::Binary);

#[verifier::external_type_specification]
#[verifier::external_body]
pub struct ExUint128(cosmwasm_std::Uint128);

#[verifier::external_type_specification]
#[verifier::external_body]
pub struct ExStdError(cosmwasm_std::StdError);

#[verifier::external_type_specification]
#[verifier::external_body]
pub struct ExCw20BaseError(cw20_base::ContractError);

#[verifier::external_type_specification]
#[verifier::external_body]
pub struct ExInstantiateMsg(cw20_base::msg::InstantiateMsg);

#[verifier::external_type_specification]
#[verifier::external_body]
pub struct ExExpiration(cw_utils::Expiration);

#[verifier::external_type_specification]
#[verifier::external_body]
pub struct ExLogo(cw20::Logo);

/// Relies on cw20_base::contract::instantiate: validates the token
/// configuration and writes the initial ledger into the store. The
/// library sums the initial balances with strict arithmetic: a sum past
/// `u128::MAX` aborts the call instead of returning an error, so this
/// wrapper may not return.
#[verifier::external_body]
pub(crate) fn base_instantiate(
    store: StoreMut<'_>,
    env: Env,
    info: MessageInfo,
    msg: cw20_base::msg::InstantiateMsg,
) -> Result<Response<Empty>, cw20_base::ContractError> {
    cw20_base::contract::instantiate(store.deps, env, info, msg)
}

/// Relies on cw20_base::contract::execute_transfer: moves `amount` from the
/// sender's balance to `recipient`'s.
#[verifier::external_body]
pub(crate) fn base_transfer(
    store: StoreMut<'_>,
    env: Env,
    info: MessageInfo,
    recipient: String,
    amount: Uint128,
) -> Result<Response<Empty>, cw20_base::ContractError> {
    cw20_base::contract::execute_transfer(store.deps, env, info, recipient, amount)
}

/// Relies on cw20_base::contract::execute_burn: removes `amount` from the
/// sender's balance and from the total supply.
#[verifier::external_body]
pub(crate) fn base_burn(
    store: StoreMut<'_>,
    env: Env,
    info: MessageInfo,
    amount: Uint128,
) -> Result<Response<Empty>, cw20_base::ContractError> {
    cw20_base::contract::execute_burn(store.deps, env, info, amount)
}

/// Relies on cw20_base::contract::execute_send: moves `amount` to the
/// receiving contract's balance and attaches a receive hook carrying `msg`.
#[verifier::external_body]
pub(crate) fn base_send(
    store: StoreMut<'_>,
    env: Env,
    info: MessageInfo,
    contract: String,
    amount: Uint128,
    msg: Binary,
) -> Result<Response<Empty>, cw20_base::ContractError> {
    cw20_base::contract::execute_send(store.deps, env, info, contract, amount, msg)
}

/// Relies on cw20_base::contract::execute_mint: credits `amount` to
/// `recipient` if the sender is the configured minter and the cap allows.
/// The library adds the minted amount to the total supply with strict
/// arithmetic, before any cap check: past `u128::MAX` the call aborts
/// instead of returning an error, so this wrapper may not return.
#[verifier::external_body]
pub(crate) fn base_mint(
    store: StoreMut<'_>,
    env: Env,
    info: MessageInfo,
    recipient: String,
    amount: Uint128,
) -> Result<Response<Empty>, cw20_base::ContractError> {
    cw20_base::contract::execute_mint(store.deps, env, info, recipient, amount)
}

/// Relies on cw20_base::allowances::execute_increase_allowance: raises the
/// allowance the sender grants `spender`, optionally with an expiration.
/// The library raises the stored allowance with strict arithmetic: past
/// `u128::MAX` the call aborts instead of returning an error, so this
/// wrapper may not return.
#[verifier::external_body]
pub(crate) fn base_increase_allowance(
    store: StoreMut<'_>,
    env: Env,
    info: MessageInfo,
    spender: String,
    amount: Uint128,
    expires: Option<Expiration>,
) -> Result<Response<Empty>, cw20_base::ContractError> {
    cw20_base::allowances::execute_increase_allowance(store.deps, env, info, spender, amount, expires)
}

/// Relies on cw20_base::allowances::execute_decrease_allowance: lowers the
/// allowance the sender grants `spender`, optionally with an expiration.
#[verifier::external_body]
pub(crate) fn base_decrease_allowance(
    store: StoreMut<'_>,
    env: Env,
    info: MessageInfo,
    spender: String,
    amount: Uint128,
    expires: Option<Expiration>,
) -> Result<Response<Empty>, cw20_base::ContractError> {
    cw20_base::allowances::execute_decrease_allowance(store.deps, env, info, spender, amount, expires)
}

/// Relies on cw20_base::allowances::execute_transfer_from: moves `amount`
/// from `owner` to `recipient`, spending the sender's allowance.
#[verifier::external_body]
pub(crate) fn base_transfer_from(
    store: StoreMut<'_>,
    env: Env,
    info: MessageInfo,
    owner: String,
    recipient: String,
    amount: Uint128,
) -> Result<Response<Empty>, cw20_base::ContractError> {
    cw20_base::allowances::execute_transfer_from(store.deps, env, info, owner, recipient, amount)
}

/// Relies on cw20_base::allowances::execute_burn_from: burns `amount` out
/// of `owner`'s balance, spending the sender's allowance.
#[verifier::external_body]
pub(crate) fn base_burn_from(
    store: StoreMut<'_>,
    env: Env,
    info: MessageInfo,
    owner: String,
    amount: Uint128,
) -> Result<Response<Empty>, cw20_base::ContractError> {
    cw20_base::allowances::execute_burn_from(store.deps, env, info, owner, amount)
}

/// Relies on cw20_base::allowances::execute_send_from: moves `amount` from
/// `owner` to the receiving contract, spending the sender's allowance, and
/// attaches a receive hook carrying `msg`.
#[verifier::external_body]
pub(crate) fn base_send_from(
    store: StoreMut<'_>,
    env: Env,
    info: MessageInfo,
    owner: String,
    contract: String,
    amount: Uint128,
    msg: Binary,
) -> Result<Response<Empty>, cw20_base::ContractError> {
    cw20_base::allowances::execute_send_from(store.deps, env, info, owner, contract, amount, msg)
}

/// Relies on cw20_base::contract::execute_update_marketing: replaces the
/// stored project, description and marketing-address fields if the sender
/// is the marketing account.
#[verifier::external_body]
pub(crate) fn base_update_marketing(
    store: StoreMut<'_>,
    env: Env,
    info: MessageInfo,
    project: Option<String>,
    description: Option<String>,
    marketing: Option<String>,
) -> Result<Response<Empty>, cw20_base::ContractError> {
    cw20_base::contract::execute_update_marketing(store.deps, env, info, project, description, marketing)
}

/// Relies on cw20_base::contract::execute_upload_logo: validates and stores
/// the token logo if the sender is the marketing account.
#[verifier::external_body]
pub(crate) fn base_upload_logo(
    store: StoreMut<'_>,
    env: Env,
    info: MessageInfo,
    logo: Logo,
) -> Result<Response<Empty>, cw20_base::ContractError> {
    cw20_base::contract::execute_upload_logo(store.deps, env, info, logo)
}

/// Relies on cw20_base::contract::query_balance (the balance recorded for
/// `address`, zero if unset) and on cosmwasm_std::to_json_binary, which
/// encodes the response for the host.
#[verifier::external_body]
pub(crate) fn base_query_balance(store: StoreRef<'_>, address: String) -> Result<Binary, StdError> {
    match cw20_base::contract::query_balance(store.deps, address) {
        Ok(resp) => cosmwasm_std::to_json_binary(&resp),
        Err(e) => Err(e),
    }
}

/// Relies on cw20_base::contract::query_token_info (name, symbol, decimals
/// and total supply) and on cosmwasm_std::to_json_binary.
#[verifier::external_body]
pub(crate) fn base_query_token_info(store: StoreRef<'_>) -> Result<Binary, StdError> {
    match cw20_base::contract::query_token_info(store.deps) {
        Ok(resp) => cosmwasm_std::to_json_binary(&resp),
        Err(e) => Err(e),
    }
}

/// Relies on cw20_base::contract::query_minter (the configured mint
/// authority and cap, if any) and on cosmwasm_std::to_json_binary.
#[verifier::external_body]
pub(crate) fn base_query_minter(store: StoreRef<'_>) -> Result<Binary, StdError> {
    match cw20_base::contract::query_minter(store.deps) {
        Ok(resp) => cosmwasm_std::to_json_binary(&resp),
        Err(e) => Err(e),
    }
}

/// Relies on cw20_base::allowances::query_allowance (what `spender` may
/// still spend from `owner`, zero if unset) and on
/// cosmwasm_std::to_json_binary.
#[verifier::external_body]
pub(crate) fn base_query_allowance(
    store: StoreRef<'_>,
    owner: String,
    spender: String,
) -> Result<Binary, StdError> {
    match cw20_base::allowances::query_allowance(store.deps, owner, spender) {
        Ok(resp) => cosmwasm_std::to_json_binary(&resp),
        Err(e) => Err(e),
    }
}

/// Relies on cw20_base::enumerable::query_owner_allowances (the paginated
/// allowances granted by `owner`) and on cosmwasm_std::to_json_binary.
#[verifier::external_body]
pub(crate) fn base_query_all_allowances(
    store: StoreRef<'_>,
    owner: String,
    start_after: Option<String>,
    limit: Option<u32>,
) -> Result<Binary, StdError> {
    match cw20_base::enumerable::query_owner_allowances(store.deps, owner, start_after, limit) {
        Ok(resp) => cosmwasm_std::to_json_binary(&resp),
        Err(e) => Err(e),
    }
}

/// Relies on cw20_base::enumerable::query_all_accounts (the paginated list
/// of holders) and on cosmwasm_std::to_json_binary.
#[verifier::external_body]
pub(crate) fn base_query_all_accounts(
    store: StoreRef<'_>,
    start_after: Option<String>,
    limit: Option<u32>,
) -> Result<Binary, StdError> {
    match cw20_base::enumerable::query_all_accounts(store.deps, start_after, limit) {
        Ok(resp) => cosmwasm_std::to_json_binary(&resp),
        Err(e) => Err(e),
    }
}

/// Relies on cw20_base::contract::query_marketing_info (the stored
/// marketing metadata, empty if unset) and on cosmwasm_std::to_json_binary.
#[verifier::external_body]
pub(crate) fn base_query_marketing_info(store: StoreRef<'_>) -> Result<Binary, StdError> {
    match cw20_base::contract::query_marketing_info(store.deps) {
        Ok(resp) => cosmwasm_std::to_json_binary(&resp),
        Err(e) => Err(e),
    }
}

/// Relies on cw20_base::contract::query_download_logo (the stored embedded
/// logo; an error if none is stored) and on cosmwasm_std::to_json_binary.
#[verifier::external_body]
pub(crate) fn base_query_download_logo(store: StoreRef<'_>) -> Result<Binary, StdError> {
    match cw20_base::contract::query_download_logo(store.deps) {
        Ok(resp) => cosmwasm_std::to_json_binary(&resp),
        Err(e) => Err(e),
    }
}

} // verus!
