//! The router's error type and its single error policy.
//!
//! The router generates no error of its own: every failure it reports is
//! one the token library reported first. Two policies are conceivable for
//! carrying such a failure out — wrapping it in a local error kind that
//! tags it as a delegated accounting error, or propagating the library's
//! error as it stands. The router commits to wrapping, everywhere; the
//! lemmas below state that a failure is never swallowed either way and
//! that the two policies agree on every outcome up to that tag.

use vstd::prelude::*;

use cosmwasm_std::{Empty, Response};

verus! {

/// The only error the router reports: the token library's own error,
/// carried unchanged.
#[derive(Debug)]
pub enum RouterError {
    Cw20Error(cw20_base::ContractError),
}

/// The wrapping policy: a success passes through untouched, a failure is
/// tagged as a delegated accounting error, its payload unchanged.
pub open spec fn wrap_policy(
    r: Result<Response<Empty>, cw20_base::ContractError>,
) -> Result<Response<Empty>, RouterError> {
    match r {
        Ok(resp) => Ok(resp),
        Err(e) => Err(RouterError::Cw20Error(e)),
    }
}

/// The propagating policy: the library's result is handed out as it stands.
pub open spec fn propagate_policy(
    r: Result<Response<Empty>, cw20_base::ContractError>,
) -> Result<Response<Empty>, cw20_base::ContractError> {
    r
}

/// Applies [`wrap_policy`] to what the token library returned. This is the
/// one place the router touches a library result.
pub fn wrap_cw20_result(
    r: Result<Response<Empty>, cw20_base::ContractError>,
) -> (out: Result<Response<Empty>, RouterError>)
    ensures
        out == wrap_policy(r),
{
    match r {
        Ok(resp) => Ok(resp),
        Err(e) => Err(RouterError::Cw20Error(e)),
    }
}

/// A failing library call always yields a failing router call, and the
/// library's error is carried out unchanged inside the router's tag; a
/// succeeding one always yields the library's response untouched.
pub proof fn lemma_no_error_swallowed(r: Result<Response<Empty>, cw20_base::ContractError>)
    ensures
        r is Err ==> wrap_policy(r) == Err::<Response<Empty>, RouterError>(
            RouterError::Cw20Error(r->Err_0),
        ),
        r is Ok ==> wrap_policy(r) == Ok::<Response<Empty>, RouterError>(r->Ok_0),
{
}

/// The wrapping and the propagating policy agree on every library result:
/// they succeed together, with the same response, and fail together, the
/// wrapped error carrying exactly the propagated one. The router may
/// therefore commit to wrapping without changing any outcome.
pub proof fn lemma_policies_agree(r: Result<Response<Empty>, cw20_base::ContractError>)
    ensures
        wrap_policy(r) is Ok <==> propagate_policy(r) is Ok,
        wrap_policy(r) is Ok ==> wrap_policy(r)->Ok_0 == propagate_policy(r)->Ok_0,
        wrap_policy(r) is Err ==> wrap_policy(r)->Err_0 == RouterError::Cw20Error(
            propagate_policy(r)->Err_0,
        ),
{
}

} // verus!

