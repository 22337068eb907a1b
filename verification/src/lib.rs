//! A CW20 fungible-token contract shell: a stateless message router over
//! the `cw20_base` token-accounting library.
//!
//! The library owns all ledger state — balances, allowances, total supply,
//! marketing metadata — inside the host's persistent store. The router owns
//! none of it: it matches a closed set of command and query tags, forwards
//! each to exactly one library operation with the arguments in order and
//! unchanged, and carries the result out under a single error policy.
//!
//! What is verified here is exactly the router's own obligations: the
//! dispatch is exhaustive, the router's own code cannot panic, and the
//! error policy never swallows a library failure. What the library itself
//! does to the ledger is assumed, not proved: every call into it goes
//! through the trusted wrappers of [`bindings`].
//!
//! One caveat carries through from the library. In a few paths — summing
//! the initial balances, minting, raising an allowance — it adds with
//! strict `Uint128` arithmetic, which aborts on overflow past `u128::MAX`
//! instead of returning an error. A call into the router can therefore
//! abort rather than return, on inputs no contract here can exclude: the
//! trigger depends on the persistent store. The host environment, which
//! runs each invocation to completion or rolls it back whole, is what
//! contains such an abort.

pub mod bindings;
pub mod contract;
pub mod error;
pub mod msg;
