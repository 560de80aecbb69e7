//! The cancellation handle of a running process, as `tokio_util` provides it.
//!
//! A token is shared between the supervisor, which signals it, and the task
//! that forwards the process output, which waits for the signal. Nothing is
//! claimed here about a token's state: whether it has been signaled is tracked
//! by the supervisor in its own fields.

use vstd::prelude::*;
use tokio_util::sync::CancellationToken;

verus! {

/// `tokio_util::sync::CancellationToken`, carried through as an opaque value.
#[verifier::external_type_specification]
#[verifier::external_body]
pub struct ExCancellationToken(CancellationToken);

/// Calls `CancellationToken::new`. Nothing is claimed of the token returned.
#[verifier::external_body]
pub(crate) fn new_token() -> (token: CancellationToken) {
    CancellationToken::new()
}

/// Calls `CancellationToken::clone`, which hands out a second handle to the
/// same token. Nothing is claimed of the handle returned.
#[verifier::external_body]
pub(crate) fn share_token(token: &CancellationToken) -> (shared: CancellationToken) {
    token.clone()
}

/// Calls `CancellationToken::cancel`, which wakes every task that waits on
/// the token or on a handle shared from it. The call returns nothing and
/// nothing is claimed of it.
#[verifier::external_body]
pub(crate) fn signal_token(token: &CancellationToken) {
    token.cancel()
}

} // verus!
