//! The failures this layer reports.

use vstd::prelude::*;

verus! {

/// The one signal for a credential that was not accepted. It deliberately
/// does not say which check failed: a malformed token, a wrong signature and
/// an expired claim all look the same from outside.
#[derive(Debug, Clone, Copy, PartialEq, Eq, Structural)]
pub struct AuthenticationFailure;

/// Why a session operation failed.
#[derive(Debug, Clone, Copy, PartialEq, Eq, Structural)]
pub enum Error {
    /// No connection to the store could be had, or the transport failed.
    ConnectionError,
    /// The store refused the operation.
    StoreError,
    /// The stored value cannot be read as the type asked for.
    TypeError,
    /// The field is absent.
    NotFound,
}

} // verus!
