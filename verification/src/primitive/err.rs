//! Errors of the guest's exchanges with the host.
use vstd::prelude::*;

verus! {

/// Why an exchange with the host failed.
#[derive(Clone, Copy, Debug, PartialEq, Eq)]
pub enum CatscopeWasmError {
    /// There was no buffer, or none large enough, for the exchange.
    InsufficientBuffer,
    /// The host refused the request.
    NotImplemented,
}

} // verus!
