//! The error taxonomy every operation reports through. Errors are values
//! handed back to the caller; no function of this crate panics on bad input.

use vstd::prelude::*;

verus! {

/// Why an operation could not produce a response body.
#[derive(Debug, Clone, PartialEq)]
pub enum OpsError {
    /// The caller's arguments are outside what the service accepts: an
    /// unsupported reference type, a bulk list with fewer than two entries, or
    /// a bulk list mixing reference types.
    Validation,
    /// The transport could not complete the exchange (connection, name
    /// resolution, or timeout failure).
    Transport,
    /// The service answered with a status other than 200; the status and the
    /// body are kept for diagnosis.
    Upstream { status: u16, body: String },
    /// A response body did not have the expected shape; the raw body is kept.
    Decode { raw_body: String },
}

} // verus!
