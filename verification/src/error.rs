//! The ways in which a call on the registry is refused.

use vstd::prelude::*;

verus! {

/// Why a call was refused. Every refusal leaves the registry as it was.
#[derive(Clone, Copy, Debug, PartialEq, Eq, Structural)]
pub enum RegistryError {
    /// The caller does not hold the role that the operation asks for.
    Unauthorized,
    /// No certificate is on record for the owner named in the call.
    CertificateNotFound,
    /// The registry's state exists already and cannot be set up again.
    AlreadyInitialized,
    /// A text handed in as an account identifier is not one.
    InvalidIdentifier,
    /// The caller passed the issuer check but has no issuer record.
    IssuerNotFound,
}

} // verus!
