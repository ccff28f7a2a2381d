//! A role-gated registry of certificates: an administrator approves issuers,
//! issuers record certificates for owners, and the administrator turns a
//! recorded certificate into a request to mint a token for its owner.

pub mod account;
pub mod contract;
pub mod decimal;
pub mod error;
pub mod keyed;
pub mod laws;
pub mod metadata;
pub mod model;
pub mod records;
pub mod requests;
