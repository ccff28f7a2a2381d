//! The two kinds of record that the registry keeps.

use vstd::prelude::*;

use crate::account::AccountId;
use crate::metadata::{TokenMetadata, TokenMetadataView};

verus! {

/// An account that the administrator has approved to issue certificates.
#[derive(Debug, PartialEq, Eq)]
pub struct Issuer {
    pub name: String,
    pub account: AccountId,
}

/// The mathematical value of an `Issuer`.
pub struct IssuerView {
    pub name: Seq<char>,
    pub account: Seq<char>,
}

impl View for Issuer {
    type V = IssuerView;

    open spec fn view(&self) -> IssuerView {
        IssuerView { name: self.name@, account: self.account@ }
    }
}

impl Clone for Issuer {
    fn clone(&self) -> (copy: Issuer)
        ensures
            copy@ == self@,
    {
        Issuer { name: self.name.clone(), account: self.account.clone() }
    }
}

/// A credential that an issuer has recorded for an owner. It is not approved
/// when it is issued, and nothing in the registry approves it later.
#[derive(Debug, PartialEq, Eq)]
pub struct Certificate {
    pub owner_name: String,
    pub issuer_account: AccountId,
    pub is_approved: bool,
    pub metadata: TokenMetadata,
    pub owner_account: AccountId,
}

/// The mathematical value of a `Certificate`.
pub struct CertificateView {
    pub owner_name: Seq<char>,
    pub issuer_account: Seq<char>,
    pub is_approved: bool,
    pub metadata: TokenMetadataView,
    pub owner_account: Seq<char>,
}

impl View for Certificate {
    type V = CertificateView;

    open spec fn view(&self) -> CertificateView {
        CertificateView {
            owner_name: self.owner_name@,
            issuer_account: self.issuer_account@,
            is_approved: self.is_approved,
            metadata: self.metadata@,
            owner_account: self.owner_account@,
        }
    }
}

impl Clone for Certificate {
    fn clone(&self) -> (copy: Certificate)
        ensures
            copy@ == self@,
    {
        Certificate {
            owner_name: self.owner_name.clone(),
            issuer_account: self.issuer_account.clone(),
            is_approved: self.is_approved,
            metadata: self.metadata.clone(),
            owner_account: self.owner_account.clone(),
        }
    }
}

} // verus!
