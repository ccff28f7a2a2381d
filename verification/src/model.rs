//! The registry as a mathematical state, and what each operation makes of it.
//!
//! Every operation is described twice here: by the result that it returns to
//! its caller and by the state that it leaves. The executable registry is
//! specified against these functions, and the laws of the registry are proved
//! of them.

use vstd::prelude::*;

use crate::error::RegistryError;
use crate::metadata::certificate_metadata;
use crate::records::{CertificateView, IssuerView};
use crate::requests::{MintRequestView, TransferRequestView};

verus! {

/// The state of a registry: its administrator, the issuers by account, the
/// certificates by owner, and the owners in the order in which each first
/// received a certificate.
pub struct ContractView {
    pub administrator: Seq<char>,
    pub issuers: Map<Seq<char>, IssuerView>,
    pub certificates: Map<Seq<char>, CertificateView>,
    pub owners: Seq<Seq<char>>,
}

/// A result whose value is taken by its view.
pub open spec fn outcome<T: View>(r: Result<T, RegistryError>) -> Result<T::V, RegistryError> {
    match r {
        Ok(value) => Ok(value@),
        Err(e) => Err(e),
    }
}

/// The certificate that `issuer` records at clock reading `issued_at`.
pub open spec fn issued_certificate(
    issuer: Seq<char>,
    issued_at: u64,
    owner_name: Seq<char>,
    owner_account: Seq<char>,
    media_uri: Seq<char>,
) -> CertificateView {
    CertificateView {
        owner_name,
        issuer_account: issuer,
        is_approved: false,
        metadata: certificate_metadata(media_uri, issued_at),
        owner_account,
    }
}

impl ContractView {
    /// What holds of every state that a registry can reach: issuers are
    /// finitely many and filed under their own account; certificates are filed
    /// under their owner's account, one per owner, and `owners` lists exactly
    /// those owners, each once; no certificate is approved; and every
    /// certificate names a registered issuer.
    pub open spec fn wf(self) -> bool {
        &&& self.issuers.dom().finite()
        &&& forall|a: Seq<char>| #[trigger]
            self.issuers.contains_key(a) ==> self.issuers[a].account == a
        &&& self.owners.no_duplicates()
        &&& forall|o: Seq<char>| #[trigger]
            self.certificates.contains_key(o) <==> self.owners.contains(o)
        &&& forall|o: Seq<char>| #[trigger]
            self.certificates.contains_key(o) ==> {
                &&& self.certificates[o].owner_account == o
                &&& !self.certificates[o].is_approved
                &&& self.issuers.contains_key(self.certificates[o].issuer_account)
            }
    }

    /// The state of a registry that `administrator` has just set up.
    pub open spec fn initial(administrator: Seq<char>) -> ContractView {
        ContractView {
            administrator,
            issuers: Map::empty(),
            certificates: Map::empty(),
            owners: Seq::empty(),
        }
    }

    /// Whether `caller` is the administrator.
    pub open spec fn is_administrator(self, caller: Seq<char>) -> bool {
        caller == self.administrator
    }

    /// Whether `caller` is a registered issuer.
    pub open spec fn is_issuer(self, caller: Seq<char>) -> bool {
        self.issuers.contains_key(caller)
    }

    /// What the administrator check answers to `caller`.
    pub open spec fn only_owner_result(self, caller: Seq<char>) -> Result<(), RegistryError> {
        if self.is_administrator(caller) {
            Ok(())
        } else {
            Err(RegistryError::Unauthorized)
        }
    }

    /// What the issuer check answers to `caller`.
    pub open spec fn only_issuer_result(self, caller: Seq<char>) -> Result<(), RegistryError> {
        if self.is_issuer(caller) {
            Ok(())
        } else {
            Err(RegistryError::Unauthorized)
        }
    }

    /// What registering `issuer` returns: a refusal to anyone but the
    /// administrator, else whether the account was added.
    pub open spec fn new_issuer_result(self, caller: Seq<char>, issuer: Seq<char>) -> Result<
        bool,
        RegistryError,
    > {
        if !self.is_administrator(caller) {
            Err(RegistryError::Unauthorized)
        } else {
            Ok(!self.issuers.contains_key(issuer))
        }
    }

    /// The state after registering `issuer`: the account is added under
    /// `name` where the call returns `true`, and nothing changes otherwise.
    pub open spec fn after_new_issuer(
        self,
        caller: Seq<char>,
        issuer: Seq<char>,
        name: Seq<char>,
    ) -> ContractView {
        if self.new_issuer_result(caller, issuer) == Ok::<bool, RegistryError>(true) {
            ContractView {
                issuers: self.issuers.insert(issuer, IssuerView { name, account: issuer }),
                ..self
            }
        } else {
            self
        }
    }

    /// What issuing a certificate returns: a refusal to anyone but a
    /// registered issuer, else the new certificate.
    pub open spec fn new_cert_result(
        self,
        caller: Seq<char>,
        issued_at: u64,
        owner_name: Seq<char>,
        owner_account: Seq<char>,
        media_uri: Seq<char>,
    ) -> Result<CertificateView, RegistryError> {
        if !self.is_issuer(caller) {
            Err(RegistryError::Unauthorized)
        } else {
            Ok(issued_certificate(caller, issued_at, owner_name, owner_account, media_uri))
        }
    }

    /// The state after issuing a certificate: where the call succeeds the new
    /// certificate replaces whatever was on record for the owner, and an owner
    /// without one before is added at the end of `owners`; nothing changes
    /// where the call is refused.
    pub open spec fn after_new_cert(
        self,
        caller: Seq<char>,
        issued_at: u64,
        owner_name: Seq<char>,
        owner_account: Seq<char>,
        media_uri: Seq<char>,
    ) -> ContractView {
        if self.is_issuer(caller) {
            ContractView {
                certificates: self.certificates.insert(
                    owner_account,
                    issued_certificate(caller, issued_at, owner_name, owner_account, media_uri),
                ),
                owners: if self.certificates.contains_key(owner_account) {
                    self.owners
                } else {
                    self.owners.push(owner_account)
                },
                ..self
            }
        } else {
            self
        }
    }

    /// What asking to mint the certificate of `account` returns: a refusal to
    /// anyone but the administrator, whatever is on record; a refusal where
    /// nothing is on record for `account`; else the request to mint, to
    /// `account`, a token named after the owner and carrying the certificate's
    /// metadata.
    pub open spec fn mint_cert_result(self, caller: Seq<char>, account: Seq<char>) -> Result<
        MintRequestView,
        RegistryError,
    > {
        if !self.is_administrator(caller) {
            Err(RegistryError::Unauthorized)
        } else if !self.certificates.contains_key(account) {
            Err(RegistryError::CertificateNotFound)
        } else {
            Ok(
                MintRequestView {
                    token_id: self.certificates[account].owner_account,
                    receiver: account,
                    metadata: self.certificates[account].metadata,
                },
            )
        }
    }

    /// What asking to hand the token of `account` to its owner returns: a
    /// refusal to anyone but the administrator, else the request to transfer
    /// the token named after `account` to `account`, under no approval and
    /// with no memo.
    pub open spec fn transfer_to_owner_result(self, caller: Seq<char>, account: Seq<char>) -> Result<
        TransferRequestView,
        RegistryError,
    > {
        if !self.is_administrator(caller) {
            Err(RegistryError::Unauthorized)
        } else {
            Ok(
                TransferRequestView {
                    receiver: account,
                    token_id: account,
                    approval_id: None,
                    memo: None,
                },
            )
        }
    }

    /// Every owner with the certificate on record for it, in the order of
    /// `owners`.
    pub open spec fn listing(self) -> Seq<(Seq<char>, CertificateView)> {
        Seq::new(self.owners.len(), |i: int| (self.owners[i], self.certificates[self.owners[i]]))
    }
}

} // verus!
