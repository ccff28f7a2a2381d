//! What holds of the registry whatever its state and whoever calls.
//!
//! Each law is stated of the mathematical state and of the functions that say
//! what an operation returns and leaves. The executable registry returns and
//! leaves exactly that, so each law holds of it too.

use vstd::prelude::*;

use crate::error::RegistryError;
use crate::metadata::{certificate_metadata, certificate_title};
use crate::model::{issued_certificate, ContractView};
use crate::records::{CertificateView, IssuerView};
use crate::requests::MintRequestView;

verus! {

/// A registry that was just set up is well-formed, and holds nothing.
pub proof fn law_initial_state_is_well_formed(administrator: Seq<char>)
    ensures
        ContractView::initial(administrator).wf(),
        ContractView::initial(administrator).is_administrator(administrator),
        ContractView::initial(administrator).listing().len() == 0,
{
}

/// Registering an issuer keeps the state well-formed, whoever calls.
pub proof fn law_new_issuer_keeps_well_formed(
    s: ContractView,
    caller: Seq<char>,
    issuer: Seq<char>,
    name: Seq<char>,
)
    requires
        s.wf(),
    ensures
        s.after_new_issuer(caller, issuer, name).wf(),
{
    let t = s.after_new_issuer(caller, issuer, name);
    assert forall|o: Seq<char>| #[trigger] t.certificates.contains_key(o) implies t.issuers.contains_key(
        t.certificates[o].issuer_account,
    ) by {
        assert(s.certificates.contains_key(o));
    }
}

/// Issuing a certificate keeps the state well-formed, whoever calls.
pub proof fn law_new_cert_keeps_well_formed(
    s: ContractView,
    caller: Seq<char>,
    issued_at: u64,
    owner_name: Seq<char>,
    owner_account: Seq<char>,
    media_uri: Seq<char>,
)
    requires
        s.wf(),
    ensures
        s.after_new_cert(caller, issued_at, owner_name, owner_account, media_uri).wf(),
{
    let t = s.after_new_cert(caller, issued_at, owner_name, owner_account, media_uri);
    if s.is_issuer(caller) {
        if s.certificates.contains_key(owner_account) {
            assert(s.owners.contains(owner_account));
        } else {
            assert(!s.owners.contains(owner_account));
            assert forall|i: int, j: int|
                0 <= i < t.owners.len() && 0 <= j < t.owners.len() && i != j implies t.owners[i]
                != t.owners[j] by {
                if i < s.owners.len() {
                    assert(s.owners.contains(s.owners[i]));
                }
                if j < s.owners.len() {
                    assert(s.owners.contains(s.owners[j]));
                }
            }
        }
        assert forall|o: Seq<char>| #[trigger]
            t.certificates.contains_key(o) <==> t.owners.contains(o) by {
            if s.certificates.contains_key(owner_account) {
                assert(s.certificates.contains_key(o) <==> s.owners.contains(o));
            } else {
                vstd::seq_lib::lemma_seq_contains_after_push(s.owners, owner_account, o);
                assert(s.certificates.contains_key(o) <==> s.owners.contains(o));
            }
        }
        assert forall|o: Seq<char>| #[trigger] t.certificates.contains_key(o) implies {
            &&& t.certificates[o].owner_account == o
            &&& !t.certificates[o].is_approved
            &&& t.issuers.contains_key(t.certificates[o].issuer_account)
        } by {
            if o != owner_account {
                assert(s.certificates.contains_key(o));
            }
        }
    }
}

/// No operation changes the administrator or drops an issuer.
pub proof fn law_administrator_and_issuers_stay(
    s: ContractView,
    caller: Seq<char>,
    account: Seq<char>,
    name: Seq<char>,
    issued_at: u64,
    media_uri: Seq<char>,
)
    ensures
        s.after_new_issuer(caller, account, name).administrator == s.administrator,
        s.issuers.submap_of(s.after_new_issuer(caller, account, name).issuers),
        s.after_new_issuer(caller, account, name).certificates == s.certificates,
        s.after_new_issuer(caller, account, name).owners == s.owners,
        s.after_new_cert(caller, issued_at, name, account, media_uri).administrator
            == s.administrator,
        s.after_new_cert(caller, issued_at, name, account, media_uri).issuers == s.issuers,
{
}

/// Where the administrator registers an account that is not an issuer yet and
/// then registers it again, the first call returns `true` and the second
/// `false`; the second changes nothing; and the issuers afterwards are those
/// from before and the account, once, under the first name.
pub proof fn law_second_registration_adds_nothing(
    s: ContractView,
    caller: Seq<char>,
    account: Seq<char>,
    first_name: Seq<char>,
    second_name: Seq<char>,
)
    requires
        s.wf(),
        s.is_administrator(caller),
        !s.is_issuer(account),
    ensures
        ({
            let s1 = s.after_new_issuer(caller, account, first_name);
            let s2 = s1.after_new_issuer(caller, account, second_name);
            &&& s.new_issuer_result(caller, account) == Ok::<bool, RegistryError>(true)
            &&& s1.new_issuer_result(caller, account) == Ok::<bool, RegistryError>(false)
            &&& s2 == s1
            &&& s2.issuers == s.issuers.insert(
                account,
                IssuerView { name: first_name, account },
            )
            &&& s2.issuers.len() == s.issuers.len() + 1
            &&& s2.issuers.remove(account) == s.issuers
        }),
{
    let s1 = s.after_new_issuer(caller, account, first_name);
    assert(s1.issuers.remove(account) =~= s.issuers);
}

/// Whoever is not a registered issuer is refused a certificate with
/// `Unauthorized`, and the refusal leaves the state, and so the certificates,
/// as they were.
pub proof fn law_only_issuers_issue(
    s: ContractView,
    caller: Seq<char>,
    issued_at: u64,
    owner_name: Seq<char>,
    owner_account: Seq<char>,
    media_uri: Seq<char>,
)
    requires
        !s.is_issuer(caller),
    ensures
        s.new_cert_result(caller, issued_at, owner_name, owner_account, media_uri) == Err::<
            CertificateView,
            RegistryError,
        >(RegistryError::Unauthorized),
        s.after_new_cert(caller, issued_at, owner_name, owner_account, media_uri) == s,
{
}

/// The administrator's role does not include an issuer's: an administrator
/// that is not registered as an issuer is refused a certificate like anyone
/// else, and nothing changes.
pub proof fn law_administrator_is_no_issuer(
    s: ContractView,
    caller: Seq<char>,
    issued_at: u64,
    owner_name: Seq<char>,
    owner_account: Seq<char>,
    media_uri: Seq<char>,
)
    requires
        s.is_administrator(caller),
        !s.is_issuer(caller),
    ensures
        s.new_cert_result(caller, issued_at, owner_name, owner_account, media_uri) == Err::<
            CertificateView,
            RegistryError,
        >(RegistryError::Unauthorized),
        s.after_new_cert(caller, issued_at, owner_name, owner_account, media_uri) == s,
{
}

/// Where two certificates are issued for one owner, by the same issuer or by
/// two, the owner is left with one certificate, which is the second as it was
/// issued: nothing of the first is kept. The owner is listed once, and what is
/// on record for every other owner is as it was before the two calls.
pub proof fn law_reissue_replaces(
    s: ContractView,
    owner: Seq<char>,
    first_issuer: Seq<char>,
    first_at: u64,
    first_name: Seq<char>,
    first_uri: Seq<char>,
    second_issuer: Seq<char>,
    second_at: u64,
    second_name: Seq<char>,
    second_uri: Seq<char>,
)
    requires
        s.wf(),
        s.is_issuer(first_issuer),
        s.is_issuer(second_issuer),
    ensures
        ({
            let s1 = s.after_new_cert(first_issuer, first_at, first_name, owner, first_uri);
            let s2 = s1.after_new_cert(second_issuer, second_at, second_name, owner, second_uri);
            let second = issued_certificate(second_issuer, second_at, second_name, owner, second_uri);
            &&& s1.new_cert_result(second_issuer, second_at, second_name, owner, second_uri) == Ok::<
                CertificateView,
                RegistryError,
            >(second)
            &&& s2.certificates.contains_key(owner)
            &&& s2.certificates[owner] == second
            &&& s2.certificates.remove(owner) == s.certificates.remove(owner)
            &&& s2.owners == s1.owners
            &&& s2.owners.no_duplicates()
            &&& s2.owners.contains(owner)
            &&& s2.wf()
        }),
{
    let s1 = s.after_new_cert(first_issuer, first_at, first_name, owner, first_uri);
    let s2 = s1.after_new_cert(second_issuer, second_at, second_name, owner, second_uri);
    law_new_cert_keeps_well_formed(s, first_issuer, first_at, first_name, owner, first_uri);
    law_new_cert_keeps_well_formed(s1, second_issuer, second_at, second_name, owner, second_uri);
    assert(s2.certificates.remove(owner) =~= s.certificates.remove(owner));
}

/// Where the administrator asks to mint for an owner without a certificate,
/// the call is refused with `CertificateNotFound`. Asking to mint reads the
/// state and leaves none behind, so the refusal changes nothing.
pub proof fn law_no_mint_without_certificate(s: ContractView, caller: Seq<char>, owner: Seq<char>)
    requires
        s.is_administrator(caller),
        !s.certificates.contains_key(owner),
    ensures
        s.mint_cert_result(caller, owner) == Err::<MintRequestView, RegistryError>(
            RegistryError::CertificateNotFound,
        ),
{
}

/// Whoever is not the administrator is refused minting with `Unauthorized`,
/// whether or not a certificate is on record for the owner.
pub proof fn law_only_administrator_mints(s: ContractView, caller: Seq<char>, owner: Seq<char>)
    requires
        !s.is_administrator(caller),
    ensures
        s.mint_cert_result(caller, owner) == Err::<MintRequestView, RegistryError>(
            RegistryError::Unauthorized,
        ),
{
}

/// Where an issuer records a certificate and the administrator then asks to
/// mint it, the request names the token after the owner, sends it to the
/// owner, and carries the fixed title and the media reference that the issuer
/// supplied; the certificate stays on record, unapproved, as it was issued.
pub proof fn law_issued_certificate_is_minted_as_issued(
    s: ContractView,
    issuer: Seq<char>,
    issued_at: u64,
    owner_name: Seq<char>,
    owner: Seq<char>,
    media_uri: Seq<char>,
    administrator: Seq<char>,
)
    requires
        s.wf(),
        s.is_issuer(issuer),
        s.is_administrator(administrator),
    ensures
        ({
            let s1 = s.after_new_cert(issuer, issued_at, owner_name, owner, media_uri);
            let minted = s1.mint_cert_result(administrator, owner);
            &&& minted is Ok
            &&& minted->Ok_0.token_id == owner
            &&& minted->Ok_0.receiver == owner
            &&& minted->Ok_0.metadata == certificate_metadata(media_uri, issued_at)
            &&& minted->Ok_0.metadata.title == Some(certificate_title())
            &&& minted->Ok_0.metadata.media == Some(media_uri)
            &&& s1.certificates[owner] == issued_certificate(
                issuer,
                issued_at,
                owner_name,
                owner,
                media_uri,
            )
            &&& !s1.certificates[owner].is_approved
            &&& exists|i: int|
                0 <= i < s1.listing().len() && #[trigger] s1.listing()[i] == (
                    owner,
                    s1.certificates[owner],
                )
        }),
{
    let s1 = s.after_new_cert(issuer, issued_at, owner_name, owner, media_uri);
    law_new_cert_keeps_well_formed(s, issuer, issued_at, owner_name, owner, media_uri);
    assert(s1.owners.contains(owner));
    let i = s1.owners.index_of(owner);
    assert(s1.listing()[i] == (owner, s1.certificates[owner]));
}

} // verus!
