//! The registry itself: the administrator, the issuers and the certificates,
//! with the operations that the two roles may perform on them.

use vstd::prelude::*;

use crate::account::AccountId;
use crate::error::RegistryError;
use crate::keyed::{keyed, lemma_keyed_at, lemma_keyed_dom, lemma_keyed_empty, lemma_keyed_push, lemma_keyed_update};
use crate::metadata::TokenMetadata;
use crate::model::{issued_certificate, outcome, ContractView};
use crate::records::{Certificate, CertificateView, Issuer, IssuerView};
use crate::requests::{MintRequest, TransferRequest};

verus! {

/// The account of each issuer, in the order of the records.
pub open spec fn issuer_keys(issuers: Seq<Issuer>) -> Seq<Seq<char>> {
    issuers.map_values(|i: Issuer| i.account@)
}

/// The value of each issuer record, in the order of the records.
pub open spec fn issuer_views(issuers: Seq<Issuer>) -> Seq<IssuerView> {
    issuers.map_values(|i: Issuer| i@)
}

/// The owner's account of each certificate, in the order of the records.
pub open spec fn owner_keys(certificates: Seq<Certificate>) -> Seq<Seq<char>> {
    certificates.map_values(|c: Certificate| c.owner_account@)
}

/// The value of each certificate, in the order of the records.
pub open spec fn certificate_views(certificates: Seq<Certificate>) -> Seq<CertificateView> {
    certificates.map_values(|c: Certificate| c@)
}

/// Whether records can be those of a registry: no account occurs twice among
/// the issuers and no owner twice among the certificates, no certificate is
/// approved, and the issuer of every certificate is among the issuers.
pub open spec fn records_wf(issuers: Seq<Issuer>, certificates: Seq<Certificate>) -> bool {
    &&& issuer_keys(issuers).no_duplicates()
    &&& owner_keys(certificates).no_duplicates()
    &&& forall|i: int|
        0 <= i < certificates.len() ==> {
            &&& !(#[trigger] certificates[i]).is_approved
            &&& issuer_keys(issuers).contains(certificates[i].issuer_account@)
        }
}

/// The state that an administrator and records stand for.
pub open spec fn records_view(
    administrator: Seq<char>,
    issuers: Seq<Issuer>,
    certificates: Seq<Certificate>,
) -> ContractView {
    ContractView {
        administrator,
        issuers: keyed(issuer_keys(issuers), issuer_views(issuers)),
        certificates: keyed(owner_keys(certificates), certificate_views(certificates)),
        owners: owner_keys(certificates),
    }
}

/// Records that can be those of a registry stand for a well-formed state.
pub proof fn lemma_records_view_wf(
    administrator: Seq<char>,
    issuers: Seq<Issuer>,
    certificates: Seq<Certificate>,
)
    requires
        records_wf(issuers, certificates),
    ensures
        records_view(administrator, issuers, certificates).wf(),
{
    let view = records_view(administrator, issuers, certificates);
    lemma_keyed_dom(issuer_keys(issuers), issuer_views(issuers));
    assert forall|a: Seq<char>| #[trigger] view.issuers.contains_key(a) implies view.issuers[a].account
        == a by {
        let i = issuer_keys(issuers).index_of(a);
        lemma_keyed_at(issuer_keys(issuers), issuer_views(issuers), i);
    }
    assert forall|o: Seq<char>| #[trigger] view.certificates.contains_key(o) implies {
        &&& view.certificates[o].owner_account == o
        &&& !view.certificates[o].is_approved
        &&& view.issuers.contains_key(view.certificates[o].issuer_account)
    } by {
        let i = owner_keys(certificates).index_of(o);
        lemma_keyed_at(owner_keys(certificates), certificate_views(certificates), i);
        assert(!certificates[i].is_approved);
    }
}

/// The value of each entry of a listing, in the order of the listing.
pub open spec fn listing_view(list: Seq<(AccountId, Certificate)>) -> Seq<(Seq<char>, CertificateView)> {
    list.map_values(|e: (AccountId, Certificate)| (e.0@, e.1@))
}

/// Looks for the issuer record of `account` among the first `end` records.
fn find_issuer_before(issuers: &Vec<Issuer>, account: &AccountId, end: usize) -> (found: Option<usize>)
    requires
        end <= issuers.len(),
    ensures
        found is Some <==> issuer_keys(issuers@).take(end as int).contains(account@),
        found matches Some(i) ==> i < end && issuers[i as int].account@ == account@,
{
    let mut i: usize = 0;
    while i < end
        invariant
            i <= end <= issuers.len(),
            forall|j: int| 0 <= j < i ==> issuers[j].account@ != account@,
        decreases end - i,
    {
        if issuers[i].account == *account {
            assert(issuer_keys(issuers@).take(end as int)[i as int] == account@);
            return Some(i);
        }
        i += 1;
    }
    None
}

/// Looks for the issuer record of `account`.
fn find_issuer(issuers: &Vec<Issuer>, account: &AccountId) -> (found: Option<usize>)
    ensures
        found is Some <==> issuer_keys(issuers@).contains(account@),
        found matches Some(i) ==> i < issuers.len() && issuers[i as int].account@ == account@,
{
    assert(issuer_keys(issuers@).take(issuers.len() as int) =~= issuer_keys(issuers@));
    find_issuer_before(issuers, account, issuers.len())
}

/// Looks for the certificate on record for `owner` among the first `end`
/// certificates.
fn find_certificate_before(certificates: &Vec<Certificate>, owner: &AccountId, end: usize) -> (found:
    Option<usize>)
    requires
        end <= certificates.len(),
    ensures
        found is Some <==> owner_keys(certificates@).take(end as int).contains(owner@),
        found matches Some(i) ==> i < end && certificates[i as int].owner_account@ == owner@,
{
    let mut i: usize = 0;
    while i < end
        invariant
            i <= end <= certificates.len(),
            forall|j: int| 0 <= j < i ==> certificates[j].owner_account@ != owner@,
        decreases end - i,
    {
        if certificates[i].owner_account == *owner {
            assert(owner_keys(certificates@).take(end as int)[i as int] == owner@);
            return Some(i);
        }
        i += 1;
    }
    None
}

/// Looks for the certificate on record for `owner`.
fn find_certificate(certificates: &Vec<Certificate>, owner: &AccountId) -> (found: Option<usize>)
    ensures
        found is Some <==> owner_keys(certificates@).contains(owner@),
        found matches Some(i) ==> i < certificates.len() && certificates[i as int].owner_account@
            == owner@,
{
    assert(owner_keys(certificates@).take(certificates.len() as int) =~= owner_keys(certificates@));
    find_certificate_before(certificates, owner, certificates.len())
}

/// A sequence has no repetition exactly when no entry occurs among those
/// before it.
proof fn lemma_no_duplicates_by_prefix<K>(keys: Seq<K>)
    ensures
        keys.no_duplicates() <==> forall|i: int|
            0 <= i < keys.len() ==> !(#[trigger] keys.take(i)).contains(keys[i]),
{
    if keys.no_duplicates() {
        assert forall|i: int| 0 <= i < keys.len() implies !(#[trigger] keys.take(i)).contains(
            keys[i],
        ) by {
            if keys.take(i).contains(keys[i]) {
                let j = keys.take(i).index_of(keys[i]);
                assert(keys[j] == keys[i]);
            }
        }
    }
    if forall|i: int| 0 <= i < keys.len() ==> !(#[trigger] keys.take(i)).contains(keys[i]) {
        assert forall|i: int, j: int| 0 <= i < keys.len() && 0 <= j < keys.len() && i != j implies keys[i]
            != keys[j] by {
            if i < j {
                if keys[i] == keys[j] {
                    assert(keys.take(j)[i] == keys[j]);
                    assert(keys.take(j).contains(keys[j]));
                }
            } else {
                if keys[i] == keys[j] {
                    assert(keys.take(i)[j] == keys[i]);
                    assert(keys.take(i).contains(keys[i]));
                }
            }
        }
    }
}

/// Whether no account occurs twice among the issuers.
fn issuers_are_distinct(issuers: &Vec<Issuer>) -> (distinct: bool)
    ensures
        distinct == issuer_keys(issuers@).no_duplicates(),
{
    let mut i: usize = 0;
    while i < issuers.len()
        invariant
            i <= issuers.len(),
            forall|j: int|
                0 <= j < i ==> !(#[trigger] issuer_keys(issuers@).take(j)).contains(
                    issuer_keys(issuers@)[j],
                ),
        decreases issuers.len() - i,
    {
        if find_issuer_before(issuers, &issuers[i].account, i).is_some() {
            proof {
                assert(issuer_keys(issuers@)[i as int] == issuers[i as int].account@);
                lemma_no_duplicates_by_prefix(issuer_keys(issuers@));
            }
            return false;
        }
        i += 1;
    }
    proof {
        lemma_no_duplicates_by_prefix(issuer_keys(issuers@));
    }
    true
}

/// Whether no owner occurs twice among the certificates.
fn owners_are_distinct(certificates: &Vec<Certificate>) -> (distinct: bool)
    ensures
        distinct == owner_keys(certificates@).no_duplicates(),
{
    let mut i: usize = 0;
    while i < certificates.len()
        invariant
            i <= certificates.len(),
            forall|j: int|
                0 <= j < i ==> !(#[trigger] owner_keys(certificates@).take(j)).contains(
                    owner_keys(certificates@)[j],
                ),
        decreases certificates.len() - i,
    {
        if find_certificate_before(certificates, &certificates[i].owner_account, i).is_some() {
            proof {
                assert(owner_keys(certificates@)[i as int] == certificates[i as int].owner_account@);
                lemma_no_duplicates_by_prefix(owner_keys(certificates@));
            }
            return false;
        }
        i += 1;
    }
    proof {
        lemma_no_duplicates_by_prefix(owner_keys(certificates@));
    }
    true
}

/// Whether every certificate is unapproved and names one of the issuers.
fn certificates_are_sound(issuers: &Vec<Issuer>, certificates: &Vec<Certificate>) -> (sound: bool)
    ensures
        sound == forall|i: int|
            0 <= i < certificates.len() ==> {
                &&& !(#[trigger] certificates[i]).is_approved
                &&& issuer_keys(issuers@).contains(certificates[i].issuer_account@)
            },
{
    let mut i: usize = 0;
    while i < certificates.len()
        invariant
            i <= certificates.len(),
            forall|j: int|
                0 <= j < i ==> {
                    &&& !(#[trigger] certificates[j]).is_approved
                    &&& issuer_keys(issuers@).contains(certificates[j].issuer_account@)
                },
        decreases certificates.len() - i,
    {
        if certificates[i].is_approved || find_issuer(issuers, &certificates[i].issuer_account).is_none() {
            return false;
        }
        i += 1;
    }
    true
}

/// A registry of issuers and certificates under one administrator.
pub struct Contract {
    contract_foundation: AccountId,
    issuers: Vec<Issuer>,
    certs_map: Vec<Certificate>,
}

impl View for Contract {
    type V = ContractView;

    closed spec fn view(&self) -> ContractView {
        records_view(self.contract_foundation@, self.issuers@, self.certs_map@)
    }
}

impl Contract {
    #[verifier::type_invariant]
    spec fn inv(self) -> bool {
        records_wf(self.issuers@, self.certs_map@)
    }

    /// Sets up the registry with `caller` as its administrator. It is refused
    /// with `AlreadyInitialized` where the registry's state exists already.
    pub fn new(state_exists: bool, caller: AccountId) -> (r: Result<Contract, RegistryError>)
        ensures
            outcome(r) == if state_exists {
                Err::<ContractView, RegistryError>(RegistryError::AlreadyInitialized)
            } else {
                Ok(ContractView::initial(caller@))
            },
    {
        if state_exists {
            return Err(RegistryError::AlreadyInitialized);
        }
        let contract = Contract { contract_foundation: caller, issuers: Vec::new(), certs_map: Vec::new() };
        proof {
            lemma_keyed_empty::<Seq<char>, IssuerView>();
            lemma_keyed_empty::<Seq<char>, CertificateView>();
            assert(issuer_keys(contract.issuers@) =~= Seq::empty());
            assert(issuer_views(contract.issuers@) =~= Seq::empty());
            assert(owner_keys(contract.certs_map@) =~= Seq::empty());
            assert(certificate_views(contract.certs_map@) =~= Seq::empty());
        }
        Ok(contract)
    }

    /// Puts a registry together again from its administrator and its records,
    /// where the records can be those of a registry: see `records_wf`. The
    /// records keep their order.
    pub fn restore(administrator: AccountId, issuers: Vec<Issuer>, certificates: Vec<Certificate>) -> (r:
        Option<Contract>)
        ensures
            r is Some <==> records_wf(issuers@, certificates@),
            r matches Some(contract) ==> contract@ == records_view(
                administrator@,
                issuers@,
                certificates@,
            ) && contract@.wf(),
    {
        if !issuers_are_distinct(&issuers) || !owners_are_distinct(&certificates)
            || !certificates_are_sound(&issuers, &certificates) {
            return None;
        }
        proof {
            lemma_records_view_wf(administrator@, issuers@, certificates@);
        }
        Some(Contract { contract_foundation: administrator, issuers, certs_map: certificates })
    }

    /// The administrator's account.
    pub fn administrator(&self) -> (account: &AccountId)
        ensures
            account@ == self@.administrator,
    {
        &self.contract_foundation
    }

    /// The number of registered issuers.
    pub fn issuer_count(&self) -> (count: usize)
        ensures
            count == self@.issuers.len(),
            self@.wf(),
    {
        proof {
            use_type_invariant(self);
            lemma_records_view_wf(self.contract_foundation@, self.issuers@, self.certs_map@);
            lemma_keyed_dom(issuer_keys(self.issuers@), issuer_views(self.issuers@));
        }
        self.issuers.len()
    }

    /// The record of the issuer `account`, if it is registered.
    pub fn issuer(&self, account: &AccountId) -> (record: Option<Issuer>)
        ensures
            match record {
                Some(issuer) => self@.is_issuer(account@) && issuer@ == self@.issuers[account@],
                None => !self@.is_issuer(account@),
            },
    {
        proof {
            use_type_invariant(self);
        }
        match find_issuer(&self.issuers, account) {
            Some(i) => {
                proof {
                    lemma_keyed_at(issuer_keys(self.issuers@), issuer_views(self.issuers@), i as int);
                }
                Some(self.issuers[i].clone())
            },
            None => None,
        }
    }

    /// The certificate on record for `owner`, if there is one.
    pub fn certificate(&self, owner: &AccountId) -> (record: Option<Certificate>)
        ensures
            match record {
                Some(cert) => self@.certificates.contains_key(owner@) && cert@
                    == self@.certificates[owner@],
                None => !self@.certificates.contains_key(owner@),
            },
    {
        proof {
            use_type_invariant(self);
        }
        match find_certificate(&self.certs_map, owner) {
            Some(i) => {
                proof {
                    lemma_keyed_at(
                        owner_keys(self.certs_map@),
                        certificate_views(self.certs_map@),
                        i as int,
                    );
                }
                Some(self.certs_map[i].clone())
            },
            None => None,
        }
    }

    /// Passes the administrator and refuses everyone else.
    pub fn only_owner(&self, caller: &AccountId) -> (r: Result<(), RegistryError>)
        ensures
            r == self@.only_owner_result(caller@),
    {
        if *caller == self.contract_foundation {
            Ok(())
        } else {
            Err(RegistryError::Unauthorized)
        }
    }

    /// Passes the registered issuers and refuses everyone else.
    pub fn only_issuer(&self, caller: &AccountId) -> (r: Result<(), RegistryError>)
        ensures
            r == self@.only_issuer_result(caller@),
    {
        match find_issuer(&self.issuers, caller) {
            Some(_) => Ok(()),
            None => Err(RegistryError::Unauthorized),
        }
    }

    /// Registers `issuer` under `issuer_name`. Only the administrator may do
    /// so. It returns `true` where the account was added and `false`, with
    /// nothing changed, where it was registered before.
    pub fn new_issuer(&mut self, caller: &AccountId, issuer: AccountId, issuer_name: String) -> (r:
        Result<bool, RegistryError>)
        ensures
            r == old(self)@.new_issuer_result(caller@, issuer@),
            final(self)@ == old(self)@.after_new_issuer(caller@, issuer@, issuer_name@),
            final(self)@.wf(),
    {
        proof {
            use_type_invariant(&*self);
            lemma_records_view_wf(self.contract_foundation@, self.issuers@, self.certs_map@);
        }
        if let Err(e) = self.only_owner(caller) {
            return Err(e);
        }
        if find_issuer(&self.issuers, &issuer).is_some() {
            return Ok(false);
        }
        let ghost old_issuers = self.issuers@;
        let ghost old_certs = self.certs_map@;
        let record = Issuer { name: issuer_name, account: issuer };
        let mut certs_map: Vec<Certificate> = Vec::new();
        let mut issuers: Vec<Issuer> = Vec::new();
        std::mem::swap(&mut certs_map, &mut self.certs_map);
        std::mem::swap(&mut issuers, &mut self.issuers);
        issuers.push(record);
        proof {
            assert(issuer_keys(issuers@) =~= issuer_keys(old_issuers).push(issuer@));
            assert(issuer_views(issuers@) =~= issuer_views(old_issuers).push(record@));
            lemma_keyed_push(issuer_keys(old_issuers), issuer_views(old_issuers), issuer@, record@);
            assert forall|i: int| 0 <= i < old_certs.len() implies issuer_keys(issuers@).contains(
                #[trigger] old_certs[i].issuer_account@,
            ) by {
                vstd::seq_lib::lemma_seq_contains_after_push(
                    issuer_keys(old_issuers),
                    issuer@,
                    old_certs[i].issuer_account@,
                );
            }
        }
        self.issuers = issuers;
        self.certs_map = certs_map;
        proof {
            lemma_records_view_wf(self.contract_foundation@, self.issuers@, self.certs_map@);
        }
        Ok(true)
    }

    /// Records a certificate for `owner_account`, issued by `caller` at clock
    /// reading `issued_at`. Only a registered issuer may do so. The new
    /// certificate replaces whatever was on record for the owner and is
    /// returned. The media hash is taken and not kept.
    pub fn new_cert(
        &mut self,
        caller: &AccountId,
        issued_at: u64,
        owner_name: String,
        owner_account: AccountId,
        media_uri: String,
        _media_hash: String,
    ) -> (r: Result<Certificate, RegistryError>)
        ensures
            outcome(r) == old(self)@.new_cert_result(
                caller@,
                issued_at,
                owner_name@,
                owner_account@,
                media_uri@,
            ),
            final(self)@ == old(self)@.after_new_cert(
                caller@,
                issued_at,
                owner_name@,
                owner_account@,
                media_uri@,
            ),
            final(self)@.wf(),
    {
        proof {
            use_type_invariant(&*self);
            lemma_records_view_wf(self.contract_foundation@, self.issuers@, self.certs_map@);
        }
        if let Err(e) = self.only_issuer(caller) {
            return Err(e);
        }
        let creator = match find_issuer(&self.issuers, caller) {
            Some(i) => i,
            None => {
                return Err(RegistryError::IssuerNotFound);
            },
        };
        let metadata = TokenMetadata::for_certificate(media_uri, issued_at);
        let cert = Certificate {
            owner_name,
            issuer_account: self.issuers[creator].account.clone(),
            is_approved: false,
            metadata,
            owner_account,
        };
        let record = cert.clone();
        let ghost old_certs = self.certs_map@;
        let ghost owner = cert.owner_account@;
        assert(record@ == issued_certificate(caller@, issued_at, owner_name@, owner, media_uri@));
        assert(issuer_keys(self.issuers@)[creator as int] == record.issuer_account@);
        let place = find_certificate(&self.certs_map, &cert.owner_account);
        let mut certs_map: Vec<Certificate> = Vec::new();
        std::mem::swap(&mut certs_map, &mut self.certs_map);
        match place {
            Some(i) => {
                certs_map.set(i, record);
                proof {
                    assert(owner_keys(certs_map@) =~= owner_keys(old_certs));
                    assert(certificate_views(certs_map@) =~= certificate_views(old_certs).update(
                        i as int,
                        record@,
                    ));
                    lemma_keyed_update(
                        owner_keys(old_certs),
                        certificate_views(old_certs),
                        i as int,
                        record@,
                    );
                }
            },
            None => {
                certs_map.push(record);
                proof {
                    assert(owner_keys(certs_map@) =~= owner_keys(old_certs).push(owner));
                    assert(certificate_views(certs_map@) =~= certificate_views(old_certs).push(
                        record@,
                    ));
                    lemma_keyed_push(
                        owner_keys(old_certs),
                        certificate_views(old_certs),
                        owner,
                        record@,
                    );
                }
            },
        }
        self.certs_map = certs_map;
        proof {
            lemma_records_view_wf(self.contract_foundation@, self.issuers@, self.certs_map@);
        }
        Ok(cert)
    }

    /// Asks for the token of the certificate on record for `account` to be
    /// minted. Only the administrator may do so, and only for an owner with a
    /// certificate. The registry is read and not changed.
    pub fn mint_cert(&self, caller: &AccountId, account: AccountId) -> (r: Result<
        MintRequest,
        RegistryError,
    >)
        ensures
            outcome(r) == self@.mint_cert_result(caller@, account@),
            self@.wf(),
    {
        proof {
            use_type_invariant(self);
            lemma_records_view_wf(self.contract_foundation@, self.issuers@, self.certs_map@);
        }
        if let Err(e) = self.only_owner(caller) {
            return Err(e);
        }
        match find_certificate(&self.certs_map, &account) {
            None => Err(RegistryError::CertificateNotFound),
            Some(i) => {
                proof {
                    lemma_keyed_at(
                        owner_keys(self.certs_map@),
                        certificate_views(self.certs_map@),
                        i as int,
                    );
                }
                let cert = &self.certs_map[i];
                Ok(
                    MintRequest {
                        token_id: cert.owner_account.to_string(),
                        receiver: account,
                        metadata: cert.metadata.clone(),
                    },
                )
            },
        }
    }

    /// Asks for the token named after `account` to be transferred to
    /// `account`. Only the administrator may do so. The registry is read and
    /// not changed.
    pub fn transfer_to_owner(&self, caller: &AccountId, account: AccountId) -> (r: Result<
        TransferRequest,
        RegistryError,
    >)
        ensures
            outcome(r) == self@.transfer_to_owner_result(caller@, account@),
    {
        if let Err(e) = self.only_owner(caller) {
            return Err(e);
        }
        let token_id = account.to_string();
        Ok(TransferRequest { receiver: account, token_id, approval_id: None, memo: None })
    }

    /// Lists every owner with its certificate, in the order in which the
    /// owners first received one.
    pub fn cert_lists(&self) -> (list: Vec<(AccountId, Certificate)>)
        ensures
            listing_view(list@) == self@.listing(),
            self@.wf(),
    {
        proof {
            use_type_invariant(self);
            lemma_records_view_wf(self.contract_foundation@, self.issuers@, self.certs_map@);
        }
        let mut list: Vec<(AccountId, Certificate)> = Vec::new();
        let mut i: usize = 0;
        while i < self.certs_map.len()
            invariant
                i <= self.certs_map.len(),
                list.len() == i,
                forall|j: int|
                    0 <= j < i ==> (#[trigger] list[j]).0@ == self.certs_map[j].owner_account@
                        && list[j].1@ == self.certs_map[j]@,
            decreases self.certs_map.len() - i,
        {
            let cert = &self.certs_map[i];
            list.push((cert.owner_account.clone(), cert.clone()));
            i += 1;
        }
        proof {
            assert forall|j: int| 0 <= j < list.len() implies listing_view(list@)[j]
                == self@.listing()[j] by {
                lemma_keyed_at(
                    owner_keys(self.certs_map@),
                    certificate_views(self.certs_map@),
                    j,
                );
            }
            assert(listing_view(list@) =~= self@.listing());
        }
        list
    }
}

} // verus!
