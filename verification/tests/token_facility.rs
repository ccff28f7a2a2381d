use std::collections::HashMap;
use std::convert::TryFrom;

use near_contract_standards::non_fungible_token::metadata::TokenMetadata as FacilityMetadata;
use near_contract_standards::non_fungible_token::NonFungibleToken;
use near_nft_cert::account::AccountId;
use near_nft_cert::contract::Contract;
use near_nft_cert::metadata::TokenMetadata;
use near_nft_cert::requests::MintRequest;
use near_sdk::json_types::{Base64VecU8, ValidAccountId};
use near_sdk::test_utils::VMContextBuilder;
use near_sdk::MockedBlockchain;

fn id(text: &str) -> AccountId {
    AccountId::new(text.to_string()).unwrap()
}

fn host_id(id: &AccountId) -> ValidAccountId {
    ValidAccountId::try_from(id.as_str()).unwrap()
}

fn facility_metadata(metadata: TokenMetadata) -> FacilityMetadata {
    FacilityMetadata {
        title: metadata.title,
        description: metadata.description,
        media: metadata.media,
        media_hash: metadata.media_hash.map(Base64VecU8),
        copies: metadata.copies,
        issued_at: metadata.issued_at,
        expires_at: metadata.expires_at,
        starts_at: metadata.starts_at,
        updated_at: metadata.updated_at,
        extra: metadata.extra,
        reference: metadata.reference,
        reference_hash: metadata.reference_hash.map(Base64VecU8),
    }
}

/// Puts a mocked host in place for this thread, with `caller` as the account
/// that calls and `deposit` attached. What was stored before is kept.
fn host_call(caller: &AccountId, block_timestamp: u64, deposit: u128) {
    let storage = match near_sdk::env::take_blockchain_interface() {
        Some(mut host) => host.as_mut_mocked_blockchain().unwrap().take_storage(),
        None => HashMap::new(),
    };
    let mut context = VMContextBuilder::new();
    context
        .current_account_id(ValidAccountId::try_from("registry.near").unwrap())
        .signer_account_id(host_id(caller))
        .predecessor_account_id(host_id(caller))
        .block_timestamp(block_timestamp)
        .attached_deposit(deposit);
    near_sdk::env::set_blockchain_interface(Box::new(MockedBlockchain::new(
        context.build(),
        Default::default(),
        Default::default(),
        Vec::new(),
        storage,
        HashMap::new(),
        None,
    )));
}

fn facility(owner: &AccountId) -> NonFungibleToken {
    NonFungibleToken::new(
        b"t".to_vec(),
        host_id(owner),
        Some(b"m".to_vec()),
        Some(b"e".to_vec()),
        Some(b"a".to_vec()),
    )
}

#[test]
fn minted_token_is_bound_to_the_owner() {
    let admin = id("admin.near");
    let issuer = id("issuer.near");
    let alice = id("alice.near");

    host_call(&admin, 0, 0);
    let mut tokens = facility(&admin);
    let mut registry = Contract::new(near_sdk::env::state_exists(), admin.clone()).unwrap();
    assert_eq!(registry.new_issuer(&admin, issuer.clone(), "Acme".to_string()), Ok(true));

    host_call(&issuer, 1_633_046_400_000_000_000, 0);
    let caller = id(&near_sdk::env::predecessor_account_id());
    let cert = registry
        .new_cert(
            &caller,
            near_sdk::env::block_timestamp(),
            "Alice".to_string(),
            alice.clone(),
            "ipfs://x".to_string(),
            "hash1".to_string(),
        )
        .unwrap();
    assert_eq!(cert.issuer_account, issuer);
    assert_eq!(cert.metadata.issued_at, Some("1633046400000000000".to_string()));

    host_call(&admin, 1_633_046_400_000_000_001, 10u128.pow(24));
    let caller = id(&near_sdk::env::predecessor_account_id());
    let MintRequest { token_id, receiver, metadata } = registry.mint_cert(&caller, alice.clone()).unwrap();
    let token = near_contract_standards::non_fungible_token::core::NonFungibleTokenCore::mint(
        &mut tokens,
        token_id,
        host_id(&receiver),
        Some(facility_metadata(metadata)),
    );

    assert_eq!(token.token_id, "alice.near");
    assert_eq!(token.owner_id, "alice.near");
    let minted = token.metadata.clone().unwrap();
    assert_eq!(minted.title, Some("L1 Certificate".to_string()));
    assert_eq!(minted.description, Some(String::new()));
    assert_eq!(minted.media, Some("ipfs://x".to_string()));
    assert_eq!(minted.media_hash, None);
    assert_eq!(minted.copies, Some(1));
    assert_eq!(minted.issued_at, Some("1633046400000000000".to_string()));
    assert_eq!(near_contract_standards::non_fungible_token::core::NonFungibleTokenCore::nft_token(
            tokens,
            "alice.near".to_string()
        ), Some(token));

    let list = registry.cert_lists();
    assert_eq!(list, vec![(alice, cert)]);
    assert!(!list[0].1.is_approved);
}

#[test]
fn mint_request_is_accepted_as_the_facility_expects_it() {
    let admin = id("admin.near");
    let issuer = id("issuer.near");
    host_call(&admin, 0, 10u128.pow(24));
    let mut tokens = facility(&admin);
    let mut registry = Contract::new(false, admin.clone()).unwrap();
    registry.new_issuer(&admin, issuer.clone(), "Acme".to_string()).unwrap();
    let owners = ["aa", "bob.near", "c-d_e.f0"];
    for (i, owner) in owners.iter().enumerate() {
        registry
            .new_cert(&issuer, i as u64, owner.to_uppercase(), id(owner), format!("ipfs://{}", i), String::new())
            .unwrap();
    }
    for (i, owner) in owners.iter().enumerate() {
        let request = registry.mint_cert(&admin, id(owner)).unwrap();
        let token = near_contract_standards::non_fungible_token::core::NonFungibleTokenCore::mint(
            &mut tokens,
            request.token_id,
            host_id(&request.receiver),
            Some(facility_metadata(request.metadata)),
        );
        assert_eq!(token.token_id, *owner);
        assert_eq!(token.owner_id, *owner);
        assert_eq!(token.metadata.unwrap().media, Some(format!("ipfs://{}", i)));
    }
}
