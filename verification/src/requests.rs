//! What the registry asks of the token facility. The registry decides and
//! describes the call; whoever holds the facility performs it.

use vstd::prelude::*;

use crate::account::AccountId;
use crate::metadata::{text_of, TokenMetadata, TokenMetadataView};

verus! {

/// A request to mint the token of a certificate.
#[derive(Debug, PartialEq, Eq)]
pub struct MintRequest {
    /// The token's identifier: the text of the owner's account.
    pub token_id: String,
    /// The account that receives the token.
    pub receiver: AccountId,
    /// The certificate's metadata, handed on as it was recorded.
    pub metadata: TokenMetadata,
}

/// The mathematical value of a `MintRequest`.
pub struct MintRequestView {
    pub token_id: Seq<char>,
    pub receiver: Seq<char>,
    pub metadata: TokenMetadataView,
}

impl View for MintRequest {
    type V = MintRequestView;

    open spec fn view(&self) -> MintRequestView {
        MintRequestView {
            token_id: self.token_id@,
            receiver: self.receiver@,
            metadata: self.metadata@,
        }
    }
}

/// A request to transfer a token to its owner, which clears any approval that
/// the administrator still holds on it.
#[derive(Debug, PartialEq, Eq)]
pub struct TransferRequest {
    /// The account that receives the token.
    pub receiver: AccountId,
    /// The token's identifier: the text of the owner's account.
    pub token_id: String,
    /// The approval under which the transfer is made: always none.
    pub approval_id: Option<u64>,
    /// A note that goes with the transfer: always none.
    pub memo: Option<String>,
}

/// The mathematical value of a `TransferRequest`.
pub struct TransferRequestView {
    pub receiver: Seq<char>,
    pub token_id: Seq<char>,
    pub approval_id: Option<u64>,
    pub memo: Option<Seq<char>>,
}

impl View for TransferRequest {
    type V = TransferRequestView;

    open spec fn view(&self) -> TransferRequestView {
        TransferRequestView {
            receiver: self.receiver@,
            token_id: self.token_id@,
            approval_id: self.approval_id,
            memo: text_of(self.memo),
        }
    }
}

} // verus!
