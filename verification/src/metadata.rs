//! The descriptive fields that a token is minted with.

use vstd::prelude::*;
use vstd::string::StringExecFns;

use crate::decimal::{decimal, decimal_string};

verus! {

/// What an optional text holds, as a sequence of characters.
pub open spec fn text_of(text: Option<String>) -> Option<Seq<char>> {
    match text {
        Some(t) => Some(t@),
        None => None,
    }
}

/// What an optional byte string holds.
pub open spec fn bytes_of(bytes: Option<Vec<u8>>) -> Option<Seq<u8>> {
    match bytes {
        Some(b) => Some(b@),
        None => None,
    }
}

/// The title that every certificate's metadata carries.
pub open spec fn certificate_title() -> Seq<char> {
    "L1 Certificate"@
}

/// The fields of a token's metadata. The registry fills them in when a
/// certificate is issued and hands them on unchanged when it is minted.
#[derive(Debug, PartialEq, Eq)]
pub struct TokenMetadata {
    pub title: Option<String>,
    pub description: Option<String>,
    pub media: Option<String>,
    pub media_hash: Option<Vec<u8>>,
    pub copies: Option<u64>,
    pub issued_at: Option<String>,
    pub expires_at: Option<String>,
    pub starts_at: Option<String>,
    pub updated_at: Option<String>,
    pub extra: Option<String>,
    pub reference: Option<String>,
    pub reference_hash: Option<Vec<u8>>,
}

/// The mathematical value of a `TokenMetadata`.
pub struct TokenMetadataView {
    pub title: Option<Seq<char>>,
    pub description: Option<Seq<char>>,
    pub media: Option<Seq<char>>,
    pub media_hash: Option<Seq<u8>>,
    pub copies: Option<u64>,
    pub issued_at: Option<Seq<char>>,
    pub expires_at: Option<Seq<char>>,
    pub starts_at: Option<Seq<char>>,
    pub updated_at: Option<Seq<char>>,
    pub extra: Option<Seq<char>>,
    pub reference: Option<Seq<char>>,
    pub reference_hash: Option<Seq<u8>>,
}

impl View for TokenMetadata {
    type V = TokenMetadataView;

    open spec fn view(&self) -> TokenMetadataView {
        TokenMetadataView {
            title: text_of(self.title),
            description: text_of(self.description),
            media: text_of(self.media),
            media_hash: bytes_of(self.media_hash),
            copies: self.copies,
            issued_at: text_of(self.issued_at),
            expires_at: text_of(self.expires_at),
            starts_at: text_of(self.starts_at),
            updated_at: text_of(self.updated_at),
            extra: text_of(self.extra),
            reference: text_of(self.reference),
            reference_hash: bytes_of(self.reference_hash),
        }
    }
}

/// The metadata of a certificate issued at clock reading `issued_at` for the
/// media at `media_uri`: the fixed title, an empty description, the media
/// reference without a hash, one copy, the clock reading as a decimal numeral,
/// and nothing else.
pub open spec fn certificate_metadata(media_uri: Seq<char>, issued_at: u64) -> TokenMetadataView {
    TokenMetadataView {
        title: Some(certificate_title()),
        description: Some(Seq::<char>::empty()),
        media: Some(media_uri),
        media_hash: None,
        copies: Some(1u64),
        issued_at: Some(decimal(issued_at as nat)),
        expires_at: None,
        starts_at: None,
        updated_at: None,
        extra: None,
        reference: None,
        reference_hash: None,
    }
}

fn clone_text(text: &Option<String>) -> (copy: Option<String>)
    ensures
        text_of(copy) == text_of(*text),
{
    match text {
        Some(t) => Some(t.clone()),
        None => None,
    }
}

fn clone_bytes(bytes: &Option<Vec<u8>>) -> (copy: Option<Vec<u8>>)
    ensures
        bytes_of(copy) == bytes_of(*bytes),
{
    match bytes {
        Some(b) => Some(b.clone()),
        None => None,
    }
}

impl Clone for TokenMetadata {
    fn clone(&self) -> (copy: TokenMetadata)
        ensures
            copy@ == self@,
    {
        TokenMetadata {
            title: clone_text(&self.title),
            description: clone_text(&self.description),
            media: clone_text(&self.media),
            media_hash: clone_bytes(&self.media_hash),
            copies: self.copies,
            issued_at: clone_text(&self.issued_at),
            expires_at: clone_text(&self.expires_at),
            starts_at: clone_text(&self.starts_at),
            updated_at: clone_text(&self.updated_at),
            extra: clone_text(&self.extra),
            reference: clone_text(&self.reference),
            reference_hash: clone_bytes(&self.reference_hash),
        }
    }
}

impl TokenMetadata {
    /// Builds the metadata of a certificate for the media at `media_uri`,
    /// issued at clock reading `issued_at`.
    pub fn for_certificate(media_uri: String, issued_at: u64) -> (metadata: TokenMetadata)
        ensures
            metadata@ == certificate_metadata(media_uri@, issued_at),
    {
        TokenMetadata {
            title: Some(String::from_str("L1 Certificate")),
            description: Some(String::new()),
            media: Some(media_uri),
            media_hash: None,
            copies: Some(1u64),
            issued_at: Some(decimal_string(issued_at)),
            expires_at: None,
            starts_at: None,
            updated_at: None,
            extra: None,
            reference: None,
            reference_hash: None,
        }
    }
}

} // verus!
