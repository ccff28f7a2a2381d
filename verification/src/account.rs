//! Account identifiers: texts that the host accepts as the name of an account.

use near_sdk::json_types::ValidAccountId;
use std::convert::TryFrom;
use vstd::prelude::*;

use crate::error::RegistryError;

verus! {

/// The characters that separate the parts of an account identifier.
pub open spec fn is_separator(c: char) -> bool {
    c == '-' || c == '_' || c == '.'
}

/// Lower-case letters and digits, of which the parts of an identifier are made.
pub open spec fn is_name_char(c: char) -> bool {
    ('a' <= c && c <= 'z') || ('0' <= c && c <= '9')
}

/// A text is an account identifier when it has 2 to 64 characters, each a
/// lower-case letter, a digit or a separator, and every separator stands
/// between two characters that are not separators.
pub open spec fn is_valid_account_id(text: Seq<char>) -> bool {
    &&& 2 <= text.len() <= 64
    &&& forall|i: int| 0 <= i < text.len() ==> is_name_char(#[trigger] text[i]) || is_separator(text[i])
    &&& forall|i: int|
        0 <= i < text.len() && is_separator(#[trigger] text[i]) ==> {
            &&& 0 < i < text.len() - 1
            &&& !is_separator(text[i - 1])
            &&& !is_separator(text[i + 1])
        }
}

/// Asks `near_sdk::json_types::ValidAccountId::try_from` whether it accepts
/// `text`. The contract claims that it accepts exactly the texts that
/// `is_valid_account_id` describes.
#[verifier::external_body]
fn near_accepts(text: &str) -> (accepted: bool)
    ensures
        accepted == is_valid_account_id(text@),
{
    ValidAccountId::try_from(text).is_ok()
}

/// A validated account identifier. Two identifiers are equal when their texts
/// are.
#[derive(Debug)]
pub struct AccountId {
    text: String,
}

impl View for AccountId {
    type V = Seq<char>;

    closed spec fn view(&self) -> Seq<char> {
        self.text@
    }
}

impl AccountId {
    #[verifier::type_invariant]
    spec fn valid(self) -> bool {
        is_valid_account_id(self.text@)
    }

    /// Makes an identifier of `text`, or refuses it with `InvalidIdentifier`.
    pub fn new(text: String) -> (r: Result<AccountId, RegistryError>)
        ensures
            match r {
                Ok(id) => is_valid_account_id(text@) && id@ == text@,
                Err(e) => !is_valid_account_id(text@) && e == RegistryError::InvalidIdentifier,
            },
    {
        if near_accepts(text.as_str()) {
            Ok(AccountId { text })
        } else {
            Err(RegistryError::InvalidIdentifier)
        }
    }

    /// The identifier's text, which is always a valid one.
    pub fn as_str(&self) -> (text: &str)
        ensures
            text@ == self@,
            is_valid_account_id(self@),
    {
        proof {
            use_type_invariant(self);
        }
        self.text.as_str()
    }

    /// A copy of the identifier's text.
    pub fn to_string(&self) -> (text: String)
        ensures
            text@ == self@,
    {
        self.text.clone()
    }
}

impl Clone for AccountId {
    fn clone(&self) -> (copy: AccountId)
        ensures
            copy@ == self@,
    {
        proof {
            use_type_invariant(self);
        }
        AccountId { text: self.text.clone() }
    }
}

impl PartialEq for AccountId {
    fn eq(&self, other: &AccountId) -> (same: bool) {
        self.text == other.text
    }
}

impl Eq for AccountId {

}

impl vstd::std_specs::cmp::PartialEqSpecImpl for AccountId {
    open spec fn obeys_eq_spec() -> bool {
        true
    }

    open spec fn eq_spec(&self, other: &AccountId) -> bool {
        self@ == other@
    }
}

} // verus!
