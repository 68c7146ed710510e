//! Account identifiers that the host accepts as the target of a call.

use vstd::prelude::*;

verus! {

/// The name of an account on the ledger.
pub type AccountId = String;

/// A character that may separate the parts of an account identifier.
pub open spec fn is_separator(c: char) -> bool {
    c == '-' || c == '_' || c == '.'
}

/// A lower-case letter or a digit.
pub open spec fn is_lowercase_alphanumeric(c: char) -> bool {
    ('a' <= c && c <= 'z') || ('0' <= c && c <= '9')
}

/// The host's rule for account identifiers: 2 to 64 characters, each a lower-case
/// letter, a digit or a separator, with no separator first, last or next to
/// another one.
pub open spec fn valid_account_id(id: Seq<char>) -> bool {
    &&& 2 <= id.len() <= 64
    &&& forall|i: int|
        0 <= i < id.len() ==> is_lowercase_alphanumeric(#[trigger] id[i]) || is_separator(id[i])
    &&& !is_separator(id[0])
    &&& !is_separator(id[id.len() - 1])
    &&& forall|i: int|
        0 <= i < id.len() - 1 ==> !(is_separator(#[trigger] id[i]) && is_separator(id[i + 1]))
}

/// Calls `near_sdk::env::is_valid_account_id` on the bytes of `id`.
///
/// Trusted: the call answers `valid_account_id`. It rejects a length outside 2 to
/// 64 bytes and every byte that is not a lower-case letter, a digit or a
/// separator, so an accepted identifier is ASCII and has as many characters as
/// bytes; it then rejects a separator that comes first, last or after another.
#[verifier::external_body]
fn is_valid_account_id(id: &str) -> (valid: bool)
    ensures
        valid == valid_account_id(id@),
{
    near_sdk::env::is_valid_account_id(id.as_bytes())
}

/// An account identifier that has passed the host's validity rule.
#[derive(Debug, PartialEq, Eq)]
pub struct ValidAccountId {
    id: AccountId,
}

impl View for ValidAccountId {
    type V = Seq<char>;

    closed spec fn view(&self) -> Seq<char> {
        self.id@
    }
}

impl Clone for ValidAccountId {
    fn clone(&self) -> (copy: ValidAccountId)
        ensures
            copy@ == self@,
    {
        proof {
            use_type_invariant(self);
        }
        ValidAccountId { id: self.id.clone() }
    }
}

impl ValidAccountId {
    #[verifier::type_invariant]
    spec fn well_formed(self) -> bool {
        valid_account_id(self.id@)
    }

    /// Accepts `id` exactly when it is a valid account identifier.
    pub fn new(id: AccountId) -> (checked: Option<ValidAccountId>)
        ensures
            checked is Some <==> valid_account_id(id@),
            checked matches Some(account) ==> account@ == id@,
    {
        if is_valid_account_id(id.as_str()) {
            Some(ValidAccountId { id })
        } else {
            None
        }
    }

    /// The identifier, which is valid.
    pub fn as_ref(&self) -> (id: &AccountId)
        ensures
            id@ == self@,
            valid_account_id(self@),
    {
        proof {
            use_type_invariant(self);
        }
        &self.id
    }
}

} // verus!
