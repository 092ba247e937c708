//! Account identifiers.

use vstd::prelude::*;

verus! {

/// The error of the account identifier parser.
#[verifier::external_type_specification]
#[verifier::external_body]
pub struct ExParseAccountError(near_primitives::account::id::ParseAccountError);

/// The characters that may stand between the parts of an identifier.
pub open spec fn is_separator(c: char) -> bool {
    c == '-' || c == '_' || c == '.'
}

/// The characters that the parts of an identifier are made of.
pub open spec fn is_alphanumeric(c: char) -> bool {
    'a' <= c <= 'z' || '0' <= c <= '9'
}

/// What the network accepts as an account identifier: two to sixty-four lower case letters,
/// digits and separators, where each separator stands between a letter or digit and another.
pub open spec fn valid_account_id(s: Seq<char>) -> bool {
    &&& 2 <= s.len() <= 64
    &&& forall|i: int| 0 <= i < s.len() ==> is_alphanumeric(#[trigger] s[i]) || is_separator(s[i])
    &&& !is_separator(s[0])
    &&& !is_separator(s[s.len() - 1])
    &&& forall|i: int, j: int|
        0 <= i < s.len() && j == i + 1 && j < s.len() ==> !(is_separator(#[trigger] s[i])
            && is_separator(#[trigger] s[j]))
}

/// A text that is not an account identifier.
#[derive(Clone, Copy, Debug, PartialEq, Eq, Structural)]
pub struct InvalidAccountId;

/// An account identifier.
#[derive(Debug, PartialEq, Eq, PartialOrd, Ord, Hash)]
pub struct AccountId {
    text: String,
}

impl View for AccountId {
    type V = Seq<char>;

    closed spec fn view(&self) -> Seq<char> {
        self.text@
    }
}

/// Calls the parser of `near_sdk::AccountId` (its `FromStr`).
///
/// Claimed of it: it accepts exactly the texts that `valid_account_id` describes, and the
/// identifier that it returns is displayed as the text that was read.
#[verifier::external_body]
fn parse_account_id(text: &str) -> (id: Result<
    String,
    near_primitives::account::id::ParseAccountError,
>)
    ensures
        id is Ok <==> valid_account_id(text@),
        id matches Ok(id) ==> id@ == text@,
{
    text.parse::<near_sdk::AccountId>().map(|id| id.to_string())
}

impl AccountId {
    #[verifier::type_invariant]
    closed spec fn well_formed(self) -> bool {
        valid_account_id(self.text@)
    }

    /// Reads an account identifier.
    pub fn parse(text: &str) -> (id: Result<AccountId, InvalidAccountId>)
        ensures
            valid_account_id(text@) <==> id is Ok,
            id matches Ok(id) ==> id@ == text@,
    {
        match parse_account_id(text) {
            Ok(text) => Ok(AccountId { text }),
            Err(_) => Err(InvalidAccountId),
        }
    }

    /// The text of the identifier.
    pub fn as_str(&self) -> (text: &str)
        ensures
            text@ == self@,
            valid_account_id(self@),
    {
        proof {
            use_type_invariant(self);
        }
        self.text.as_str()
    }

    /// Whether two identifiers name the same account.
    pub fn same_as(&self, other: &AccountId) -> (same: bool)
        ensures
            same == (self@ == other@),
    {
        self.text == other.text
    }
}

impl Clone for AccountId {
    fn clone(&self) -> (id: AccountId)
        ensures
            id == *self,
            id@ == self@,
    {
        proof {
            use_type_invariant(self);
        }
        AccountId { text: self.text.clone() }
    }
}

} // verus!
