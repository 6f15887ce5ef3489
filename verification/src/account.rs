use vstd::prelude::*;

verus! {

/// Longest account identifier the ledger accepts, in characters.
pub const MAX_ACCOUNT_ID_LEN: usize = 64;

/// An opaque, case-sensitive account identifier of bounded length.
///
/// The ledger treats identifiers as uninterpreted strings: two accounts are
/// the same exactly when their identifiers are equal character for character.
#[derive(Debug)]
pub struct AccountId {
    pub id: String,
}

impl View for AccountId {
    type V = Seq<char>;

    open spec fn view(&self) -> Seq<char> {
        self.id@
    }
}

impl AccountId {
    /// An identifier is acceptable when it is non-empty and no longer than
    /// [`MAX_ACCOUNT_ID_LEN`] characters.
    pub open spec fn spec_valid(chars: Seq<char>) -> bool {
        1 <= chars.len() <= MAX_ACCOUNT_ID_LEN
    }

    /// Wraps a string as an account identifier, refusing one whose length is
    /// out of bounds.
    pub fn new(id: String) -> (r: Option<AccountId>)
        ensures
            match r {
                Some(a) => a@ == id@ && Self::spec_valid(id@),
                None => !Self::spec_valid(id@),
            },
    {
        let n = id.as_str().unicode_len();
        if 1 <= n && n <= MAX_ACCOUNT_ID_LEN {
            Some(AccountId { id })
        } else {
            None
        }
    }

    /// The identifier as a plain string.
    pub fn as_string(&self) -> (r: &String)
        ensures
            r@ == self@,
    {
        &self.id
    }
}

impl Clone for AccountId {
    fn clone(&self) -> (r: Self)
        ensures
            r == *self,
    {
        AccountId { id: self.id.clone() }
    }
}

impl PartialEq for AccountId {
    fn eq(&self, other: &Self) -> (r: bool) {
        self.id == other.id
    }
}

impl Eq for AccountId {

}

impl vstd::std_specs::cmp::PartialEqSpecImpl for AccountId {
    open spec fn obeys_eq_spec() -> bool {
        true
    }

    open spec fn eq_spec(&self, other: &Self) -> bool {
        self@ == other@
    }
}

} // verus!
