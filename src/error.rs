use vstd::prelude::*;

verus! {

/// Why a repository operation did not succeed.
#[derive(Debug)]
pub enum RepositoryError {
    /// No entity has the identifier, given in its hyphenated text form.
    NotFound(String),
    /// A caller-supplied value could not be accepted; holds that value.
    Validation(String),
    /// The backing store failed; holds its description of the fault.
    Unexpected(String),
}

impl RepositoryError {
    /// The error is `NotFound` for the text of `id`.
    pub open spec fn is_not_found_for(self, id: u128) -> bool {
        self matches RepositoryError::NotFound(t) && t@ == crate::ident::uuid_text(id)
    }

    /// The error is `Validation` for the given text.
    pub open spec fn is_validation_of(self, text: Seq<char>) -> bool {
        self matches RepositoryError::Validation(t) && t@ == text
    }
}

} // verus!
