//! The failure of a repository operation.
use vstd::prelude::*;

verus! {

/// A repository operation that failed (the store could not be reached, or
/// nothing matched), with the store's description of what happened.
pub struct RepositoryError {
    pub message: String,
}

} // verus!
