use vstd::prelude::*;

verus! {

/// Why a storage operation failed.
#[derive(Clone, Debug)]
pub enum StoreError {
    /// A lookup that had to find a row found none.
    NotFound,
    /// Any other failure of the store, with its description.
    Failed(String),
}

} // verus!
