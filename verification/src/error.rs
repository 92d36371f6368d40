//! How a request to the store can fail.

use vstd::prelude::*;

verus! {

/// A failed save or lookup. "Not found" is no failure: a lookup reports it as
/// `Ok(None)`.
#[derive(Debug, Clone, PartialEq, Eq)]
pub enum StoreError {
    /// The store, or the way to it, reported a failure. The message is the
    /// one that was reported, unchanged.
    Transport { message: String },
    /// The store answered with a document that is no stored record.
    Malformed,
}

} // verus!
