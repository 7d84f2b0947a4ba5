//! Error taxonomy for the search core.

use vstd::prelude::*;

verus! {

/// A searchable column that a range-style query parameter can refer to.
#[derive(Clone, Copy, Debug, PartialEq, Eq, Structural)]
pub enum SearchField {
    Price,
    Height,
    Width,
    Depth,
    DoorHeight,
    DoorWidth,
    Rent,
}

/// Classified failures of the search core.
///
/// Validation failures (`InvalidRangeIdentifier`, `EmptySearchCondition`,
/// `BadGeometryInput`) are detected before any storage call.  Storage
/// failures are mapped by the caller from the storage collaborator's own
/// error; the core never retries them.
#[derive(Clone, Copy, Debug, PartialEq, Eq, Structural)]
pub enum SearchError {
    /// A range identifier did not parse as a non-negative integer within
    /// the catalog's range count.  Carries the offending field.
    InvalidRangeIdentifier(SearchField),
    /// A search request produced zero predicates: rejected rather than
    /// treated as "match everything".
    EmptySearchCondition,
    /// The looked-up item does not exist; for the recommendation flow the
    /// caller maps this to a client error.
    ItemNotFound,
    /// A polygon query was issued with an empty coordinate list.
    BadGeometryInput,
    /// Pool exhaustion or connection failure in the storage collaborator.
    StorageUnavailable,
    /// A malformed query or constraint violation in the storage collaborator.
    StorageQueryFailed,
    /// Lock contention on a purchase, resolved as "not found" for the client.
    ConcurrentUpdateConflict,
}

} // verus!
