use vstd::prelude::*;

verus! {

/// Why a creation request was rejected: one variant per gate of the
/// ownership-gated creation protocol. Every variant is terminal for the
/// request; nothing is retried.
#[derive(Clone, Copy, Debug, PartialEq, Eq, Structural)]
pub enum CreationError {
    /// No linking record resolves the requested parent entity.
    ParentNotFound,
    /// The parent entity is missing, or it is administered by a different
    /// subject than the caller.
    Unauthorized,
    /// A payload field failed validation, e.g. an unparsable contract
    /// address or a referenced quiz that does not exist.
    PayloadInvalid,
    /// The store query that reads the current maximum ID failed; no ID is
    /// considered consumed.
    AllocatorStoreError,
    /// The final insert of the new record failed; the allocated ID stays
    /// consumed.
    StoreWriteError,
}

} // verus!
