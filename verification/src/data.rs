use vstd::prelude::*;

use std::sync::Arc;

verus! {

/// An opaque, worker-scoped identifier for a data object. It names exactly
/// one data object for the worker's lifetime and is never reassigned.
#[derive(Clone, Copy, Debug, PartialEq, Eq, Hash, Structural)]
pub struct DataObjectId {
    pub value: u64,
}

/// What the bytes of a data object represent. Only `Blob` is handled by
/// localization today; every other tag is rejected explicitly as
/// unimplemented rather than silently mishandled.
#[derive(Clone, Copy, Debug, PartialEq, Eq, Structural)]
pub enum DataType {
    Blob,
    Directory,
}

/// Where the bytes of a worker-owned data object physically live.
pub enum Storage {
    /// Owned bytes held in worker memory.
    Memory(Vec<u8>),
    /// A file at a path minted by, and owned by, the worker's own work
    /// directory — never a path inside a subworker's directory.
    ManagedPath(Vec<u8>),
}

/// The worker-internal handle for one data object. Immutable once
/// constructed; shared across its consumers behind `Arc`.
pub struct Data {
    pub data_type: DataType,
    pub storage: Storage,
}

/// Relies on `Arc::clone` from std: the clone is a second handle to the
/// same allocation, so it equals the handle it was cloned from. No bytes
/// are copied.
#[verifier::external_body]
pub(crate) fn share_handle(v: &Arc<Data>) -> (r: Arc<Data>)
    ensures
        r == *v,
{
    Arc::clone(v)
}

} // verus!
