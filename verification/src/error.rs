use vstd::prelude::*;

verus! {

/// The failures this boundary reports to an RPC caller.
///
/// Loss of the control connection itself is not listed here: under the
/// worker's current policy it is fatal to the whole process, so it is
/// handled by the embedding process rather than returned to a caller.
#[derive(Clone, Copy, Debug, PartialEq, Eq, Structural)]
pub enum Error {
    /// The subworker presented a protocol version other than the one this
    /// worker was built for; carries the version that was expected.
    ProtocolMismatch { expected: u32 },
    /// A path reported by a subworker was not absolute, or did not lie
    /// inside that subworker's own work directory.
    PathOutsideSandbox,
    /// A reference to a data object the worker does not know.
    UnknownObject,
    /// A data type tag this worker does not handle yet.
    UnimplementedType,
    /// A storage variant this worker does not handle yet.
    UnimplementedStorage,
}

} // verus!
