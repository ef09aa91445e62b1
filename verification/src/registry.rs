use vstd::prelude::*;

use std::collections::HashMap;

use crate::error::Error;

verus! {

broadcast use vstd::std_specs::hash::group_hash_axioms;

/// The protocol version this worker speaks. A registering subworker must
/// present exactly this value: there is no compatibility window in either
/// direction.
pub const SUBWORKER_PROTOCOL_VERSION: u32 = 7;

/// The capability over which the worker later issues work to a registered
/// subworker. Opaque to this boundary: a token standing for the RPC client
/// handle held by the transport layer.
#[derive(Clone, Copy, Debug, PartialEq, Eq, Hash, Structural)]
pub struct ControlHandle {
    pub token: u64,
}

/// One live subworker connection: its caller-supplied id, the kind of
/// subworker it announced itself as, and the control capability.
pub struct SubworkerEntry {
    pub subworker_id: u32,
    pub subworker_type: String,
    pub control: ControlHandle,
}

/// The worker's registry of live subworkers, at most one entry per
/// subworker id.
pub struct SubworkerRegistry {
    entries: HashMap<u32, SubworkerEntry>,
}

impl View for SubworkerRegistry {
    type V = Map<u32, SubworkerEntry>;

    closed spec fn view(&self) -> Map<u32, SubworkerEntry> {
        self.entries@
    }
}

impl SubworkerRegistry {
    /// Each entry is filed under its own subworker id.
    pub open spec fn wf(self) -> bool {
        forall|k: u32| self@.contains_key(k) ==> (#[trigger] self@[k]).subworker_id == k
    }

    /// An empty registry.
    pub fn new() -> (r: SubworkerRegistry)
        ensures
            r.wf(),
            r@ == Map::<u32, SubworkerEntry>::empty(),
    {
        SubworkerRegistry { entries: HashMap::new() }
    }

    /// Files an entry under its subworker id, replacing any entry that id
    /// already had, so that at most one entry per id exists at a time.
    pub fn insert(&mut self, entry: SubworkerEntry)
        requires
            old(self).wf(),
        ensures
            final(self).wf(),
            final(self)@ == old(self)@.insert(entry.subworker_id, entry),
    {
        let id = entry.subworker_id;
        self.entries.insert(id, entry);
        proof {
            assert forall|k: u32| self@.contains_key(k) implies (#[trigger] self@[k]).subworker_id
                == k by {
                if k != id {
                    assert(old(self)@.contains_key(k));
                }
            }
        }
    }

    /// The entry registered under `id`, if any.
    pub fn lookup(&self, id: u32) -> (r: Option<&SubworkerEntry>)
        ensures
            match r {
                Some(e) => self@.contains_key(id) && *e == self@[id],
                None => !self@.contains_key(id),
            },
    {
        self.entries.get(&id)
    }

    /// How many subworkers are registered.
    pub fn len(&self) -> (n: usize)
        ensures
            n == self@.len(),
    {
        self.entries.len()
    }
}

/// Handles a subworker's registration handshake.
///
/// The handshake succeeds exactly when the subworker presents this worker's
/// own protocol version. On a mismatch it fails with
/// [`Error::ProtocolMismatch`] carrying the expected version, the registry
/// is left untouched, and the connection gains no further capability. On
/// success the registry gains exactly one entry for the supplied id, with
/// the supplied type name and control handle.
///
/// The id is caller-supplied and assumed fresh; no uniqueness re-check is
/// made here. Collision handling is the registry's: an entry the id already
/// had is replaced, keeping at most one entry per id.
pub fn register(
    registry: &mut SubworkerRegistry,
    version: u32,
    subworker_id: u32,
    subworker_type: String,
    control: ControlHandle,
) -> (r: Result<(), Error>)
    requires
        old(registry).wf(),
    ensures
        final(registry).wf(),
        version != SUBWORKER_PROTOCOL_VERSION ==> r == Err::<(), Error>(
            Error::ProtocolMismatch { expected: SUBWORKER_PROTOCOL_VERSION },
        ) && final(registry)@ == old(registry)@,
        version == SUBWORKER_PROTOCOL_VERSION ==> r == Ok::<(), Error>(()) && final(registry)@
            == old(registry)@.insert(
            subworker_id,
            (SubworkerEntry { subworker_id, subworker_type, control }),
        ),
{
    if version != SUBWORKER_PROTOCOL_VERSION {
        return Err(Error::ProtocolMismatch { expected: SUBWORKER_PROTOCOL_VERSION });
    }
    registry.insert(SubworkerEntry { subworker_id, subworker_type, control });
    Ok(())
}

} // verus!
