use vstd::prelude::*;

use std::sync::Arc;

use crate::data::{Data, DataObjectId, DataType, Storage};
use crate::error::Error;
use crate::files::FileSystem;
use crate::objects::ObjectTable;
use crate::paths::{check_absolute, check_under, is_absolute, is_under, bytes_clone};
use crate::workdir::{decimal, lemma_decimal_digits, lemma_minted_path_under_base, minted_path,
    WorkDir};

verus! {

/// A subworker's description of where a freshly produced result lives, as
/// it arrives over the wire.
pub enum LocalStorage {
    /// The bytes themselves, carried inline in the message.
    Memory(Vec<u8>),
    /// A path inside the subworker's own work directory where the
    /// subworker wrote the result.
    Path(Vec<u8>),
    /// A reference to a data object the worker already owns.
    InWorker(DataObjectId),
    /// A storage variant this worker's protocol does not know.
    Unknown,
}

/// A subworker's description of a freshly produced result: what the bytes
/// represent, and where they live.
pub struct LocalData {
    pub data_type: DataType,
    pub storage: LocalStorage,
}

/// A subworker-reported path is accepted only when it is absolute and lies
/// inside that subworker's own work directory.
pub open spec fn path_accepted(p: Seq<u8>, subworker_dir: Seq<u8>) -> bool {
    is_absolute(p) && is_under(p, subworker_dir)
}

/// Translates a subworker's result description into a worker-owned data
/// handle.
///
/// Only `Blob` data is handled; every other tag fails as unimplemented.
/// Inline bytes become a new memory-backed handle; nothing touches the
/// filesystem. A reported path is validated — absolute, and inside the
/// reporting subworker's own directory — before any filesystem mutation;
/// a path that fails validation fails with [`Error::PathOutsideSandbox`]
/// and the filesystem is untouched. A valid path is relocated (moved, not
/// copied) to a path freshly minted by the worker's work directory, so
/// ownership transfers exclusively to the worker and the subworker-side
/// path no longer names a file. A reference to an object the worker
/// already owns resolves to a new shared handle to the same data, with
/// nothing copied, moved, or re-registered.
///
/// Two assumptions are made of the caller, stated in `requires`: the
/// worker's work directory and the subworker's directory are disjoint —
/// neither lies inside the other — which is what keeps minted paths out of
/// the subworker's sandbox; and a reported path that passes validation
/// names a file the subworker actually produced, so the move has something
/// to move.
pub fn localize(
    objects: &ObjectTable,
    work_dir: &mut WorkDir,
    fs: &mut FileSystem,
    subworker_dir: &Vec<u8>,
    desc: LocalData,
) -> (r: Result<Arc<Data>, Error>)
    requires
        old(fs).wf(),
        old(work_dir).spec_next_index() < u64::MAX,
        !is_under(old(work_dir).spec_base(), subworker_dir@),
        !is_under(subworker_dir@, old(work_dir).spec_base()),
        desc.storage matches LocalStorage::Path(p) ==> ((desc.data_type == DataType::Blob
            && path_accepted(p@, subworker_dir@)) ==> old(fs)@.contains_key(p@)),
    ensures
        final(fs).wf(),
        final(work_dir).spec_base() == old(work_dir).spec_base(),
        desc.data_type != DataType::Blob ==> r == Err::<Arc<Data>, Error>(Error::UnimplementedType)
            && final(fs)@ == old(fs)@ && final(work_dir).spec_next_index() == old(
            work_dir,
        ).spec_next_index(),
        desc.data_type == DataType::Blob ==> match desc.storage {
            LocalStorage::Memory(bytes) => {
                &&& r matches Ok(d)
                &&& d.data_type == DataType::Blob
                &&& d.storage matches Storage::Memory(b) && b@ == bytes@
                &&& final(fs)@ == old(fs)@
                &&& final(work_dir).spec_next_index() == old(work_dir).spec_next_index()
            },
            LocalStorage::Path(p) => {
                let target = minted_path(
                    old(work_dir).spec_base(),
                    old(work_dir).spec_next_index(),
                );
                &&& !path_accepted(p@, subworker_dir@) ==> r == Err::<Arc<Data>, Error>(
                    Error::PathOutsideSandbox,
                ) && final(fs)@ == old(fs)@ && final(work_dir).spec_next_index() == old(
                    work_dir,
                ).spec_next_index()
                &&& path_accepted(p@, subworker_dir@) ==> {
                    &&& r matches Ok(d)
                    &&& d.data_type == DataType::Blob
                    &&& d.storage matches Storage::ManagedPath(q) && q@ == target
                    &&& is_under(target, old(work_dir).spec_base())
                    &&& final(fs)@ == old(fs)@.remove(p@).insert(target, old(fs)@[p@])
                    &&& !final(fs)@.contains_key(p@)
                    &&& final(work_dir).spec_next_index() == old(work_dir).spec_next_index() + 1
                }
            },
            LocalStorage::InWorker(id) => {
                &&& final(fs)@ == old(fs)@
                &&& final(work_dir).spec_next_index() == old(work_dir).spec_next_index()
                &&& objects@.contains_key(id.value) ==> (r matches Ok(d) && d
                    == objects@[id.value])
                &&& !objects@.contains_key(id.value) ==> r == Err::<Arc<Data>, Error>(
                    Error::UnknownObject,
                )
            },
            LocalStorage::Unknown => r == Err::<Arc<Data>, Error>(Error::UnimplementedStorage)
                && final(fs)@ == old(fs)@ && final(work_dir).spec_next_index() == old(
                work_dir,
            ).spec_next_index(),
        },
{
    match desc.data_type {
        DataType::Blob => {},
        DataType::Directory => {
            return Err(Error::UnimplementedType);
        },
    }
    match desc.storage {
        LocalStorage::Memory(bytes) => Ok(
            Arc::new(Data { data_type: DataType::Blob, storage: Storage::Memory(bytes) }),
        ),
        LocalStorage::Path(source_path) => {
            if !check_absolute(&source_path) {
                return Err(Error::PathOutsideSandbox);
            }
            if !check_under(&source_path, subworker_dir) {
                return Err(Error::PathOutsideSandbox);
            }
            let target_path = work_dir.new_path_for_dataobject();
            proof {
                let base = old(work_dir).spec_base();
                let n = old(work_dir).spec_next_index();
                lemma_decimal_digits(n);
                lemma_minted_path_under_base(base, n);
                crate::paths::lemma_child_escapes_disjoint_dir(base, decimal(n), subworker_dir@);
                assert(!is_under(target_path@, subworker_dir@));
                assert(target_path@ != source_path@);
            }
            let stored_path = bytes_clone(&target_path);
            fs.move_file(&source_path, target_path);
            Ok(
                Arc::new(
                    Data { data_type: DataType::Blob, storage: Storage::ManagedPath(stored_path) },
                ),
            )
        },
        LocalStorage::InWorker(id) => match objects.share(id) {
            Some(d) => Ok(d),
            None => Err(Error::UnknownObject),
        },
        LocalStorage::Unknown => Err(Error::UnimplementedStorage),
    }
}

} // verus!
