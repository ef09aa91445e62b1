//! Hand-off boundary between a worker process and the subworkers it
//! supervises.
//!
//! The library does two things. It authenticates and registers a newly
//! connected subworker over its control channel ([`registry::register`]),
//! and it localizes a subworker's description of a freshly produced result
//! into the worker's own data representation ([`localize::localize`]) —
//! without copying bytes unnecessarily, and without letting a misbehaving
//! subworker smuggle arbitrary filesystem paths past the worker's trust
//! boundary.
//!
//! The worker's shared state is modeled explicitly: the subworker registry,
//! the object table of data handles the worker already owns, the work
//! directory that mints fresh managed paths, and a map model of the
//! filesystem on which relocation is performed. The embedding process wires
//! these to the real transport and the real filesystem.

pub mod data;
pub mod error;
pub mod files;
pub mod localize;
pub mod objects;
pub mod paths;
pub mod registry;
pub mod workdir;
