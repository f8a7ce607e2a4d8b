//! The interface every backend shares.
use vstd::prelude::*;

use crate::types::{Capability, capabilities_contain};

verus! {

/// Common interface shared by all backend traits.
///
/// Every backend must report its name and capabilities. The four operational traits
/// (`SnapshotProvider`, `BackupExecutor`, `RestorePlanner`, `MountManager`) all
/// extend this trait so callers can query capabilities without knowing which
/// specific trait a backend implements.
pub trait Backend: Send + Sync {
    /// The capabilities the backend reports, in order. Every backend of this library
    /// states its own; nothing is known of a backend that does not.
    open spec fn capability_set(&self) -> Seq<Capability> {
        vstd::pervasive::arbitrary()
    }

    /// Return the canonical name of this backend (e.g. `"linux-btrfs"`, `"windows-vss"`).
    fn backend_name(&self) -> &'static str;

    /// Return the set of capabilities this backend supports.
    fn capabilities(&self) -> (r: &'static [Capability])
        ensures
            r@ == self.capability_set(),
    ;

    /// Check whether this backend supports a specific capability: whether it is in the
    /// list that `capabilities` returns.
    fn supports(&self, capability: Capability) -> (r: bool)
        ensures
            r == self.capability_set().contains(capability),
    {
        capabilities_contain(self.capabilities(), capability)
    }
}

} // verus!
