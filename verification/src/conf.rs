//! The on-disk configuration descriptor: the plain values from which
//! the target descriptor is constructed. Loading and storing the file
//! is the driver's concern; the values live here.

use crate::sail::{LinuxVariant, StorageType, ZfsType};
use vstd::prelude::*;

verus! {

/// The installation parameters as the operator writes them.
#[derive(Debug)]
pub struct Config {
    pub linvar: LinuxVariant,
    pub zfs_type: ZfsType,
    pub storage_type: StorageType,
    pub disk: String,
    pub partsize_esp: String,
    pub partsize_bpool: String,
}

impl Default for Config {
    /// The generated template the operator edits before a run.
    fn default() -> (r: Self)
        ensures
            r.linvar == LinuxVariant::Linux,
            r.zfs_type == ZfsType::Normal,
            r.storage_type == StorageType::Ssd,
            r.disk@ == Seq::<char>::empty(),
            r.partsize_esp@ == Seq::<char>::empty(),
            r.partsize_bpool@ == Seq::<char>::empty(),
    {
        Config {
            linvar: LinuxVariant::Linux,
            zfs_type: ZfsType::Normal,
            storage_type: StorageType::Ssd,
            disk: String::new(),
            partsize_esp: String::new(),
            partsize_bpool: String::new(),
        }
    }
}

} // verus!
