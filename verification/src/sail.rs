//! The target descriptor: validated installation parameters and the
//! pure derivations (partition device paths, partition numbering) that
//! every later stage reads.

use crate::text::{
    concat2, concat3, count_matching, is_digit, last_component, parent_dir, spec_contains,
    spec_count_matching, spec_dec, spec_last_component, spec_parent_dir, to_chars, u64_to_dec,
};
use vstd::prelude::*;

verus! {

/// Which kernel package family the target system installs.
#[derive(Debug, Clone, Copy, PartialEq, Eq, Structural)]
pub enum LinuxVariant {
    Linux,
    LinuxLts,
    LinuxZen,
    LinuxHardened,
}

impl Default for LinuxVariant {
    fn default() -> (r: Self)
        ensures
            r == LinuxVariant::Linux,
    {
        LinuxVariant::Linux
    }
}

/// How the ZFS kernel module is packaged: prebuilt for one kernel, or DKMS.
#[derive(Debug, Clone, Copy, PartialEq, Eq, Structural)]
pub enum ZfsType {
    Normal,
    Dkms,
}

impl Default for ZfsType {
    fn default() -> (r: Self)
        ensures
            r == ZfsType::Normal,
    {
        ZfsType::Normal
    }
}

/// Whether the target disk is solid-state; gates TRIM maintenance units.
#[derive(Debug, Clone, Copy, PartialEq, Eq, Structural)]
pub enum StorageType {
    Ssd,
    Hdd,
}

impl Default for StorageType {
    fn default() -> (r: Self)
        ensures
            r == StorageType::Ssd,
    {
        StorageType::Ssd
    }
}

/// The kernel package name selected by a variant.
pub open spec fn spec_linvar(v: LinuxVariant) -> Seq<char> {
    match v {
        LinuxVariant::Linux => "linux"@,
        LinuxVariant::LinuxLts => "linux-lts"@,
        LinuxVariant::LinuxZen => "linux-zen"@,
        LinuxVariant::LinuxHardened => "linux-hardened"@,
    }
}

/// The ZFS package name selected by a variant and packaging mode.
pub open spec fn spec_zfs_package(v: LinuxVariant, z: ZfsType) -> Seq<char> {
    match z {
        ZfsType::Normal => "zfs-"@ + spec_linvar(v),
        ZfsType::Dkms => "zfs-dkms"@,
    }
}

/// A unit suffix accepted in a partition size string.
pub open spec fn spec_is_size_unit(c: char) -> bool {
    c == 'K' || c == 'M' || c == 'G' || c == 'T' || c == 'P'
}

/// A valid partition size string: a positive integer (decimal digits,
/// not all zero) followed by exactly one unit letter.
pub open spec fn spec_size_valid(s: Seq<char>) -> bool {
    &&& s.len() >= 2
    &&& spec_is_size_unit(s.last())
    &&& forall|i: int| 0 <= i < s.len() - 1 ==> is_digit(#[trigger] s[i])
    &&& exists|i: int| 0 <= i < s.len() - 1 && #[trigger] s[i] != '0'
}

/// Decides `spec_size_valid`.
pub fn validate_partsize(s: &str) -> (r: bool)
    ensures
        r == spec_size_valid(s@),
{
    let v = to_chars(s);
    if v.len() < 2 {
        return false;
    }
    let unit = v[v.len() - 1];
    if !(unit == 'K' || unit == 'M' || unit == 'G' || unit == 'T' || unit == 'P') {
        return false;
    }
    let mut nonzero = false;
    let mut i: usize = 0;
    while i < v.len() - 1
        invariant
            v@ == s@,
            v@.len() >= 2,
            i <= v@.len() - 1,
            forall|j: int| 0 <= j < i ==> is_digit(#[trigger] v@[j]),
            nonzero == exists|j: int| 0 <= j < i && #[trigger] v@[j] != '0',
        decreases v@.len() - i,
    {
        let c = v[i];
        if !('0' <= c && c <= '9') {
            return false;
        }
        if c != '0' {
            nonzero = true;
        }
        i = i + 1;
    }
    nonzero
}

/// Why a descriptor could not be constructed.
#[derive(Debug, Clone, Copy, PartialEq, Eq, Structural)]
pub enum SailError {
    /// The configured disk path is not a block device.
    NotBlockDevice,
    /// The EFI partition size string is malformed.
    InvalidSizeEsp,
    /// The boot-pool partition size string is malformed.
    InvalidSizeBpool,
}

/// The mathematical shape of a constructed target descriptor.
pub struct SailModel {
    pub linvar: Seq<char>,
    pub zfs: Seq<char>,
    pub disk: Seq<char>,
    pub partsize_esp: Seq<char>,
    pub partsize_bpool: Seq<char>,
    pub next_partnum: nat,
    pub storage_type: StorageType,
}

/// The target descriptor: validated installation parameters, immutable
/// after construction; every stage reads it, none mutates it.
pub struct Sail {
    inst_linvar: String,
    inst_zfs: String,
    disk: String,
    inst_partsize_esp: String,
    inst_partsize_bpool: String,
    next_partnum: usize,
    storage_type: StorageType,
}

impl View for Sail {
    type V = SailModel;

    closed spec fn view(&self) -> SailModel {
        SailModel {
            linvar: self.inst_linvar@,
            zfs: self.inst_zfs@,
            disk: self.disk@,
            partsize_esp: self.inst_partsize_esp@,
            partsize_bpool: self.inst_partsize_bpool@,
            next_partnum: self.next_partnum as nat,
            storage_type: self.storage_type,
        }
    }
}

/// A derived partition device path: `disk` + "-part" + `n`.
pub open spec fn spec_part_path(disk: Seq<char>, n: nat) -> Seq<char> {
    disk + "-part"@ + spec_dec(n)
}

impl Sail {
    /// Three consecutive partition numbers must stay representable.
    #[verifier::type_invariant]
    spec fn type_inv(self) -> bool {
        self.next_partnum + 2 <= usize::MAX
    }

    /// Validates the installation parameters and derives the next free
    /// partition number by counting the device-directory entries that
    /// contain the disk's basename as a substring (the disk node itself
    /// plus one node per pre-existing partition).
    ///
    /// `disk_is_block` reports whether the disk path names a block
    /// device; `dev_entries` lists the file names in the disk's parent
    /// directory. Both are observations the caller makes on the system.
    pub fn new(
        linvar: LinuxVariant,
        zfs_type: ZfsType,
        storage_type: StorageType,
        disk: String,
        partsize_esp: String,
        partsize_bpool: String,
        disk_is_block: bool,
        dev_entries: Vec<String>,
    ) -> (r: Result<Self, SailError>)
        requires
            dev_entries@.len() + 2 <= usize::MAX,
        ensures
            !disk_is_block ==> r == Err::<Sail, SailError>(SailError::NotBlockDevice),
            disk_is_block && !spec_size_valid(partsize_esp@) ==> r == Err::<Sail, SailError>(
                SailError::InvalidSizeEsp,
            ),
            disk_is_block && spec_size_valid(partsize_esp@) && !spec_size_valid(partsize_bpool@)
                ==> r == Err::<Sail, SailError>(SailError::InvalidSizeBpool),
            disk_is_block && spec_size_valid(partsize_esp@) && spec_size_valid(partsize_bpool@)
                ==> (r matches Ok(s) && s@ == (SailModel {
                linvar: spec_linvar(linvar),
                zfs: spec_zfs_package(linvar, zfs_type),
                disk: disk@,
                partsize_esp: partsize_esp@,
                partsize_bpool: partsize_bpool@,
                next_partnum: spec_count_matching(
                    dev_entries.deep_view(),
                    spec_last_component(disk@),
                ),
                storage_type,
            })),
    {
        if !disk_is_block {
            return Err(SailError::NotBlockDevice);
        }
        if !validate_partsize(partsize_esp.as_str()) {
            return Err(SailError::InvalidSizeEsp);
        }
        if !validate_partsize(partsize_bpool.as_str()) {
            return Err(SailError::InvalidSizeBpool);
        }
        let linvar_s: &str = match linvar {
            LinuxVariant::Linux => "linux",
            LinuxVariant::LinuxLts => "linux-lts",
            LinuxVariant::LinuxZen => "linux-zen",
            LinuxVariant::LinuxHardened => "linux-hardened",
        };
        let inst_zfs: String = match zfs_type {
            ZfsType::Normal => concat2("zfs-", linvar_s),
            ZfsType::Dkms => "zfs-dkms".to_owned(),
        };
        let base = last_component(disk.as_str());
        let next_partnum = count_matching(&dev_entries, base.as_str());
        Ok(
            Sail {
                inst_linvar: linvar_s.to_owned(),
                inst_zfs,
                disk,
                inst_partsize_esp: partsize_esp,
                inst_partsize_bpool: partsize_bpool,
                next_partnum,
                storage_type,
            },
        )
    }

    /// The kernel package name.
    pub fn get_linvar(&self) -> (r: &str)
        ensures
            r@ == self@.linvar,
    {
        self.inst_linvar.as_str()
    }

    /// The ZFS package name.
    pub fn get_zfs(&self) -> (r: &str)
        ensures
            r@ == self@.zfs,
    {
        self.inst_zfs.as_str()
    }

    /// The target disk path.
    pub fn get_disk(&self) -> (r: &str)
        ensures
            r@ == self@.disk,
    {
        self.disk.as_str()
    }

    /// The EFI partition size string.
    pub fn get_partsize_esp(&self) -> (r: &str)
        ensures
            r@ == self@.partsize_esp,
    {
        self.inst_partsize_esp.as_str()
    }

    /// The boot-pool partition size string.
    pub fn get_partsize_bpool(&self) -> (r: &str)
        ensures
            r@ == self@.partsize_bpool,
    {
        self.inst_partsize_bpool.as_str()
    }

    /// The number the first newly created partition receives.
    pub fn get_next_partnum(&self) -> (r: usize)
        ensures
            r as nat == self@.next_partnum,
    {
        self.next_partnum
    }

    /// The EFI partition's device path: `disk`-part`N`.
    pub fn get_efi_part(&self) -> (r: Result<String, SailError>)
        ensures
            r matches Ok(p) && p@ == spec_part_path(self@.disk, self@.next_partnum),
    {
        let n = u64_to_dec(self.next_partnum as u64);
        Ok(concat3(self.disk.as_str(), "-part", n.as_str()))
    }

    /// The boot-pool partition's device path: `disk`-part`N+1`.
    pub fn get_bpool_part(&self) -> (r: Result<String, SailError>)
        ensures
            r matches Ok(p) && p@ == spec_part_path(self@.disk, self@.next_partnum + 1),
    {
        proof {
            use_type_invariant(&*self);
        }
        let n = u64_to_dec((self.next_partnum + 1) as u64);
        Ok(concat3(self.disk.as_str(), "-part", n.as_str()))
    }

    /// The root-pool partition's device path: `disk`-part`N+2`.
    pub fn get_rpool_part(&self) -> (r: Result<String, SailError>)
        ensures
            r matches Ok(p) && p@ == spec_part_path(self@.disk, self@.next_partnum + 2),
    {
        proof {
            use_type_invariant(&*self);
        }
        let n = u64_to_dec((self.next_partnum + 2) as u64);
        Ok(concat3(self.disk.as_str(), "-part", n.as_str()))
    }

    /// The final path component of the EFI partition's device path,
    /// used as the partition's own mount directory name under the
    /// redundant-ESP collection directory.
    pub fn get_efi_last_path(&self) -> (r: Result<String, SailError>)
        ensures
            r matches Ok(p) && p@ == spec_last_component(self@.disk) + "-part"@ + spec_dec(
                self@.next_partnum,
            ),
    {
        let base = last_component(self.disk.as_str());
        let n = u64_to_dec(self.next_partnum as u64);
        Ok(concat3(base.as_str(), "-part", n.as_str()))
    }

    /// The final path component of the disk path.
    pub fn get_disk_last_path(&self) -> (r: Result<String, SailError>)
        ensures
            r matches Ok(p) && p@ == spec_last_component(self@.disk),
    {
        Ok(last_component(self.disk.as_str()))
    }

    /// The parent directory of the disk path.
    pub fn get_disk_parent(&self) -> (r: Result<String, SailError>)
        ensures
            r matches Ok(p) && p@ == spec_parent_dir(self@.disk),
    {
        Ok(parent_dir(self.disk.as_str()))
    }

    /// The three new partition numbers, rendered in decimal: the next
    /// free number and its two successors.
    pub fn partnum_decs(&self) -> (r: (String, String, String))
        ensures
            r.0@ == spec_dec(self@.next_partnum),
            r.1@ == spec_dec(self@.next_partnum + 1),
            r.2@ == spec_dec(self@.next_partnum + 2),
    {
        proof {
            use_type_invariant(&*self);
        }
        (
            u64_to_dec(self.next_partnum as u64),
            u64_to_dec((self.next_partnum + 1) as u64),
            u64_to_dec((self.next_partnum + 2) as u64),
        )
    }

    /// Whether the target disk is solid-state.
    pub fn is_using_ssd(&self) -> (r: bool)
        ensures
            r == (self@.storage_type == StorageType::Ssd),
    {
        match self.storage_type {
            StorageType::Ssd => true,
            StorageType::Hdd => false,
        }
    }
}

/// Counting the entries that mention a basename counts exactly the
/// set of indices whose entry mentions it, whatever the order of the
/// listing.
pub proof fn lemma_count_matching_is_card(entries: Seq<Seq<char>>, base: Seq<char>)
    ensures
        Set::new(|i: int| 0 <= i < entries.len() && spec_contains(entries[i], base)).finite(),
        spec_count_matching(entries, base) == Set::new(
            |i: int| 0 <= i < entries.len() && spec_contains(entries[i], base),
        ).len(),
    decreases entries.len(),
{
    let s = Set::new(|i: int| 0 <= i < entries.len() && spec_contains(entries[i], base));
    if entries.len() == 0 {
        assert(s =~= Set::<int>::empty());
    } else {
        let prev = entries.drop_last();
        let sp = Set::new(|i: int| 0 <= i < prev.len() && spec_contains(prev[i], base));
        lemma_count_matching_is_card(prev, base);
        let k = entries.len() - 1;
        assert(forall|i: int| 0 <= i < prev.len() ==> #[trigger] prev[i] == entries[i]);
        if spec_contains(entries.last(), base) {
            assert(s =~= sp.insert(k));
            assert(!sp.contains(k));
        } else {
            assert(s =~= sp);
        }
    }
}

/// With a device listing in which exactly the disk's own node and its
/// `n` pre-existing partition nodes mention the disk's basename — in
/// any order, among any number of other entries that do not mention
/// it — the descriptor's derived next partition number is `n + 1`, so
/// the three new partitions receive the numbers `n+1`, `n+2`, `n+3`.
pub proof fn lemma_next_partnum(entries: Seq<Seq<char>>, base: Seq<char>, n: nat)
    requires
        Set::new(|i: int| 0 <= i < entries.len() && spec_contains(entries[i], base)).len() == n
            + 1,
    ensures
        spec_count_matching(entries, base) == n + 1,
{
    lemma_count_matching_is_card(entries, base);
}

} // verus!
