//! The pipeline stages. Each stage function computes the ordered plan
//! of external effects the stage performs — commands, file writes,
//! settle delays — as a function of the target descriptor and of the
//! outputs earlier commands produced. An unverified driver executes
//! each plan in order and aborts on the first failure.

use crate::action::{
    append_file, append_file_owned, chroot_stdin, chroot_stdin_owned, run_args, run_stdin, sh,
    sh_owned, spec_chroot_cmd, write_file, write_file_owned, Action, SpecAction,
};
use crate::parse::{
    extract_depends_version, extract_repo_version, fstab_filter, lemma_contains_extend,
    spec_depends_version, spec_fstab_filter, spec_repo_version,
};
use crate::string_res::{
    ADDITIONAL_STORAGE_S, ADD_USER_S, ARCHZFS_REPO_C, BIEAZ_INSTALL_I, BIEAZ_PACHOOK_INSTALL_I,
    ENABLE_SERVICES_S, GEN_INITRD_I, GNOME_INSTALL_S, GRUB_INSTALL_I, GRUB_MENU_I,
    IMPORT_ARCHZFS_KEYS_I, KERNEL_UPDATER_HEAD_S, NIX_INSTALL_S, PARU_INSTALL_I, SCRUB_SERVICE_C,
    SCRUB_TIMER_C, SERVICE_ENABLE_I, TRIM_ENABLE_I, TRIM_SERVICE_C, TRIM_TIMER_C,
    ZFS_MOUNT_GENERATOR_S, ZREPL_INSTALL_I, ZREPL_YML_C,
};
use crate::sail::{spec_part_path, Sail, SailModel, StorageType};
use crate::text::{
    concat2, concat3, concat4, spec_contains, spec_dec, spec_last_component, spec_match_at,
    spec_parent_dir, str_eq,
};
use vstd::prelude::*;

verus! {

/// Why a stage refused to produce a plan.
#[derive(Debug, Clone, Copy, PartialEq, Eq, Structural)]
pub enum SetupError {
    /// The process does not run as the superuser.
    NotRoot,
    /// The ZFS package metadata does not pin a kernel version.
    DependsVersionNotFound,
    /// The repository metadata does not state a kernel version.
    RepoVersionNotFound,
}

/// Succeeds exactly when `id -u` reported user id 0.
pub fn check_as_root(uid_output: &str) -> (r: Result<(), SetupError>)
    ensures
        r is Ok <==> uid_output@ == "0"@,
        r is Err ==> r == Err::<(), SetupError>(SetupError::NotRoot),
{
    if str_eq(uid_output, "0") {
        Ok(())
    } else {
        Err(SetupError::NotRoot)
    }
}

/// One `which` probe per required external tool, in a fixed order;
/// the driver aborts on the first probe that fails, naming the tool.
pub open spec fn spec_command_checker_plan() -> Seq<SpecAction> {
    seq![
        SpecAction::Run("which arch-chroot"@),
        SpecAction::Run("which awk"@),
        SpecAction::Run("which bash"@),
        SpecAction::Run("which blkid"@),
        SpecAction::Run("which chmod"@),
        SpecAction::Run("which curl"@),
        SpecAction::Run("which genfstab"@),
        SpecAction::Run("which grep"@),
        SpecAction::Run("which hwclock"@),
        SpecAction::Run("which id"@),
        SpecAction::Run("which mkdir"@),
        SpecAction::Run("which mkfs.vfat"@),
        SpecAction::Run("which modprobe"@),
        SpecAction::Run("which mount"@),
        SpecAction::Run("which mv"@),
        SpecAction::Run("which pacman"@),
        SpecAction::Run("which pacstrap"@),
        SpecAction::Run("which rm"@),
        SpecAction::Run("which sed"@),
        SpecAction::Run("which sgdisk"@),
        SpecAction::Run("which systemctl"@),
        SpecAction::Run("which systemd-firstboot"@),
        SpecAction::Run("which umount"@),
        SpecAction::Run("which zfs"@),
        SpecAction::Run("which zgenhostid"@),
        SpecAction::Run("which zpool"@),
    ]
}

/// Verifies that every required external tool resolves on the path.
pub fn command_checker() -> (plan: Vec<Action>)
    ensures
        plan.deep_view() == spec_command_checker_plan(),
{
    let plan: Vec<Action> = vec![
        sh("which arch-chroot"),
        sh("which awk"),
        sh("which bash"),
        sh("which blkid"),
        sh("which chmod"),
        sh("which curl"),
        sh("which genfstab"),
        sh("which grep"),
        sh("which hwclock"),
        sh("which id"),
        sh("which mkdir"),
        sh("which mkfs.vfat"),
        sh("which modprobe"),
        sh("which mount"),
        sh("which mv"),
        sh("which pacman"),
        sh("which pacstrap"),
        sh("which rm"),
        sh("which sed"),
        sh("which sgdisk"),
        sh("which systemctl"),
        sh("which systemd-firstboot"),
        sh("which umount"),
        sh("which zfs"),
        sh("which zgenhostid"),
        sh("which zpool"),
    ];
    proof {
        assert(plan.deep_view() =~= spec_command_checker_plan());
    }
    plan
}

/// The three partition-table edits, in order — EFI (EF00, the ESP
/// size), boot pool (BE00, the boot-pool size), root pool (BF00, the
/// rest of the disk) — numbered consecutively from the next free
/// partition number, followed by a settle delay.
pub open spec fn spec_partition_plan(m: SailModel) -> Seq<SpecAction> {
    let n1 = spec_dec(m.next_partnum);
    let n2 = spec_dec(m.next_partnum + 1);
    let n3 = spec_dec(m.next_partnum + 2);
    seq![
        SpecAction::RunArgs(
            seq![
                "sgdisk"@,
                "-n"@ + n1 + ":0:+"@ + m.partsize_esp,
                "-t"@ + n1 + ":EF00"@,
                m.disk,
            ],
        ),
        SpecAction::RunArgs(
            seq![
                "sgdisk"@,
                "-n"@ + n2 + ":0:+"@ + m.partsize_bpool,
                "-t"@ + n2 + ":BE00"@,
                m.disk,
            ],
        ),
        SpecAction::RunArgs(seq!["sgdisk"@, "-n"@ + n3 + ":0:0"@, "-t"@ + n3 + ":BF00"@, m.disk]),
        SpecAction::Sleep(1),
    ]
}

/// Appends the three new partitions to the target disk's table.
pub fn partition_disk(sail: &Sail) -> (plan: Vec<Action>)
    ensures
        plan.deep_view() == spec_partition_plan(sail@),
{
    let (n1, n2, n3) = sail.partnum_decs();
    let disk = sail.get_disk();
    let a1 = run_args(
        vec![
            "sgdisk".to_owned(),
            concat4("-n", n1.as_str(), ":0:+", sail.get_partsize_esp()),
            concat3("-t", n1.as_str(), ":EF00"),
            disk.to_owned(),
        ],
    );
    let a2 = run_args(
        vec![
            "sgdisk".to_owned(),
            concat4("-n", n2.as_str(), ":0:+", sail.get_partsize_bpool()),
            concat3("-t", n2.as_str(), ":BE00"),
            disk.to_owned(),
        ],
    );
    let a3 = run_args(
        vec![
            "sgdisk".to_owned(),
            concat3("-n", n3.as_str(), ":0:0"),
            concat3("-t", n3.as_str(), ":BF00"),
            disk.to_owned(),
        ],
    );
    let plan: Vec<Action> = vec![a1, a2, a3, Action::Sleep(1)];
    proof {
        assert(plan.deep_view() =~~= spec_partition_plan(sail@));
    }
    plan
}

/// The pool-and-dataset build: load the ZFS module; create the boot
/// pool (legacy-bootloader-compatible feature set) and the root pool;
/// lay out the fixed dataset hierarchy, containers before children and
/// the root dataset mounted before child mountpoints; format the EFI
/// partition and mount it at its per-partition directory and at the
/// canonical /boot/efi alias; create the optional application data
/// datasets.
pub open spec fn spec_format_plan(m: SailModel) -> Seq<SpecAction> {
    let efi = spec_part_path(m.disk, m.next_partnum);
    let bpool = spec_part_path(m.disk, m.next_partnum + 1);
    let rpool = spec_part_path(m.disk, m.next_partnum + 2);
    let efis_mnt = "/mnt/boot/efis/"@ + spec_last_component(m.disk) + "-part"@ + spec_dec(
        m.next_partnum,
    );
    seq![
        SpecAction::Run("modprobe zfs"@),
        SpecAction::Run(
            "zpool create -o compatibility=grub2 -o ashift=12 -o autotrim=on -O acltype=posixacl -O canmount=off -O compression=lz4 -O devices=off -O normalization=formD -O relatime=on -O xattr=sa -O mountpoint=/boot -R /mnt bpool "@
                + bpool,
        ),
        SpecAction::Run(
            "zpool create -o ashift=12 -o autotrim=on -R /mnt -O acltype=posixacl -O canmount=off -O compression=zstd -O dnodesize=auto -O normalization=formD -O relatime=on -O xattr=sa -O mountpoint=/ rpool "@
                + rpool,
        ),
        SpecAction::Run("zfs create -o canmount=off -o mountpoint=none rpool/arch"@),
        SpecAction::Run("zfs create -o canmount=off -o mountpoint=none bpool/arch"@),
        SpecAction::Run("zfs create -o canmount=off -o mountpoint=none bpool/arch/BOOT"@),
        SpecAction::Run("zfs create -o canmount=off -o mountpoint=none rpool/arch/ROOT"@),
        SpecAction::Run("zfs create -o canmount=off -o mountpoint=none rpool/arch/DATA"@),
        SpecAction::Run("zfs create -o mountpoint=/boot -o canmount=noauto bpool/arch/BOOT/default"@),
        SpecAction::Run("zfs create -o mountpoint=/ -o canmount=off rpool/arch/DATA/default"@),
        SpecAction::Run("zfs create -o mountpoint=/ -o canmount=noauto rpool/arch/ROOT/default"@),
        SpecAction::Run("zfs mount rpool/arch/ROOT/default"@),
        SpecAction::Run("zfs mount bpool/arch/BOOT/default"@),
        SpecAction::Run("zfs create -o canmount=off rpool/arch/DATA/default/usr"@),
        SpecAction::Run("zfs create -o canmount=off rpool/arch/DATA/default/var"@),
        SpecAction::Run("zfs create -o canmount=off rpool/arch/DATA/default/var/lib"@),
        SpecAction::Run("zfs create -o canmount=on rpool/arch/DATA/default/home"@),
        SpecAction::Run("zfs create -o canmount=on rpool/arch/DATA/default/root"@),
        SpecAction::Run("zfs create -o canmount=on rpool/arch/DATA/default/srv"@),
        SpecAction::Run("zfs create -o canmount=on rpool/arch/DATA/default/usr/local"@),
        SpecAction::Run("zfs create -o canmount=on rpool/arch/DATA/default/var/log"@),
        SpecAction::Run("zfs create -o canmount=on rpool/arch/DATA/default/var/spool"@),
        SpecAction::Run("chmod 750 /mnt/root"@),
        SpecAction::Run("mkfs.vfat -n EFI "@ + efi),
        SpecAction::Run("mkdir -p "@ + efis_mnt),
        SpecAction::Run("mount -t vfat "@ + efi + " "@ + efis_mnt),
        SpecAction::Run("mkdir -p /mnt/boot/efi"@),
        SpecAction::Run("mount -t vfat "@ + efi + " /mnt/boot/efi"@),
        SpecAction::Run("zfs create -o canmount=on rpool/arch/DATA/default/var/games"@),
        SpecAction::Run("chmod 775 /mnt/var/games"@),
        SpecAction::Run("zfs create -o canmount=on rpool/arch/DATA/default/var/www"@),
        SpecAction::Run("zfs create -o canmount=on rpool/arch/DATA/default/var/lib/AccountsService"@),
        SpecAction::Run("zfs create -o canmount=on rpool/arch/DATA/default/var/lib/docker"@),
        SpecAction::Run("zfs create -o canmount=on rpool/arch/DATA/default/var/lib/nfs"@),
        SpecAction::Run("zfs create -o canmount=on rpool/arch/DATA/default/var/lib/lxc"@),
        SpecAction::Run("zfs create -o canmount=on rpool/arch/DATA/default/var/lib/libvirt"@),
        SpecAction::Run("zfs create -o canmount=on rpool/arch/DATA/default/nix"@),
    ]
}

/// Builds the pools, datasets and EFI filesystem on the new partitions.
pub fn format_disk(sail: &Sail) -> (plan: Vec<Action>)
    ensures
        plan.deep_view() == spec_format_plan(sail@),
{
    let efi = sail.get_efi_part().unwrap();
    let bpool = sail.get_bpool_part().unwrap();
    let rpool = sail.get_rpool_part().unwrap();
    let efi_last = sail.get_efi_last_path().unwrap();
    let efis_mnt = concat2("/mnt/boot/efis/", efi_last.as_str());
    let plan: Vec<Action> = vec![
        sh("modprobe zfs"),
        sh_owned(
            concat2(
                "zpool create -o compatibility=grub2 -o ashift=12 -o autotrim=on -O acltype=posixacl -O canmount=off -O compression=lz4 -O devices=off -O normalization=formD -O relatime=on -O xattr=sa -O mountpoint=/boot -R /mnt bpool ",
                bpool.as_str(),
            ),
        ),
        sh_owned(
            concat2(
                "zpool create -o ashift=12 -o autotrim=on -R /mnt -O acltype=posixacl -O canmount=off -O compression=zstd -O dnodesize=auto -O normalization=formD -O relatime=on -O xattr=sa -O mountpoint=/ rpool ",
                rpool.as_str(),
            ),
        ),
        sh("zfs create -o canmount=off -o mountpoint=none rpool/arch"),
        sh("zfs create -o canmount=off -o mountpoint=none bpool/arch"),
        sh("zfs create -o canmount=off -o mountpoint=none bpool/arch/BOOT"),
        sh("zfs create -o canmount=off -o mountpoint=none rpool/arch/ROOT"),
        sh("zfs create -o canmount=off -o mountpoint=none rpool/arch/DATA"),
        sh("zfs create -o mountpoint=/boot -o canmount=noauto bpool/arch/BOOT/default"),
        sh("zfs create -o mountpoint=/ -o canmount=off rpool/arch/DATA/default"),
        sh("zfs create -o mountpoint=/ -o canmount=noauto rpool/arch/ROOT/default"),
        sh("zfs mount rpool/arch/ROOT/default"),
        sh("zfs mount bpool/arch/BOOT/default"),
        sh("zfs create -o canmount=off rpool/arch/DATA/default/usr"),
        sh("zfs create -o canmount=off rpool/arch/DATA/default/var"),
        sh("zfs create -o canmount=off rpool/arch/DATA/default/var/lib"),
        sh("zfs create -o canmount=on rpool/arch/DATA/default/home"),
        sh("zfs create -o canmount=on rpool/arch/DATA/default/root"),
        sh("zfs create -o canmount=on rpool/arch/DATA/default/srv"),
        sh("zfs create -o canmount=on rpool/arch/DATA/default/usr/local"),
        sh("zfs create -o canmount=on rpool/arch/DATA/default/var/log"),
        sh("zfs create -o canmount=on rpool/arch/DATA/default/var/spool"),
        sh("chmod 750 /mnt/root"),
        sh_owned(concat2("mkfs.vfat -n EFI ", efi.as_str())),
        sh_owned(concat2("mkdir -p ", efis_mnt.as_str())),
        sh_owned(concat4("mount -t vfat ", efi.as_str(), " ", efis_mnt.as_str())),
        sh("mkdir -p /mnt/boot/efi"),
        sh_owned(concat3("mount -t vfat ", efi.as_str(), " /mnt/boot/efi")),
        sh("zfs create -o canmount=on rpool/arch/DATA/default/var/games"),
        sh("chmod 775 /mnt/var/games"),
        sh("zfs create -o canmount=on rpool/arch/DATA/default/var/www"),
        sh("zfs create -o canmount=on rpool/arch/DATA/default/var/lib/AccountsService"),
        sh("zfs create -o canmount=on rpool/arch/DATA/default/var/lib/docker"),
        sh("zfs create -o canmount=on rpool/arch/DATA/default/var/lib/nfs"),
        sh("zfs create -o canmount=on rpool/arch/DATA/default/var/lib/lxc"),
        sh("zfs create -o canmount=on rpool/arch/DATA/default/var/lib/libvirt"),
        sh("zfs create -o canmount=on rpool/arch/DATA/default/nix"),
    ];
    proof {
        assert(plan.deep_view() =~~= spec_format_plan(sail@));
    }
    plan
}

/// The direct-download archive URL for the kernel build pinned by the
/// ZFS package; the required version appears in it verbatim.
pub open spec fn spec_archive_url(linux: Seq<char>, ver: Seq<char>) -> Seq<char> {
    "https://archive.archlinux.org/packages/l/"@ + linux + "/"@ + linux + "-"@ + ver
        + "-x86_64.pkg.tar.zst"@
}

/// Executable `spec_archive_url`.
pub fn archive_url(linux: &str, ver: &str) -> (r: String)
    ensures
        r@ == spec_archive_url(linux@, ver@),
{
    let mut r = "https://archive.archlinux.org/packages/l/".to_owned();
    r.append(linux);
    r.append("/");
    r.append(linux);
    r.append("-");
    r.append(ver);
    r.append("-x86_64.pkg.tar.zst");
    r
}

/// The kernel-install decision: with matching versions, install kernel
/// and headers from the repository; otherwise install the required
/// build directly from the archive URL, then the headers.
pub open spec fn spec_kernel_install_plan(linux: Seq<char>, req: Seq<char>, repo: Seq<char>) -> Seq<
    SpecAction,
> {
    if req == repo {
        seq![SpecAction::Run("pacstrap -c /mnt "@ + linux + " "@ + linux + "-headers"@)]
    } else {
        seq![
            SpecAction::Run("pacstrap -U /mnt "@ + spec_archive_url(linux, req)),
            SpecAction::Run("pacstrap -c /mnt "@ + linux + "-headers"@),
        ]
    }
}

/// The required version stands verbatim inside the archive URL.
pub proof fn lemma_archive_url_embeds(linux: Seq<char>, ver: Seq<char>)
    ensures
        spec_contains(spec_archive_url(linux, ver), ver),
{
    let url = spec_archive_url(linux, ver);
    let p = "https://archive.archlinux.org/packages/l/"@.len() + linux.len() + "/"@.len()
        + linux.len() + "-"@.len();
    assert(spec_match_at(url, ver, p as int)) by {
        assert(url.subrange(p as int, p + ver.len() as int) =~= ver);
    }
}

/// The two-way branch of the base-system installer: equal extracted
/// versions select the repository; unequal ones select the archive,
/// whose URL embeds the required version verbatim.
pub proof fn lemma_kernel_install_decision(linux: Seq<char>, req: Seq<char>, repo: Seq<char>)
    ensures
        req == repo ==> spec_kernel_install_plan(linux, req, repo) == seq![
            SpecAction::Run("pacstrap -c /mnt "@ + linux + " "@ + linux + "-headers"@),
        ],
        req != repo ==> spec_kernel_install_plan(linux, req, repo) == seq![
            SpecAction::Run("pacstrap -U /mnt "@ + spec_archive_url(linux, req)),
            SpecAction::Run("pacstrap -c /mnt "@ + linux + "-headers"@),
        ] && spec_contains(spec_archive_url(linux, req), req),
{
    lemma_archive_url_embeds(linux, req);
}

/// The base-system install: refresh happens before this plan (the
/// version queries depend on it); then the fixed base package set, the
/// kernel decision, firmware and microcode, and the ZFS packages.
pub open spec fn spec_pacstrap_plan(m: SailModel, zfs_si: Seq<char>, linux_si: Seq<char>) -> Result<
    Seq<SpecAction>,
    SetupError,
> {
    match spec_depends_version(zfs_si, m.linvar) {
        None => Err(SetupError::DependsVersionNotFound),
        Some(req) => match spec_repo_version(linux_si) {
            None => Err(SetupError::RepoVersionNotFound),
            Some(repo) => Ok(
                seq![
                    SpecAction::Run(
                        "pacstrap -c /mnt base base-devel dosfstools efibootmgr grub git mandoc mkinitcpio networkmanager reflector sudo"@,
                    ),
                ] + spec_kernel_install_plan(m.linvar, req, repo) + seq![
                    SpecAction::Run("pacstrap -c /mnt linux-firmware intel-ucode amd-ucode"@),
                    SpecAction::Run("pacstrap -c /mnt "@ + m.zfs + " zfs-utils"@),
                ],
            ),
        },
    }
}

/// The package-index refresh that precedes the version queries.
pub fn pacstrap_refresh_cmd() -> (r: String)
    ensures
        r@ == "pacman -Sy"@,
{
    "pacman -Sy".to_owned()
}

/// The metadata query for one package.
pub fn pacman_query_cmd(pkg: &str) -> (r: String)
    ensures
        r@ == "pacman -Si "@ + pkg@,
{
    concat2("pacman -Si ", pkg)
}

/// Installs the base system: extracts the ZFS-pinned and repository
/// kernel versions from the two query outputs, decides repository
/// versus archive, and plans the installs.
pub fn pacstrap(sail: &Sail, zfs_si: &str, linux_si: &str) -> (r: Result<Vec<Action>, SetupError>)
    ensures
        r matches Err(e) ==> spec_pacstrap_plan(sail@, zfs_si@, linux_si@) == Err::<
            Seq<SpecAction>,
            SetupError,
        >(e),
        r matches Ok(plan) ==> (spec_pacstrap_plan(sail@, zfs_si@, linux_si@) matches Ok(s)
            && plan.deep_view() == s),
{
    let linux = sail.get_linvar();
    let req = match extract_depends_version(zfs_si, linux) {
        Some(v) => v,
        None => {
            return Err(SetupError::DependsVersionNotFound);
        },
    };
    let repo = match extract_repo_version(linux_si) {
        Some(v) => v,
        None => {
            return Err(SetupError::RepoVersionNotFound);
        },
    };
    let mut plan: Vec<Action> = Vec::new();
    plan.push(
        sh(
            "pacstrap -c /mnt base base-devel dosfstools efibootmgr grub git mandoc mkinitcpio networkmanager reflector sudo",
        ),
    );
    if req == repo {
        plan.push(
            sh_owned(concat4("pacstrap -c /mnt ", linux, " ", concat2(linux, "-headers").as_str())),
        );
    } else {
        let url = archive_url(linux, req.as_str());
        plan.push(sh_owned(concat2("pacstrap -U /mnt ", url.as_str())));
        plan.push(sh_owned(concat3("pacstrap -c /mnt ", linux, "-headers")));
    }
    plan.push(sh("pacstrap -c /mnt linux-firmware intel-ucode amd-ucode"));
    plan.push(sh_owned(concat3("pacstrap -c /mnt ", sail.get_zfs(), " zfs-utils")));
    proof {
        if let Ok(s) = spec_pacstrap_plan(sail@, zfs_si@, linux_si@) {
            assert(plan.deep_view() =~~= s);
        }
    }
    Ok(plan)
}

/// The mount options shared by both ESP fstab entries.
pub open spec fn spec_efi_fstab_opts() -> Seq<char> {
    "vfat x-systemd.idle-timeout=1min,x-systemd.automount,noauto,umask=0022,fmask=0022,dmask=0022 0 1"@
}

/// The two fstab entries for the redundant ESP mounts, keyed by the
/// partition's filesystem UUID: the per-partition directory under the
/// ESP collection, then the canonical /boot/efi alias.
pub open spec fn spec_efi_fstab_entries(m: SailModel, uuid: Seq<char>) -> Seq<char> {
    let efi_last = spec_last_component(m.disk) + "-part"@ + spec_dec(m.next_partnum);
    "UUID="@ + uuid + " /boot/efis/"@ + efi_last + " "@ + spec_efi_fstab_opts() + "\n"@ + "UUID="@
        + uuid + " /boot/efi "@ + spec_efi_fstab_opts()
}

/// The operator's opt-in kernel updater: refresh, then reinstall the
/// kernel named on the boot command line, its headers, the
/// descriptor's ZFS package and the ZFS userspace tools.
pub open spec fn spec_kernel_updater(zfs: Seq<char>) -> Seq<char> {
    KERNEL_UPDATER_HEAD_S@ + zfs + " zfs-utils\n"@
}

/// The system-configuration stage: kernel command line, fstab, the
/// initramfs hook list, clock and first-boot identity, a second root
/// password set inside the chroot, the host id, kernel/ZFS update
/// pinning with the operator's opt-in updater script, ZFS boot
/// services (the generic mount unit disabled), locale, and the
/// third-party ZFS repository with its signing keys.
pub open spec fn spec_system_configuration_plan(
    m: SailModel,
    genfstab_out: Seq<char>,
    efi_uuid: Seq<char>,
) -> Seq<SpecAction> {
    seq![
        SpecAction::Append(
            "/mnt/etc/default/grub"@,
            "GRUB_DISABLE_OS_PROBER=false\nGRUB_CMDLINE_LINUX=\"zfs_import_dir="@
                + spec_parent_dir(m.disk) + "\""@,
        ),
        SpecAction::Write("/mnt/etc/fstab"@, spec_fstab_filter(genfstab_out)),
        SpecAction::Append("/mnt/etc/fstab"@, spec_efi_fstab_entries(m, efi_uuid)),
        SpecAction::Run("mv /mnt/etc/mkinitcpio.conf /mnt/etc/mkinitcpio.conf.old"@),
        SpecAction::Append(
            "/mnt/etc/mkinitcpio.conf"@,
            "HOOKS=(base udev autodetect modconf block keyboard zfs filesystems)"@,
        ),
        SpecAction::Run("hwclock --systohc"@),
        SpecAction::Run("systemctl enable systemd-timesyncd --root=/mnt"@),
        SpecAction::Run("rm -f /mnt/etc/localtime"@),
        SpecAction::Run(
            "systemd-firstboot --root=/mnt --force --locale=en_US.UTF-8 --locale-messages=en_US.UTF-8 --keymap=us --timezone=Asia/Jakarta --hostname=lbox --root-password=123 --root-shell=/bin/bash"@,
        ),
        SpecAction::RunStdin("arch-chroot /mnt passwd"@, "123\n123"@),
        SpecAction::Run("zgenhostid -f -o /mnt/etc/hostid"@),
        SpecAction::RunArgs(
            seq!["sed"@, "-i"@, "s/#IgnorePkg/IgnorePkg/"@, "/mnt/etc/pacman.conf"@],
        ),
        SpecAction::RunArgs(
            seq![
                "sed"@,
                "-i"@,
                "/^IgnorePkg/ s/$/ "@ + m.linvar + " "@ + m.linvar + "-headers "@ + m.zfs
                    + " zfs-utils/"@,
                "/mnt/etc/pacman.conf"@,
            ],
        ),
        SpecAction::Write("/mnt/usr/local/bin/kernel_updater"@, spec_kernel_updater(m.zfs)),
        SpecAction::Run("chmod +x /mnt/usr/local/bin/kernel_updater"@),
        SpecAction::Run(
            "systemctl enable zfs-import-scan.service zfs-import.target zfs-zed zfs.target --root=/mnt"@,
        ),
        SpecAction::Run("systemctl disable zfs-mount --root=/mnt"@),
        SpecAction::Write("/mnt/etc/locale.gen"@, "en_US.UTF-8 UTF-8"@),
        SpecAction::RunStdin(spec_chroot_cmd(), "locale-gen"@),
        SpecAction::RunStdin(spec_chroot_cmd(), IMPORT_ARCHZFS_KEYS_I@),
        SpecAction::Append("/mnt/etc/pacman.conf"@, ARCHZFS_REPO_C@),
    ]
}

/// Writes the target system's configuration. `genfstab_out` is the
/// captured output of the filesystem-table generator; `efi_uuid` the
/// EFI partition's filesystem UUID as `blkid` reported it.
pub fn system_configuration(sail: &Sail, genfstab_out: &str, efi_uuid: &str) -> (plan: Vec<Action>)
    ensures
        plan.deep_view() == spec_system_configuration_plan(sail@, genfstab_out@, efi_uuid@),
{
    let parent = sail.get_disk_parent().unwrap();
    let grub_cmdline = concat3(
        "GRUB_DISABLE_OS_PROBER=false\nGRUB_CMDLINE_LINUX=\"zfs_import_dir=",
        parent.as_str(),
        "\"",
    );
    let fstab_zfs = fstab_filter(genfstab_out);
    let efi_last = sail.get_efi_last_path().unwrap();
    let opts =
        "vfat x-systemd.idle-timeout=1min,x-systemd.automount,noauto,umask=0022,fmask=0022,dmask=0022 0 1";
    let fstab_efis = concat4(
        concat3("UUID=", efi_uuid, " /boot/efis/").as_str(),
        efi_last.as_str(),
        " ",
        opts,
    );
    let fstab_efi = concat4("UUID=", efi_uuid, " /boot/efi ", opts);
    let fstab_entries = concat3(fstab_efis.as_str(), "\n", fstab_efi.as_str());
    let linux = sail.get_linvar();
    let ignore_exp = concat4(
        concat4("/^IgnorePkg/ s/$/ ", linux, " ", linux).as_str(),
        "-headers ",
        sail.get_zfs(),
        " zfs-utils/",
    );
    let plan: Vec<Action> = vec![
        append_file_owned("/mnt/etc/default/grub", grub_cmdline),
        write_file_owned("/mnt/etc/fstab", fstab_zfs),
        append_file_owned("/mnt/etc/fstab", fstab_entries),
        sh("mv /mnt/etc/mkinitcpio.conf /mnt/etc/mkinitcpio.conf.old"),
        append_file(
            "/mnt/etc/mkinitcpio.conf",
            "HOOKS=(base udev autodetect modconf block keyboard zfs filesystems)",
        ),
        sh("hwclock --systohc"),
        sh("systemctl enable systemd-timesyncd --root=/mnt"),
        sh("rm -f /mnt/etc/localtime"),
        sh(
            "systemd-firstboot --root=/mnt --force --locale=en_US.UTF-8 --locale-messages=en_US.UTF-8 --keymap=us --timezone=Asia/Jakarta --hostname=lbox --root-password=123 --root-shell=/bin/bash",
        ),
        run_stdin("arch-chroot /mnt passwd", "123\n123"),
        sh("zgenhostid -f -o /mnt/etc/hostid"),
        run_args(
            vec![
                "sed".to_owned(),
                "-i".to_owned(),
                "s/#IgnorePkg/IgnorePkg/".to_owned(),
                "/mnt/etc/pacman.conf".to_owned(),
            ],
        ),
        run_args(
            vec![
                "sed".to_owned(),
                "-i".to_owned(),
                ignore_exp,
                "/mnt/etc/pacman.conf".to_owned(),
            ],
        ),
        write_file_owned(
            "/mnt/usr/local/bin/kernel_updater",
            concat3(KERNEL_UPDATER_HEAD_S, sail.get_zfs(), " zfs-utils\n"),
        ),
        sh("chmod +x /mnt/usr/local/bin/kernel_updater"),
        sh("systemctl enable zfs-import-scan.service zfs-import.target zfs-zed zfs.target --root=/mnt"),
        sh("systemctl disable zfs-mount --root=/mnt"),
        write_file("/mnt/etc/locale.gen", "en_US.UTF-8 UTF-8"),
        chroot_stdin("locale-gen"),
        chroot_stdin(IMPORT_ARCHZFS_KEYS_I),
        append_file("/mnt/etc/pacman.conf", ARCHZFS_REPO_C),
    ];
    proof {
        assert(plan.deep_view() =~~= spec_system_configuration_plan(
            sail@,
            genfstab_out@,
            efi_uuid@,
        ));
    }
    plan
}

/// The helper-package stage: inside the chroot, with a temporary
/// passwordless grant for the build account, build and install the
/// AUR helper, the boot-environment manager, its package-manager hook
/// and the snapshot daemon; write the snapshot daemon's configuration;
/// revoke the grant.
pub open spec fn spec_install_aurs_plan() -> Seq<SpecAction> {
    seq![
        SpecAction::RunStdin(spec_chroot_cmd(), PARU_INSTALL_I@),
        SpecAction::RunStdin(spec_chroot_cmd(), BIEAZ_INSTALL_I@),
        SpecAction::RunStdin(spec_chroot_cmd(), BIEAZ_PACHOOK_INSTALL_I@),
        SpecAction::RunStdin(spec_chroot_cmd(), ZREPL_INSTALL_I@),
        SpecAction::Run("mkdir -p /mnt/etc/zrepl"@),
        SpecAction::Write("/mnt/etc/zrepl/zrepl.yml"@, ZREPL_YML_C@),
        SpecAction::Run("rm /mnt/etc/sudoers.d/00_nobody"@),
    ]
}

/// Builds and installs the AUR-sourced helper packages.
pub fn install_aurs() -> (plan: Vec<Action>)
    ensures
        plan.deep_view() == spec_install_aurs_plan(),
{
    let plan: Vec<Action> = vec![
        chroot_stdin(PARU_INSTALL_I),
        chroot_stdin(BIEAZ_INSTALL_I),
        chroot_stdin(BIEAZ_PACHOOK_INSTALL_I),
        chroot_stdin(ZREPL_INSTALL_I),
        sh("mkdir -p /mnt/etc/zrepl"),
        write_file("/mnt/etc/zrepl/zrepl.yml", ZREPL_YML_C),
        sh("rm /mnt/etc/sudoers.d/00_nobody"),
    ];
    proof {
        assert(plan.deep_view() =~~= spec_install_aurs_plan());
    }
    plan
}

/// Two known-defect workarounds: the bootloader's canonical-path fix
/// (an environment variable exported for every login and kept by
/// sudo), and the pool-name detection fix patched into the menu
/// generator's script.
pub open spec fn spec_workarounds_plan() -> Seq<SpecAction> {
    seq![
        SpecAction::Write(
            "/mnt/etc/profile.d/zpool_vdev_name_path.sh"@,
            "export ZPOOL_VDEV_NAME_PATH=YES"@,
        ),
        SpecAction::Append("/mnt/etc/sudoers"@, "Defaults env_keep += \"ZPOOL_VDEV_NAME_PATH\""@),
        SpecAction::RunArgs(
            seq![
                "sed"@,
                "-i"@,
                "s/rpool=.*/rpool=`zdb -l ${GRUB_DEVICE} | grep -E '[[:blank:]]name' | cut -d\\\\' -f 2`/"@,
                "/mnt/etc/grub.d/10_linux"@,
            ],
        ),
    ]
}

/// Applies the bootloader workarounds.
pub fn workarounds() -> (plan: Vec<Action>)
    ensures
        plan.deep_view() == spec_workarounds_plan(),
{
    let plan: Vec<Action> = vec![
        write_file("/mnt/etc/profile.d/zpool_vdev_name_path.sh", "export ZPOOL_VDEV_NAME_PATH=YES"),
        append_file("/mnt/etc/sudoers", "Defaults env_keep += \"ZPOOL_VDEV_NAME_PATH\""),
        run_args(
            vec![
                "sed".to_owned(),
                "-i".to_owned(),
                "s/rpool=.*/rpool=`zdb -l ${GRUB_DEVICE} | grep -E '[[:blank:]]name' | cut -d\\\\' -f 2`/".to_owned(),
                "/mnt/etc/grub.d/10_linux".to_owned(),
            ],
        ),
    ];
    proof {
        assert(plan.deep_view() =~~= spec_workarounds_plan());
    }
    plan
}

/// One mirroring copy: the staged EFI tree into one redundant ESP
/// mount. Every copy reads from the same staging directory, so all
/// ESP mounts receive an identical EFI directory tree.
pub open spec fn spec_mirror_cp_line(dir: Seq<char>) -> Seq<char> {
    "cp -r $ESP_MIRROR/EFI /boot/efis/"@ + dir + "\n"@
}

/// The mirroring copies, one per redundant ESP mount, in order.
pub open spec fn spec_mirror_lines(dirs: Seq<Seq<char>>) -> Seq<char>
    decreases dirs.len(),
{
    if dirs.len() == 0 {
        Seq::empty()
    } else {
        spec_mirror_cp_line(dirs[0]) + spec_mirror_lines(dirs.skip(1))
    }
}

/// The in-chroot mirroring script: stage the primary ESP's EFI tree
/// in a fresh temporary directory, then copy the staged tree into
/// every redundant ESP mount.
pub open spec fn spec_mirror_script(dirs: Seq<Seq<char>>) -> Seq<char> {
    "\nESP_MIRROR=$(mktemp -d)\ncp -r /boot/efi/EFI $ESP_MIRROR\n"@ + spec_mirror_lines(dirs)
}

/// Every redundant ESP mount receives its copy from the same staged
/// source tree.
pub proof fn lemma_mirror_script_same_source(dirs: Seq<Seq<char>>)
    ensures
        forall|i: int|
            0 <= i < dirs.len() ==> spec_contains(
                spec_mirror_script(dirs),
                spec_mirror_cp_line(#[trigger] dirs[i]),
            ),
{
    assert forall|i: int| 0 <= i < dirs.len() implies spec_contains(
        spec_mirror_lines(dirs),
        spec_mirror_cp_line(dirs[i]),
    ) by {
        lemma_mirror_lines_contains(dirs, i);
    }
    assert forall|i: int| 0 <= i < dirs.len() implies spec_contains(
        spec_mirror_script(dirs),
        spec_mirror_cp_line(dirs[i]),
    ) by {
        lemma_contains_extend(
            "\nESP_MIRROR=$(mktemp -d)\ncp -r /boot/efi/EFI $ESP_MIRROR\n"@,
            spec_mirror_lines(dirs),
            spec_mirror_cp_line(dirs[i]),
        );
    }
}

proof fn lemma_mirror_lines_contains(dirs: Seq<Seq<char>>, i: int)
    requires
        0 <= i < dirs.len(),
    ensures
        spec_contains(spec_mirror_lines(dirs), spec_mirror_cp_line(dirs[i])),
    decreases dirs.len(),
{
    let line0 = spec_mirror_cp_line(dirs[0]);
    let rest = spec_mirror_lines(dirs.skip(1));
    if i == 0 {
        assert(spec_match_at(line0 + rest, line0, 0)) by {
            assert((line0 + rest).subrange(0, line0.len() as int) =~= line0);
        }
    } else {
        assert(dirs.skip(1)[i - 1] == dirs[i]);
        lemma_mirror_lines_contains(dirs.skip(1), i - 1);
        lemma_contains_extend(line0, rest, spec_mirror_cp_line(dirs[i]));
    }
}

fn mirror_lines_from(dirs: &Vec<String>, i: usize) -> (r: String)
    requires
        i <= dirs@.len(),
    ensures
        r@ == spec_mirror_lines(dirs.deep_view().skip(i as int)),
    decreases dirs@.len() - i,
{
    if i == dirs.len() {
        proof {
            assert(dirs.deep_view().skip(i as int) =~= Seq::<Seq<char>>::empty());
        }
        String::new()
    } else {
        proof {
            assert(dirs.deep_view().skip(i as int)[0] == dirs[i as int]@);
            assert(dirs.deep_view().skip(i as int).skip(1) =~= dirs.deep_view().skip(i + 1));
        }
        let mut s = concat3("cp -r $ESP_MIRROR/EFI /boot/efis/", dirs[i].as_str(), "\n");
        let rest = mirror_lines_from(dirs, i + 1);
        s.append(rest.as_str());
        s
    }
}

/// Executable `spec_mirror_script`.
pub fn mirror_script(dirs: &Vec<String>) -> (r: String)
    ensures
        r@ == spec_mirror_script(dirs.deep_view()),
{
    proof {
        assert(dirs.deep_view().skip(0) =~= dirs.deep_view());
    }
    let lines = mirror_lines_from(dirs, 0);
    concat2("\nESP_MIRROR=$(mktemp -d)\ncp -r /boot/efi/EFI $ESP_MIRROR\n", lines.as_str())
}

/// The bootloader stage: reset and freeze the pool cache so boot-time
/// import scans instead of trusting a stale cache, regenerate the
/// initramfs, create the bootloader directories in the primary ESP
/// and in the boot pool, install the EFI bootloader twice (standard
/// and removable-media fallback), register the named boot entry,
/// generate the menu with a redundant copy in the boot pool, and
/// mirror the ESP tree onto every redundant ESP mount.
pub open spec fn spec_bootloaders_plan(m: SailModel, esp_dirs: Seq<Seq<char>>) -> Seq<SpecAction> {
    seq![
        SpecAction::RunStdin(spec_chroot_cmd(), GEN_INITRD_I@),
        SpecAction::Run("mkdir -p /mnt/boot/efi/EFI/arch"@),
        SpecAction::Run("mkdir -p /mnt/boot/grub"@),
        SpecAction::RunStdin(
            spec_chroot_cmd(),
            GRUB_INSTALL_I@ + "efibootmgr -cgp 1 -l \"\\EFI\\arch\\grubx64.efi\" -L \"arch-"@
                + spec_last_component(m.disk) + "\" -d "@ + m.disk + "\n"@,
        ),
        SpecAction::RunStdin(spec_chroot_cmd(), GRUB_MENU_I@),
        SpecAction::RunStdin(spec_chroot_cmd(), spec_mirror_script(esp_dirs)),
    ]
}

/// Installs and configures the bootloader. `esp_dirs` lists the mount
/// directory names found under the ESP collection directory.
pub fn bootloaders(sail: &Sail, esp_dirs: &Vec<String>) -> (plan: Vec<Action>)
    ensures
        plan.deep_view() == spec_bootloaders_plan(sail@, esp_dirs.deep_view()),
{
    let disk_last = sail.get_disk_last_path().unwrap();
    let efibootmgr = concat4(
        "efibootmgr -cgp 1 -l \"\\EFI\\arch\\grubx64.efi\" -L \"arch-",
        disk_last.as_str(),
        "\" -d ",
        sail.get_disk(),
    );
    let grub_setup = concat3(GRUB_INSTALL_I, efibootmgr.as_str(), "\n");
    let plan: Vec<Action> = vec![
        chroot_stdin(GEN_INITRD_I),
        sh("mkdir -p /mnt/boot/efi/EFI/arch"),
        sh("mkdir -p /mnt/boot/grub"),
        chroot_stdin_owned(grub_setup),
        chroot_stdin(GRUB_MENU_I),
        chroot_stdin_owned(mirror_script(esp_dirs)),
    ];
    proof {
        assert(plan.deep_view() =~~= spec_bootloaders_plan(sail@, esp_dirs.deep_view()));
    }
    plan
}

/// An action that creates or enables a TRIM maintenance unit.
pub open spec fn spec_is_trim_action(a: SpecAction) -> bool {
    ||| a == SpecAction::Write("/mnt/etc/systemd/system/zfs-trim@.timer"@, TRIM_TIMER_C@)
    ||| a == SpecAction::Write("/mnt/etc/systemd/system/zfs-trim@.service"@, TRIM_SERVICE_C@)
    ||| a == SpecAction::RunStdin(spec_chroot_cmd(), TRIM_ENABLE_I@)
}

/// The finalization's scheduled-maintenance and service setup: the
/// monthly scrub timer/service pair always; the monthly TRIM pair and
/// its enablement only for solid-state storage; the network manager
/// and scrub timers enabled in the chroot; the administrative group
/// granted sudo.
pub open spec fn spec_finishing_plan(m: SailModel) -> Seq<SpecAction> {
    if m.storage_type == StorageType::Ssd {
        seq![
            SpecAction::Write("/mnt/etc/systemd/system/zfs-scrub@.timer"@, SCRUB_TIMER_C@),
            SpecAction::Write("/mnt/etc/systemd/system/zfs-scrub@.service"@, SCRUB_SERVICE_C@),
            SpecAction::Write("/mnt/etc/systemd/system/zfs-trim@.timer"@, TRIM_TIMER_C@),
            SpecAction::Write("/mnt/etc/systemd/system/zfs-trim@.service"@, TRIM_SERVICE_C@),
            SpecAction::RunStdin(spec_chroot_cmd(), SERVICE_ENABLE_I@),
            SpecAction::RunStdin(spec_chroot_cmd(), TRIM_ENABLE_I@),
            SpecAction::Append("/mnt/etc/sudoers"@, "%wheel ALL=(ALL) ALL"@),
        ]
    } else {
        seq![
            SpecAction::Write("/mnt/etc/systemd/system/zfs-scrub@.timer"@, SCRUB_TIMER_C@),
            SpecAction::Write("/mnt/etc/systemd/system/zfs-scrub@.service"@, SCRUB_SERVICE_C@),
            SpecAction::RunStdin(spec_chroot_cmd(), SERVICE_ENABLE_I@),
            SpecAction::Append("/mnt/etc/sudoers"@, "%wheel ALL=(ALL) ALL"@),
        ]
    }
}

/// TRIM units are gated on the storage class: a solid-state target
/// always gets the TRIM timer/service pair and its enablement, a
/// spinning-disk target never produces or enables any of them.
pub proof fn lemma_trim_gating(m: SailModel)
    ensures
        m.storage_type == StorageType::Hdd ==> forall|j: int|
            0 <= j < spec_finishing_plan(m).len() ==> !spec_is_trim_action(
                #[trigger] spec_finishing_plan(m)[j],
            ),
        m.storage_type == StorageType::Ssd ==> {
            &&& spec_finishing_plan(m).contains(
                SpecAction::Write("/mnt/etc/systemd/system/zfs-trim@.timer"@, TRIM_TIMER_C@),
            )
            &&& spec_finishing_plan(m).contains(
                SpecAction::Write("/mnt/etc/systemd/system/zfs-trim@.service"@, TRIM_SERVICE_C@),
            )
            &&& spec_finishing_plan(m).contains(
                SpecAction::RunStdin(spec_chroot_cmd(), TRIM_ENABLE_I@),
            )
        },
{
    let plan = spec_finishing_plan(m);
    if m.storage_type == StorageType::Hdd {
        reveal_strlit("/mnt/etc/systemd/system/zfs-scrub@.timer");
        reveal_strlit("/mnt/etc/systemd/system/zfs-trim@.timer");
        reveal_strlit("/mnt/etc/systemd/system/zfs-scrub@.service");
        reveal_strlit("/mnt/etc/systemd/system/zfs-trim@.service");
        reveal_strlit(
            r"
systemctl enable NetworkManager
systemctl enable zfs-scrub@rpool.timer
systemctl enable zfs-scrub@bpool.timer
",
        );
        reveal_strlit(
            r"
systemctl enable zfs-trim@rpool.timer
systemctl enable zfs-trim@bpool.timer
",
        );
        assert("/mnt/etc/systemd/system/zfs-scrub@.timer"@.len() != "/mnt/etc/systemd/system/zfs-trim@.timer"@.len());
        assert("/mnt/etc/systemd/system/zfs-scrub@.service"@.len() != "/mnt/etc/systemd/system/zfs-trim@.service"@.len());
        assert(SERVICE_ENABLE_I@.len() != TRIM_ENABLE_I@.len());
        assert forall|j: int| 0 <= j < plan.len() implies !spec_is_trim_action(
            #[trigger] plan[j],
        ) by {
            assert(plan.len() == 4);
        }
    } else {
        assert(plan[2] == SpecAction::Write(
            "/mnt/etc/systemd/system/zfs-trim@.timer"@,
            TRIM_TIMER_C@,
        ));
        assert(plan[3] == SpecAction::Write(
            "/mnt/etc/systemd/system/zfs-trim@.service"@,
            TRIM_SERVICE_C@,
        ));
        assert(plan[5] == SpecAction::RunStdin(spec_chroot_cmd(), TRIM_ENABLE_I@));
    }
}

/// Writes the maintenance units and enables the services.
pub fn finishing(sail: &Sail) -> (plan: Vec<Action>)
    ensures
        plan.deep_view() == spec_finishing_plan(sail@),
{
    let mut plan: Vec<Action> = Vec::new();
    plan.push(write_file("/mnt/etc/systemd/system/zfs-scrub@.timer", SCRUB_TIMER_C));
    plan.push(write_file("/mnt/etc/systemd/system/zfs-scrub@.service", SCRUB_SERVICE_C));
    if sail.is_using_ssd() {
        plan.push(write_file("/mnt/etc/systemd/system/zfs-trim@.timer", TRIM_TIMER_C));
        plan.push(write_file("/mnt/etc/systemd/system/zfs-trim@.service", TRIM_SERVICE_C));
    }
    plan.push(chroot_stdin(SERVICE_ENABLE_I));
    if sail.is_using_ssd() {
        plan.push(chroot_stdin(TRIM_ENABLE_I));
    }
    plan.push(append_file("/mnt/etc/sudoers", "%wheel ALL=(ALL) ALL"));
    proof {
        assert(plan.deep_view() =~~= spec_finishing_plan(sail@));
    }
    plan
}

/// The post-install helper scripts, written for the operator to run
/// manually after first boot.
pub open spec fn spec_post_scripts_plan() -> Seq<SpecAction> {
    seq![
        SpecAction::Run("mkdir -p /mnt/root/post_install_scripts"@),
        SpecAction::Write(
            "/mnt/root/post_install_scripts/additional_storage.sh"@,
            ADDITIONAL_STORAGE_S@,
        ),
        SpecAction::Write("/mnt/root/post_install_scripts/add_user.sh"@, ADD_USER_S@),
        SpecAction::Write("/mnt/root/post_install_scripts/enable_services.sh"@, ENABLE_SERVICES_S@),
        SpecAction::Write("/mnt/root/post_install_scripts/gnome_install.sh"@, GNOME_INSTALL_S@),
        SpecAction::Write("/mnt/root/post_install_scripts/nix_install.sh"@, NIX_INSTALL_S@),
        SpecAction::Write(
            "/mnt/root/post_install_scripts/zfs_mount_generator.sh"@,
            ZFS_MOUNT_GENERATOR_S@,
        ),
    ]
}

/// Writes the post-install helper scripts.
pub fn post_scripts_gen() -> (plan: Vec<Action>)
    ensures
        plan.deep_view() == spec_post_scripts_plan(),
{
    let plan: Vec<Action> = vec![
        sh("mkdir -p /mnt/root/post_install_scripts"),
        write_file("/mnt/root/post_install_scripts/additional_storage.sh", ADDITIONAL_STORAGE_S),
        write_file("/mnt/root/post_install_scripts/add_user.sh", ADD_USER_S),
        write_file("/mnt/root/post_install_scripts/enable_services.sh", ENABLE_SERVICES_S),
        write_file("/mnt/root/post_install_scripts/gnome_install.sh", GNOME_INSTALL_S),
        write_file("/mnt/root/post_install_scripts/nix_install.sh", NIX_INSTALL_S),
        write_file("/mnt/root/post_install_scripts/zfs_mount_generator.sh", ZFS_MOUNT_GENERATOR_S),
    ];
    proof {
        assert(plan.deep_view() =~~= spec_post_scripts_plan());
    }
    plan
}

/// The clean-install snapshot and release of the target: recursive
/// "install" snapshots of both pools, both ESP mounts unmounted, a
/// settle delay for the system to flush state, both pools exported.
pub open spec fn spec_shot_and_clean_plan() -> Seq<SpecAction> {
    seq![
        SpecAction::Run("zfs snapshot -r rpool/arch@install"@),
        SpecAction::Run("zfs snapshot -r bpool/arch@install"@),
        SpecAction::Run("umount /mnt/boot/efi"@),
        SpecAction::RunStdin("bash --login"@, "umount /mnt/boot/efis/*\n"@),
        SpecAction::Sleep(1),
        SpecAction::Run("zpool export bpool"@),
        SpecAction::Run("zpool export rpool"@),
    ]
}

/// Snapshots the clean install and releases the pools.
pub fn shot_and_clean() -> (plan: Vec<Action>)
    ensures
        plan.deep_view() == spec_shot_and_clean_plan(),
{
    let plan: Vec<Action> = vec![
        sh("zfs snapshot -r rpool/arch@install"),
        sh("zfs snapshot -r bpool/arch@install"),
        sh("umount /mnt/boot/efi"),
        run_stdin("bash --login", "umount /mnt/boot/efis/*\n"),
        Action::Sleep(1),
        sh("zpool export bpool"),
        sh("zpool export rpool"),
    ];
    proof {
        assert(plan.deep_view() =~~= spec_shot_and_clean_plan());
    }
    plan
}

/// The pipeline's stages, in their fixed order.
#[derive(Debug, Clone, Copy, PartialEq, Eq, Structural)]
pub enum Stage {
    CheckRoot,
    Preflight,
    PartitionDisk,
    FormatDisk,
    Pacstrap,
    SystemConfiguration,
    InstallAurs,
    Workarounds,
    Bootloaders,
    Finishing,
    PostScriptsGen,
    ShotAndClean,
}

/// The stage that follows `s`, or None after the last.
pub open spec fn spec_stage_after(s: Stage) -> Option<Stage> {
    match s {
        Stage::CheckRoot => Some(Stage::Preflight),
        Stage::Preflight => Some(Stage::PartitionDisk),
        Stage::PartitionDisk => Some(Stage::FormatDisk),
        Stage::FormatDisk => Some(Stage::Pacstrap),
        Stage::Pacstrap => Some(Stage::SystemConfiguration),
        Stage::SystemConfiguration => Some(Stage::InstallAurs),
        Stage::InstallAurs => Some(Stage::Workarounds),
        Stage::Workarounds => Some(Stage::Bootloaders),
        Stage::Bootloaders => Some(Stage::Finishing),
        Stage::Finishing => Some(Stage::PostScriptsGen),
        Stage::PostScriptsGen => Some(Stage::ShotAndClean),
        Stage::ShotAndClean => None,
    }
}

/// The fixed linear control flow: each stage runs once, in this
/// order; the driver stops at the first failure.
pub fn stage_after(s: Stage) -> (r: Option<Stage>)
    ensures
        r == spec_stage_after(s),
{
    match s {
        Stage::CheckRoot => Some(Stage::Preflight),
        Stage::Preflight => Some(Stage::PartitionDisk),
        Stage::PartitionDisk => Some(Stage::FormatDisk),
        Stage::FormatDisk => Some(Stage::Pacstrap),
        Stage::Pacstrap => Some(Stage::SystemConfiguration),
        Stage::SystemConfiguration => Some(Stage::InstallAurs),
        Stage::InstallAurs => Some(Stage::Workarounds),
        Stage::Workarounds => Some(Stage::Bootloaders),
        Stage::Bootloaders => Some(Stage::Finishing),
        Stage::Finishing => Some(Stage::PostScriptsGen),
        Stage::PostScriptsGen => Some(Stage::ShotAndClean),
        Stage::ShotAndClean => None,
    }
}

} // verus!
