use sail::action::Action;
use sail::sail::{LinuxVariant, Sail, StorageType, ZfsType};
use sail::setup::{
    bootloaders, check_as_root, command_checker, finishing, format_disk, pacman_query_cmd,
    pacstrap, pacstrap_refresh_cmd, partition_disk, post_scripts_gen, shot_and_clean, stage_after,
    system_configuration, workarounds, SetupError, Stage,
};
use sail::string_res;

fn fresh_sail(storage: StorageType) -> Sail {
    Sail::new(
        LinuxVariant::Linux,
        ZfsType::Normal,
        storage,
        "/dev/sdX".to_owned(),
        "1G".to_owned(),
        "4G".to_owned(),
        true,
        vec!["sdX".to_owned()],
    )
    .unwrap()
}

fn run_line(a: &Action) -> &str {
    match a {
        Action::Run(line) => line.as_str(),
        _ => panic!("expected a plain command"),
    }
}

#[test]
fn root_check_decides_on_uid() {
    assert!(check_as_root("0").is_ok());
    assert_eq!(check_as_root("1000"), Err(SetupError::NotRoot));
    assert_eq!(check_as_root(""), Err(SetupError::NotRoot));
}

#[test]
fn preflight_probes_every_tool() {
    let plan = command_checker();
    assert_eq!(plan.len(), 26);
    assert_eq!(run_line(&plan[0]), "which arch-chroot");
    assert_eq!(run_line(&plan[19]), "which sgdisk");
    assert_eq!(run_line(&plan[25]), "which zpool");
}

#[test]
fn partitioning_fresh_disk_scenario() {
    // Zero existing partitions: numbers 1, 2, 3; type codes EF00, BE00,
    // BF00; sizes +1G, +4G, rest of disk.
    let s = fresh_sail(StorageType::Ssd);
    let plan = partition_disk(&s);
    assert_eq!(plan.len(), 4);
    match &plan[0] {
        Action::RunArgs(args) => {
            assert_eq!(args.join(" "), "sgdisk -n1:0:+1G -t1:EF00 /dev/sdX");
        },
        _ => panic!("expected argv command"),
    }
    match &plan[1] {
        Action::RunArgs(args) => {
            assert_eq!(args.join(" "), "sgdisk -n2:0:+4G -t2:BE00 /dev/sdX");
        },
        _ => panic!("expected argv command"),
    }
    match &plan[2] {
        Action::RunArgs(args) => {
            assert_eq!(args.join(" "), "sgdisk -n3:0:0 -t3:BF00 /dev/sdX");
        },
        _ => panic!("expected argv command"),
    }
    assert!(matches!(plan[3], Action::Sleep(1)));
}

#[test]
fn format_disk_builds_pools_then_datasets_then_esp() {
    let s = fresh_sail(StorageType::Ssd);
    let plan = format_disk(&s);
    assert_eq!(run_line(&plan[0]), "modprobe zfs");
    assert!(run_line(&plan[1]).starts_with("zpool create -o compatibility=grub2"));
    assert!(run_line(&plan[1]).ends_with("bpool /dev/sdX-part2"));
    assert!(run_line(&plan[2]).starts_with("zpool create -o ashift=12"));
    assert!(run_line(&plan[2]).ends_with("rpool /dev/sdX-part3"));
    assert_eq!(run_line(&plan[3]), "zfs create -o canmount=off -o mountpoint=none rpool/arch");
    assert_eq!(run_line(&plan[23]), "mkfs.vfat -n EFI /dev/sdX-part1");
    assert_eq!(run_line(&plan[24]), "mkdir -p /mnt/boot/efis/sdX-part1");
    assert_eq!(run_line(&plan[25]), "mount -t vfat /dev/sdX-part1 /mnt/boot/efis/sdX-part1");
    assert_eq!(run_line(&plan[27]), "mount -t vfat /dev/sdX-part1 /mnt/boot/efi");
}

#[test]
fn kernel_versions_equal_installs_from_repo() {
    let s = fresh_sail(StorageType::Ssd);
    let zfs_si = "Depends On      : kmod  linux=6.1.12-1\n";
    let linux_si = "Version         : 6.1.12-1\n";
    let plan = pacstrap(&s, zfs_si, linux_si).unwrap();
    assert!(run_line(&plan[0]).starts_with("pacstrap -c /mnt base base-devel"));
    assert_eq!(run_line(&plan[1]), "pacstrap -c /mnt linux linux-headers");
    assert_eq!(run_line(&plan[2]), "pacstrap -c /mnt linux-firmware intel-ucode amd-ucode");
    assert_eq!(run_line(&plan[3]), "pacstrap -c /mnt zfs-linux zfs-utils");
}

#[test]
fn kernel_versions_differ_installs_from_archive() {
    let s = fresh_sail(StorageType::Ssd);
    let zfs_si = "Depends On      : kmod  linux=6.1.9-1\n";
    let linux_si = "Version         : 6.1.12-1\n";
    let plan = pacstrap(&s, zfs_si, linux_si).unwrap();
    // The archive URL embeds the required version verbatim.
    assert_eq!(
        run_line(&plan[1]),
        "pacstrap -U /mnt https://archive.archlinux.org/packages/l/linux/linux-6.1.9-1-x86_64.pkg.tar.zst"
    );
    assert_eq!(run_line(&plan[2]), "pacstrap -c /mnt linux-headers");
}

#[test]
fn pacstrap_reports_missing_versions() {
    let s = fresh_sail(StorageType::Ssd);
    assert_eq!(
        pacstrap(&s, "Name : zfs-linux", "Version : 6.1-1").unwrap_err(),
        SetupError::DependsVersionNotFound
    );
    assert_eq!(
        pacstrap(&s, "Depends On : linux=6.1-1", "Name : linux").unwrap_err(),
        SetupError::RepoVersionNotFound
    );
}

#[test]
fn pacstrap_query_commands() {
    assert_eq!(pacstrap_refresh_cmd(), "pacman -Sy");
    assert_eq!(pacman_query_cmd("zfs-linux"), "pacman -Si zfs-linux");
}

#[test]
fn system_configuration_writes_filtered_fstab() {
    let s = fresh_sail(StorageType::Ssd);
    let genfstab = "rpool/arch/ROOT/default / zfs rw 0 0\nUUID=AB /boot/efi vfat rw 0 2";
    let plan = system_configuration(&s, genfstab, "ABCD-1234");
    match &plan[0] {
        Action::Append(path, content) => {
            assert_eq!(path, "/mnt/etc/default/grub");
            assert_eq!(
                content,
                "GRUB_DISABLE_OS_PROBER=false\nGRUB_CMDLINE_LINUX=\"zfs_import_dir=/dev\""
            );
        },
        _ => panic!("expected an append"),
    }
    match &plan[1] {
        Action::Write(path, content) => {
            assert_eq!(path, "/mnt/etc/fstab");
            assert_eq!(content, "rpool/arch/ROOT/default / zfs zfsutil,rw 0 0");
        },
        _ => panic!("expected a write"),
    }
    match &plan[2] {
        Action::Append(path, content) => {
            assert_eq!(path, "/mnt/etc/fstab");
            let opts = "vfat x-systemd.idle-timeout=1min,x-systemd.automount,noauto,umask=0022,fmask=0022,dmask=0022 0 1";
            assert_eq!(
                content,
                &format!(
                    "UUID=ABCD-1234 /boot/efis/sdX-part1 {opts}\nUUID=ABCD-1234 /boot/efi {opts}"
                )
            );
        },
        _ => panic!("expected an append"),
    }
}

#[test]
fn system_configuration_pins_kernel_updates() {
    let s = fresh_sail(StorageType::Ssd);
    let plan = system_configuration(&s, "", "");
    match &plan[12] {
        Action::RunArgs(args) => {
            assert_eq!(args.len(), 4);
            assert_eq!(args[0], "sed");
            assert_eq!(args[1], "-i");
            assert_eq!(args[2], "/^IgnorePkg/ s/$/ linux linux-headers zfs-linux zfs-utils/");
            assert_eq!(args[3], "/mnt/etc/pacman.conf");
        },
        _ => panic!("expected argv command"),
    }
    match &plan[13] {
        Action::Write(path, content) => {
            assert_eq!(path, "/mnt/usr/local/bin/kernel_updater");
            assert_eq!(
                content,
                &format!("{}zfs-linux zfs-utils\n", string_res::KERNEL_UPDATER_HEAD_S)
            );
        },
        _ => panic!("expected a write"),
    }
}

#[test]
fn dkms_mode_pins_its_own_zfs_package() {
    // With DKMS packaging the installed ZFS package is zfs-dkms; the
    // update pin and the updater script must name it, not zfs-linux.
    let s = Sail::new(
        LinuxVariant::Linux,
        ZfsType::Dkms,
        StorageType::Ssd,
        "/dev/sdX".to_owned(),
        "1G".to_owned(),
        "4G".to_owned(),
        true,
        vec!["sdX".to_owned()],
    )
    .unwrap();
    let plan = system_configuration(&s, "", "");
    match &plan[12] {
        Action::RunArgs(args) => {
            assert_eq!(args[2], "/^IgnorePkg/ s/$/ linux linux-headers zfs-dkms zfs-utils/");
        },
        _ => panic!("expected argv command"),
    }
    match &plan[13] {
        Action::Write(_, content) => {
            assert!(content.ends_with("${INST_LINVAR}-headers zfs-dkms zfs-utils\n"));
            assert!(!content.contains("zfs-${INST_LINVAR}"));
        },
        _ => panic!("expected a write"),
    }
}

#[test]
fn hdd_never_produces_trim_units() {
    let plan = finishing(&fresh_sail(StorageType::Hdd));
    assert_eq!(plan.len(), 4);
    for a in &plan {
        match a {
            Action::Write(path, content) => {
                assert!(!path.contains("trim"));
                assert!(!content.contains("trim"));
            },
            Action::RunStdin(_, text) => {
                assert!(!text.contains("trim"));
            },
            Action::Append(_, content) => {
                assert!(!content.contains("trim"));
            },
            _ => panic!("unexpected action in finishing plan"),
        }
    }
}

#[test]
fn ssd_always_produces_trim_units() {
    let plan = finishing(&fresh_sail(StorageType::Ssd));
    assert_eq!(plan.len(), 7);
    match &plan[2] {
        Action::Write(path, content) => {
            assert_eq!(path, "/mnt/etc/systemd/system/zfs-trim@.timer");
            assert_eq!(content, string_res::TRIM_TIMER_C);
        },
        _ => panic!("expected the trim timer write"),
    }
    match &plan[3] {
        Action::Write(path, content) => {
            assert_eq!(path, "/mnt/etc/systemd/system/zfs-trim@.service");
            assert_eq!(content, string_res::TRIM_SERVICE_C);
        },
        _ => panic!("expected the trim service write"),
    }
    match &plan[5] {
        Action::RunStdin(_, text) => assert_eq!(text, string_res::TRIM_ENABLE_I),
        _ => panic!("expected the trim enablement"),
    }
}

#[test]
fn mirroring_copies_one_source_to_every_esp() {
    // Two redundant ESP mounts: both receive the same staged EFI tree.
    let s = fresh_sail(StorageType::Ssd);
    let dirs = vec!["sdX-part1".to_owned(), "sdY-part1".to_owned()];
    let plan = bootloaders(&s, &dirs);
    assert_eq!(plan.len(), 6);
    match &plan[5] {
        Action::RunStdin(cmd, script) => {
            assert_eq!(cmd, "arch-chroot /mnt bash --login");
            assert_eq!(
                script,
                "\nESP_MIRROR=$(mktemp -d)\ncp -r /boot/efi/EFI $ESP_MIRROR\n\
                 cp -r $ESP_MIRROR/EFI /boot/efis/sdX-part1\n\
                 cp -r $ESP_MIRROR/EFI /boot/efis/sdY-part1\n"
            );
        },
        _ => panic!("expected the mirror script"),
    }
}

#[test]
fn bootloader_registers_named_entry() {
    let s = fresh_sail(StorageType::Ssd);
    let plan = bootloaders(&s, &vec!["sdX-part1".to_owned()]);
    match &plan[3] {
        Action::RunStdin(_, script) => {
            assert!(script.starts_with(string_res::GRUB_INSTALL_I));
            assert!(script.ends_with(
                "efibootmgr -cgp 1 -l \"\\EFI\\arch\\grubx64.efi\" -L \"arch-sdX\" -d /dev/sdX\n"
            ));
        },
        _ => panic!("expected the grub setup script"),
    }
}

#[test]
fn helper_and_final_stages_are_fixed() {
    let aurs = sail::setup::install_aurs();
    assert_eq!(aurs.len(), 7);
    match &aurs[5] {
        Action::Write(path, content) => {
            assert_eq!(path, "/mnt/etc/zrepl/zrepl.yml");
            assert_eq!(content, string_res::ZREPL_YML_C);
        },
        _ => panic!("expected the snapshot daemon configuration"),
    }
    let w = workarounds();
    assert_eq!(w.len(), 3);
    let scripts = post_scripts_gen();
    assert_eq!(scripts.len(), 7);
    assert_eq!(run_line(&scripts[0]), "mkdir -p /mnt/root/post_install_scripts");
    let last = shot_and_clean();
    assert_eq!(last.len(), 7);
    assert_eq!(run_line(&last[0]), "zfs snapshot -r rpool/arch@install");
    assert!(matches!(last[4], Action::Sleep(1)));
    assert_eq!(run_line(&last[5]), "zpool export bpool");
    assert_eq!(run_line(&last[6]), "zpool export rpool");
}

#[test]
fn stage_order_is_linear() {
    let mut order = vec![Stage::CheckRoot];
    while let Some(next) = stage_after(*order.last().unwrap()) {
        order.push(next);
    }
    assert_eq!(
        order,
        vec![
            Stage::CheckRoot,
            Stage::Preflight,
            Stage::PartitionDisk,
            Stage::FormatDisk,
            Stage::Pacstrap,
            Stage::SystemConfiguration,
            Stage::InstallAurs,
            Stage::Workarounds,
            Stage::Bootloaders,
            Stage::Finishing,
            Stage::PostScriptsGen,
            Stage::ShotAndClean,
        ]
    );
}
