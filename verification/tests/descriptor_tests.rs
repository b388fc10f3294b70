use sail::sail::{LinuxVariant, Sail, SailError, StorageType, ZfsType, validate_partsize};

fn mk_sail(disk: &str, entries: &[&str], esp: &str, bpool: &str, storage: StorageType) -> Sail {
    Sail::new(
        LinuxVariant::Linux,
        ZfsType::Normal,
        storage,
        disk.to_owned(),
        esp.to_owned(),
        bpool.to_owned(),
        true,
        entries.iter().map(|e| (*e).to_owned()).collect(),
    )
    .unwrap()
}

#[test]
fn next_partnum_fresh_disk() {
    // Zero pre-existing partitions: the listing holds only the disk node.
    let s = mk_sail("/dev/sdX", &["sdX", "sdY", "loop0"], "1G", "4G", StorageType::Ssd);
    assert_eq!(s.get_next_partnum(), 1);
    assert_eq!(s.get_efi_part().unwrap(), "/dev/sdX-part1");
    assert_eq!(s.get_bpool_part().unwrap(), "/dev/sdX-part2");
    assert_eq!(s.get_rpool_part().unwrap(), "/dev/sdX-part3");
}

#[test]
fn next_partnum_two_existing_partitions() {
    // N pre-existing partitions give next number N+1 and paths N+1..N+3.
    let s = mk_sail(
        "/dev/sdb",
        &["sda", "sda1", "sdb", "sdb1", "sdb2"],
        "512M",
        "2G",
        StorageType::Hdd,
    );
    assert_eq!(s.get_next_partnum(), 3);
    assert_eq!(s.get_efi_part().unwrap(), "/dev/sdb-part3");
    assert_eq!(s.get_bpool_part().unwrap(), "/dev/sdb-part4");
    assert_eq!(s.get_rpool_part().unwrap(), "/dev/sdb-part5");
}

#[test]
fn derived_path_components() {
    let s = mk_sail("/dev/disk/by-id/wwn-0xabc", &["wwn-0xabc"], "1G", "4G", StorageType::Ssd);
    assert_eq!(s.get_disk_last_path().unwrap(), "wwn-0xabc");
    assert_eq!(s.get_disk_parent().unwrap(), "/dev/disk/by-id");
    assert_eq!(s.get_efi_last_path().unwrap(), "wwn-0xabc-part1");
}

#[test]
fn descriptor_package_names() {
    let s = mk_sail("/dev/sdX", &["sdX"], "1G", "4G", StorageType::Ssd);
    assert_eq!(s.get_linvar(), "linux");
    assert_eq!(s.get_zfs(), "zfs-linux");
    assert_eq!(s.get_disk(), "/dev/sdX");
    assert_eq!(s.get_partsize_esp(), "1G");
    assert_eq!(s.get_partsize_bpool(), "4G");
    assert!(s.is_using_ssd());
}

#[test]
fn descriptor_variant_names() {
    let lts = Sail::new(
        LinuxVariant::LinuxLts,
        ZfsType::Dkms,
        StorageType::Hdd,
        "/dev/sdX".to_owned(),
        "1G".to_owned(),
        "4G".to_owned(),
        true,
        vec!["sdX".to_owned()],
    )
    .unwrap();
    assert_eq!(lts.get_linvar(), "linux-lts");
    assert_eq!(lts.get_zfs(), "zfs-dkms");
    assert!(!lts.is_using_ssd());
}

#[test]
fn next_partnum_renders_two_digits() {
    // Nine pre-existing partitions: numbering continues at 10.
    let entries = [
        "sdc", "sdc1", "sdc2", "sdc3", "sdc4", "sdc5", "sdc6", "sdc7", "sdc8", "sdc9",
    ];
    let s = mk_sail("/dev/sdc", &entries, "1G", "4G", StorageType::Ssd);
    assert_eq!(s.get_next_partnum(), 10);
    assert_eq!(s.get_efi_part().unwrap(), "/dev/sdc-part10");
    assert_eq!(s.get_rpool_part().unwrap(), "/dev/sdc-part12");
    assert_eq!(s.get_efi_last_path().unwrap(), "sdc-part10");
}

#[test]
fn config_template_defaults() {
    let c = sail::conf::Config::default();
    assert!(matches!(c.linvar, LinuxVariant::Linux));
    assert!(matches!(c.zfs_type, ZfsType::Normal));
    assert!(matches!(c.storage_type, StorageType::Ssd));
    assert_eq!(c.disk, "");
    assert_eq!(c.partsize_esp, "");
    assert_eq!(c.partsize_bpool, "");
}

#[test]
fn rejects_non_block_device() {
    let r = Sail::new(
        LinuxVariant::Linux,
        ZfsType::Normal,
        StorageType::Ssd,
        "/dev/sdX".to_owned(),
        "1G".to_owned(),
        "4G".to_owned(),
        false,
        vec!["sdX".to_owned()],
    );
    assert!(matches!(r, Err(SailError::NotBlockDevice)));
}

#[test]
fn rejects_bad_esp_size() {
    let r = Sail::new(
        LinuxVariant::Linux,
        ZfsType::Normal,
        StorageType::Ssd,
        "/dev/sdX".to_owned(),
        "1Q".to_owned(),
        "4G".to_owned(),
        true,
        vec!["sdX".to_owned()],
    );
    assert!(matches!(r, Err(SailError::InvalidSizeEsp)));
}

#[test]
fn rejects_bad_bpool_size() {
    let r = Sail::new(
        LinuxVariant::Linux,
        ZfsType::Normal,
        StorageType::Ssd,
        "/dev/sdX".to_owned(),
        "1G".to_owned(),
        "fourG".to_owned(),
        true,
        vec!["sdX".to_owned()],
    );
    assert!(matches!(r, Err(SailError::InvalidSizeBpool)));
}

#[test]
fn partsize_accepts_integer_with_unit() {
    for ok in ["1G", "4G", "512M", "10T", "999K", "2P", "10G", "007M"] {
        assert!(validate_partsize(ok), "expected {ok:?} accepted");
    }
}

#[test]
fn partsize_rejects_everything_else() {
    for bad in ["", "G", "1", "1X", "-1G", "abcG", "1.5G", "0G", "+1G", "00G", "G1", "1 G"] {
        assert!(!validate_partsize(bad), "expected {bad:?} rejected");
    }
}
