use sail::parse::{extract_depends_version, extract_repo_version, fstab_filter, rewrite_zfs_line};

#[test]
fn depends_version_extracted() {
    let out = "Repository      : archzfs\n\
               Name            : zfs-linux\n\
               Version         : 2.1.9-1\n\
               Depends On      : kmod  zfs-utils=2.1.9  linux=6.1.12.arch1-1\n\
               Optional Deps   : None";
    assert_eq!(extract_depends_version(out, "linux").unwrap(), "6.1.12.arch1-1");
}

#[test]
fn depends_version_takes_last_pin() {
    // The strip runs through the *last* occurrence of "linux=".
    let out = "Depends On      : linux=6.0 linux=6.1.12-1 extra";
    assert_eq!(extract_depends_version(out, "linux").unwrap(), "6.1.12-1");
}

#[test]
fn depends_version_missing_field() {
    assert!(extract_depends_version("Name : zfs-linux\nVersion : 2.1.9-1", "linux").is_none());
    assert!(extract_depends_version("Depends On : kmod zfs-utils", "linux").is_none());
}

#[test]
fn repo_version_extracted() {
    let out = "Repository      : core\n\
               Name            : linux\n\
               Version         : 6.1.12.arch1-1\n\
               Description     : The Linux kernel and modules";
    assert_eq!(extract_repo_version(out).unwrap(), "6.1.12.arch1-1");
}

#[test]
fn repo_version_missing_field() {
    assert!(extract_repo_version("Name : linux").is_none());
    assert!(extract_repo_version("Version :").is_none());
}

#[test]
fn rewrite_forces_zfsutil() {
    assert_eq!(
        rewrite_zfs_line("bpool/arch/BOOT/default /boot zfs rw,xattr 0 0"),
        "bpool/arch/BOOT/default /boot zfs zfsutil,rw,xattr 0 0"
    );
    // No reference: unchanged.
    assert_eq!(rewrite_zfs_line("UUID=ABCD /boot/efi vfat rw 0 2"), "UUID=ABCD /boot/efi vfat rw 0 2");
}

#[test]
fn fstab_filter_keeps_only_zfs_lines() {
    let generated = "rpool/arch/ROOT/default\t/\tzfs\trw,xattr,noacl\t0 0\n\
                     UUID=ABCD-1234\t/boot/efi\tvfat\trw,relatime\t0 2\n\
                     bpool/arch/BOOT/default\t/boot\tzfs\trw,xattr,posixacl\t0 0";
    let kept = fstab_filter(generated);
    assert_eq!(
        kept,
        "rpool/arch/ROOT/default\t/\tzfs zfsutil,rw,xattr,noacl\t0 0\n\
         bpool/arch/BOOT/default\t/boot\tzfs zfsutil,rw,xattr,posixacl\t0 0"
    );
}

#[test]
fn fstab_filter_empty_when_nothing_matches() {
    assert_eq!(fstab_filter("UUID=AB /boot/efi vfat rw 0 2"), "");
}
