use recstrap::constants::ESSENTIAL_DIRS;
use recstrap::error::ErrorCode;
use recstrap::rootfs::{
    validate_rootfs_magic, verify_extraction, CleanupStep, MountGuard, RootfsType,
};

#[test]
fn main_test_rootfs_type_from_path() {
    assert_eq!(
        RootfsType::from_path("/path/to/file.erofs"),
        Some(RootfsType::Erofs)
    );
    assert_eq!(
        RootfsType::from_path("/path/to/file.squashfs"),
        Some(RootfsType::Squashfs)
    );
    assert_eq!(
        RootfsType::from_path("/path/to/file.img"),
        None
    );
    assert_eq!(RootfsType::from_path("/path/to/file"), None);
}

#[test]
fn rootfs_test_rootfs_type_from_path() {
    assert_eq!(
        RootfsType::from_path("/path/to/file.erofs"),
        Some(RootfsType::Erofs)
    );
    assert_eq!(
        RootfsType::from_path("/path/to/file.squashfs"),
        Some(RootfsType::Squashfs)
    );
    assert_eq!(RootfsType::from_path("/path/to/file.img"), None);
    assert_eq!(RootfsType::from_path("/path/to/file"), None);
}

#[test]
fn rootfs_test_validate_rootfs_magic_invalid_file() {
    // An image with wrong magic at offset 1024
    // EROFS superblock is at offset 1024, so we need at least 1028 bytes
    let mut data = vec![0u8; 1028];
    // Put wrong magic at offset 1024
    data[1024..1028].copy_from_slice(b"NOPE");

    let result = validate_rootfs_magic(&data, RootfsType::Erofs);
    assert!(result.is_err());
    let err = result.unwrap_err();
    assert!(
        err.to_string().contains("not a valid EROFS"),
        "Error was: {}",
        err
    );
}

#[test]
fn rootfs_test_validate_rootfs_magic_squashfs_invalid() {
    // An image with wrong magic for squashfs
    let result = validate_rootfs_magic(b"not squashfs", RootfsType::Squashfs);
    assert!(result.is_err());
    let err = result.unwrap_err();
    assert!(err.to_string().contains("not a valid squashfs"));
}

#[test]
fn main_test_validate_rootfs_magic_invalid_file() {
    // An image with wrong magic at offset 1024
    // EROFS superblock is at offset 1024, so we need at least 1028 bytes
    let mut data = vec![0u8; 1028];
    // Put wrong magic at offset 1024
    data[1024..1028].copy_from_slice(b"NOPE");

    let result = validate_rootfs_magic(&data, RootfsType::Erofs);
    assert!(result.is_err());
    let err = result.unwrap_err();
    assert!(
        err.to_string().contains("not a valid EROFS"),
        "Error was: {}",
        err
    );
}

#[test]
fn main_test_validate_rootfs_magic_squashfs_invalid() {
    // An image with wrong magic for squashfs
    let result = validate_rootfs_magic(b"not squashfs", RootfsType::Squashfs);
    assert!(result.is_err());
    let err = result.unwrap_err();
    assert!(err.to_string().contains("not a valid squashfs"));
}

fn erofs_image(magic: [u8; 4]) -> Vec<u8> {
    let mut data = vec![0u8; 4096];
    data[1024..1028].copy_from_slice(&magic);
    data
}

#[test]
fn erofs_magic_is_read_little_endian_at_1024() {
    assert_eq!(validate_rootfs_magic(&erofs_image([0xe2, 0xe1, 0xf5, 0xe0]), RootfsType::Erofs), Ok(()));
    // exactly 1028 bytes are enough
    let mut short = vec![0u8; 1028];
    short[1024..1028].copy_from_slice(&[0xe2, 0xe1, 0xf5, 0xe0]);
    assert_eq!(validate_rootfs_magic(&short, RootfsType::Erofs), Ok(()));
    // the same bytes in big-endian order are not the magic
    assert_eq!(
        validate_rootfs_magic(&erofs_image([0xe0, 0xf5, 0xe1, 0xe2]), RootfsType::Erofs),
        Err(String::from("not a valid EROFS image (magic: 0xe2e1f5e0, expected: 0xe0f5e1e2)"))
    );
    // the magic at offset 0 does not count
    let mut at_start = vec![0u8; 4096];
    at_start[0..4].copy_from_slice(&[0xe2, 0xe1, 0xf5, 0xe0]);
    assert_eq!(
        validate_rootfs_magic(&at_start, RootfsType::Erofs),
        Err(String::from("not a valid EROFS image (magic: 0x00000000, expected: 0xe0f5e1e2)"))
    );
}

#[test]
fn wrong_erofs_magic_names_observed_and_expected() {
    assert_eq!(
        validate_rootfs_magic(&erofs_image(*b"NOPE"), RootfsType::Erofs),
        Err(String::from("not a valid EROFS image (magic: 0x45504f4e, expected: 0xe0f5e1e2)"))
    );
    assert_eq!(
        validate_rootfs_magic(&erofs_image([1, 0, 0, 0]), RootfsType::Erofs),
        Err(String::from("not a valid EROFS image (magic: 0x00000001, expected: 0xe0f5e1e2)"))
    );
    assert_eq!(
        validate_rootfs_magic(&erofs_image([0xff, 0xff, 0xff, 0xff]), RootfsType::Erofs),
        Err(String::from("not a valid EROFS image (magic: 0xffffffff, expected: 0xe0f5e1e2)"))
    );
}

#[test]
fn squashfs_magic_is_hsqs_at_the_start() {
    assert_eq!(validate_rootfs_magic(b"hsqs", RootfsType::Squashfs), Ok(()));
    assert_eq!(validate_rootfs_magic(b"hsqs and more", RootfsType::Squashfs), Ok(()));
    assert_eq!(
        validate_rootfs_magic(b"not squashfs", RootfsType::Squashfs),
        Err(String::from(
            "not a valid squashfs image (magic: [110, 111, 116, 32], expected: [104, 115, 113, 115])"
        ))
    );
    assert_eq!(
        validate_rootfs_magic(&[0, 255, 9, 10], RootfsType::Squashfs),
        Err(String::from(
            "not a valid squashfs image (magic: [0, 255, 9, 10], expected: [104, 115, 113, 115])"
        ))
    );
    // an EROFS image is no squashfs image, and the other way round
    assert!(validate_rootfs_magic(&erofs_image([0xe2, 0xe1, 0xf5, 0xe0]), RootfsType::Squashfs).is_err());
    assert!(validate_rootfs_magic(b"hsqs", RootfsType::Erofs).is_err());
}

#[test]
fn images_too_short_for_their_signature_are_refused() {
    let short = String::from("failed to fill whole buffer");
    assert_eq!(validate_rootfs_magic(b"", RootfsType::Squashfs), Err(short.clone()));
    assert_eq!(validate_rootfs_magic(b"hsq", RootfsType::Squashfs), Err(short.clone()));
    assert_eq!(validate_rootfs_magic(b"", RootfsType::Erofs), Err(short.clone()));
    assert_eq!(validate_rootfs_magic(&vec![0xe2u8; 1027], RootfsType::Erofs), Err(short));
}

#[test]
fn signature_offsets() {
    assert_eq!(RootfsType::Erofs.signature_offset(), 1024);
    assert_eq!(RootfsType::Squashfs.signature_offset(), 0);
    assert_eq!(RootfsType::Erofs.signature_end(), 1028);
    assert_eq!(RootfsType::Squashfs.signature_end(), 4);
}

#[test]
fn type_goes_by_the_extension_of_the_file_name() {
    assert_eq!(RootfsType::from_path("rootfs.erofs"), Some(RootfsType::Erofs));
    assert_eq!(RootfsType::from_path("a.b.squashfs"), Some(RootfsType::Squashfs));
    assert_eq!(RootfsType::from_path("/x/file.erofs/"), Some(RootfsType::Erofs));
    assert_eq!(RootfsType::from_path("/x/file.erofs/."), Some(RootfsType::Erofs));
    assert_eq!(RootfsType::from_path("/x/.erofs"), None);
    assert_eq!(RootfsType::from_path("/x/erofs"), None);
    assert_eq!(RootfsType::from_path("/x/file.EROFS"), None);
    assert_eq!(RootfsType::from_path("/x/file.erofs.bak"), None);
    assert_eq!(RootfsType::from_path("/x/file.erofs/.."), None);
    assert_eq!(RootfsType::from_path("/x.erofs/file"), None);
    assert_eq!(RootfsType::from_path("/x/file.erofs "), None);
    assert_eq!(RootfsType::from_path("/x/file."), None);
    assert_eq!(RootfsType::from_path(""), None);
    assert_eq!(RootfsType::from_path("/"), None);
    assert_eq!(RootfsType::from_path("/x/..erofs"), Some(RootfsType::Erofs));
}

#[test]
fn guard_unmounts_only_what_was_mounted() {
    let mut guard = MountGuard::new(String::from("/tmp/recstrap-erofs-mount"));
    assert_eq!(guard.mount_point, "/tmp/recstrap-erofs-mount");
    assert!(!guard.mounted);
    assert_eq!(guard.cleanup_steps(), vec![CleanupStep::RemoveDir]);
    guard.set_mounted();
    assert!(guard.mounted);
    assert_eq!(guard.mount_point, "/tmp/recstrap-erofs-mount");
    assert_eq!(guard.cleanup_steps(), vec![CleanupStep::Unmount, CleanupStep::RemoveDir]);
    // marking twice changes nothing
    guard.set_mounted();
    assert_eq!(guard.cleanup_steps(), vec![CleanupStep::Unmount, CleanupStep::RemoveDir]);
}

#[test]
fn complete_tree_passes_verification() {
    assert!(verify_extraction(&[true; 6]).is_ok());
    assert!(verify_extraction(&[true, true, true, true, true, true, false]).is_ok());
}

#[test]
fn every_missing_directory_is_named_in_one_error() {
    let err = verify_extraction(&[false, true, true, true, false, true]).unwrap_err();
    assert_eq!(err.code, ErrorCode::ExtractionVerificationFailed);
    assert_eq!(err.message, "extraction verification failed - missing directories: bin, usr");
    assert_eq!(err.to_string(), "E006: extraction verification failed - missing directories: bin, usr");

    let err = verify_extraction(&[false; 6]).unwrap_err();
    assert_eq!(
        err.message,
        "extraction verification failed - missing directories: bin, etc, lib, sbin, usr, var"
    );

    let err = verify_extraction(&[true, true, true, true, true, false]).unwrap_err();
    assert_eq!(err.message, "extraction verification failed - missing directories: var");
}

#[test]
fn flags_that_lack_count_as_missing() {
    let err = verify_extraction(&[]).unwrap_err();
    assert_eq!(
        err.message,
        format!("extraction verification failed - missing directories: {}", ESSENTIAL_DIRS.join(", "))
    );
    let err = verify_extraction(&[true, true, true]).unwrap_err();
    assert_eq!(err.message, "extraction verification failed - missing directories: sbin, usr, var");
}

#[test]
fn each_single_missing_directory_is_reported() {
    for i in 0..6 {
        let mut flags = [true; 6];
        flags[i] = false;
        let err = verify_extraction(&flags).unwrap_err();
        assert_eq!(
            err.message,
            format!("extraction verification failed - missing directories: {}", ESSENTIAL_DIRS[i])
        );
    }
}
