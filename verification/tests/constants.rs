use recstrap::constants::{
    EROFS_MAGIC, EROFS_MAGIC_OFFSET, ESSENTIAL_DIRS, LOST_AND_FOUND, MIB, MIN_REQUIRED_BYTES,
    MOUNT_DIR_NAME, PROTECTED_PATHS, ROOTFS_SEARCH_PATHS, SQUASHFS_MAGIC, WRITE_PROBE_NAME,
};

#[test]
fn constants_test_essential_dirs_list() {
    assert!(ESSENTIAL_DIRS.contains(&"bin"));
    assert!(ESSENTIAL_DIRS.contains(&"etc"));
    assert!(ESSENTIAL_DIRS.contains(&"usr"));
    assert!(ESSENTIAL_DIRS.contains(&"lib"));
    assert!(ESSENTIAL_DIRS.contains(&"var"));
}

#[test]
fn constants_test_rootfs_search_paths_exist() {
    assert!(!ROOTFS_SEARCH_PATHS.is_empty());
    for path in ROOTFS_SEARCH_PATHS {
        assert!(
            path.ends_with(".erofs") || path.ends_with(".squashfs"),
            "Path {} should end with .erofs or .squashfs",
            path
        );
    }
}

#[test]
fn constants_test_min_required_bytes_is_reasonable() {
    // Should be at least 1GB, at most 10GB
    assert!(MIN_REQUIRED_BYTES >= 1024 * 1024 * 1024);
    assert!(MIN_REQUIRED_BYTES <= 10 * 1024 * 1024 * 1024);
}

#[test]
fn constants_test_erofs_magic_constant() {
    // EROFS magic is 0xe0f5e1e2 (little-endian)
    assert_eq!(EROFS_MAGIC, 0xe0f5e1e2);
}

#[test]
fn constants_test_squashfs_magic_constant() {
    // Squashfs magic is "hsqs"
    assert_eq!(SQUASHFS_MAGIC, b"hsqs");
}

#[test]
fn main_test_essential_dirs_list() {
    assert!(ESSENTIAL_DIRS.contains(&"bin"));
    assert!(ESSENTIAL_DIRS.contains(&"etc"));
    assert!(ESSENTIAL_DIRS.contains(&"usr"));
    assert!(ESSENTIAL_DIRS.contains(&"lib"));
    assert!(ESSENTIAL_DIRS.contains(&"var"));
}

#[test]
fn main_test_rootfs_search_paths_exist() {
    assert!(!ROOTFS_SEARCH_PATHS.is_empty());
    for path in ROOTFS_SEARCH_PATHS {
        assert!(
            path.ends_with(".erofs") || path.ends_with(".squashfs"),
            "Path {} should end with .erofs or .squashfs",
            path
        );
    }
}

#[test]
fn main_test_min_required_bytes_is_reasonable() {
    // Should be at least 1GB, at most 10GB
    assert!(MIN_REQUIRED_BYTES >= 1024 * 1024 * 1024);
    assert!(MIN_REQUIRED_BYTES <= 10 * 1024 * 1024 * 1024);
}

#[test]
fn main_test_erofs_magic_constant() {
    // EROFS magic is 0xe0f5e1e2 (little-endian)
    assert_eq!(EROFS_MAGIC, 0xe0f5e1e2);
}

#[test]
fn main_test_squashfs_magic_constant() {
    // Squashfs magic is "hsqs"
    assert_eq!(SQUASHFS_MAGIC, b"hsqs");
}

#[test]
fn search_paths_prefer_erofs() {
    assert_eq!(ROOTFS_SEARCH_PATHS.len(), 8);
    for (i, path) in ROOTFS_SEARCH_PATHS.iter().enumerate() {
        if i < 4 {
            assert!(path.ends_with(".erofs"), "{} should be an EROFS path", path);
        } else {
            assert!(path.ends_with(".squashfs"), "{} should be a squashfs path", path);
        }
    }
    assert_eq!(ROOTFS_SEARCH_PATHS[0], "/media/cdrom/live/filesystem.erofs");
}

#[test]
fn essential_dirs_are_the_six() {
    assert_eq!(ESSENTIAL_DIRS, ["bin", "etc", "lib", "sbin", "usr", "var"]);
}

#[test]
fn protected_paths_are_absolute_and_distinct() {
    assert_eq!(PROTECTED_PATHS.len(), 18);
    let mut seen = std::collections::HashSet::new();
    for path in PROTECTED_PATHS {
        assert!(path.starts_with('/'), "{} should be absolute", path);
        assert!(seen.insert(path), "{} occurs twice", path);
    }
    assert!(PROTECTED_PATHS.contains(&"/"));
    assert!(PROTECTED_PATHS.contains(&"/lib64"));
    assert!(!PROTECTED_PATHS.contains(&"/mnt"));
}

#[test]
fn minimum_space_is_two_gib() {
    assert_eq!(MIN_REQUIRED_BYTES, 2_147_483_648);
    assert_eq!(MIN_REQUIRED_BYTES / MIB, 2048);
}

#[test]
fn names_of_the_ignored_entries_and_the_mount_dir() {
    assert_eq!(LOST_AND_FOUND, "lost+found");
    assert_eq!(WRITE_PROBE_NAME, ".recstrap_write_test");
    assert_eq!(MOUNT_DIR_NAME, "recstrap-erofs-mount");
    assert_eq!(EROFS_MAGIC_OFFSET, 1024);
}
