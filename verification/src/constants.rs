//! Fixed configuration tables.

use vstd::prelude::*;

verus! {

/// Well-known image locations, in order of preference: EROFS images
/// first, squashfs images after them.
pub const ROOTFS_SEARCH_PATHS: [&'static str; 8] = [
    "/media/cdrom/live/filesystem.erofs",
    "/run/initramfs/live/filesystem.erofs",
    "/run/archiso/bootmnt/live/filesystem.erofs",
    "/mnt/cdrom/live/filesystem.erofs",
    "/media/cdrom/live/filesystem.squashfs",
    "/run/initramfs/live/filesystem.squashfs",
    "/run/archiso/bootmnt/live/filesystem.squashfs",
    "/mnt/cdrom/live/filesystem.squashfs",
];

/// Directories that must exist under the target after extraction.
pub const ESSENTIAL_DIRS: [&'static str; 6] = ["bin", "etc", "lib", "sbin", "usr", "var"];

/// System directories that are never accepted as extraction target.
pub const PROTECTED_PATHS: [&'static str; 18] = [
    "/",
    "/bin",
    "/boot",
    "/dev",
    "/etc",
    "/home",
    "/lib",
    "/lib64",
    "/opt",
    "/proc",
    "/root",
    "/run",
    "/sbin",
    "/srv",
    "/sys",
    "/tmp",
    "/usr",
    "/var",
];

/// Bytes in one MiB.
pub const MIB: u64 = 1048576;

/// Minimum free space on the target filesystem, in bytes (2 GiB).
pub const MIN_REQUIRED_BYTES: u64 = 2 * 1024 * 1024 * 1024;

/// EROFS superblock magic, stored little-endian at byte offset 1024.
pub const EROFS_MAGIC: u32 = 0xe0f5e1e2;

/// Byte offset of the EROFS superblock magic.
pub const EROFS_MAGIC_OFFSET: usize = 1024;

/// Squashfs magic bytes at offset 0 (`hsqs`).
pub const SQUASHFS_MAGIC: &'static [u8; 4] = &[0x68, 0x73, 0x71, 0x73];

/// Directory entry that a filesystem creates by itself on a fresh mount.
pub const LOST_AND_FOUND: &'static str = "lost+found";

/// Name of the sentinel file of the write probe.
pub const WRITE_PROBE_NAME: &'static str = ".recstrap_write_test";

/// Name of the temporary mount directory, below the system's temporary directory.
pub const MOUNT_DIR_NAME: &'static str = "recstrap-erofs-mount";

} // verus!
