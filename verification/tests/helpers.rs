use recstrap::helpers::{
    available_space, erofs_supported, find_rootfs, has_enough_space, is_dir_empty, is_mount_point,
    is_protected_path, is_root, is_rootfs_inside_target, DeviceIds,
};

#[test]
fn helpers_test_protected_paths_include_critical() {
    assert!(is_protected_path("/"));
    assert!(is_protected_path("/usr"));
    assert!(is_protected_path("/etc"));
    assert!(is_protected_path("/bin"));
    assert!(is_protected_path("/var"));
    assert!(is_protected_path("/home"));
}

#[test]
fn helpers_test_protected_paths_allow_mnt() {
    assert!(!is_protected_path("/mnt"));
    assert!(!is_protected_path("/mnt/target"));
    assert!(!is_protected_path("/media/usb"));
}

#[test]
fn helpers_test_rootfs_inside_target_detection() {
    assert!(is_rootfs_inside_target(
        "/mnt/fs.erofs",
        "/mnt"
    ));
    assert!(is_rootfs_inside_target(
        "/mnt/subdir/fs.erofs",
        "/mnt"
    ));
    assert!(!is_rootfs_inside_target(
        "/media/cdrom/fs.erofs",
        "/mnt"
    ));
}

#[test]
fn main_test_protected_paths_include_critical() {
    assert!(is_protected_path("/"));
    assert!(is_protected_path("/usr"));
    assert!(is_protected_path("/etc"));
    assert!(is_protected_path("/bin"));
    assert!(is_protected_path("/var"));
    assert!(is_protected_path("/home"));
}

#[test]
fn main_test_protected_paths_allow_mnt() {
    assert!(!is_protected_path("/mnt"));
    assert!(!is_protected_path("/mnt/target"));
    assert!(!is_protected_path("/media/usb"));
}

#[test]
fn main_test_rootfs_inside_target_detection() {
    assert!(is_rootfs_inside_target(
        "/mnt/fs.erofs",
        "/mnt"
    ));
    assert!(is_rootfs_inside_target(
        "/mnt/subdir/fs.erofs",
        "/mnt"
    ));
    assert!(!is_rootfs_inside_target(
        "/media/cdrom/fs.erofs",
        "/mnt"
    ));
}

fn names_helpers(list: &[&str]) -> Vec<String> {
    list.iter().map(|n| n.to_string()).collect()
}

#[test]
fn helpers_test_is_mount_point_root() {
    // Root should always be a mount point
    assert!(is_mount_point(&DeviceIds { own: 2049, parent: None }));
}

#[test]
fn helpers_test_get_available_space_works() {
    // Should return something reasonable (at least 1MB)
    let result = available_space(1_000_000, 4096);
    assert!(result > 1024 * 1024);
    assert_eq!(result, 4_096_000_000);
}

#[test]
fn helpers_test_is_dir_empty_with_lost_found() {
    assert!(
        is_dir_empty(&names_helpers(&["lost+found"])),
        "Directory with only lost+found should be considered empty"
    );

    // Add another file - now it's not empty
    assert!(
        !is_dir_empty(&names_helpers(&["lost+found", "test_file"])),
        "Directory with lost+found AND other files should NOT be empty"
    );
}

#[test]
fn helpers_test_is_dir_empty_ignores_write_test_file() {
    assert!(
        is_dir_empty(&names_helpers(&[".recstrap_write_test"])),
        "Directory with only .recstrap_write_test should be considered empty"
    );

    // With both ignored entries
    assert!(
        is_dir_empty(&names_helpers(&[".recstrap_write_test", "lost+found"])),
        "Directory with lost+found AND .recstrap_write_test should be empty"
    );
}

#[test]
fn helpers_test_is_dir_empty_truly_empty() {
    assert!(is_dir_empty(&names_helpers(&[])), "Empty directory should be empty");
}

#[test]
fn helpers_test_is_dir_empty_with_file() {
    assert!(
        !is_dir_empty(&names_helpers(&["some_file"])),
        "Directory with file should NOT be empty"
    );
}

#[test]
fn helpers_test_erofs_supported_checks_proc_filesystems() {
    // The result depends on what the kernel lists
    let _ = erofs_supported("nodev\tsysfs\nnodev\ttmpfs\n\text4\n");
}

fn names_main(list: &[&str]) -> Vec<String> {
    list.iter().map(|n| n.to_string()).collect()
}

#[test]
fn main_test_is_mount_point_root() {
    // Root should always be a mount point
    assert!(is_mount_point(&DeviceIds { own: 2049, parent: None }));
}

#[test]
fn main_test_get_available_space_works() {
    // Should return something reasonable (at least 1MB)
    let result = available_space(1_000_000, 4096);
    assert!(result > 1024 * 1024);
    assert_eq!(result, 4_096_000_000);
}

#[test]
fn main_test_is_dir_empty_with_lost_found() {
    assert!(
        is_dir_empty(&names_main(&["lost+found"])),
        "Directory with only lost+found should be considered empty"
    );

    // Add another file - now it's not empty
    assert!(
        !is_dir_empty(&names_main(&["lost+found", "test_file"])),
        "Directory with lost+found AND other files should NOT be empty"
    );
}

#[test]
fn main_test_is_dir_empty_ignores_write_test_file() {
    assert!(
        is_dir_empty(&names_main(&[".recstrap_write_test"])),
        "Directory with only .recstrap_write_test should be considered empty"
    );

    // With both ignored entries
    assert!(
        is_dir_empty(&names_main(&[".recstrap_write_test", "lost+found"])),
        "Directory with lost+found AND .recstrap_write_test should be empty"
    );
}

#[test]
fn main_test_is_dir_empty_truly_empty() {
    assert!(is_dir_empty(&names_main(&[])), "Empty directory should be empty");
}

#[test]
fn main_test_is_dir_empty_with_file() {
    assert!(
        !is_dir_empty(&names_main(&["some_file"])),
        "Directory with file should NOT be empty"
    );
}

#[test]
fn main_test_erofs_supported_checks_proc_filesystems() {
    // The result depends on what the kernel lists
    let _ = erofs_supported("nodev\tsysfs\nnodev\ttmpfs\n\text4\n");
}

#[test]
fn only_euid_zero_is_root() {
    assert!(is_root(0));
    assert!(!is_root(1));
    assert!(!is_root(1000));
    assert!(!is_root(u32::MAX));
}

#[test]
fn every_protected_path_is_protected() {
    for path in recstrap::constants::PROTECTED_PATHS {
        assert!(is_protected_path(path), "{} should be protected", path);
    }
}

#[test]
fn protection_goes_by_components() {
    assert!(is_protected_path("/usr/"));
    assert!(is_protected_path("//usr"));
    assert!(is_protected_path("/usr/."));
    assert!(is_protected_path("/./usr//"));
    assert!(is_protected_path("//"));
    assert!(is_protected_path("/."));
    // nothing else is normalised
    assert!(!is_protected_path("/usr/.."));
    assert!(!is_protected_path("/mnt/../usr"));
    assert!(!is_protected_path("usr"));
    assert!(!is_protected_path(""));
    assert!(!is_protected_path("/usr/local"));
    assert!(!is_protected_path("/USR"));
    assert!(!is_protected_path("/usrx"));
}

#[test]
fn inside_target_goes_by_whole_components() {
    assert!(is_rootfs_inside_target("/mnt", "/mnt"));
    assert!(is_rootfs_inside_target("/mnt/a/b/fs.erofs", "/mnt/a"));
    assert!(!is_rootfs_inside_target("/mnt2/fs.erofs", "/mnt"));
    assert!(!is_rootfs_inside_target("/mn/fs.erofs", "/mnt"));
    assert!(!is_rootfs_inside_target("/mnt", "/mnt/fs.erofs"));
    assert!(is_rootfs_inside_target("/anything/at/all.erofs", "/"));
    assert!(is_rootfs_inside_target("/mnt//fs.erofs", "/mnt/"));
}

#[test]
fn find_rootfs_takes_the_first_that_exists() {
    let none = [false; 8];
    assert_eq!(find_rootfs(&none), None);
    assert_eq!(find_rootfs(&[]), None);
    let all = [true; 8];
    assert_eq!(find_rootfs(&all), Some("/media/cdrom/live/filesystem.erofs"));
    let mut hits = [false; 8];
    hits[5] = true;
    hits[7] = true;
    assert_eq!(find_rootfs(&hits), Some("/run/initramfs/live/filesystem.squashfs"));
    hits[3] = true;
    assert_eq!(find_rootfs(&hits), Some("/mnt/cdrom/live/filesystem.erofs"));
    // flags beyond the table are not looked at, flags that lack count as false
    assert_eq!(find_rootfs(&[false, false, false, false, false, false, false, false, true]), None);
    assert_eq!(find_rootfs(&[false, true]), Some("/run/initramfs/live/filesystem.erofs"));
}

#[test]
fn emptiness_ignores_exactly_two_names() {
    assert!(is_dir_empty(&names_helpers(&["lost+found", "lost+found", ".recstrap_write_test"])));
    assert!(!is_dir_empty(&names_helpers(&["lost+found "])));
    assert!(!is_dir_empty(&names_helpers(&["Lost+Found"])));
    assert!(!is_dir_empty(&names_helpers(&[".recstrap_write_test2"])));
    assert!(!is_dir_empty(&names_helpers(&[".hidden"])));
    assert!(!is_dir_empty(&names_helpers(&[""])));
    assert!(!is_dir_empty(&names_helpers(&["lost+found", ".recstrap_write_test", "etc"])));
}

#[test]
fn mount_point_is_a_change_of_device() {
    assert!(is_mount_point(&DeviceIds { own: 2, parent: Some(1) }));
    assert!(!is_mount_point(&DeviceIds { own: 1, parent: Some(1) }));
    assert!(is_mount_point(&DeviceIds { own: 0, parent: None }));
}

#[test]
fn available_space_is_blocks_times_fragment_size() {
    assert_eq!(available_space(0, 4096), 0);
    assert_eq!(available_space(786_432, 4096), 3 * 1024 * 1024 * 1024);
    assert_eq!(available_space(524_288, 4096), 2 * 1024 * 1024 * 1024);
    // a product beyond u64 stays at the largest value
    assert_eq!(available_space(u64::MAX, 2), u64::MAX);
    assert_eq!(available_space(1 << 40, 1 << 40), u64::MAX);
}

#[test]
fn two_gib_are_enough_and_one_byte_less_is_not() {
    assert!(has_enough_space(2_147_483_648));
    assert!(!has_enough_space(2_147_483_647));
    assert!(!has_enough_space(0));
    assert!(has_enough_space(u64::MAX));
}

#[test]
fn erofs_is_found_in_the_list_of_filesystems() {
    assert!(erofs_supported("nodev\tsysfs\n\text4\n\terofs\n"));
    assert!(erofs_supported("erofs"));
    assert!(!erofs_supported("nodev\tsysfs\n\text4\n"));
    assert!(!erofs_supported(""));
    assert!(!erofs_supported("erof\ns"));
    assert!(!erofs_supported("EROFS"));
}
