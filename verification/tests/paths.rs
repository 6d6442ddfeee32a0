use recstrap::path::{
    components_start_with, extension_of_name, path_extension, paths_equal, split_components,
    starts_with,
};
use std::path::Path;

const SAMPLES: [&str; 40] = [
    "",
    "/",
    "//",
    "///",
    ".",
    "..",
    "./",
    "/.",
    "/..",
    "a",
    "a/",
    "a//",
    "/a",
    "//a",
    "a/b",
    "a//b",
    "a/./b",
    "a/../b",
    "./a",
    "././a",
    "../a",
    "a/.",
    "a/..",
    "/usr",
    "/usr/",
    "/usr/.",
    "/usr/./",
    "/./usr",
    "/usr/local",
    "/mnt",
    "/mnt/fs.erofs",
    "/mnt/sub/fs.erofs",
    "/mnt2",
    "/media/cdrom/fs.erofs",
    "/path/to/file.squashfs",
    "/path/to/.hidden",
    "/path/to/archive.tar.gz",
    "/path/to/file.",
    "/path/to/...",
    "/päth/tö/fïle.erofs",
];

fn std_components(path: &str) -> Vec<String> {
    Path::new(path).components().map(|c| c.as_os_str().to_string_lossy().into_owned()).collect()
}

#[test]
fn components_are_those_of_std() {
    for path in SAMPLES {
        let ours: Vec<String> = split_components(path).iter().map(|c| c.to_string()).collect();
        assert_eq!(ours, std_components(path), "components of {:?}", path);
    }
}

#[test]
fn components_of_chosen_paths() {
    assert_eq!(split_components("/usr//local/./bin/"), vec!["/", "usr", "local", "bin"]);
    assert_eq!(split_components("./a/../b"), vec![".", "a", "..", "b"]);
    assert_eq!(split_components(""), Vec::<&str>::new());
    assert_eq!(split_components("/"), vec!["/"]);
    assert_eq!(split_components("a/./."), vec!["a"]);
}

#[test]
fn equality_is_that_of_std() {
    for a in SAMPLES {
        for b in SAMPLES {
            assert_eq!(paths_equal(a, b), Path::new(a) == Path::new(b), "{:?} == {:?}", a, b);
        }
    }
}

#[test]
fn starts_with_is_that_of_std() {
    for a in SAMPLES {
        for b in SAMPLES {
            assert_eq!(
                starts_with(a, b),
                Path::new(a).starts_with(Path::new(b)),
                "{:?} starts with {:?}",
                a,
                b
            );
        }
    }
}

#[test]
fn extension_is_that_of_std() {
    for path in SAMPLES {
        let theirs = Path::new(path).extension().and_then(|e| e.to_str());
        assert_eq!(path_extension(path), theirs, "extension of {:?}", path);
    }
}

#[test]
fn extension_of_chosen_names() {
    assert_eq!(extension_of_name("file.erofs"), Some("erofs"));
    assert_eq!(extension_of_name("archive.tar.gz"), Some("gz"));
    assert_eq!(extension_of_name(".hidden"), None);
    assert_eq!(extension_of_name("plain"), None);
    assert_eq!(extension_of_name("trailing."), Some(""));
    assert_eq!(extension_of_name(""), None);
    assert_eq!(extension_of_name("a.b"), Some("b"));
    assert_eq!(extension_of_name("ünï.cödé"), Some("cödé"));
}

#[test]
fn prefix_of_component_lists() {
    let full = vec!["/", "mnt", "a"];
    assert!(components_start_with(&full, &vec!["/", "mnt"]));
    assert!(components_start_with(&full, &vec![]));
    assert!(components_start_with(&full, &full.clone()));
    assert!(!components_start_with(&full, &vec!["/", "mn"]));
    assert!(!components_start_with(&full, &vec!["/", "mnt", "a", "b"]));
    assert!(!components_start_with(&full, &vec!["mnt"]));
}
