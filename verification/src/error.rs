//! The closed, stably numbered error taxonomy and the messages that go with it.

use crate::text::{decimal, decimal_string, digit_char, join, joined, trim, trimmed, views};
use vstd::prelude::*;
use vstd::string::*;

verus! {

/// One kind per distinct precondition or pipeline phase.
#[derive(Debug, Clone, Copy, PartialEq, Eq, Structural)]
pub enum ErrorCode {
    /// E001: Target directory does not exist
    TargetNotFound,
    /// E002: Target is not a directory
    NotADirectory,
    /// E003: Target directory not writable
    NotWritable,
    /// E004: Rootfs image not found
    RootfsNotFound,
    /// E005: Extraction command failed
    ExtractionFailed,
    /// E006: Extracted system verification failed
    ExtractionVerificationFailed,
    /// E007: Required tool not installed
    ToolNotInstalled,
    /// E008: Must run as root
    NotRoot,
    /// E009: Target directory not empty
    TargetNotEmpty,
    /// E010: Target is a protected system path
    ProtectedPath,
    /// E011: Target is not a mount point
    NotMountPoint,
    /// E012: Insufficient disk space
    InsufficientSpace,
    /// E013: Rootfs is not a regular file
    RootfsNotFile,
    /// E014: Rootfs is not readable
    RootfsNotReadable,
    /// E015: Rootfs is inside target directory
    RootfsInsideTarget,
    /// E016: Rootfs file has an unsupported format or invalid magic bytes
    InvalidRootfsFormat,
    /// E017: EROFS kernel support not available
    ErofsNotSupported,
}

impl ErrorCode {
    /// Earlier name of [`ErrorCode::RootfsNotFound`].
    #[allow(non_upper_case_globals)]
    pub const SquashfsNotFound: ErrorCode = ErrorCode::RootfsNotFound;

    /// Earlier name of [`ErrorCode::ExtractionFailed`].
    #[allow(non_upper_case_globals)]
    pub const UnsquashfsFailed: ErrorCode = ErrorCode::ExtractionFailed;

    /// Earlier name of [`ErrorCode::ToolNotInstalled`].
    #[allow(non_upper_case_globals)]
    pub const UnsquashfsNotInstalled: ErrorCode = ErrorCode::ToolNotInstalled;

    /// Earlier name of [`ErrorCode::RootfsNotFile`].
    #[allow(non_upper_case_globals)]
    pub const SquashfsNotFile: ErrorCode = ErrorCode::RootfsNotFile;

    /// Earlier name of [`ErrorCode::RootfsNotReadable`].
    #[allow(non_upper_case_globals)]
    pub const SquashfsNotReadable: ErrorCode = ErrorCode::RootfsNotReadable;

    /// Earlier name of [`ErrorCode::RootfsInsideTarget`].
    #[allow(non_upper_case_globals)]
    pub const SquashfsInsideTarget: ErrorCode = ErrorCode::RootfsInsideTarget;

    /// The number of this kind, from 1 to 17.
    pub open spec fn number(self) -> nat {
        match self {
            ErrorCode::TargetNotFound => 1,
            ErrorCode::NotADirectory => 2,
            ErrorCode::NotWritable => 3,
            ErrorCode::RootfsNotFound => 4,
            ErrorCode::ExtractionFailed => 5,
            ErrorCode::ExtractionVerificationFailed => 6,
            ErrorCode::ToolNotInstalled => 7,
            ErrorCode::NotRoot => 8,
            ErrorCode::TargetNotEmpty => 9,
            ErrorCode::ProtectedPath => 10,
            ErrorCode::NotMountPoint => 11,
            ErrorCode::InsufficientSpace => 12,
            ErrorCode::RootfsNotFile => 13,
            ErrorCode::RootfsNotReadable => 14,
            ErrorCode::RootfsInsideTarget => 15,
            ErrorCode::InvalidRootfsFormat => 16,
            ErrorCode::ErofsNotSupported => 17,
        }
    }

    /// The printed code: `E` and the number as three decimal digits.
    pub open spec fn text(self) -> Seq<char> {
        seq![
            'E',
            '0',
            digit_char((self.number() / 10) as int),
            digit_char((self.number() % 10) as int),
        ]
    }

    /// The printed code of this kind (for example `E001`).
    pub fn code(&self) -> (r: &'static str)
        ensures
            r@ == self.text(),
    {
        proof {
            reveal_strlit("E001");
            reveal_strlit("E002");
            reveal_strlit("E003");
            reveal_strlit("E004");
            reveal_strlit("E005");
            reveal_strlit("E006");
            reveal_strlit("E007");
            reveal_strlit("E008");
            reveal_strlit("E009");
            reveal_strlit("E010");
            reveal_strlit("E011");
            reveal_strlit("E012");
            reveal_strlit("E013");
            reveal_strlit("E014");
            reveal_strlit("E015");
            reveal_strlit("E016");
            reveal_strlit("E017");
        }
        let r = match self {
            ErrorCode::TargetNotFound => "E001",
            ErrorCode::NotADirectory => "E002",
            ErrorCode::NotWritable => "E003",
            ErrorCode::RootfsNotFound => "E004",
            ErrorCode::ExtractionFailed => "E005",
            ErrorCode::ExtractionVerificationFailed => "E006",
            ErrorCode::ToolNotInstalled => "E007",
            ErrorCode::NotRoot => "E008",
            ErrorCode::TargetNotEmpty => "E009",
            ErrorCode::ProtectedPath => "E010",
            ErrorCode::NotMountPoint => "E011",
            ErrorCode::InsufficientSpace => "E012",
            ErrorCode::RootfsNotFile => "E013",
            ErrorCode::RootfsNotReadable => "E014",
            ErrorCode::RootfsInsideTarget => "E015",
            ErrorCode::InvalidRootfsFormat => "E016",
            ErrorCode::ErofsNotSupported => "E017",
        };
        assert(r@ =~= self.text());
        r
    }

    /// The process exit status that reports this kind.
    pub fn exit_code(&self) -> (r: u8)
        ensures
            r == self.number(),
    {
        match self {
            ErrorCode::TargetNotFound => 1,
            ErrorCode::NotADirectory => 2,
            ErrorCode::NotWritable => 3,
            ErrorCode::RootfsNotFound => 4,
            ErrorCode::ExtractionFailed => 5,
            ErrorCode::ExtractionVerificationFailed => 6,
            ErrorCode::ToolNotInstalled => 7,
            ErrorCode::NotRoot => 8,
            ErrorCode::TargetNotEmpty => 9,
            ErrorCode::ProtectedPath => 10,
            ErrorCode::NotMountPoint => 11,
            ErrorCode::InsufficientSpace => 12,
            ErrorCode::RootfsNotFile => 13,
            ErrorCode::RootfsNotReadable => 14,
            ErrorCode::RootfsInsideTarget => 15,
            ErrorCode::InvalidRootfsFormat => 16,
            ErrorCode::ErofsNotSupported => 17,
        }
    }
}

/// Distinct kinds have distinct numbers, hence distinct exit statuses and
/// distinct printed codes.
pub proof fn lemma_codes_distinct(a: ErrorCode, b: ErrorCode)
    requires
        a != b,
    ensures
        a.number() != b.number(),
        a.text() != b.text(),
        1 <= a.number() <= 17,
{
    if a.text() == b.text() {
        assert(a.text()[2] == b.text()[2]);
        assert(a.text()[3] == b.text()[3]);
    }
}

/// An error of the pipeline: its kind and a message that names the offending
/// path or value.
#[derive(Debug)]
pub struct RecError {
    pub code: ErrorCode,
    pub message: String,
}

/// What a [`RecError`] holds, with the message as a character sequence.
pub struct RecErrorView {
    pub code: ErrorCode,
    pub message: Seq<char>,
}

impl View for RecError {
    type V = RecErrorView;

    open spec fn view(&self) -> RecErrorView {
        RecErrorView { code: self.code, message: self.message@ }
    }
}

/// The error of kind `code` with the message `message`.
pub open spec fn error_of(code: ErrorCode, message: Seq<char>) -> RecErrorView {
    RecErrorView { code, message }
}

/// What [`RecError::target_not_found`] gives for `path`.
pub open spec fn target_not_found_error(path: Seq<char>) -> RecErrorView {
    error_of(ErrorCode::TargetNotFound, "target directory '"@ + path + "' does not exist"@)
}

/// What [`RecError::not_a_directory`] gives for `path`.
pub open spec fn not_a_directory_error(path: Seq<char>) -> RecErrorView {
    error_of(ErrorCode::NotADirectory, "'"@ + path + "' is not a directory"@)
}

/// What [`RecError::not_writable`] gives for `path`.
pub open spec fn not_writable_error(path: Seq<char>) -> RecErrorView {
    error_of(
        ErrorCode::NotWritable,
        "target directory '"@ + path + "' is not writable (are you root?)"@,
    )
}

/// What [`RecError::rootfs_not_found`] gives for the paths tried.
pub open spec fn rootfs_not_found_error(paths_tried: Seq<Seq<char>>) -> RecErrorView {
    error_of(
        ErrorCode::RootfsNotFound,
        "rootfs not found (tried: "@ + joined(paths_tried, ", "@)
            + "). Make sure you're running from the live ISO or specify --rootfs"@,
    )
}

/// The detail shown for a failed extraction: a fixed text when none was
/// given, else the detail without surrounding whitespace.
pub open spec fn extraction_detail(detail: Seq<char>) -> Seq<char> {
    if detail.len() == 0 {
        "unknown error (check dmesg for details)"@
    } else {
        trimmed(detail)
    }
}

/// What [`RecError::extraction_failed`] gives for `detail`.
pub open spec fn extraction_failed_error(detail: Seq<char>) -> RecErrorView {
    error_of(ErrorCode::ExtractionFailed, "extraction failed: "@ + extraction_detail(detail))
}

/// What [`RecError::extraction_verification_failed`] gives for the missing names.
pub open spec fn extraction_verification_failed_error(missing: Seq<Seq<char>>) -> RecErrorView {
    error_of(
        ErrorCode::ExtractionVerificationFailed,
        "extraction verification failed - missing directories: "@ + joined(missing, ", "@),
    )
}

/// What [`RecError::unsquashfs_not_installed`] gives.
pub open spec fn unsquashfs_not_installed_error() -> RecErrorView {
    error_of(
        ErrorCode::ToolNotInstalled,
        "unsquashfs not found in PATH (install squashfs-tools)"@,
    )
}

/// What [`RecError::not_root`] gives.
pub open spec fn not_root_error() -> RecErrorView {
    error_of(ErrorCode::NotRoot, "must run as root"@)
}

/// What [`RecError::target_not_empty`] gives for `path`.
pub open spec fn target_not_empty_error(path: Seq<char>) -> RecErrorView {
    error_of(
        ErrorCode::TargetNotEmpty,
        "target directory '"@ + path + "' is not empty (use --force to override)"@,
    )
}

/// What [`RecError::protected_path`] gives for `path`.
pub open spec fn protected_path_error(path: Seq<char>) -> RecErrorView {
    error_of(
        ErrorCode::ProtectedPath,
        "refusing to extract to protected system path '"@ + path
            + "' - use a mount point like /mnt"@,
    )
}

/// What [`RecError::not_mount_point`] gives for `path`.
pub open spec fn not_mount_point_error(path: Seq<char>) -> RecErrorView {
    error_of(
        ErrorCode::NotMountPoint,
        "'"@ + path
            + "' is not a mount point - did you forget to mount? (use --force to override)"@,
    )
}

/// What [`RecError::insufficient_space`] gives for the two amounts, in MiB.
pub open spec fn insufficient_space_error(required_mb: nat, available_mb: nat) -> RecErrorView {
    error_of(
        ErrorCode::InsufficientSpace,
        "insufficient disk space: need ~"@ + decimal(required_mb) + "MB, have "@ + decimal(
            available_mb,
        ) + "MB"@,
    )
}

/// What [`RecError::rootfs_not_file`] gives for `path`.
pub open spec fn rootfs_not_file_error(path: Seq<char>) -> RecErrorView {
    error_of(ErrorCode::RootfsNotFile, "'"@ + path + "' is not a regular file"@)
}

/// What [`RecError::rootfs_not_readable`] gives for `path`.
pub open spec fn rootfs_not_readable_error(path: Seq<char>) -> RecErrorView {
    error_of(
        ErrorCode::RootfsNotReadable,
        "cannot read rootfs '"@ + path + "' (permission denied?)"@,
    )
}

/// What [`RecError::rootfs_inside_target`] gives for the two paths.
pub open spec fn rootfs_inside_target_error(rootfs: Seq<char>, target: Seq<char>) -> RecErrorView {
    error_of(
        ErrorCode::RootfsInsideTarget,
        "rootfs '"@ + rootfs + "' is inside target '"@ + target
            + "' - this would cause recursive extraction"@,
    )
}

/// What [`RecError::invalid_rootfs_format`] gives for `path` and `detail`.
pub open spec fn invalid_rootfs_format_error(path: Seq<char>, detail: Seq<char>) -> RecErrorView {
    error_of(
        ErrorCode::InvalidRootfsFormat,
        "'"@ + path + "' is not a valid rootfs image: "@ + detail,
    )
}

/// What [`RecError::erofs_not_supported`] gives.
pub open spec fn erofs_not_supported_error() -> RecErrorView {
    error_of(
        ErrorCode::ErofsNotSupported,
        "EROFS filesystem not supported by kernel (try: modprobe erofs)"@,
    )
}

impl RecError {
    /// An error of kind `code` with the given message.
    pub fn new(code: ErrorCode, message: String) -> (r: RecError)
        ensures
            r@ == error_of(code, message@),
    {
        RecError { code, message }
    }

    /// The target path does not exist.
    pub fn target_not_found(path: &str) -> (r: RecError)
        ensures
            r@ == target_not_found_error(path@),
    {
        let mut m: String = String::from_str("target directory '");
        m.append(path);
        m.append("' does not exist");
        RecError::new(ErrorCode::TargetNotFound, m)
    }

    /// The target path exists but is no directory.
    pub fn not_a_directory(path: &str) -> (r: RecError)
        ensures
            r@ == not_a_directory_error(path@),
    {
        let mut m: String = String::from_str("'");
        m.append(path);
        m.append("' is not a directory");
        RecError::new(ErrorCode::NotADirectory, m)
    }

    /// The probe write into the target failed.
    pub fn not_writable(path: &str) -> (r: RecError)
        ensures
            r@ == not_writable_error(path@),
    {
        let mut m: String = String::from_str("target directory '");
        m.append(path);
        m.append("' is not writable (are you root?)");
        RecError::new(ErrorCode::NotWritable, m)
    }

    /// No image was found at any of the paths tried.
    pub fn rootfs_not_found(paths_tried: &[&str]) -> (r: RecError)
        ensures
            r@ == rootfs_not_found_error(views(paths_tried@)),
    {
        let mut m: String = String::from_str("rootfs not found (tried: ");
        let list: String = join(paths_tried, ", ");
        m.append(list.as_str());
        m.append("). Make sure you're running from the live ISO or specify --rootfs");
        RecError::new(ErrorCode::RootfsNotFound, m)
    }

    /// Earlier name of [`RecError::rootfs_not_found`].
    pub fn squashfs_not_found(paths_tried: &[&str]) -> (r: RecError)
        ensures
            r@ == rootfs_not_found_error(views(paths_tried@)),
    {
        RecError::rootfs_not_found(paths_tried)
    }

    /// Extraction failed; `detail` says how, and may be empty.
    pub fn extraction_failed(detail: &str) -> (r: RecError)
        ensures
            r@ == extraction_failed_error(detail@),
    {
        let mut m: String = String::from_str("extraction failed: ");
        if detail.is_empty() {
            m.append("unknown error (check dmesg for details)");
        } else {
            m.append(trim(detail));
        }
        RecError::new(ErrorCode::ExtractionFailed, m)
    }

    /// Earlier name of [`RecError::extraction_failed`].
    pub fn unsquashfs_failed(detail: &str) -> (r: RecError)
        ensures
            r@ == extraction_failed_error(detail@),
    {
        RecError::extraction_failed(detail)
    }

    /// The extracted tree lacks the directories named in `missing`.
    pub fn extraction_verification_failed(missing: &[&str]) -> (r: RecError)
        ensures
            r@ == extraction_verification_failed_error(views(missing@)),
    {
        let mut m: String = String::from_str(
            "extraction verification failed - missing directories: ",
        );
        let list: String = join(missing, ", ");
        m.append(list.as_str());
        RecError::new(ErrorCode::ExtractionVerificationFailed, m)
    }

    /// The squashfs extraction tool is not installed.
    pub fn unsquashfs_not_installed() -> (r: RecError)
        ensures
            r@ == unsquashfs_not_installed_error(),
    {
        RecError::new(
            ErrorCode::UnsquashfsNotInstalled,
            String::from_str("unsquashfs not found in PATH (install squashfs-tools)"),
        )
    }

    /// The caller lacks root privilege.
    pub fn not_root() -> (r: RecError)
        ensures
            r@ == not_root_error(),
    {
        RecError::new(ErrorCode::NotRoot, String::from_str("must run as root"))
    }

    /// The target holds entries other than the two that are ignored.
    pub fn target_not_empty(path: &str) -> (r: RecError)
        ensures
            r@ == target_not_empty_error(path@),
    {
        let mut m: String = String::from_str("target directory '");
        m.append(path);
        m.append("' is not empty (use --force to override)");
        RecError::new(ErrorCode::TargetNotEmpty, m)
    }

    /// The target is a protected system path.
    pub fn protected_path(path: &str) -> (r: RecError)
        ensures
            r@ == protected_path_error(path@),
    {
        let mut m: String = String::from_str("refusing to extract to protected system path '");
        m.append(path);
        m.append("' - use a mount point like /mnt");
        RecError::new(ErrorCode::ProtectedPath, m)
    }

    /// The target is not a mount point.
    pub fn not_mount_point(path: &str) -> (r: RecError)
        ensures
            r@ == not_mount_point_error(path@),
    {
        let mut m: String = String::from_str("'");
        m.append(path);
        m.append("' is not a mount point - did you forget to mount? (use --force to override)");
        RecError::new(ErrorCode::NotMountPoint, m)
    }

    /// The target filesystem has less free space than required, both in MiB.
    pub fn insufficient_space(required_mb: u64, available_mb: u64) -> (r: RecError)
        ensures
            r@ == insufficient_space_error(required_mb as nat, available_mb as nat),
    {
        let mut m: String = String::from_str("insufficient disk space: need ~");
        let required: String = decimal_string(required_mb);
        m.append(required.as_str());
        m.append("MB, have ");
        let available: String = decimal_string(available_mb);
        m.append(available.as_str());
        m.append("MB");
        RecError::new(ErrorCode::InsufficientSpace, m)
    }

    /// The image path is not a regular file.
    pub fn rootfs_not_file(path: &str) -> (r: RecError)
        ensures
            r@ == rootfs_not_file_error(path@),
    {
        let mut m: String = String::from_str("'");
        m.append(path);
        m.append("' is not a regular file");
        RecError::new(ErrorCode::RootfsNotFile, m)
    }

    /// Earlier name of [`RecError::rootfs_not_file`].
    pub fn squashfs_not_file(path: &str) -> (r: RecError)
        ensures
            r@ == rootfs_not_file_error(path@),
    {
        RecError::rootfs_not_file(path)
    }

    /// The image cannot be read.
    pub fn rootfs_not_readable(path: &str) -> (r: RecError)
        ensures
            r@ == rootfs_not_readable_error(path@),
    {
        let mut m: String = String::from_str("cannot read rootfs '");
        m.append(path);
        m.append("' (permission denied?)");
        RecError::new(ErrorCode::RootfsNotReadable, m)
    }

    /// Earlier name of [`RecError::rootfs_not_readable`].
    pub fn squashfs_not_readable(path: &str) -> (r: RecError)
        ensures
            r@ == rootfs_not_readable_error(path@),
    {
        RecError::rootfs_not_readable(path)
    }

    /// The image lies inside the target directory.
    pub fn rootfs_inside_target(rootfs: &str, target: &str) -> (r: RecError)
        ensures
            r@ == rootfs_inside_target_error(rootfs@, target@),
    {
        let mut m: String = String::from_str("rootfs '");
        m.append(rootfs);
        m.append("' is inside target '");
        m.append(target);
        m.append("' - this would cause recursive extraction");
        RecError::new(ErrorCode::RootfsInsideTarget, m)
    }

    /// Earlier name of [`RecError::rootfs_inside_target`].
    pub fn squashfs_inside_target(squashfs: &str, target: &str) -> (r: RecError)
        ensures
            r@ == rootfs_inside_target_error(squashfs@, target@),
    {
        RecError::rootfs_inside_target(squashfs, target)
    }

    /// The image has an unsupported format or the wrong signature.
    pub fn invalid_rootfs_format(path: &str, detail: &str) -> (r: RecError)
        ensures
            r@ == invalid_rootfs_format_error(path@, detail@),
    {
        let mut m: String = String::from_str("'");
        m.append(path);
        m.append("' is not a valid rootfs image: ");
        m.append(detail);
        RecError::new(ErrorCode::InvalidRootfsFormat, m)
    }

    /// The kernel cannot mount EROFS images.
    pub fn erofs_not_supported() -> (r: RecError)
        ensures
            r@ == erofs_not_supported_error(),
    {
        RecError::new(
            ErrorCode::ErofsNotSupported,
            String::from_str("EROFS filesystem not supported by kernel (try: modprobe erofs)"),
        )
    }

    /// The error as it is printed: the code, a colon and the message.
    pub fn to_string(&self) -> (r: String)
        ensures
            r@ == self.code.text() + ": "@ + self.message@,
    {
        let mut s: String = String::from_str(self.code.code());
        s.append(": ");
        s.append(self.message.as_str());
        s
    }
}

} // verus!
