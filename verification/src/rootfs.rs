//! Image formats, their signatures, the mount guard and the check of the
//! extracted tree.

use crate::constants::{EROFS_MAGIC, EROFS_MAGIC_OFFSET, ESSENTIAL_DIRS, SQUASHFS_MAGIC};
use crate::error::{extraction_verification_failed_error, RecError};
use crate::path::{
    extension, lemma_extension_of_suffixed, lemma_file_name_of_child, path_extension,
};
use crate::text::{
    decimal, decimal_string, hex, hex_string, join_strings, joined, str_equal, string_views, views,
};
use vstd::prelude::*;
use vstd::string::*;

verus! {

/// The format of a root filesystem image, as claimed by its file extension.
#[derive(Debug, Clone, Copy, PartialEq, Eq, Structural)]
pub enum RootfsType {
    Erofs,
    Squashfs,
}

/// The format that a file extension stands for.
pub open spec fn type_of_extension(ext: Option<Seq<char>>) -> Option<RootfsType> {
    match ext {
        Some(e) => if e == "erofs"@ {
            Some(RootfsType::Erofs)
        } else if e == "squashfs"@ {
            Some(RootfsType::Squashfs)
        } else {
            None
        },
        None => None,
    }
}

/// The format that the extension of `path` claims.
pub open spec fn rootfs_type_of(path: Seq<char>) -> Option<RootfsType> {
    type_of_extension(extension(path))
}

/// A file in a directory whose name is a stem followed by `.erofs` is an
/// EROFS image by name, and one whose name ends in `.squashfs` a squashfs
/// image.
pub proof fn lemma_named_images(dir: Seq<char>, stem: Seq<char>)
    requires
        dir.len() > 0,
        stem.len() > 0,
        !stem.contains('/'),
    ensures
        rootfs_type_of(dir + seq!['/'] + (stem + ".erofs"@)) == Some(RootfsType::Erofs),
        rootfs_type_of(dir + seq!['/'] + (stem + ".squashfs"@)) == Some(RootfsType::Squashfs),
{
    reveal_strlit(".erofs");
    reveal_strlit("erofs");
    reveal_strlit(".squashfs");
    reveal_strlit("squashfs");
    lemma_suffixed_name(dir, stem, "erofs"@);
    lemma_suffixed_name(dir, stem, "squashfs"@);
    assert(".erofs"@ =~= seq!['.'] + "erofs"@);
    assert(".squashfs"@ =~= seq!['.'] + "squashfs"@);
    assert(stem + ".erofs"@ =~= stem + seq!['.'] + "erofs"@);
    assert(stem + ".squashfs"@ =~= stem + seq!['.'] + "squashfs"@);
    assert("erofs"@ != "squashfs"@) by {
        assert("erofs"@.len() != "squashfs"@.len());
    }
}

proof fn lemma_suffixed_name(dir: Seq<char>, stem: Seq<char>, ext: Seq<char>)
    requires
        dir.len() > 0,
        stem.len() > 0,
        !stem.contains('/'),
        !ext.contains('/'),
        !ext.contains('.'),
        ext.len() > 0,
    ensures
        extension(dir + seq!['/'] + (stem + seq!['.'] + ext)) == Some(ext),
{
    let name = stem + seq!['.'] + ext;
    assert forall|i: int| 0 <= i < name.len() implies name[i] != '/' by {
        if i < stem.len() {
            assert(name[i] == stem[i]);
            assert(stem.contains(stem[i]));
        } else if i > stem.len() {
            assert(name[i] == ext[i - stem.len() - 1]);
            assert(ext.contains(ext[i - stem.len() - 1]));
        }
    }
    assert(!name.contains('/'));
    assert(name.len() >= 3);
    lemma_file_name_of_child(dir, name);
    lemma_extension_of_suffixed(stem, ext);
}

impl RootfsType {
    /// Byte offset at which an image of this format carries its signature.
    pub open spec fn magic_offset(self) -> nat {
        match self {
            RootfsType::Erofs => 1024,
            RootfsType::Squashfs => 0,
        }
    }

    /// The format that the extension of `path` claims: `.erofs` or
    /// `.squashfs`. Any other extension, or none, gives `None`.
    pub fn from_path(path: &str) -> (r: Option<RootfsType>)
        ensures
            r == rootfs_type_of(path@),
    {
        match path_extension(path) {
            Some(e) => {
                if str_equal(e, "erofs") {
                    Some(RootfsType::Erofs)
                } else if str_equal(e, "squashfs") {
                    Some(RootfsType::Squashfs)
                } else {
                    None
                }
            },
            None => None,
        }
    }

    /// Byte offset at which an image of this format carries its signature.
    pub fn signature_offset(&self) -> (r: usize)
        ensures
            r == self.magic_offset(),
    {
        match self {
            RootfsType::Erofs => EROFS_MAGIC_OFFSET,
            RootfsType::Squashfs => 0,
        }
    }

    /// How many leading bytes of an image are needed to check its signature.
    pub fn signature_end(&self) -> (r: usize)
        ensures
            r == self.magic_offset() + 4,
    {
        self.signature_offset() + 4
    }
}

/// Four bytes read as a little-endian 32-bit integer.
pub open spec fn le_u32(b: Seq<u8>) -> nat {
    (b[0] + 256 * b[1] + 65536 * b[2] + 16777216 * b[3]) as nat
}

/// The four signature bytes of an image of the given format, if the image
/// is long enough to hold them.
pub open spec fn signature_at(image: Seq<u8>, kind: RootfsType) -> Option<Seq<u8>> {
    let off = kind.magic_offset() as int;
    if image.len() >= off + 4 {
        Some(image.subrange(off, off + 4))
    } else {
        None
    }
}

/// Whether four signature bytes are those of the given format.
pub open spec fn signature_is(sig: Seq<u8>, kind: RootfsType) -> bool {
    match kind {
        RootfsType::Erofs => le_u32(sig) == EROFS_MAGIC,
        RootfsType::Squashfs => sig == SQUASHFS_MAGIC@,
    }
}

/// Whether `image` carries the signature of the given format.
pub open spec fn magic_matches(image: Seq<u8>, kind: RootfsType) -> bool {
    match signature_at(image, kind) {
        Some(sig) => signature_is(sig, kind),
        None => false,
    }
}

/// Bytes as a bracketed list of decimal numbers, such as `[104, 115]`.
pub open spec fn debug_bytes(b: Seq<u8>) -> Seq<char> {
    seq!['['] + joined(b.map_values(|x: u8| decimal(x as nat)), ", "@) + seq![']']
}

/// What is reported of an image without the signature of its format: the
/// observed and the expected value, or that the image is too short.
pub open spec fn magic_mismatch_detail(image: Seq<u8>, kind: RootfsType) -> Seq<char> {
    match signature_at(image, kind) {
        None => "failed to fill whole buffer"@,
        Some(sig) => match kind {
            RootfsType::Erofs => "not a valid EROFS image (magic: 0x"@ + hex(le_u32(sig), 8)
                + ", expected: 0x"@ + hex(EROFS_MAGIC as nat, 8) + ")"@,
            RootfsType::Squashfs => "not a valid squashfs image (magic: "@ + debug_bytes(sig)
                + ", expected: "@ + debug_bytes(SQUASHFS_MAGIC@) + ")"@,
        },
    }
}

fn debug_bytes_string(b: &[u8]) -> (r: String)
    ensures
        r@ == debug_bytes(b@),
{
    let ghost numbers = b@.map_values(|x: u8| decimal(x as nat));
    let mut items: Vec<String> = Vec::new();
    let mut i: usize = 0;
    while i < b.len()
        invariant
            i <= b.len(),
            numbers == b@.map_values(|x: u8| decimal(x as nat)),
            string_views(items@) == numbers.take(i as int),
        decreases b.len() - i,
    {
        let ghost before = items@;
        items.push(decimal_string(b[i] as u64));
        proof {
            assert(string_views(items@) =~= string_views(before).push(decimal(b@[i as int] as nat)));
            assert(numbers.take(i + 1) =~= numbers.take(i as int).push(numbers[i as int]));
        }
        i = i + 1;
    }
    proof {
        assert(numbers.take(b.len() as int) == numbers);
        reveal_strlit("[");
        reveal_strlit("]");
        assert("["@ =~= seq!['[']);
        assert("]"@ =~= seq![']']);
    }
    let mut out: String = String::from_str("[");
    let list: String = join_strings(&items, ", ");
    out.append(list.as_str());
    out.append("]");
    out
}

fn read_le_u32(b: &[u8]) -> (r: u32)
    requires
        b@.len() == 4,
    ensures
        r == le_u32(b@),
{
    let b0: u32 = b[0] as u32;
    let b1: u32 = b[1] as u32;
    let b2: u32 = b[2] as u32;
    let b3: u32 = b[3] as u32;
    b0 + 256 * b1 + 65536 * b2 + 16777216 * b3
}

fn is_squashfs_signature(sig: &[u8]) -> (r: bool)
    requires
        sig@.len() == 4,
    ensures
        r == (sig@ == SQUASHFS_MAGIC@),
{
    let r = sig[0] == SQUASHFS_MAGIC[0] && sig[1] == SQUASHFS_MAGIC[1] && sig[2]
        == SQUASHFS_MAGIC[2] && sig[3] == SQUASHFS_MAGIC[3];
    proof {
        if r {
            assert(sig@ =~= SQUASHFS_MAGIC@);
        }
    }
    r
}

/// Checks that `image`, the leading bytes of an image file, carries the
/// signature of the format `expected`: for EROFS the 32-bit little-endian
/// magic at byte offset 1024, for squashfs the bytes `hsqs` at offset 0.
/// The error names the observed and the expected value.
pub fn validate_rootfs_magic(image: &[u8], expected: RootfsType) -> (r: Result<(), String>)
    ensures
        match r {
            Ok(_) => magic_matches(image@, expected),
            Err(detail) => !magic_matches(image@, expected) && detail@ == magic_mismatch_detail(
                image@,
                expected,
            ),
        },
{
    let off: usize = expected.signature_offset();
    if image.len() < off + 4 {
        return Err(String::from_str("failed to fill whole buffer"));
    }
    let sig: &[u8] = vstd::slice::slice_subrange(image, off, off + 4);
    match expected {
        RootfsType::Erofs => {
            let magic: u32 = read_le_u32(sig);
            if magic == EROFS_MAGIC {
                Ok(())
            } else {
                let mut m: String = String::from_str("not a valid EROFS image (magic: 0x");
                let seen: String = hex_string(magic, 8);
                m.append(seen.as_str());
                m.append(", expected: 0x");
                let wanted: String = hex_string(EROFS_MAGIC, 8);
                m.append(wanted.as_str());
                m.append(")");
                Err(m)
            }
        },
        RootfsType::Squashfs => {
            if is_squashfs_signature(sig) {
                Ok(())
            } else {
                let mut m: String = String::from_str("not a valid squashfs image (magic: ");
                let seen: String = debug_bytes_string(sig);
                m.append(seen.as_str());
                m.append(", expected: ");
                let wanted: String = debug_bytes_string(SQUASHFS_MAGIC.as_slice());
                m.append(wanted.as_str());
                m.append(")");
                Err(m)
            }
        },
    }
}

/// One step of giving a temporary mount back.
#[derive(Debug, Clone, Copy, PartialEq, Eq, Structural)]
pub enum CleanupStep {
    /// Unmount the image from the mount directory.
    Unmount,
    /// Remove the mount directory.
    RemoveDir,
}

/// The steps that give a temporary mount back: the unmount only when the
/// mount had succeeded, the removal of the directory always.
pub open spec fn cleanup_plan(mounted: bool) -> Seq<CleanupStep> {
    if mounted {
        seq![CleanupStep::Unmount, CleanupStep::RemoveDir]
    } else {
        seq![CleanupStep::RemoveDir]
    }
}

/// Keeps track of a temporary mount directory and of whether an image is
/// mounted on it, so that every way out of an extraction gives back
/// exactly what was taken.
#[derive(Debug)]
pub struct MountGuard {
    pub mount_point: String,
    pub mounted: bool,
}

impl MountGuard {
    /// A guard for a mount directory that was just created; nothing is
    /// mounted on it yet.
    pub fn new(mount_point: String) -> (r: MountGuard)
        ensures
            r.mount_point@ == mount_point@,
            !r.mounted,
    {
        MountGuard { mount_point, mounted: false }
    }

    /// Records that the mount succeeded.
    pub fn set_mounted(&mut self)
        ensures
            final(self).mounted,
            final(self).mount_point == old(self).mount_point,
    {
        self.mounted = true;
    }

    /// The steps to take when the guard is let go, in order.
    pub fn cleanup_steps(&self) -> (r: Vec<CleanupStep>)
        ensures
            r@ == cleanup_plan(self.mounted),
    {
        let mut steps: Vec<CleanupStep> = Vec::new();
        if self.mounted {
            steps.push(CleanupStep::Unmount);
        }
        steps.push(CleanupStep::RemoveDir);
        proof {
            assert(steps@ =~= cleanup_plan(self.mounted));
        }
        steps
    }
}

/// The name of essential directory number `i`.
pub open spec fn essential_name(i: int) -> Seq<char> {
    ESSENTIAL_DIRS[i]@
}

/// Whether essential directory number `i` was found; an absent flag counts
/// as not found.
pub open spec fn dir_present(is_dir: Seq<bool>, i: int) -> bool {
    0 <= i < is_dir.len() && is_dir[i]
}

/// The names of the first `n` essential directories that were not found,
/// in table order.
pub open spec fn missing_among(is_dir: Seq<bool>, n: nat) -> Seq<Seq<char>>
    decreases n,
{
    if n == 0 {
        Seq::empty()
    } else if dir_present(is_dir, n - 1) {
        missing_among(is_dir, (n - 1) as nat)
    } else {
        missing_among(is_dir, (n - 1) as nat).push(essential_name(n - 1))
    }
}

/// The names of all essential directories that were not found.
pub open spec fn missing_dirs(is_dir: Seq<bool>) -> Seq<Seq<char>> {
    missing_among(is_dir, 6)
}

/// Whether `name` is that of one of the first `n` essential directories
/// and that directory was not found.
pub open spec fn names_absent_dir(is_dir: Seq<bool>, n: nat, name: Seq<char>) -> bool {
    exists|i: int| 0 <= i < n && !dir_present(is_dir, i) && #[trigger] essential_name(i) == name
}

/// Every essential directory that was not found is among the missing
/// ones, and each missing name is that of an essential directory that was
/// not found: the report is complete and holds nothing else.
pub proof fn lemma_missing_dirs_complete(is_dir: Seq<bool>, n: nat)
    requires
        n <= 6,
    ensures
        forall|i: int|
            0 <= i < n && !dir_present(is_dir, i) ==> missing_among(is_dir, n).contains(
                #[trigger] essential_name(i),
            ),
        forall|k: int|
            0 <= k < missing_among(is_dir, n).len() ==> names_absent_dir(
                is_dir,
                n,
                #[trigger] missing_among(is_dir, n)[k],
            ),
        (missing_among(is_dir, n).len() == 0) <==> (forall|i: int|
            0 <= i < n ==> #[trigger] dir_present(is_dir, i)),
    decreases n,
{
    if n > 0 {
        let m = (n - 1) as nat;
        lemma_missing_dirs_complete(is_dir, m);
        let prev = missing_among(is_dir, m);
        let cur = missing_among(is_dir, n);
        assert forall|i: int| 0 <= i < n && !dir_present(is_dir, i) implies cur.contains(
            #[trigger] essential_name(i),
        ) by {
            if i < m {
                let k = choose|k: int| 0 <= k < prev.len() && prev[k] == essential_name(i);
                assert(cur[k] == essential_name(i));
            } else {
                assert(cur[cur.len() - 1] == essential_name(i));
            }
        }
        assert forall|k: int| 0 <= k < cur.len() implies names_absent_dir(
            is_dir,
            n,
            #[trigger] cur[k],
        ) by {
            if k < prev.len() {
                assert(names_absent_dir(is_dir, m, prev[k]));
                let i = choose|i: int|
                    0 <= i < m && !dir_present(is_dir, i) && #[trigger] essential_name(i)
                        == prev[k];
                assert(essential_name(i) == cur[k]);
            } else {
                assert(essential_name(m as int) == cur[k]);
            }
        }
        if cur.len() == 0 {
            assert(dir_present(is_dir, m as int));
        }
    }
}

/// Checks the extracted tree. `is_dir[i]` says whether essential directory
/// number `i` exists under the target as a directory. All missing names are
/// reported in one error, in table order.
pub fn verify_extraction(is_dir: &[bool]) -> (r: Result<(), RecError>)
    ensures
        match r {
            Ok(_) => missing_dirs(is_dir@).len() == 0,
            Err(e) => missing_dirs(is_dir@).len() > 0 && e@
                == extraction_verification_failed_error(missing_dirs(is_dir@)),
        },
{
    let mut missing: Vec<&'static str> = Vec::new();
    let mut i: usize = 0;
    while i < 6
        invariant
            i <= 6,
            views(missing@) == missing_among(is_dir@, i as nat),
        decreases 6 - i,
    {
        if !(i < is_dir.len() && is_dir[i]) {
            let ghost before = missing@;
            missing.push(ESSENTIAL_DIRS[i]);
            proof {
                assert(views(missing@) =~= views(before).push(
                    essential_name(i as int),
                ));
            }
        }
        i = i + 1;
    }
    if missing.len() == 0 {
        Ok(())
    } else {
        Err(RecError::extraction_verification_failed(missing.as_slice()))
    }
}

} // verus!
