//! The single checks of the pre-flight validation, each a function of what
//! was observed of the system.

use crate::constants::{
    LOST_AND_FOUND, MIN_REQUIRED_BYTES, PROTECTED_PATHS, ROOTFS_SEARCH_PATHS, WRITE_PROBE_NAME,
};
use crate::path::{
    components, lemma_child_is_inside, path_starts_with, paths_equal, same_path, starts_with,
};
use crate::text::{contains, str_contains, str_equal, string_views};
use vstd::prelude::*;

verus! {

/// Whether the effective user id is that of root.
pub fn is_root(euid: u32) -> (r: bool)
    ensures
        r == (euid == 0),
{
    euid == 0
}

/// Protected path number `k`.
pub open spec fn protected_path_at(k: int) -> Seq<char> {
    PROTECTED_PATHS[k]@
}

/// Whether `path` names protected path number `k`.
pub open spec fn names_protected(path: Seq<char>, k: int) -> bool {
    0 <= k < 18 && same_path(path, protected_path_at(k))
}

/// Whether `path` names one of the protected system paths.
pub open spec fn is_protected(path: Seq<char>) -> bool {
    exists|k: int| names_protected(path, k)
}

/// Whether `path` names one of the protected system paths. Paths are
/// compared by their components, so `/usr/` and `/usr/.` are protected as
/// `/usr` is. The path given here is to be canonical already: symbolic
/// links are not followed.
pub fn is_protected_path(path: &str) -> (r: bool)
    ensures
        r == is_protected(path@),
{
    let mut k: usize = 0;
    while k < 18
        invariant
            k <= 18,
            forall|j: int| 0 <= j < k ==> !names_protected(path@, j),
        decreases 18 - k,
    {
        if paths_equal(path, PROTECTED_PATHS[k]) {
            proof {
                assert(names_protected(path@, k as int));
            }
            return true;
        }
        k = k + 1;
    }
    false
}

/// Every path of the protected table is protected.
pub proof fn lemma_table_is_protected(k: int)
    requires
        0 <= k < 18,
    ensures
        is_protected(protected_path_at(k)),
{
    assert(names_protected(protected_path_at(k), k));
}

/// The root directory is protected.
pub proof fn lemma_root_is_protected()
    ensures
        is_protected(seq!['/']),
{
    reveal_strlit("/");
    assert(protected_path_at(0) =~= seq!['/']);
    assert(names_protected(seq!['/'], 0));
}

/// Two paths with the same components are protected alike: protection
/// goes by components, not by spelling.
pub proof fn lemma_protection_by_components(a: Seq<char>, b: Seq<char>)
    requires
        same_path(a, b),
    ensures
        is_protected(a) == is_protected(b),
{
    if is_protected(a) {
        let k = choose|k: int| names_protected(a, k);
        assert(names_protected(b, k));
    }
    if is_protected(b) {
        let k = choose|k: int| names_protected(b, k);
        assert(names_protected(a, k));
    }
}

/// Whether the image lies at or below the target directory, component by
/// component. Both paths are to be canonical.
pub fn is_rootfs_inside_target(rootfs: &str, target: &str) -> (r: bool)
    ensures
        r == path_starts_with(rootfs@, target@),
{
    starts_with(rootfs, target)
}

/// An image anywhere below the target is inside it: whatever is written
/// behind the target and a separator is refused.
pub proof fn lemma_below_target_is_inside(target: Seq<char>, rest: Seq<char>)
    requires
        target.len() > 0,
    ensures
        path_starts_with(target + seq!['/'] + rest, target),
        path_starts_with(target, target),
{
    lemma_child_is_inside(target, rest);
    assert(components(target) =~= components(target).subrange(
        0,
        components(target).len() as int,
    ));
}

/// Search path number `i`.
pub open spec fn search_path_at(i: int) -> Seq<char> {
    ROOTFS_SEARCH_PATHS[i]@
}

/// Whether search path number `i` was seen to exist; an absent flag counts
/// as not seen.
pub open spec fn search_hit(exists: Seq<bool>, i: int) -> bool {
    0 <= i < exists.len() && exists[i]
}

/// The least index below `n` of a search path that exists.
pub open spec fn first_hit(exists: Seq<bool>, n: nat) -> Option<int>
    decreases n,
{
    if n == 0 {
        None
    } else {
        match first_hit(exists, (n - 1) as nat) {
            Some(i) => Some(i),
            None => if search_hit(exists, n - 1) {
                Some(n - 1)
            } else {
                None
            },
        }
    }
}

/// The first search path that exists.
pub open spec fn found_rootfs(exists: Seq<bool>) -> Option<Seq<char>> {
    match first_hit(exists, 8) {
        Some(i) => Some(search_path_at(i)),
        None => None,
    }
}

/// `first_hit` is the least index that hits, and `None` only when none does.
pub proof fn lemma_first_hit(exists: Seq<bool>, n: nat)
    ensures
        match first_hit(exists, n) {
            Some(i) => 0 <= i < n && search_hit(exists, i) && forall|j: int|
                0 <= j < i ==> !search_hit(exists, j),
            None => forall|j: int| 0 <= j < n ==> !search_hit(exists, j),
        },
    decreases n,
{
    if n > 0 {
        lemma_first_hit(exists, (n - 1) as nat);
    }
}

/// Picks the image from the well-known locations: the first of them that
/// exists, EROFS locations before squashfs ones. `exists[i]` says whether
/// search path number `i` exists.
pub fn find_rootfs(exists: &[bool]) -> (r: Option<&'static str>)
    ensures
        match r {
            Some(p) => found_rootfs(exists@) == Some(p@),
            None => found_rootfs(exists@).is_none(),
        },
{
    let mut i: usize = 0;
    while i < 8
        invariant
            i <= 8,
            first_hit(exists@, i as nat).is_none(),
        decreases 8 - i,
    {
        if i < exists.len() && exists[i] {
            proof {
                assert(first_hit(exists@, (i + 1) as nat) == Some(i as int));
                lemma_first_hit_stable(exists@, (i + 1) as nat, 8);
            }
            return Some(ROOTFS_SEARCH_PATHS[i]);
        }
        i = i + 1;
    }
    None
}

proof fn lemma_first_hit_stable(exists: Seq<bool>, n: nat, m: nat)
    requires
        n <= m,
        first_hit(exists, n).is_some(),
    ensures
        first_hit(exists, m) == first_hit(exists, n),
    decreases m,
{
    if n < m {
        lemma_first_hit_stable(exists, n, (m - 1) as nat);
    }
}

/// Whether a directory entry is ignored when the target is tested for
/// emptiness: the `lost+found` directory of a fresh filesystem, and the
/// sentinel file of an interrupted write probe.
pub open spec fn ignorable_entry(name: Seq<char>) -> bool {
    name == LOST_AND_FOUND@ || name == WRITE_PROBE_NAME@
}

/// Whether a directory with these entries counts as empty.
pub open spec fn dir_is_empty(entries: Seq<Seq<char>>) -> bool {
    forall|i: int| 0 <= i < entries.len() ==> ignorable_entry(#[trigger] entries[i])
}

/// Whether a directory with the entries `entries` counts as empty: it
/// holds nothing but the two ignored entries.
pub fn is_dir_empty(entries: &Vec<String>) -> (r: bool)
    ensures
        r == dir_is_empty(string_views(entries@)),
{
    let mut i: usize = 0;
    while i < entries.len()
        invariant
            i <= entries.len(),
            forall|j: int| 0 <= j < i ==> ignorable_entry(#[trigger] string_views(entries@)[j]),
        decreases entries.len() - i,
    {
        let name: &str = entries[i].as_str();
        if !str_equal(name, LOST_AND_FOUND) && !str_equal(name, WRITE_PROBE_NAME) {
            proof {
                assert(!ignorable_entry(string_views(entries@)[i as int]));
            }
            return false;
        }
        i = i + 1;
    }
    true
}

/// A directory that holds an entry which is not ignored is not empty,
/// whatever else it holds.
pub proof fn lemma_other_entry_not_empty(entries: Seq<Seq<char>>, i: int)
    requires
        0 <= i < entries.len(),
        !ignorable_entry(entries[i]),
    ensures
        !dir_is_empty(entries),
{
}

/// A directory that holds only the two ignored entries, in any number
/// and order, is empty.
pub proof fn lemma_ignored_entries_empty(entries: Seq<Seq<char>>)
    requires
        forall|i: int|
            0 <= i < entries.len() ==> #[trigger] entries[i] == LOST_AND_FOUND@ || entries[i]
                == WRITE_PROBE_NAME@,
    ensures
        dir_is_empty(entries),
{
}

/// The device identifiers of a directory and of its parent directory;
/// `parent` is `None` for the root directory, which has no parent.
#[derive(Debug, Clone, Copy, PartialEq, Eq)]
pub struct DeviceIds {
    pub own: u64,
    pub parent: Option<u64>,
}

/// Whether a directory is a mount point: it lies on another device than
/// its parent. The root directory always is one.
pub open spec fn mount_point(ids: DeviceIds) -> bool {
    match ids.parent {
        Some(p) => ids.own != p,
        None => true,
    }
}

/// Whether the directory with these device identifiers is a mount point.
pub fn is_mount_point(ids: &DeviceIds) -> (r: bool)
    ensures
        r == mount_point(*ids),
{
    match ids.parent {
        Some(p) => ids.own != p,
        None => true,
    }
}

/// Free space in bytes: blocks available times fragment size, or the
/// largest `u64` when the product exceeds it.
pub open spec fn free_bytes(blocks: u64, fragment: u64) -> u64 {
    if blocks * fragment > u64::MAX {
        u64::MAX
    } else {
        (blocks * fragment) as u64
    }
}

/// The space available on a filesystem, from the number of blocks
/// available and the fragment size that a filesystem query reports.
pub fn available_space(blocks: u64, fragment: u64) -> (r: u64)
    ensures
        r == free_bytes(blocks, fragment),
{
    match blocks.checked_mul(fragment) {
        Some(bytes) => bytes,
        None => u64::MAX,
    }
}

/// Whether `available` bytes are enough for an extraction.
pub fn has_enough_space(available: u64) -> (r: bool)
    ensures
        r == (available >= MIN_REQUIRED_BYTES),
{
    available >= MIN_REQUIRED_BYTES
}

/// Whether the kernel's list of filesystems names EROFS. `filesystems` is
/// the text of that list, one filesystem per line.
pub fn erofs_supported(filesystems: &str) -> (r: bool)
    ensures
        r == contains(filesystems@, "erofs"@),
{
    str_contains(filesystems, "erofs")
}

} // verus!
