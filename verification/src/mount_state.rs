//! Classification of mount-table observations: whether a path is
//! currently backed by a live FUSE-type mount.
//!
//! The caller queries the mount-table entry backing the path (a statfs
//! call) and passes the outcome in as a plain value. A failed query is
//! classified as "not mounted", never as an error: an inaccessible path
//! is indistinguishable from an unmounted one.

use vstd::prelude::*;

verus! {

/// Magic number identifying a FUSE-backed filesystem on a typical Unix
/// mount table.
pub const FUSE_SUPER_MAGIC: u64 = 0x65735546;

/// What the caller observed when querying the mount-table entry backing
/// a path: the query failed, or it returned the filesystem's type magic
/// number (typical Unix mount tables), or its type name (platforms with
/// a FUSE emulation layer).
pub enum FsObservation {
    Inaccessible,
    TypeMagic(u64),
    TypeName(String),
}

/// The accepted FUSE-backed filesystem tags: one magic number on typical
/// Unix mount tables, a small set of names under a FUSE emulation layer.
/// A failed query never counts as mounted.
pub open spec fn observation_mounted(obs: FsObservation) -> bool {
    match obs {
        FsObservation::Inaccessible => false,
        FsObservation::TypeMagic(m) => m == FUSE_SUPER_MAGIC,
        FsObservation::TypeName(n) => n@ == "osxfuse"@ || n@ == "osxfusefs"@,
    }
}

/// Exact character-wise string comparison.
pub fn str_eq(a: &str, b: &str) -> (r: bool)
    ensures
        r == (a@ == b@),
{
    let la = a.unicode_len();
    let lb = b.unicode_len();
    if la != lb {
        return false;
    }
    let mut i: usize = 0;
    while i < la
        invariant
            la == a@.len(),
            la == b@.len(),
            0 <= i <= la,
            forall|j: int| 0 <= j < i ==> a@[j] == b@[j],
        decreases la - i,
    {
        if a.get_char(i) != b.get_char(i) {
            return false;
        }
        i = i + 1;
    }
    proof {
        assert(a@ =~= b@);
    }
    true
}

/// Whether an observation shows a live FUSE-type mount backing the path.
/// Total: a failed query returns `false`, nothing is ever raised.
pub fn is_mounted(obs: &FsObservation) -> (b: bool)
    ensures
        b == observation_mounted(*obs),
{
    match obs {
        FsObservation::Inaccessible => false,
        FsObservation::TypeMagic(m) => *m == FUSE_SUPER_MAGIC,
        FsObservation::TypeName(n) => {
            str_eq(n.as_str(), "osxfuse") || str_eq(n.as_str(), "osxfusefs")
        },
    }
}

} // verus!
