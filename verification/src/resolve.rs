//! Mount path resolution: mapping (header, namespace identity, effective
//! uid, seed) to the canonical mount directory
//! `<root>/uid-<euid>/<uuid>[-seed-<s>][-ns-<n>]`.
//!
//! Resolution is pure: the caller stats the candidate roots and the
//! namespace handle and passes the observed permission bits and inode in
//! as plain values, so two processes that observe the same inputs compute
//! the identical path.

use vstd::prelude::*;

use crate::decimal::dec_digits;
use crate::decimal::push_u64_decimal;
use crate::errors::XarError;
use crate::header::XarHeader;

verus! {

/// A mount-root candidate as the caller observed it: the directory path
/// and its permission bits, or `None` where it could not be statted.
pub struct RootCandidate {
    pub path: String,
    pub mode: Option<u32>,
}

/// A mount root is accepted only when its permission bits are exactly
/// 01777 (sticky + world-writable), a defense against mount-point
/// hijacking; looser and stricter modes are both rejected.
pub open spec fn mode_acceptable(mode: u32) -> bool {
    mode & 0o7777 == 0o1777
}

/// Whether a statted candidate root is usable.
pub open spec fn candidate_acceptable(c: RootCandidate) -> bool {
    c.mode matches Some(m) && mode_acceptable(m)
}

/// The first acceptable candidate at or after index `i`, if any.
pub open spec fn default_root_choice_from(ds: Seq<RootCandidate>, i: int) -> Option<Seq<char>>
    decreases ds.len() - i,
{
    if i < 0 || i >= ds.len() {
        None
    } else if candidate_acceptable(ds[i]) {
        Some(ds[i].path@)
    } else {
        default_root_choice_from(ds, i + 1)
    }
}

/// The first candidate of the ordered default list whose mode is exactly
/// 01777, if any.
pub open spec fn default_root_choice(ds: Seq<RootCandidate>) -> Option<Seq<char>> {
    default_root_choice_from(ds, 0)
}

/// The root the resolver settles on: the explicit override when the
/// header names one (accepted only with mode exactly 01777), else the
/// first acceptable default candidate.
pub open spec fn resolved_root(
    mount_root: Option<String>,
    override_mode: Option<u32>,
    defaults: Seq<RootCandidate>,
) -> Option<Seq<char>> {
    match mount_root {
        Some(root) => if override_mode matches Some(m) && mode_acceptable(m) {
            Some(root@)
        } else {
            None
        },
        None => default_root_choice(defaults),
    }
}

/// The fixed ordered list of system default mount roots, scanned in
/// order when the header names no override.
pub fn default_root_paths() -> (r: Vec<String>)
    ensures
        r@.len() == 2,
        r@[0]@ == "/mnt/xarfuse"@,
        r@[1]@ == "/dev/shm"@,
{
    let mut v: Vec<String> = Vec::new();
    v.push(String::from_str("/mnt/xarfuse"));
    v.push(String::from_str("/dev/shm"));
    v
}

/// Exact permission-bit test for a mount root.
pub fn mode_is_acceptable(mode: u32) -> (b: bool)
    ensures
        b == mode_acceptable(mode),
{
    mode & 0o7777 == 0o1777
}

/// Chooses the mount root. `mount_root` is the header's override;
/// `override_mode` is the caller's stat of it (meaningful only when the
/// override is present, `None` when it could not be statted); `defaults`
/// is the fixed ordered list of system default roots with their observed
/// modes. Fails with `XarError::Configuration` when no root qualifies.
pub fn find_mount_root(
    mount_root: &Option<String>,
    override_mode: &Option<u32>,
    defaults: &Vec<RootCandidate>,
) -> (r: Result<String, XarError>)
    ensures
        match resolved_root(*mount_root, *override_mode, defaults@) {
            Some(p) => r matches Ok(s) && s@ == p,
            None => r matches Err(e) && e == XarError::Configuration,
        },
{
    match mount_root {
        Some(root) => {
            match override_mode {
                Some(m) => {
                    if mode_is_acceptable(*m) {
                        Ok(root.clone())
                    } else {
                        Err(XarError::Configuration)
                    }
                },
                None => Err(XarError::Configuration),
            }
        },
        None => {
            let n = defaults.len();
            let mut i: usize = 0;
            while i < n
                invariant
                    *mount_root is None,
                    n == defaults@.len(),
                    0 <= i <= n,
                    default_root_choice(defaults@) == default_root_choice_from(defaults@, i as int),
                decreases n - i,
            {
                let c = &defaults[i];
                match c.mode {
                    Some(m) => {
                        if mode_is_acceptable(m) {
                            proof {
                                assert(candidate_acceptable(defaults@[i as int]));
                                assert(default_root_choice_from(defaults@, i as int)
                                    == Some(defaults@[i as int].path@));
                            }
                            return Ok(c.path.clone());
                        }
                    },
                    None => {},
                }
                proof {
                    assert(!candidate_acceptable(defaults@[i as int]));
                }
                i = i + 1;
            }
            Err(XarError::Configuration)
        },
    }
}

/// `uid-{euid}`: the per-user directory name under the mount root.
pub open spec fn user_basedir_spec(euid: nat) -> Seq<char> {
    "uid-"@ + dec_digits(euid)
}

/// The name of the per-user directory for `euid`.
pub fn get_user_basedir(euid: u64) -> (r: String)
    ensures
        r@ == user_basedir_spec(euid as nat),
{
    let mut out = String::from_str("uid-");
    push_u64_decimal(&mut out, euid);
    out
}

/// An environment seed takes part in the mount directory name only when
/// it is non-empty and free of path separators; anything else is silently
/// treated as absent, so a malicious seed cannot traverse paths.
pub open spec fn seed_usable(s: Seq<char>) -> bool {
    s.len() > 0 && !s.contains('/')
}

/// Exact test for `seed_usable`.
pub fn seed_is_usable(seed: &str) -> (b: bool)
    ensures
        b == seed_usable(seed@),
{
    let len = seed.unicode_len();
    if len == 0 {
        return false;
    }
    let mut i: usize = 0;
    while i < len
        invariant
            len == seed@.len(),
            0 <= i <= len,
            forall|j: int| 0 <= j < i ==> seed@[j] != '/',
        decreases len - i,
    {
        if seed.get_char(i) == '/' {
            proof {
                assert(seed@.contains('/')) by {
                    assert(seed@[i as int] == '/');
                }
            }
            return false;
        }
        i = i + 1;
    }
    proof {
        assert(!seed@.contains('/'));
    }
    true
}

/// The optional `-seed-{seed}` and `-ns-{inode}` parts appended to the
/// archive uuid to form the mount directory name.
pub open spec fn dir_suffix_spec(seed: Option<Seq<char>>, ns_inode: Option<nat>) -> Seq<char> {
    (match seed {
        Some(s) => if seed_usable(s) {
            "-seed-"@ + s
        } else {
            Seq::<char>::empty()
        },
        None => Seq::<char>::empty(),
    }) + (match ns_inode {
        Some(n) => "-ns-"@ + dec_digits(n),
        None => Seq::<char>::empty(),
    })
}

/// `{uuid}[-seed-{seed}][-ns-{inode}]`: the mount directory name.
pub open spec fn mount_dir_spec(uuid: Seq<char>, seed: Option<Seq<char>>, ns_inode: Option<nat>) -> Seq<
    char,
> {
    uuid + dir_suffix_spec(seed, ns_inode)
}

pub open spec fn opt_string_view(s: Option<String>) -> Option<Seq<char>> {
    match s {
        Some(x) => Some(x@),
        None => None,
    }
}

pub open spec fn opt_u64_view(n: Option<u64>) -> Option<nat> {
    match n {
        Some(x) => Some(x as nat),
        None => None,
    }
}

/// Builds the mount directory name from the archive uuid, the optional
/// environment seed, and the optional mount-namespace inode. A missing
/// namespace handle is non-fatal: its suffix is simply omitted.
pub fn get_mount_dir(uuid: &str, seed: &Option<String>, ns_inode: &Option<u64>) -> (r: String)
    ensures
        r@ == mount_dir_spec(uuid@, opt_string_view(*seed), opt_u64_view(*ns_inode)),
{
    let mut dir = uuid.to_owned();
    match seed {
        Some(s) => {
            if seed_is_usable(s.as_str()) {
                dir.append("-seed-");
                dir.append(s.as_str());
            }
        },
        None => {},
    }
    match ns_inode {
        Some(n) => {
            dir.append("-ns-");
            push_u64_decimal(&mut dir, *n);
        },
        None => {},
    }
    proof {
        assert(dir@ =~= mount_dir_spec(uuid@, opt_string_view(*seed), opt_u64_view(*ns_inode)));
    }
    dir
}

/// A resolved mount path, kept as its three components so that the mount
/// directory, its parent user directory and the sibling lockfile can each
/// be rendered exactly.
pub struct MountPath {
    pub root: String,
    pub user_dir: String,
    pub base_name: String,
}

impl MountPath {
    /// `<root>/<user_dir>/<base_name>`: the mount directory itself.
    pub open spec fn full_path_spec(self) -> Seq<char> {
        self.root@ + "/"@ + self.user_dir@ + "/"@ + self.base_name@
    }

    /// `<root>/<user_dir>`: the parent directory owned by the caller's uid.
    pub open spec fn user_dir_path_spec(self) -> Seq<char> {
        self.root@ + "/"@ + self.user_dir@
    }

    /// `<root>/<user_dir>/lockfile.<base_name>`: the sibling heartbeat
    /// lockfile for this mount directory.
    pub open spec fn lockfile_path_spec(self) -> Seq<char> {
        self.root@ + "/"@ + self.user_dir@ + "/lockfile."@ + self.base_name@
    }

    pub fn full_path(&self) -> (r: String)
        ensures
            r@ == self.full_path_spec(),
    {
        let mut out = self.root.clone();
        out.append("/");
        out.append(self.user_dir.as_str());
        out.append("/");
        out.append(self.base_name.as_str());
        proof {
            assert(out@ =~= self.full_path_spec());
        }
        out
    }

    pub fn user_dir_path(&self) -> (r: String)
        ensures
            r@ == self.user_dir_path_spec(),
    {
        let mut out = self.root.clone();
        out.append("/");
        out.append(self.user_dir.as_str());
        proof {
            assert(out@ =~= self.user_dir_path_spec());
        }
        out
    }

    pub fn lockfile_path(&self) -> (r: String)
        ensures
            r@ == self.lockfile_path_spec(),
    {
        let mut out = self.root.clone();
        out.append("/");
        out.append(self.user_dir.as_str());
        out.append("/lockfile.");
        out.append(self.base_name.as_str());
        proof {
            assert(out@ =~= self.lockfile_path_spec());
        }
        out
    }
}

/// Maps (header, effective uid, seed, namespace inode) and the observed
/// root candidates to the canonical mount path, or fails with
/// `XarError::Configuration` when no root with mode exactly 01777 is
/// available.
pub fn resolve_mount_path(
    header: &XarHeader,
    override_mode: &Option<u32>,
    defaults: &Vec<RootCandidate>,
    euid: u64,
    seed: &Option<String>,
    ns_inode: &Option<u64>,
) -> (r: Result<MountPath, XarError>)
    ensures
        match resolved_root(header.mount_root, *override_mode, defaults@) {
            Some(rootp) => r matches Ok(p) && p.root@ == rootp && p.user_dir@
                == user_basedir_spec(euid as nat) && p.base_name@ == mount_dir_spec(
                header.uuid@,
                opt_string_view(*seed),
                opt_u64_view(*ns_inode),
            ),
            None => r matches Err(e) && e == XarError::Configuration,
        },
{
    let root = match find_mount_root(&header.mount_root, override_mode, defaults) {
        Ok(root) => root,
        Err(e) => {
            return Err(e);
        },
    };
    let user_dir = get_user_basedir(euid);
    let base_name = get_mount_dir(header.uuid.as_str(), seed, ns_inode);
    Ok(MountPath { root, user_dir, base_name })
}

proof fn lemma_default_choice_of_views(d1: Seq<RootCandidate>, d2: Seq<RootCandidate>, i: int)
    requires
        d1.len() == d2.len(),
        forall|j: int|
            0 <= j < d1.len() ==> (#[trigger] d1[j]).path@ == d2[j].path@ && d1[j].mode == d2[j].mode,
    ensures
        default_root_choice_from(d1, i) == default_root_choice_from(d2, i),
    decreases d1.len() - i,
{
    if 0 <= i < d1.len() {
        assert(d1[i].path@ == d2[i].path@ && d1[i].mode == d2[i].mode);
        assert(candidate_acceptable(d1[i]) == candidate_acceptable(d2[i]));
        if !candidate_acceptable(d1[i]) {
            lemma_default_choice_of_views(d1, d2, i + 1);
        }
    }
}

/// Determinism: identical (uuid, namespace id, uid, seed) inputs — and
/// the same observed mount-root candidates — always resolve to the
/// identical root, user directory and mount directory name. Stated over
/// views, so two independent invocations whose observations agree
/// textually converge on exactly one path.
pub proof fn lemma_resolution_deterministic(
    mr1: Option<String>,
    om1: Option<u32>,
    d1: Seq<RootCandidate>,
    uuid1: Seq<char>,
    euid1: nat,
    seed1: Option<Seq<char>>,
    ns1: Option<nat>,
    mr2: Option<String>,
    om2: Option<u32>,
    d2: Seq<RootCandidate>,
    uuid2: Seq<char>,
    euid2: nat,
    seed2: Option<Seq<char>>,
    ns2: Option<nat>,
)
    requires
        opt_string_view(mr1) == opt_string_view(mr2),
        om1 == om2,
        d1.len() == d2.len(),
        forall|j: int|
            0 <= j < d1.len() ==> (#[trigger] d1[j]).path@ == d2[j].path@ && d1[j].mode == d2[j].mode,
        uuid1 == uuid2,
        euid1 == euid2,
        seed1 == seed2,
        ns1 == ns2,
    ensures
        resolved_root(mr1, om1, d1) == resolved_root(mr2, om2, d2),
        user_basedir_spec(euid1) == user_basedir_spec(euid2),
        mount_dir_spec(uuid1, seed1, ns1) == mount_dir_spec(uuid2, seed2, ns2),
{
    lemma_default_choice_of_views(d1, d2, 0);
}

proof fn lemma_append_right_cancel(a: Seq<char>, b: Seq<char>, s: Seq<char>)
    requires
        a != b,
    ensures
        a + s != b + s,
{
    if a.len() != b.len() {
        assert((a + s).len() != (b + s).len());
    } else {
        assert(exists|k: int| 0 <= k < a.len() && a[k] != b[k]) by {
            if forall|k: int| 0 <= k < a.len() ==> a[k] == b[k] {
                assert(a =~= b);
            }
        }
        let k = choose|k: int| 0 <= k < a.len() && a[k] != b[k];
        assert((a + s)[k] == a[k]);
        assert((b + s)[k] == b[k]);
    }
}

proof fn lemma_append_left_cancel(p: Seq<char>, a: Seq<char>, b: Seq<char>)
    requires
        a != b,
    ensures
        p + a != p + b,
{
    if p + a == p + b {
        assert((p + a).len() == (p + b).len());
        assert(a.len() == b.len());
        assert(a =~= b) by {
            assert forall|i: int| 0 <= i < a.len() implies a[i] == b[i] by {
                assert((p + a)[p.len() + i] == a[i]);
                assert((p + b)[p.len() + i] == b[i]);
            }
        }
    }
}

/// Distinctness: two archives with different uuids, resolved with the
/// same root, uid, seed and namespace identity, get different mount
/// paths. (Only across different seed or namespace observations could
/// two distinct uuids ever collide, since the uuid is a prefix of the
/// directory name.)
pub proof fn lemma_distinct_uuids_distinct_paths(
    p1: MountPath,
    p2: MountPath,
    uuid1: Seq<char>,
    uuid2: Seq<char>,
    seed: Option<Seq<char>>,
    ns_inode: Option<nat>,
)
    requires
        uuid1 != uuid2,
        p1.root@ == p2.root@,
        p1.user_dir@ == p2.user_dir@,
        p1.base_name@ == mount_dir_spec(uuid1, seed, ns_inode),
        p2.base_name@ == mount_dir_spec(uuid2, seed, ns_inode),
    ensures
        p1.full_path_spec() != p2.full_path_spec(),
        p1.base_name@ != p2.base_name@,
{
    lemma_append_right_cancel(uuid1, uuid2, dir_suffix_spec(seed, ns_inode));
    let pfx = p1.root@ + "/"@ + p1.user_dir@ + "/"@;
    assert(p1.full_path_spec() == pfx + p1.base_name@);
    assert(p2.full_path_spec() == pfx + p2.base_name@);
    lemma_append_left_cancel(pfx, p1.base_name@, p2.base_name@);
}

} // verus!
