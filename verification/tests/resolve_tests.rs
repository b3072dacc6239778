use xarfuse::errors::XarError;
use xarfuse::header::XarHeader;
use xarfuse::resolve::MountPath;
use xarfuse::resolve::RootCandidate;
use xarfuse::resolve::default_root_paths;
use xarfuse::resolve::find_mount_root;
use xarfuse::resolve::get_mount_dir;
use xarfuse::resolve::get_user_basedir;
use xarfuse::resolve::mode_is_acceptable;
use xarfuse::resolve::resolve_mount_path;
use xarfuse::resolve::seed_is_usable;

fn header(uuid: &str, offset: u64, mount_root: Option<&str>) -> XarHeader {
    XarHeader {
        offset,
        version: "1".to_string(),
        xarexec_target: "app".to_string(),
        uuid: uuid.to_string(),
        mount_root: mount_root.map(|s| s.to_string()),
    }
}

fn candidate(path: &str, mode: Option<u32>) -> RootCandidate {
    RootCandidate {
        path: path.to_string(),
        mode,
    }
}

#[test]
fn mount_root_mode_must_be_exactly_01777() {
    // Looser (0o777), stricter (0o1775): both rejected; exactly 0o1777: accepted.
    assert!(!mode_is_acceptable(0o777));
    assert!(!mode_is_acceptable(0o1775));
    assert!(mode_is_acceptable(0o1777));
    // The file-type bits a stat reports above the permission bits are masked off.
    assert!(mode_is_acceptable(0o41777));
}

#[test]
fn override_root_rejected_unless_mode_exact() {
    let over = Some("/opt/custom".to_string());
    let defaults = vec![candidate("/dev/shm", Some(0o1777))];
    let r = find_mount_root(&over, &Some(0o777), &defaults);
    assert_eq!(r.unwrap_err(), XarError::Configuration);
    let r = find_mount_root(&over, &Some(0o1775), &defaults);
    assert_eq!(r.unwrap_err(), XarError::Configuration);
    let r = find_mount_root(&over, &Some(0o1777), &defaults);
    assert_eq!(r.unwrap(), "/opt/custom");
    // An override that cannot be statted is a configuration error, even
    // though a default would have qualified.
    let r = find_mount_root(&over, &None, &defaults);
    assert_eq!(r.unwrap_err(), XarError::Configuration);
}

#[test]
fn first_acceptable_default_root_wins() {
    let defaults = vec![
        candidate("/mnt/xarfuse", None),
        candidate("/dev/shm", Some(0o1777)),
    ];
    let r = find_mount_root(&None, &None, &defaults);
    assert_eq!(r.unwrap(), "/dev/shm");

    let defaults = vec![
        candidate("/mnt/xarfuse", Some(0o1777)),
        candidate("/dev/shm", Some(0o1777)),
    ];
    let r = find_mount_root(&None, &None, &defaults);
    assert_eq!(r.unwrap(), "/mnt/xarfuse");

    let defaults = vec![
        candidate("/mnt/xarfuse", Some(0o755)),
        candidate("/dev/shm", Some(0o1700)),
    ];
    let r = find_mount_root(&None, &None, &defaults);
    assert_eq!(r.unwrap_err(), XarError::Configuration);
}

#[test]
fn default_root_list_is_fixed_and_ordered() {
    let roots = default_root_paths();
    assert_eq!(roots, vec!["/mnt/xarfuse".to_string(), "/dev/shm".to_string()]);
}

#[test]
fn user_basedir_renders_uid() {
    assert_eq!(get_user_basedir(1000), "uid-1000");
    assert_eq!(get_user_basedir(0), "uid-0");
    assert_eq!(get_user_basedir(u64::MAX), "uid-18446744073709551615");
}

#[test]
fn seed_usability() {
    assert!(!seed_is_usable(""));
    assert!(!seed_is_usable("foo/bar"));
    assert!(!seed_is_usable("/"));
    assert!(seed_is_usable("abc"));
    assert!(seed_is_usable("a-b_c.9"));
}

#[test]
fn seed_with_separator_is_ignored() {
    let dir = get_mount_dir("abc", &Some("foo/bar".to_string()), &None);
    assert_eq!(dir, "abc");
}

#[test]
fn empty_seed_is_ignored() {
    let dir = get_mount_dir("abc", &Some("".to_string()), &None);
    assert_eq!(dir, "abc");
}

#[test]
fn usable_seed_is_appended() {
    let dir = get_mount_dir("abc", &Some("abc".to_string()), &None);
    assert_eq!(dir, "abc-seed-abc");
}

#[test]
fn namespace_inode_is_appended() {
    let dir = get_mount_dir("abc", &None, &Some(4026531840));
    assert_eq!(dir, "abc-ns-4026531840");
    let dir = get_mount_dir("abc", &Some("xyz".to_string()), &Some(42));
    assert_eq!(dir, "abc-seed-xyz-ns-42");
    let dir = get_mount_dir("abc", &None, &None);
    assert_eq!(dir, "abc");
}

#[test]
fn end_to_end_resolution_uses_chosen_default_root() {
    // header {uuid: "abc", offset: 100, no override}, euid 1000, no seed,
    // no namespace handle: <chosen default root>/uid-1000/abc.
    let h = header("abc", 100, None);
    let defaults = vec![
        candidate("/mnt/xarfuse", None),
        candidate("/dev/shm", Some(0o1777)),
    ];
    let p = resolve_mount_path(&h, &None, &defaults, 1000, &None, &None).unwrap();
    assert_eq!(p.full_path(), "/dev/shm/uid-1000/abc");
    assert_eq!(p.user_dir_path(), "/dev/shm/uid-1000");
    assert_eq!(p.lockfile_path(), "/dev/shm/uid-1000/lockfile.abc");
}

#[test]
fn resolution_is_deterministic() {
    let defaults = vec![candidate("/dev/shm", Some(0o1777))];
    let h = header("deadbeef", 4096, None);
    let seed = Some("s1".to_string());
    let ns = Some(77u64);
    let p1 = resolve_mount_path(&h, &None, &defaults, 1000, &seed, &ns).unwrap();
    let p2 = resolve_mount_path(&h, &None, &defaults, 1000, &seed, &ns).unwrap();
    assert_eq!(p1.full_path(), p2.full_path());
    assert_eq!(p1.lockfile_path(), p2.lockfile_path());
    assert_eq!(p1.full_path(), "/dev/shm/uid-1000/deadbeef-seed-s1-ns-77");
}

#[test]
fn distinct_uuids_resolve_to_distinct_paths() {
    let defaults = vec![candidate("/dev/shm", Some(0o1777))];
    let h1 = header("abc", 100, None);
    let h2 = header("abd", 100, None);
    let p1 = resolve_mount_path(&h1, &None, &defaults, 1000, &None, &None).unwrap();
    let p2 = resolve_mount_path(&h2, &None, &defaults, 1000, &None, &None).unwrap();
    assert_ne!(p1.full_path(), p2.full_path());
}

#[test]
fn lockfile_is_sibling_of_mount_dir() {
    let p = MountPath {
        root: "/dev/shm".to_string(),
        user_dir: "uid-1000".to_string(),
        base_name: "abc-ns-5".to_string(),
    };
    assert_eq!(p.full_path(), "/dev/shm/uid-1000/abc-ns-5");
    assert_eq!(p.lockfile_path(), "/dev/shm/uid-1000/lockfile.abc-ns-5");
}
