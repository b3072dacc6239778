use xarfuse::mount_state::FUSE_SUPER_MAGIC;
use xarfuse::mount_state::FsObservation;
use xarfuse::mount_state::is_mounted;
use xarfuse::mount_state::str_eq;

#[test]
fn inaccessible_path_is_not_mounted() {
    // A nonexistent or unreadable path reads as "not mounted"; the
    // classifier is total and never raises.
    assert!(!is_mounted(&FsObservation::Inaccessible));
}

#[test]
fn fuse_magic_is_mounted() {
    assert!(is_mounted(&FsObservation::TypeMagic(FUSE_SUPER_MAGIC)));
    assert!(is_mounted(&FsObservation::TypeMagic(0x65735546)));
}

#[test]
fn other_magic_is_not_mounted() {
    // tmpfs
    assert!(!is_mounted(&FsObservation::TypeMagic(0x01021994)));
    assert!(!is_mounted(&FsObservation::TypeMagic(0)));
}

#[test]
fn fuse_emulation_names_are_mounted() {
    assert!(is_mounted(&FsObservation::TypeName("osxfuse".to_string())));
    assert!(is_mounted(&FsObservation::TypeName("osxfusefs".to_string())));
}

#[test]
fn other_names_are_not_mounted() {
    assert!(!is_mounted(&FsObservation::TypeName("apfs".to_string())));
    assert!(!is_mounted(&FsObservation::TypeName("osxfusef".to_string())));
    assert!(!is_mounted(&FsObservation::TypeName("".to_string())));
}

#[test]
fn string_equality_is_exact() {
    assert!(str_eq("", ""));
    assert!(str_eq("osxfuse", "osxfuse"));
    assert!(!str_eq("osxfuse", "osxfusefs"));
    assert!(!str_eq("abc", "abd"));
}
