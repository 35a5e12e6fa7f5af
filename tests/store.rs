use targo::{
    get_workspace_hash, hash_workspace_dir, managed_link_identifier, ManagedTargetDir,
    PathStatus, TargetDirKind, TargetDirMetadata, TargoStore, Timestamp,
};

const WHEN: Timestamp = Timestamp { secs: 1_700_000_000, nanos: 0, offset_secs: 0 };
const LATER: Timestamp = Timestamp { secs: 1_700_000_060, nanos: 0, offset_secs: 0 };

#[test]
fn test_get_workspace_hash() {
    assert_eq!(
        get_workspace_hash("/foo/bar", "/foo/bar/baz/quux"),
        Some("baz"),
    );
    assert_eq!(get_workspace_hash("/foo/bar", "/foo/bar/baz"), None);
    assert_eq!(get_workspace_hash("/foo/bar", "/"), None);
    assert_eq!(get_workspace_hash("/foo/bar", ""), None);
    assert_eq!(get_workspace_hash("/foo/bar", "../foo"), None);
}

#[test]
fn managed_link_needs_one_segment_and_the_leaf() {
    assert_eq!(managed_link_identifier("/R", "/R/baz/target"), Some("baz"));
    assert_eq!(managed_link_identifier("/R", "/R/baz/extra/target"), None);
    assert_eq!(managed_link_identifier("/R", "/R/baz"), None);
    assert_eq!(managed_link_identifier("/R", "/R/baz/quux"), None);
    assert_eq!(managed_link_identifier("/R", "/other/baz/target"), None);
    assert_eq!(managed_link_identifier("/R", "/R/target"), None);
}

#[test]
fn managed_link_tolerates_separators() {
    assert_eq!(managed_link_identifier("/R/", "/R//baz/target/"), Some("baz"));
    assert_eq!(managed_link_identifier("/R", "/Rx/baz/target"), None);
}

#[test]
fn relative_link_is_foreign_wherever_it_points() {
    let store = TargoStore::new("/R".to_string());
    for link in ["baz/target", "../R/baz/target", "./R/baz/target", "R/baz/target"] {
        let kind = store.determine_target_dir("/w", "/w/target", &PathStatus::Symlink(link.to_string()));
        assert!(matches!(kind, TargetDirKind::Other), "{link}");
        assert!(store.actualize_kind(kind).is_none());
    }
}

#[test]
fn classify_each_status() {
    let store = TargoStore::new("/R".to_string());
    match store.determine_target_dir("/w", "/w/target", &PathStatus::Missing) {
        TargetDirKind::DoesNotExist { workspace_dir, target_dir } => {
            assert_eq!(workspace_dir, "/w");
            assert_eq!(target_dir, "/w/target");
        }
        other => panic!("unexpected {other:?}"),
    }
    match store.determine_target_dir("/w", "/w/target", &PathStatus::Directory) {
        TargetDirKind::Directory { workspace_dir, target_dir } => {
            assert_eq!(workspace_dir, "/w");
            assert_eq!(target_dir, "/w/target");
        }
        other => panic!("unexpected {other:?}"),
    }
    match store.determine_target_dir("/w", "/w/target", &PathStatus::Symlink("/R/baz/target".to_string())) {
        TargetDirKind::TargoSymlink { source_link, identifier } => {
            assert_eq!(source_link, "/w/target");
            assert_eq!(identifier, "baz");
        }
        other => panic!("unexpected {other:?}"),
    }
    assert!(matches!(
        store.determine_target_dir("/w", "/w/target", &PathStatus::Other),
        TargetDirKind::Other
    ));
}

#[test]
fn fresh_workspace_is_redirected() {
    let store = TargoStore::new("/store".to_string());
    let plan = store.redirect("/w", "/w/target", &PathStatus::Missing).expect("a plan");
    let id = hash_workspace_dir("/w");
    assert!(!plan.remove_existing);
    assert!(plan.create_link);
    assert_eq!(plan.entry.source_link, "/w/target");
    assert_eq!(plan.entry.identifier, id);
    assert_eq!(plan.entry.dest_dir, format!("/store/{id}"));
    assert_eq!(plan.entry.target_dir, format!("/store/{id}/target"));

    let mut metadata = TargetDirMetadata::new(WHEN);
    metadata.record_use(plan.entry.source_link.clone(), WHEN);
    assert_eq!(metadata.last_used(), WHEN);
    assert_eq!(metadata.backlinks(), &vec!["/w/target".to_string()]);
}

#[test]
fn plain_directory_is_removed_then_redirected() {
    let store = TargoStore::new("/store".to_string());
    let plan = store.redirect("/w", "/w/target", &PathStatus::Directory).expect("a plan");
    let id = hash_workspace_dir("/w");
    assert!(plan.remove_existing);
    assert!(plan.create_link);
    assert_eq!(plan.entry.target_dir, format!("/store/{id}/target"));
}

#[test]
fn foreign_symlink_is_untouched() {
    let store = TargoStore::new("/store".to_string());
    let plan = store.redirect("/w", "/w/target", &PathStatus::Symlink("/elsewhere".to_string()));
    assert!(plan.is_none());
    assert!(store.redirect("/w", "/w/target", &PathStatus::Other).is_none());
}

#[test]
fn redirecting_twice_reuses_the_entry() {
    let store = TargoStore::new("/store".to_string());
    let first = store.redirect("/w", "/w/target", &PathStatus::Missing).expect("a plan");
    let link = PathStatus::Symlink(first.entry.target_dir.clone());
    let second = store.redirect("/w", "/w/target", &link).expect("a plan");
    assert!(!second.remove_existing);
    assert!(!second.create_link);
    assert_eq!(second.entry.identifier, first.entry.identifier);
    assert_eq!(second.entry.target_dir, first.entry.target_dir);
    assert_eq!(second.entry.source_link, "/w/target");

    let mut metadata = TargetDirMetadata::new(WHEN);
    metadata.record_use(first.entry.source_link.clone(), WHEN);
    metadata.record_use(second.entry.source_link.clone(), LATER);
    assert_eq!(metadata.last_used(), LATER);
    assert_eq!(metadata.backlinks(), &vec!["/w/target".to_string()]);
}

#[test]
fn entry_paths_join_the_store_root() {
    let slash = TargoStore::new("/s/".to_string());
    let entry = ManagedTargetDir::new(&slash, "/w/target".to_string(), "abc".to_string());
    assert_eq!(entry.dest_dir, "/s/abc");
    assert_eq!(entry.target_dir, "/s/abc/target");
    let plain = TargoStore::new("/s".to_string());
    let entry = ManagedTargetDir::new(&plain, "/w/target".to_string(), "abc".to_string());
    assert_eq!(entry.dest_dir, "/s/abc");
    assert_eq!(entry.target_dir, "/s/abc/target");
    assert_eq!(plain.store_dir(), "/s");
}

#[test]
fn entry_paths_with_an_empty_identifier() {
    let store = TargoStore::new("/s".to_string());
    let entry = ManagedTargetDir::new(&store, "/w/target".to_string(), String::new());
    assert_eq!(entry.dest_dir, "/s/");
    assert_eq!(entry.target_dir, "/s/target");
    let again = ManagedTargetDir::new(&store, "/w/target".to_string(), String::new());
    assert_eq!(again.target_dir, entry.target_dir);
}
