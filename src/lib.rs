//! A shared, versioned store for build output directories.
//!
//! A workspace's output directory is replaced by an absolute symlink into a
//! store entry `<store>/<identifier>/target`, where the identifier is derived
//! from the workspace path by a keyed hash.  This crate holds the decisions:
//! path shapes, identifiers, metadata upkeep and redirection plans.  Carrying
//! them out on the filesystem is the caller's part.
mod identity;
mod metadata;
mod paths;
mod store;
mod workspace;

pub use identity::{
    base58_of, blake3_keyed_hash, hash_workspace_dir, hasher_key, identifier_for,
    identifier_from_digest, is_base58_char, is_identifier, DIGEST_PREFIX_LEN,
};
pub use metadata::{
    backlink_recorded_once, first_occurrences, is_current, is_min_client_version, metadata_action,
    store_metadata_to_write, store_version_is_monotonic, with_backlink, ClientVersion,
    MetadataAction, StoreError, TargetDirMetadata, TargoStoreMetadata, Timestamp, STORE_VERSION,
};
pub use paths::{is_absolute_path, is_normal_component, is_prefix_of, join_spec, path_components};
pub use store::{
    classify_spec, get_workspace_hash, is_entry, managed_identifier, managed_link_identifier,
    managed_link_shape, path_below, plan_spec, redirect_of_managed_link_is_stable, redirect_twice_reuses_link,
    relative_link_is_foreign, str_opt_view, target_leaf, workspace_hash_spec, ManagedTargetDir,
    PathStatus, RedirectPlan, RedirectionState, TargetDirKind, TargoStore,
};
pub use workspace::{
    manifest_dir, manifest_file_name, path_file_name, path_parent, workspace_from_locate_output,
    LocateError, WorkspacePaths,
};
