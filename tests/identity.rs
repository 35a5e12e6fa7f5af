use targo::{hash_workspace_dir, identifier_from_digest};

const BASE58: &str = "123456789ABCDEFGHJKLMNPQRSTUVWXYZabcdefghijkmnopqrstuvwxyz";

#[test]
fn identifier_is_deterministic() {
    assert_eq!(hash_workspace_dir("/w"), hash_workspace_dir("/w"));
    assert_eq!(
        hash_workspace_dir("/home/user/project"),
        hash_workspace_dir("/home/user/project")
    );
}

#[test]
fn identifier_is_short_base58_text() {
    for path in ["/w", "/", "/home/user/project", "/a/b/c/d/e/f/g"] {
        let id = hash_workspace_dir(path);
        assert!(!id.is_empty());
        assert!(id.len() <= 28, "{id}");
        assert!(id.chars().all(|c| BASE58.contains(c)), "{id}");
        assert_ne!(id, path);
    }
}

#[test]
fn distinct_paths_get_distinct_identifiers() {
    assert_ne!(hash_workspace_dir("/w"), hash_workspace_dir("/w2"));
    assert_ne!(hash_workspace_dir("/a/b"), hash_workspace_dir("/a/c"));
}

#[test]
fn identifier_from_digest_takes_twenty_bytes_in_base58() {
    assert_eq!(identifier_from_digest(&[0u8; 32]), "1".repeat(20));
    let mut digest = [0u8; 32];
    digest[19] = 1;
    assert_eq!(identifier_from_digest(&digest), format!("{}2", "1".repeat(19)));
    let mut tail_only = [0u8; 32];
    tail_only[20] = 0xff;
    tail_only[31] = 0xff;
    assert_eq!(identifier_from_digest(&tail_only), "1".repeat(20));
    let mut digest = [0u8; 32];
    digest[18] = 1;
    // 256 = 4 * 58 + 24: digits 4 and 24 are '5' and 'R'.
    assert_eq!(identifier_from_digest(&digest), format!("{}5R", "1".repeat(18)));
}
