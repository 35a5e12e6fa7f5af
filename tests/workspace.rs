use targo::{workspace_from_locate_output, LocateError};

#[test]
fn locate_output_gives_workspace_and_target() {
    let paths = workspace_from_locate_output(b"/home/u/proj/Cargo.toml\n".to_vec()).expect("paths");
    assert_eq!(paths.workspace_dir, "/home/u/proj");
    assert_eq!(paths.target_dir, "/home/u/proj/target");
}

#[test]
fn locate_output_at_root() {
    let paths = workspace_from_locate_output(b"/Cargo.toml\n".to_vec()).expect("paths");
    assert_eq!(paths.workspace_dir, "/");
    assert_eq!(paths.target_dir, "/target");
}

#[test]
fn locate_output_without_newline() {
    match workspace_from_locate_output(b"/home/u/proj/Cargo.toml".to_vec()) {
        Err(LocateError::MissingNewline { output }) => assert_eq!(output, "/home/u/proj/Cargo.toml"),
        other => panic!("unexpected {other:?}"),
    }
    assert!(matches!(
        workspace_from_locate_output(Vec::new()),
        Err(LocateError::MissingNewline { .. })
    ));
}

#[test]
fn locate_output_not_a_manifest() {
    match workspace_from_locate_output(b"/home/u/proj/Other.toml\n".to_vec()) {
        Err(LocateError::NotAManifest { path }) => assert_eq!(path, "/home/u/proj/Other.toml"),
        other => panic!("unexpected {other:?}"),
    }
}

#[test]
fn locate_output_invalid_utf8() {
    assert!(matches!(
        workspace_from_locate_output(vec![0x2f, 0xff, 0xfe, b'\n']),
        Err(LocateError::InvalidUtf8)
    ));
}
