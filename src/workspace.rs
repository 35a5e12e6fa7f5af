//! The workspace and output paths, from what `cargo locate-project` prints.
use crate::paths::{join_path, join_spec};
use crate::store::{str_opt_view, target_leaf};
use camino::Utf8Path;
use vstd::prelude::*;
use vstd::utf8::{decode_utf8, valid_utf8};

verus! {

/// The final component of a path, as `Utf8Path::file_name` gives it.
pub uninterp spec fn path_file_name(p: Seq<char>) -> Option<Seq<char>>;

/// The path without its final component, as `Utf8Path::parent` gives it.
pub uninterp spec fn path_parent(p: Seq<char>) -> Option<Seq<char>>;

/// Relies on `String::from_utf8`: it succeeds exactly on valid UTF-8, with the
/// text those bytes encode.
#[verifier::external_body]
fn string_from_utf8(bytes: Vec<u8>) -> (r: Option<String>)
    ensures
        r is Some <==> valid_utf8(bytes@),
        r matches Some(s) ==> s@ == decode_utf8(bytes@),
{
    String::from_utf8(bytes).ok()
}

/// Relies on `Utf8Path::file_name`: the final component of the path.
#[verifier::external_body]
fn file_name_of<'a>(p: &'a str) -> (r: Option<&'a str>)
    ensures
        str_opt_view(r) == path_file_name(p@),
{
    Utf8Path::new(p).file_name()
}

/// Relies on `Utf8Path::parent`: the path without its final component.
#[verifier::external_body]
fn parent_of<'a>(p: &'a str) -> (r: Option<&'a str>)
    ensures
        str_opt_view(r) == path_parent(p@),
{
    Utf8Path::new(p).parent().map(|q| q.as_str())
}

/// The file name of a package manifest.
pub open spec fn manifest_file_name() -> Seq<char> {
    seq!['C', 'a', 'r', 'g', 'o', '.', 't', 'o', 'm', 'l']
}

fn manifest_file_name_text() -> (r: &'static str)
    ensures
        r@ == manifest_file_name(),
{
    proof {
        reveal_strlit("Cargo.toml");
    }
    "Cargo.toml"
}

/// The directory of a manifest path: its parent, or the path itself when it
/// has none.
pub open spec fn manifest_dir(manifest: Seq<char>) -> Seq<char> {
    match path_parent(manifest) {
        Some(dir) => dir,
        None => manifest,
    }
}

/// Why the output of `cargo locate-project` was not understood.
#[derive(Clone, Debug)]
pub enum LocateError {
    /// The output is not UTF-8.
    InvalidUtf8,
    /// The output does not end with a newline.
    MissingNewline { output: String },
    /// The path printed does not name a `Cargo.toml`.
    NotAManifest { path: String },
}

/// A workspace directory and its output directory.
#[derive(Clone, Debug)]
pub struct WorkspacePaths {
    pub workspace_dir: String,
    pub target_dir: String,
}

/// Reads the workspace manifest path that `cargo locate-project
/// --message-format=plain` prints, one line ending in a newline, and returns
/// the workspace directory and its `target` directory.
pub fn workspace_from_locate_output(output: Vec<u8>) -> (r: Result<WorkspacePaths, LocateError>)
    ensures
        !valid_utf8(output@) ==> r matches Err(LocateError::InvalidUtf8),
        valid_utf8(output@) ==> ({
            let text = decode_utf8(output@);
            let manifest = text.drop_last();
            if text.len() == 0 || text.last() != '\n' {
                r matches Err(LocateError::MissingNewline { output: o }) && o@ == text
            } else if path_file_name(manifest) != Some(manifest_file_name()) {
                r matches Err(LocateError::NotAManifest { path }) && path@ == manifest
            } else {
                r matches Ok(w) && w.workspace_dir@ == manifest_dir(manifest) && w.target_dir@
                    == join_spec(w.workspace_dir@, target_leaf())
            }
        }),
{
    let bytes = output;
    let text = match string_from_utf8(bytes) {
        Some(text) => text,
        None => return Err(LocateError::InvalidUtf8),
    };
    let n = text.as_str().unicode_len();
    if n == 0 || text.as_str().get_char(n - 1) != '\n' {
        return Err(LocateError::MissingNewline { output: text });
    }
    let manifest = text.as_str().substring_char(0, n - 1);
    assert(manifest@ =~= text@.drop_last());
    let is_manifest = match file_name_of(manifest) {
        Some(name) => name.to_owned() == manifest_file_name_text().to_owned(),
        None => false,
    };
    if !is_manifest {
        return Err(LocateError::NotAManifest { path: manifest.to_owned() });
    }
    let workspace_dir = match parent_of(manifest) {
        Some(dir) => dir.to_owned(),
        None => manifest.to_owned(),
    };
    let target_dir = join_path(workspace_dir.as_str(), "target");
    proof {
        reveal_strlit("target");
        assert("target"@ =~= target_leaf());
    }
    Ok(WorkspacePaths { workspace_dir, target_dir })
}

} // verus!
