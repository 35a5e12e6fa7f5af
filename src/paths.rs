//! UTF-8 path operations, carried out by `camino`.
use camino::Utf8Path;
use vstd::prelude::*;

verus! {

/// The components of a path, each as text, in the order `Utf8Path::iter`
/// yields them (the root, when there is one, as `/`).
pub uninterp spec fn path_components(p: Seq<char>) -> Seq<Seq<char>>;

/// A single ordinary path component: non-empty, without a separator, and
/// neither `.` nor `..`.
pub open spec fn is_normal_component(s: Seq<char>) -> bool {
    &&& s.len() > 0
    &&& !s.contains('/')
    &&& s != seq!['.']
    &&& s != seq!['.', '.']
}

/// A Unix path is absolute when it starts at the root.
pub open spec fn is_absolute_path(p: Seq<char>) -> bool {
    p.len() > 0 && p[0] == '/'
}

/// `prefix` is a leading run of `s`.
pub open spec fn is_prefix_of(prefix: Seq<Seq<char>>, s: Seq<Seq<char>>) -> bool {
    prefix.len() <= s.len() && s.subrange(0, prefix.len() as int) == prefix
}

/// `base` joined with `part`: an absolute `part` replaces `base`, a relative
/// one (the empty path included) is appended after a separator where one is
/// needed.
pub open spec fn join_spec(base: Seq<char>, part: Seq<char>) -> Seq<char> {
    if is_absolute_path(part) {
        part
    } else if base.len() == 0 || base.last() == '/' {
        base + part
    } else {
        base + seq!['/'] + part
    }
}

/// Relies on `Utf8Path::is_absolute`: on Unix a path is absolute exactly when
/// it starts with the root.
#[verifier::external_body]
pub(crate) fn path_is_absolute(p: &str) -> (r: bool)
    ensures
        r == is_absolute_path(p@),
{
    Utf8Path::new(p).is_absolute()
}

/// Relies on `Utf8Path::iter`: the components of the path as text.
#[verifier::external_body]
pub(crate) fn components_of<'a>(p: &'a str) -> (r: Vec<&'a str>)
    ensures
        r@.map_values(|c: &str| c@) == path_components(p@),
{
    Utf8Path::new(p).iter().collect()
}

/// Relies on `Utf8Path::strip_prefix`: it succeeds exactly when the components
/// of `base` are a prefix of those of `p`, and what is left has the remaining
/// components of `p`.
#[verifier::external_body]
pub(crate) fn strip_path_prefix<'a>(p: &'a str, base: &str) -> (r: Option<&'a str>)
    ensures
        r is Some <==> is_prefix_of(path_components(base@), path_components(p@)),
        r matches Some(s) ==> path_components(s@) == path_components(p@).subrange(
            path_components(base@).len() as int,
            path_components(p@).len() as int,
        ),
{
    match Utf8Path::new(p).strip_prefix(base) {
        Ok(rest) => Some(rest.as_str()),
        Err(_) => None,
    }
}

/// Relies on `Utf8Path::join`, which adjoins a path as `PathBuf::push` does;
/// adjoining one ordinary component adds that component.
#[verifier::external_body]
pub(crate) fn join_path(base: &str, part: &str) -> (r: String)
    ensures
        r@ == join_spec(base@, part@),
        is_normal_component(part@) ==> path_components(r@) == path_components(base@).push(part@),
{
    Utf8Path::new(base).join(part).into_string()
}

} // verus!
