//! The store root, the classification of a workspace's output path, and the
//! plan that turns it into a managed symlink.
use crate::identity::{
    hash_workspace_dir, identifier_for, identifier_is_normal_component, is_identifier,
};
use crate::paths::{
    components_of, is_absolute_path, is_normal_component, is_prefix_of, join_path, join_spec,
    path_components, path_is_absolute, strip_path_prefix,
};
use vstd::prelude::*;

verus! {

/// The name of the output directory inside a store entry.
pub open spec fn target_leaf() -> Seq<char> {
    seq!['t', 'a', 'r', 'g', 'e', 't']
}

/// The view of an optional borrowed string.
pub open spec fn str_opt_view(o: Option<&str>) -> Option<Seq<char>> {
    match o {
        Some(s) => Some(s@),
        None => None,
    }
}

/// The components of an absolute `path` below `store`, or `None` when `path`
/// is relative or does not lie under `store`.
pub open spec fn path_below(store: Seq<char>, path: Seq<char>) -> Option<Seq<Seq<char>>> {
    if is_absolute_path(path) && is_prefix_of(path_components(store), path_components(path)) {
        Some(
            path_components(path).subrange(
                path_components(store).len() as int,
                path_components(path).len() as int,
            ),
        )
    } else {
        None
    }
}

/// The first of exactly two components of `path` below `store`.
pub open spec fn workspace_hash_spec(store: Seq<char>, path: Seq<char>) -> Option<Seq<char>> {
    match path_below(store, path) {
        Some(rest) => if rest.len() == 2 {
            Some(rest[0])
        } else {
            None
        },
        None => None,
    }
}

/// The identifier of the entry that a link target of the shape
/// `<store>/<identifier>/target` names, or `None` for any other target.
pub open spec fn managed_identifier(store: Seq<char>, link: Seq<char>) -> Option<Seq<char>> {
    match path_below(store, link) {
        Some(rest) => if rest.len() == 2 && rest[1] == target_leaf() {
            Some(rest[0])
        } else {
            None
        },
        None => None,
    }
}

fn target_leaf_name() -> (r: &'static str)
    ensures
        r@ == target_leaf(),
{
    proof {
        reveal_strlit("target");
    }
    "target"
}

fn str_equals(a: &str, b: &str) -> (r: bool)
    ensures
        r == (a@ == b@),
{
    a.to_owned() == b.to_owned()
}

/// The components of `path` below `store_dir`, as `path_below` states.
fn components_below<'b>(store_dir: &str, path: &'b str) -> (r: Option<Vec<&'b str>>)
    ensures
        match r {
            Some(v) => path_below(store_dir@, path@) == Some(v@.map_values(|c: &str| c@)),
            None => path_below(store_dir@, path@) is None,
        },
{
    // Relative link targets are never touched: what they name is ambiguous.
    if !path_is_absolute(path) {
        return None;
    }
    match strip_path_prefix(path, store_dir) {
        Some(rest) => Some(components_of(rest)),
        None => None,
    }
}

/// The first component of `path` below `store_dir`, when `path` is absolute
/// and has exactly two components below `store_dir`.
pub fn get_workspace_hash<'b>(store_dir: &str, path: &'b str) -> (r: Option<&'b str>)
    ensures
        str_opt_view(r) == workspace_hash_spec(store_dir@, path@),
{
    match components_below(store_dir, path) {
        Some(rest) => {
            if rest.len() == 2 {
                Some(rest[0])
            } else {
                None
            }
        },
        None => None,
    }
}

/// The identifier named by a link target of the shape
/// `<store_dir>/<identifier>/target`.
pub fn managed_link_identifier<'b>(store_dir: &str, link: &'b str) -> (r: Option<&'b str>)
    ensures
        str_opt_view(r) == managed_identifier(store_dir@, link@),
{
    match components_below(store_dir, link) {
        Some(rest) => {
            if rest.len() == 2 && str_equals(rest[1], target_leaf_name()) {
                Some(rest[0])
            } else {
                None
            }
        },
        None => None,
    }
}

/// What a non-following look at the output path found.
#[derive(Clone, Debug)]
pub enum PathStatus {
    /// Nothing is there.
    Missing,
    /// An ordinary directory.
    Directory,
    /// A symlink, with the literal text of its target.
    Symlink(String),
    /// Anything else: a file, a fifo, a device.
    Other,
}

/// The state of a workspace's output path, as text.
pub enum RedirectionState {
    Absent { workspace: Seq<char>, output: Seq<char> },
    PlainDirectory { workspace: Seq<char>, output: Seq<char> },
    ManagedLink { source_link: Seq<char>, identifier: Seq<char> },
    Foreign,
}

/// The state of a workspace's output path.
#[derive(Clone, Debug)]
pub enum TargetDirKind {
    /// No file exists at the output path.
    DoesNotExist { workspace_dir: String, target_dir: String },
    /// The output path is an ordinary directory.
    Directory { workspace_dir: String, target_dir: String },
    /// The output path is a symlink into an entry of this store.
    TargoSymlink { source_link: String, identifier: String },
    /// Anything else, left alone: foreign symlinks, relative symlinks, files.
    Other,
}

impl View for TargetDirKind {
    type V = RedirectionState;

    open spec fn view(&self) -> RedirectionState {
        match self {
            TargetDirKind::DoesNotExist { workspace_dir, target_dir } => RedirectionState::Absent {
                workspace: workspace_dir@,
                output: target_dir@,
            },
            TargetDirKind::Directory { workspace_dir, target_dir } => RedirectionState::PlainDirectory {
                workspace: workspace_dir@,
                output: target_dir@,
            },
            TargetDirKind::TargoSymlink { source_link, identifier } => RedirectionState::ManagedLink {
                source_link: source_link@,
                identifier: identifier@,
            },
            TargetDirKind::Other => RedirectionState::Foreign,
        }
    }
}

/// The state of the output path `output` of the workspace `workspace`, given
/// what was found there and the store root `store`.
pub open spec fn classify_spec(
    store: Seq<char>,
    workspace: Seq<char>,
    output: Seq<char>,
    status: PathStatus,
) -> RedirectionState {
    match status {
        PathStatus::Missing => RedirectionState::Absent { workspace, output },
        PathStatus::Directory => RedirectionState::PlainDirectory { workspace, output },
        PathStatus::Symlink(link) => match managed_identifier(store, link@) {
            Some(identifier) => RedirectionState::ManagedLink { source_link: output, identifier },
            None => RedirectionState::Foreign,
        },
        PathStatus::Other => RedirectionState::Foreign,
    }
}

/// The paths of one store entry and the workspace link that points at it.
#[derive(Clone, Debug)]
pub struct ManagedTargetDir {
    /// The workspace output path that becomes (or is) the symlink.
    pub source_link: String,
    /// The entry identifier.
    pub identifier: String,
    /// The entry directory, `<store>/<identifier>`.
    pub dest_dir: String,
    /// The real output directory, `<store>/<identifier>/target`.
    pub target_dir: String,
}

/// `e` is the entry `identifier` of the store `store`, linked from `source_link`.
pub open spec fn is_entry(e: ManagedTargetDir, store: Seq<char>, source_link: Seq<char>, identifier: Seq<char>) -> bool {
    &&& e.source_link@ == source_link
    &&& e.identifier@ == identifier
    &&& e.dest_dir@ == join_spec(store, identifier)
    &&& e.target_dir@ == join_spec(e.dest_dir@, target_leaf())
    &&& is_normal_component(identifier) ==> path_components(e.target_dir@) == path_components(
        store,
    ).push(identifier).push(target_leaf())
}

/// The filesystem work that turns an output path into a managed symlink.
#[derive(Clone, Debug)]
pub struct RedirectPlan {
    /// Remove the directory tree now at the output path first.  This throws
    /// its contents away, with no confirmation.
    pub remove_existing: bool,
    /// Create the symlink from the output path to the entry's target directory.
    pub create_link: bool,
    /// The entry to create if needed and record the output path in.
    pub entry: ManagedTargetDir,
}

/// The plan that `state` calls for: `None` for a foreign output path, which
/// is left untouched.
pub open spec fn plan_spec(p: Option<RedirectPlan>, store: Seq<char>, state: RedirectionState) -> bool {
    match state {
        RedirectionState::Absent { workspace, output } => p matches Some(plan) && {
            &&& !plan.remove_existing
            &&& plan.create_link
            &&& is_entry(plan.entry, store, output, identifier_for(workspace))
            &&& is_identifier(plan.entry.identifier@)
        },
        RedirectionState::PlainDirectory { workspace, output } => p matches Some(plan) && {
            &&& plan.remove_existing
            &&& plan.create_link
            &&& is_entry(plan.entry, store, output, identifier_for(workspace))
            &&& is_identifier(plan.entry.identifier@)
        },
        RedirectionState::ManagedLink { source_link, identifier } => p matches Some(plan) && {
            &&& !plan.remove_existing
            &&& !plan.create_link
            &&& is_entry(plan.entry, store, source_link, identifier)
        },
        RedirectionState::Foreign => p is None,
    }
}

/// A store root, known by its path.
#[derive(Clone, Debug)]
pub struct TargoStore {
    store_dir: String,
}

impl TargoStore {
    /// The name of the lock file inside the store root.
    pub const LOCK_FILE_NAME: &'static str = "targo.lock";

    pub closed spec fn root(&self) -> Seq<char> {
        self.store_dir@
    }

    /// The store rooted at `store_dir`.
    pub fn new(store_dir: String) -> (r: Self)
        ensures
            r.root() == store_dir@,
    {
        TargoStore { store_dir }
    }

    /// The path of the store root.
    pub fn store_dir(&self) -> (r: &str)
        ensures
            r@ == self.root(),
    {
        self.store_dir.as_str()
    }

    /// Classifies the output path `target_dir` of the workspace
    /// `workspace_dir` from what a non-following look found there.
    pub fn determine_target_dir(&self, workspace_dir: &str, target_dir: &str, status: &PathStatus) -> (r:
        TargetDirKind)
        ensures
            r@ == classify_spec(self.root(), workspace_dir@, target_dir@, *status),
    {
        match status {
            PathStatus::Missing => TargetDirKind::DoesNotExist {
                workspace_dir: workspace_dir.to_owned(),
                target_dir: target_dir.to_owned(),
            },
            PathStatus::Directory => TargetDirKind::Directory {
                workspace_dir: workspace_dir.to_owned(),
                target_dir: target_dir.to_owned(),
            },
            PathStatus::Symlink(link) => match managed_link_identifier(self.store_dir.as_str(), link.as_str()) {
                Some(identifier) => TargetDirKind::TargoSymlink {
                    source_link: target_dir.to_owned(),
                    identifier: identifier.to_owned(),
                },
                None => TargetDirKind::Other,
            },
            PathStatus::Other => TargetDirKind::Other,
        }
    }

    /// The plan for a classified output path: set up a fresh entry for an
    /// absent path or a plain directory (removing the directory first), reuse
    /// the entry a managed link names, and leave anything else alone.
    pub fn actualize_kind(&self, kind: TargetDirKind) -> (r: Option<RedirectPlan>)
        ensures
            plan_spec(r, self.root(), kind@),
    {
        match kind {
            TargetDirKind::DoesNotExist { workspace_dir, target_dir } => {
                Some(self.setup_target_dir(workspace_dir, target_dir, false))
            },
            TargetDirKind::Directory { workspace_dir, target_dir } => {
                Some(self.setup_target_dir(workspace_dir, target_dir, true))
            },
            TargetDirKind::TargoSymlink { source_link, identifier } => Some(
                RedirectPlan {
                    remove_existing: false,
                    create_link: false,
                    entry: ManagedTargetDir::new(self, source_link, identifier),
                },
            ),
            TargetDirKind::Other => None,
        }
    }

    /// Classifies the output path and returns the plan for it.
    pub fn redirect(&self, workspace_dir: &str, target_dir: &str, status: &PathStatus) -> (r: Option<
        RedirectPlan,
    >)
        ensures
            plan_spec(r, self.root(), classify_spec(self.root(), workspace_dir@, target_dir@, *status)),
    {
        let kind = self.determine_target_dir(workspace_dir, target_dir, status);
        self.actualize_kind(kind)
    }

    fn setup_target_dir(&self, workspace_dir: String, target_dir: String, exists: bool) -> (r:
        RedirectPlan)
        ensures
            r.remove_existing == exists,
            r.create_link,
            is_entry(r.entry, self.root(), target_dir@, identifier_for(workspace_dir@)),
            is_identifier(r.entry.identifier@),
    {
        let hash = hash_workspace_dir(workspace_dir.as_str());
        RedirectPlan {
            remove_existing: exists,
            create_link: true,
            entry: ManagedTargetDir::new(self, target_dir, hash),
        }
    }
}

impl ManagedTargetDir {
    /// The entry `hash` of `store`, linked from `source_link`.
    pub fn new(store: &TargoStore, source_link: String, hash: String) -> (r: Self)
        ensures
            is_entry(r, store.root(), source_link@, hash@),
    {
        let dest_dir = join_path(store.store_dir(), hash.as_str());
        let target_dir = join_path(dest_dir.as_str(), target_leaf_name());
        assert(is_normal_component(target_leaf())) by {
            if target_leaf().contains('/') {
                let k = choose|k: int| 0 <= k < 6 && target_leaf()[k] == '/';
            }
            assert(target_leaf()[0] != '.');
        }
        ManagedTargetDir { source_link, identifier: hash, dest_dir, target_dir }
    }
}

/// A symlink whose target is of the shape `<store>/<identifier>/target`, with
/// exactly one component between the store root and the leaf, is a managed
/// link to the entry `identifier`; a symlink to any other target is foreign.
pub proof fn managed_link_shape(store: Seq<char>, workspace: Seq<char>, output: Seq<char>, link: String)
    ensures
        ({
            let state = classify_spec(store, workspace, output, PathStatus::Symlink(link));
            &&& (state is ManagedLink) <==> {
                &&& is_absolute_path(link@)
                &&& is_prefix_of(path_components(store), path_components(link@))
                &&& path_components(link@).len() == path_components(store).len() + 2
                &&& path_components(link@).last() == target_leaf()
            }
            &&& state matches RedirectionState::ManagedLink { source_link, identifier } ==> {
                &&& source_link == output
                &&& identifier == path_components(link@)[path_components(store).len() as int]
            }
            &&& !(state is ManagedLink) ==> state is Foreign
        }),
{
}

/// A symlink with a relative target is foreign, wherever it resolves, and the
/// plan for it leaves the output path alone.
pub proof fn relative_link_is_foreign(
    store: Seq<char>,
    workspace: Seq<char>,
    output: Seq<char>,
    link: String,
    plan: Option<RedirectPlan>,
)
    requires
        !is_absolute_path(link@),
        plan_spec(plan, store, classify_spec(store, workspace, output, PathStatus::Symlink(link))),
    ensures
        classify_spec(store, workspace, output, PathStatus::Symlink(link)) == RedirectionState::Foreign,
        plan is None,
{
}

/// Redirecting an output path that already is a managed link removes nothing,
/// creates no link, and goes to the entry the link names.
pub proof fn redirect_of_managed_link_is_stable(
    store: Seq<char>,
    workspace: Seq<char>,
    output: Seq<char>,
    link: String,
    plan: Option<RedirectPlan>,
)
    requires
        managed_identifier(store, link@) is Some,
        plan_spec(plan, store, classify_spec(store, workspace, output, PathStatus::Symlink(link))),
    ensures
        plan matches Some(p) && {
            &&& !p.remove_existing
            &&& !p.create_link
            &&& p.entry.source_link@ == output
            &&& Some(p.entry.identifier@) == managed_identifier(store, link@)
        },
{
}

/// Redirecting the same output path twice gives the same symlink: the link
/// that the first redirection creates is recognised by the second as a
/// managed link to the same entry, so the second removes nothing, creates no
/// link and no other entry.
pub proof fn redirect_twice_reuses_link(
    store: Seq<char>,
    workspace: Seq<char>,
    output: Seq<char>,
    status: PathStatus,
    first: Option<RedirectPlan>,
    second: Option<RedirectPlan>,
)
    requires
        is_absolute_path(store),
        status is Missing || status is Directory,
        plan_spec(first, store, classify_spec(store, workspace, output, status)),
        first matches Some(p) ==> plan_spec(
            second,
            store,
            classify_spec(store, workspace, output, PathStatus::Symlink(p.entry.target_dir)),
        ),
    ensures
        first matches Some(p) && second matches Some(q) && {
            &&& p.create_link
            &&& !q.remove_existing
            &&& !q.create_link
            &&& q.entry.source_link@ == output
            &&& q.entry.identifier@ == p.entry.identifier@
            &&& q.entry.dest_dir@ == p.entry.dest_dir@
            &&& q.entry.target_dir@ == p.entry.target_dir@
        },
{
    let p = first.unwrap();
    let id = p.entry.identifier@;
    identifier_is_normal_component(id);
    let dest = p.entry.dest_dir@;
    let link = p.entry.target_dir@;
    assert(id[0] != '/') by {
        assert(id.contains(id[0]));
    }
    assert(dest[0] == '/');
    assert(link[0] == '/');
    let sc = path_components(store);
    let lc = path_components(link);
    assert(lc == sc.push(id).push(target_leaf()));
    assert(lc.subrange(0, sc.len() as int) =~= sc);
    assert(lc.subrange(sc.len() as int, lc.len() as int) =~= seq![id, target_leaf()]);
    assert(managed_identifier(store, link) == Some(id));
}

} // verus!
