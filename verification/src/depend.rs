//! Dependency declarations: the three document shapes, their unification
//! into the canonical detailed shape, and materialization into dependency
//! records bound to a source identity.

use vstd::prelude::*;
use crate::errors::{
    Capability, DepKind, ErrorView, GitRefKey, ManifestError, Warning, WarningView,
};
use crate::ext::{semver_req_ok, url_parse, version_req_ok, parse_url};
use crate::features::FeatureSet;
use crate::source::{
    Dependency, DependencyView, DepVersionReq, DepVersionReqView, GitReference, GitReferenceView,
    PackageId, SourceIdentity, SourceIdentityView,
};
use crate::strutil::{
    alist_find, alist_has, alist_idx, clone_opt_string, clone_opt_string_vec, join_path,
    join_path_spec, normalize_path, normalize_spec, parent_dir, parent_dir_spec, str_contains_char,
    str_eq,
};

verus! {

broadcast use vstd::seq::group_seq_axioms, vstd::std_specs::vec::group_vec_axioms;

/// The detailed dependency shape: every key of the declaration table.
#[derive(Debug, PartialEq, Eq)]
pub struct TomlDependencyDetails {
    pub version: Option<String>,
    pub registry: Option<String>,
    /// The index URL standing in for a registry name, written when a
    /// package is prepared for publishing.
    pub registry_index: Option<String>,
    pub path: Option<String>,
    pub git: Option<String>,
    pub branch: Option<String>,
    pub tag: Option<String>,
    pub rev: Option<String>,
    pub features: Option<Vec<String>>,
    pub optional: Option<bool>,
    pub default_features: Option<bool>,
    /// The historical underscore spelling of `default-features`.
    pub default_features2: Option<bool>,
    pub package: Option<String>,
    pub public: Option<bool>,
}

/// The mathematical shape of a detailed dependency.
pub ghost struct DepDetailsView {
    pub version: Option<Seq<char>>,
    pub registry: Option<Seq<char>>,
    pub registry_index: Option<Seq<char>>,
    pub path: Option<Seq<char>>,
    pub git: Option<Seq<char>>,
    pub branch: Option<Seq<char>>,
    pub tag: Option<Seq<char>>,
    pub rev: Option<Seq<char>>,
    pub features: Option<Seq<Seq<char>>>,
    pub optional: Option<bool>,
    pub default_features: Option<bool>,
    pub default_features2: Option<bool>,
    pub package: Option<Seq<char>>,
    pub public: Option<bool>,
}

impl DeepView for TomlDependencyDetails {
    type V = DepDetailsView;

    open spec fn deep_view(&self) -> DepDetailsView {
        DepDetailsView {
            version: self.version.deep_view(),
            registry: self.registry.deep_view(),
            registry_index: self.registry_index.deep_view(),
            path: self.path.deep_view(),
            git: self.git.deep_view(),
            branch: self.branch.deep_view(),
            tag: self.tag.deep_view(),
            rev: self.rev.deep_view(),
            features: self.features.deep_view(),
            optional: self.optional,
            default_features: self.default_features,
            default_features2: self.default_features2,
            package: self.package.deep_view(),
            public: self.public,
        }
    }
}

/// The shape of a detailed dependency with nothing set.
pub open spec fn empty_details_view() -> DepDetailsView {
    DepDetailsView {
        version: None,
        registry: None,
        registry_index: None,
        path: None,
        git: None,
        branch: None,
        tag: None,
        rev: None,
        features: None,
        optional: None,
        default_features: None,
        default_features2: None,
        package: None,
        public: None,
    }
}

impl TomlDependencyDetails {
    /// A detailed dependency with nothing set.
    pub fn new() -> (r: TomlDependencyDetails)
        ensures
            r.deep_view() == empty_details_view(),
    {
        TomlDependencyDetails {
            version: None,
            registry: None,
            registry_index: None,
            path: None,
            git: None,
            branch: None,
            tag: None,
            rev: None,
            features: None,
            optional: None,
            default_features: None,
            default_features2: None,
            package: None,
            public: None,
        }
    }

    /// Copies a detailed dependency.
    pub fn duplicate(&self) -> (r: TomlDependencyDetails)
        ensures
            r.deep_view() == self.deep_view(),
    {
        TomlDependencyDetails {
            version: clone_opt_string(&self.version),
            registry: clone_opt_string(&self.registry),
            registry_index: clone_opt_string(&self.registry_index),
            path: clone_opt_string(&self.path),
            git: clone_opt_string(&self.git),
            branch: clone_opt_string(&self.branch),
            tag: clone_opt_string(&self.tag),
            rev: clone_opt_string(&self.rev),
            features: clone_opt_string_vec(&self.features),
            optional: self.optional,
            default_features: self.default_features,
            default_features2: self.default_features2,
            package: clone_opt_string(&self.package),
            public: self.public,
        }
    }
}

/// A dependency declaration once workspace delegation is resolved: a bare
/// version requirement or the detailed shape.
#[derive(Debug, PartialEq, Eq)]
pub enum DefinedTomlDependency {
    Simple(String),
    Detailed(TomlDependencyDetails),
}

/// The mathematical shape of a resolved dependency declaration.
pub ghost enum DefinedDependencyView {
    Simple(Seq<char>),
    Detailed(DepDetailsView),
}

impl DeepView for DefinedTomlDependency {
    type V = DefinedDependencyView;

    open spec fn deep_view(&self) -> DefinedDependencyView {
        match *self {
            DefinedTomlDependency::Simple(ref s) => DefinedDependencyView::Simple(s@),
            DefinedTomlDependency::Detailed(ref d) => DefinedDependencyView::Detailed(
                d.deep_view(),
            ),
        }
    }
}

/// The member-side keys of a workspace-delegated dependency.
#[derive(Debug, PartialEq, Eq)]
pub struct WorkspaceDetails {
    pub features: Option<Vec<String>>,
    pub optional: Option<bool>,
}

/// The mathematical shape of a workspace-delegated dependency.
pub ghost struct WorkspaceDetailsView {
    pub features: Option<Seq<Seq<char>>>,
    pub optional: Option<bool>,
}

impl DeepView for WorkspaceDetails {
    type V = WorkspaceDetailsView;

    open spec fn deep_view(&self) -> WorkspaceDetailsView {
        WorkspaceDetailsView { features: self.features.deep_view(), optional: self.optional }
    }
}

/// The document shape of a workspace-delegated dependency, with the
/// `workspace` key explicit.
#[derive(Debug, PartialEq, Eq)]
pub struct TomlWorkspaceDetails {
    pub workspace: bool,
    pub features: Option<Vec<String>>,
    pub optional: Option<bool>,
}

impl From<WorkspaceDetails> for TomlWorkspaceDetails {
    fn from(workspace_details: WorkspaceDetails) -> (r: Self) {
        TomlWorkspaceDetails {
            workspace: true,
            features: workspace_details.features,
            optional: workspace_details.optional,
        }
    }
}

impl vstd::std_specs::convert::FromSpecImpl<WorkspaceDetails> for TomlWorkspaceDetails {
    open spec fn obeys_from_spec() -> bool {
        true
    }

    open spec fn from_spec(t: WorkspaceDetails) -> TomlWorkspaceDetails {
        TomlWorkspaceDetails { workspace: true, features: t.features, optional: t.optional }
    }
}

/// A dependency declaration as the document gives it: a bare version
/// requirement, a workspace delegation, or the detailed shape.
#[derive(Debug, PartialEq, Eq)]
pub enum TomlDependency {
    Simple(String),
    Workspace(WorkspaceDetails),
    Detailed(TomlDependencyDetails),
}

/// The mathematical shape of a raw dependency declaration.
pub ghost enum TomlDependencyView {
    Simple(Seq<char>),
    Workspace(WorkspaceDetailsView),
    Detailed(DepDetailsView),
}

impl DeepView for TomlDependency {
    type V = TomlDependencyView;

    open spec fn deep_view(&self) -> TomlDependencyView {
        match *self {
            TomlDependency::Simple(ref s) => TomlDependencyView::Simple(s@),
            TomlDependency::Workspace(ref w) => TomlDependencyView::Workspace(w.deep_view()),
            TomlDependency::Detailed(ref d) => TomlDependencyView::Detailed(d.deep_view()),
        }
    }
}

impl TomlDependency {
    /// Wraps a resolved declaration back into the document shape.
    pub fn from_defined_dependency(dep: &DefinedTomlDependency) -> (r: TomlDependency)
        ensures
            r.deep_view() == match dep.deep_view() {
                DefinedDependencyView::Simple(s) => TomlDependencyView::Simple(s),
                DefinedDependencyView::Detailed(d) => TomlDependencyView::Detailed(d),
            },
    {
        match dep {
            DefinedTomlDependency::Simple(s) => TomlDependency::Simple(s.clone()),
            DefinedTomlDependency::Detailed(detailed) => TomlDependency::Detailed(
                detailed.duplicate(),
            ),
        }
    }
}

impl DefinedTomlDependency {
    /// Accepts the shapes that stand where no delegation is allowed: the
    /// workspace shape is rejected.
    pub fn try_from_toml(dep: TomlDependency) -> (r: Result<DefinedTomlDependency, ManifestError>)
        ensures
            crate::errors::result_view(r) == match dep.deep_view() {
                TomlDependencyView::Simple(s) => Ok::<DefinedDependencyView, ErrorView>(
                    DefinedDependencyView::Simple(s),
                ),
                TomlDependencyView::Detailed(d) => Ok(DefinedDependencyView::Detailed(d)),
                TomlDependencyView::Workspace(_) => Err(
                    ErrorView::UnexpectedWorkspaceDependency,
                ),
            },
    {
        match dep {
            TomlDependency::Simple(s) => Ok(DefinedTomlDependency::Simple(s)),
            TomlDependency::Detailed(d) => Ok(DefinedTomlDependency::Detailed(d)),
            TomlDependency::Workspace(_) => Err(ManifestError::UnexpectedWorkspaceDependency),
        }
    }

    /// Copies a resolved declaration.
    pub fn duplicate(&self) -> (r: DefinedTomlDependency)
        ensures
            r.deep_view() == self.deep_view(),
    {
        match self {
            DefinedTomlDependency::Simple(s) => DefinedTomlDependency::Simple(s.clone()),
            DefinedTomlDependency::Detailed(d) => DefinedTomlDependency::Detailed(d.duplicate()),
        }
    }

    /// Whether the declaration pins a version requirement.
    pub fn is_version_specified(&self) -> (r: bool)
        ensures
            r == is_version_specified_view(self.deep_view()),
    {
        match self {
            DefinedTomlDependency::Detailed(d) => d.version.is_some(),
            DefinedTomlDependency::Simple(..) => true,
        }
    }

    /// Whether the declaration marks the dependency optional.
    pub fn is_optional(&self) -> (r: bool)
        ensures
            r == is_optional_view(self.deep_view()),
    {
        match self {
            DefinedTomlDependency::Detailed(d) => match d.optional {
                Some(b) => b,
                None => false,
            },
            DefinedTomlDependency::Simple(..) => false,
        }
    }

    /// The declared feature list, when the detailed shape carries one.
    pub fn features(&self) -> (r: Option<&Vec<String>>)
        ensures
            r.deep_view() == features_view(self.deep_view()),
    {
        match self {
            DefinedTomlDependency::Detailed(d) => d.features.as_ref(),
            DefinedTomlDependency::Simple(..) => None,
        }
    }
}

/// Whether a resolved declaration pins a version requirement.
pub open spec fn is_version_specified_view(d: DefinedDependencyView) -> bool {
    match d {
        DefinedDependencyView::Detailed(d) => d.version is Some,
        DefinedDependencyView::Simple(_) => true,
    }
}

/// Whether a resolved declaration marks the dependency optional.
pub open spec fn is_optional_view(d: DefinedDependencyView) -> bool {
    match d {
        DefinedDependencyView::Detailed(d) => d.optional == Some(true),
        DefinedDependencyView::Simple(_) => false,
    }
}

/// The feature list of a resolved declaration, when it has one.
pub open spec fn features_view(d: DefinedDependencyView) -> Option<Seq<Seq<char>>> {
    match d {
        DefinedDependencyView::Detailed(d) => d.features,
        DefinedDependencyView::Simple(_) => None,
    }
}

} // verus!

verus! {

/// Joins a path declared by the workspace root onto the root's own
/// directory, so that members see it from the right place.
pub open spec fn join_relative_path_spec(root_manifest: Seq<char>, relative: Seq<char>) -> Seq<
    char,
> {
    join_path_spec(parent_dir_spec(root_manifest), relative)
}

/// Rewrites a workspace-relative path against the directory of the
/// workspace root's manifest file.
pub fn join_relative_path(root_path: &str, relative_path: &str) -> (r: String)
    ensures
        r@ == join_relative_path_spec(root_path@, relative_path@),
{
    let dir = parent_dir(root_path);
    join_path(dir.as_str(), relative_path)
}

/// Whether a list of strings holds the given text.
pub fn vec_contains_str(v: &Vec<String>, s: &str) -> (r: bool)
    ensures
        r == v.deep_view().contains(s@),
{
    let mut i: usize = 0;
    while i < v.len()
        invariant
            i <= v@.len(),
            forall|j: int| 0 <= j < i ==> v.deep_view()[j] != s@,
        decreases v@.len() - i,
    {
        if str_eq(v[i].as_str(), s) {
            assert(v.deep_view()[i as int] == s@);
            return true;
        }
        i = i + 1;
    }
    assert(!v.deep_view().contains(s@)) by {
        if v.deep_view().contains(s@) {
            let w = choose|j: int| 0 <= j < v.deep_view().len() && v.deep_view()[j] == s@;
            assert(v.deep_view()[w] != s@);
        }
    }
    false
}

/// The union of two feature lists: the first list, then each entry of the
/// second that is not already present.
pub open spec fn union_features(acc: Seq<Seq<char>>, rest: Seq<Seq<char>>) -> Seq<Seq<char>>
    decreases rest.len(),
{
    if rest.len() == 0 {
        acc
    } else {
        union_features(
            if acc.contains(rest[0]) {
                acc
            } else {
                acc.push(rest[0])
            },
            rest.drop_first(),
        )
    }
}

/// Unions two feature lists, keeping the first list's order and skipping
/// entries already present.
pub fn union_feature_lists(first: &Vec<String>, second: &Vec<String>) -> (r: Vec<String>)
    ensures
        r.deep_view() == union_features(first.deep_view(), second.deep_view()),
{
    let mut r = crate::strutil::clone_string_vec(first);
    let ghost full = second.deep_view();
    let mut i: usize = 0;
    proof {
        assert(full.subrange(0, full.len() as int) =~= full);
    }
    #[verifier::loop_isolation(false)]
    while i < second.len()
        invariant
            i <= second@.len(),
            union_features(first.deep_view(), full) == union_features(
                r.deep_view(),
                full.subrange(i as int, full.len() as int),
            ),
        decreases second@.len() - i,
    {
        let ghost rest = full.subrange(i as int, full.len() as int);
        let ghost cur = r.deep_view();
        proof {
            assert(rest[0] == full[i as int]);
            assert(rest.drop_first() =~= full.subrange(i + 1 as int, full.len() as int));
        }
        if !vec_contains_str(&r, second[i].as_str()) {
            let ghost old_r = r.deep_view();
            r.push(second[i].clone());
            proof {
                assert(r.deep_view() =~= old_r.push(full[i as int]));
            }
        }
        i = i + 1;
    }
    proof {
        assert(full.subrange(full.len() as int, full.len() as int) =~= Seq::<Seq<char>>::empty());
    }
    r
}

/// Whether a resolved declaration carries a filesystem path.
pub open spec fn dep_has_path(d: DefinedDependencyView) -> bool {
    d matches DefinedDependencyView::Detailed(dd) && dd.path is Some
}

/// A member's delegated declaration merged onto the workspace's entry:
/// the workspace's keys are kept, its relative path is rewritten against
/// the workspace root, feature lists are unioned with the workspace's
/// list first, and the member's `optional` wins when it is set.
pub open spec fn from_workspace_dependency_spec(
    details: WorkspaceDetailsView,
    ws: DefinedDependencyView,
    root: Option<Seq<char>>,
) -> DefinedDependencyView {
    match ws {
        DefinedDependencyView::Simple(s) => DefinedDependencyView::Detailed(
            DepDetailsView {
                version: Some(s),
                features: details.features,
                optional: if details.optional is Some {
                    details.optional
                } else {
                    Some(false)
                },
                ..empty_details_view()
            },
        ),
        DefinedDependencyView::Detailed(d) => DefinedDependencyView::Detailed(
            DepDetailsView {
                version: d.version,
                registry: d.registry,
                registry_index: d.registry_index,
                path: match d.path {
                    Some(p) => Some(join_relative_path_spec(root->0, p)),
                    None => None,
                },
                git: d.git,
                branch: d.branch,
                tag: d.tag,
                rev: d.rev,
                features: match (d.features, details.features) {
                    (None, None) => None,
                    (Some(f), None) => Some(f),
                    (None, Some(f)) => Some(f),
                    (Some(ws_features), Some(member_features)) => Some(
                        union_features(ws_features, member_features),
                    ),
                },
                optional: if details.optional is Some {
                    details.optional
                } else {
                    d.optional
                },
                default_features: d.default_features,
                default_features2: d.default_features2,
                package: d.package,
                public: d.public,
            },
        ),
    }
}

impl DefinedTomlDependency {
    /// Merges a member's local overrides onto the workspace's shared
    /// dependency entry.
    pub fn from_workspace_dependency(
        details: &WorkspaceDetails,
        ws_dep: &DefinedTomlDependency,
        root_path: Option<&String>,
    ) -> (r: DefinedTomlDependency)
        requires
            dep_has_path(ws_dep.deep_view()) ==> root_path is Some,
        ensures
            r.deep_view() == from_workspace_dependency_spec(
                details.deep_view(),
                ws_dep.deep_view(),
                root_path.deep_view(),
            ),
    {
        match ws_dep {
            DefinedTomlDependency::Simple(s) => {
                let mut out = TomlDependencyDetails::new();
                out.version = Some(s.clone());
                out.features = clone_opt_string_vec(&details.features);
                out.optional = match details.optional {
                    Some(b) => Some(b),
                    None => Some(false),
                };
                DefinedTomlDependency::Detailed(out)
            },
            DefinedTomlDependency::Detailed(d) => {
                let path = match &d.path {
                    Some(p) => {
                        let root = root_path.unwrap();
                        Some(join_relative_path(root.as_str(), p.as_str()))
                    },
                    None => None,
                };
                let features = match (&d.features, &details.features) {
                    (None, None) => None,
                    (Some(f), None) => Some(crate::strutil::clone_string_vec(f)),
                    (None, Some(f)) => Some(crate::strutil::clone_string_vec(f)),
                    (Some(ws_features), Some(member_features)) => Some(
                        union_feature_lists(ws_features, member_features),
                    ),
                };
                let optional = match details.optional {
                    Some(b) => Some(b),
                    None => d.optional,
                };
                DefinedTomlDependency::Detailed(
                    TomlDependencyDetails {
                        version: clone_opt_string(&d.version),
                        registry: clone_opt_string(&d.registry),
                        registry_index: clone_opt_string(&d.registry_index),
                        path,
                        git: clone_opt_string(&d.git),
                        branch: clone_opt_string(&d.branch),
                        tag: clone_opt_string(&d.tag),
                        rev: clone_opt_string(&d.rev),
                        features,
                        optional,
                        default_features: d.default_features,
                        default_features2: d.default_features2,
                        package: clone_opt_string(&d.package),
                        public: d.public,
                    },
                )
            },
        }
    }
}

/// A raw declaration resolved against the workspace's shared dependency
/// table: explicit shapes pass through, a delegation looks the name up
/// and must find it.
pub open spec fn from_toml_dependency_spec(
    dep: TomlDependencyView,
    name: Seq<char>,
    ws_deps: Seq<(String, DefinedTomlDependency)>,
    root: Option<Seq<char>>,
) -> Result<DefinedDependencyView, ErrorView> {
    match dep {
        TomlDependencyView::Simple(s) => Ok(DefinedDependencyView::Simple(s)),
        TomlDependencyView::Detailed(d) => Ok(DefinedDependencyView::Detailed(d)),
        TomlDependencyView::Workspace(w) => if alist_has(ws_deps, name) {
            Ok(
                from_workspace_dependency_spec(
                    w,
                    ws_deps[alist_idx(ws_deps, name)].1.deep_view(),
                    root,
                ),
            )
        } else {
            Err(ErrorView::WorkspaceDependencyNotFound(name))
        },
    }
}

impl DefinedTomlDependency {
    /// Resolves one raw declaration: a delegation is looked up in the
    /// workspace's shared dependency table and merged with the member's
    /// overrides.
    pub fn from_toml_dependency(
        dep: &TomlDependency,
        name: &str,
        ws_deps: &Vec<(String, DefinedTomlDependency)>,
        root_path: Option<&String>,
    ) -> (r: Result<DefinedTomlDependency, ManifestError>)
        requires
            forall|i: int|
                0 <= i < ws_deps@.len() ==> (dep_has_path(#[trigger] ws_deps@[i].1.deep_view())
                    ==> root_path is Some),
        ensures
            crate::errors::result_view(r) == from_toml_dependency_spec(
                dep.deep_view(),
                name@,
                ws_deps@,
                root_path.deep_view(),
            ),
    {
        match dep {
            TomlDependency::Simple(s) => Ok(DefinedTomlDependency::Simple(s.clone())),
            TomlDependency::Detailed(detailed) => Ok(
                DefinedTomlDependency::Detailed(detailed.duplicate()),
            ),
            TomlDependency::Workspace(ws) => match alist_find(ws_deps, name) {
                Some(i) => Ok(
                    Self::from_workspace_dependency(ws, &ws_deps[i].1, root_path),
                ),
                None => Err(ManifestError::WorkspaceDependencyNotFound(name.to_owned())),
            },
        }
    }
}

} // verus!

verus! {

/// The state the materializer threads through one manifest: the package's
/// own identity and source, the records produced so far, discovered
/// nested paths, warnings, and the active platform key.
#[derive(Debug)]
pub struct DepContext {
    pub pkgid: Option<PackageId>,
    pub deps: Vec<Dependency>,
    pub source: SourceIdentity,
    pub nested_paths: Vec<String>,
    pub warnings: Vec<Warning>,
    pub platform: Option<String>,
    pub root: String,
    pub features: FeatureSet,
}

/// What deriving the source identity yields: the identity or the error,
/// the warnings it leaves, and the nested paths it records.
pub ghost struct SourceOutcome {
    pub result: Result<SourceIdentityView, ErrorView>,
    pub warnings: Seq<WarningView>,
    pub nested: Seq<Seq<char>>,
}

/// What materializing one dependency yields.
pub ghost struct DepOutcome {
    pub result: Result<DependencyView, ErrorView>,
    pub warnings: Seq<WarningView>,
    pub nested: Seq<Seq<char>>,
}

/// The warnings that precede source derivation: a declaration with no
/// source at all, build metadata in the version requirement, and
/// reference keys given without a version-control location.
pub open spec fn early_warnings(d: DepDetailsView, name: Seq<char>) -> Seq<WarningView> {
    let w1: Seq<WarningView> = if d.version is None && d.path is None && d.git is None {
        seq![WarningView::DependencyMissingSource(name)]
    } else {
        Seq::empty()
    };
    let w2: Seq<WarningView> = if d.version matches Some(v) && v.contains('+') {
        seq![WarningView::VersionReqMetadata { dep: name, req: d.version->0 }]
    } else {
        Seq::empty()
    };
    let w3: Seq<WarningView> = if d.git is None {
        (if d.branch is Some {
            seq![WarningView::GitKeyIgnored { dep: name, key: GitRefKey::BranchKey }]
        } else {
            Seq::empty()
        }) + (if d.tag is Some {
            seq![WarningView::GitKeyIgnored { dep: name, key: GitRefKey::TagKey }]
        } else {
            Seq::empty()
        }) + (if d.rev is Some {
            seq![WarningView::GitKeyIgnored { dep: name, key: GitRefKey::RevKey }]
        } else {
            Seq::empty()
        })
    } else {
        Seq::empty()
    };
    w1 + w2 + w3
}

/// The reference a version-control dependency follows: the first set key
/// in branch, tag, revision order, else the default branch.
pub open spec fn git_reference_of(d: DepDetailsView) -> GitReferenceView {
    if d.branch is Some {
        GitReferenceView::Branch(d.branch->0)
    } else if d.tag is Some {
        GitReferenceView::Tag(d.tag->0)
    } else if d.rev is Some {
        GitReferenceView::Rev(d.rev->0)
    } else {
        GitReferenceView::DefaultBranch
    }
}

/// How many of branch, tag and revision are set.
pub open spec fn n_git_refs(d: DepDetailsView) -> int {
    (if d.branch is Some {
        1int
    } else {
        0int
    }) + (if d.tag is Some {
        1int
    } else {
        0int
    }) + (if d.rev is Some {
        1int
    } else {
        0int
    })
}

/// Deriving the one source identity of a dependency. A version-control
/// location may not be combined with a registry, nor a registry name with
/// a registry URL. A version-control location accepts at most one
/// reference key — more is a warning, as is a path beside it and a URL
/// fragment. A path inherits the package's own identity unless that is
/// itself a path source, in which case the joined path is normalized so
/// that identical locations read identically. A registry name, a registry
/// URL or nothing selects the named, the explicit or the default registry.
pub open spec fn source_outcome(
    d: DepDetailsView,
    name: Seq<char>,
    cx_source: SourceIdentityView,
    root: Seq<char>,
) -> SourceOutcome {
    if d.git is Some && (d.registry is Some || d.registry_index is Some) {
        SourceOutcome {
            result: Err(ErrorView::AmbiguousGitRegistry(name)),
            warnings: Seq::empty(),
            nested: Seq::empty(),
        }
    } else if d.registry is Some && d.registry_index is Some {
        SourceOutcome {
            result: Err(ErrorView::AmbiguousRegistryIndex(name)),
            warnings: Seq::empty(),
            nested: Seq::empty(),
        }
    } else if d.git is Some {
        let w1: Seq<WarningView> = if d.path is Some {
            seq![WarningView::AmbiguousGitPath(name)]
        } else {
            Seq::empty()
        };
        let w2: Seq<WarningView> = if n_git_refs(d) > 1 {
            seq![WarningView::AmbiguousGitReference(name)]
        } else {
            Seq::empty()
        };
        match url_parse(d.git->0) {
            None => SourceOutcome {
                result: Err(ErrorView::InvalidGitUrl { dep: name, url: d.git->0 }),
                warnings: w1 + w2,
                nested: Seq::empty(),
            },
            Some(t) => {
                let w3: Seq<WarningView> = if t.1 is Some {
                    seq![WarningView::UrlFragmentIgnored { dep: name, fragment: t.1->0 }]
                } else {
                    Seq::empty()
                };
                SourceOutcome {
                    result: Ok(
                        SourceIdentityView::Git { url: t.0, reference: git_reference_of(d) },
                    ),
                    warnings: w1 + w2 + w3,
                    nested: Seq::empty(),
                }
            },
        }
    } else if d.path is Some {
        SourceOutcome {
            result: Ok(
                if cx_source is PathSource {
                    SourceIdentityView::PathSource(
                        normalize_spec(join_path_spec(root, d.path->0)),
                    )
                } else {
                    cx_source
                },
            ),
            warnings: Seq::empty(),
            nested: seq![d.path->0],
        }
    } else if d.registry is Some {
        SourceOutcome {
            result: Ok(SourceIdentityView::AltRegistry(d.registry->0)),
            warnings: Seq::empty(),
            nested: Seq::empty(),
        }
    } else if d.registry_index is Some {
        match url_parse(d.registry_index->0) {
            None => SourceOutcome {
                result: Err(ErrorView::InvalidRegistryUrl { dep: name, url: d.registry_index->0 }),
                warnings: Seq::empty(),
                nested: Seq::empty(),
            },
            Some(t) => SourceOutcome {
                result: Ok(SourceIdentityView::RegistryUrl(t.0)),
                warnings: Seq::empty(),
                nested: Seq::empty(),
            },
        }
    } else {
        SourceOutcome {
            result: Ok(SourceIdentityView::DefaultRegistry),
            warnings: Seq::empty(),
            nested: Seq::empty(),
        }
    }
}

/// The registry a declaration names for the dependency's own versions.
pub open spec fn registry_id_of(d: DepDetailsView, name: Seq<char>) -> Result<
    Option<SourceIdentityView>,
    ErrorView,
> {
    if d.registry is Some {
        Ok(Some(SourceIdentityView::AltRegistry(d.registry->0)))
    } else if d.registry_index is Some {
        match url_parse(d.registry_index->0) {
            None => Err(ErrorView::InvalidRegistryUrl { dep: name, url: d.registry_index->0 }),
            Some(t) => Ok(Some(SourceIdentityView::RegistryUrl(t.0))),
        }
    } else {
        Ok(None)
    }
}

/// Materializing one detailed declaration: the early warnings, the source
/// identity, the version requirement's well-formedness, the named
/// registry, then the capability gates for renaming and visibility.
pub open spec fn to_dependency_spec(
    d: DepDetailsView,
    name: Seq<char>,
    cx_source: SourceIdentityView,
    root: Seq<char>,
    platform: Option<Seq<char>>,
    fs: FeatureSet,
    kind: Option<DepKind>,
) -> DepOutcome {
    let ew = early_warnings(d, name);
    let so = source_outcome(d, name, cx_source, root);
    let warnings = ew + so.warnings;
    match so.result {
        Err(e) => DepOutcome { result: Err(e), warnings, nested: so.nested },
        Ok(src) => if d.version matches Some(v) && !semver_req_ok(v) {
            DepOutcome {
                result: Err(ErrorView::InvalidVersionReq { dep: name, req: d.version->0 }),
                warnings,
                nested: so.nested,
            }
        } else {
            match registry_id_of(d, name) {
                Err(e) => DepOutcome { result: Err(e), warnings, nested: so.nested },
                Ok(reg_id) => {
                    let kindv = match kind {
                        Some(k) => k,
                        None => DepKind::Normal,
                    };
                    if d.package is Some && !fs.rename_dependency {
                        DepOutcome {
                            result: Err(ErrorView::FeatureGate(Capability::RenameDependency)),
                            warnings,
                            nested: so.nested,
                        }
                    } else if d.public is Some && !fs.public_dependency {
                        DepOutcome {
                            result: Err(ErrorView::FeatureGate(Capability::PublicDependency)),
                            warnings,
                            nested: so.nested,
                        }
                    } else if d.public is Some && kindv != DepKind::Normal {
                        DepOutcome {
                            result: Err(
                                ErrorView::PublicOnNonNormalDependency { dep: name, kind: kindv },
                            ),
                            warnings,
                            nested: so.nested,
                        }
                    } else {
                        DepOutcome {
                            result: Ok(
                                DependencyView {
                                    name: if d.package is Some {
                                        d.package->0
                                    } else {
                                        name
                                    },
                                    explicit_name_in_toml: if d.package is Some {
                                        Some(name)
                                    } else {
                                        None
                                    },
                                    version_req: match d.version {
                                        Some(v) => DepVersionReqView::Req(v),
                                        None => DepVersionReqView::AnyVersion,
                                    },
                                    source: src,
                                    registry_id: reg_id,
                                    features: match d.features {
                                        Some(f) => f,
                                        None => Seq::empty(),
                                    },
                                    default_features: match d.default_features {
                                        Some(b) => b,
                                        None => match d.default_features2 {
                                            Some(b) => b,
                                            None => true,
                                        },
                                    },
                                    optional: d.optional == Some(true),
                                    public: d.public == Some(true),
                                    kind: kindv,
                                    platform,
                                },
                            ),
                            warnings,
                            nested: so.nested,
                        }
                    }
                },
            }
        },
    }
}

} // verus!

verus! {

impl TomlDependencyDetails {
    /// Leaves the warnings that precede source derivation.
    fn emit_early_warnings(&self, name_in_toml: &str, warnings: &mut Vec<Warning>)
        ensures
            final(warnings).deep_view() == old(warnings).deep_view() + early_warnings(
                self.deep_view(),
                name_in_toml@,
            ),
    {
        let ghost d = self.deep_view();
        if self.version.is_none() && self.path.is_none() && self.git.is_none() {
            crate::profiles::push_warning(
                warnings,
                Warning::DependencyMissingSource(name_in_toml.to_owned()),
            );
        }
        if let Some(version) = &self.version {
            if str_contains_char(version.as_str(), '+') {
                crate::profiles::push_warning(
                    warnings,
                    Warning::VersionReqMetadata {
                        dep: name_in_toml.to_owned(),
                        req: version.clone(),
                    },
                );
            }
        }
        if self.git.is_none() {
            if self.branch.is_some() {
                crate::profiles::push_warning(
                    warnings,
                    Warning::GitKeyIgnored {
                        dep: name_in_toml.to_owned(),
                        key: GitRefKey::BranchKey,
                    },
                );
            }
            if self.tag.is_some() {
                crate::profiles::push_warning(
                    warnings,
                    Warning::GitKeyIgnored { dep: name_in_toml.to_owned(), key: GitRefKey::TagKey },
                );
            }
            if self.rev.is_some() {
                crate::profiles::push_warning(
                    warnings,
                    Warning::GitKeyIgnored { dep: name_in_toml.to_owned(), key: GitRefKey::RevKey },
                );
            }
        }
        proof {
            assert(warnings.deep_view() =~= old(warnings).deep_view() + early_warnings(d, name_in_toml@));
        }
    }

    /// Derives the source identity, leaving its warnings and nested paths
    /// on the context.
    #[verifier::rlimit(100)]
    #[verifier::spinoff_prover]
    fn derive_source(&self, name_in_toml: &str, cx: &mut DepContext) -> (r: Result<
        SourceIdentity,
        ManifestError,
    >)
        ensures
            ({
                let so = source_outcome(
                    self.deep_view(),
                    name_in_toml@,
                    old(cx).source.deep_view(),
                    old(cx).root@,
                );
                &&& match r {
                    Ok(src) => so.result matches Ok(s) && src.deep_view() == s,
                    Err(e) => so.result == Err::<SourceIdentityView, ErrorView>(e.deep_view()),
                }
                &&& final(cx).warnings.deep_view() == old(cx).warnings.deep_view() + so.warnings
                &&& final(cx).nested_paths.deep_view() == old(cx).nested_paths.deep_view()
                    + so.nested
                &&& final(cx).deps == old(cx).deps
                &&& final(cx).source == old(cx).source
                &&& final(cx).platform == old(cx).platform
                &&& final(cx).root == old(cx).root
                &&& final(cx).features == old(cx).features
                &&& final(cx).pkgid == old(cx).pkgid
            }),
    {
        let ghost d = self.deep_view();
        let ghost name_v = name_in_toml@;
        let ghost so = source_outcome(d, name_v, old(cx).source.deep_view(), old(cx).root@);
        let source: SourceIdentity = if self.git.is_some() && (self.registry.is_some()
            || self.registry_index.is_some()) {
            proof {
                assert(old(cx).nested_paths.deep_view() + so.nested
                    =~= cx.nested_paths.deep_view());
                assert(cx.warnings.deep_view() =~= old(cx).warnings.deep_view() + so.warnings);
            }
            return Err(ManifestError::AmbiguousGitRegistry(name_in_toml.to_owned()));
        } else if self.registry.is_some() && self.registry_index.is_some() {
            proof {
                assert(old(cx).nested_paths.deep_view() + so.nested
                    =~= cx.nested_paths.deep_view());
                assert(cx.warnings.deep_view() =~= old(cx).warnings.deep_view() + so.warnings);
            }
            return Err(ManifestError::AmbiguousRegistryIndex(name_in_toml.to_owned()));
        } else if let Some(git) = &self.git {
            if self.path.is_some() {
                crate::profiles::push_warning(
                    &mut cx.warnings,
                    Warning::AmbiguousGitPath(name_in_toml.to_owned()),
                );
            }
            let many = (self.branch.is_some() && self.tag.is_some()) || (self.branch.is_some()
                && self.rev.is_some()) || (self.tag.is_some() && self.rev.is_some());
            proof {
                assert(many == (n_git_refs(d) > 1));
            }
            if many {
                crate::profiles::push_warning(
                    &mut cx.warnings,
                    Warning::AmbiguousGitReference(name_in_toml.to_owned()),
                );
            }
            let reference = if let Some(b) = &self.branch {
                GitReference::Branch(b.clone())
            } else if let Some(t) = &self.tag {
                GitReference::Tag(t.clone())
            } else if let Some(rv) = &self.rev {
                GitReference::Rev(rv.clone())
            } else {
                GitReference::DefaultBranch
            };
            proof {
                assert(reference.deep_view() == git_reference_of(d));
            }
            match parse_url(git.as_str()) {
                None => {
                    proof {
                        assert(old(cx).nested_paths.deep_view() + so.nested
                            =~= cx.nested_paths.deep_view());
                        assert(cx.warnings.deep_view() =~= old(cx).warnings.deep_view()
                            + so.warnings);
                    }
                    return Err(
                        ManifestError::InvalidGitUrl {
                            dep: name_in_toml.to_owned(),
                            url: git.clone(),
                        },
                    );
                },
                Some(parts) => {
                    if let Some(fragment) = &parts.fragment {
                        crate::profiles::push_warning(
                            &mut cx.warnings,
                            Warning::UrlFragmentIgnored {
                                dep: name_in_toml.to_owned(),
                                fragment: fragment.clone(),
                            },
                        );
                    }
                    SourceIdentity::Git { url: parts.text, reference }
                },
            }
        } else if let Some(path) = &self.path {
            let ghost old_nested = cx.nested_paths.deep_view();
            cx.nested_paths.push(path.clone());
            proof {
                assert(cx.nested_paths.deep_view() =~= old_nested.push(path@));
                assert(old(cx).nested_paths.deep_view() + so.nested
                    =~= cx.nested_paths.deep_view());
            }
            if cx.source.is_path() {
                let joined = join_path(cx.root.as_str(), path.as_str());
                let normalized = normalize_path(joined.as_str());
                SourceIdentity::PathSource(normalized)
            } else {
                cx.source.duplicate()
            }
        } else if let Some(registry) = &self.registry {
            SourceIdentity::AltRegistry(registry.clone())
        } else if let Some(registry_index) = &self.registry_index {
            match parse_url(registry_index.as_str()) {
                None => {
                    proof {
                        assert(old(cx).nested_paths.deep_view() + so.nested
                            =~= cx.nested_paths.deep_view());
                        assert(cx.warnings.deep_view() =~= old(cx).warnings.deep_view()
                            + so.warnings);
                    }
                    return Err(
                        ManifestError::InvalidRegistryUrl {
                            dep: name_in_toml.to_owned(),
                            url: registry_index.clone(),
                        },
                    );
                },
                Some(parts) => SourceIdentity::RegistryUrl(parts.text),
            }
        } else {
            SourceIdentity::DefaultRegistry
        };
        proof {
            assert(so.result matches Ok(s) && source.deep_view() == s);
            assert(cx.warnings.deep_view() =~= old(cx).warnings.deep_view() + so.warnings);
            assert(old(cx).nested_paths.deep_view() + so.nested =~= cx.nested_paths.deep_view());
        }
        Ok(source)
    }

    /// Turns one detailed declaration into a dependency record bound to
    /// its source identity, collecting warnings and nested paths on the
    /// context. The record, the error, the warnings and the nested paths
    /// are exactly what `to_dependency_spec` derives.
    #[verifier::rlimit(60)]
    pub fn to_dependency(
        &self,
        name_in_toml: &str,
        cx: &mut DepContext,
        kind: Option<DepKind>,
    ) -> (r: Result<Dependency, ManifestError>)
        ensures
            ({
                let outcome = to_dependency_spec(
                    self.deep_view(),
                    name_in_toml@,
                    old(cx).source.deep_view(),
                    old(cx).root@,
                    old(cx).platform.deep_view(),
                    old(cx).features,
                    kind,
                );
                &&& crate::errors::result_view(r) == outcome.result
                &&& final(cx).warnings.deep_view() == old(cx).warnings.deep_view()
                    + outcome.warnings
                &&& final(cx).nested_paths.deep_view() == old(cx).nested_paths.deep_view()
                    + outcome.nested
                &&& final(cx).deps == old(cx).deps
                &&& final(cx).source == old(cx).source
                &&& final(cx).platform == old(cx).platform
                &&& final(cx).root == old(cx).root
                &&& final(cx).features == old(cx).features
                &&& final(cx).pkgid == old(cx).pkgid
            }),
    {
        let ghost d = self.deep_view();
        let ghost name_v = name_in_toml@;
        let ghost ew = early_warnings(d, name_v);
        let ghost so = source_outcome(d, name_v, old(cx).source.deep_view(), old(cx).root@);
        self.emit_early_warnings(name_in_toml, &mut cx.warnings);
        let source = match self.derive_source(name_in_toml, cx) {
            Ok(src) => src,
            Err(e) => {
                proof {
                    assert(cx.warnings.deep_view() =~= old(cx).warnings.deep_view() + (ew
                        + so.warnings));
                }
                return Err(e);
            },
        };
        proof {
            assert(cx.warnings.deep_view() =~= old(cx).warnings.deep_view() + (ew + so.warnings));
        }

        if let Some(version) = &self.version {
            if !version_req_ok(version.as_str()) {
                return Err(
                    ManifestError::InvalidVersionReq {
                        dep: name_in_toml.to_owned(),
                        req: version.clone(),
                    },
                );
            }
        }

        let registry_id: Option<SourceIdentity> = if let Some(registry) = &self.registry {
            Some(SourceIdentity::AltRegistry(registry.clone()))
        } else if let Some(registry_index) = &self.registry_index {
            match parse_url(registry_index.as_str()) {
                None => {
                    return Err(
                        ManifestError::InvalidRegistryUrl {
                            dep: name_in_toml.to_owned(),
                            url: registry_index.clone(),
                        },
                    );
                },
                Some(parts) => Some(SourceIdentity::RegistryUrl(parts.text)),
            }
        } else {
            None
        };

        let (pkg_name, explicit_name_in_toml): (String, Option<String>) = match &self.package {
            Some(s) => (s.clone(), Some(name_in_toml.to_owned())),
            None => (name_in_toml.to_owned(), None),
        };
        if explicit_name_in_toml.is_some() {
            if let Err(e) = cx.features.require(Capability::RenameDependency) {
                return Err(e);
            }
        }

        let kindv = match kind {
            Some(k) => k,
            None => DepKind::Normal,
        };
        let public = match self.public {
            Some(p) => {
                if let Err(e) = cx.features.require(Capability::PublicDependency) {
                    return Err(e);
                }
                if !matches!(kindv, DepKind::Normal) {
                    return Err(
                        ManifestError::PublicOnNonNormalDependency {
                            dep: name_in_toml.to_owned(),
                            kind: kindv,
                        },
                    );
                }
                p
            },
            None => false,
        };

        let features = match &self.features {
            Some(f) => crate::strutil::clone_string_vec(f),
            None => Vec::new(),
        };
        proof {
            if d.features is None {
                assert(features.deep_view() =~= Seq::<Seq<char>>::empty());
            }
        }
        let default_features = match self.default_features {
            Some(b) => b,
            None => match self.default_features2 {
                Some(b) => b,
                None => true,
            },
        };
        let optional = match self.optional {
            Some(b) => b,
            None => false,
        };
        let version_req = match &self.version {
            Some(v) => DepVersionReq::Req(v.clone()),
            None => DepVersionReq::AnyVersion,
        };
        Ok(
            Dependency {
                name: pkg_name,
                explicit_name_in_toml,
                version_req,
                source,
                registry_id,
                features,
                default_features,
                optional,
                public,
                kind: kindv,
                platform: clone_opt_string(&cx.platform),
            },
        )
    }
}

} // verus!

verus! {

/// A filter over resolved declarations.
#[derive(Debug, Clone, Copy, PartialEq, Eq)]
pub enum DepFilter {
    AllDeps,
    VersionSpecified,
}

/// Whether a filter keeps a declaration.
pub open spec fn filter_keeps(f: DepFilter, dd: DefinedDependencyView) -> bool {
    match f {
        DepFilter::AllDeps => true,
        DepFilter::VersionSpecified => is_version_specified_view(dd),
    }
}

impl DepFilter {
    /// Applies the filter.
    pub fn keeps(&self, dep: &DefinedTomlDependency) -> (r: bool)
        ensures
            r == filter_keeps(*self, dep.deep_view()),
    {
        match self {
            DepFilter::AllDeps => true,
            DepFilter::VersionSpecified => dep.is_version_specified(),
        }
    }
}

/// One declaration readied for publishing: a bare version becomes the
/// detailed shape; the path and version-control keys are dropped; a
/// registry name is elaborated to its index URL, which must be known.
pub open spec fn map_dependency_spec(
    urls: Seq<(String, String)>,
    dd: DefinedDependencyView,
) -> Result<DefinedDependencyView, ErrorView> {
    match dd {
        DefinedDependencyView::Simple(s) => Ok(
            DefinedDependencyView::Detailed(
                DepDetailsView { version: Some(s), ..empty_details_view() },
            ),
        ),
        DefinedDependencyView::Detailed(d) => {
            let cleared = DepDetailsView {
                path: None,
                git: None,
                branch: None,
                tag: None,
                rev: None,
                ..d
            };
            if d.registry is Some {
                if alist_has(urls, d.registry->0) {
                    Ok(
                        DefinedDependencyView::Detailed(
                            DepDetailsView {
                                registry: None,
                                registry_index: Some(
                                    urls[alist_idx(urls, d.registry->0)].1@,
                                ),
                                ..cleared
                            },
                        ),
                    )
                } else {
                    Err(ErrorView::UnknownRegistry(d.registry->0))
                }
            } else {
                Ok(DefinedDependencyView::Detailed(cleared))
            }
        },
    }
}

/// Readies one declaration for publishing. The index URL of each named
/// registry is taken from the given table.
pub fn map_dependency(registry_urls: &Vec<(String, String)>, dep: &DefinedTomlDependency) -> (r:
    Result<DefinedTomlDependency, ManifestError>)
    ensures
        crate::errors::result_view(r) == map_dependency_spec(registry_urls@, dep.deep_view()),
{
    match dep {
        DefinedTomlDependency::Simple(s) => {
            let mut out = TomlDependencyDetails::new();
            out.version = Some(s.clone());
            Ok(DefinedTomlDependency::Detailed(out))
        },
        DefinedTomlDependency::Detailed(d) => {
            let mut out = d.duplicate();
            out.path = None;
            out.git = None;
            out.branch = None;
            out.tag = None;
            out.rev = None;
            if let Some(registry) = &d.registry {
                match alist_find(registry_urls, registry.as_str()) {
                    Some(i) => {
                        out.registry = None;
                        out.registry_index = Some(registry_urls[i].1.clone());
                    },
                    None => {
                        return Err(ManifestError::UnknownRegistry(registry.clone()));
                    },
                }
            }
            Ok(DefinedTomlDependency::Detailed(out))
        },
    }
}

/// A dependency table readied for publishing: entries the filter drops
/// are left out, the rest are mapped in order, stopping at the first
/// error.
pub open spec fn map_deps_spec(
    urls: Seq<(String, String)>,
    deps: Seq<(String, DefinedTomlDependency)>,
    filter: DepFilter,
) -> Result<Seq<(Seq<char>, DefinedDependencyView)>, ErrorView>
    decreases deps.len(),
{
    if deps.len() == 0 {
        Ok(Seq::empty())
    } else if !filter_keeps(filter, deps[0].1.deep_view()) {
        map_deps_spec(urls, deps.drop_first(), filter)
    } else {
        match map_dependency_spec(urls, deps[0].1.deep_view()) {
            Err(e) => Err(e),
            Ok(v) => match map_deps_spec(urls, deps.drop_first(), filter) {
                Err(e) => Err(e),
                Ok(rest) => Ok(seq![(deps[0].0@, v)] + rest),
            },
        }
    }
}

/// Readies a dependency table for publishing, keeping only what the
/// filter accepts.
pub fn map_deps(
    registry_urls: &Vec<(String, String)>,
    deps: Option<&Vec<(String, DefinedTomlDependency)>>,
    filter: DepFilter,
) -> (r: Result<Option<Vec<(String, DefinedTomlDependency)>>, ManifestError>)
    ensures
        match deps {
            None => r matches Ok(o) && o is None,
            Some(d) => match map_deps_spec(registry_urls@, d@, filter) {
                Ok(out) => r matches Ok(o) && o matches Some(v) && v.deep_view() == out,
                Err(e) => r matches Err(re) && re.deep_view() == e,
            },
        },
{
    let deps = match deps {
        Some(deps) => deps,
        None => {
            return Ok(None);
        },
    };
    let ghost full = deps@;
    let mut out: Vec<(String, DefinedTomlDependency)> = Vec::new();
    let mut i: usize = 0;
    proof {
        assert(full.subrange(0, full.len() as int) =~= full);
        assert(out.deep_view() =~= Seq::<(Seq<char>, DefinedDependencyView)>::empty());
    }
    #[verifier::loop_isolation(false)]
    while i < deps.len()
        invariant
            i <= deps@.len(),
            match map_deps_spec(registry_urls@, full.subrange(i as int, full.len() as int), filter) {
                Ok(rest) => map_deps_spec(registry_urls@, full, filter) == Ok::<
                    Seq<(Seq<char>, DefinedDependencyView)>,
                    ErrorView,
                >(out.deep_view() + rest),
                Err(e) => map_deps_spec(registry_urls@, full, filter) == Err::<
                    Seq<(Seq<char>, DefinedDependencyView)>,
                    ErrorView,
                >(e),
            },
        decreases deps@.len() - i,
    {
        let ghost rest = full.subrange(i as int, full.len() as int);
        proof {
            assert(rest[0] == full[i as int]);
            assert(rest.drop_first() =~= full.subrange(i + 1 as int, full.len() as int));
        }
        if filter.keeps(&deps[i].1) {
            match map_dependency(registry_urls, &deps[i].1) {
                Err(e) => {
                    return Err(e);
                },
                Ok(v) => {
                    let ghost old_out = out.deep_view();
                    out.push((deps[i].0.clone(), v));
                    proof {
                        assert(out.deep_view() =~= old_out.push(
                            (deps@[i as int].0@, out@[out@.len() - 1].1.deep_view()),
                        ));
                        assert(old_out + (seq![
                            (full[i as int].0@, out@[out@.len() - 1].1.deep_view()),
                        ] + map_deps_spec_ok(
                            registry_urls@,
                            full.subrange(i + 1 as int, full.len() as int),
                            filter,
                        )) =~= out.deep_view() + map_deps_spec_ok(
                            registry_urls@,
                            full.subrange(i + 1 as int, full.len() as int),
                            filter,
                        ));
                    }
                },
            }
        }
        i = i + 1;
    }
    proof {
        assert(full.subrange(full.len() as int, full.len() as int) =~= Seq::<
            (String, DefinedTomlDependency),
        >::empty());
        assert(out.deep_view() + Seq::<(Seq<char>, DefinedDependencyView)>::empty()
            =~= out.deep_view());
    }
    Ok(Some(out))
}

/// The successful value of `map_deps_spec`, where it is known to succeed.
pub open spec fn map_deps_spec_ok(
    urls: Seq<(String, String)>,
    deps: Seq<(String, DefinedTomlDependency)>,
    filter: DepFilter,
) -> Seq<(Seq<char>, DefinedDependencyView)> {
    map_deps_spec(urls, deps, filter)->Ok_0
}

} // verus!

verus! {

/// Materializing a resolved declaration: a bare version requirement is
/// the detailed shape with only the version set.
pub open spec fn defined_to_dependency_spec(
    dd: DefinedDependencyView,
    name: Seq<char>,
    cx_source: SourceIdentityView,
    root: Seq<char>,
    platform: Option<Seq<char>>,
    fs: FeatureSet,
    kind: Option<DepKind>,
) -> DepOutcome {
    match dd {
        DefinedDependencyView::Simple(v) => to_dependency_spec(
            DepDetailsView { version: Some(v), ..empty_details_view() },
            name,
            cx_source,
            root,
            platform,
            fs,
            kind,
        ),
        DefinedDependencyView::Detailed(d) => to_dependency_spec(
            d,
            name,
            cx_source,
            root,
            platform,
            fs,
            kind,
        ),
    }
}

impl DefinedTomlDependency {
    /// Turns one resolved declaration into a dependency record.
    pub fn to_dependency(&self, name: &str, cx: &mut DepContext, kind: Option<DepKind>) -> (r:
        Result<Dependency, ManifestError>)
        ensures
            ({
                let outcome = defined_to_dependency_spec(
                    self.deep_view(),
                    name@,
                    old(cx).source.deep_view(),
                    old(cx).root@,
                    old(cx).platform.deep_view(),
                    old(cx).features,
                    kind,
                );
                &&& crate::errors::result_view(r) == outcome.result
                &&& final(cx).warnings.deep_view() == old(cx).warnings.deep_view()
                    + outcome.warnings
                &&& final(cx).nested_paths.deep_view() == old(cx).nested_paths.deep_view()
                    + outcome.nested
                &&& final(cx).deps == old(cx).deps
                &&& final(cx).source == old(cx).source
                &&& final(cx).platform == old(cx).platform
                &&& final(cx).root == old(cx).root
                &&& final(cx).features == old(cx).features
                &&& final(cx).pkgid == old(cx).pkgid
            }),
    {
        match self {
            DefinedTomlDependency::Simple(version) => {
                let mut details = TomlDependencyDetails::new();
                details.version = Some(version.clone());
                details.to_dependency(name, cx, kind)
            },
            DefinedTomlDependency::Detailed(details) => details.to_dependency(name, cx, kind),
        }
    }
}

/// A raw dependency table resolved entry by entry, stopping at the first
/// error.
pub open spec fn map_defined(
    deps: Seq<(String, TomlDependency)>,
    ws_deps: Seq<(String, DefinedTomlDependency)>,
    root: Option<Seq<char>>,
) -> Result<Seq<(Seq<char>, DefinedDependencyView)>, ErrorView>
    decreases deps.len(),
{
    if deps.len() == 0 {
        Ok(Seq::empty())
    } else {
        match from_toml_dependency_spec(deps[0].1.deep_view(), deps[0].0@, ws_deps, root) {
            Err(e) => Err(e),
            Ok(v) => match map_defined(deps.drop_first(), ws_deps, root) {
                Err(e) => Err(e),
                Ok(rest) => Ok(seq![(deps[0].0@, v)] + rest),
            },
        }
    }
}

/// The successful value of `map_defined`, where it is known to succeed.
pub open spec fn map_defined_ok(
    deps: Seq<(String, TomlDependency)>,
    ws_deps: Seq<(String, DefinedTomlDependency)>,
    root: Option<Seq<char>>,
) -> Seq<(Seq<char>, DefinedDependencyView)> {
    map_defined(deps, ws_deps, root)->Ok_0
}

/// What resolving an optional dependency table yields.
pub open spec fn to_defined_dependencies_spec(
    deps: Option<Seq<(String, TomlDependency)>>,
    ws_deps: Seq<(String, DefinedTomlDependency)>,
    root: Option<Seq<char>>,
) -> Result<Option<Seq<(Seq<char>, DefinedDependencyView)>>, ErrorView> {
    match deps {
        None => Ok(None),
        Some(d) => match map_defined(d, ws_deps, root) {
            Err(e) => Err(e),
            Ok(out) => Ok(Some(out)),
        },
    }
}

/// Whether every workspace entry that carries a path comes with a known
/// workspace root to resolve it against.
pub open spec fn ws_paths_rooted(
    ws_deps: Seq<(String, DefinedTomlDependency)>,
    root: Option<Seq<char>>,
) -> bool {
    forall|i: int|
        0 <= i < ws_deps.len() ==> (dep_has_path(#[trigger] ws_deps[i].1.deep_view()) ==> root
            is Some)
}

/// Resolves a raw dependency table against the workspace's shared table.
pub fn to_defined_dependencies(
    deps: Option<&Vec<(String, TomlDependency)>>,
    ws_dependencies: Option<&Vec<(String, DefinedTomlDependency)>>,
    root_path: Option<&String>,
) -> (r: Result<Option<Vec<(String, DefinedTomlDependency)>>, ManifestError>)
    requires
        ws_dependencies matches Some(w) ==> ws_paths_rooted(w@, root_path.deep_view()),
    ensures
        ({
            let ws = match ws_dependencies {
                Some(w) => w@,
                None => Seq::empty(),
            };
            match to_defined_dependencies_spec(
                match deps {
                    Some(d) => Some(d@),
                    None => None,
                },
                ws,
                root_path.deep_view(),
            ) {
                Ok(out) => r matches Ok(o) && o.deep_view() == out,
                Err(e) => r matches Err(re) && re.deep_view() == e,
            }
        }),
{
    let empty_ws: Vec<(String, DefinedTomlDependency)> = Vec::new();
    let ws_deps: &Vec<(String, DefinedTomlDependency)> = match ws_dependencies {
        Some(w) => w,
        None => &empty_ws,
    };
    let deps = match deps {
        Some(deps) => deps,
        None => {
            return Ok(None);
        },
    };
    let ghost full = deps@;
    let mut out: Vec<(String, DefinedTomlDependency)> = Vec::new();
    let mut i: usize = 0;
    proof {
        assert(full.subrange(0, full.len() as int) =~= full);
        assert(out.deep_view() =~= Seq::<(Seq<char>, DefinedDependencyView)>::empty());
    }
    #[verifier::loop_isolation(false)]
    while i < deps.len()
        invariant
            i <= deps@.len(),
            match map_defined(
                full.subrange(i as int, full.len() as int),
                ws_deps@,
                root_path.deep_view(),
            ) {
                Ok(rest) => map_defined(full, ws_deps@, root_path.deep_view()) == Ok::<
                    Seq<(Seq<char>, DefinedDependencyView)>,
                    ErrorView,
                >(out.deep_view() + rest),
                Err(e) => map_defined(full, ws_deps@, root_path.deep_view()) == Err::<
                    Seq<(Seq<char>, DefinedDependencyView)>,
                    ErrorView,
                >(e),
            },
        decreases deps@.len() - i,
    {
        let ghost rest = full.subrange(i as int, full.len() as int);
        proof {
            assert(rest[0] == full[i as int]);
            assert(rest.drop_first() =~= full.subrange(i + 1 as int, full.len() as int));
        }
        match DefinedTomlDependency::from_toml_dependency(
            &deps[i].1,
            deps[i].0.as_str(),
            ws_deps,
            root_path,
        ) {
            Err(e) => {
                return Err(e);
            },
            Ok(v) => {
                let ghost old_out = out.deep_view();
                out.push((deps[i].0.clone(), v));
                proof {
                    assert(out.deep_view() =~= old_out.push(
                        (full[i as int].0@, out@[out@.len() - 1].1.deep_view()),
                    ));
                    assert(old_out + (seq![
                        (full[i as int].0@, out@[out@.len() - 1].1.deep_view()),
                    ] + map_defined_ok(
                        full.subrange(i + 1 as int, full.len() as int),
                        ws_deps@,
                        root_path.deep_view(),
                    )) =~= out.deep_view() + map_defined_ok(
                        full.subrange(i + 1 as int, full.len() as int),
                        ws_deps@,
                        root_path.deep_view(),
                    ));
                }
            },
        }
        i = i + 1;
    }
    proof {
        assert(full.subrange(full.len() as int, full.len() as int) =~= Seq::<
            (String, TomlDependency),
        >::empty());
        assert(out.deep_view() + Seq::<(Seq<char>, DefinedDependencyView)>::empty()
            =~= out.deep_view());
    }
    Ok(Some(out))
}

/// A resolved table written back in the document shape, entry by entry.
pub open spec fn to_toml_deps_view(deps: Seq<(String, DefinedTomlDependency)>) -> Seq<
    (Seq<char>, TomlDependencyView),
> {
    Seq::new(
        deps.len(),
        |i: int|
            (
                deps[i].0@,
                match deps[i].1.deep_view() {
                    DefinedDependencyView::Simple(s) => TomlDependencyView::Simple(s),
                    DefinedDependencyView::Detailed(d) => TomlDependencyView::Detailed(d),
                },
            ),
    )
}

/// Writes a resolved dependency table back in the document shape.
pub fn to_toml_dependencies(deps: Option<&Vec<(String, DefinedTomlDependency)>>) -> (r: Option<
    Vec<(String, TomlDependency)>,
>)
    ensures
        match deps {
            None => r is None,
            Some(d) => r matches Some(v) && v.deep_view() == to_toml_deps_view(d@),
        },
{
    let deps = match deps {
        Some(deps) => deps,
        None => {
            return None;
        },
    };
    let mut out: Vec<(String, TomlDependency)> = Vec::new();
    let mut i: usize = 0;
    proof {
        assert(out.deep_view() =~= to_toml_deps_view(deps@).subrange(0, 0));
    }
    #[verifier::loop_isolation(false)]
    while i < deps.len()
        invariant
            i <= deps@.len(),
            out.deep_view() == to_toml_deps_view(deps@).subrange(0, i as int),
        decreases deps@.len() - i,
    {
        let ghost old_out = out.deep_view();
        out.push((deps[i].0.clone(), TomlDependency::from_defined_dependency(&deps[i].1)));
        proof {
            assert(out.deep_view() =~= old_out.push(to_toml_deps_view(deps@)[i as int]));
            assert(out.deep_view() =~= to_toml_deps_view(deps@).subrange(0, i + 1));
        }
        i = i + 1;
    }
    proof {
        assert(to_toml_deps_view(deps@).subrange(0, deps@.len() as int) =~= to_toml_deps_view(
            deps@,
        ));
    }
    Some(out)
}

} // verus!

verus! {

/// The first option when it is set, else the second.
pub open spec fn or_opt<T>(a: Option<T>, b: Option<T>) -> Option<T> {
    if a is Some {
        a
    } else {
        b
    }
}

/// The dependency tables declared for one target platform, in the raw
/// document shape.
#[derive(Debug, PartialEq, Eq)]
pub struct TomlPlatform {
    pub dependencies: Option<Vec<(String, TomlDependency)>>,
    pub build_dependencies: Option<Vec<(String, TomlDependency)>>,
    /// The historical underscore spelling of `build-dependencies`.
    pub build_dependencies2: Option<Vec<(String, TomlDependency)>>,
    pub dev_dependencies: Option<Vec<(String, TomlDependency)>>,
    /// The historical underscore spelling of `dev-dependencies`.
    pub dev_dependencies2: Option<Vec<(String, TomlDependency)>>,
}

/// The dependency tables declared for one target platform, resolved.
#[derive(Debug, PartialEq, Eq)]
pub struct DefinedTomlPlatform {
    pub dependencies: Option<Vec<(String, DefinedTomlDependency)>>,
    pub build_dependencies: Option<Vec<(String, DefinedTomlDependency)>>,
    pub build_dependencies2: Option<Vec<(String, DefinedTomlDependency)>>,
    pub dev_dependencies: Option<Vec<(String, DefinedTomlDependency)>>,
    pub dev_dependencies2: Option<Vec<(String, DefinedTomlDependency)>>,
}

/// The mathematical shape of a resolved platform table.
pub ghost struct DefinedPlatformView {
    pub dependencies: Option<Seq<(Seq<char>, DefinedDependencyView)>>,
    pub build_dependencies: Option<Seq<(Seq<char>, DefinedDependencyView)>>,
    pub build_dependencies2: Option<Seq<(Seq<char>, DefinedDependencyView)>>,
    pub dev_dependencies: Option<Seq<(Seq<char>, DefinedDependencyView)>>,
    pub dev_dependencies2: Option<Seq<(Seq<char>, DefinedDependencyView)>>,
}

impl DeepView for DefinedTomlPlatform {
    type V = DefinedPlatformView;

    open spec fn deep_view(&self) -> DefinedPlatformView {
        DefinedPlatformView {
            dependencies: self.dependencies.deep_view(),
            build_dependencies: self.build_dependencies.deep_view(),
            build_dependencies2: self.build_dependencies2.deep_view(),
            dev_dependencies: self.dev_dependencies.deep_view(),
            dev_dependencies2: self.dev_dependencies2.deep_view(),
        }
    }
}

/// The mathematical shape of a raw platform table.
pub ghost struct TomlPlatformView {
    pub dependencies: Option<Seq<(Seq<char>, TomlDependencyView)>>,
    pub build_dependencies: Option<Seq<(Seq<char>, TomlDependencyView)>>,
    pub build_dependencies2: Option<Seq<(Seq<char>, TomlDependencyView)>>,
    pub dev_dependencies: Option<Seq<(Seq<char>, TomlDependencyView)>>,
    pub dev_dependencies2: Option<Seq<(Seq<char>, TomlDependencyView)>>,
}

impl DeepView for TomlPlatform {
    type V = TomlPlatformView;

    open spec fn deep_view(&self) -> TomlPlatformView {
        TomlPlatformView {
            dependencies: self.dependencies.deep_view(),
            build_dependencies: self.build_dependencies.deep_view(),
            build_dependencies2: self.build_dependencies2.deep_view(),
            dev_dependencies: self.dev_dependencies.deep_view(),
            dev_dependencies2: self.dev_dependencies2.deep_view(),
        }
    }
}

/// Resolving one platform's tables: the two spellings of the build and
/// dev tables are collapsed, then each table is resolved in order.
pub open spec fn from_toml_platform_spec(
    tp: TomlPlatform,
    ws_deps: Seq<(String, DefinedTomlDependency)>,
    root: Option<Seq<char>>,
) -> Result<DefinedPlatformView, ErrorView> {
    let deps_in = match tp.dependencies {
        Some(ref v) => Some(v@),
        None => None,
    };
    let build_in = match or_opt(tp.build_dependencies, tp.build_dependencies2) {
        Some(ref v) => Some(v@),
        None => None,
    };
    let dev_in = match or_opt(tp.dev_dependencies, tp.dev_dependencies2) {
        Some(ref v) => Some(v@),
        None => None,
    };
    match to_defined_dependencies_spec(deps_in, ws_deps, root) {
        Err(e) => Err(e),
        Ok(deps) => match to_defined_dependencies_spec(build_in, ws_deps, root) {
            Err(e) => Err(e),
            Ok(build) => match to_defined_dependencies_spec(dev_in, ws_deps, root) {
                Err(e) => Err(e),
                Ok(dev) => Ok(
                    DefinedPlatformView {
                        dependencies: deps,
                        build_dependencies: build,
                        build_dependencies2: None,
                        dev_dependencies: dev,
                        dev_dependencies2: None,
                    },
                ),
            },
        },
    }
}

impl DefinedTomlPlatform {
    /// Resolves one platform's dependency tables against the workspace's
    /// shared table.
    pub fn from_toml_platform(
        toml_platform: &TomlPlatform,
        ws_deps: &Vec<(String, DefinedTomlDependency)>,
        root_path: Option<&String>,
    ) -> (r: Result<DefinedTomlPlatform, ManifestError>)
        requires
            ws_paths_rooted(ws_deps@, root_path.deep_view()),
        ensures
            match from_toml_platform_spec(*toml_platform, ws_deps@, root_path.deep_view()) {
                Ok(out) => r matches Ok(p) && p.deep_view() == out,
                Err(e) => r matches Err(re) && re.deep_view() == e,
            },
    {
        let build_dependencies = match &toml_platform.build_dependencies {
            Some(v) => Some(v),
            None => toml_platform.build_dependencies2.as_ref(),
        };
        let dev_dependencies = match &toml_platform.dev_dependencies {
            Some(v) => Some(v),
            None => toml_platform.dev_dependencies2.as_ref(),
        };
        let dependencies = match to_defined_dependencies(
            toml_platform.dependencies.as_ref(),
            Some(ws_deps),
            root_path,
        ) {
            Ok(v) => v,
            Err(e) => {
                return Err(e);
            },
        };
        let build_dependencies = match to_defined_dependencies(
            build_dependencies,
            Some(ws_deps),
            root_path,
        ) {
            Ok(v) => v,
            Err(e) => {
                return Err(e);
            },
        };
        let dev_dependencies = match to_defined_dependencies(
            dev_dependencies,
            Some(ws_deps),
            root_path,
        ) {
            Ok(v) => v,
            Err(e) => {
                return Err(e);
            },
        };
        Ok(
            DefinedTomlPlatform {
                dependencies,
                build_dependencies,
                build_dependencies2: None,
                dev_dependencies,
                dev_dependencies2: None,
            },
        )
    }
}

/// A resolved platform written back in the document shape.
pub open spec fn platform_to_toml_view(dp: DefinedTomlPlatform) -> TomlPlatformView {
    TomlPlatformView {
        dependencies: match dp.dependencies {
            Some(ref v) => Some(to_toml_deps_view(v@)),
            None => None,
        },
        build_dependencies: match dp.build_dependencies {
            Some(ref v) => Some(to_toml_deps_view(v@)),
            None => None,
        },
        build_dependencies2: None,
        dev_dependencies: match dp.dev_dependencies {
            Some(ref v) => Some(to_toml_deps_view(v@)),
            None => None,
        },
        dev_dependencies2: None,
    }
}

impl TomlPlatform {
    /// Writes a resolved platform back in the document shape.
    pub fn from_defined_platform(defined_platform: &DefinedTomlPlatform) -> (r: TomlPlatform)
        ensures
            r.deep_view() == platform_to_toml_view(*defined_platform),
    {
        TomlPlatform {
            dependencies: to_toml_dependencies(defined_platform.dependencies.as_ref()),
            build_dependencies: to_toml_dependencies(defined_platform.build_dependencies.as_ref()),
            build_dependencies2: None,
            dev_dependencies: to_toml_dependencies(defined_platform.dev_dependencies.as_ref()),
            dev_dependencies2: None,
        }
    }
}

/// A raw platform map resolved entry by entry, stopping at the first
/// error.
pub open spec fn map_platforms(
    target: Seq<(String, TomlPlatform)>,
    ws_deps: Seq<(String, DefinedTomlDependency)>,
    root: Option<Seq<char>>,
) -> Result<Seq<(Seq<char>, DefinedPlatformView)>, ErrorView>
    decreases target.len(),
{
    if target.len() == 0 {
        Ok(Seq::empty())
    } else {
        match from_toml_platform_spec(target[0].1, ws_deps, root) {
            Err(e) => Err(e),
            Ok(v) => match map_platforms(target.drop_first(), ws_deps, root) {
                Err(e) => Err(e),
                Ok(rest) => Ok(seq![(target[0].0@, v)] + rest),
            },
        }
    }
}

/// The successful value of `map_platforms`, where it is known to succeed.
pub open spec fn map_platforms_ok(
    target: Seq<(String, TomlPlatform)>,
    ws_deps: Seq<(String, DefinedTomlDependency)>,
    root: Option<Seq<char>>,
) -> Seq<(Seq<char>, DefinedPlatformView)> {
    map_platforms(target, ws_deps, root)->Ok_0
}

/// Resolves the per-platform dependency tables.
pub fn to_defined_platform(
    toml_platform: Option<&Vec<(String, TomlPlatform)>>,
    ws_dependencies: Option<&Vec<(String, DefinedTomlDependency)>>,
    root_path: Option<&String>,
) -> (r: Result<Option<Vec<(String, DefinedTomlPlatform)>>, ManifestError>)
    requires
        ws_dependencies matches Some(w) ==> ws_paths_rooted(w@, root_path.deep_view()),
    ensures
        ({
            let ws = match ws_dependencies {
                Some(w) => w@,
                None => Seq::empty(),
            };
            match toml_platform {
                None => r matches Ok(o) && o is None,
                Some(t) => match map_platforms(t@, ws, root_path.deep_view()) {
                    Ok(out) => r matches Ok(o) && o matches Some(v) && v.deep_view() == out,
                    Err(e) => r matches Err(re) && re.deep_view() == e,
                },
            }
        }),
{
    let empty_ws: Vec<(String, DefinedTomlDependency)> = Vec::new();
    let ws_deps: &Vec<(String, DefinedTomlDependency)> = match ws_dependencies {
        Some(w) => w,
        None => &empty_ws,
    };
    let target = match toml_platform {
        Some(t) => t,
        None => {
            return Ok(None);
        },
    };
    let ghost full = target@;
    let mut out: Vec<(String, DefinedTomlPlatform)> = Vec::new();
    let mut i: usize = 0;
    proof {
        assert(full.subrange(0, full.len() as int) =~= full);
        assert(out.deep_view() =~= Seq::<(Seq<char>, DefinedPlatformView)>::empty());
    }
    #[verifier::loop_isolation(false)]
    while i < target.len()
        invariant
            i <= target@.len(),
            match map_platforms(
                full.subrange(i as int, full.len() as int),
                ws_deps@,
                root_path.deep_view(),
            ) {
                Ok(rest) => map_platforms(full, ws_deps@, root_path.deep_view()) == Ok::<
                    Seq<(Seq<char>, DefinedPlatformView)>,
                    ErrorView,
                >(out.deep_view() + rest),
                Err(e) => map_platforms(full, ws_deps@, root_path.deep_view()) == Err::<
                    Seq<(Seq<char>, DefinedPlatformView)>,
                    ErrorView,
                >(e),
            },
        decreases target@.len() - i,
    {
        let ghost rest = full.subrange(i as int, full.len() as int);
        proof {
            assert(rest[0] == full[i as int]);
            assert(rest.drop_first() =~= full.subrange(i + 1 as int, full.len() as int));
        }
        match DefinedTomlPlatform::from_toml_platform(&target[i].1, ws_deps, root_path) {
            Err(e) => {
                return Err(e);
            },
            Ok(v) => {
                let ghost old_out = out.deep_view();
                out.push((target[i].0.clone(), v));
                proof {
                    assert(out.deep_view() =~= old_out.push(
                        (full[i as int].0@, out@[out@.len() - 1].1.deep_view()),
                    ));
                    assert(old_out + (seq![
                        (full[i as int].0@, out@[out@.len() - 1].1.deep_view()),
                    ] + map_platforms_ok(
                        full.subrange(i + 1 as int, full.len() as int),
                        ws_deps@,
                        root_path.deep_view(),
                    )) =~= out.deep_view() + map_platforms_ok(
                        full.subrange(i + 1 as int, full.len() as int),
                        ws_deps@,
                        root_path.deep_view(),
                    ));
                }
            },
        }
        i = i + 1;
    }
    proof {
        assert(full.subrange(full.len() as int, full.len() as int) =~= Seq::<
            (String, TomlPlatform),
        >::empty());
        assert(out.deep_view() + Seq::<(Seq<char>, DefinedPlatformView)>::empty()
            =~= out.deep_view());
    }
    Ok(Some(out))
}

/// A resolved platform map written back in the document shape.
pub open spec fn platforms_to_toml_view(target: Seq<(String, DefinedTomlPlatform)>) -> Seq<
    (Seq<char>, TomlPlatformView),
> {
    Seq::new(target.len(), |i: int| (target[i].0@, platform_to_toml_view(target[i].1)))
}

/// Writes the per-platform tables back in the document shape.
pub fn to_toml_platform(defined_platform: Option<&Vec<(String, DefinedTomlPlatform)>>) -> (r:
    Option<Vec<(String, TomlPlatform)>>)
    ensures
        match defined_platform {
            None => r is None,
            Some(t) => r matches Some(v) && v.deep_view() == platforms_to_toml_view(t@),
        },
{
    let target = match defined_platform {
        Some(t) => t,
        None => {
            return None;
        },
    };
    let mut out: Vec<(String, TomlPlatform)> = Vec::new();
    let mut i: usize = 0;
    proof {
        assert(out.deep_view() =~= platforms_to_toml_view(target@).subrange(0, 0));
    }
    #[verifier::loop_isolation(false)]
    while i < target.len()
        invariant
            i <= target@.len(),
            out.deep_view() == platforms_to_toml_view(target@).subrange(0, i as int),
        decreases target@.len() - i,
    {
        let ghost old_out = out.deep_view();
        out.push((target[i].0.clone(), TomlPlatform::from_defined_platform(&target[i].1)));
        proof {
            assert(out.deep_view() =~= old_out.push(platforms_to_toml_view(target@)[i as int]));
            assert(out.deep_view() =~= platforms_to_toml_view(target@).subrange(0, i + 1));
        }
        i = i + 1;
    }
    proof {
        assert(platforms_to_toml_view(target@).subrange(0, target@.len() as int)
            =~= platforms_to_toml_view(target@));
    }
    Some(out)
}

} // verus!
