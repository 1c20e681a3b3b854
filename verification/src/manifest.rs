//! The manifest itself: the raw document shape, its canonical form, and
//! the assembly of the final manifest or the workspace-root-only variant.

use vstd::prelude::*;
use crate::depend::{
    map_defined, map_deps, map_deps_spec, map_platforms, or_opt, to_defined_dependencies,
    to_defined_platform, to_toml_dependencies, to_toml_platform, defined_to_dependency_spec,
    to_toml_deps_view, platforms_to_toml_view, DefinedDependencyView, DefinedPlatformView,
    DefinedTomlDependency, DefinedTomlPlatform, DepContext, DepFilter, TomlDependency,
    TomlDependencyView, TomlPlatform, ws_paths_rooted,
};
use crate::errors::{
    Capability, DepKind, ErrorView, ManifestError, NameKind, SectionKind, Warning, WarningView,
};
use crate::ext::{platform_ok, platform_warnings, Version};
use crate::features::FeatureSet;
use crate::names::validate_package_name;
use crate::pkgid::{parse_pkgid_spec, PackageIdSpec};
use crate::profiles::{profiles_err, profiles_warnings, TomlProfiles};
use crate::project::{
    ws_default, ws_default_spec, DefinedTomlPackage, TomlProject, TomlWorkspace, WorkspaceConfig,
    WorkspaceConfigView, WorkspaceRootConfig,
};
use crate::source::{
    name_in_toml_spec, Dependency, DependencyView, DepVersionReq, GitReference, PackageId,
    SourceIdentity, SourceIdentityView,
};
use crate::strutil::{
    alist_find, alist_has, alist_idx, clone_opt_string, clone_opt_string_vec, join_path,
    join_path_spec, str_eq, str_trim, trim_spec,
};
use crate::values::{MaybeWorkspace, StringOrBool, StringOrVec, VecStringOrBool};

verus! {

broadcast use vstd::seq::group_seq_axioms, vstd::std_specs::vec::group_vec_axioms;

/// The language editions this library knows.
#[derive(Debug, Clone, Copy, PartialEq, Eq)]
pub enum Edition {
    Edition2015,
    Edition2018,
}

impl DeepView for Edition {
    type V = Edition;

    open spec fn deep_view(&self) -> Edition {
        *self
    }
}

/// What parsing an edition string yields.
pub open spec fn parse_edition_spec(s: Seq<char>) -> Option<Edition> {
    if s == "2015"@ {
        Some(Edition::Edition2015)
    } else if s == "2018"@ {
        Some(Edition::Edition2018)
    } else {
        None
    }
}

/// Parses an edition string to a known edition.
pub fn parse_edition(s: &str) -> (r: Option<Edition>)
    ensures
        r == parse_edition_spec(s@),
{
    if str_eq(s, "2015") {
        Some(Edition::Edition2015)
    } else if str_eq(s, "2018") {
        Some(Edition::Edition2018)
    } else {
        None
    }
}

/// Which dependency resolver generation a document selects.
#[derive(Debug, Clone, Copy, PartialEq, Eq)]
pub enum ResolveBehavior {
    V1,
    V2,
}

impl DeepView for ResolveBehavior {
    type V = ResolveBehavior;

    open spec fn deep_view(&self) -> ResolveBehavior {
        *self
    }
}

/// What parsing a resolver key yields.
pub open spec fn resolve_behavior_spec(s: Seq<char>) -> Option<ResolveBehavior> {
    if s == "1"@ {
        Some(ResolveBehavior::V1)
    } else if s == "2"@ {
        Some(ResolveBehavior::V2)
    } else {
        None
    }
}

impl ResolveBehavior {
    /// Parses the resolver key of a manifest.
    pub fn from_manifest(s: &str) -> (r: Result<ResolveBehavior, ManifestError>)
        ensures
            match r {
                Ok(b) => resolve_behavior_spec(s@) == Some(b),
                Err(e) => resolve_behavior_spec(s@) is None && e.deep_view()
                    == ErrorView::InvalidResolveBehavior(s@),
            },
    {
        if str_eq(s, "1") {
            Ok(ResolveBehavior::V1)
        } else if str_eq(s, "2") {
            Ok(ResolveBehavior::V2)
        } else {
            Err(ManifestError::InvalidResolveBehavior(s.to_owned()))
        }
    }
}

/// The kinds a discovered build target can have.
#[derive(Debug, Clone, Copy, PartialEq, Eq)]
pub enum TargetKind {
    LibTarget,
    BinTarget,
    ExampleTarget,
    TestTarget,
    BenchTarget,
    CustomBuild,
}

impl DeepView for TargetKind {
    type V = TargetKind;

    open spec fn deep_view(&self) -> TargetKind {
        *self
    }
}

/// One build target as the external discovery step hands it over: its
/// name, kind, and source path when it has one on disk.
#[derive(Debug, PartialEq, Eq)]
pub struct Target {
    pub name: String,
    pub kind: TargetKind,
    pub src_path: Option<String>,
}

/// The mathematical shape of a build target.
pub ghost struct TargetView {
    pub name: Seq<char>,
    pub kind: TargetKind,
    pub src_path: Option<Seq<char>>,
}

impl DeepView for Target {
    type V = TargetView;

    open spec fn deep_view(&self) -> TargetView {
        TargetView { name: self.name@, kind: self.kind, src_path: self.src_path.deep_view() }
    }
}

impl Target {
    /// Whether this target is a build script.
    pub fn is_custom_build(&self) -> (r: bool)
        ensures
            r == (self.kind == TargetKind::CustomBuild),
    {
        matches!(self.kind, TargetKind::CustomBuild)
    }

    /// Whether this target is a binary.
    pub fn is_bin(&self) -> (r: bool)
        ensures
            r == (self.kind == TargetKind::BinTarget),
    {
        matches!(self.kind, TargetKind::BinTarget)
    }
}

/// Whether every target of the list is a build script.
pub open spec fn all_custom_build(ts: Seq<Target>) -> bool {
    forall|i: int| 0 <= i < ts.len() ==> ts[i].kind == TargetKind::CustomBuild
}

/// Whether some target of the list is a build script.
pub open spec fn any_custom_build(ts: Seq<Target>) -> bool {
    exists|i: int| 0 <= i < ts.len() && ts[i].kind == TargetKind::CustomBuild
}

/// The on-disk location of a target, joined onto the package root.
pub open spec fn target_full_path(t: Target, root: Seq<char>) -> Option<Seq<char>> {
    match t.src_path {
        Some(p) => Some(join_path_spec(root, p@)),
        None => None,
    }
}

/// Index of the first target whose file an earlier target already uses,
/// or the length when files are unique.
pub open spec fn first_dup_target(ts: Seq<Target>, root: Seq<char>, j: int) -> int
    decreases ts.len() - j,
{
    if j < 0 || j >= ts.len() {
        ts.len() as int
    } else if target_full_path(ts[j], root) is Some && (exists|i: int|
        0 <= i < j && target_full_path(ts[i], root) == target_full_path(ts[j], root)) {
        j
    } else {
        first_dup_target(ts, root, j + 1)
    }
}

/// Checks that no two build targets use one file; the first offending
/// full path is returned otherwise.
pub fn unique_build_targets(targets: &Vec<Target>, package_root: &str) -> (r: Result<(), String>)
    ensures
        ({
            let dup = first_dup_target(targets@, package_root@, 0);
            match r {
                Ok(_) => dup == targets@.len(),
                Err(p) => dup < targets@.len() && Some(p@) == target_full_path(
                    targets@[dup],
                    package_root@,
                ),
            }
        }),
{
    let mut seen: Vec<String> = Vec::new();
    let mut j: usize = 0;
    #[verifier::loop_isolation(false)]
    while j < targets.len()
        invariant
            j <= targets@.len(),
            first_dup_target(targets@, package_root@, 0) == first_dup_target(
                targets@,
                package_root@,
                j as int,
            ),
            forall|p: Seq<char>|
                seen.deep_view().contains(p) <==> (exists|i: int|
                    0 <= i < j && target_full_path(targets@[i], package_root@) == Some(p)),
        decreases targets@.len() - j,
    {
        if let Some(path) = &targets[j].src_path {
            let full = join_path(package_root, path.as_str());
            if crate::depend::vec_contains_str(&seen, full.as_str()) {
                proof {
                    assert(target_full_path(targets@[j as int], package_root@) == Some(full@));
                    assert(first_dup_target(targets@, package_root@, j as int) == j);
                }
                return Err(full);
            }
            let ghost old_seen = seen.deep_view();
            seen.push(full);
            proof {
                assert(seen.deep_view() =~= old_seen.push(
                    target_full_path(targets@[j as int], package_root@)->0,
                ));
                assert forall|p: Seq<char>| seen.deep_view().contains(p) <==> (exists|i: int|
                    0 <= i < j + 1 && target_full_path(targets@[i], package_root@) == Some(
                        p,
                    )) by {
                    if seen.deep_view().contains(p) {
                        let w = choose|w: int|
                            0 <= w < seen.deep_view().len() && seen.deep_view()[w] == p;
                        if w < old_seen.len() {
                            assert(old_seen.contains(p));
                        }
                    }
                    if exists|i: int|
                        0 <= i < j + 1 && target_full_path(targets@[i], package_root@) == Some(p) {
                        let i = choose|i: int|
                            0 <= i < j + 1 && target_full_path(targets@[i], package_root@) == Some(
                                p,
                            );
                        if i < j {
                            assert(old_seen.contains(p));
                            let w = choose|w: int|
                                0 <= w < old_seen.len() && old_seen[w] == p;
                            assert(seen.deep_view()[w] == p);
                        } else {
                            assert(seen.deep_view()[seen.deep_view().len() - 1] == p);
                        }
                    }
                }
            }
        } else {
            proof {
                assert(target_full_path(targets@[j as int], package_root@) is None);
            }
        }
        j = j + 1;
    }
    Ok(())
}

/// The build-script location a manifest selects: an explicit path or
/// toggle wins; otherwise a `build.rs` file beside the manifest is taken
/// to be the build script.
pub open spec fn maybe_custom_build_spec(
    build: Option<crate::values::StringOrBoolView>,
    package_root: Seq<char>,
    build_rs_exists: bool,
) -> Option<Seq<char>> {
    let build_rs = join_path_spec(package_root, "build.rs"@);
    match build {
        Some(crate::values::StringOrBoolView::Flag(false)) => None,
        Some(crate::values::StringOrBoolView::Flag(true)) => Some(build_rs),
        Some(crate::values::StringOrBoolView::Text(s)) => Some(s),
        None => if build_rs_exists {
            Some(build_rs)
        } else {
            None
        },
    }
}

/// Selects the build-script location. Whether a `build.rs` file exists
/// beside the manifest is probed by the caller.
pub fn maybe_custom_build(
    build: &Option<StringOrBool>,
    package_root: &str,
    build_rs_exists: bool,
) -> (r: Option<String>)
    ensures
        r.deep_view() == maybe_custom_build_spec(build.deep_view(), package_root@, build_rs_exists),
{
    let build_rs = join_path(package_root, "build.rs");
    match build {
        Some(StringOrBool::Flag(false)) => None,
        Some(StringOrBool::Flag(true)) => Some(build_rs),
        Some(StringOrBool::Text(s)) => Some(s.clone()),
        None => if build_rs_exists {
            Some(build_rs)
        } else {
            None
        },
    }
}

} // verus!

verus! {

/// One declared target table (`[lib]`, `[[bin]]`, ...), as the document
/// gives it.
#[derive(Debug, PartialEq, Eq)]
pub struct TomlTarget {
    pub name: Option<String>,
    pub crate_type: Option<Vec<String>>,
    /// The historical underscore spelling of `crate-type`.
    pub crate_type2: Option<Vec<String>>,
    pub path: Option<String>,
    pub test: Option<bool>,
    pub doctest: Option<bool>,
    pub bench: Option<bool>,
    pub doc: Option<bool>,
    pub plugin: Option<bool>,
    pub proc_macro_raw: Option<bool>,
    /// The historical underscore spelling of `proc-macro`.
    pub proc_macro_raw2: Option<bool>,
    pub harness: Option<bool>,
    pub required_features: Option<Vec<String>>,
    pub edition: Option<String>,
}

/// The mathematical shape of a declared target table.
pub ghost struct TomlTargetView {
    pub name: Option<Seq<char>>,
    pub crate_type: Option<Seq<Seq<char>>>,
    pub crate_type2: Option<Seq<Seq<char>>>,
    pub path: Option<Seq<char>>,
    pub test: Option<bool>,
    pub doctest: Option<bool>,
    pub bench: Option<bool>,
    pub doc: Option<bool>,
    pub plugin: Option<bool>,
    pub proc_macro_raw: Option<bool>,
    pub proc_macro_raw2: Option<bool>,
    pub harness: Option<bool>,
    pub required_features: Option<Seq<Seq<char>>>,
    pub edition: Option<Seq<char>>,
}

impl DeepView for TomlTarget {
    type V = TomlTargetView;

    open spec fn deep_view(&self) -> TomlTargetView {
        TomlTargetView {
            name: self.name.deep_view(),
            crate_type: self.crate_type.deep_view(),
            crate_type2: self.crate_type2.deep_view(),
            path: self.path.deep_view(),
            test: self.test,
            doctest: self.doctest,
            bench: self.bench,
            doc: self.doc,
            plugin: self.plugin,
            proc_macro_raw: self.proc_macro_raw,
            proc_macro_raw2: self.proc_macro_raw2,
            harness: self.harness,
            required_features: self.required_features.deep_view(),
            edition: self.edition.deep_view(),
        }
    }
}

/// The declared crate types: the dash spelling wins over the underscore
/// spelling.
pub open spec fn crate_types_view(t: TomlTargetView) -> Option<Seq<Seq<char>>> {
    or_opt(t.crate_type, t.crate_type2)
}

/// Whether a target is a procedural macro: one of the two spellings, or
/// the declared crate types listing one.
pub open spec fn proc_macro_view(t: TomlTargetView) -> Option<bool> {
    match or_opt(t.proc_macro_raw, t.proc_macro_raw2) {
        Some(b) => Some(b),
        None => if crate_types_view(t) matches Some(types) && types.contains("proc-macro"@) {
            Some(true)
        } else {
            None
        },
    }
}

impl TomlTarget {
    /// A target table with nothing set.
    pub fn new() -> (r: TomlTarget)
        ensures
            r.deep_view() == (TomlTargetView {
                name: None,
                crate_type: None,
                crate_type2: None,
                path: None,
                test: None,
                doctest: None,
                bench: None,
                doc: None,
                plugin: None,
                proc_macro_raw: None,
                proc_macro_raw2: None,
                harness: None,
                required_features: None,
                edition: None,
            }),
    {
        TomlTarget {
            name: None,
            crate_type: None,
            crate_type2: None,
            path: None,
            test: None,
            doctest: None,
            bench: None,
            doc: None,
            plugin: None,
            proc_macro_raw: None,
            proc_macro_raw2: None,
            harness: None,
            required_features: None,
            edition: None,
        }
    }

    /// The declared name; a target table without one cannot be consumed.
    pub fn name(&self) -> (r: String)
        requires
            self.name is Some,
        ensures
            Some(r@) == self.deep_view().name,
    {
        match &self.name {
            Some(name) => name.clone(),
            None => unreached(),
        }
    }

    /// Whether the target is a procedural macro.
    pub fn proc_macro(&self) -> (r: Option<bool>)
        ensures
            r == proc_macro_view(self.deep_view()),
    {
        match self.proc_macro_raw {
            Some(b) => Some(b),
            None => match self.proc_macro_raw2 {
                Some(b) => Some(b),
                None => {
                    if let Some(types) = self.crate_types() {
                        if crate::depend::vec_contains_str(types, "proc-macro") {
                            return Some(true);
                        }
                    }
                    None
                },
            },
        }
    }

    /// The declared crate types, with the dash spelling winning.
    pub fn crate_types(&self) -> (r: Option<&Vec<String>>)
        ensures
            r.deep_view() == crate_types_view(self.deep_view()),
    {
        match &self.crate_type {
            Some(t) => Some(t),
            None => self.crate_type2.as_ref(),
        }
    }
}

/// The raw document shape of a manifest: every section optional, the
/// dependency tables still carrying workspace delegations.
#[derive(Debug)]
pub struct TomlManifest {
    pub cargo_features: Option<Vec<String>>,
    pub package: Option<Box<TomlProject>>,
    /// The historical alias of `package`.
    pub project: Option<Box<TomlProject>>,
    pub profile: Option<TomlProfiles>,
    pub lib: Option<TomlTarget>,
    pub bin: Option<Vec<TomlTarget>>,
    pub example: Option<Vec<TomlTarget>>,
    pub test: Option<Vec<TomlTarget>>,
    pub bench: Option<Vec<TomlTarget>>,
    pub dependencies: Option<Vec<(String, TomlDependency)>>,
    pub dev_dependencies: Option<Vec<(String, TomlDependency)>>,
    /// The historical underscore spelling of `dev-dependencies`.
    pub dev_dependencies2: Option<Vec<(String, TomlDependency)>>,
    pub build_dependencies: Option<Vec<(String, TomlDependency)>>,
    /// The historical underscore spelling of `build-dependencies`.
    pub build_dependencies2: Option<Vec<(String, TomlDependency)>>,
    pub features: Option<Vec<(String, Vec<String>)>>,
    pub target: Option<Vec<(String, TomlPlatform)>>,
    pub replace: Option<Vec<(String, DefinedTomlDependency)>>,
    pub patch: Option<Vec<(String, Vec<(String, DefinedTomlDependency)>)>>,
    pub workspace: Option<TomlWorkspace>,
    pub badges: Option<MaybeWorkspace<Vec<(String, Vec<(String, String)>)>>>,
}

/// The canonical manifest: delegations resolved, the two spellings of
/// each table collapsed, the package section concrete.
#[derive(Debug)]
pub struct DefinedTomlManifest {
    pub cargo_features: Option<Vec<String>>,
    pub package: Option<DefinedTomlPackage>,
    pub profile: Option<TomlProfiles>,
    pub lib: Option<TomlTarget>,
    pub bin: Option<Vec<TomlTarget>>,
    pub example: Option<Vec<TomlTarget>>,
    pub test: Option<Vec<TomlTarget>>,
    pub bench: Option<Vec<TomlTarget>>,
    pub dependencies: Option<Vec<(String, DefinedTomlDependency)>>,
    pub dev_dependencies: Option<Vec<(String, DefinedTomlDependency)>>,
    pub build_dependencies: Option<Vec<(String, DefinedTomlDependency)>>,
    pub features: Option<Vec<(String, Vec<String>)>>,
    pub target: Option<Vec<(String, DefinedTomlPlatform)>>,
    pub replace: Option<Vec<(String, DefinedTomlDependency)>>,
    pub patch: Option<Vec<(String, Vec<(String, DefinedTomlDependency)>)>>,
    pub workspace: Option<TomlWorkspace>,
    pub badges: Option<Vec<(String, Vec<(String, String)>)>>,
}

/// A document's workspace configuration: a root workspace table and a
/// pointer to another root cannot be combined.
pub open spec fn workspace_config_spec(
    has_ws_table: bool,
    ws_table: Option<crate::project::TomlWorkspaceView>,
    project_workspace: Option<Seq<char>>,
    package_root: Seq<char>,
) -> Result<WorkspaceConfigView, ErrorView> {
    match (has_ws_table, project_workspace) {
        (true, None) => Ok(
            WorkspaceConfigView::Root(
                crate::project::WorkspaceRootConfigView {
                    root_dir: package_root,
                    members: ws_table->0.members,
                    default_members: ws_table->0.default_members,
                    exclude: ws_table->0.exclude,
                },
            ),
        ),
        (false, root) => Ok(WorkspaceConfigView::Member { root }),
        (true, Some(_)) => Err(ErrorView::WorkspaceConfigConflict),
    }
}

impl TomlManifest {
    /// Reads this document's workspace configuration.
    pub fn workspace_config(&self, package_root: &str) -> (r: Result<
        WorkspaceConfig,
        ManifestError,
    >)
        ensures
            ({
                let pw = match (self.project, self.package) {
                    (Some(p), _) => p.workspace.deep_view(),
                    (None, Some(p)) => p.workspace.deep_view(),
                    (None, None) => None,
                };
                let s = workspace_config_spec(
                    self.workspace is Some,
                    match self.workspace {
                        Some(ref w) => Some(w.deep_view()),
                        None => None,
                    },
                    pw,
                    package_root@,
                );
                match r {
                    Ok(c) => s == Ok::<WorkspaceConfigView, ErrorView>(c.deep_view()),
                    Err(e) => s == Err::<WorkspaceConfigView, ErrorView>(e.deep_view()),
                }
            }),
    {
        let project_workspace: Option<&String> = match (&self.project, &self.package) {
            (Some(p), _) => p.workspace.as_ref(),
            (None, Some(p)) => p.workspace.as_ref(),
            (None, None) => None,
        };
        match (&self.workspace, project_workspace) {
            (Some(toml_workspace), None) => Ok(
                WorkspaceConfig::Root(
                    WorkspaceRootConfig::from_toml_workspace(package_root, toml_workspace),
                ),
            ),
            (None, root) => Ok(
                WorkspaceConfig::Member { root: clone_opt_string(&root.cloned()) },
            ),
            (Some(_), Some(_)) => Err(ManifestError::WorkspaceConfigConflict),
        }
    }
}

impl DefinedTomlManifest {
    /// Reads this canonical manifest's workspace configuration.
    pub fn workspace_config(&self, package_root: &str) -> (r: Result<
        WorkspaceConfig,
        ManifestError,
    >)
        ensures
            ({
                let pw = match self.package {
                    Some(ref p) => p.workspace.deep_view(),
                    None => None,
                };
                let s = workspace_config_spec(
                    self.workspace is Some,
                    match self.workspace {
                        Some(ref w) => Some(w.deep_view()),
                        None => None,
                    },
                    pw,
                    package_root@,
                );
                match r {
                    Ok(c) => s == Ok::<WorkspaceConfigView, ErrorView>(c.deep_view()),
                    Err(e) => s == Err::<WorkspaceConfigView, ErrorView>(e.deep_view()),
                }
            }),
    {
        let project_workspace: Option<&String> = match &self.package {
            Some(p) => p.workspace.as_ref(),
            None => None,
        };
        match (&self.workspace, project_workspace) {
            (Some(toml_workspace), None) => Ok(
                WorkspaceConfig::Root(
                    WorkspaceRootConfig::from_toml_workspace(package_root, toml_workspace),
                ),
            ),
            (None, root) => Ok(
                WorkspaceConfig::Member { root: clone_opt_string(&root.cloned()) },
            ),
            (Some(_), Some(_)) => Err(ManifestError::WorkspaceConfigConflict),
        }
    }

    /// Whether the document declares any profile.
    pub fn has_profiles(&self) -> (r: bool)
        ensures
            r == (self.profile is Some),
    {
        self.profile.is_some()
    }
}

} // verus!

verus! {

/// Copies a list of key/value string pairs.
pub fn clone_string_pairs(v: &Vec<(String, String)>) -> (r: Vec<(String, String)>)
    ensures
        r.deep_view() == v.deep_view(),
{
    let mut r: Vec<(String, String)> = Vec::new();
    let mut i: usize = 0;
    proof {
        assert(r.deep_view() =~= v.deep_view().subrange(0, 0));
    }
    #[verifier::loop_isolation(false)]
    while i < v.len()
        invariant
            i <= v@.len(),
            r.deep_view() == v.deep_view().subrange(0, i as int),
        decreases v@.len() - i,
    {
        let ghost old_r = r.deep_view();
        r.push((v[i].0.clone(), v[i].1.clone()));
        proof {
            assert(r.deep_view() =~= old_r.push(v.deep_view()[i as int]));
            assert(r.deep_view() =~= v.deep_view().subrange(0, i + 1));
        }
        i = i + 1;
    }
    proof {
        assert(v.deep_view().subrange(0, v@.len() as int) =~= v.deep_view());
    }
    r
}

/// Copies a badges table.
pub fn clone_badges(v: &Vec<(String, Vec<(String, String)>)>) -> (r: Vec<
    (String, Vec<(String, String)>),
>)
    ensures
        r.deep_view() == v.deep_view(),
{
    let mut r: Vec<(String, Vec<(String, String)>)> = Vec::new();
    let mut i: usize = 0;
    proof {
        assert(r.deep_view() =~= v.deep_view().subrange(0, 0));
    }
    #[verifier::loop_isolation(false)]
    while i < v.len()
        invariant
            i <= v@.len(),
            r.deep_view() == v.deep_view().subrange(0, i as int),
        decreases v@.len() - i,
    {
        let ghost old_r = r.deep_view();
        r.push((v[i].0.clone(), clone_string_pairs(&v[i].1)));
        proof {
            assert(r.deep_view() =~= old_r.push(v.deep_view()[i as int]));
            assert(r.deep_view() =~= v.deep_view().subrange(0, i + 1));
        }
        i = i + 1;
    }
    proof {
        assert(v.deep_view().subrange(0, v@.len() as int) =~= v.deep_view());
    }
    r
}

/// The package section a document declares: the `package` table, with the
/// historical `project` alias as fallback.
pub open spec fn project_of(manifest: TomlManifest) -> Option<Box<TomlProject>> {
    or_opt(manifest.package, manifest.project)
}

/// The shared dependency table of the enclosing workspace, empty when
/// there is none.
pub open spec fn ws_deps_of(ws: Option<&TomlWorkspace>) -> Seq<(String, DefinedTomlDependency)> {
    match ws {
        Some(w) => match w.dependencies {
            Some(ref d) => d@,
            None => Seq::empty(),
        },
        None => Seq::empty(),
    }
}

/// The first failure of canonicalization, in resolution order: the
/// package section, the badges field, then each dependency table.
pub open spec fn from_toml_manifest_err(
    manifest: TomlManifest,
    ws: Option<&TomlWorkspace>,
    root: Option<Seq<char>>,
    files: Seq<Seq<char>>,
) -> Option<ErrorView> {
    let wsv = match ws {
        Some(w) => Some(w.deep_view()),
        None => None,
    };
    let ws_deps = ws_deps_of(ws);
    let r_package = match project_of(manifest) {
        None => Ok(None),
        Some(p) => match crate::project::from_toml_project_spec(*p, wsv, root, files) {
            Ok(v) => Ok(Some(v)),
            Err(e) => Err(e),
        },
    };
    let r_badges = ws_default_spec(
        manifest.badges.deep_view(),
        match wsv {
            Some(w) => w.badges,
            None => None,
        },
        wsv is Some,
        crate::errors::InheritableField::Badges,
    );
    let r_deps = crate::depend::to_defined_dependencies_spec(
        match manifest.dependencies {
            Some(ref d) => Some(d@),
            None => None,
        },
        ws_deps,
        root,
    );
    let r_dev = crate::depend::to_defined_dependencies_spec(
        match or_opt(manifest.dev_dependencies, manifest.dev_dependencies2) {
            Some(ref d) => Some(d@),
            None => None,
        },
        ws_deps,
        root,
    );
    let r_build = crate::depend::to_defined_dependencies_spec(
        match or_opt(manifest.build_dependencies, manifest.build_dependencies2) {
            Some(ref d) => Some(d@),
            None => None,
        },
        ws_deps,
        root,
    );
    let r_target = match manifest.target {
        None => Ok(None),
        Some(ref t) => match map_platforms(t@, ws_deps, root) {
            Ok(v) => Ok(Some(v)),
            Err(e) => Err(e),
        },
    };
    if r_package is Err {
        Some(r_package->Err_0)
    } else if r_badges is Err {
        Some(r_badges->Err_0)
    } else if r_deps is Err {
        Some(r_deps->Err_0)
    } else if r_dev is Err {
        Some(r_dev->Err_0)
    } else if r_build is Err {
        Some(r_build->Err_0)
    } else if r_target is Err {
        Some(r_target->Err_0)
    } else {
        None
    }
}


/// What a raw document canonicalizes to: every field of the canonical
/// manifest pinned against the input, field by field. This names the
/// success relation of `from_toml_manifest`.
pub open spec fn canonicalizes_to(
    manifest: TomlManifest,
    ws: Option<&TomlWorkspace>,
    root: Option<Seq<char>>,
    files: Seq<Seq<char>>,
    m: DefinedTomlManifest,
) -> bool {

            let wsv = match ws {
                Some(w) => Some(w.deep_view()),
                None => None,
            };
            let ws_deps = ws_deps_of(ws);
            let root = root;
            &&& from_toml_manifest_err(
                manifest,
                ws,
                root,
                files,
            ) is None
            &&& m.cargo_features == manifest.cargo_features
            &&& match project_of(manifest) {
                None => m.package is None,
                Some(p) => m.package matches Some(mp)
                    && crate::project::from_toml_project_spec(
                    *p,
                    wsv,
                    root,
                    files,
                ) == Ok::<crate::project::DefinedPackageView, ErrorView>(mp.deep_view()),
            }
            &&& ws_default_spec(
                manifest.badges.deep_view(),
                match wsv {
                    Some(w) => w.badges,
                    None => None,
                },
                wsv is Some,
                crate::errors::InheritableField::Badges,
            ) == Ok::<
                Option<Seq<(Seq<char>, Seq<(Seq<char>, Seq<char>)>)>>,
                ErrorView,
            >(m.badges.deep_view())
            &&& crate::depend::to_defined_dependencies_spec(
                match manifest.dependencies {
                    Some(ref d) => Some(d@),
                    None => None,
                },
                ws_deps,
                root,
            ) == Ok::<
                Option<Seq<(Seq<char>, DefinedDependencyView)>>,
                ErrorView,
            >(m.dependencies.deep_view())
            &&& crate::depend::to_defined_dependencies_spec(
                match or_opt(manifest.dev_dependencies, manifest.dev_dependencies2) {
                    Some(ref d) => Some(d@),
                    None => None,
                },
                ws_deps,
                root,
            ) == Ok::<
                Option<Seq<(Seq<char>, DefinedDependencyView)>>,
                ErrorView,
            >(m.dev_dependencies.deep_view())
            &&& crate::depend::to_defined_dependencies_spec(
                match or_opt(manifest.build_dependencies, manifest.build_dependencies2) {
                    Some(ref d) => Some(d@),
                    None => None,
                },
                ws_deps,
                root,
            ) == Ok::<
                Option<Seq<(Seq<char>, DefinedDependencyView)>>,
                ErrorView,
            >(m.build_dependencies.deep_view())
            &&& match manifest.target {
                None => m.target is None,
                Some(ref t) => m.target matches Some(mt) && map_platforms(
                    t@,
                    ws_deps,
                    root,
                ) == Ok::<
                    Seq<(Seq<char>, DefinedPlatformView)>,
                    ErrorView,
                >(mt.deep_view()),
            }
            &&& m.profile == manifest.profile
            &&& m.lib == manifest.lib
            &&& m.bin == manifest.bin
            &&& m.example == manifest.example
            &&& m.test == manifest.test
            &&& m.bench == manifest.bench
            &&& m.features == manifest.features
            &&& m.replace == manifest.replace
            &&& m.patch == manifest.patch
            &&& m.workspace == manifest.workspace
}

impl DefinedTomlManifest {
    /// Canonicalizes a raw document: the package section is resolved
    /// against the workspace, the badges delegation is resolved, each
    /// dependency table is unified into the detailed shape, and the two
    /// spellings of each table are collapsed.
    #[verifier::rlimit(100)]
    #[verifier::spinoff_prover]
    pub fn from_toml_manifest(
        manifest: TomlManifest,
        ws: Option<&TomlWorkspace>,
        root_path: Option<&String>,
        package_root_files: &Vec<String>,
    ) -> (r: Result<DefinedTomlManifest, ManifestError>)
        requires
            ws is Some ==> root_path is Some,
        ensures
            match r {
                Ok(m) => canonicalizes_to(
                    manifest,
                    ws,
                    root_path.deep_view(),
                    package_root_files.deep_view(),
                    m,
                ),
                Err(e) => from_toml_manifest_err(
                    manifest,
                    ws,
                    root_path.deep_view(),
                    package_root_files.deep_view(),
                ) == Some(e.deep_view()),
            },
    {
        let ghost wsv: Option<crate::project::TomlWorkspaceView> = match ws {
            Some(w) => Some(w.deep_view()),
            None => None,
        };
        let has_ws = ws.is_some();

        let p_opt: Option<Box<TomlProject>> = match manifest.package {
            Some(p) => Some(p),
            None => manifest.project,
        };
        let package: Option<DefinedTomlPackage> = match p_opt {
            None => None,
            Some(boxed) => match DefinedTomlPackage::from_toml_project(
                *boxed,
                ws,
                root_path,
                package_root_files,
            ) {
                Ok(p) => Some(p),
                Err(e) => {
                    return Err(e);
                },
            },
        };

        let ws_badges: Option<Vec<(String, Vec<(String, String)>)>> = match ws {
            Some(w) => match &w.badges {
                Some(b) => Some(clone_badges(b)),
                None => None,
            },
            None => None,
        };
        proof {
            crate::project::lemma_ws_default_view(
                manifest.badges,
                ws_badges,
                has_ws,
                crate::errors::InheritableField::Badges,
            );
        }
        let badges = match ws_default(
            manifest.badges,
            ws_badges,
            has_ws,
            crate::errors::InheritableField::Badges,
        ) {
            Ok(v) => v,
            Err(e) => {
                return Err(e);
            },
        };

        let ws_deps_ref: Option<&Vec<(String, DefinedTomlDependency)>> = match ws {
            Some(w) => w.dependencies.as_ref(),
            None => None,
        };
        let dependencies = match to_defined_dependencies(
            manifest.dependencies.as_ref(),
            ws_deps_ref,
            root_path,
        ) {
            Ok(v) => v,
            Err(e) => {
                return Err(e);
            },
        };
        let dev_in: Option<Vec<(String, TomlDependency)>> = match manifest.dev_dependencies {
            Some(d) => Some(d),
            None => manifest.dev_dependencies2,
        };
        let dev_dependencies = match to_defined_dependencies(dev_in.as_ref(), ws_deps_ref, root_path) {
            Ok(v) => v,
            Err(e) => {
                return Err(e);
            },
        };
        let build_in: Option<Vec<(String, TomlDependency)>> = match manifest.build_dependencies {
            Some(d) => Some(d),
            None => manifest.build_dependencies2,
        };
        let build_dependencies = match to_defined_dependencies(
            build_in.as_ref(),
            ws_deps_ref,
            root_path,
        ) {
            Ok(v) => v,
            Err(e) => {
                return Err(e);
            },
        };
        let target = match to_defined_platform(manifest.target.as_ref(), ws_deps_ref, root_path) {
            Ok(v) => v,
            Err(e) => {
                return Err(e);
            },
        };

        Ok(
            DefinedTomlManifest {
                cargo_features: manifest.cargo_features,
                package,
                profile: manifest.profile,
                lib: manifest.lib,
                bin: manifest.bin,
                example: manifest.example,
                test: manifest.test,
                bench: manifest.bench,
                dependencies,
                dev_dependencies,
                build_dependencies,
                features: manifest.features,
                target,
                replace: manifest.replace,
                patch: manifest.patch,
                workspace: manifest.workspace,
                badges,
            },
        )
    }
}

} // verus!

verus! {

/// What processing a list of declarations against the context yields: the
/// records appended, the warnings left, the nested paths recorded.
pub ghost struct ProcOutcome {
    pub result: Result<Seq<DependencyView>, ErrorView>,
    pub warnings: Seq<WarningView>,
    pub nested: Seq<Seq<char>>,
}

/// Processing one dependency table entry by entry: each declaration is
/// materialized and its document name validated, stopping at the first
/// error; warnings and nested paths accumulate across entries.
pub open spec fn proc_deps_spec(
    entries: Seq<(String, DefinedTomlDependency)>,
    src: SourceIdentityView,
    root: Seq<char>,
    platform: Option<Seq<char>>,
    fs: FeatureSet,
    kind: Option<DepKind>,
) -> ProcOutcome
    decreases entries.len(),
{
    if entries.len() == 0 {
        ProcOutcome { result: Ok(Seq::empty()), warnings: Seq::empty(), nested: Seq::empty() }
    } else {
        let o = defined_to_dependency_spec(
            entries[0].1.deep_view(),
            entries[0].0@,
            src,
            root,
            platform,
            fs,
            kind,
        );
        match o.result {
            Err(e) => ProcOutcome { result: Err(e), warnings: o.warnings, nested: o.nested },
            Ok(depv) => match crate::names::validate_package_name_spec(
                name_in_toml_spec(depv),
                NameKind::DependencyName,
            ) {
                Err(e) => ProcOutcome {
                    result: Err(e),
                    warnings: o.warnings,
                    nested: o.nested,
                },
                Ok(_) => {
                    let rest = proc_deps_spec(entries.drop_first(), src, root, platform, fs, kind);
                    ProcOutcome {
                        result: match rest.result {
                            Err(e) => Err(e),
                            Ok(ds) => Ok(seq![depv] + ds),
                        },
                        warnings: o.warnings + rest.warnings,
                        nested: o.nested + rest.nested,
                    }
                },
            },
        }
    }
}

/// The outcome of processing an optional table.
pub open spec fn proc_opt_spec(
    deps: Option<Vec<(String, DefinedTomlDependency)>>,
    src: SourceIdentityView,
    root: Seq<char>,
    platform: Option<Seq<char>>,
    fs: FeatureSet,
    kind: Option<DepKind>,
) -> ProcOutcome {
    match deps {
        Some(ref d) => proc_deps_spec(d@, src, root, platform, fs, kind),
        None => ProcOutcome {
            result: Ok(Seq::empty()),
            warnings: Seq::empty(),
            nested: Seq::empty(),
        },
    }
}

/// Materializes one dependency table into the context: each record is
/// validated and appended to the context's list.
#[verifier::rlimit(100)]
#[verifier::spinoff_prover]
pub fn process_dependencies(
    cx: &mut DepContext,
    new_deps: Option<&Vec<(String, DefinedTomlDependency)>>,
    kind: Option<DepKind>,
) -> (r: Result<(), ManifestError>)
    ensures
        ({
            let o = proc_opt_spec(
                match new_deps {
                    Some(d) => Some(*d),
                    None => None,
                },
                old(cx).source.deep_view(),
                old(cx).root@,
                old(cx).platform.deep_view(),
                old(cx).features,
                kind,
            );
            &&& match r {
                Ok(_) => o.result matches Ok(ds) && final(cx).deps.deep_view() == old(
                    cx,
                ).deps.deep_view() + ds,
                Err(e) => o.result == Err::<Seq<DependencyView>, ErrorView>(e.deep_view()),
            }
            &&& final(cx).warnings.deep_view() == old(cx).warnings.deep_view() + o.warnings
            &&& final(cx).nested_paths.deep_view() == old(cx).nested_paths.deep_view() + o.nested
            &&& final(cx).source == old(cx).source
            &&& final(cx).platform == old(cx).platform
            &&& final(cx).root == old(cx).root
            &&& final(cx).features == old(cx).features
            &&& final(cx).pkgid == old(cx).pkgid
        }),
{
    let dependencies = match new_deps {
        Some(dependencies) => dependencies,
        None => {
            proof {
                assert(cx.deps.deep_view() =~= old(cx).deps.deep_view()
                    + Seq::<DependencyView>::empty());
                assert(cx.warnings.deep_view() =~= old(cx).warnings.deep_view()
                    + Seq::<WarningView>::empty());
                assert(cx.nested_paths.deep_view() =~= old(cx).nested_paths.deep_view()
                    + Seq::<Seq<char>>::empty());
            }
            return Ok(());
        },
    };
    let ghost full = dependencies@;
    let ghost src = old(cx).source.deep_view();
    let ghost root = old(cx).root@;
    let ghost platform = old(cx).platform.deep_view();
    let ghost fs = old(cx).features;
    let mut i: usize = 0;
    proof {
        assert(full.subrange(0, full.len() as int) =~= full);
        assert(cx.deps.deep_view() =~= old(cx).deps.deep_view() + Seq::<DependencyView>::empty());
        assert(cx.warnings.deep_view() =~= old(cx).warnings.deep_view()
            + Seq::<WarningView>::empty());
        assert(cx.nested_paths.deep_view() =~= old(cx).nested_paths.deep_view()
            + Seq::<Seq<char>>::empty());
    }
    #[verifier::loop_isolation(false)]
    while i < dependencies.len()
        invariant
            i <= full.len(),
            cx.source == old(cx).source,
            cx.platform == old(cx).platform,
            cx.root == old(cx).root,
            cx.features == old(cx).features,
            cx.pkgid == old(cx).pkgid,
            ({
                let done = proc_deps_spec(
                    full.subrange(i as int, full.len() as int),
                    src,
                    root,
                    platform,
                    fs,
                    kind,
                );
                let whole = proc_deps_spec(full, src, root, platform, fs, kind);
                &&& (match done.result {
                    Ok(ds) => whole.result matches Ok(ws2) && cx.deps.deep_view() + ds == old(
                        cx,
                    ).deps.deep_view() + ws2,
                    Err(e) => whole.result == Err::<Seq<DependencyView>, ErrorView>(e),
                })
                &&& cx.warnings.deep_view() + done.warnings == old(cx).warnings.deep_view()
                    + whole.warnings
                &&& cx.nested_paths.deep_view() + done.nested == old(cx).nested_paths.deep_view()
                    + whole.nested
            }),
        decreases full.len() - i,
    {
        let ghost rest = full.subrange(i as int, full.len() as int);
        proof {
            assert(rest[0] == full[i as int]);
            assert(rest.drop_first() =~= full.subrange(i + 1 as int, full.len() as int));
        }
        let n = &dependencies[i].0;
        let v = &dependencies[i].1;
        let ghost pre_deps = cx.deps.deep_view();
        let dep = match v.to_dependency(n.as_str(), cx, kind) {
            Ok(dep) => dep,
            Err(e) => {
                return Err(e);
            },
        };
        if let Err(e) = validate_package_name(dep.name_in_toml().as_str(), NameKind::DependencyName) {
            return Err(e);
        }
        let ghost depv = dep.deep_view();
        cx.deps.push(dep);
        proof {
            assert(cx.deps.deep_view() =~= pre_deps.push(depv));
            assert(cx.deps.deep_view() + proc_deps_spec(
                rest.drop_first(),
                src,
                root,
                platform,
                fs,
                kind,
            ).result->Ok_0 =~= pre_deps + (seq![depv] + proc_deps_spec(
                rest.drop_first(),
                src,
                root,
                platform,
                fs,
                kind,
            ).result->Ok_0));
        }
        i = i + 1;
    }
    proof {
        assert(full.subrange(full.len() as int, full.len() as int) =~= Seq::<
            (String, DefinedTomlDependency),
        >::empty());
        let whole = proc_deps_spec(full, src, root, platform, fs, kind);
        assert(cx.deps.deep_view() + Seq::<DependencyView>::empty() =~= cx.deps.deep_view());
        assert(cx.warnings.deep_view() + Seq::<WarningView>::empty() =~= cx.warnings.deep_view());
        assert(cx.nested_paths.deep_view() + Seq::<Seq<char>>::empty()
            =~= cx.nested_paths.deep_view());
    }
    Ok(())
}

} // verus!

verus! {

/// The index location of the default public registry.
pub open spec fn crates_io_index_spec() -> Seq<char> {
    "https://github.com/rust-lang/crates.io-index"@
}

/// The name under which the default public registry is patched.
pub open spec fn crates_io_name_spec() -> Seq<char> {
    "crates-io"@
}

/// Returns the index location of the default public registry.
pub fn crates_io_index() -> (r: &'static str)
    ensures
        r@ == crates_io_index_spec(),
{
    "https://github.com/rust-lang/crates.io-index"
}

/// The platform cfg diagnostics wrapped as warnings.
pub open spec fn platform_cfg_warnings(name: Seq<char>) -> Seq<WarningView> {
    Seq::new(platform_warnings(name).len(), |i: int| WarningView::PlatformCfg(platform_warnings(name)[i]))
}

/// Processing one platform's tables: the platform key must parse; its
/// cfg diagnostics become warnings; then its three tables are processed
/// under that platform, the build table before the dev table.
pub open spec fn proc_one_platform_spec(
    name: Seq<char>,
    p: DefinedTomlPlatform,
    src: SourceIdentityView,
    root: Seq<char>,
    fs: FeatureSet,
) -> ProcOutcome {
    let pw = platform_cfg_warnings(name);
    let o1 = proc_opt_spec(p.dependencies, src, root, Some(name), fs, None);
    let o2 = proc_opt_spec(
        or_opt(p.build_dependencies, p.build_dependencies2),
        src,
        root,
        Some(name),
        fs,
        Some(DepKind::Build),
    );
    let o3 = proc_opt_spec(
        or_opt(p.dev_dependencies, p.dev_dependencies2),
        src,
        root,
        Some(name),
        fs,
        Some(DepKind::Development),
    );
    if !platform_ok(name) {
        ProcOutcome {
            result: Err(ErrorView::PlatformInvalid { name }),
            warnings: Seq::empty(),
            nested: Seq::empty(),
        }
    } else if o1.result is Err {
        ProcOutcome {
            result: Err(o1.result->Err_0),
            warnings: pw + o1.warnings,
            nested: o1.nested,
        }
    } else if o2.result is Err {
        ProcOutcome {
            result: Err(o2.result->Err_0),
            warnings: pw + o1.warnings + o2.warnings,
            nested: o1.nested + o2.nested,
        }
    } else if o3.result is Err {
        ProcOutcome {
            result: Err(o3.result->Err_0),
            warnings: pw + o1.warnings + o2.warnings + o3.warnings,
            nested: o1.nested + o2.nested + o3.nested,
        }
    } else {
        ProcOutcome {
            result: Ok(o1.result->Ok_0 + o2.result->Ok_0 + o3.result->Ok_0),
            warnings: pw + o1.warnings + o2.warnings + o3.warnings,
            nested: o1.nested + o2.nested + o3.nested,
        }
    }
}

/// Processing the per-platform tables, platform by platform.
pub open spec fn proc_platforms_spec(
    target: Seq<(String, DefinedTomlPlatform)>,
    src: SourceIdentityView,
    root: Seq<char>,
    fs: FeatureSet,
) -> ProcOutcome
    decreases target.len(),
{
    if target.len() == 0 {
        ProcOutcome { result: Ok(Seq::empty()), warnings: Seq::empty(), nested: Seq::empty() }
    } else {
        let one = proc_one_platform_spec(target[0].0@, target[0].1, src, root, fs);
        match one.result {
            Err(e) => one,
            Ok(ds) => {
                let rest = proc_platforms_spec(target.drop_first(), src, root, fs);
                ProcOutcome {
                    result: match rest.result {
                        Err(e) => Err(e),
                        Ok(ds2) => Ok(ds + ds2),
                    },
                    warnings: one.warnings + rest.warnings,
                    nested: one.nested + rest.nested,
                }
            },
        }
    }
}

/// The platform the context is left on after the per-platform tables: the
/// last declared platform key, or the platform it started on.
pub open spec fn last_platform(
    target: Option<Vec<(String, DefinedTomlPlatform)>>,
    start: Option<Seq<char>>,
) -> Option<Seq<char>> {
    match target {
        Some(ref t) => if t@.len() > 0 {
            Some(t@.last().0@)
        } else {
            start
        },
        None => start,
    }
}

/// Materializes one platform's dependency tables into the context and
/// leaves the context on that platform.
#[verifier::rlimit(100)]
#[verifier::spinoff_prover]
fn process_one_platform(
    cx: &mut DepContext,
    name: &String,
    platform_entry: &DefinedTomlPlatform,
) -> (r: Result<(), ManifestError>)
    ensures
        ({
            let o = proc_one_platform_spec(
                name@,
                *platform_entry,
                old(cx).source.deep_view(),
                old(cx).root@,
                old(cx).features,
            );
            &&& match r {
                Ok(_) => o.result matches Ok(ds) && final(cx).deps.deep_view() == old(
                    cx,
                ).deps.deep_view() + ds && final(cx).platform.deep_view() == Some(name@)
                    && final(cx).warnings.deep_view() == old(cx).warnings.deep_view() + o.warnings
                    && final(cx).nested_paths.deep_view() == old(cx).nested_paths.deep_view()
                    + o.nested,
                Err(e) => o.result == Err::<Seq<DependencyView>, ErrorView>(e.deep_view()),
            }
            &&& final(cx).source == old(cx).source
            &&& final(cx).root == old(cx).root
            &&& final(cx).features == old(cx).features
            &&& final(cx).pkgid == old(cx).pkgid
        }),
{
    let ghost src = old(cx).source.deep_view();
    let ghost root = old(cx).root@;
    let ghost fs = old(cx).features;
    let ghost pname = name@;
    let ghost pw = platform_cfg_warnings(pname);
    let ghost w0 = old(cx).warnings.deep_view();
    let ghost n0 = old(cx).nested_paths.deep_view();
    match crate::ext::check_platform(name.as_str()) {
        Err(_) => {
            return Err(ManifestError::PlatformInvalid { name: name.clone() });
        },
        Ok(cfg_warnings) => {
            let mut k: usize = 0;
            #[verifier::loop_isolation(false)]
            while k < cfg_warnings.len()
                invariant
                    k <= cfg_warnings@.len(),
                    cfg_warnings.deep_view() == platform_warnings(pname),
                    cx.warnings.deep_view() == w0 + pw.subrange(0, k as int),
                    cx.source == old(cx).source,
                    cx.root == old(cx).root,
                    cx.features == old(cx).features,
                    cx.pkgid == old(cx).pkgid,
                    cx.platform == old(cx).platform,
                    cx.nested_paths == old(cx).nested_paths,
                    cx.deps == old(cx).deps,
                decreases cfg_warnings@.len() - k,
            {
                let ghost before = cx.warnings.deep_view();
                crate::profiles::push_warning(
                    &mut cx.warnings,
                    Warning::PlatformCfg(cfg_warnings[k].clone()),
                );
                proof {
                    assert(pw[k as int] == WarningView::PlatformCfg(
                        cfg_warnings.deep_view()[k as int],
                    ));
                    assert(cx.warnings.deep_view() =~= w0 + pw.subrange(0, k + 1));
                }
                k = k + 1;
            }
            proof {
                assert(pw.subrange(0, pw.len() as int) =~= pw);
            }
        },
    }
    cx.platform = Some(name.clone());
    let plat_deps = match &platform_entry.dependencies {
        Some(d) => Some(d),
        None => None,
    };
    let ghost o1s = proc_opt_spec(
        match plat_deps {
            Some(d) => Some(*d),
            None => None,
        },
        cx.source.deep_view(),
        cx.root@,
        cx.platform.deep_view(),
        cx.features,
        None,
    );
    proof {
        assert(cx.platform.deep_view() == Some(pname));
        assert((match plat_deps {
            Some(d) => Some(*d),
            None => None::<Vec<(String, DefinedTomlDependency)>>,
        }) == platform_entry.dependencies);
        assert(o1s == proc_opt_spec(platform_entry.dependencies, src, root, Some(pname), fs, None));
    }
    if let Err(e) = process_dependencies(cx, plat_deps, None) {
        proof {
            assert(o1s.result == Err::<Seq<DependencyView>, ErrorView>(e.deep_view()));
        }
        return Err(e);
    }
    let ghost w_a = cx.warnings.deep_view();
    let ghost n_a = cx.nested_paths.deep_view();
    let ghost d_a = cx.deps.deep_view();
    proof {
        assert(o1s.result is Ok);
        assert(w_a == (w0 + pw) + o1s.warnings);
        assert(n_a == n0 + o1s.nested);
        assert(d_a == old(cx).deps.deep_view() + o1s.result->Ok_0);
    }
    let build_deps = match (&platform_entry.build_dependencies, &platform_entry.build_dependencies2) {
        (Some(b), _) => Some(b),
        (None, Some(b)) => Some(b),
        (None, None) => None,
    };
    let ghost o2s = proc_opt_spec(
        match build_deps {
            Some(d) => Some(*d),
            None => None,
        },
        cx.source.deep_view(),
        cx.root@,
        cx.platform.deep_view(),
        cx.features,
        Some(DepKind::Build),
    );
    proof {
        assert((match build_deps {
            Some(d) => Some(*d),
            None => None::<Vec<(String, DefinedTomlDependency)>>,
        }) == or_opt(platform_entry.build_dependencies, platform_entry.build_dependencies2));
        assert(o2s == proc_opt_spec(
            or_opt(platform_entry.build_dependencies, platform_entry.build_dependencies2),
            src,
            root,
            Some(pname),
            fs,
            Some(DepKind::Build),
        ));
    }
    if let Err(e) = process_dependencies(cx, build_deps, Some(DepKind::Build)) {
        proof {
            assert(o2s.result == Err::<Seq<DependencyView>, ErrorView>(e.deep_view()));
        }
        return Err(e);
    }
    let ghost w_b = cx.warnings.deep_view();
    let ghost n_b = cx.nested_paths.deep_view();
    let ghost d_b = cx.deps.deep_view();
    proof {
        assert(o2s.result is Ok);
        assert(w_b == w_a + o2s.warnings);
        assert(n_b == n_a + o2s.nested);
        assert(d_b == d_a + o2s.result->Ok_0);
    }
    let dev_deps = match (&platform_entry.dev_dependencies, &platform_entry.dev_dependencies2) {
        (Some(d), _) => Some(d),
        (None, Some(d)) => Some(d),
        (None, None) => None,
    };
    let ghost o3s = proc_opt_spec(
        match dev_deps {
            Some(d) => Some(*d),
            None => None,
        },
        cx.source.deep_view(),
        cx.root@,
        cx.platform.deep_view(),
        cx.features,
        Some(DepKind::Development),
    );
    proof {
        assert((match dev_deps {
            Some(d) => Some(*d),
            None => None::<Vec<(String, DefinedTomlDependency)>>,
        }) == or_opt(platform_entry.dev_dependencies, platform_entry.dev_dependencies2));
        assert(o3s == proc_opt_spec(
            or_opt(platform_entry.dev_dependencies, platform_entry.dev_dependencies2),
            src,
            root,
            Some(pname),
            fs,
            Some(DepKind::Development),
        ));
    }
    if let Err(e) = process_dependencies(cx, dev_deps, Some(DepKind::Development)) {
        proof {
            assert(o3s.result == Err::<Seq<DependencyView>, ErrorView>(e.deep_view()));
        }
        return Err(e);
    }
    proof {
        assert(o3s.result is Ok);
        assert(cx.warnings.deep_view() == w_b + o3s.warnings);
        assert(cx.nested_paths.deep_view() == n_b + o3s.nested);
        assert(cx.deps.deep_view() == d_b + o3s.result->Ok_0);
        assert(cx.warnings.deep_view() =~= w0 + (pw + o1s.warnings + o2s.warnings + o3s.warnings));
        assert(cx.nested_paths.deep_view() =~= n0 + (o1s.nested + o2s.nested + o3s.nested));
        assert(cx.deps.deep_view() =~= old(cx).deps.deep_view() + (o1s.result->Ok_0
            + o2s.result->Ok_0 + o3s.result->Ok_0));
    }
    Ok(())
}

/// Materializes the per-platform dependency tables into the context.
#[verifier::rlimit(100)]
#[verifier::spinoff_prover]
pub fn process_platforms(
    cx: &mut DepContext,
    target: Option<&Vec<(String, DefinedTomlPlatform)>>,
) -> (r: Result<(), ManifestError>)
    ensures
        ({
            let o = match target {
                Some(t) => proc_platforms_spec(
                    t@,
                    old(cx).source.deep_view(),
                    old(cx).root@,
                    old(cx).features,
                ),
                None => ProcOutcome {
                    result: Ok(Seq::empty()),
                    warnings: Seq::empty(),
                    nested: Seq::empty(),
                },
            };
            &&& match r {
                Ok(_) => o.result matches Ok(ds) && final(cx).deps.deep_view() == old(
                    cx,
                ).deps.deep_view() + ds && final(cx).platform.deep_view() == last_platform(
                    match target {
                        Some(t) => Some(*t),
                        None => None,
                    },
                    old(cx).platform.deep_view(),
                ) && final(cx).warnings.deep_view() == old(cx).warnings.deep_view() + o.warnings
                    && final(cx).nested_paths.deep_view() == old(cx).nested_paths.deep_view()
                    + o.nested,
                Err(e) => o.result == Err::<Seq<DependencyView>, ErrorView>(e.deep_view()),
            }
            &&& final(cx).source == old(cx).source
            &&& final(cx).root == old(cx).root
            &&& final(cx).features == old(cx).features
            &&& final(cx).pkgid == old(cx).pkgid
        }),
{
    let target = match target {
        Some(t) => t,
        None => {
            proof {
                assert(cx.deps.deep_view() =~= old(cx).deps.deep_view()
                    + Seq::<DependencyView>::empty());
                assert(cx.warnings.deep_view() =~= old(cx).warnings.deep_view()
                    + Seq::<WarningView>::empty());
                assert(cx.nested_paths.deep_view() =~= old(cx).nested_paths.deep_view()
                    + Seq::<Seq<char>>::empty());
            }
            return Ok(());
        },
    };
    let ghost full = target@;
    let ghost src = old(cx).source.deep_view();
    let ghost root = old(cx).root@;
    let ghost fs = old(cx).features;
    let mut i: usize = 0;
    proof {
        assert(full.subrange(0, full.len() as int) =~= full);
        assert(cx.deps.deep_view() =~= old(cx).deps.deep_view() + Seq::<DependencyView>::empty());
        assert(cx.warnings.deep_view() =~= old(cx).warnings.deep_view()
            + Seq::<WarningView>::empty());
        assert(cx.nested_paths.deep_view() =~= old(cx).nested_paths.deep_view()
            + Seq::<Seq<char>>::empty());
    }
    #[verifier::loop_isolation(false)]
    while i < target.len()
        invariant
            i <= full.len(),
            cx.source == old(cx).source,
            cx.root == old(cx).root,
            cx.features == old(cx).features,
            cx.pkgid == old(cx).pkgid,
            i == 0 ==> cx.platform == old(cx).platform,
            i > 0 ==> cx.platform.deep_view() == Some(full[i - 1].0@),
            ({
                let done = proc_platforms_spec(
                    full.subrange(i as int, full.len() as int),
                    src,
                    root,
                    fs,
                );
                let whole = proc_platforms_spec(full, src, root, fs);
                &&& (match done.result {
                    Ok(ds) => whole.result matches Ok(ws2) && cx.deps.deep_view() + ds == old(
                        cx,
                    ).deps.deep_view() + ws2,
                    Err(e) => whole.result == Err::<Seq<DependencyView>, ErrorView>(e),
                })
                &&& cx.warnings.deep_view() + done.warnings == old(cx).warnings.deep_view()
                    + whole.warnings
                &&& cx.nested_paths.deep_view() + done.nested == old(cx).nested_paths.deep_view()
                    + whole.nested
            }),
        decreases full.len() - i,
    {
        let ghost rest = full.subrange(i as int, full.len() as int);
        let ghost one = proc_one_platform_spec(full[i as int].0@, full[i as int].1, src, root, fs);
        proof {
            assert(rest[0] == full[i as int]);
            assert(rest.drop_first() =~= full.subrange(i + 1 as int, full.len() as int));
        }
        let ghost w1 = cx.warnings.deep_view();
        let ghost n1 = cx.nested_paths.deep_view();
        let ghost d1 = cx.deps.deep_view();
        let r = process_one_platform(cx, &target[i].0, &target[i].1);
        if let Err(e) = r {
            return Err(e);
        }
        proof {
            let next = proc_platforms_spec(
                full.subrange(i + 1 as int, full.len() as int),
                src,
                root,
                fs,
            );
            assert(cx.warnings.deep_view() + next.warnings =~= w1 + (one.warnings
                + next.warnings));
            assert(cx.nested_paths.deep_view() + next.nested =~= n1 + (one.nested + next.nested));
            match next.result {
                Ok(ds2) => {
                    assert(cx.deps.deep_view() + ds2 =~= d1 + (one.result->Ok_0 + ds2));
                },
                Err(_) => {},
            }
        }
        i = i + 1;
    }
    proof {
        assert(full.subrange(full.len() as int, full.len() as int) =~= Seq::<
            (String, DefinedTomlPlatform),
        >::empty());
        assert(cx.deps.deep_view() + Seq::<DependencyView>::empty() =~= cx.deps.deep_view());
        assert(cx.warnings.deep_view() + Seq::<WarningView>::empty() =~= cx.warnings.deep_view());
        assert(cx.nested_paths.deep_view() + Seq::<Seq<char>>::empty()
            =~= cx.nested_paths.deep_view());
    }
    Ok(())
}

} // verus!

verus! {

/// What resolving the replacement table yields.
pub ghost struct ReplaceOutcome {
    pub result: Result<Seq<(crate::pkgid::PackageIdSpecView, DependencyView)>, ErrorView>,
    pub warnings: Seq<WarningView>,
    pub nested: Seq<Seq<char>>,
}

/// Resolving the replacement table entry by entry: each key must be a
/// package id spec pinning a version, its URL defaults to the public
/// registry index, and the replacement itself may not carry a version
/// requirement.
pub open spec fn replace_entries_spec(
    entries: Seq<(String, DefinedTomlDependency)>,
    src: SourceIdentityView,
    root: Seq<char>,
    platform: Option<Seq<char>>,
    fs: FeatureSet,
) -> ReplaceOutcome
    decreases entries.len(),
{
    if entries.len() == 0 {
        ReplaceOutcome { result: Ok(Seq::empty()), warnings: Seq::empty(), nested: Seq::empty() }
    } else {
        match parse_pkgid_spec(entries[0].0@) {
            Err(e) => ReplaceOutcome {
                result: Err(e),
                warnings: Seq::empty(),
                nested: Seq::empty(),
            },
            Ok(specv) => {
                let spec2 = crate::pkgid::PackageIdSpecView {
                    url: match specv.url {
                        Some(u) => Some(u),
                        None => Some(crates_io_index_spec()),
                    },
                    ..specv
                };
                if crate::depend::is_version_specified_view(entries[0].1.deep_view()) {
                    ReplaceOutcome {
                        result: Err(ErrorView::ReplaceHasVersionReq(entries[0].0@)),
                        warnings: Seq::empty(),
                        nested: Seq::empty(),
                    }
                } else {
                    let o = defined_to_dependency_spec(
                        entries[0].1.deep_view(),
                        specv.name,
                        src,
                        root,
                        platform,
                        fs,
                        None,
                    );
                    match o.result {
                        Err(e) => ReplaceOutcome {
                            result: Err(e),
                            warnings: o.warnings,
                            nested: o.nested,
                        },
                        Ok(depv) => match specv.version {
                            None => ReplaceOutcome {
                                result: Err(ErrorView::ReplaceNeedsVersion(entries[0].0@)),
                                warnings: o.warnings,
                                nested: o.nested,
                            },
                            Some(v) => {
                                let dep2 = DependencyView {
                                    version_req: crate::source::DepVersionReqView::Exact(v),
                                    ..depv
                                };
                                let rest = replace_entries_spec(
                                    entries.drop_first(),
                                    src,
                                    root,
                                    platform,
                                    fs,
                                );
                                ReplaceOutcome {
                                    result: match rest.result {
                                        Err(e) => Err(e),
                                        Ok(ds) => Ok(seq![(spec2, dep2)] + ds),
                                    },
                                    warnings: o.warnings + rest.warnings,
                                    nested: o.nested + rest.nested,
                                }
                            },
                        },
                    }
                }
            },
        }
    }
}

impl DefinedTomlManifest {
    /// Resolves the replacement table. The replacement and patch tables
    /// cannot be combined.
    #[verifier::rlimit(100)]
    #[verifier::spinoff_prover]
    pub fn replace(&self, cx: &mut DepContext) -> (r: Result<
        Vec<(PackageIdSpec, Dependency)>,
        ManifestError,
    >)
        ensures
            ({
                let o = if self.patch is Some && self.replace is Some {
                    ReplaceOutcome {
                        result: Err(ErrorView::ReplaceWithPatch),
                        warnings: Seq::empty(),
                        nested: Seq::empty(),
                    }
                } else {
                    match self.replace {
                        Some(ref t) => replace_entries_spec(
                            t@,
                            old(cx).source.deep_view(),
                            old(cx).root@,
                            old(cx).platform.deep_view(),
                            old(cx).features,
                        ),
                        None => ReplaceOutcome {
                            result: Ok(Seq::empty()),
                            warnings: Seq::empty(),
                            nested: Seq::empty(),
                        },
                    }
                };
                &&& match r {
                    Ok(v) => o.result matches Ok(ds) && v.deep_view() == ds
                        && final(cx).warnings.deep_view() == old(cx).warnings.deep_view()
                        + o.warnings && final(cx).nested_paths.deep_view() == old(
                        cx,
                    ).nested_paths.deep_view() + o.nested && final(cx).deps == old(cx).deps,
                    Err(e) => o.result == Err::<
                        Seq<(crate::pkgid::PackageIdSpecView, DependencyView)>,
                        ErrorView,
                    >(e.deep_view()),
                }
                &&& final(cx).source == old(cx).source
                &&& final(cx).platform == old(cx).platform
                &&& final(cx).root == old(cx).root
                &&& final(cx).features == old(cx).features
                &&& final(cx).pkgid == old(cx).pkgid
            }),
    {
        if self.patch.is_some() && self.replace.is_some() {
            return Err(ManifestError::ReplaceWithPatch);
        }
        let entries = match &self.replace {
            Some(t) => t,
            None => {
                let out: Vec<(PackageIdSpec, Dependency)> = Vec::new();
                proof {
                    assert(out.deep_view() =~= Seq::<
                        (crate::pkgid::PackageIdSpecView, DependencyView),
                    >::empty());
                    assert(cx.warnings.deep_view() =~= old(cx).warnings.deep_view()
                        + Seq::<WarningView>::empty());
                    assert(cx.nested_paths.deep_view() =~= old(cx).nested_paths.deep_view()
                        + Seq::<Seq<char>>::empty());
                }
                return Ok(out);
            },
        };
        let ghost full = entries@;
        let ghost src = old(cx).source.deep_view();
        let ghost root = old(cx).root@;
        let ghost platform = old(cx).platform.deep_view();
        let ghost fs = old(cx).features;
        let mut out: Vec<(PackageIdSpec, Dependency)> = Vec::new();
        let mut i: usize = 0;
        proof {
            assert(full.subrange(0, full.len() as int) =~= full);
            assert(out.deep_view() =~= Seq::<
                (crate::pkgid::PackageIdSpecView, DependencyView),
            >::empty());
            assert(cx.warnings.deep_view() =~= old(cx).warnings.deep_view()
                + Seq::<WarningView>::empty());
            assert(cx.nested_paths.deep_view() =~= old(cx).nested_paths.deep_view()
                + Seq::<Seq<char>>::empty());
        }
        #[verifier::loop_isolation(false)]
        while i < entries.len()
            invariant
                i <= full.len(),
                cx.source == old(cx).source,
                cx.platform == old(cx).platform,
                cx.root == old(cx).root,
                cx.features == old(cx).features,
                cx.pkgid == old(cx).pkgid,
                cx.deps == old(cx).deps,
                ({
                    let done = replace_entries_spec(
                        full.subrange(i as int, full.len() as int),
                        src,
                        root,
                        platform,
                        fs,
                    );
                    let whole = replace_entries_spec(full, src, root, platform, fs);
                    &&& (match done.result {
                        Ok(ds) => whole.result matches Ok(ws2) && out.deep_view() + ds == ws2,
                        Err(e) => whole.result == Err::<
                            Seq<(crate::pkgid::PackageIdSpecView, DependencyView)>,
                            ErrorView,
                        >(e),
                    })
                    &&& cx.warnings.deep_view() + done.warnings == old(cx).warnings.deep_view()
                        + whole.warnings
                    &&& cx.nested_paths.deep_view() + done.nested == old(
                        cx,
                    ).nested_paths.deep_view() + whole.nested
                }),
            decreases full.len() - i,
        {
            let ghost rest = full.subrange(i as int, full.len() as int);
            proof {
                assert(rest[0] == full[i as int]);
                assert(rest.drop_first() =~= full.subrange(i + 1 as int, full.len() as int));
            }
            let mut spec = match PackageIdSpec::parse(entries[i].0.as_str()) {
                Ok(s) => s,
                Err(e) => {
                    return Err(e);
                },
            };
            if spec.url.is_none() {
                spec.url = Some(crates_io_index().to_owned());
            }
            if entries[i].1.is_version_specified() {
                return Err(ManifestError::ReplaceHasVersionReq(entries[i].0.clone()));
            }
            let ghost w1 = cx.warnings.deep_view();
            let ghost n1 = cx.nested_paths.deep_view();
            let mut dep = match entries[i].1.to_dependency(spec.name.clone().as_str(), cx, None) {
                Ok(d) => d,
                Err(e) => {
                    return Err(e);
                },
            };
            let version = match &spec.version {
                Some(v) => v.duplicate(),
                None => {
                    return Err(ManifestError::ReplaceNeedsVersion(entries[i].0.clone()));
                },
            };
            dep.version_req = DepVersionReq::Exact(version);
            let ghost old_out = out.deep_view();
            out.push((spec, dep));
            proof {
                let done = replace_entries_spec(rest, src, root, platform, fs);
                let next = replace_entries_spec(rest.drop_first(), src, root, platform, fs);
                assert(out.deep_view() =~= old_out.push(
                    (out@[out@.len() - 1].0.deep_view(), out@[out@.len() - 1].1.deep_view()),
                ));
                match next.result {
                    Ok(ds) => {
                        assert(out.deep_view() + ds =~= old_out + (seq![
                            (
                                out@[out@.len() - 1].0.deep_view(),
                                out@[out@.len() - 1].1.deep_view(),
                            ),
                        ] + ds));
                    },
                    Err(_) => {},
                }
            }
            i = i + 1;
        }
        proof {
            assert(full.subrange(full.len() as int, full.len() as int) =~= Seq::<
                (String, DefinedTomlDependency),
            >::empty());
            assert(out.deep_view() + Seq::<
                (crate::pkgid::PackageIdSpecView, DependencyView),
            >::empty() =~= out.deep_view());
            assert(cx.warnings.deep_view() + Seq::<WarningView>::empty()
                =~= cx.warnings.deep_view());
            assert(cx.nested_paths.deep_view() + Seq::<Seq<char>>::empty()
                =~= cx.nested_paths.deep_view());
        }
        Ok(out)
    }
}

} // verus!

verus! {

/// Materializing the dependencies of one patch entry, in order.
pub open spec fn patch_deps_spec(
    entries: Seq<(String, DefinedTomlDependency)>,
    src: SourceIdentityView,
    root: Seq<char>,
    platform: Option<Seq<char>>,
    fs: FeatureSet,
) -> ProcOutcome
    decreases entries.len(),
{
    if entries.len() == 0 {
        ProcOutcome { result: Ok(Seq::empty()), warnings: Seq::empty(), nested: Seq::empty() }
    } else {
        let o = defined_to_dependency_spec(
            entries[0].1.deep_view(),
            entries[0].0@,
            src,
            root,
            platform,
            fs,
            None,
        );
        match o.result {
            Err(e) => ProcOutcome { result: Err(e), warnings: o.warnings, nested: o.nested },
            Ok(depv) => {
                let rest = patch_deps_spec(entries.drop_first(), src, root, platform, fs);
                ProcOutcome {
                    result: match rest.result {
                        Err(e) => Err(e),
                        Ok(ds) => Ok(seq![depv] + ds),
                    },
                    warnings: o.warnings + rest.warnings,
                    nested: o.nested + rest.nested,
                }
            },
        }
    }
}

/// What one patch key resolves to: the public registry's index for its
/// reserved name, else the key itself read as a URL.
pub open spec fn patch_key_spec(key: Seq<char>) -> Result<Seq<char>, ErrorView> {
    if key == crates_io_name_spec() {
        Ok(crates_io_index_spec())
    } else {
        match crate::ext::url_parse(key) {
            Some(t) => Ok(t.0),
            None => Err(ErrorView::PatchKeyInvalid(key)),
        }
    }
}

/// What resolving the patch table yields.
pub ghost struct PatchOutcome {
    pub result: Result<Seq<(Seq<char>, Seq<DependencyView>)>, ErrorView>,
    pub warnings: Seq<WarningView>,
    pub nested: Seq<Seq<char>>,
}

/// Resolving the patch table entry by entry: each key becomes a registry
/// location and its dependencies are materialized.
pub open spec fn patch_entries_spec(
    entries: Seq<(String, Vec<(String, DefinedTomlDependency)>)>,
    src: SourceIdentityView,
    root: Seq<char>,
    platform: Option<Seq<char>>,
    fs: FeatureSet,
) -> PatchOutcome
    decreases entries.len(),
{
    if entries.len() == 0 {
        PatchOutcome { result: Ok(Seq::empty()), warnings: Seq::empty(), nested: Seq::empty() }
    } else {
        match patch_key_spec(entries[0].0@) {
            Err(e) => PatchOutcome {
                result: Err(e),
                warnings: Seq::empty(),
                nested: Seq::empty(),
            },
            Ok(url) => {
                let o = patch_deps_spec(entries[0].1@, src, root, platform, fs);
                match o.result {
                    Err(e) => PatchOutcome {
                        result: Err(e),
                        warnings: o.warnings,
                        nested: o.nested,
                    },
                    Ok(ds) => {
                        let rest = patch_entries_spec(
                            entries.drop_first(),
                            src,
                            root,
                            platform,
                            fs,
                        );
                        PatchOutcome {
                            result: match rest.result {
                                Err(e) => Err(e),
                                Ok(rs) => Ok(seq![(url, ds)] + rs),
                            },
                            warnings: o.warnings + rest.warnings,
                            nested: o.nested + rest.nested,
                        }
                    },
                }
            },
        }
    }
}

impl DefinedTomlManifest {
    /// Resolves the patch table: each key selects the registry whose
    /// entries are replaced.
    #[verifier::rlimit(100)]
    #[verifier::spinoff_prover]
    pub fn patch(&self, cx: &mut DepContext) -> (r: Result<
        Vec<(String, Vec<Dependency>)>,
        ManifestError,
    >)
        ensures
            ({
                let o = match self.patch {
                    Some(ref t) => patch_entries_spec(
                        t@,
                        old(cx).source.deep_view(),
                        old(cx).root@,
                        old(cx).platform.deep_view(),
                        old(cx).features,
                    ),
                    None => PatchOutcome {
                        result: Ok(Seq::empty()),
                        warnings: Seq::empty(),
                        nested: Seq::empty(),
                    },
                };
                &&& match r {
                    Ok(v) => o.result matches Ok(ds) && v.deep_view() == ds
                        && final(cx).warnings.deep_view() == old(cx).warnings.deep_view()
                        + o.warnings && final(cx).nested_paths.deep_view() == old(
                        cx,
                    ).nested_paths.deep_view() + o.nested && final(cx).deps == old(cx).deps,
                    Err(e) => o.result == Err::<
                        Seq<(Seq<char>, Seq<DependencyView>)>,
                        ErrorView,
                    >(e.deep_view()),
                }
                &&& final(cx).source == old(cx).source
                &&& final(cx).platform == old(cx).platform
                &&& final(cx).root == old(cx).root
                &&& final(cx).features == old(cx).features
                &&& final(cx).pkgid == old(cx).pkgid
            }),
    {
        let entries = match &self.patch {
            Some(t) => t,
            None => {
                let out: Vec<(String, Vec<Dependency>)> = Vec::new();
                proof {
                    assert(out.deep_view() =~= Seq::<(Seq<char>, Seq<DependencyView>)>::empty());
                    assert(cx.warnings.deep_view() =~= old(cx).warnings.deep_view()
                        + Seq::<WarningView>::empty());
                    assert(cx.nested_paths.deep_view() =~= old(cx).nested_paths.deep_view()
                        + Seq::<Seq<char>>::empty());
                }
                return Ok(out);
            },
        };
        let ghost full = entries@;
        let ghost src = old(cx).source.deep_view();
        let ghost root = old(cx).root@;
        let ghost platform = old(cx).platform.deep_view();
        let ghost fs = old(cx).features;
        let mut out: Vec<(String, Vec<Dependency>)> = Vec::new();
        let mut i: usize = 0;
        proof {
            assert(full.subrange(0, full.len() as int) =~= full);
            assert(out.deep_view() =~= Seq::<(Seq<char>, Seq<DependencyView>)>::empty());
            assert(cx.warnings.deep_view() =~= old(cx).warnings.deep_view()
                + Seq::<WarningView>::empty());
            assert(cx.nested_paths.deep_view() =~= old(cx).nested_paths.deep_view()
                + Seq::<Seq<char>>::empty());
        }
        #[verifier::loop_isolation(false)]
        while i < entries.len()
            invariant
                i <= full.len(),
                cx.source == old(cx).source,
                cx.platform == old(cx).platform,
                cx.root == old(cx).root,
                cx.features == old(cx).features,
                cx.pkgid == old(cx).pkgid,
                cx.deps == old(cx).deps,
                ({
                    let done = patch_entries_spec(
                        full.subrange(i as int, full.len() as int),
                        src,
                        root,
                        platform,
                        fs,
                    );
                    let whole = patch_entries_spec(full, src, root, platform, fs);
                    &&& (match done.result {
                        Ok(ds) => whole.result matches Ok(ws2) && out.deep_view() + ds == ws2,
                        Err(e) => whole.result == Err::<
                            Seq<(Seq<char>, Seq<DependencyView>)>,
                            ErrorView,
                        >(e),
                    })
                    &&& cx.warnings.deep_view() + done.warnings == old(cx).warnings.deep_view()
                        + whole.warnings
                    &&& cx.nested_paths.deep_view() + done.nested == old(
                        cx,
                    ).nested_paths.deep_view() + whole.nested
                }),
            decreases full.len() - i,
        {
            let ghost rest = full.subrange(i as int, full.len() as int);
            proof {
                assert(rest[0] == full[i as int]);
                assert(rest.drop_first() =~= full.subrange(i + 1 as int, full.len() as int));
            }
            let key = &entries[i].0;
            let url: String = if str_eq(key.as_str(), "crates-io") {
                proof {
                    reveal_strlit("crates-io");
                }
                crates_io_index().to_owned()
            } else {
                match crate::ext::parse_url(key.as_str()) {
                    Some(parts) => parts.text,
                    None => {
                        return Err(ManifestError::PatchKeyInvalid(key.clone()));
                    },
                }
            };
            proof {
                assert(patch_key_spec(full[i as int].0@) == Ok::<Seq<char>, ErrorView>(url@));
            }
            let deps_list = &entries[i].1;
            let ghost inner_full = deps_list@;
            let mut inner: Vec<Dependency> = Vec::new();
            let mut k: usize = 0;
            let ghost w1 = cx.warnings.deep_view();
            let ghost n1 = cx.nested_paths.deep_view();
            proof {
                assert(inner_full.subrange(0, inner_full.len() as int) =~= inner_full);
                assert(inner.deep_view() =~= Seq::<DependencyView>::empty());
                assert(cx.warnings.deep_view() =~= w1 + Seq::<WarningView>::empty());
                assert(cx.nested_paths.deep_view() =~= n1 + Seq::<Seq<char>>::empty());
            }
            #[verifier::loop_isolation(false)]
            while k < deps_list.len()
                invariant
                    k <= inner_full.len(),
                    cx.source == old(cx).source,
                    cx.platform == old(cx).platform,
                    cx.root == old(cx).root,
                    cx.features == old(cx).features,
                    cx.pkgid == old(cx).pkgid,
                    cx.deps == old(cx).deps,
                    ({
                        let idone = patch_deps_spec(
                            inner_full.subrange(k as int, inner_full.len() as int),
                            src,
                            root,
                            platform,
                            fs,
                        );
                        let iwhole = patch_deps_spec(inner_full, src, root, platform, fs);
                        &&& (match idone.result {
                            Ok(ds) => iwhole.result matches Ok(ws2) && inner.deep_view() + ds
                                == ws2,
                            Err(e) => iwhole.result == Err::<Seq<DependencyView>, ErrorView>(e),
                        })
                        &&& cx.warnings.deep_view() + idone.warnings == w1 + iwhole.warnings
                        &&& cx.nested_paths.deep_view() + idone.nested == n1 + iwhole.nested
                    }),
                decreases inner_full.len() - k,
            {
                let ghost irest = inner_full.subrange(k as int, inner_full.len() as int);
                proof {
                    assert(irest[0] == inner_full[k as int]);
                    assert(irest.drop_first() =~= inner_full.subrange(
                        k + 1 as int,
                        inner_full.len() as int,
                    ));
                }
                let dep = match deps_list[k].1.to_dependency(deps_list[k].0.as_str(), cx, None) {
                    Ok(d) => d,
                    Err(e) => {
                        return Err(e);
                    },
                };
                let ghost old_inner = inner.deep_view();
                inner.push(dep);
                proof {
                    assert(inner.deep_view() =~= old_inner.push(
                        inner@[inner@.len() - 1].deep_view(),
                    ));
                    let nxt = patch_deps_spec(irest.drop_first(), src, root, platform, fs);
                    match nxt.result {
                        Ok(ds) => {
                            assert(inner.deep_view() + ds =~= old_inner + (seq![
                                inner@[inner@.len() - 1].deep_view(),
                            ] + ds));
                        },
                        Err(_) => {},
                    }
                }
                k = k + 1;
            }
            proof {
                assert(inner_full.subrange(inner_full.len() as int, inner_full.len() as int)
                    =~= Seq::<(String, DefinedTomlDependency)>::empty());
                assert(inner.deep_view() + Seq::<DependencyView>::empty() =~= inner.deep_view());
            }
            let ghost old_out = out.deep_view();
            out.push((url, inner));
            proof {
                assert(out.deep_view() =~= old_out.push(
                    (out@[out@.len() - 1].0@, out@[out@.len() - 1].1.deep_view()),
                ));
                let done = patch_entries_spec(rest, src, root, platform, fs);
                let next = patch_entries_spec(rest.drop_first(), src, root, platform, fs);
                match next.result {
                    Ok(ds) => {
                        assert(out.deep_view() + ds =~= old_out + (seq![
                            (out@[out@.len() - 1].0@, out@[out@.len() - 1].1.deep_view()),
                        ] + ds));
                    },
                    Err(_) => {},
                }
                assert(cx.warnings.deep_view() + next.warnings =~= old(cx).warnings.deep_view()
                    + patch_entries_spec(full, src, root, platform, fs).warnings || true);
            }
            i = i + 1;
        }
        proof {
            assert(full.subrange(full.len() as int, full.len() as int) =~= Seq::<
                (String, Vec<(String, DefinedTomlDependency)>),
            >::empty());
            assert(out.deep_view() + Seq::<(Seq<char>, Seq<DependencyView>)>::empty()
                =~= out.deep_view());
            assert(cx.warnings.deep_view() + Seq::<WarningView>::empty()
                =~= cx.warnings.deep_view());
            assert(cx.nested_paths.deep_view() + Seq::<Seq<char>>::empty()
                =~= cx.nested_paths.deep_view());
        }
        Ok(out)
    }
}

} // verus!

verus! {

/// The resolved summary of a package: identity, dependency records and
/// the feature table.
#[derive(Debug)]
pub struct Summary {
    pub package_id: PackageId,
    pub dependencies: Vec<Dependency>,
    pub features: Vec<(String, Vec<String>)>,
    pub links: Option<String>,
    pub namespaced_features: bool,
}

/// The metadata of a finished manifest.
#[derive(Debug)]
pub struct ManifestMetadata {
    pub description: Option<String>,
    pub homepage: Option<String>,
    pub documentation: Option<String>,
    pub readme: Option<String>,
    pub authors: Vec<String>,
    pub license: Option<String>,
    pub license_file: Option<String>,
    pub repository: Option<String>,
    pub keywords: Vec<String>,
    pub categories: Vec<String>,
    pub badges: Vec<(String, Vec<(String, String)>)>,
    pub links: Option<String>,
}

/// The fully resolved manifest of one buildable package.
#[derive(Debug)]
pub struct Manifest {
    pub summary: Summary,
    pub targets: Vec<Target>,
    pub exclude: Vec<String>,
    pub keep: Vec<String>,
    pub links: Option<String>,
    pub metadata: ManifestMetadata,
    pub custom_metadata: Option<toml::Value>,
    pub profiles: Option<TomlProfiles>,
    pub publish: Option<Vec<String>>,
    pub publish_lockfile: bool,
    pub replace: Vec<(PackageIdSpec, Dependency)>,
    pub patch: Vec<(String, Vec<Dependency>)>,
    pub workspace: WorkspaceConfig,
    pub features: FeatureSet,
    pub edition: Edition,
    pub im_a_teapot: Option<bool>,
    pub default_run: Option<String>,
    pub metabuild: Option<Vec<String>>,
    pub resolve_behavior: Option<ResolveBehavior>,
    pub warnings: Vec<Warning>,
    pub critical_warnings: Vec<String>,
    /// The canonical descriptor the manifest was assembled from, kept for
    /// re-serialization.
    pub original: DefinedTomlManifest,
}

/// A workspace-root-only manifest, coordinating members without a package
/// of its own.
#[derive(Debug)]
pub struct VirtualManifest {
    pub replace: Vec<(PackageIdSpec, Dependency)>,
    pub patch: Vec<(String, Vec<Dependency>)>,
    pub workspace: WorkspaceConfig,
    pub profiles: Option<TomlProfiles>,
    pub features: FeatureSet,
    pub resolve_behavior: Option<ResolveBehavior>,
    pub warnings: Vec<Warning>,
}

/// The two shapes a document resolves to.
#[derive(Debug)]
pub enum EitherManifest {
    Real(Manifest),
    Virtual(VirtualManifest),
}

/// Index of the first dependency whose document name an earlier record
/// resolved to a different source identity, or the length.
pub open spec fn first_source_conflict(deps: Seq<DependencyView>, j: int) -> int
    decreases deps.len() - j,
{
    if j < 0 || j >= deps.len() {
        deps.len() as int
    } else if exists|i: int|
        0 <= i < j && name_in_toml_spec(#[trigger] deps[i]) == name_in_toml_spec(deps[j])
            && deps[i].source != deps[j].source {
        j
    } else {
        first_source_conflict(deps, j + 1)
    }
}

/// Enforces that one dependency name resolves to one source identity
/// across every platform-conditional declaration.
pub fn check_dependency_sources(deps: &Vec<Dependency>) -> (r: Result<(), ManifestError>)
    ensures
        ({
            let c = first_source_conflict(deps.deep_view(), 0);
            match r {
                Ok(_) => c == deps@.len(),
                Err(e) => c < deps@.len() && e.deep_view()
                    == ErrorView::DependencySourceConflict(
                    name_in_toml_spec(deps.deep_view()[c]),
                ),
            }
        }),
{
    let mut j: usize = 0;
    #[verifier::loop_isolation(false)]
    while j < deps.len()
        invariant
            j <= deps@.len(),
            first_source_conflict(deps.deep_view(), 0) == first_source_conflict(
                deps.deep_view(),
                j as int,
            ),
        decreases deps@.len() - j,
    {
        let mut i: usize = 0;
        #[verifier::loop_isolation(false)]
        while i < j
            invariant
                i <= j < deps@.len(),
                first_source_conflict(deps.deep_view(), 0) == first_source_conflict(
                    deps.deep_view(),
                    j as int,
                ),
                forall|k: int|
                    0 <= k < i ==> !(name_in_toml_spec(#[trigger] deps.deep_view()[k])
                        == name_in_toml_spec(deps.deep_view()[j as int])
                        && deps.deep_view()[k].source != deps.deep_view()[j as int].source),
            decreases j - i,
        {
            if str_eq(deps[i].name_in_toml().as_str(), deps[j].name_in_toml().as_str())
                && !deps[i].source.same(&deps[j].source) {
                proof {
                    assert(name_in_toml_spec(deps.deep_view()[i as int]) == name_in_toml_spec(
                        deps.deep_view()[j as int],
                    ));
                    assert(first_source_conflict(deps.deep_view(), j as int) == j);
                }
                return Err(
                    ManifestError::DependencySourceConflict(deps[j].name_in_toml().clone()),
                );
            }
            i = i + 1;
        }
        j = j + 1;
    }
    Ok(())
}

/// Length of the longest common prefix of two texts.
pub open spec fn common_prefix_len(a: Seq<char>, b: Seq<char>) -> int
    decreases a.len(),
{
    if a.len() == 0 || b.len() == 0 || a[0] != b[0] {
        0
    } else {
        1 + common_prefix_len(a.drop_first(), b.drop_first())
    }
}

proof fn lemma_common_prefix_len(a: Seq<char>, b: Seq<char>)
    ensures
        0 <= common_prefix_len(a, b) <= a.len(),
        common_prefix_len(a, b) <= b.len(),
    decreases a.len(),
{
    if a.len() == 0 || b.len() == 0 || a[0] != b[0] {
    } else {
        lemma_common_prefix_len(a.drop_first(), b.drop_first());
    }
}

/// Computes the longest common prefix of two texts.
fn common_prefix(a: &str, b: &str) -> (r: usize)
    ensures
        r == common_prefix_len(a@, b@),
{
    proof {
        lemma_common_prefix_len(a@, b@);
    }
    let alen = a.unicode_len();
    let blen = b.unicode_len();
    let mut i: usize = 0;
    #[verifier::loop_isolation(false)]
    while i < alen && i < blen && a.get_char(i) == b.get_char(i)
        invariant
            alen == a@.len(),
            blen == b@.len(),
            i <= alen,
            i <= blen,
            forall|k: int| 0 <= k < i ==> a@[k] == b@[k],
            i <= common_prefix_len(a@, b@),
        decreases alen - i,
    {
        i = i + 1;
        proof {
            lemma_cpl_lower(a@, b@, i as int);
        }
    }
    proof {
        assert(i == common_prefix_len(a@, b@)) by {
            if i < common_prefix_len(a@, b@) {
                lemma_cpl_index(a@, b@, i as int);
            }
        }
    }
    i
}

proof fn lemma_cpl_lower(a: Seq<char>, b: Seq<char>, i: int)
    requires
        0 <= i <= a.len(),
        i <= b.len(),
        forall|k: int| 0 <= k < i ==> a[k] == b[k],
    ensures
        i <= common_prefix_len(a, b),
    decreases a.len(),
{
    lemma_common_prefix_len(a, b);
    if i > 0 {
        assert(a[0] == b[0]);
        assert forall|k: int| 0 <= k < i - 1 implies a.drop_first()[k] == b.drop_first()[k] by {
            assert(a[k + 1] == b[k + 1]);
        }
        lemma_cpl_lower(a.drop_first(), b.drop_first(), i - 1);
        assert(common_prefix_len(a, b) == 1 + common_prefix_len(a.drop_first(), b.drop_first()));
    }
}

proof fn lemma_cpl_index(a: Seq<char>, b: Seq<char>, i: int)
    requires
        0 <= i < common_prefix_len(a, b),
    ensures
        i < a.len() && i < b.len() && a[i] == b[i],
    decreases i,
{
    if i > 0 {
        lemma_cpl_index(a.drop_first(), b.drop_first(), i - 1);
    }
}

/// The best suggestion for a missing run target: the binary whose name
/// shares the longest non-empty prefix with the requested name, earliest
/// declared winning ties.
pub open spec fn best_bin_suggestion(
    ts: Seq<Target>,
    run: Seq<char>,
    acc_len: int,
    acc: Option<Seq<char>>,
) -> Option<Seq<char>>
    decreases ts.len(),
{
    if ts.len() == 0 {
        acc
    } else if ts[0].kind == TargetKind::BinTarget && common_prefix_len(ts[0].name@, run) > acc_len {
        best_bin_suggestion(
            ts.drop_first(),
            run,
            common_prefix_len(ts[0].name@, run),
            Some(ts[0].name@),
        )
    } else {
        best_bin_suggestion(ts.drop_first(), run, acc_len, acc)
    }
}

/// Whether some binary target carries the given name.
pub open spec fn has_bin_named(ts: Seq<Target>, run: Seq<char>) -> bool {
    exists|i: int|
        0 <= i < ts.len() && #[trigger] ts[i].kind == TargetKind::BinTarget && ts[i].name@ == run
}

/// Finds the suggestion for a missing run target.
pub fn closest_bin_suggestion(targets: &Vec<Target>, run: &str) -> (r: Option<String>)
    ensures
        r.deep_view() == best_bin_suggestion(targets@, run@, 0, None),
{
    let mut best: Option<String> = None;
    let mut best_len: usize = 0;
    let mut i: usize = 0;
    proof {
        assert(targets@.subrange(0, targets@.len() as int) =~= targets@);
    }
    #[verifier::loop_isolation(false)]
    while i < targets.len()
        invariant
            i <= targets@.len(),
            best is None ==> best_len == 0,
            best_bin_suggestion(targets@, run@, 0, None) == best_bin_suggestion(
                targets@.subrange(i as int, targets@.len() as int),
                run@,
                best_len as int,
                best.deep_view(),
            ),
        decreases targets@.len() - i,
    {
        let ghost rest = targets@.subrange(i as int, targets@.len() as int);
        proof {
            assert(rest[0] == targets@[i as int]);
            assert(rest.drop_first() =~= targets@.subrange(i + 1 as int, targets@.len() as int));
        }
        if targets[i].is_bin() {
            let c = common_prefix(targets[i].name.as_str(), run);
            if c > best_len {
                best = Some(targets[i].name.clone());
                best_len = c;
            }
        }
        i = i + 1;
    }
    proof {
        assert(targets@.subrange(targets@.len() as int, targets@.len() as int)
            =~= Seq::<Target>::empty());
    }
    best
}

/// Copies the feature table.
pub fn clone_features_table(v: &Vec<(String, Vec<String>)>) -> (r: Vec<(String, Vec<String>)>)
    ensures
        r.deep_view() == v.deep_view(),
{
    let mut r: Vec<(String, Vec<String>)> = Vec::new();
    let mut i: usize = 0;
    proof {
        assert(r.deep_view() =~= v.deep_view().subrange(0, 0));
    }
    #[verifier::loop_isolation(false)]
    while i < v.len()
        invariant
            i <= v@.len(),
            r.deep_view() == v.deep_view().subrange(0, i as int),
        decreases v@.len() - i,
    {
        let ghost old_r = r.deep_view();
        r.push((v[i].0.clone(), crate::strutil::clone_string_vec(&v[i].1)));
        proof {
            assert(r.deep_view() =~= old_r.push(v.deep_view()[i as int]));
            assert(r.deep_view() =~= v.deep_view().subrange(0, i + 1));
        }
        i = i + 1;
    }
    proof {
        assert(v.deep_view().subrange(0, v@.len() as int) =~= v.deep_view());
    }
    r
}

} // verus!


verus! {

/// The first check manifest assembly fails, with its error: the
/// counterpart of `real_manifest_ok`.
pub open spec fn real_manifest_err(
    m: DefinedTomlManifest,
    ws: Option<&TomlWorkspace>,
    source_id: SourceIdentity,
    package_root: Seq<char>,
    targets: Seq<Target>,
) -> Option<ErrorView> {
    if head_manifest_err(m, targets) is Some {
        head_manifest_err(m, targets)
    } else if tables_err(m, ws, source_id, package_root) is Some {
        tables_err(m, ws, source_id, package_root)
    } else {
        assemble_err(
            m,
            all_deps_of(m, ws, source_id, package_root),
            targets,
            crate::features::feature_set_spec(declared_features_of(m)),
            package_root,
        )
    }
}

impl DefinedTomlManifest {
    /// The assembler's header: builds the capability set, validates the
    /// package name, resolves the edition and the resolver selection, and
    /// checks that `links` comes with a build script. Succeeds exactly
    /// when `head_manifest_ok` holds.
    #[verifier::rlimit(100)]
    #[verifier::spinoff_prover]
    fn resolve_header(&self, targets: &Vec<Target>) -> (r: Result<
        (FeatureSet, Edition, Option<ResolveBehavior>),
        ManifestError,
    >)
        requires
            self.package is Some,
        ensures
            r is Ok <==> head_manifest_ok(*self, targets@),
            r is Ok ==> head_manifest_err(*self, targets@) is None,
            r matches Err(e) ==> Some(e.deep_view()) == head_manifest_err(*self, targets@),
            r matches Ok(t) ==> ({
                let fs = crate::features::feature_set_spec(declared_features_of(*self));
                let p = self.package->0;
                &&& t.0 == fs
                &&& t.1 == (match p.edition {
                    Some(ref e) => parse_edition_spec(e@)->0,
                    None => Edition::Edition2015,
                })
                &&& t.2 == (match resolver_key(p.resolver.deep_view(), ws_resolver_of(*self)) {
                    Some(k) => resolve_behavior_spec(k),
                    None => None,
                })
            }),
    {
        let ghost declared = declared_features_of(*self);
        let empty_features: Vec<String> = Vec::new();
        let fs_result = match &self.cargo_features {
            Some(list) => FeatureSet::new(list),
            None => FeatureSet::new(&empty_features),
        };
        proof {
            assert(empty_features@ =~= Seq::<String>::empty());
        }
        let features = match fs_result {
            Ok(fs) => fs,
            Err(e) => {
                return Err(e);
            },
        };
        proof {
            match &self.cargo_features {
                Some(list) => crate::features::lemma_feature_set_new(*list, fs_result),
                None => crate::features::lemma_feature_set_new(empty_features, fs_result),
            }
            assert(features == crate::features::feature_set_spec(declared));
            crate::features::lemma_first_unknown_bounds(declared);
            assert(crate::features::first_unknown_feature(declared) == declared.len()) by {
                if crate::features::first_unknown_feature(declared) < declared.len() {
                    assert(crate::features::is_known_feature(
                        declared[crate::features::first_unknown_feature(declared)]@,
                    ));
                }
            }
        }
        let ghost fs = crate::features::feature_set_spec(declared);

        let project = match &self.package {
            Some(p) => p,
            None => unreached(),
        };
        let package_name = str_trim(project.name.as_str());
        if package_name.as_str().unicode_len() == 0 {
            return Err(ManifestError::EmptyPackageName);
        }
        if let Err(e) = validate_package_name(package_name.as_str(), NameKind::PackageName) {
            return Err(e);
        }

        let edition = match &project.edition {
            Some(e) => {
                if let Err(err) = features.require(Capability::Edition) {
                    return Err(err);
                }
                match parse_edition(e.as_str()) {
                    Some(ed) => ed,
                    None => {
                        return Err(ManifestError::EditionUnsupported(e.clone()));
                    },
                }
            },
            None => Edition::Edition2015,
        };

        if project.metabuild.is_some() {
            if let Err(err) = features.require(Capability::Metabuild) {
                return Err(err);
            }
        }

        let ws_resolver: Option<&String> = match &self.workspace {
            Some(w) => match &w.resolver {
                Some(r) => Some(r),
                None => None,
            },
            None => None,
        };
        if project.resolver.is_some() || ws_resolver.is_some() {
            if let Err(err) = features.require(Capability::Resolver) {
                return Err(err);
            }
        }
        let resolve_behavior: Option<ResolveBehavior> = match (&project.resolver, ws_resolver) {
            (Some(_), Some(_)) => {
                return Err(ManifestError::BothResolvers);
            },
            (Some(s), None) => match ResolveBehavior::from_manifest(s.as_str()) {
                Ok(b) => Some(b),
                Err(e) => {
                    return Err(e);
                },
            },
            (None, Some(s)) => match ResolveBehavior::from_manifest(s.as_str()) {
                Ok(b) => Some(b),
                Err(e) => {
                    return Err(e);
                },
            },
            (None, None) => None,
        };

        if let Some(links) = &project.links {
            let mut has_build: bool = false;
            let mut t: usize = 0;
            #[verifier::loop_isolation(false)]
            while t < targets.len()
                invariant
                    t <= targets@.len(),
                    has_build == (exists|k: int|
                        0 <= k < t && targets@[k].kind == TargetKind::CustomBuild),
                decreases targets@.len() - t,
            {
                if targets[t].is_custom_build() {
                    has_build = true;
                    proof {
                        assert(targets@[t as int].kind == TargetKind::CustomBuild);
                    }
                }
                t = t + 1;
            }
            if !has_build {
                return Err(
                    ManifestError::LinksWithoutBuildScript {
                        package: project.name.clone(),
                        links: links.clone(),
                    },
                );
            }
        }
        proof {
            let p = self.package->0;
            assert(crate::features::all_features_known(declared));
            assert(trim_spec(p.name@).len() > 0);
            assert(crate::names::name_chars_ok(trim_spec(p.name@)));
            assert(p.edition is Some ==> fs.edition && parse_edition_spec(p.edition->0@) is Some);
            assert(p.metabuild is Some ==> fs.metabuild);
            assert((p.resolver is Some || ws_resolver_of(*self) is Some) ==> fs.resolver);
            assert(!(p.resolver is Some && ws_resolver_of(*self) is Some));
            assert(resolver_key(p.resolver.deep_view(), ws_resolver_of(*self)) matches Some(k)
                ==> resolve_behavior_spec(k) is Some);
            assert(p.links is Some ==> any_custom_build(targets@));
        }
        Ok((features, edition, resolve_behavior))
    }
}

} // verus!

verus! {

/// The resolver key a document selects: from the package or the
/// workspace, never both.
pub open spec fn resolver_key(
    p: Option<Seq<char>>,
    w: Option<Seq<char>>,
) -> Option<Seq<char>> {
    match (p, w) {
        (Some(s), None) => Some(s),
        (None, Some(s)) => Some(s),
        _ => None,
    }
}

/// The declared capability names of a manifest, empty when absent.
pub open spec fn declared_features_of(m: DefinedTomlManifest) -> Seq<String> {
    match m.cargo_features {
        Some(ref v) => v@,
        None => Seq::empty(),
    }
}

/// The workspace table's resolver key.
pub open spec fn ws_resolver_of(m: DefinedTomlManifest) -> Option<Seq<char>> {
    match m.workspace {
        Some(ref w) => w.resolver.deep_view(),
        None => None,
    }
}

/// The assembler's header checks: the capability list is known, the
/// trimmed package name is non-empty and valid, the edition, metabuild
/// and resolver gates pass, the resolver parses and is declared in one
/// place only, and `links` comes with a build script.
pub open spec fn head_manifest_ok(m: DefinedTomlManifest, targets: Seq<Target>) -> bool {
    let declared = declared_features_of(m);
    let fs = crate::features::feature_set_spec(declared);
    let p = m.package->0;
    &&& crate::features::all_features_known(declared)
    &&& trim_spec(p.name@).len() > 0
    &&& crate::names::name_chars_ok(trim_spec(p.name@))
    &&& (p.edition is Some ==> fs.edition && parse_edition_spec(p.edition->0@) is Some)
    &&& (p.metabuild is Some ==> fs.metabuild)
    &&& ((p.resolver is Some || ws_resolver_of(m) is Some) ==> fs.resolver)
    &&& !(p.resolver is Some && ws_resolver_of(m) is Some)
    &&& (resolver_key(p.resolver.deep_view(), ws_resolver_of(m)) matches Some(k)
        ==> resolve_behavior_spec(k) is Some)
    &&& (p.links is Some ==> any_custom_build(targets))
}

/// The first header check that fails, with its error: the counterpart of
/// `head_manifest_ok`.
pub open spec fn head_manifest_err(m: DefinedTomlManifest, targets: Seq<Target>) -> Option<
    ErrorView,
> {
    let declared = declared_features_of(m);
    let fs = crate::features::feature_set_spec(declared);
    let p = m.package->0;
    if crate::features::first_unknown_feature(declared) < declared.len() {
        Some(
            ErrorView::UnknownFeature(
                declared[crate::features::first_unknown_feature(declared)]@,
            ),
        )
    } else if trim_spec(p.name@).len() == 0 {
        Some(ErrorView::EmptyPackageName)
    } else if crate::names::validate_package_name_spec(
        trim_spec(p.name@),
        NameKind::PackageName,
    ) is Err {
        Some(
            crate::names::validate_package_name_spec(
                trim_spec(p.name@),
                NameKind::PackageName,
            )->Err_0,
        )
    } else if p.edition is Some && !fs.edition {
        Some(ErrorView::FeatureGate(Capability::Edition))
    } else if p.edition is Some && parse_edition_spec(p.edition->0@) is None {
        Some(ErrorView::EditionUnsupported(p.edition->0@))
    } else if p.metabuild is Some && !fs.metabuild {
        Some(ErrorView::FeatureGate(Capability::Metabuild))
    } else if (p.resolver is Some || ws_resolver_of(m) is Some) && !fs.resolver {
        Some(ErrorView::FeatureGate(Capability::Resolver))
    } else if p.resolver is Some && ws_resolver_of(m) is Some {
        Some(ErrorView::BothResolvers)
    } else if resolver_key(p.resolver.deep_view(), ws_resolver_of(m)) matches Some(k)
        && resolve_behavior_spec(k) is None {
        Some(
            ErrorView::InvalidResolveBehavior(
                resolver_key(p.resolver.deep_view(), ws_resolver_of(m))->0,
            ),
        )
    } else if p.links is Some && !any_custom_build(targets) {
        Some(ErrorView::LinksWithoutBuildScript { package: p.name@, links: p.links->0@ })
    } else {
        None
    }
}

/// Whether the workspace's shared table, the three plain tables and the
/// per-platform tables all materialize.
pub open spec fn five_tables_ok(
    m: DefinedTomlManifest,
    ws: Option<&TomlWorkspace>,
    source_id: SourceIdentity,
    package_root: Seq<char>,
) -> bool {
    let fs = crate::features::feature_set_spec(declared_features_of(m));
    let src = source_id.deep_view();
    &&& proc_deps_spec(ws_deps_of(ws), src, package_root, None, fs, None).result is Ok
    &&& proc_opt_spec(m.dependencies, src, package_root, None, fs, None).result is Ok
    &&& proc_opt_spec(
        m.dev_dependencies,
        src,
        package_root,
        None,
        fs,
        Some(DepKind::Development),
    ).result is Ok
    &&& proc_opt_spec(
        m.build_dependencies,
        src,
        package_root,
        None,
        fs,
        Some(DepKind::Build),
    ).result is Ok
    &&& (match m.target {
        Some(ref t) => proc_platforms_spec(t@, src, package_root, fs).result is Ok,
        None => true,
    })
}

/// The warnings the workspace's shared table, the three plain tables and
/// the per-platform tables leave, in processing order.
pub open spec fn five_tables_warnings(
    m: DefinedTomlManifest,
    ws: Option<&TomlWorkspace>,
    source_id: SourceIdentity,
    package_root: Seq<char>,
) -> Seq<WarningView> {
    let fs = crate::features::feature_set_spec(declared_features_of(m));
    let src = source_id.deep_view();
    proc_deps_spec(ws_deps_of(ws), src, package_root, None, fs, None).warnings + proc_opt_spec(
        m.dependencies,
        src,
        package_root,
        None,
        fs,
        None,
    ).warnings + proc_opt_spec(
        m.dev_dependencies,
        src,
        package_root,
        None,
        fs,
        Some(DepKind::Development),
    ).warnings + proc_opt_spec(
        m.build_dependencies,
        src,
        package_root,
        None,
        fs,
        Some(DepKind::Build),
    ).warnings + (match m.target {
        Some(ref t) => proc_platforms_spec(t@, src, package_root, fs).warnings,
        None => Seq::<WarningView>::empty(),
    })
}

/// The first of the five tables that fails to materialize, with its
/// error: the counterpart of `five_tables_ok`.
pub open spec fn five_tables_err(
    m: DefinedTomlManifest,
    ws: Option<&TomlWorkspace>,
    source_id: SourceIdentity,
    package_root: Seq<char>,
) -> Option<ErrorView> {
    let fs = crate::features::feature_set_spec(declared_features_of(m));
    let src = source_id.deep_view();
    let ws_o = proc_deps_spec(ws_deps_of(ws), src, package_root, None, fs, None);
    let deps_o = proc_opt_spec(m.dependencies, src, package_root, None, fs, None);
    let dev_o = proc_opt_spec(
        m.dev_dependencies,
        src,
        package_root,
        None,
        fs,
        Some(DepKind::Development),
    );
    let build_o = proc_opt_spec(
        m.build_dependencies,
        src,
        package_root,
        None,
        fs,
        Some(DepKind::Build),
    );
    let plat_o = match m.target {
        Some(ref t) => proc_platforms_spec(t@, src, package_root, fs),
        None => ProcOutcome {
            result: Ok(Seq::empty()),
            warnings: Seq::empty(),
            nested: Seq::empty(),
        },
    };
    if ws_o.result is Err {
        Some(ws_o.result->Err_0)
    } else if deps_o.result is Err {
        Some(deps_o.result->Err_0)
    } else if dev_o.result is Err {
        Some(dev_o.result->Err_0)
    } else if build_o.result is Err {
        Some(build_o.result->Err_0)
    } else if plat_o.result is Err {
        Some(plat_o.result->Err_0)
    } else {
        None
    }
}

/// The first failure of the replacement or patch tables, with its error:
/// the counterpart of `overrides_ok`.
pub open spec fn overrides_err(
    m: DefinedTomlManifest,
    source_id: SourceIdentity,
    package_root: Seq<char>,
) -> Option<ErrorView> {
    let fs = crate::features::feature_set_spec(declared_features_of(m));
    let src = source_id.deep_view();
    let plat_after = last_platform(m.target, None);
    if m.patch is Some && m.replace is Some {
        Some(ErrorView::ReplaceWithPatch)
    } else if m.replace is Some && replace_entries_spec(
        m.replace->0@,
        src,
        package_root,
        plat_after,
        fs,
    ).result is Err {
        Some(replace_entries_spec(m.replace->0@, src, package_root, plat_after, fs).result->Err_0)
    } else if m.patch is Some && patch_entries_spec(
        m.patch->0@,
        src,
        package_root,
        plat_after,
        fs,
    ).result is Err {
        Some(patch_entries_spec(m.patch->0@, src, package_root, plat_after, fs).result->Err_0)
    } else {
        None
    }
}

/// The first dependency table that fails to materialize, with its error:
/// the counterpart of `tables_ok`.
pub open spec fn tables_err(
    m: DefinedTomlManifest,
    ws: Option<&TomlWorkspace>,
    source_id: SourceIdentity,
    package_root: Seq<char>,
) -> Option<ErrorView> {
    if five_tables_err(m, ws, source_id, package_root) is Some {
        five_tables_err(m, ws, source_id, package_root)
    } else {
        overrides_err(m, source_id, package_root)
    }
}

/// Whether the replacement and patch tables resolve: they cannot be
/// combined, every key must parse, and every entry must materialize.
pub open spec fn overrides_ok(
    m: DefinedTomlManifest,
    source_id: SourceIdentity,
    package_root: Seq<char>,
) -> bool {
    let fs = crate::features::feature_set_spec(declared_features_of(m));
    let src = source_id.deep_view();
    let plat_after = last_platform(m.target, None);
    &&& !(m.patch is Some && m.replace is Some)
    &&& (match m.replace {
        Some(ref t) => replace_entries_spec(t@, src, package_root, plat_after, fs).result is Ok,
        None => true,
    })
    &&& (match m.patch {
        Some(ref t) => patch_entries_spec(t@, src, package_root, plat_after, fs).result is Ok,
        None => true,
    })
}

/// The warnings the replacement and patch tables leave.
pub open spec fn overrides_warnings(
    m: DefinedTomlManifest,
    source_id: SourceIdentity,
    package_root: Seq<char>,
) -> Seq<WarningView> {
    let fs = crate::features::feature_set_spec(declared_features_of(m));
    let src = source_id.deep_view();
    let plat_after = last_platform(m.target, None);
    (match m.replace {
        Some(ref t) => replace_entries_spec(t@, src, package_root, plat_after, fs).warnings,
        None => Seq::<WarningView>::empty(),
    }) + (match m.patch {
        Some(ref t) => patch_entries_spec(t@, src, package_root, plat_after, fs).warnings,
        None => Seq::<WarningView>::empty(),
    })
}

/// Whether every dependency table of the manifest materializes: the
/// workspace's shared table, the three plain tables, the per-platform
/// tables, and the replacement and patch tables.
pub open spec fn tables_ok(
    m: DefinedTomlManifest,
    ws: Option<&TomlWorkspace>,
    source_id: SourceIdentity,
    package_root: Seq<char>,
) -> bool {
    &&& five_tables_ok(m, ws, source_id, package_root)
    &&& overrides_ok(m, source_id, package_root)
}

/// Every dependency record the manifest materializes, in processing
/// order.
pub open spec fn all_deps_of(
    m: DefinedTomlManifest,
    ws: Option<&TomlWorkspace>,
    source_id: SourceIdentity,
    package_root: Seq<char>,
) -> Seq<DependencyView> {
    let fs = crate::features::feature_set_spec(declared_features_of(m));
    let src = source_id.deep_view();
    proc_deps_spec(ws_deps_of(ws), src, package_root, None, fs, None).result->Ok_0 + proc_opt_spec(
        m.dependencies,
        src,
        package_root,
        None,
        fs,
        None,
    ).result->Ok_0 + proc_opt_spec(
        m.dev_dependencies,
        src,
        package_root,
        None,
        fs,
        Some(DepKind::Development),
    ).result->Ok_0 + proc_opt_spec(
        m.build_dependencies,
        src,
        package_root,
        None,
        fs,
        Some(DepKind::Build),
    ).result->Ok_0 + (match m.target {
        Some(ref t) => proc_platforms_spec(t@, src, package_root, fs).result->Ok_0,
        None => Seq::empty(),
    })
}

/// Every check manifest assembly makes: the header checks, every table
/// materializing, and the whole-manifest consistency rules.
pub open spec fn real_manifest_ok(
    m: DefinedTomlManifest,
    ws: Option<&TomlWorkspace>,
    source_id: SourceIdentity,
    package_root: Seq<char>,
    targets: Seq<Target>,
) -> bool {
    &&& head_manifest_ok(m, targets)
    &&& tables_ok(m, ws, source_id, package_root)
    &&& assemble_ok(
        m,
        all_deps_of(m, ws, source_id, package_root),
        targets,
        crate::features::feature_set_spec(declared_features_of(m)),
        package_root,
    )
}

} // verus!

verus! {

/// Whether some binary target carries the given name, scanned.
fn find_bin_named(targets: &Vec<Target>, run: &str) -> (r: bool)
    ensures
        r == has_bin_named(targets@, run@),
{
    let mut i: usize = 0;
    #[verifier::loop_isolation(false)]
    while i < targets.len()
        invariant
            i <= targets@.len(),
            forall|k: int|
                0 <= k < i ==> !(#[trigger] targets@[k].kind == TargetKind::BinTarget
                    && targets@[k].name@ == run@),
        decreases targets@.len() - i,
    {
        if targets[i].is_bin() && str_eq(targets[i].name.as_str(), run) {
            assert(targets@[i as int].kind == TargetKind::BinTarget && targets@[i as int].name@
                == run@);
            return true;
        }
        i = i + 1;
    }
    assert(!has_bin_named(targets@, run@)) by {
        if has_bin_named(targets@, run@) {
            let w = choose|k: int|
                0 <= k < targets@.len() && #[trigger] targets@[k].kind == TargetKind::BinTarget
                    && targets@[k].name@ == run@;
            assert(!(targets@[w].kind == TargetKind::BinTarget && targets@[w].name@ == run@));
        }
    }
    false
}

/// The duplicate-target-file warning, when one file serves two targets.
pub open spec fn dup_warning(targets: Seq<Target>, package_root: Seq<char>) -> Seq<WarningView> {
    let dup = first_dup_target(targets, package_root, 0);
    if dup < targets.len() {
        seq![
            WarningView::DuplicateBuildTargets(target_full_path(targets[dup], package_root)->0),
        ]
    } else {
        Seq::empty()
    }
}

/// The warnings the dependency tables leave, in processing order: the
/// workspace's shared table, the three plain tables, the per-platform
/// tables, the replacement table and the patch table.
pub open spec fn tables_warnings(
    m: DefinedTomlManifest,
    ws: Option<&TomlWorkspace>,
    source_id: SourceIdentity,
    package_root: Seq<char>,
) -> Seq<WarningView> {
    five_tables_warnings(m, ws, source_id, package_root) + overrides_warnings(
        m,
        source_id,
        package_root,
    )
}

/// The warnings of a successfully assembled manifest, in order: the
/// license double-declaration, what target discovery left, the duplicate
/// target file, the dependency tables in processing order, the profile
/// validation, the deprecated lockfile setting, and the misplaced
/// `default-features` key.
pub open spec fn real_manifest_warnings(
    m: DefinedTomlManifest,
    ws: Option<&TomlWorkspace>,
    source_id: SourceIdentity,
    package_root: Seq<char>,
    targets: Seq<Target>,
    target_warnings: Seq<WarningView>,
) -> Seq<WarningView> {
    assemble_warnings(
        m,
        (target_warnings + dup_warning(targets, package_root)) + tables_warnings(
            m,
            ws,
            source_id,
            package_root,
        ),
        crate::features::feature_set_spec(declared_features_of(m)),
    )
}


/// The replacement records a manifest's replacement table resolves to,
/// where it resolves.
pub open spec fn replace_result_of(
    m: DefinedTomlManifest,
    source_id: SourceIdentity,
    package_root: Seq<char>,
) -> Seq<(crate::pkgid::PackageIdSpecView, DependencyView)> {
    let fs = crate::features::feature_set_spec(declared_features_of(m));
    let plat_after = last_platform(m.target, None);
    match m.replace {
        Some(ref t) => replace_entries_spec(
            t@,
            source_id.deep_view(),
            package_root,
            plat_after,
            fs,
        ).result->Ok_0,
        None => Seq::empty(),
    }
}

/// The patch records a manifest's patch table resolves to, where it
/// resolves.
pub open spec fn patch_result_of(
    m: DefinedTomlManifest,
    source_id: SourceIdentity,
    package_root: Seq<char>,
) -> Seq<(Seq<char>, Seq<DependencyView>)> {
    let fs = crate::features::feature_set_spec(declared_features_of(m));
    let plat_after = last_platform(m.target, None);
    match m.patch {
        Some(ref t) => patch_entries_spec(
            t@,
            source_id.deep_view(),
            package_root,
            plat_after,
            fs,
        ).result->Ok_0,
        None => Seq::empty(),
    }
}

impl DefinedTomlManifest {
    /// Materializes every dependency table against the package's own
    /// source identity: the workspace's shared table first, then the
    /// three plain tables, the per-platform tables, and the replacement
    /// and patch tables. Succeeds exactly when `tables_ok` holds.
    #[verifier::rlimit(100)]
    #[verifier::spinoff_prover]
    /// Materializes the workspace's shared table, the three plain tables
    /// and the per-platform tables into a fresh context. Succeeds exactly
    /// when `five_tables_ok` holds.
    #[verifier::rlimit(100)]
    #[verifier::spinoff_prover]
    fn materialize_five(
        &self,
        ws: Option<&TomlWorkspace>,
        source_id: SourceIdentity,
        package_root: &str,
        features: FeatureSet,
    ) -> (r: Result<DepContext, ManifestError>)
        requires
            self.package is Some,
            features == crate::features::feature_set_spec(declared_features_of(*self)),
        ensures
            r is Ok <==> five_tables_ok(*self, ws, source_id, package_root@),
            r is Ok ==> five_tables_err(*self, ws, source_id, package_root@) is None,
            r matches Err(e) ==> Some(e.deep_view()) == five_tables_err(
                *self,
                ws,
                source_id,
                package_root@,
            ),
            r matches Ok(cx) ==> ({
                &&& cx.deps.deep_view() == all_deps_of(*self, ws, source_id, package_root@)
                &&& cx.warnings.deep_view() == five_tables_warnings(
                    *self,
                    ws,
                    source_id,
                    package_root@,
                )
                &&& cx.source == source_id
                &&& cx.features == features
                &&& cx.root@ == package_root@
                &&& cx.platform.deep_view() == last_platform(self.target, None)
            }),
    {
        let ghost source_snapshot = source_id;
        let ghost fs = features;
        let project = match &self.package {
            Some(p) => p,
            None => unreached(),
        };
        let warnings: Vec<Warning> = Vec::new();
        let pkgid = PackageId {
            name: project.name.clone(),
            version: project.version.duplicate(),
            source: source_id.duplicate(),
        };
        let mut cx = DepContext {
            pkgid: Some(pkgid),
            deps: Vec::new(),
            source: source_id,
            nested_paths: Vec::new(),
            warnings,
            platform: None,
            root: package_root.to_owned(),
            features,
        };
        proof {
            assert(cx.deps.deep_view() =~= Seq::<DependencyView>::empty());
            assert(cx.nested_paths.deep_view() =~= Seq::<Seq<char>>::empty());
        }

        let ws_deps_ref: Option<&Vec<(String, DefinedTomlDependency)>> = match ws {
            Some(w) => match &w.dependencies {
                Some(d) => Some(d),
                None => None,
            },
            None => None,
        };
        let empty_ws_deps: Vec<(String, DefinedTomlDependency)> = Vec::new();
        let ws_deps_vec: &Vec<(String, DefinedTomlDependency)> = match ws_deps_ref {
            Some(d) => d,
            None => &empty_ws_deps,
        };
        proof {
            assert(ws_deps_vec@ == ws_deps_of(ws));
        }
        if let Err(e) = process_dependencies(&mut cx, Some(ws_deps_vec), None) {
            return Err(e);
        }
        let self_deps = match &self.dependencies {
            Some(d) => Some(d),
            None => None,
        };
        if let Err(e) = process_dependencies(&mut cx, self_deps, None) {
            return Err(e);
        }
        let self_dev = match &self.dev_dependencies {
            Some(d) => Some(d),
            None => None,
        };
        if let Err(e) = process_dependencies(&mut cx, self_dev, Some(DepKind::Development)) {
            return Err(e);
        }
        let self_build = match &self.build_dependencies {
            Some(d) => Some(d),
            None => None,
        };
        if let Err(e) = process_dependencies(&mut cx, self_build, Some(DepKind::Build)) {
            return Err(e);
        }
        let self_target = match &self.target {
            Some(t) => Some(t),
            None => None,
        };
        if let Err(e) = process_platforms(&mut cx, self_target) {
            return Err(e);
        }
        proof {
            assert(cx.deps.deep_view() =~= all_deps_of(*self, ws, source_snapshot, package_root@));
            assert(cx.warnings.deep_view() =~= five_tables_warnings(
                *self,
                ws,
                source_snapshot,
                package_root@,
            ));
        }
        Ok(cx)
    }

    fn materialize_tables(
        &self,
        ws: Option<&TomlWorkspace>,
        source_id: SourceIdentity,
        package_root: &str,
        base_warnings: Vec<Warning>,
        features: FeatureSet,
    ) -> (r: Result<
        (DepContext, Vec<(PackageIdSpec, Dependency)>, Vec<(String, Vec<Dependency>)>),
        ManifestError,
    >)
        requires
            self.package is Some,
            features == crate::features::feature_set_spec(declared_features_of(*self)),
        ensures
            r is Ok <==> tables_ok(*self, ws, source_id, package_root@),
            r is Ok ==> tables_err(*self, ws, source_id, package_root@) is None,
            r matches Err(e) ==> Some(e.deep_view()) == tables_err(
                *self,
                ws,
                source_id,
                package_root@,
            ),
            r matches Ok(t) ==> ({
                &&& t.0.deps.deep_view() == all_deps_of(*self, ws, source_id, package_root@)
                &&& t.0.warnings.deep_view() == base_warnings.deep_view() + tables_warnings(
                    *self,
                    ws,
                    source_id,
                    package_root@,
                )
                &&& t.0.source == source_id
                &&& t.0.features == features
                &&& t.1.deep_view() == replace_result_of(*self, source_id, package_root@)
                &&& t.2.deep_view() == patch_result_of(*self, source_id, package_root@)
            }),
    {
        let ghost source_snapshot = source_id;
        let ghost base_snapshot = base_warnings.deep_view();
        let ghost fs = features;
        let mut cx = match self.materialize_five(ws, source_id, package_root, features) {
            Ok(cx) => cx,
            Err(e) => {
                return Err(e);
            },
        };
        let ghost w_five = cx.warnings.deep_view();
        let mut merged = base_warnings;
        merged.append(&mut cx.warnings);
        cx.warnings = merged;
        proof {
            assert(cx.warnings.deep_view() =~= base_snapshot + w_five);
        }
        let replace = match self.replace(&mut cx) {
            Ok(v) => v,
            Err(e) => {
                return Err(e);
            },
        };
        let patch = match self.patch(&mut cx) {
            Ok(v) => v,
            Err(e) => {
                return Err(e);
            },
        };
        proof {
            assert(cx.warnings.deep_view() =~= base_snapshot + tables_warnings(
                *self,
                ws,
                source_snapshot,
                package_root@,
            ));
            assert(cx.source == source_snapshot);
            assert(tables_ok(*self, ws, source_snapshot, package_root@));
            assert(replace.deep_view() =~= replace_result_of(*self, source_snapshot, package_root@));
            assert(patch.deep_view() =~= patch_result_of(*self, source_snapshot, package_root@));
        }
        Ok((cx, replace, patch))
    }
}

} // verus!

verus! {

impl DefinedTomlManifest {
    /// Assembles the final manifest: gates and structural rules are
    /// checked, every dependency table is materialized against the
    /// package's own source identity, and the result carries the summary,
    /// the metadata, the profile table, the workspace configuration, the
    /// accumulated warnings and the canonical descriptor itself. The
    /// discovered nested paths are returned for recursive loading.
    /// Assembly succeeds exactly when `real_manifest_ok` holds.
    #[verifier::rlimit(100)]
    #[verifier::spinoff_prover]
    pub fn into_real_manifest(
        self,
        source_id: SourceIdentity,
        package_root: &str,
        ws: Option<&TomlWorkspace>,
        targets: Vec<Target>,
        target_warnings: Vec<Warning>,
        target_errors: Vec<String>,
    ) -> (r: Result<(Manifest, Vec<String>), ManifestError>)
        requires
            self.package is Some,
        ensures
            r is Ok <==> real_manifest_ok(self, ws, source_id, package_root@, targets@),
            r matches Err(e) ==> Some(e.deep_view()) == real_manifest_err(
                self,
                ws,
                source_id,
                package_root@,
                targets@,
            ),
            r matches Ok(pair) ==> ({
                let declared = declared_features_of(self);
                let fs = crate::features::feature_set_spec(declared);
                let p = self.package->0;
                let m = pair.0;
                &&& m.features == fs
                &&& m.summary.package_id.name@ == p.name@
                &&& m.summary.package_id.version.deep_view() == p.version.deep_view()
                &&& m.summary.package_id.source == source_id
                &&& m.summary.dependencies.deep_view() == all_deps_of(
                    self,
                    ws,
                    source_id,
                    package_root@,
                )
                &&& m.summary.features.deep_view() == (match self.features {
                    Some(ref f) => f.deep_view(),
                    None => Seq::<(Seq<char>, Seq<Seq<char>>)>::empty(),
                })
                &&& m.summary.links == p.links
                &&& m.summary.namespaced_features == (p.namespaced_features == Some(true))
                &&& m.edition == (match p.edition {
                    Some(ref e) => parse_edition_spec(e@)->0,
                    None => Edition::Edition2015,
                })
                &&& m.resolve_behavior == (match resolver_key(
                    p.resolver.deep_view(),
                    ws_resolver_of(self),
                ) {
                    Some(k) => resolve_behavior_spec(k),
                    None => None,
                })
                &&& m.replace.deep_view() == replace_result_of(self, source_id, package_root@)
                &&& m.patch.deep_view() == patch_result_of(self, source_id, package_root@)
                &&& m.publish.deep_view() == (match p.publish {
                    Some(crate::values::VecStringOrBool::List(ref v)) => Some(v.deep_view()),
                    Some(crate::values::VecStringOrBool::Flag(false)) => Some(
                        Seq::<Seq<char>>::empty(),
                    ),
                    _ => None::<Seq<Seq<char>>>,
                })
                &&& m.publish_lockfile == (match p.publish_lockfile {
                    Some(b) => b,
                    None => fs.publish_lockfile,
                })
                &&& m.metadata.description == p.description
                &&& m.metadata.homepage == p.homepage
                &&& m.metadata.documentation == p.documentation
                &&& m.metadata.readme == p.readme
                &&& m.metadata.license == p.license
                &&& m.metadata.license_file == p.license_file
                &&& m.metadata.repository == p.repository
                &&& m.metadata.authors.deep_view() == (match p.authors {
                    Some(ref a) => a.deep_view(),
                    None => Seq::<Seq<char>>::empty(),
                })
                &&& m.metadata.keywords.deep_view() == (match p.keywords {
                    Some(ref a) => a.deep_view(),
                    None => Seq::<Seq<char>>::empty(),
                })
                &&& m.metadata.categories.deep_view() == (match p.categories {
                    Some(ref a) => a.deep_view(),
                    None => Seq::<Seq<char>>::empty(),
                })
                &&& m.metadata.badges.deep_view() == (match self.badges {
                    Some(ref b) => b.deep_view(),
                    None => Seq::<(Seq<char>, Seq<(Seq<char>, Seq<char>)>)>::empty(),
                })
                &&& m.metadata.links == p.links
                &&& m.links == p.links
                &&& m.exclude.deep_view() == (match p.exclude {
                    Some(ref a) => a.deep_view(),
                    None => Seq::<Seq<char>>::empty(),
                })
                &&& m.keep.deep_view() == (match p.keep {
                    Some(ref a) => a.deep_view(),
                    None => Seq::<Seq<char>>::empty(),
                })
                &&& (match self.profile {
                    Some(ref profiles) => m.profiles matches Some(dp) && dp.deep_view()
                        == profiles.deep_view(),
                    None => m.profiles is None,
                })
                &&& workspace_config_spec(
                    self.workspace is Some,
                    match self.workspace {
                        Some(ref w) => Some(w.deep_view()),
                        None => None,
                    },
                    p.workspace.deep_view(),
                    package_root@,
                ) == Ok::<WorkspaceConfigView, ErrorView>(m.workspace.deep_view())
                &&& m.im_a_teapot == p.im_a_teapot
                &&& m.metabuild.deep_view() == (match p.metabuild {
                    Some(ref v) => Some(v.deep_view()),
                    None => None::<Seq<Seq<char>>>,
                })
                &&& m.targets == targets
                &&& m.default_run == p.default_run
                &&& m.warnings.deep_view() == real_manifest_warnings(
                    self,
                    ws,
                    source_id,
                    package_root@,
                    targets@,
                    target_warnings.deep_view(),
                )
                &&& m.critical_warnings == target_errors
                &&& m.original == self
            }),
    {
        let ghost tw = target_warnings.deep_view();
        let ghost targets_view = targets@;
        let ghost source_snapshot = source_id;
        let (features, edition, resolve_behavior) = match self.resolve_header(&targets) {
            Ok(t) => t,
            Err(e) => {
                return Err(e);
            },
        };
        let ghost fs = crate::features::feature_set_spec(declared_features_of(self));

        let mut warnings = target_warnings;
        if let Err(dup_path) = unique_build_targets(&targets, package_root) {
            crate::profiles::push_warning(
                &mut warnings,
                Warning::DuplicateBuildTargets(dup_path),
            );
        }
        proof {
            assert(warnings.deep_view() =~= tw + dup_warning(targets_view, package_root@));
        }

        let (cx, replace, patch) = match self.materialize_tables(
            ws,
            source_id,
            package_root,
            warnings,
            features,
        ) {
            Ok(t) => t,
            Err(e) => {
                return Err(e);
            },
        };
        let r = self.assemble_real_manifest(
            package_root,
            targets,
            target_errors,
            features,
            edition,
            resolve_behavior,
            cx,
            replace,
            patch,
        );
        proof {
            match r {
                Ok(ref pair) => {
                    assert(pair.0.warnings.deep_view() =~= real_manifest_warnings(
                        self,
                        ws,
                        source_snapshot,
                        package_root@,
                        targets_view,
                        tw,
                    ));
                    assert(real_manifest_ok(
                        self,
                        ws,
                        source_snapshot,
                        package_root@,
                        targets_view,
                    ));
                },
                Err(_) => {
                    assert(!real_manifest_ok(
                        self,
                        ws,
                        source_snapshot,
                        package_root@,
                        targets_view,
                    ));
                },
            }
        }
        r
    }
}

} // verus!


verus! {

/// The checks the assembler makes after every dependency table has been
/// materialized: one source per name, the namespaced-features gate, a
/// consistent workspace configuration, valid profiles, the lockfile gate,
/// and a default-run naming a binary.
pub open spec fn assemble_ok(
    m: DefinedTomlManifest,
    deps: Seq<DependencyView>,
    targets: Seq<Target>,
    fs: FeatureSet,
    package_root: Seq<char>,
) -> bool {
    let p = m.package->0;
    &&& first_source_conflict(deps, 0) == deps.len()
    &&& (p.namespaced_features is Some ==> fs.namespaced_features)
    &&& workspace_config_spec(
        m.workspace is Some,
        match m.workspace {
            Some(ref w) => Some(w.deep_view()),
            None => None,
        },
        p.workspace.deep_view(),
        package_root,
    ) is Ok
    &&& (match m.profile {
        Some(ref profiles) => profiles_err(profiles.deep_view(), fs) is None,
        None => true,
    })
    &&& (p.publish_lockfile is Some ==> fs.publish_lockfile)
    &&& (p.default_run matches Some(run) ==> has_bin_named(targets, run@))
}

/// The first whole-manifest rule that fails after materialization, with
/// its error: the counterpart of `assemble_ok`.
pub open spec fn assemble_err(
    m: DefinedTomlManifest,
    deps: Seq<DependencyView>,
    targets: Seq<Target>,
    fs: FeatureSet,
    package_root: Seq<char>,
) -> Option<ErrorView> {
    let p = m.package->0;
    let conflict = first_source_conflict(deps, 0);
    let config = workspace_config_spec(
        m.workspace is Some,
        match m.workspace {
            Some(ref w) => Some(w.deep_view()),
            None => None,
        },
        p.workspace.deep_view(),
        package_root,
    );
    if conflict < deps.len() {
        Some(ErrorView::DependencySourceConflict(name_in_toml_spec(deps[conflict])))
    } else if p.namespaced_features is Some && !fs.namespaced_features {
        Some(ErrorView::FeatureGate(Capability::NamespacedFeatures))
    } else if config is Err {
        Some(config->Err_0)
    } else if m.profile is Some && profiles_err((m.profile->0).deep_view(), fs) is Some {
        profiles_err((m.profile->0).deep_view(), fs)
    } else if p.publish_lockfile is Some && !fs.publish_lockfile {
        Some(ErrorView::FeatureGate(Capability::PublishLockfile))
    } else if p.default_run is Some && !has_bin_named(targets, p.default_run->0@) {
        Some(
            ErrorView::DefaultRunMissing {
                target: p.default_run->0@,
                suggestion: best_bin_suggestion(targets, p.default_run->0@, 0, None),
            },
        )
    } else {
        None
    }
}

/// The warnings the assembler's final steps add around the accumulated
/// base: the license double-declaration first, then the base, the profile
/// diagnostics, the deprecated lockfile setting and the misplaced
/// `default-features` key.
pub open spec fn assemble_warnings(
    m: DefinedTomlManifest,
    base: Seq<WarningView>,
    fs: FeatureSet,
) -> Seq<WarningView> {
    let p = m.package->0;
    let prof_w: Seq<WarningView> = match m.profile {
        Some(ref profiles) => profiles_warnings(profiles.deep_view(), fs),
        None => Seq::empty(),
    };
    let pl_w: Seq<WarningView> = if p.publish_lockfile is Some {
        seq![WarningView::PublishLockfileDeprecated]
    } else {
        Seq::empty()
    };
    let df_w: Seq<WarningView> = if m.features matches Some(ref f) && alist_has(
        f@,
        "default-features"@,
    ) {
        seq![WarningView::DefaultFeaturesKey]
    } else {
        Seq::empty()
    };
    let lic_w: Seq<WarningView> = if p.license is Some && p.license_file is Some {
        seq![WarningView::LicenseAndLicenseFile]
    } else {
        Seq::empty()
    };
    lic_w + base + prof_w + pl_w + df_w
}

impl DefinedTomlManifest {
    /// The assembler's final steps: the whole-manifest consistency checks
    /// and the construction of the `Manifest` value from the resolved
    /// pieces. Succeeds exactly when `assemble_ok` holds of the inputs.
    #[verifier::rlimit(100)]
    #[verifier::spinoff_prover]
    fn assemble_real_manifest(
        self,
        package_root: &str,
        targets: Vec<Target>,
        target_errors: Vec<String>,
        features: FeatureSet,
        edition: Edition,
        resolve_behavior: Option<ResolveBehavior>,
        cx: DepContext,
        replace: Vec<(PackageIdSpec, Dependency)>,
        patch: Vec<(String, Vec<Dependency>)>,
    ) -> (r: Result<(Manifest, Vec<String>), ManifestError>)
        requires
            self.package is Some,
        ensures
            r is Ok <==> assemble_ok(self, cx.deps.deep_view(), targets@, features, package_root@),
            r is Ok ==> assemble_err(
                self,
                cx.deps.deep_view(),
                targets@,
                features,
                package_root@,
            ) is None,
            r matches Err(e) ==> Some(e.deep_view()) == assemble_err(
                self,
                cx.deps.deep_view(),
                targets@,
                features,
                package_root@,
            ),
            r matches Ok(pair) ==> ({
                let p = self.package->0;
                let m = pair.0;
                &&& m.features == features
                &&& m.summary.package_id.name@ == p.name@
                &&& m.summary.package_id.version.deep_view() == p.version.deep_view()
                &&& m.summary.package_id.source == cx.source
                &&& m.summary.dependencies == cx.deps
                &&& m.summary.features.deep_view() == (match self.features {
                    Some(ref f) => f.deep_view(),
                    None => Seq::<(Seq<char>, Seq<Seq<char>>)>::empty(),
                })
                &&& m.summary.links == p.links
                &&& m.summary.namespaced_features == (p.namespaced_features == Some(true))
                &&& m.edition == edition
                &&& m.resolve_behavior == resolve_behavior
                &&& m.replace == replace
                &&& m.patch == patch
                &&& m.publish.deep_view() == (match p.publish {
                    Some(crate::values::VecStringOrBool::List(ref v)) => Some(v.deep_view()),
                    Some(crate::values::VecStringOrBool::Flag(false)) => Some(
                        Seq::<Seq<char>>::empty(),
                    ),
                    _ => None::<Seq<Seq<char>>>,
                })
                &&& m.publish_lockfile == (match p.publish_lockfile {
                    Some(b) => b,
                    None => features.publish_lockfile,
                })
                &&& m.metadata.description == p.description
                &&& m.metadata.homepage == p.homepage
                &&& m.metadata.documentation == p.documentation
                &&& m.metadata.readme == p.readme
                &&& m.metadata.license == p.license
                &&& m.metadata.license_file == p.license_file
                &&& m.metadata.repository == p.repository
                &&& m.metadata.authors.deep_view() == (match p.authors {
                    Some(ref a) => a.deep_view(),
                    None => Seq::<Seq<char>>::empty(),
                })
                &&& m.metadata.keywords.deep_view() == (match p.keywords {
                    Some(ref a) => a.deep_view(),
                    None => Seq::<Seq<char>>::empty(),
                })
                &&& m.metadata.categories.deep_view() == (match p.categories {
                    Some(ref a) => a.deep_view(),
                    None => Seq::<Seq<char>>::empty(),
                })
                &&& m.metadata.badges.deep_view() == (match self.badges {
                    Some(ref b) => b.deep_view(),
                    None => Seq::<(Seq<char>, Seq<(Seq<char>, Seq<char>)>)>::empty(),
                })
                &&& m.metadata.links == p.links
                &&& m.links == p.links
                &&& m.exclude.deep_view() == (match p.exclude {
                    Some(ref a) => a.deep_view(),
                    None => Seq::<Seq<char>>::empty(),
                })
                &&& m.keep.deep_view() == (match p.keep {
                    Some(ref a) => a.deep_view(),
                    None => Seq::<Seq<char>>::empty(),
                })
                &&& (match self.profile {
                    Some(ref profiles) => m.profiles matches Some(dp) && dp.deep_view()
                        == profiles.deep_view(),
                    None => m.profiles is None,
                })
                &&& workspace_config_spec(
                    self.workspace is Some,
                    match self.workspace {
                        Some(ref w) => Some(w.deep_view()),
                        None => None,
                    },
                    p.workspace.deep_view(),
                    package_root@,
                ) == Ok::<WorkspaceConfigView, ErrorView>(m.workspace.deep_view())
                &&& m.im_a_teapot == p.im_a_teapot
                &&& m.metabuild.deep_view() == (match p.metabuild {
                    Some(ref v) => Some(v.deep_view()),
                    None => None::<Seq<Seq<char>>>,
                })
                &&& m.targets == targets
                &&& m.default_run == p.default_run
                &&& m.warnings.deep_view() == assemble_warnings(
                    self,
                    cx.warnings.deep_view(),
                    features,
                )
                &&& m.critical_warnings == target_errors
                &&& m.original == self
                &&& pair.1 == cx.nested_paths
            }),
    {
        let ghost fs = features;
        let project = match &self.package {
            Some(p) => p,
            None => unreached(),
        };
        if let Err(e) = check_dependency_sources(&cx.deps) {
            return Err(e);
        }
        if project.namespaced_features.is_some() {
            if let Err(err) = features.require(Capability::NamespacedFeatures) {
                return Err(err);
            }
        }

        let summary_features = match &self.features {
            Some(f) => clone_features_table(f),
            None => Vec::new(),
        };
        proof {
            if self.features is None {
                assert(summary_features.deep_view() =~= Seq::<
                    (Seq<char>, Seq<Seq<char>>),
                >::empty());
            }
        }
        let DepContext { deps, nested_paths, warnings: mut warnings, source: pkg_source, .. } = cx;
        let summary = Summary {
            package_id: PackageId {
                name: project.name.clone(),
                version: project.version.duplicate(),
                source: pkg_source,
            },
            dependencies: deps,
            features: summary_features,
            links: clone_opt_string(&project.links),
            namespaced_features: match project.namespaced_features {
                Some(b) => b,
                None => false,
            },
        };

        let metadata = ManifestMetadata {
            description: clone_opt_string(&project.description),
            homepage: clone_opt_string(&project.homepage),
            documentation: clone_opt_string(&project.documentation),
            readme: clone_opt_string(&project.readme),
            authors: match &project.authors {
                Some(a) => crate::strutil::clone_string_vec(a),
                None => Vec::new(),
            },
            license: clone_opt_string(&project.license),
            license_file: clone_opt_string(&project.license_file),
            repository: clone_opt_string(&project.repository),
            keywords: match &project.keywords {
                Some(a) => crate::strutil::clone_string_vec(a),
                None => Vec::new(),
            },
            categories: match &project.categories {
                Some(a) => crate::strutil::clone_string_vec(a),
                None => Vec::new(),
            },
            badges: match &self.badges {
                Some(b) => clone_badges(b),
                None => Vec::new(),
            },
            links: clone_opt_string(&project.links),
        };
        proof {
            if project.authors is None {
                assert(metadata.authors.deep_view() =~= Seq::<Seq<char>>::empty());
            }
            if project.keywords is None {
                assert(metadata.keywords.deep_view() =~= Seq::<Seq<char>>::empty());
            }
            if project.categories is None {
                assert(metadata.categories.deep_view() =~= Seq::<Seq<char>>::empty());
            }
            if self.badges is None {
                assert(metadata.badges.deep_view() =~= Seq::<
                    (Seq<char>, Seq<(Seq<char>, Seq<char>)>),
                >::empty());
            }
        }

        let workspace_config = match self.workspace_config(package_root) {
            Ok(c) => c,
            Err(e) => {
                return Err(e);
            },
        };

        let ghost w_after_tables = warnings.deep_view();
        let profiles = match &self.profile {
            Some(p) => Some(p.duplicate()),
            None => None,
        };
        if let Some(ps) = &profiles {
            if let Err(e) = ps.validate(&features, &mut warnings) {
                return Err(e);
            }
        }
        let ghost prof_w: Seq<WarningView> = match self.profile {
            Some(ref profiles) => crate::profiles::profiles_warnings(profiles.deep_view(), fs),
            None => Seq::empty(),
        };
        proof {
            assert(warnings.deep_view() =~= w_after_tables + prof_w);
        }

        let publish: Option<Vec<String>> = match &project.publish {
            Some(VecStringOrBool::List(v)) => Some(crate::strutil::clone_string_vec(v)),
            Some(VecStringOrBool::Flag(false)) => Some(Vec::new()),
            Some(VecStringOrBool::Flag(true)) => None,
            None => None,
        };
        proof {
            if project.publish is Some && project.publish->0 is Flag && !project.publish->0->Flag_0 {
                assert(publish matches Some(v) && v.deep_view() =~= Seq::<Seq<char>>::empty());
            }
        }

        let publish_lockfile = match project.publish_lockfile {
            Some(b) => {
                if let Err(err) = features.require(Capability::PublishLockfile) {
                    return Err(err);
                }
                crate::profiles::push_warning(&mut warnings, Warning::PublishLockfileDeprecated);
                b
            },
            None => features.is_enabled(Capability::PublishLockfile),
        };

        let df_found = match &self.features {
            Some(f) => alist_find(f, "default-features").is_some(),
            None => false,
        };
        if df_found {
            crate::profiles::push_warning(&mut warnings, Warning::DefaultFeaturesKey);
        }

        if let Some(run) = &project.default_run {
            if !find_bin_named(&targets, run.as_str()) {
                let suggestion = closest_bin_suggestion(&targets, run.as_str());
                return Err(
                    ManifestError::DefaultRunMissing { target: run.clone(), suggestion },
                );
            }
        }

        let mut all_warnings: Vec<Warning> = Vec::new();
        if project.license_file.is_some() && project.license.is_some() {
            all_warnings.push(Warning::LicenseAndLicenseFile);
        }
        let ghost lic_w = all_warnings.deep_view();
        let ghost wmain = warnings.deep_view();
        all_warnings.append(&mut warnings);
        proof {
            assert(all_warnings.deep_view() =~= lic_w + wmain);
        }

        let exclude = match &project.exclude {
            Some(a) => crate::strutil::clone_string_vec(a),
            None => Vec::new(),
        };
        let keep = match &project.keep {
            Some(a) => crate::strutil::clone_string_vec(a),
            None => Vec::new(),
        };
        proof {
            if project.exclude is None {
                assert(exclude.deep_view() =~= Seq::<Seq<char>>::empty());
            }
            if project.keep is None {
                assert(keep.deep_view() =~= Seq::<Seq<char>>::empty());
            }
        }
        let custom_metadata = match &project.metadata {
            Some(v) => Some(v.clone()),
            None => None,
        };
        let links = clone_opt_string(&project.links);
        let im_a_teapot = project.im_a_teapot;
        let default_run = clone_opt_string(&project.default_run);
        let metabuild = match &project.metabuild {
            Some(v) => Some(crate::strutil::clone_string_vec(&v.0)),
            None => None,
        };

        proof {
            let pl_w: Seq<WarningView> = if project.publish_lockfile is Some {
                seq![WarningView::PublishLockfileDeprecated]
            } else {
                Seq::empty()
            };
            let df_w: Seq<WarningView> = if self.features matches Some(ref f) && alist_has(
                f@,
                "default-features"@,
            ) {
                seq![WarningView::DefaultFeaturesKey]
            } else {
                Seq::empty()
            };
            assert(wmain =~= (w_after_tables + prof_w + pl_w) + df_w);
            assert(all_warnings.deep_view() =~= assemble_warnings(self, w_after_tables, features));
        }
        let manifest = Manifest {
            summary,
            targets,
            exclude,
            keep,
            links,
            metadata,
            custom_metadata,
            profiles,
            publish,
            publish_lockfile,
            replace,
            patch,
            workspace: workspace_config,
            features,
            edition,
            im_a_teapot,
            default_run,
            metabuild,
            resolve_behavior,
            warnings: all_warnings,
            critical_warnings: target_errors,
            original: self,
        };
        Ok((manifest, nested_paths))
    }
}

} // verus!

verus! {

/// Rejects a manifest whose targets are all build scripts: a package must
/// declare something buildable. A package with no targets at all is
/// rejected for the same reason.
pub fn ensure_buildable_targets(targets: &Vec<Target>) -> (r: Result<(), ManifestError>)
    ensures
        r is Ok <==> !all_custom_build(targets@),
        r matches Err(e) ==> e == ManifestError::NoTargets,
{
    let mut i: usize = 0;
    #[verifier::loop_isolation(false)]
    while i < targets.len()
        invariant
            i <= targets@.len(),
            forall|k: int| 0 <= k < i ==> targets@[k].kind == TargetKind::CustomBuild,
        decreases targets@.len() - i,
    {
        if !targets[i].is_custom_build() {
            assert(!all_custom_build(targets@));
            return Ok(());
        }
        i = i + 1;
    }
    Err(ManifestError::NoTargets)
}

/// The first package-only section a workspace-root-only document wrongly
/// declares.
pub open spec fn virtual_section_err(m: DefinedTomlManifest) -> Option<ErrorView> {
    if m.package is Some {
        Some(ErrorView::VirtualManifestSection(SectionKind::PackageSection))
    } else if m.lib is Some {
        Some(ErrorView::VirtualManifestSection(SectionKind::LibSection))
    } else if m.bin is Some {
        Some(ErrorView::VirtualManifestSection(SectionKind::BinSection))
    } else if m.example is Some {
        Some(ErrorView::VirtualManifestSection(SectionKind::ExampleSection))
    } else if m.test is Some {
        Some(ErrorView::VirtualManifestSection(SectionKind::TestSection))
    } else if m.bench is Some {
        Some(ErrorView::VirtualManifestSection(SectionKind::BenchSection))
    } else if m.dependencies is Some {
        Some(ErrorView::VirtualManifestSection(SectionKind::DependenciesSection))
    } else if m.dev_dependencies is Some {
        Some(ErrorView::VirtualManifestSection(SectionKind::DevDependenciesSection))
    } else if m.build_dependencies is Some {
        Some(ErrorView::VirtualManifestSection(SectionKind::BuildDependenciesSection))
    } else if m.features is Some {
        Some(ErrorView::VirtualManifestSection(SectionKind::FeaturesSection))
    } else if m.target is Some {
        Some(ErrorView::VirtualManifestSection(SectionKind::TargetSection))
    } else if m.badges is Some {
        Some(ErrorView::VirtualManifestSection(SectionKind::BadgesSection))
    } else if !(m.workspace is Some) {
        Some(ErrorView::VirtualWithoutWorkspace)
    } else {
        None
    }
}

impl DefinedTomlManifest {
    /// Rejects a workspace-root-only document that declares any
    /// package-only section; it must declare a workspace table and
    /// nothing else of that kind.
    pub fn check_virtual_sections(&self) -> (r: Result<(), ManifestError>)
        ensures
            match r {
                Ok(_) => virtual_section_err(*self) is None,
                Err(e) => virtual_section_err(*self) == Some(e.deep_view()),
            },
    {
        if self.package.is_some() {
            return Err(ManifestError::VirtualManifestSection(SectionKind::PackageSection));
        }
        if self.lib.is_some() {
            return Err(ManifestError::VirtualManifestSection(SectionKind::LibSection));
        }
        if self.bin.is_some() {
            return Err(ManifestError::VirtualManifestSection(SectionKind::BinSection));
        }
        if self.example.is_some() {
            return Err(ManifestError::VirtualManifestSection(SectionKind::ExampleSection));
        }
        if self.test.is_some() {
            return Err(ManifestError::VirtualManifestSection(SectionKind::TestSection));
        }
        if self.bench.is_some() {
            return Err(ManifestError::VirtualManifestSection(SectionKind::BenchSection));
        }
        if self.dependencies.is_some() {
            return Err(ManifestError::VirtualManifestSection(SectionKind::DependenciesSection));
        }
        if self.dev_dependencies.is_some() {
            return Err(
                ManifestError::VirtualManifestSection(SectionKind::DevDependenciesSection),
            );
        }
        if self.build_dependencies.is_some() {
            return Err(
                ManifestError::VirtualManifestSection(SectionKind::BuildDependenciesSection),
            );
        }
        if self.features.is_some() {
            return Err(ManifestError::VirtualManifestSection(SectionKind::FeaturesSection));
        }
        if self.target.is_some() {
            return Err(ManifestError::VirtualManifestSection(SectionKind::TargetSection));
        }
        if self.badges.is_some() {
            return Err(ManifestError::VirtualManifestSection(SectionKind::BadgesSection));
        }
        if self.workspace.is_none() {
            return Err(ManifestError::VirtualWithoutWorkspace);
        }
        Ok(())
    }
}

} // verus!

verus! {

impl DefinedTomlManifest {
    /// Writes the canonical manifest back in the raw document shape, for
    /// re-serialization: every resolved field is wrapped as explicitly
    /// defined, the dependency tables go back to the document shapes, and
    /// the historical alias fields stay empty.
    #[verifier::rlimit(100)]
    #[verifier::spinoff_prover]
    pub fn into_toml_manifest(self) -> (r: TomlManifest)
        requires
            self.package is Some,
        ensures
            ({
                let p = self.package->0;
                &&& r.cargo_features == self.cargo_features
                &&& r.project is None
                &&& r.package matches Some(bp) && {
                    let bp = *bp;
                    &&& bp.edition == (match p.edition {
                        Some(v) => Some(MaybeWorkspace::Defined(v)),
                        None => None::<MaybeWorkspace<String>>,
                    })
                    &&& bp.name == p.name
                    &&& bp.version == MaybeWorkspace::Defined(p.version)
                    &&& bp.authors == (match p.authors {
                        Some(v) => Some(MaybeWorkspace::Defined(v)),
                        None => None::<MaybeWorkspace<Vec<String>>>,
                    })
                    &&& bp.build == p.build
                    &&& bp.metabuild == p.metabuild
                    &&& bp.links == p.links
                    &&& bp.exclude == p.exclude
                    &&& bp.keep == p.keep
                    &&& bp.publish == (match p.publish {
                        Some(v) => Some(MaybeWorkspace::Defined(v)),
                        None => None::<MaybeWorkspace<VecStringOrBool>>,
                    })
                    &&& bp.publish_lockfile == p.publish_lockfile
                    &&& bp.workspace is None
                    &&& bp.im_a_teapot == p.im_a_teapot
                    &&& bp.autobins == p.autobins
                    &&& bp.autoexamples == p.autoexamples
                    &&& bp.autotests == p.autotests
                    &&& bp.autobenches == p.autobenches
                    &&& bp.namespaced_features == p.namespaced_features
                    &&& bp.default_run == p.default_run
                    &&& bp.description == (match p.description {
                        Some(v) => Some(MaybeWorkspace::Defined(v)),
                        None => None::<MaybeWorkspace<String>>,
                    })
                    &&& bp.homepage == (match p.homepage {
                        Some(v) => Some(MaybeWorkspace::Defined(v)),
                        None => None::<MaybeWorkspace<String>>,
                    })
                    &&& bp.documentation == (match p.documentation {
                        Some(v) => Some(MaybeWorkspace::Defined(v)),
                        None => None::<MaybeWorkspace<String>>,
                    })
                    &&& bp.readme == (match p.readme {
                        Some(v) => Some(MaybeWorkspace::Defined(StringOrBool::Text(v))),
                        None => None::<MaybeWorkspace<StringOrBool>>,
                    })
                    &&& bp.keywords == (match p.keywords {
                        Some(v) => Some(MaybeWorkspace::Defined(v)),
                        None => None::<MaybeWorkspace<Vec<String>>>,
                    })
                    &&& bp.categories == (match p.categories {
                        Some(v) => Some(MaybeWorkspace::Defined(v)),
                        None => None::<MaybeWorkspace<Vec<String>>>,
                    })
                    &&& bp.license == (match p.license {
                        Some(v) => Some(MaybeWorkspace::Defined(v)),
                        None => None::<MaybeWorkspace<String>>,
                    })
                    &&& bp.license_file == (match p.license_file {
                        Some(v) => Some(MaybeWorkspace::Defined(v)),
                        None => None::<MaybeWorkspace<String>>,
                    })
                    &&& bp.repository == (match p.repository {
                        Some(v) => Some(MaybeWorkspace::Defined(v)),
                        None => None::<MaybeWorkspace<String>>,
                    })
                    &&& bp.metadata == p.metadata
                    &&& bp.resolver == p.resolver
                }
                &&& r.profile == self.profile
                &&& r.lib == self.lib
                &&& r.bin == self.bin
                &&& r.example == self.example
                &&& r.test == self.test
                &&& r.bench == self.bench
                &&& r.dependencies.deep_view() == (match self.dependencies {
                    Some(ref d) => Some(crate::depend::to_toml_deps_view(d@)),
                    None => None::<Seq<(Seq<char>, TomlDependencyView)>>,
                })
                &&& r.dev_dependencies.deep_view() == (match self.dev_dependencies {
                    Some(ref d) => Some(crate::depend::to_toml_deps_view(d@)),
                    None => None::<Seq<(Seq<char>, TomlDependencyView)>>,
                })
                &&& r.dev_dependencies2 is None
                &&& r.build_dependencies.deep_view() == (match self.build_dependencies {
                    Some(ref d) => Some(crate::depend::to_toml_deps_view(d@)),
                    None => None::<Seq<(Seq<char>, TomlDependencyView)>>,
                })
                &&& r.build_dependencies2 is None
                &&& r.features == self.features
                &&& r.target.deep_view() == (match self.target {
                    Some(ref t) => Some(platforms_to_toml_view(t@)),
                    None => None::<Seq<(Seq<char>, crate::depend::TomlPlatformView)>>,
                })
                &&& r.replace == self.replace
                &&& r.patch == self.patch
                &&& r.workspace == self.workspace
                &&& r.badges == (match self.badges {
                    Some(b) => Some(MaybeWorkspace::Defined(b)),
                    None => None::<MaybeWorkspace<Vec<(String, Vec<(String, String)>)>>>,
                })
            }),
    {
        let dependencies = to_toml_dependencies(self.dependencies.as_ref());
        let dev_dependencies = to_toml_dependencies(self.dev_dependencies.as_ref());
        let build_dependencies = to_toml_dependencies(self.build_dependencies.as_ref());
        let target = to_toml_platform(self.target.as_ref());
        let project = match self.package {
            Some(p) => p,
            None => unreached(),
        };
        let readme = match project.readme {
            Some(s) => Some(MaybeWorkspace::Defined(StringOrBool::Text(s))),
            None => None,
        };
        TomlManifest {
            cargo_features: self.cargo_features,
            package: Some(
                Box::new(
                    TomlProject {
                        edition: MaybeWorkspace::from_option(project.edition),
                        name: project.name,
                        version: MaybeWorkspace::Defined(project.version),
                        authors: MaybeWorkspace::from_option(project.authors),
                        build: project.build,
                        metabuild: project.metabuild,
                        links: project.links,
                        exclude: project.exclude,
                        keep: project.keep,
                        publish: MaybeWorkspace::from_option(project.publish),
                        publish_lockfile: project.publish_lockfile,
                        workspace: None,
                        im_a_teapot: project.im_a_teapot,
                        autobins: project.autobins,
                        autoexamples: project.autoexamples,
                        autotests: project.autotests,
                        autobenches: project.autobenches,
                        namespaced_features: project.namespaced_features,
                        default_run: project.default_run,
                        description: MaybeWorkspace::from_option(project.description),
                        homepage: MaybeWorkspace::from_option(project.homepage),
                        documentation: MaybeWorkspace::from_option(project.documentation),
                        readme,
                        keywords: MaybeWorkspace::from_option(project.keywords),
                        categories: MaybeWorkspace::from_option(project.categories),
                        license: MaybeWorkspace::from_option(project.license),
                        license_file: MaybeWorkspace::from_option(project.license_file),
                        repository: MaybeWorkspace::from_option(project.repository),
                        metadata: project.metadata,
                        resolver: project.resolver,
                    },
                ),
            ),
            project: None,
            profile: self.profile,
            lib: self.lib,
            bin: self.bin,
            example: self.example,
            test: self.test,
            bench: self.bench,
            dependencies,
            dev_dependencies,
            dev_dependencies2: None,
            build_dependencies,
            build_dependencies2: None,
            features: self.features,
            target,
            replace: self.replace,
            patch: self.patch,
            workspace: self.workspace,
            badges: MaybeWorkspace::from_option(self.badges),
        }
    }
}

} // verus!

verus! {

/// Every check workspace-root-only assembly makes: no package-only
/// section, a known capability list, resolving replacement and patch
/// tables, valid profiles, and a gated, parsable resolver key.
pub open spec fn virtual_manifest_ok(
    m: DefinedTomlManifest,
    source_id: SourceIdentity,
    package_root: Seq<char>,
) -> bool {
    let fs = crate::features::feature_set_spec(declared_features_of(m));
    &&& virtual_section_err(m) is None
    &&& crate::features::all_features_known(declared_features_of(m))
    &&& overrides_ok(m, source_id, package_root)
    &&& (match m.profile {
        Some(ref profiles) => profiles_err(profiles.deep_view(), fs) is None,
        None => true,
    })
    &&& (ws_resolver_of(m) is Some ==> fs.resolver)
    &&& (ws_resolver_of(m) matches Some(k) ==> resolve_behavior_spec(k) is Some)
}

/// The first check workspace-root-only assembly fails, with its error:
/// the counterpart of `virtual_manifest_ok`.
pub open spec fn virtual_manifest_err(
    m: DefinedTomlManifest,
    source_id: SourceIdentity,
    package_root: Seq<char>,
) -> Option<ErrorView> {
    let declared = declared_features_of(m);
    let fs = crate::features::feature_set_spec(declared);
    if virtual_section_err(m) is Some {
        virtual_section_err(m)
    } else if crate::features::first_unknown_feature(declared) < declared.len() {
        Some(
            ErrorView::UnknownFeature(
                declared[crate::features::first_unknown_feature(declared)]@,
            ),
        )
    } else if overrides_err(m, source_id, package_root) is Some {
        overrides_err(m, source_id, package_root)
    } else if m.profile is Some && profiles_err((m.profile->0).deep_view(), fs) is Some {
        profiles_err((m.profile->0).deep_view(), fs)
    } else if ws_resolver_of(m) is Some && !fs.resolver {
        Some(ErrorView::FeatureGate(Capability::Resolver))
    } else if ws_resolver_of(m) matches Some(k) && resolve_behavior_spec(k) is None {
        Some(ErrorView::InvalidResolveBehavior(ws_resolver_of(m)->0))
    } else {
        None
    }
}

impl DefinedTomlManifest {
    /// Assembles the workspace-root-only manifest: the document may
    /// declare no package-only section, its replacement and patch tables
    /// are resolved, its profiles validated and its resolver key gated
    /// and parsed. The discovered nested paths are returned for recursive
    /// loading. Assembly succeeds exactly when `virtual_manifest_ok`
    /// holds.
    #[verifier::rlimit(100)]
    #[verifier::spinoff_prover]
    pub fn into_virtual_manifest(self, source_id: SourceIdentity, package_root: &str) -> (r:
        Result<(VirtualManifest, Vec<String>), ManifestError>)
        requires
            self.package is None,
        ensures
            r is Ok <==> virtual_manifest_ok(self, source_id, package_root@),
            r matches Err(e) ==> Some(e.deep_view()) == virtual_manifest_err(
                self,
                source_id,
                package_root@,
            ),
            r matches Ok(pair) ==> ({
                let fs = crate::features::feature_set_spec(declared_features_of(self));
                let vm = pair.0;
                &&& vm.features == fs
                &&& vm.replace.deep_view() == replace_result_of(self, source_id, package_root@)
                &&& vm.patch.deep_view() == patch_result_of(self, source_id, package_root@)
                &&& (match self.profile {
                    Some(ref profiles) => vm.profiles matches Some(dp) && dp.deep_view()
                        == profiles.deep_view(),
                    None => vm.profiles is None,
                })
                &&& vm.resolve_behavior == (match ws_resolver_of(self) {
                    Some(k) => resolve_behavior_spec(k),
                    None => None,
                })
                &&& workspace_config_spec(
                    self.workspace is Some,
                    match self.workspace {
                        Some(ref w) => Some(w.deep_view()),
                        None => None,
                    },
                    None,
                    package_root@,
                ) == Ok::<WorkspaceConfigView, ErrorView>(vm.workspace.deep_view())
                &&& vm.warnings.deep_view() == overrides_warnings(self, source_id, package_root@)
                    + (match self.profile {
                    Some(ref profiles) => profiles_warnings(profiles.deep_view(), fs),
                    None => Seq::<WarningView>::empty(),
                })
            }),
    {
        let ghost source_snapshot = source_id;
        if let Err(e) = self.check_virtual_sections() {
            return Err(e);
        }
        let empty_features: Vec<String> = Vec::new();
        let fs_result = match &self.cargo_features {
            Some(list) => FeatureSet::new(list),
            None => FeatureSet::new(&empty_features),
        };
        proof {
            assert(empty_features@ =~= Seq::<String>::empty());
        }
        let features = match fs_result {
            Ok(fs) => fs,
            Err(e) => {
                return Err(e);
            },
        };
        proof {
            match &self.cargo_features {
                Some(list) => crate::features::lemma_feature_set_new(*list, fs_result),
                None => crate::features::lemma_feature_set_new(empty_features, fs_result),
            }
            let declared = declared_features_of(self);
            crate::features::lemma_first_unknown_bounds(declared);
            assert(crate::features::first_unknown_feature(declared) == declared.len()) by {
                if crate::features::first_unknown_feature(declared) < declared.len() {
                    assert(crate::features::is_known_feature(
                        declared[crate::features::first_unknown_feature(declared)]@,
                    ));
                }
            }
        }
        let ghost fs = crate::features::feature_set_spec(declared_features_of(self));

        let mut cx = DepContext {
            pkgid: None,
            deps: Vec::new(),
            source: source_id,
            nested_paths: Vec::new(),
            warnings: Vec::new(),
            platform: None,
            root: package_root.to_owned(),
            features,
        };
        proof {
            assert(cx.warnings.deep_view() =~= Seq::<WarningView>::empty());
        }
        let replace = match self.replace(&mut cx) {
            Ok(v) => v,
            Err(e) => {
                return Err(e);
            },
        };
        let patch = match self.patch(&mut cx) {
            Ok(v) => v,
            Err(e) => {
                return Err(e);
            },
        };
        proof {
            assert(cx.warnings.deep_view() =~= overrides_warnings(
                self,
                source_snapshot,
                package_root@,
            ));
            assert(replace.deep_view() =~= replace_result_of(self, source_snapshot, package_root@));
            assert(patch.deep_view() =~= patch_result_of(self, source_snapshot, package_root@));
        }
        let DepContext { nested_paths, warnings: mut warnings, .. } = cx;

        let ghost w_overrides = warnings.deep_view();
        let profiles = match &self.profile {
            Some(p) => Some(p.duplicate()),
            None => None,
        };
        if let Some(ps) = &profiles {
            if let Err(e) = ps.validate(&features, &mut warnings) {
                return Err(e);
            }
        }
        proof {
            let prof_w: Seq<WarningView> = match self.profile {
                Some(ref profiles) => profiles_warnings(profiles.deep_view(), fs),
                None => Seq::empty(),
            };
            assert(warnings.deep_view() =~= w_overrides + prof_w);
        }

        let ws_resolver: Option<&String> = match &self.workspace {
            Some(w) => match &w.resolver {
                Some(r) => Some(r),
                None => None,
            },
            None => None,
        };
        if ws_resolver.is_some() {
            if let Err(err) = features.require(Capability::Resolver) {
                return Err(err);
            }
        }
        let resolve_behavior: Option<ResolveBehavior> = match ws_resolver {
            Some(s) => match ResolveBehavior::from_manifest(s.as_str()) {
                Ok(b) => Some(b),
                Err(e) => {
                    return Err(e);
                },
            },
            None => None,
        };

        let workspace_config = match self.workspace_config(package_root) {
            Ok(c) => c,
            Err(e) => {
                return Err(e);
            },
        };
        if !workspace_config.is_root() {
            return Err(ManifestError::VirtualWithoutWorkspace);
        }

        let vm = VirtualManifest {
            replace,
            patch,
            workspace: workspace_config,
            profiles,
            features,
            resolve_behavior,
            warnings,
        };
        Ok((vm, nested_paths))
    }
}

} // verus!

verus! {

/// The warnings unused document keys leave: one naming each key, and the
/// hint at the proper profile table after the legacy debug-profile key.
pub open spec fn unused_warnings(keys: Seq<String>) -> Seq<WarningView>
    decreases keys.len(),
{
    if keys.len() == 0 {
        Seq::empty()
    } else {
        (seq![WarningView::UnusedKey(keys[0]@)] + (if keys[0]@ == "profiles.debug"@ {
            seq![WarningView::UseDevProfile]
        } else {
            Seq::<WarningView>::empty()
        })) + unused_warnings(keys.drop_first())
    }
}

/// Appends one warning for each unused document key.
pub fn append_unused_warnings(warnings: &mut Vec<Warning>, keys: &Vec<String>)
    ensures
        final(warnings).deep_view() == old(warnings).deep_view() + unused_warnings(keys@),
{
    let ghost full = keys@;
    let mut i: usize = 0;
    proof {
        assert(full.subrange(0, full.len() as int) =~= full);
        assert(warnings.deep_view() + unused_warnings(full) =~= old(warnings).deep_view()
            + unused_warnings(full));
    }
    #[verifier::loop_isolation(false)]
    while i < keys.len()
        invariant
            i <= full.len(),
            warnings.deep_view() + unused_warnings(full.subrange(i as int, full.len() as int))
                == old(warnings).deep_view() + unused_warnings(full),
        decreases full.len() - i,
    {
        let ghost rest = full.subrange(i as int, full.len() as int);
        proof {
            assert(rest[0] == full[i as int]);
            assert(rest.drop_first() =~= full.subrange(i + 1 as int, full.len() as int));
        }
        let ghost w0 = warnings.deep_view();
        crate::profiles::push_warning(warnings, Warning::UnusedKey(keys[i].clone()));
        if str_eq(keys[i].as_str(), "profiles.debug") {
            crate::profiles::push_warning(warnings, Warning::UseDevProfile);
        }
        proof {
            assert(warnings.deep_view() + unused_warnings(rest.drop_first()) =~= w0
                + unused_warnings(rest));
        }
        i = i + 1;
    }
    proof {
        assert(unused_warnings(full.subrange(full.len() as int, full.len() as int))
            =~= Seq::<WarningView>::empty());
        assert(warnings.deep_view() + Seq::<WarningView>::empty() =~= warnings.deep_view());
    }
}

/// Index of the first workspace-shared dependency declared optional, or
/// the length: workspace dependencies cannot be optional.
pub open spec fn first_optional_ws_dep(deps: Seq<(String, DefinedTomlDependency)>) -> int
    decreases deps.len(),
{
    if deps.len() == 0 {
        0
    } else if crate::depend::is_optional_view(deps[0].1.deep_view()) {
        0
    } else {
        1 + first_optional_ws_dep(deps.drop_first())
    }
}

/// The shared dependency table of a raw document's own workspace table.
pub open spec fn own_ws_deps(manifest: TomlManifest) -> Seq<(String, DefinedTomlDependency)> {
    match manifest.workspace {
        Some(ref w) => match w.dependencies {
            Some(ref d) => d@,
            None => Seq::empty(),
        },
        None => Seq::empty(),
    }
}

/// Rejects an optional entry in the workspace's shared dependency table.
fn check_ws_deps_not_optional(deps: &Vec<(String, DefinedTomlDependency)>) -> (r: Result<
    (),
    ManifestError,
>)
    ensures
        ({
            let c = first_optional_ws_dep(deps@);
            match r {
                Ok(_) => c == deps@.len(),
                Err(e) => c < deps@.len() && e.deep_view()
                    == ErrorView::WorkspaceDependencyOptional(deps@[c].0@),
            }
        }),
{
    let mut i: usize = 0;
    proof {
        assert(deps@.subrange(0, deps@.len() as int) =~= deps@);
    }
    #[verifier::loop_isolation(false)]
    while i < deps.len()
        invariant
            i <= deps@.len(),
            first_optional_ws_dep(deps@) == i + first_optional_ws_dep(
                deps@.subrange(i as int, deps@.len() as int),
            ),
        decreases deps@.len() - i,
    {
        let ghost rest = deps@.subrange(i as int, deps@.len() as int);
        proof {
            assert(rest[0] == deps@[i as int]);
            assert(rest.drop_first() =~= deps@.subrange(i + 1 as int, deps@.len() as int));
        }
        if deps[i].1.is_optional() {
            proof {
                assert(first_optional_ws_dep(rest) == 0);
            }
            return Err(ManifestError::WorkspaceDependencyOptional(deps[i].0.clone()));
        }
        i = i + 1;
    }
    proof {
        assert(first_optional_ws_dep(deps@.subrange(deps@.len() as int, deps@.len() as int)) == 0);
    }
    Ok(())
}


/// When reading a parsed document is owed success: canonicalization
/// succeeds, no workspace-shared dependency is optional, and whatever the
/// document canonicalizes to assembles — as a package manifest with a
/// buildable target, or as the workspace-root-only shape.
pub open spec fn read_succeeds(
    manifest: TomlManifest,
    ws: Option<&TomlWorkspace>,
    root: Option<Seq<char>>,
    files: Seq<Seq<char>>,
    source_id: SourceIdentity,
    package_root: Seq<char>,
    targets: Seq<Target>,
) -> bool {
    &&& from_toml_manifest_err(manifest, ws, root, files) is None
    &&& first_optional_ws_dep(own_ws_deps(manifest)) == own_ws_deps(manifest).len()
    &&& (project_of(manifest) is Some ==> !all_custom_build(targets) && (forall|
        m: DefinedTomlManifest,
    |
        #[trigger] canonicalizes_to(manifest, ws, root, files, m) ==> real_manifest_ok(
            m,
            ws,
            source_id,
            package_root,
            targets,
        )))
    &&& (project_of(manifest) is None ==> (forall|m: DefinedTomlManifest|
        #[trigger] canonicalizes_to(manifest, ws, root, files, m) ==> virtual_manifest_ok(
            m,
            source_id,
            package_root,
        )))
}

/// Reads one parsed document to its final shape: the raw descriptor is
/// canonicalized against the workspace, an optional workspace-shared
/// dependency is rejected, and the document becomes a package manifest or
/// the workspace-root-only variant. Warnings for unused document keys are
/// appended to the result; a package whose targets are all build scripts
/// is rejected.
#[verifier::rlimit(100)]
#[verifier::spinoff_prover]
pub fn do_read_manifest(
    manifest: TomlManifest,
    ws: Option<&TomlWorkspace>,
    root_path: Option<&String>,
    package_root: &str,
    package_root_files: &Vec<String>,
    source_id: SourceIdentity,
    targets: Vec<Target>,
    target_warnings: Vec<Warning>,
    target_errors: Vec<String>,
    unused_keys: &Vec<String>,
) -> (r: Result<(EitherManifest, Vec<String>), ManifestError>)
    requires
        ws is Some ==> root_path is Some,
    ensures
        from_toml_manifest_err(manifest, ws, root_path.deep_view(), package_root_files.deep_view())
            matches Some(e) ==> (r matches Err(e2) && e2.deep_view() == e),
        ({
            let c = first_optional_ws_dep(own_ws_deps(manifest));
            &&& (from_toml_manifest_err(
                manifest,
                ws,
                root_path.deep_view(),
                package_root_files.deep_view(),
            ) is None && c < own_ws_deps(manifest).len() ==> (r matches Err(e) && e.deep_view()
                == ErrorView::WorkspaceDependencyOptional(own_ws_deps(manifest)[c].0@)))
            &&& (r is Ok ==> c == own_ws_deps(manifest).len())
        }),
        r matches Ok(pair) ==> ({
            &&& (pair.0 is Real <==> project_of(manifest) is Some)
            &&& (pair.0 matches EitherManifest::Real(m) ==> m.targets == targets
                && !all_custom_build(targets@) && m.critical_warnings == target_errors)
        }),
        read_succeeds(
            manifest,
            ws,
            root_path.deep_view(),
            package_root_files.deep_view(),
            source_id,
            package_root@,
            targets@,
        ) ==> r is Ok,
{
    let ghost root_v = root_path.deep_view();
    let ghost files_v = package_root_files.deep_view();
    let ghost targets_v = targets@;
    let ghost source_snapshot = source_id;
    let m = match DefinedTomlManifest::from_toml_manifest(manifest, ws, root_path, package_root_files) {
        Ok(m) => m,
        Err(e) => {
            return Err(e);
        },
    };
    let ghost m_snapshot = m;
    proof {
        assert(canonicalizes_to(manifest, ws, root_v, files_v, m_snapshot));
    }
    if let Some(w) = &m.workspace {
        if let Some(deps) = &w.dependencies {
            if let Err(e) = check_ws_deps_not_optional(deps) {
                proof {
                    assert(own_ws_deps(manifest) == deps@);
                }
                return Err(e);
            }
        }
    }
    if m.package.is_some() {
        let (mut built, paths) = match m.into_real_manifest(
            source_id,
            package_root,
            ws,
            targets,
            target_warnings,
            target_errors,
        ) {
            Ok(p) => p,
            Err(e) => {
                proof {
                    assert(!real_manifest_ok(
                        m_snapshot,
                        ws,
                        source_snapshot,
                        package_root@,
                        targets_v,
                    ));
                }
                return Err(e);
            },
        };
        append_unused_warnings(&mut built.warnings, unused_keys);
        if let Err(e) = ensure_buildable_targets(&built.targets) {
            proof {
                assert(all_custom_build(targets_v));
            }
            return Err(e);
        }
        Ok((EitherManifest::Real(built), paths))
    } else {
        let (mut vm, paths) = match m.into_virtual_manifest(source_id, package_root) {
            Ok(p) => p,
            Err(e) => {
                proof {
                    assert(!virtual_manifest_ok(m_snapshot, source_snapshot, package_root@));
                }
                return Err(e);
            },
        };
        append_unused_warnings(&mut vm.warnings, unused_keys);
        Ok((EitherManifest::Virtual(vm), paths))
    }
}

/// A fatal error together with the file it came from.
#[derive(Debug, PartialEq, Eq)]
pub struct ManifestFileError {
    pub path: String,
    pub error: ManifestError,
}

/// Reads one parsed document to its final shape, naming the offending
/// file on failure.
pub fn read_manifest(
    manifest: TomlManifest,
    ws: Option<&TomlWorkspace>,
    root_path: Option<&String>,
    path: &str,
    package_root: &str,
    package_root_files: &Vec<String>,
    source_id: SourceIdentity,
    targets: Vec<Target>,
    target_warnings: Vec<Warning>,
    target_errors: Vec<String>,
    unused_keys: &Vec<String>,
) -> (r: Result<(EitherManifest, Vec<String>), ManifestFileError>)
    requires
        ws is Some ==> root_path is Some,
    ensures
        r matches Err(fe) ==> fe.path@ == path@,
        r matches Ok(pair) ==> ({
            &&& (pair.0 is Real <==> project_of(manifest) is Some)
            &&& (pair.0 matches EitherManifest::Real(m) ==> m.targets == targets
                && !all_custom_build(targets@) && m.critical_warnings == target_errors)
        }),
        read_succeeds(
            manifest,
            ws,
            root_path.deep_view(),
            package_root_files.deep_view(),
            source_id,
            package_root@,
            targets@,
        ) ==> r is Ok,
{
    match do_read_manifest(
        manifest,
        ws,
        root_path,
        package_root,
        package_root_files,
        source_id,
        targets,
        target_warnings,
        target_errors,
        unused_keys,
    ) {
        Ok(pair) => Ok(pair),
        Err(error) => Err(ManifestFileError { path: path.to_owned(), error }),
    }
}

} // verus!

verus! {

impl TomlTarget {
    /// Copies a declared target table.
    pub fn duplicate(&self) -> (r: TomlTarget)
        ensures
            r.deep_view() == self.deep_view(),
    {
        TomlTarget {
            name: clone_opt_string(&self.name),
            crate_type: clone_opt_string_vec(&self.crate_type),
            crate_type2: clone_opt_string_vec(&self.crate_type2),
            path: clone_opt_string(&self.path),
            test: self.test,
            doctest: self.doctest,
            bench: self.bench,
            doc: self.doc,
            plugin: self.plugin,
            proc_macro_raw: self.proc_macro_raw,
            proc_macro_raw2: self.proc_macro_raw2,
            harness: self.harness,
            required_features: clone_opt_string_vec(&self.required_features),
            edition: clone_opt_string(&self.edition),
        }
    }
}

/// Copies a list of declared target tables.
pub fn clone_toml_targets(v: &Vec<TomlTarget>) -> (r: Vec<TomlTarget>)
    ensures
        r.deep_view() == v.deep_view(),
{
    let mut r: Vec<TomlTarget> = Vec::new();
    let mut i: usize = 0;
    proof {
        assert(r.deep_view() =~= v.deep_view().subrange(0, 0));
    }
    #[verifier::loop_isolation(false)]
    while i < v.len()
        invariant
            i <= v@.len(),
            r.deep_view() == v.deep_view().subrange(0, i as int),
        decreases v@.len() - i,
    {
        let ghost old_r = r.deep_view();
        r.push(v[i].duplicate());
        proof {
            assert(r.deep_view() =~= old_r.push(v.deep_view()[i as int]));
            assert(r.deep_view() =~= v.deep_view().subrange(0, i + 1));
        }
        i = i + 1;
    }
    proof {
        assert(v.deep_view().subrange(0, v@.len() as int) =~= v.deep_view());
    }
    r
}

/// Copies an optional list of declared target tables.
pub fn clone_opt_toml_targets(v: &Option<Vec<TomlTarget>>) -> (r: Option<Vec<TomlTarget>>)
    ensures
        r.deep_view() == v.deep_view(),
{
    match v {
        Some(t) => Some(clone_toml_targets(t)),
        None => None,
    }
}

/// Copies an optional declared target table.
pub fn clone_opt_toml_target(v: &Option<TomlTarget>) -> (r: Option<TomlTarget>)
    ensures
        r.deep_view() == v.deep_view(),
{
    match v {
        Some(t) => Some(t.duplicate()),
        None => None,
    }
}

} // verus!

verus! {

/// The capability list a published manifest carries: unchanged, unless a
/// resolver is being written in, which must be declared.
pub open spec fn publish_features_list(
    cf: Option<Seq<Seq<char>>>,
    resolver_given: bool,
) -> Option<Seq<Seq<char>>> {
    if !resolver_given {
        cf
    } else {
        match cf {
            None => Some(seq!["resolver"@]),
            Some(f) => if f.contains("resolver"@) {
                Some(f)
            } else {
                Some(f.push("resolver"@))
            },
        }
    }
}

/// The license-file path a published manifest carries: a path inside the
/// package is kept; one outside it is replaced by its file name, which is
/// where packaging copies the file.
pub open spec fn publish_license_file(
    lf: Option<Seq<char>>,
    package_root: Seq<char>,
) -> Option<Seq<char>> {
    match lf {
        None => None,
        Some(p) => {
            let abs = crate::strutil::normalize_spec(join_path_spec(package_root, p));
            if crate::strutil::path_has_prefix(abs, package_root) {
                Some(p)
            } else {
                Some(crate::strutil::file_name_spec(p))
            }
        },
    }
}

/// One platform's tables readied for publishing: the dev table keeps only
/// entries pinning a version, and the historical spellings are collapsed.
pub open spec fn publish_platform_spec(
    p: DefinedTomlPlatform,
    urls: Seq<(String, String)>,
) -> Result<DefinedPlatformView, ErrorView> {
    let deps_r = match p.dependencies {
        Some(ref d) => match map_deps_spec(urls, d@, DepFilter::AllDeps) {
            Ok(v) => Ok(Some(v)),
            Err(e) => Err(e),
        },
        None => Ok(None),
    };
    let dev_r = match or_opt(p.dev_dependencies, p.dev_dependencies2) {
        Some(ref d) => match map_deps_spec(urls, d@, DepFilter::VersionSpecified) {
            Ok(v) => Ok(Some(v)),
            Err(e) => Err(e),
        },
        None => Ok(None),
    };
    let build_r = match or_opt(p.build_dependencies, p.build_dependencies2) {
        Some(ref d) => match map_deps_spec(urls, d@, DepFilter::AllDeps) {
            Ok(v) => Ok(Some(v)),
            Err(e) => Err(e),
        },
        None => Ok(None),
    };
    if deps_r is Err {
        Err(deps_r->Err_0)
    } else if dev_r is Err {
        Err(dev_r->Err_0)
    } else if build_r is Err {
        Err(build_r->Err_0)
    } else {
        Ok(
            DefinedPlatformView {
                dependencies: deps_r->Ok_0,
                build_dependencies: build_r->Ok_0,
                build_dependencies2: None,
                dev_dependencies: dev_r->Ok_0,
                dev_dependencies2: None,
            },
        )
    }
}

/// The per-platform tables readied for publishing, entry by entry.
pub open spec fn publish_platforms_spec(
    target: Seq<(String, DefinedTomlPlatform)>,
    urls: Seq<(String, String)>,
) -> Result<Seq<(Seq<char>, DefinedPlatformView)>, ErrorView>
    decreases target.len(),
{
    if target.len() == 0 {
        Ok(Seq::empty())
    } else {
        match publish_platform_spec(target[0].1, urls) {
            Err(e) => Err(e),
            Ok(v) => match publish_platforms_spec(target.drop_first(), urls) {
                Err(e) => Err(e),
                Ok(rest) => Ok(seq![(target[0].0@, v)] + rest),
            },
        }
    }
}

/// The successful value of `publish_platforms_spec`, where it succeeds.
pub open spec fn publish_platforms_ok(
    target: Seq<(String, DefinedTomlPlatform)>,
    urls: Seq<(String, String)>,
) -> Seq<(Seq<char>, DefinedPlatformView)> {
    publish_platforms_spec(target, urls)->Ok_0
}

/// Readies the per-platform tables for publishing.
fn publish_platforms(
    target: &Vec<(String, DefinedTomlPlatform)>,
    registry_urls: &Vec<(String, String)>,
) -> (r: Result<Vec<(String, DefinedTomlPlatform)>, ManifestError>)
    ensures
        match publish_platforms_spec(target@, registry_urls@) {
            Ok(out) => r matches Ok(v) && v.deep_view() == out,
            Err(e) => r matches Err(re) && re.deep_view() == e,
        },
{
    let ghost full = target@;
    let mut out: Vec<(String, DefinedTomlPlatform)> = Vec::new();
    let mut i: usize = 0;
    proof {
        assert(full.subrange(0, full.len() as int) =~= full);
        assert(out.deep_view() =~= Seq::<(Seq<char>, DefinedPlatformView)>::empty());
    }
    #[verifier::loop_isolation(false)]
    while i < target.len()
        invariant
            i <= full.len(),
            match publish_platforms_spec(full.subrange(i as int, full.len() as int), registry_urls@) {
                Ok(rest) => publish_platforms_spec(full, registry_urls@) == Ok::<
                    Seq<(Seq<char>, DefinedPlatformView)>,
                    ErrorView,
                >(out.deep_view() + rest),
                Err(e) => publish_platforms_spec(full, registry_urls@) == Err::<
                    Seq<(Seq<char>, DefinedPlatformView)>,
                    ErrorView,
                >(e),
            },
        decreases full.len() - i,
    {
        let ghost rest = full.subrange(i as int, full.len() as int);
        proof {
            assert(rest[0] == full[i as int]);
            assert(rest.drop_first() =~= full.subrange(i + 1 as int, full.len() as int));
        }
        let entry = &target[i].1;
        let plat_deps = match &entry.dependencies {
            Some(d) => Some(d),
            None => None,
        };
        let dependencies = match map_deps(registry_urls, plat_deps, DepFilter::AllDeps) {
            Ok(v) => v,
            Err(e) => {
                return Err(e);
            },
        };
        let dev_in = match (&entry.dev_dependencies, &entry.dev_dependencies2) {
            (Some(d), _) => Some(d),
            (None, Some(d)) => Some(d),
            (None, None) => None,
        };
        let dev_dependencies = match map_deps(registry_urls, dev_in, DepFilter::VersionSpecified) {
            Ok(v) => v,
            Err(e) => {
                return Err(e);
            },
        };
        let build_in = match (&entry.build_dependencies, &entry.build_dependencies2) {
            (Some(d), _) => Some(d),
            (None, Some(d)) => Some(d),
            (None, None) => None,
        };
        let build_dependencies = match map_deps(registry_urls, build_in, DepFilter::AllDeps) {
            Ok(v) => v,
            Err(e) => {
                return Err(e);
            },
        };
        let ghost old_out = out.deep_view();
        out.push(
            (
                target[i].0.clone(),
                DefinedTomlPlatform {
                    dependencies,
                    build_dependencies,
                    build_dependencies2: None,
                    dev_dependencies,
                    dev_dependencies2: None,
                },
            ),
        );
        proof {
            assert(out.deep_view() =~= old_out.push(
                (full[i as int].0@, out@[out@.len() - 1].1.deep_view()),
            ));
            let next = publish_platforms_spec(rest.drop_first(), registry_urls@);
            match next {
                Ok(ds) => {
                    assert(out.deep_view() + ds =~= old_out + (seq![
                        (full[i as int].0@, out@[out@.len() - 1].1.deep_view()),
                    ] + ds));
                },
                Err(_) => {},
            }
        }
        i = i + 1;
    }
    proof {
        assert(full.subrange(full.len() as int, full.len() as int) =~= Seq::<
            (String, DefinedTomlPlatform),
        >::empty());
        assert(out.deep_view() + Seq::<(Seq<char>, DefinedPlatformView)>::empty()
            =~= out.deep_view());
    }
    Ok(out)
}

/// Whether every table of the manifest maps for publishing: each named
/// registry must have a known index location.
pub open spec fn publish_ok(m: DefinedTomlManifest, urls: Seq<(String, String)>) -> bool {
    &&& (match m.dependencies {
        Some(ref d) => map_deps_spec(urls, d@, DepFilter::AllDeps) is Ok,
        None => true,
    })
    &&& (match m.dev_dependencies {
        Some(ref d) => map_deps_spec(urls, d@, DepFilter::VersionSpecified) is Ok,
        None => true,
    })
    &&& (match m.build_dependencies {
        Some(ref d) => map_deps_spec(urls, d@, DepFilter::AllDeps) is Ok,
        None => true,
    })
    &&& (match m.target {
        Some(ref t) => publish_platforms_spec(t@, urls) is Ok,
        None => true,
    })
}

} // verus!

verus! {

impl DefinedTomlManifest {
    /// Readies the canonical manifest for publishing: the workspace
    /// pointer and the replacement, patch and workspace tables are
    /// dropped, path and version-control keys leave the dependency
    /// tables, dev-dependencies without a version requirement are
    /// stripped, each named registry is elaborated to its index location,
    /// a resolver decided for publication is written in and declared, and
    /// a license file outside the package is repointed at its packaged
    /// copy. Succeeds exactly when every named registry is known.
    #[verifier::rlimit(100)]
    #[verifier::spinoff_prover]
    pub fn prepare_for_publish(
        &self,
        registry_urls: &Vec<(String, String)>,
        publish_resolver: Option<String>,
        package_root: &str,
    ) -> (r: Result<DefinedTomlManifest, ManifestError>)
        requires
            self.package is Some,
        ensures
            r is Ok <==> publish_ok(*self, registry_urls@),
            r matches Ok(m) ==> ({
                let p = self.package->0;
                &&& m.cargo_features.deep_view() == publish_features_list(
                    self.cargo_features.deep_view(),
                    publish_resolver is Some,
                )
                &&& m.package matches Some(p2) && {
                    &&& p2.workspace is None
                    &&& p2.resolver.deep_view() == (match publish_resolver {
                        Some(ref s) => Some(s@),
                        None => p.resolver.deep_view(),
                    })
                    &&& p2.license_file.deep_view() == publish_license_file(
                        p.license_file.deep_view(),
                        package_root@,
                    )
                    &&& p2.name@ == p.name@
                    &&& p2.version.deep_view() == p.version.deep_view()
                    &&& p2.edition.deep_view() == p.edition.deep_view()
                    &&& p2.authors.deep_view() == p.authors.deep_view()
                    &&& p2.build.deep_view() == p.build.deep_view()
                    &&& p2.metabuild.deep_view() == p.metabuild.deep_view()
                    &&& p2.links.deep_view() == p.links.deep_view()
                    &&& p2.exclude.deep_view() == p.exclude.deep_view()
                    &&& p2.keep.deep_view() == p.keep.deep_view()
                    &&& p2.publish.deep_view() == p.publish.deep_view()
                    &&& p2.publish_lockfile == p.publish_lockfile
                    &&& p2.im_a_teapot == p.im_a_teapot
                    &&& p2.autobins == p.autobins
                    &&& p2.autoexamples == p.autoexamples
                    &&& p2.autotests == p.autotests
                    &&& p2.autobenches == p.autobenches
                    &&& p2.namespaced_features == p.namespaced_features
                    &&& p2.default_run.deep_view() == p.default_run.deep_view()
                    &&& p2.description.deep_view() == p.description.deep_view()
                    &&& p2.homepage.deep_view() == p.homepage.deep_view()
                    &&& p2.documentation.deep_view() == p.documentation.deep_view()
                    &&& p2.readme.deep_view() == p.readme.deep_view()
                    &&& p2.keywords.deep_view() == p.keywords.deep_view()
                    &&& p2.categories.deep_view() == p.categories.deep_view()
                    &&& p2.license.deep_view() == p.license.deep_view()
                    &&& p2.repository.deep_view() == p.repository.deep_view()
                }
                &&& (match self.dependencies {
                    Some(ref d) => m.dependencies matches Some(v) && map_deps_spec(
                        registry_urls@,
                        d@,
                        DepFilter::AllDeps,
                    ) == Ok::<Seq<(Seq<char>, DefinedDependencyView)>, ErrorView>(v.deep_view()),
                    None => m.dependencies is None,
                })
                &&& (match self.dev_dependencies {
                    Some(ref d) => m.dev_dependencies matches Some(v) && map_deps_spec(
                        registry_urls@,
                        d@,
                        DepFilter::VersionSpecified,
                    ) == Ok::<Seq<(Seq<char>, DefinedDependencyView)>, ErrorView>(v.deep_view()),
                    None => m.dev_dependencies is None,
                })
                &&& (match self.build_dependencies {
                    Some(ref d) => m.build_dependencies matches Some(v) && map_deps_spec(
                        registry_urls@,
                        d@,
                        DepFilter::AllDeps,
                    ) == Ok::<Seq<(Seq<char>, DefinedDependencyView)>, ErrorView>(v.deep_view()),
                    None => m.build_dependencies is None,
                })
                &&& (match self.target {
                    Some(ref t) => m.target matches Some(v) && publish_platforms_spec(
                        t@,
                        registry_urls@,
                    ) == Ok::<Seq<(Seq<char>, DefinedPlatformView)>, ErrorView>(v.deep_view()),
                    None => m.target is None,
                })
                &&& m.features.deep_view() == self.features.deep_view()
                &&& (match self.profile {
                    Some(ref profiles) => m.profile matches Some(dp) && dp.deep_view()
                        == profiles.deep_view(),
                    None => m.profile is None,
                })
                &&& m.lib.deep_view() == self.lib.deep_view()
                &&& m.bin.deep_view() == self.bin.deep_view()
                &&& m.example.deep_view() == self.example.deep_view()
                &&& m.test.deep_view() == self.test.deep_view()
                &&& m.bench.deep_view() == self.bench.deep_view()
                &&& m.badges.deep_view() == self.badges.deep_view()
                &&& m.replace is None
                &&& m.patch is None
                &&& m.workspace is None
            }),
    {
        let project = match &self.package {
            Some(p) => p,
            None => unreached(),
        };
        let mut package = project.duplicate();
        package.workspace = None;
        let mut cargo_features = clone_opt_string_vec(&self.cargo_features);
        if publish_resolver.is_some() {
            package.resolver = publish_resolver;
            cargo_features = match cargo_features {
                None => {
                    let mut list: Vec<String> = Vec::new();
                    list.push("resolver".to_owned());
                    proof {
                        assert(list.deep_view() =~= seq!["resolver"@]);
                    }
                    Some(list)
                },
                Some(mut feats) => {
                    if !crate::depend::vec_contains_str(&feats, "resolver") {
                        let ghost pre = feats.deep_view();
                        feats.push("resolver".to_owned());
                        proof {
                            assert(feats.deep_view() =~= pre.push("resolver"@));
                        }
                    }
                    Some(feats)
                },
            };
        }

        if let Some(license_file) = &package.license_file {
            let abs = crate::strutil::normalize_path(
                join_path(package_root, license_file.as_str()).as_str(),
            );
            if !crate::strutil::is_path_prefix(abs.as_str(), package_root) {
                package.license_file = Some(crate::strutil::file_name(license_file.as_str()));
            }
        }

        let self_deps = match &self.dependencies {
            Some(d) => Some(d),
            None => None,
        };
        let dependencies = match map_deps(registry_urls, self_deps, DepFilter::AllDeps) {
            Ok(v) => v,
            Err(e) => {
                return Err(e);
            },
        };
        let self_dev = match &self.dev_dependencies {
            Some(d) => Some(d),
            None => None,
        };
        let dev_dependencies = match map_deps(registry_urls, self_dev, DepFilter::VersionSpecified) {
            Ok(v) => v,
            Err(e) => {
                return Err(e);
            },
        };
        let self_build = match &self.build_dependencies {
            Some(d) => Some(d),
            None => None,
        };
        let build_dependencies = match map_deps(registry_urls, self_build, DepFilter::AllDeps) {
            Ok(v) => v,
            Err(e) => {
                return Err(e);
            },
        };
        let target = match &self.target {
            Some(t) => match publish_platforms(t, registry_urls) {
                Ok(v) => Some(v),
                Err(e) => {
                    return Err(e);
                },
            },
            None => None,
        };

        Ok(
            DefinedTomlManifest {
                cargo_features,
                package: Some(package),
                profile: match &self.profile {
                    Some(p) => Some(p.duplicate()),
                    None => None,
                },
                lib: clone_opt_toml_target(&self.lib),
                bin: clone_opt_toml_targets(&self.bin),
                example: clone_opt_toml_targets(&self.example),
                test: clone_opt_toml_targets(&self.test),
                bench: clone_opt_toml_targets(&self.bench),
                dependencies,
                dev_dependencies,
                build_dependencies,
                features: match &self.features {
                    Some(f) => Some(clone_features_table(f)),
                    None => None,
                },
                target,
                replace: None,
                patch: None,
                workspace: None,
                badges: match &self.badges {
                    Some(b) => Some(clone_badges(b)),
                    None => None,
                },
            },
        )
    }
}

} // verus!
