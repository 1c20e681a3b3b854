//! The package section and the workspace table: resolving every
//! workspace-delegated field to a concrete value.

use vstd::prelude::*;
use crate::depend::{
    join_relative_path, join_relative_path_spec, DefinedDependencyView, DefinedTomlDependency,
};
use crate::errors::{ErrorView, InheritableField, ManifestError};
use crate::ext::Version;
use crate::values::{
    string_or_default_spec, MaybeWorkspace, StringOrBool, StringOrVec, VecStringOrBool,
};
use crate::strutil::{clone_opt_string, clone_opt_string_vec, str_eq};

verus! {

broadcast use vstd::seq::group_seq_axioms, vstd::std_specs::vec::group_vec_axioms;

/// The workspace table of a root document: member patterns and the fields
/// members may inherit.
#[derive(Debug)]
pub struct TomlWorkspace {
    pub members: Option<Vec<String>>,
    pub default_members: Option<Vec<String>>,
    pub exclude: Option<Vec<String>>,
    pub metadata: Option<toml::Value>,
    pub resolver: Option<String>,
    pub dependencies: Option<Vec<(String, DefinedTomlDependency)>>,
    pub version: Option<Version>,
    pub authors: Option<Vec<String>>,
    pub description: Option<String>,
    pub documentation: Option<String>,
    pub readme: Option<StringOrBool>,
    pub homepage: Option<String>,
    pub repository: Option<String>,
    pub license: Option<String>,
    pub license_file: Option<String>,
    pub keywords: Option<Vec<String>>,
    pub categories: Option<Vec<String>>,
    pub publish: Option<VecStringOrBool>,
    pub edition: Option<String>,
    pub badges: Option<Vec<(String, Vec<(String, String)>)>>,
}

/// The mathematical shape of a workspace table. The free-form metadata
/// value is carried through opaquely.
pub ghost struct TomlWorkspaceView {
    pub members: Option<Seq<Seq<char>>>,
    pub default_members: Option<Seq<Seq<char>>>,
    pub exclude: Option<Seq<Seq<char>>>,
    pub metadata: Option<toml::Value>,
    pub resolver: Option<Seq<char>>,
    pub dependencies: Option<Seq<(Seq<char>, DefinedDependencyView)>>,
    pub version: Option<crate::ext::VersionView>,
    pub authors: Option<Seq<Seq<char>>>,
    pub description: Option<Seq<char>>,
    pub documentation: Option<Seq<char>>,
    pub readme: Option<crate::values::StringOrBoolView>,
    pub homepage: Option<Seq<char>>,
    pub repository: Option<Seq<char>>,
    pub license: Option<Seq<char>>,
    pub license_file: Option<Seq<char>>,
    pub keywords: Option<Seq<Seq<char>>>,
    pub categories: Option<Seq<Seq<char>>>,
    pub publish: Option<crate::values::VecStringOrBoolView>,
    pub edition: Option<Seq<char>>,
    pub badges: Option<Seq<(Seq<char>, Seq<(Seq<char>, Seq<char>)>)>>,
}

impl DeepView for TomlWorkspace {
    type V = TomlWorkspaceView;

    open spec fn deep_view(&self) -> TomlWorkspaceView {
        TomlWorkspaceView {
            members: self.members.deep_view(),
            default_members: self.default_members.deep_view(),
            exclude: self.exclude.deep_view(),
            metadata: self.metadata,
            resolver: self.resolver.deep_view(),
            dependencies: self.dependencies.deep_view(),
            version: self.version.deep_view(),
            authors: self.authors.deep_view(),
            description: self.description.deep_view(),
            documentation: self.documentation.deep_view(),
            readme: self.readme.deep_view(),
            homepage: self.homepage.deep_view(),
            repository: self.repository.deep_view(),
            license: self.license.deep_view(),
            license_file: self.license_file.deep_view(),
            keywords: self.keywords.deep_view(),
            categories: self.categories.deep_view(),
            publish: self.publish.deep_view(),
            edition: self.edition.deep_view(),
            badges: self.badges.deep_view(),
        }
    }
}

/// Resolving one optionally-delegated field: an explicit value is kept, a
/// delegation takes the workspace's value and fails when there is no
/// workspace root or the root lacks the field.
pub open spec fn ws_default_spec<T>(
    value: Option<MaybeWorkspace<T>>,
    ws_field: Option<T>,
    has_ws: bool,
    field: InheritableField,
) -> Result<Option<T>, ErrorView> {
    match value {
        None => Ok(None),
        Some(MaybeWorkspace::Defined(v)) => Ok(Some(v)),
        Some(MaybeWorkspace::Workspace) => if !has_ws {
            Err(ErrorView::WorkspaceRootMissing(field))
        } else {
            match ws_field {
                Some(v) => Ok(Some(v)),
                None => Err(ErrorView::WorkspaceFieldMissing(field)),
            }
        },
    }
}

/// Resolves one optionally-delegated field against the workspace's value.
pub fn ws_default<T>(
    value: Option<MaybeWorkspace<T>>,
    ws_field: Option<T>,
    has_ws: bool,
    field: InheritableField,
) -> (r: Result<Option<T>, ManifestError>)
    ensures
        match r {
            Ok(v) => ws_default_spec(value, ws_field, has_ws, field) == Ok::<
                Option<T>,
                ErrorView,
            >(v),
            Err(e) => ws_default_spec(value, ws_field, has_ws, field) == Err::<
                Option<T>,
                ErrorView,
            >(e.deep_view()),
        },
{
    match value {
        None => Ok(None),
        Some(MaybeWorkspace::Defined(v)) => Ok(Some(v)),
        Some(MaybeWorkspace::Workspace) => {
            if !has_ws {
                Err(ManifestError::WorkspaceRootMissing(field))
            } else {
                match ws_field {
                    Some(v) => Ok(Some(v)),
                    None => Err(ManifestError::WorkspaceFieldMissing(field)),
                }
            }
        },
    }
}

/// The conventional file names probed for a default README, in priority
/// order.
pub open spec fn default_readme_spec(files: Seq<Seq<char>>) -> Option<Seq<char>> {
    if files.contains("README.md"@) {
        Some("README.md"@)
    } else if files.contains("README.txt"@) {
        Some("README.txt"@)
    } else if files.contains("README"@) {
        Some("README"@)
    } else {
        None
    }
}

/// Picks the conventional README name: the first of `README.md`,
/// `README.txt` and `README` that the package root holds.
pub fn default_readme_from_package_root(package_root_files: &Vec<String>) -> (r: Option<String>)
    ensures
        r.deep_view() == default_readme_spec(package_root_files.deep_view()),
{
    if crate::depend::vec_contains_str(package_root_files, "README.md") {
        Some("README.md".to_owned())
    } else if crate::depend::vec_contains_str(package_root_files, "README.txt") {
        Some("README.txt".to_owned())
    } else if crate::depend::vec_contains_str(package_root_files, "README") {
        Some("README".to_owned())
    } else {
        None
    }
}

/// A package is either the workspace root, owning the shared table, or a
/// member that may point at its root.
#[derive(Debug)]
pub enum WorkspaceConfig {
    Root(WorkspaceRootConfig),
    Member { root: Option<String> },
}

/// What the workspace root declares: its directory and the member path
/// patterns.
#[derive(Debug)]
pub struct WorkspaceRootConfig {
    pub root_dir: String,
    pub members: Option<Vec<String>>,
    pub default_members: Option<Vec<String>>,
    pub exclude: Option<Vec<String>>,
}

/// The mathematical shape of a workspace-root configuration.
pub ghost struct WorkspaceRootConfigView {
    pub root_dir: Seq<char>,
    pub members: Option<Seq<Seq<char>>>,
    pub default_members: Option<Seq<Seq<char>>>,
    pub exclude: Option<Seq<Seq<char>>>,
}

/// The mathematical shape of a workspace configuration.
pub ghost enum WorkspaceConfigView {
    Root(WorkspaceRootConfigView),
    Member { root: Option<Seq<char>> },
}

impl DeepView for WorkspaceRootConfig {
    type V = WorkspaceRootConfigView;

    open spec fn deep_view(&self) -> WorkspaceRootConfigView {
        WorkspaceRootConfigView {
            root_dir: self.root_dir@,
            members: self.members.deep_view(),
            default_members: self.default_members.deep_view(),
            exclude: self.exclude.deep_view(),
        }
    }
}

impl DeepView for WorkspaceConfig {
    type V = WorkspaceConfigView;

    open spec fn deep_view(&self) -> WorkspaceConfigView {
        match *self {
            WorkspaceConfig::Root(ref r) => WorkspaceConfigView::Root(r.deep_view()),
            WorkspaceConfig::Member { ref root } => WorkspaceConfigView::Member {
                root: root.deep_view(),
            },
        }
    }
}

impl WorkspaceConfig {
    /// Whether this is the root configuration.
    pub fn is_root(&self) -> (r: bool)
        ensures
            r == (self.deep_view() is Root),
    {
        matches!(self, WorkspaceConfig::Root(_))
    }
}

impl WorkspaceRootConfig {
    /// Builds the root configuration from the workspace table.
    pub fn from_toml_workspace(package_root: &str, ws: &TomlWorkspace) -> (r: WorkspaceRootConfig)
        ensures
            r.deep_view() == (WorkspaceRootConfigView {
                root_dir: package_root@,
                members: ws.deep_view().members,
                default_members: ws.deep_view().default_members,
                exclude: ws.deep_view().exclude,
            }),
    {
        WorkspaceRootConfig {
            root_dir: package_root.to_owned(),
            members: clone_opt_string_vec(&ws.members),
            default_members: clone_opt_string_vec(&ws.default_members),
            exclude: clone_opt_string_vec(&ws.exclude),
        }
    }
}

} // verus!

verus! {

/// The package section as the document gives it: every field optional and
/// the inheritable ones possibly delegated to the workspace.
#[derive(Debug)]
pub struct TomlProject {
    pub edition: Option<MaybeWorkspace<String>>,
    pub name: String,
    pub version: MaybeWorkspace<Version>,
    pub authors: Option<MaybeWorkspace<Vec<String>>>,
    pub build: Option<StringOrBool>,
    pub metabuild: Option<StringOrVec>,
    pub links: Option<String>,
    pub exclude: Option<Vec<String>>,
    /// The file patterns packaged with the package, the opposite of
    /// `exclude`.
    pub keep: Option<Vec<String>>,
    pub publish: Option<MaybeWorkspace<VecStringOrBool>>,
    pub publish_lockfile: Option<bool>,
    pub workspace: Option<String>,
    pub im_a_teapot: Option<bool>,
    pub autobins: Option<bool>,
    pub autoexamples: Option<bool>,
    pub autotests: Option<bool>,
    pub autobenches: Option<bool>,
    pub namespaced_features: Option<bool>,
    pub default_run: Option<String>,
    pub description: Option<MaybeWorkspace<String>>,
    pub homepage: Option<MaybeWorkspace<String>>,
    pub documentation: Option<MaybeWorkspace<String>>,
    pub readme: Option<MaybeWorkspace<StringOrBool>>,
    pub keywords: Option<MaybeWorkspace<Vec<String>>>,
    pub categories: Option<MaybeWorkspace<Vec<String>>>,
    pub license: Option<MaybeWorkspace<String>>,
    pub license_file: Option<MaybeWorkspace<String>>,
    pub repository: Option<MaybeWorkspace<String>>,
    pub metadata: Option<toml::Value>,
    pub resolver: Option<String>,
}

/// The package section with every delegation resolved.
#[derive(Debug)]
pub struct DefinedTomlPackage {
    pub edition: Option<String>,
    pub name: String,
    pub version: Version,
    pub authors: Option<Vec<String>>,
    pub build: Option<StringOrBool>,
    pub metabuild: Option<StringOrVec>,
    pub links: Option<String>,
    pub exclude: Option<Vec<String>>,
    /// The file patterns packaged with the package, the opposite of
    /// `exclude`.
    pub keep: Option<Vec<String>>,
    pub publish: Option<VecStringOrBool>,
    pub publish_lockfile: Option<bool>,
    pub workspace: Option<String>,
    pub im_a_teapot: Option<bool>,
    pub autobins: Option<bool>,
    pub autoexamples: Option<bool>,
    pub autotests: Option<bool>,
    pub autobenches: Option<bool>,
    pub namespaced_features: Option<bool>,
    pub default_run: Option<String>,
    pub description: Option<String>,
    pub homepage: Option<String>,
    pub documentation: Option<String>,
    pub readme: Option<String>,
    pub keywords: Option<Vec<String>>,
    pub categories: Option<Vec<String>>,
    pub license: Option<String>,
    pub license_file: Option<String>,
    pub repository: Option<String>,
    pub metadata: Option<toml::Value>,
    pub resolver: Option<String>,
}

/// The mathematical shape of a resolved package section.
pub ghost struct DefinedPackageView {
    pub edition: Option<Seq<char>>,
    pub name: Seq<char>,
    pub version: crate::ext::VersionView,
    pub authors: Option<Seq<Seq<char>>>,
    pub build: Option<crate::values::StringOrBoolView>,
    pub metabuild: Option<Seq<Seq<char>>>,
    pub links: Option<Seq<char>>,
    pub exclude: Option<Seq<Seq<char>>>,
    pub keep: Option<Seq<Seq<char>>>,
    pub publish: Option<crate::values::VecStringOrBoolView>,
    pub publish_lockfile: Option<bool>,
    pub workspace: Option<Seq<char>>,
    pub im_a_teapot: Option<bool>,
    pub autobins: Option<bool>,
    pub autoexamples: Option<bool>,
    pub autotests: Option<bool>,
    pub autobenches: Option<bool>,
    pub namespaced_features: Option<bool>,
    pub default_run: Option<Seq<char>>,
    pub description: Option<Seq<char>>,
    pub homepage: Option<Seq<char>>,
    pub documentation: Option<Seq<char>>,
    pub readme: Option<Seq<char>>,
    pub keywords: Option<Seq<Seq<char>>>,
    pub categories: Option<Seq<Seq<char>>>,
    pub license: Option<Seq<char>>,
    pub license_file: Option<Seq<char>>,
    pub repository: Option<Seq<char>>,
    pub metadata: Option<toml::Value>,
    pub resolver: Option<Seq<char>>,
}

impl DeepView for DefinedTomlPackage {
    type V = DefinedPackageView;

    open spec fn deep_view(&self) -> DefinedPackageView {
        DefinedPackageView {
            edition: self.edition.deep_view(),
            name: self.name@,
            version: self.version.deep_view(),
            authors: self.authors.deep_view(),
            build: self.build.deep_view(),
            metabuild: self.metabuild.deep_view(),
            links: self.links.deep_view(),
            exclude: self.exclude.deep_view(),
            keep: self.keep.deep_view(),
            publish: self.publish.deep_view(),
            publish_lockfile: self.publish_lockfile,
            workspace: self.workspace.deep_view(),
            im_a_teapot: self.im_a_teapot,
            autobins: self.autobins,
            autoexamples: self.autoexamples,
            autotests: self.autotests,
            autobenches: self.autobenches,
            namespaced_features: self.namespaced_features,
            default_run: self.default_run.deep_view(),
            description: self.description.deep_view(),
            homepage: self.homepage.deep_view(),
            documentation: self.documentation.deep_view(),
            readme: self.readme.deep_view(),
            keywords: self.keywords.deep_view(),
            categories: self.categories.deep_view(),
            license: self.license.deep_view(),
            license_file: self.license_file.deep_view(),
            repository: self.repository.deep_view(),
            metadata: self.metadata,
            resolver: self.resolver.deep_view(),
        }
    }
}

/// Resolving the package version: it must be explicit or inherited.
pub open spec fn version_resolved(
    version: MaybeWorkspace<crate::ext::VersionView>,
    ws: Option<TomlWorkspaceView>,
) -> Result<crate::ext::VersionView, ErrorView> {
    match version {
        MaybeWorkspace::Defined(v) => Ok(v),
        MaybeWorkspace::Workspace => match ws {
            None => Err(ErrorView::WorkspaceRootMissing(InheritableField::Version)),
            Some(w) => match w.version {
                Some(v) => Ok(v),
                None => Err(ErrorView::WorkspaceFieldMissing(InheritableField::Version)),
            },
        },
    }
}

/// Resolving the readme field: an absent field falls back to the probed
/// conventional names; a delegation takes the workspace's readme, whose
/// relative path is rewritten against the workspace root's directory.
/// Delegating with no workspace at all and delegating against a workspace
/// that lacks the field are distinct failures.
pub open spec fn readme_resolved(
    readme: Option<MaybeWorkspace<crate::values::StringOrBoolView>>,
    ws_readme: Option<crate::values::StringOrBoolView>,
    has_ws: bool,
    root: Option<Seq<char>>,
    files: Seq<Seq<char>>,
) -> Result<Option<Seq<char>>, ErrorView> {
    match readme {
        None => Ok(default_readme_spec(files)),
        Some(MaybeWorkspace::Defined(d)) => Ok(string_or_default_spec(d, "README.md"@)),
        Some(MaybeWorkspace::Workspace) => if !has_ws {
            Err(ErrorView::WorkspaceRootMissing(InheritableField::Readme))
        } else {
            match ws_readme {
                None => Err(ErrorView::WorkspaceFieldMissing(InheritableField::Readme)),
                Some(defined) => match string_or_default_spec(defined, "README.md"@) {
                    Some(ws_readme_name) => Ok(
                        Some(join_relative_path_spec(root->0, ws_readme_name)),
                    ),
                    None => Ok(None),
                },
            }
        },
    }
}

/// Resolving the license-file field: a delegated path is rewritten
/// against the workspace root's directory. Delegating with no workspace
/// at all and delegating against a workspace that lacks the field are
/// distinct failures.
pub open spec fn license_file_resolved(
    license_file: Option<MaybeWorkspace<Seq<char>>>,
    ws_license_file: Option<Seq<char>>,
    has_ws: bool,
    root: Option<Seq<char>>,
) -> Result<Option<Seq<char>>, ErrorView> {
    match license_file {
        None => Ok(None),
        Some(MaybeWorkspace::Defined(d)) => Ok(Some(d)),
        Some(MaybeWorkspace::Workspace) => if !has_ws {
            Err(ErrorView::WorkspaceRootMissing(InheritableField::LicenseFile))
        } else {
            match ws_license_file {
                None => Err(ErrorView::WorkspaceFieldMissing(InheritableField::LicenseFile)),
                Some(f) => Ok(Some(join_relative_path_spec(root->0, f))),
            }
        },
    }
}

} // verus!

verus! {

/// `ws_default_spec` commutes with taking views of the operands.
pub proof fn lemma_ws_default_view<T: DeepView>(
    value: Option<MaybeWorkspace<T>>,
    ws_field: Option<T>,
    has_ws: bool,
    field: InheritableField,
)
    ensures
        match ws_default_spec(value, ws_field, has_ws, field) {
            Ok(v) => ws_default_spec(value.deep_view(), ws_field.deep_view(), has_ws, field)
                == Ok::<Option<T::V>, ErrorView>(v.deep_view()),
            Err(e) => ws_default_spec(value.deep_view(), ws_field.deep_view(), has_ws, field)
                == Err::<Option<T::V>, ErrorView>(e),
        },
{
}

/// The workspace's value of each inheritable field, absent when there is
/// no workspace.
pub open spec fn ws_field_view<T>(ws: Option<TomlWorkspaceView>, f: spec_fn(TomlWorkspaceView) -> Option<T>) -> Option<T> {
    match ws {
        Some(w) => f(w),
        None => None,
    }
}

/// Resolving the whole package section: each delegated field against the
/// workspace, in declaration order, stopping at the first failure; the
/// readme falls back to the probed conventional names.
pub open spec fn from_toml_project_spec(
    project: TomlProject,
    ws: Option<TomlWorkspaceView>,
    root: Option<Seq<char>>,
    files: Seq<Seq<char>>,
) -> Result<DefinedPackageView, ErrorView> {
    let has_ws = ws is Some;
    let r_version = version_resolved(project.version.deep_view(), ws);
    let r_edition = ws_default_spec(
        project.edition.deep_view(),
        ws_field_view(ws, |w: TomlWorkspaceView| w.edition),
        has_ws,
        InheritableField::Edition,
    );
    let r_authors = ws_default_spec(
        project.authors.deep_view(),
        ws_field_view(ws, |w: TomlWorkspaceView| w.authors),
        has_ws,
        InheritableField::Authors,
    );
    let r_publish = ws_default_spec(
        project.publish.deep_view(),
        ws_field_view(ws, |w: TomlWorkspaceView| w.publish),
        has_ws,
        InheritableField::Publish,
    );
    let r_description = ws_default_spec(
        project.description.deep_view(),
        ws_field_view(ws, |w: TomlWorkspaceView| w.description),
        has_ws,
        InheritableField::Description,
    );
    let r_homepage = ws_default_spec(
        project.homepage.deep_view(),
        ws_field_view(ws, |w: TomlWorkspaceView| w.homepage),
        has_ws,
        InheritableField::Homepage,
    );
    let r_documentation = ws_default_spec(
        project.documentation.deep_view(),
        ws_field_view(ws, |w: TomlWorkspaceView| w.documentation),
        has_ws,
        InheritableField::Documentation,
    );
    let r_readme = readme_resolved(
        project.readme.deep_view(),
        ws_field_view(ws, |w: TomlWorkspaceView| w.readme),
        has_ws,
        root,
        files,
    );
    let r_license_file = license_file_resolved(
        project.license_file.deep_view(),
        ws_field_view(ws, |w: TomlWorkspaceView| w.license_file),
        has_ws,
        root,
    );
    let r_keywords = ws_default_spec(
        project.keywords.deep_view(),
        ws_field_view(ws, |w: TomlWorkspaceView| w.keywords),
        has_ws,
        InheritableField::Keywords,
    );
    let r_categories = ws_default_spec(
        project.categories.deep_view(),
        ws_field_view(ws, |w: TomlWorkspaceView| w.categories),
        has_ws,
        InheritableField::Categories,
    );
    let r_license = ws_default_spec(
        project.license.deep_view(),
        ws_field_view(ws, |w: TomlWorkspaceView| w.license),
        has_ws,
        InheritableField::License,
    );
    let r_repository = ws_default_spec(
        project.repository.deep_view(),
        ws_field_view(ws, |w: TomlWorkspaceView| w.repository),
        has_ws,
        InheritableField::Repository,
    );
    if r_version is Err {
        Err(r_version->Err_0)
    } else if r_edition is Err {
        Err(r_edition->Err_0)
    } else if r_authors is Err {
        Err(r_authors->Err_0)
    } else if r_publish is Err {
        Err(r_publish->Err_0)
    } else if r_description is Err {
        Err(r_description->Err_0)
    } else if r_homepage is Err {
        Err(r_homepage->Err_0)
    } else if r_documentation is Err {
        Err(r_documentation->Err_0)
    } else if r_readme is Err {
        Err(r_readme->Err_0)
    } else if r_license_file is Err {
        Err(r_license_file->Err_0)
    } else if r_keywords is Err {
        Err(r_keywords->Err_0)
    } else if r_categories is Err {
        Err(r_categories->Err_0)
    } else if r_license is Err {
        Err(r_license->Err_0)
    } else if r_repository is Err {
        Err(r_repository->Err_0)
    } else {
        Ok(
            DefinedPackageView {
                edition: r_edition->Ok_0,
                name: project.name@,
                version: r_version->Ok_0,
                authors: r_authors->Ok_0,
                build: project.build.deep_view(),
                metabuild: project.metabuild.deep_view(),
                links: project.links.deep_view(),
                exclude: project.exclude.deep_view(),
                keep: project.keep.deep_view(),
                publish: r_publish->Ok_0,
                publish_lockfile: project.publish_lockfile,
                workspace: project.workspace.deep_view(),
                im_a_teapot: project.im_a_teapot,
                autobins: project.autobins,
                autoexamples: project.autoexamples,
                autotests: project.autotests,
                autobenches: project.autobenches,
                namespaced_features: project.namespaced_features,
                default_run: project.default_run.deep_view(),
                description: r_description->Ok_0,
                homepage: r_homepage->Ok_0,
                documentation: r_documentation->Ok_0,
                readme: r_readme->Ok_0,
                keywords: r_keywords->Ok_0,
                categories: r_categories->Ok_0,
                license: r_license->Ok_0,
                license_file: r_license_file->Ok_0,
                repository: r_repository->Ok_0,
                metadata: project.metadata,
                resolver: project.resolver.deep_view(),
            },
        )
    }
}

impl DefinedTomlPackage {
    /// Resolves the package section against the workspace: every
    /// delegated field becomes concrete, in declaration order, and the
    /// readme falls back to the conventional names found in the package
    /// root.
    #[verifier::rlimit(100)]
    pub fn from_toml_project(
        project: TomlProject,
        ws: Option<&TomlWorkspace>,
        root_path: Option<&String>,
        package_root_files: &Vec<String>,
    ) -> (r: Result<DefinedTomlPackage, ManifestError>)
        requires
            ws is Some ==> root_path is Some,
        ensures
            ({
                let s = from_toml_project_spec(
                    project,
                    match ws {
                        Some(w) => Some(w.deep_view()),
                        None => None,
                    },
                    root_path.deep_view(),
                    package_root_files.deep_view(),
                );
                match r {
                    Ok(p) => s == Ok::<DefinedPackageView, ErrorView>(p.deep_view()),
                    Err(e) => s == Err::<DefinedPackageView, ErrorView>(e.deep_view()),
                }
            }),
    {
        let ghost wsv: Option<TomlWorkspaceView> = match ws {
            Some(w) => Some(w.deep_view()),
            None => None,
        };
        let has_ws = ws.is_some();

        let version: Version = match project.version {
            MaybeWorkspace::Defined(v) => v,
            MaybeWorkspace::Workspace => match ws {
                None => {
                    return Err(ManifestError::WorkspaceRootMissing(InheritableField::Version));
                },
                Some(w) => match &w.version {
                    Some(v) => v.duplicate(),
                    None => {
                        return Err(
                            ManifestError::WorkspaceFieldMissing(InheritableField::Version),
                        );
                    },
                },
            },
        };

        let ws_edition = match ws {
            Some(w) => clone_opt_string(&w.edition),
            None => None,
        };
        proof {
            lemma_ws_default_view(project.edition, ws_edition, has_ws, InheritableField::Edition);
        }
        let edition = match ws_default(project.edition, ws_edition, has_ws, InheritableField::Edition) {
            Ok(v) => v,
            Err(e) => {
                return Err(e);
            },
        };

        let ws_authors = match ws {
            Some(w) => clone_opt_string_vec(&w.authors),
            None => None,
        };
        proof {
            lemma_ws_default_view(project.authors, ws_authors, has_ws, InheritableField::Authors);
        }
        let authors = match ws_default(project.authors, ws_authors, has_ws, InheritableField::Authors) {
            Ok(v) => v,
            Err(e) => {
                return Err(e);
            },
        };

        let ws_publish = match ws {
            Some(w) => crate::values::clone_opt_vec_string_or_bool(&w.publish),
            None => None,
        };
        proof {
            lemma_ws_default_view(project.publish, ws_publish, has_ws, InheritableField::Publish);
        }
        let publish = match ws_default(project.publish, ws_publish, has_ws, InheritableField::Publish) {
            Ok(v) => v,
            Err(e) => {
                return Err(e);
            },
        };

        let ws_description = match ws {
            Some(w) => clone_opt_string(&w.description),
            None => None,
        };
        proof {
            lemma_ws_default_view(
                project.description,
                ws_description,
                has_ws,
                InheritableField::Description,
            );
        }
        let description = match ws_default(
            project.description,
            ws_description,
            has_ws,
            InheritableField::Description,
        ) {
            Ok(v) => v,
            Err(e) => {
                return Err(e);
            },
        };

        let ws_homepage = match ws {
            Some(w) => clone_opt_string(&w.homepage),
            None => None,
        };
        proof {
            lemma_ws_default_view(project.homepage, ws_homepage, has_ws, InheritableField::Homepage);
        }
        let homepage = match ws_default(project.homepage, ws_homepage, has_ws, InheritableField::Homepage) {
            Ok(v) => v,
            Err(e) => {
                return Err(e);
            },
        };

        let ws_documentation = match ws {
            Some(w) => clone_opt_string(&w.documentation),
            None => None,
        };
        proof {
            lemma_ws_default_view(
                project.documentation,
                ws_documentation,
                has_ws,
                InheritableField::Documentation,
            );
        }
        let documentation = match ws_default(
            project.documentation,
            ws_documentation,
            has_ws,
            InheritableField::Documentation,
        ) {
            Ok(v) => v,
            Err(e) => {
                return Err(e);
            },
        };

        let readme: Option<String> = match &project.readme {
            None => default_readme_from_package_root(package_root_files),
            Some(MaybeWorkspace::Defined(d)) => d.string_or_default("README.md"),
            Some(MaybeWorkspace::Workspace) => {
                let w = match ws {
                    Some(w) => w,
                    None => {
                        return Err(
                            ManifestError::WorkspaceRootMissing(InheritableField::Readme),
                        );
                    },
                };
                match &w.readme {
                    None => {
                        return Err(
                            ManifestError::WorkspaceFieldMissing(InheritableField::Readme),
                        );
                    },
                    Some(defined) => match defined.string_or_default("README.md") {
                        Some(ws_readme_name) => {
                            let root = root_path.unwrap();
                            Some(join_relative_path(root.as_str(), ws_readme_name.as_str()))
                        },
                        None => None,
                    },
                }
            },
        };

        let license_file: Option<String> = match &project.license_file {
            None => None,
            Some(MaybeWorkspace::Defined(d)) => Some(d.clone()),
            Some(MaybeWorkspace::Workspace) => {
                let w = match ws {
                    Some(w) => w,
                    None => {
                        return Err(
                            ManifestError::WorkspaceRootMissing(InheritableField::LicenseFile),
                        );
                    },
                };
                match &w.license_file {
                    None => {
                        return Err(
                            ManifestError::WorkspaceFieldMissing(InheritableField::LicenseFile),
                        );
                    },
                    Some(f) => {
                        let root = root_path.unwrap();
                        Some(join_relative_path(root.as_str(), f.as_str()))
                    },
                }
            },
        };

        let ws_keywords = match ws {
            Some(w) => clone_opt_string_vec(&w.keywords),
            None => None,
        };
        proof {
            lemma_ws_default_view(project.keywords, ws_keywords, has_ws, InheritableField::Keywords);
        }
        let keywords = match ws_default(project.keywords, ws_keywords, has_ws, InheritableField::Keywords) {
            Ok(v) => v,
            Err(e) => {
                return Err(e);
            },
        };

        let ws_categories = match ws {
            Some(w) => clone_opt_string_vec(&w.categories),
            None => None,
        };
        proof {
            lemma_ws_default_view(
                project.categories,
                ws_categories,
                has_ws,
                InheritableField::Categories,
            );
        }
        let categories = match ws_default(
            project.categories,
            ws_categories,
            has_ws,
            InheritableField::Categories,
        ) {
            Ok(v) => v,
            Err(e) => {
                return Err(e);
            },
        };

        let ws_license = match ws {
            Some(w) => clone_opt_string(&w.license),
            None => None,
        };
        proof {
            lemma_ws_default_view(project.license, ws_license, has_ws, InheritableField::License);
        }
        let license = match ws_default(project.license, ws_license, has_ws, InheritableField::License) {
            Ok(v) => v,
            Err(e) => {
                return Err(e);
            },
        };

        let ws_repository = match ws {
            Some(w) => clone_opt_string(&w.repository),
            None => None,
        };
        proof {
            lemma_ws_default_view(
                project.repository,
                ws_repository,
                has_ws,
                InheritableField::Repository,
            );
        }
        let repository = match ws_default(
            project.repository,
            ws_repository,
            has_ws,
            InheritableField::Repository,
        ) {
            Ok(v) => v,
            Err(e) => {
                return Err(e);
            },
        };

        Ok(
            DefinedTomlPackage {
                edition,
                name: project.name,
                version,
                authors,
                build: project.build,
                metabuild: project.metabuild,
                links: project.links,
                exclude: project.exclude,
                keep: project.keep,
                publish,
                publish_lockfile: project.publish_lockfile,
                workspace: project.workspace,
                im_a_teapot: project.im_a_teapot,
                autobins: project.autobins,
                autoexamples: project.autoexamples,
                autotests: project.autotests,
                autobenches: project.autobenches,
                namespaced_features: project.namespaced_features,
                default_run: project.default_run,
                description,
                homepage,
                documentation,
                readme,
                keywords,
                categories,
                license,
                license_file,
                repository,
                metadata: project.metadata,
                resolver: project.resolver,
            },
        )
    }
}

} // verus!

verus! {

impl DefinedTomlPackage {
    /// Copies a resolved package section.
    pub fn duplicate(&self) -> (r: DefinedTomlPackage)
        ensures
            r.deep_view() == self.deep_view(),
    {
        DefinedTomlPackage {
            edition: clone_opt_string(&self.edition),
            name: self.name.clone(),
            version: self.version.duplicate(),
            authors: clone_opt_string_vec(&self.authors),
            build: crate::values::clone_opt_string_or_bool(&self.build),
            metabuild: crate::values::clone_opt_string_or_vec(&self.metabuild),
            links: clone_opt_string(&self.links),
            exclude: clone_opt_string_vec(&self.exclude),
            keep: clone_opt_string_vec(&self.keep),
            publish: crate::values::clone_opt_vec_string_or_bool(&self.publish),
            publish_lockfile: self.publish_lockfile,
            workspace: clone_opt_string(&self.workspace),
            im_a_teapot: self.im_a_teapot,
            autobins: self.autobins,
            autoexamples: self.autoexamples,
            autotests: self.autotests,
            autobenches: self.autobenches,
            namespaced_features: self.namespaced_features,
            default_run: clone_opt_string(&self.default_run),
            description: clone_opt_string(&self.description),
            homepage: clone_opt_string(&self.homepage),
            documentation: clone_opt_string(&self.documentation),
            readme: clone_opt_string(&self.readme),
            keywords: clone_opt_string_vec(&self.keywords),
            categories: clone_opt_string_vec(&self.categories),
            license: clone_opt_string(&self.license),
            license_file: clone_opt_string(&self.license_file),
            repository: clone_opt_string(&self.repository),
            metadata: match &self.metadata {
                Some(v) => Some(v.clone()),
                None => None,
            },
            resolver: clone_opt_string(&self.resolver),
        }
    }
}

} // verus!
