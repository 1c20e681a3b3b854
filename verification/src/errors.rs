//! Error and warning taxonomy. Fatal errors abort the manifest being
//! processed and carry the offending key, dependency or profile name as
//! structured data; warnings are accumulated and never abort.

use vstd::prelude::*;

verus! {

/// The capabilities that gate unstable manifest syntax. Each must be
/// declared by the document before the gated field may be used.
#[derive(Debug, Clone, Copy, PartialEq, Eq)]
pub enum Capability {
    Edition,
    Metabuild,
    Resolver,
    RenameDependency,
    PublicDependency,
    ProfileOverrides,
    NamedProfiles,
    StripSetting,
    NamespacedFeatures,
    PublishLockfile,
}

/// Fields a workspace root may declare for members to inherit.
#[derive(Debug, Clone, Copy, PartialEq, Eq)]
pub enum InheritableField {
    Version,
    Edition,
    Authors,
    Publish,
    Description,
    Homepage,
    Documentation,
    Readme,
    Keywords,
    Categories,
    License,
    LicenseFile,
    Repository,
    Badges,
}

/// What kind of name failed validation.
#[derive(Debug, Clone, Copy, PartialEq, Eq)]
pub enum NameKind {
    PackageName,
    DependencyName,
    ProfileName,
    DirName,
    Inherits,
}

/// Which override slot of a profile was at fault.
#[derive(Debug, Clone, Copy, PartialEq, Eq)]
pub enum OverrideKind {
    PackageOverride,
    BuildOverride,
}

/// A whole-build setting that an override profile may not carry.
#[derive(Debug, Clone, Copy, PartialEq, Eq)]
pub enum WholeBuildSetting {
    PanicStrategy,
    Lto,
    Rpath,
}

/// A package-only section that a workspace-root-only document may not
/// declare.
#[derive(Debug, Clone, Copy, PartialEq, Eq)]
pub enum SectionKind {
    PackageSection,
    LibSection,
    BinSection,
    ExampleSection,
    TestSection,
    BenchSection,
    DependenciesSection,
    DevDependenciesSection,
    BuildDependenciesSection,
    FeaturesSection,
    TargetSection,
    BadgesSection,
}

/// The declaration group a dependency belongs to.
#[derive(Debug, Clone, Copy, PartialEq, Eq)]
pub enum DepKind {
    Normal,
    Development,
    Build,
}

/// A fatal normalization error. Processing of the current manifest stops
/// at the first of these.
#[derive(Debug, Clone, PartialEq, Eq)]
pub enum ManifestError {
    /// A workspace-shared dependency was declared optional.
    WorkspaceDependencyOptional(String),
    /// Every discovered target is a build-script target.
    NoTargets,
    /// A member delegated a dependency the workspace does not declare.
    WorkspaceDependencyNotFound(String),
    /// A workspace-delegation marker where only an explicit value is valid.
    UnexpectedWorkspaceDependency,
    /// The workspace root does not declare the delegated field.
    WorkspaceFieldMissing(InheritableField),
    /// A field was delegated but no workspace root could be read.
    WorkspaceRootMissing(InheritableField),
    /// Both a root workspace table and a pointer to another root.
    WorkspaceConfigConflict,
    /// The package name is empty after trimming.
    EmptyPackageName,
    /// A name holds a character outside letters, digits, `-` and `_`.
    InvalidName { what: NameKind, name: String, ch: char },
    /// A reserved word was used where a profile or directory name is required.
    ReservedName { what: NameKind, name: String },
    /// The edition string does not parse to a known edition.
    EditionUnsupported(String),
    /// A gated field was used without its capability enabled.
    FeatureGate(Capability),
    /// The declared capability list names an unknown capability.
    UnknownFeature(String),
    /// The resolver is set on both the package and the workspace.
    BothResolvers,
    /// The resolver string is not a known behavior.
    InvalidResolveBehavior(String),
    /// `links` is declared but no target is a build script.
    LinksWithoutBuildScript { package: String, links: String },
    /// One dependency name resolved to two different source identities.
    DependencySourceConflict(String),
    /// The declared default-run binary does not exist.
    DefaultRunMissing { target: String, suggestion: Option<String> },
    /// `public` on a dependency that is not a normal dependency.
    PublicOnNonNormalDependency { dep: String, kind: DepKind },
    /// A workspace-root-only document declares a package-only section.
    VirtualManifestSection(SectionKind),
    /// A workspace-root-only document without a workspace table.
    VirtualWithoutWorkspace,
    /// `[replace]` and `[patch]` cannot be combined.
    ReplaceWithPatch,
    /// A replacement or override key is not a valid package id spec.
    InvalidPackageIdSpec(String),
    /// A replacement itself carries a version requirement.
    ReplaceHasVersionReq(String),
    /// A replacement key does not pin the version being replaced.
    ReplaceNeedsVersion(String),
    /// A patch table key is neither the default registry nor a URL.
    PatchKeyInvalid(String),
    /// A registry name with no known index URL.
    UnknownRegistry(String),
    /// A dependency declares both a version-control location and a registry.
    AmbiguousGitRegistry(String),
    /// A dependency declares both a registry name and a registry URL.
    AmbiguousRegistryIndex(String),
    /// The version-control URL of a dependency does not parse.
    InvalidGitUrl { dep: String, url: String },
    /// The registry URL of a dependency does not parse.
    InvalidRegistryUrl { dep: String, url: String },
    /// The version requirement of a dependency does not parse.
    InvalidVersionReq { dep: String, req: String },
    /// A platform key does not parse as a target name or cfg expression.
    PlatformInvalid { name: String },
    /// An override profile carries its own package overrides.
    ProfileNestedPackage,
    /// An override profile carries its own build-script override.
    ProfileNestedBuildOverride,
    /// An override profile sets a whole-build property.
    ProfileSettingInOverride { setting: WholeBuildSetting, which: OverrideKind },
    /// `panic` is neither `unwind` nor `abort`.
    InvalidPanicSetting(String),
}

/// A non-fatal warning, accumulated during normalization and surfaced to
/// the caller after successful construction.
#[derive(Debug, Clone, PartialEq, Eq)]
pub enum Warning {
    /// A manifest key nothing consumed.
    UnusedKey(String),
    /// The legacy `debug` profile name was used.
    UseDevProfile,
    /// A dependency with none of version, path or version-control location.
    DependencyMissingSource(String),
    /// A version requirement carrying build metadata after `+`.
    VersionReqMetadata { dep: String, req: String },
    /// A version-control reference key given without a version-control location.
    GitKeyIgnored { dep: String, key: GitRefKey },
    /// Both a version-control location and a filesystem path.
    AmbiguousGitPath(String),
    /// More than one of branch, tag and revision.
    AmbiguousGitReference(String),
    /// A URL fragment on a version-control location, ignored.
    UrlFragmentIgnored { dep: String, fragment: String },
    /// The `doc` profile has no effect.
    ProfileDocDeprecated,
    /// `panic` is ignored under the test and bench profiles.
    ProfilePanicIgnored(String),
    /// The publish-lockfile setting is deprecated and has no effect.
    PublishLockfileDeprecated,
    /// A `default-features` key inside the features table, a likely typo.
    DefaultFeaturesKey,
    /// Both `license` and `license-file` are declared.
    LicenseAndLicenseFile,
    /// One file belongs to more than one build target.
    DuplicateBuildTargets(String),
    /// A diagnostic from checking a platform cfg expression.
    PlatformCfg(String),
}

/// The three reference keys a version-control location accepts.
#[derive(Debug, Clone, Copy, PartialEq, Eq)]
pub enum GitRefKey {
    BranchKey,
    TagKey,
    RevKey,
}

} // verus!

verus! {

impl DeepView for Capability {
    type V = Capability;

    open spec fn deep_view(&self) -> Capability {
        *self
    }
}

impl DeepView for InheritableField {
    type V = InheritableField;

    open spec fn deep_view(&self) -> InheritableField {
        *self
    }
}

impl DeepView for NameKind {
    type V = NameKind;

    open spec fn deep_view(&self) -> NameKind {
        *self
    }
}

impl DeepView for OverrideKind {
    type V = OverrideKind;

    open spec fn deep_view(&self) -> OverrideKind {
        *self
    }
}

impl DeepView for WholeBuildSetting {
    type V = WholeBuildSetting;

    open spec fn deep_view(&self) -> WholeBuildSetting {
        *self
    }
}

impl DeepView for SectionKind {
    type V = SectionKind;

    open spec fn deep_view(&self) -> SectionKind {
        *self
    }
}

impl DeepView for DepKind {
    type V = DepKind;

    open spec fn deep_view(&self) -> DepKind {
        *self
    }
}

impl DeepView for GitRefKey {
    type V = GitRefKey;

    open spec fn deep_view(&self) -> GitRefKey {
        *self
    }
}

/// The mathematical shape of a fatal error: the same cases as
/// `ManifestError`, with text payloads read as character sequences.
pub ghost enum ErrorView {
    WorkspaceDependencyOptional(Seq<char>),
    NoTargets,
    WorkspaceDependencyNotFound(Seq<char>),
    UnexpectedWorkspaceDependency,
    WorkspaceFieldMissing(InheritableField),
    WorkspaceRootMissing(InheritableField),
    WorkspaceConfigConflict,
    EmptyPackageName,
    InvalidName { what: NameKind, name: Seq<char>, ch: char },
    ReservedName { what: NameKind, name: Seq<char> },
    EditionUnsupported(Seq<char>),
    FeatureGate(Capability),
    UnknownFeature(Seq<char>),
    BothResolvers,
    InvalidResolveBehavior(Seq<char>),
    LinksWithoutBuildScript { package: Seq<char>, links: Seq<char> },
    DependencySourceConflict(Seq<char>),
    DefaultRunMissing { target: Seq<char>, suggestion: Option<Seq<char>> },
    PublicOnNonNormalDependency { dep: Seq<char>, kind: DepKind },
    VirtualManifestSection(SectionKind),
    VirtualWithoutWorkspace,
    ReplaceWithPatch,
    InvalidPackageIdSpec(Seq<char>),
    ReplaceHasVersionReq(Seq<char>),
    ReplaceNeedsVersion(Seq<char>),
    PatchKeyInvalid(Seq<char>),
    UnknownRegistry(Seq<char>),
    AmbiguousGitRegistry(Seq<char>),
    AmbiguousRegistryIndex(Seq<char>),
    InvalidGitUrl { dep: Seq<char>, url: Seq<char> },
    InvalidRegistryUrl { dep: Seq<char>, url: Seq<char> },
    InvalidVersionReq { dep: Seq<char>, req: Seq<char> },
    PlatformInvalid { name: Seq<char> },
    ProfileNestedPackage,
    ProfileNestedBuildOverride,
    ProfileSettingInOverride { setting: WholeBuildSetting, which: OverrideKind },
    InvalidPanicSetting(Seq<char>),
}

impl DeepView for ManifestError {
    type V = ErrorView;

    open spec fn deep_view(&self) -> ErrorView {
        match *self {
            ManifestError::WorkspaceDependencyOptional(ref s) => ErrorView::WorkspaceDependencyOptional(s@),
            ManifestError::NoTargets => ErrorView::NoTargets,
            ManifestError::WorkspaceDependencyNotFound(ref s) => ErrorView::WorkspaceDependencyNotFound(s@),
            ManifestError::UnexpectedWorkspaceDependency => ErrorView::UnexpectedWorkspaceDependency,
            ManifestError::WorkspaceFieldMissing(f) => ErrorView::WorkspaceFieldMissing(f),
            ManifestError::WorkspaceRootMissing(f) => ErrorView::WorkspaceRootMissing(f),
            ManifestError::WorkspaceConfigConflict => ErrorView::WorkspaceConfigConflict,
            ManifestError::EmptyPackageName => ErrorView::EmptyPackageName,
            ManifestError::InvalidName { what, ref name, ch } => ErrorView::InvalidName {
                what,
                name: name@,
                ch,
            },
            ManifestError::ReservedName { what, ref name } => ErrorView::ReservedName {
                what,
                name: name@,
            },
            ManifestError::EditionUnsupported(ref s) => ErrorView::EditionUnsupported(s@),
            ManifestError::FeatureGate(c) => ErrorView::FeatureGate(c),
            ManifestError::UnknownFeature(ref s) => ErrorView::UnknownFeature(s@),
            ManifestError::BothResolvers => ErrorView::BothResolvers,
            ManifestError::InvalidResolveBehavior(ref s) => ErrorView::InvalidResolveBehavior(s@),
            ManifestError::LinksWithoutBuildScript { ref package, ref links } => ErrorView::LinksWithoutBuildScript {
                package: package@,
                links: links@,
            },
            ManifestError::DependencySourceConflict(ref s) => ErrorView::DependencySourceConflict(s@),
            ManifestError::DefaultRunMissing { ref target, ref suggestion } => ErrorView::DefaultRunMissing {
                target: target@,
                suggestion: suggestion.deep_view(),
            },
            ManifestError::PublicOnNonNormalDependency { ref dep, kind } => ErrorView::PublicOnNonNormalDependency {
                dep: dep@,
                kind,
            },
            ManifestError::VirtualManifestSection(s) => ErrorView::VirtualManifestSection(s),
            ManifestError::VirtualWithoutWorkspace => ErrorView::VirtualWithoutWorkspace,
            ManifestError::ReplaceWithPatch => ErrorView::ReplaceWithPatch,
            ManifestError::InvalidPackageIdSpec(ref s) => ErrorView::InvalidPackageIdSpec(s@),
            ManifestError::ReplaceHasVersionReq(ref s) => ErrorView::ReplaceHasVersionReq(s@),
            ManifestError::ReplaceNeedsVersion(ref s) => ErrorView::ReplaceNeedsVersion(s@),
            ManifestError::PatchKeyInvalid(ref s) => ErrorView::PatchKeyInvalid(s@),
            ManifestError::UnknownRegistry(ref s) => ErrorView::UnknownRegistry(s@),
            ManifestError::AmbiguousGitRegistry(ref s) => ErrorView::AmbiguousGitRegistry(s@),
            ManifestError::AmbiguousRegistryIndex(ref s) => ErrorView::AmbiguousRegistryIndex(s@),
            ManifestError::InvalidGitUrl { ref dep, ref url } => ErrorView::InvalidGitUrl {
                dep: dep@,
                url: url@,
            },
            ManifestError::InvalidRegistryUrl { ref dep, ref url } => ErrorView::InvalidRegistryUrl {
                dep: dep@,
                url: url@,
            },
            ManifestError::InvalidVersionReq { ref dep, ref req } => ErrorView::InvalidVersionReq {
                dep: dep@,
                req: req@,
            },
            ManifestError::PlatformInvalid { ref name } => ErrorView::PlatformInvalid { name: name@ },
            ManifestError::ProfileNestedPackage => ErrorView::ProfileNestedPackage,
            ManifestError::ProfileNestedBuildOverride => ErrorView::ProfileNestedBuildOverride,
            ManifestError::ProfileSettingInOverride { setting, which } => ErrorView::ProfileSettingInOverride {
                setting,
                which,
            },
            ManifestError::InvalidPanicSetting(ref s) => ErrorView::InvalidPanicSetting(s@),
        }
    }
}

/// The mathematical shape of a warning.
pub ghost enum WarningView {
    UnusedKey(Seq<char>),
    UseDevProfile,
    DependencyMissingSource(Seq<char>),
    VersionReqMetadata { dep: Seq<char>, req: Seq<char> },
    GitKeyIgnored { dep: Seq<char>, key: GitRefKey },
    AmbiguousGitPath(Seq<char>),
    AmbiguousGitReference(Seq<char>),
    UrlFragmentIgnored { dep: Seq<char>, fragment: Seq<char> },
    ProfileDocDeprecated,
    ProfilePanicIgnored(Seq<char>),
    PublishLockfileDeprecated,
    DefaultFeaturesKey,
    LicenseAndLicenseFile,
    DuplicateBuildTargets(Seq<char>),
    PlatformCfg(Seq<char>),
}

impl DeepView for Warning {
    type V = WarningView;

    open spec fn deep_view(&self) -> WarningView {
        match *self {
            Warning::UnusedKey(ref s) => WarningView::UnusedKey(s@),
            Warning::UseDevProfile => WarningView::UseDevProfile,
            Warning::DependencyMissingSource(ref s) => WarningView::DependencyMissingSource(s@),
            Warning::VersionReqMetadata { ref dep, ref req } => WarningView::VersionReqMetadata {
                dep: dep@,
                req: req@,
            },
            Warning::GitKeyIgnored { ref dep, key } => WarningView::GitKeyIgnored {
                dep: dep@,
                key,
            },
            Warning::AmbiguousGitPath(ref s) => WarningView::AmbiguousGitPath(s@),
            Warning::AmbiguousGitReference(ref s) => WarningView::AmbiguousGitReference(s@),
            Warning::UrlFragmentIgnored { ref dep, ref fragment } => WarningView::UrlFragmentIgnored {
                dep: dep@,
                fragment: fragment@,
            },
            Warning::ProfileDocDeprecated => WarningView::ProfileDocDeprecated,
            Warning::ProfilePanicIgnored(ref s) => WarningView::ProfilePanicIgnored(s@),
            Warning::PublishLockfileDeprecated => WarningView::PublishLockfileDeprecated,
            Warning::DefaultFeaturesKey => WarningView::DefaultFeaturesKey,
            Warning::LicenseAndLicenseFile => WarningView::LicenseAndLicenseFile,
            Warning::DuplicateBuildTargets(ref s) => WarningView::DuplicateBuildTargets(s@),
            Warning::PlatformCfg(ref s) => WarningView::PlatformCfg(s@),
        }
    }
}

/// A `Result` read at the level of the operands' mathematical shapes.
pub open spec fn result_view<T: DeepView, E: DeepView>(r: Result<T, E>) -> Result<T::V, E::V> {
    match r {
        Ok(t) => Ok(t.deep_view()),
        Err(e) => Err(e.deep_view()),
    }
}

} // verus!
