//! Source identities: the resolved origin of a dependency, and the fully
//! specified dependency record the materializer produces.

use vstd::prelude::*;
use crate::errors::DepKind;
use crate::ext::{Version, VersionView};
use crate::strutil::{opt_str_eq, str_eq};

verus! {

/// Which point of a version-control history a dependency follows.
#[derive(Debug, Clone, PartialEq, Eq)]
pub enum GitReference {
    Branch(String),
    Tag(String),
    Rev(String),
    DefaultBranch,
}

/// The mathematical shape of a version-control reference.
pub ghost enum GitReferenceView {
    Branch(Seq<char>),
    Tag(Seq<char>),
    Rev(Seq<char>),
    DefaultBranch,
}

impl DeepView for GitReference {
    type V = GitReferenceView;

    open spec fn deep_view(&self) -> GitReferenceView {
        match *self {
            GitReference::Branch(ref s) => GitReferenceView::Branch(s@),
            GitReference::Tag(ref s) => GitReferenceView::Tag(s@),
            GitReference::Rev(ref s) => GitReferenceView::Rev(s@),
            GitReference::DefaultBranch => GitReferenceView::DefaultBranch,
        }
    }
}

/// The one origin a dependency resolves to: the default registry, a named
/// alternate registry, an explicit registry URL, a filesystem path, or a
/// version-control location with its reference.
#[derive(Debug, Clone, PartialEq, Eq)]
pub enum SourceIdentity {
    DefaultRegistry,
    AltRegistry(String),
    RegistryUrl(String),
    PathSource(String),
    Git { url: String, reference: GitReference },
}

/// The mathematical shape of a source identity.
pub ghost enum SourceIdentityView {
    DefaultRegistry,
    AltRegistry(Seq<char>),
    RegistryUrl(Seq<char>),
    PathSource(Seq<char>),
    Git { url: Seq<char>, reference: GitReferenceView },
}

impl DeepView for SourceIdentity {
    type V = SourceIdentityView;

    open spec fn deep_view(&self) -> SourceIdentityView {
        match *self {
            SourceIdentity::DefaultRegistry => SourceIdentityView::DefaultRegistry,
            SourceIdentity::AltRegistry(ref s) => SourceIdentityView::AltRegistry(s@),
            SourceIdentity::RegistryUrl(ref s) => SourceIdentityView::RegistryUrl(s@),
            SourceIdentity::PathSource(ref s) => SourceIdentityView::PathSource(s@),
            SourceIdentity::Git { ref url, ref reference } => SourceIdentityView::Git {
                url: url@,
                reference: reference.deep_view(),
            },
        }
    }
}

impl GitReference {
    /// Copies a reference.
    pub fn duplicate(&self) -> (r: GitReference)
        ensures
            r.deep_view() == self.deep_view(),
    {
        match self {
            GitReference::Branch(s) => GitReference::Branch(s.clone()),
            GitReference::Tag(s) => GitReference::Tag(s.clone()),
            GitReference::Rev(s) => GitReference::Rev(s.clone()),
            GitReference::DefaultBranch => GitReference::DefaultBranch,
        }
    }

    /// Equality of two references, read at the view level.
    pub fn same(&self, other: &GitReference) -> (r: bool)
        ensures
            r == (self.deep_view() == other.deep_view()),
    {
        match (self, other) {
            (GitReference::Branch(a), GitReference::Branch(b)) => str_eq(a.as_str(), b.as_str()),
            (GitReference::Tag(a), GitReference::Tag(b)) => str_eq(a.as_str(), b.as_str()),
            (GitReference::Rev(a), GitReference::Rev(b)) => str_eq(a.as_str(), b.as_str()),
            (GitReference::DefaultBranch, GitReference::DefaultBranch) => true,
            _ => false,
        }
    }
}

impl SourceIdentity {
    /// Copies a source identity.
    pub fn duplicate(&self) -> (r: SourceIdentity)
        ensures
            r.deep_view() == self.deep_view(),
    {
        match self {
            SourceIdentity::DefaultRegistry => SourceIdentity::DefaultRegistry,
            SourceIdentity::AltRegistry(s) => SourceIdentity::AltRegistry(s.clone()),
            SourceIdentity::RegistryUrl(s) => SourceIdentity::RegistryUrl(s.clone()),
            SourceIdentity::PathSource(s) => SourceIdentity::PathSource(s.clone()),
            SourceIdentity::Git { url, reference } => SourceIdentity::Git {
                url: url.clone(),
                reference: reference.duplicate(),
            },
        }
    }

    /// Equality of two source identities, read at the view level.
    pub fn same(&self, other: &SourceIdentity) -> (r: bool)
        ensures
            r == (self.deep_view() == other.deep_view()),
    {
        match (self, other) {
            (SourceIdentity::DefaultRegistry, SourceIdentity::DefaultRegistry) => true,
            (SourceIdentity::AltRegistry(a), SourceIdentity::AltRegistry(b)) => str_eq(
                a.as_str(),
                b.as_str(),
            ),
            (SourceIdentity::RegistryUrl(a), SourceIdentity::RegistryUrl(b)) => str_eq(
                a.as_str(),
                b.as_str(),
            ),
            (SourceIdentity::PathSource(a), SourceIdentity::PathSource(b)) => str_eq(
                a.as_str(),
                b.as_str(),
            ),
            (
                SourceIdentity::Git { url: a, reference: ra },
                SourceIdentity::Git { url: b, reference: rb },
            ) => str_eq(a.as_str(), b.as_str()) && ra.same(rb),
            _ => false,
        }
    }

    /// Whether this identity is a filesystem path.
    pub fn is_path(&self) -> (r: bool)
        ensures
            r == (self.deep_view() is PathSource),
    {
        matches!(self, SourceIdentity::PathSource(_))
    }
}

/// What constrains the version of a dependency: nothing, a requirement
/// text, or one exact version.
#[derive(Debug, Clone, PartialEq, Eq)]
pub enum DepVersionReq {
    AnyVersion,
    Req(String),
    Exact(Version),
}

/// The mathematical shape of a version constraint.
pub ghost enum DepVersionReqView {
    AnyVersion,
    Req(Seq<char>),
    Exact(VersionView),
}

impl DeepView for DepVersionReq {
    type V = DepVersionReqView;

    open spec fn deep_view(&self) -> DepVersionReqView {
        match *self {
            DepVersionReq::AnyVersion => DepVersionReqView::AnyVersion,
            DepVersionReq::Req(ref s) => DepVersionReqView::Req(s@),
            DepVersionReq::Exact(ref v) => DepVersionReqView::Exact(v.deep_view()),
        }
    }
}

/// One fully specified dependency, bound to its source identity.
#[derive(Debug, Clone, PartialEq, Eq)]
pub struct Dependency {
    /// The package name used by the dependency graph.
    pub name: String,
    /// The declared table key, kept when `package =` renames the package.
    pub explicit_name_in_toml: Option<String>,
    pub version_req: DepVersionReq,
    pub source: SourceIdentity,
    /// The registry the dependency's own versions come from, when the
    /// declaration names one besides a path source.
    pub registry_id: Option<SourceIdentity>,
    pub features: Vec<String>,
    pub default_features: bool,
    pub optional: bool,
    pub public: bool,
    pub kind: DepKind,
    pub platform: Option<String>,
}

/// The mathematical shape of a dependency record.
pub ghost struct DependencyView {
    pub name: Seq<char>,
    pub explicit_name_in_toml: Option<Seq<char>>,
    pub version_req: DepVersionReqView,
    pub source: SourceIdentityView,
    pub registry_id: Option<SourceIdentityView>,
    pub features: Seq<Seq<char>>,
    pub default_features: bool,
    pub optional: bool,
    pub public: bool,
    pub kind: DepKind,
    pub platform: Option<Seq<char>>,
}

impl DeepView for Dependency {
    type V = DependencyView;

    open spec fn deep_view(&self) -> DependencyView {
        DependencyView {
            name: self.name@,
            explicit_name_in_toml: self.explicit_name_in_toml.deep_view(),
            version_req: self.version_req.deep_view(),
            source: self.source.deep_view(),
            registry_id: self.registry_id.deep_view(),
            features: self.features.deep_view(),
            default_features: self.default_features,
            optional: self.optional,
            public: self.public,
            kind: self.kind,
            platform: self.platform.deep_view(),
        }
    }
}

/// The name under which a dependency stands in the document.
pub open spec fn name_in_toml_spec(d: DependencyView) -> Seq<char> {
    match d.explicit_name_in_toml {
        Some(n) => n,
        None => d.name,
    }
}

impl Dependency {
    /// The name under which this dependency stands in the document.
    pub fn name_in_toml(&self) -> (r: &String)
        ensures
            r@ == name_in_toml_spec(self.deep_view()),
    {
        match &self.explicit_name_in_toml {
            Some(n) => n,
            None => &self.name,
        }
    }
}

/// The identity of one package: name, version and source.
#[derive(Debug, Clone, PartialEq, Eq)]
pub struct PackageId {
    pub name: String,
    pub version: Version,
    pub source: SourceIdentity,
}

/// The mathematical shape of a package identity.
pub ghost struct PackageIdView {
    pub name: Seq<char>,
    pub version: VersionView,
    pub source: SourceIdentityView,
}

impl DeepView for PackageId {
    type V = PackageIdView;

    open spec fn deep_view(&self) -> PackageIdView {
        PackageIdView {
            name: self.name@,
            version: self.version.deep_view(),
            source: self.source.deep_view(),
        }
    }
}

} // verus!
