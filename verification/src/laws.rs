//! The general laws of this library, each stated and proved over the spec
//! functions the public contracts use.

use vstd::prelude::*;
use crate::depend::{
    from_toml_dependency_spec, from_workspace_dependency_spec, git_reference_of, n_git_refs,
    source_outcome, to_dependency_spec, DefinedDependencyView, DefinedTomlDependency,
    DepDetailsView, TomlDependency, TomlDependencyView, WorkspaceDetailsView,
};
use crate::errors::{ErrorView, InheritableField, WarningView};
use crate::ext::url_parse;
use crate::features::FeatureSet;
use crate::project::ws_default_spec;
use crate::source::{GitReferenceView, SourceIdentityView};
use crate::values::MaybeWorkspace;

verus! {

/// A dependency with a version-control location and no explicit reference
/// key follows the default branch.
pub proof fn lemma_default_branch_reference(d: DepDetailsView)
    requires
        d.branch is None,
        d.tag is None,
        d.rev is None,
    ensures
        git_reference_of(d) == GitReferenceView::DefaultBranch,
{
}

/// Two or more reference keys on a version-control dependency do not
/// fail materialization: the source still derives, and the ambiguity is
/// flagged as a warning.
pub proof fn lemma_ambiguous_reference_warns(
    d: DepDetailsView,
    name: Seq<char>,
    cx_source: SourceIdentityView,
    root: Seq<char>,
)
    requires
        d.git is Some,
        d.registry is None,
        d.registry_index is None,
        url_parse(d.git->0) is Some,
        n_git_refs(d) > 1,
    ensures
        source_outcome(d, name, cx_source, root).result is Ok,
        source_outcome(d, name, cx_source, root).warnings.contains(
            WarningView::AmbiguousGitReference(name),
        ),
{
    let so = source_outcome(d, name, cx_source, root);
    let w1: Seq<WarningView> = if d.path is Some {
        seq![WarningView::AmbiguousGitPath(name)]
    } else {
        Seq::empty()
    };
    assert(so.warnings[w1.len() as int] == WarningView::AmbiguousGitReference(name));
}

/// A version-control location combined with a registry name or registry
/// URL fails materialization outright.
pub proof fn lemma_git_with_registry_fails(
    d: DepDetailsView,
    name: Seq<char>,
    cx_source: SourceIdentityView,
    root: Seq<char>,
    platform: Option<Seq<char>>,
    fs: FeatureSet,
)
    requires
        d.git is Some,
        d.registry is Some || d.registry_index is Some,
    ensures
        source_outcome(d, name, cx_source, root).result == Err::<
            SourceIdentityView,
            ErrorView,
        >(ErrorView::AmbiguousGitRegistry(name)),
        to_dependency_spec(d, name, cx_source, root, platform, fs, None).result == Err::<
            crate::source::DependencyView,
            ErrorView,
        >(ErrorView::AmbiguousGitRegistry(name)),
{
}

/// Resolving an explicitly defined field yields that value, whatever the
/// workspace holds and whether one exists at all.
pub proof fn lemma_defined_resolution_idempotent<T>(
    x: T,
    ws_field: Option<T>,
    has_ws: bool,
    field: InheritableField,
)
    ensures
        ws_default_spec(Some(MaybeWorkspace::Defined(x)), ws_field, has_ws, field) == Ok::<
            Option<T>,
            ErrorView,
        >(Some(x)),
{
}

/// A delegated field resolved against a workspace that lacks it fails
/// with an error naming the field and the workspace root.
pub proof fn lemma_delegation_needs_field<T>(field: InheritableField, ws_field: Option<T>)
    ensures
        ws_field is None ==> ws_default_spec(
            Some(MaybeWorkspace::Workspace),
            ws_field,
            true,
            field,
        ) == Err::<Option<T>, ErrorView>(ErrorView::WorkspaceFieldMissing(field)),
        ws_default_spec(Some(MaybeWorkspace::Workspace), None::<T>, false, field) == Err::<
            Option<T>,
            ErrorView,
        >(ErrorView::WorkspaceRootMissing(field)),
{
}

/// Canonicalizing a declaration that delegates nothing keeps it as it
/// is: written back in the document shape, it reads the same. This is
/// the round-trip property at the level where canonicalization changes
/// anything at all.
pub proof fn lemma_roundtrip_no_delegation(
    dep: TomlDependency,
    name: Seq<char>,
    ws_deps: Seq<(String, DefinedTomlDependency)>,
    root: Option<Seq<char>>,
)
    requires
        !(dep.deep_view() is Workspace),
    ensures
        from_toml_dependency_spec(dep.deep_view(), name, ws_deps, root) matches Ok(dd) && (match dd {
            DefinedDependencyView::Simple(s) => TomlDependencyView::Simple(s),
            DefinedDependencyView::Detailed(det) => TomlDependencyView::Detailed(det),
        }) == dep.deep_view(),
{
}

} // verus!

verus! {

/// A resolved table's views written back in the document shape.
pub open spec fn views_to_toml(s: Seq<(Seq<char>, DefinedDependencyView)>) -> Seq<
    (Seq<char>, TomlDependencyView),
> {
    Seq::new(
        s.len(),
        |i: int|
            (
                s[i].0,
                match s[i].1 {
                    DefinedDependencyView::Simple(x) => TomlDependencyView::Simple(x),
                    DefinedDependencyView::Detailed(d) => TomlDependencyView::Detailed(d),
                },
            ),
    )
}

/// A raw table read at the view level.
pub open spec fn raw_table_views(deps: Seq<(String, TomlDependency)>) -> Seq<
    (Seq<char>, TomlDependencyView),
> {
    Seq::new(deps.len(), |i: int| (deps[i].0@, deps[i].1.deep_view()))
}

/// Writing a resolved table back in the document shape reads the same
/// whether done on the values or on their views.
pub proof fn lemma_to_toml_view_commutes(d: Vec<(String, DefinedTomlDependency)>)
    ensures
        crate::depend::to_toml_deps_view(d@) == views_to_toml(d.deep_view()),
{
    assert(crate::depend::to_toml_deps_view(d@) =~= views_to_toml(d.deep_view()));
}

/// Canonicalizing a whole dependency table with no delegated entry and
/// writing it back yields a table that reads as the input: the round
/// trip over canonicalization is the identity on delegation-free tables.
/// Together with the contracts of `from_toml_manifest` and
/// `into_toml_manifest`, this pins the round trip of a descriptor that
/// used no workspace delegation, table by table.
pub proof fn lemma_roundtrip_table(
    deps: Seq<(String, TomlDependency)>,
    ws_deps: Seq<(String, DefinedTomlDependency)>,
    root: Option<Seq<char>>,
)
    requires
        forall|i: int|
            0 <= i < deps.len() ==> !((#[trigger] deps[i].1).deep_view() is Workspace),
    ensures
        crate::depend::map_defined(deps, ws_deps, root) matches Ok(out) && views_to_toml(out)
            == raw_table_views(deps),
    decreases deps.len(),
{
    if deps.len() == 0 {
        assert(views_to_toml(Seq::empty()) =~= raw_table_views(deps));
    } else {
        assert(!(deps[0].1.deep_view() is Workspace));
        assert forall|i: int|
            0 <= i < deps.drop_first().len() implies !((#[trigger] deps.drop_first()[i].1).deep_view()
            is Workspace) by {
            assert(deps.drop_first()[i] == deps[i + 1]);
            assert(!(deps[i + 1].1.deep_view() is Workspace));
        }
        lemma_roundtrip_table(deps.drop_first(), ws_deps, root);
        let head = from_toml_dependency_spec(deps[0].1.deep_view(), deps[0].0@, ws_deps, root);
        let rest = crate::depend::map_defined(deps.drop_first(), ws_deps, root);
        assert(head is Ok && rest is Ok);
        let out = crate::depend::map_defined(deps, ws_deps, root)->Ok_0;
        assert(views_to_toml(out) =~= raw_table_views(deps)) by {
            assert(out == seq![(deps[0].0@, head->Ok_0)] + rest->Ok_0);
            assert(views_to_toml(rest->Ok_0).len() == rest->Ok_0.len());
            assert(raw_table_views(deps.drop_first()).len() == deps.len() - 1);
            assert(rest->Ok_0.len() == deps.len() - 1);
            assert(out.len() == deps.len());
            assert forall|i: int| 0 <= i < deps.len() implies views_to_toml(out)[i]
                == raw_table_views(deps)[i] by {
                if i == 0 {
                    assert(out[0] == (deps[0].0@, head->Ok_0));
                } else {
                    assert(0 <= i - 1 < rest->Ok_0.len());
                    assert(out[i] == rest->Ok_0[i - 1]);
                    assert(views_to_toml(rest->Ok_0)[i - 1] == raw_table_views(
                        deps.drop_first(),
                    )[i - 1]);
                    assert(raw_table_views(deps.drop_first())[i - 1] == (
                        deps[i].0@,
                        deps[i].1.deep_view(),
                    ));
                }
            }
        }
    }
}

} // verus!
