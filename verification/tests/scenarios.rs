//! Concrete scenarios for the normalization core.

use manifest_core::depend::{
    DefinedTomlDependency, DepContext, TomlDependencyDetails, WorkspaceDetails,
};
use manifest_core::errors::{
    Capability, ManifestError, OverrideKind, Warning, WholeBuildSetting,
};
use manifest_core::ext::Version;
use manifest_core::features::FeatureSet;
use manifest_core::manifest::{
    ensure_buildable_targets, maybe_custom_build, Target, TargetKind,
};
use manifest_core::profiles::{ProfilePackageSpec, Strip, TomlProfile};
use manifest_core::source::{DepVersionReq, GitReference, PackageId, SourceIdentity};
use manifest_core::values::{MaybeWorkspace, StringOrBool};
use manifest_core::errors::InheritableField;
use manifest_core::project::ws_default;

fn base_context() -> DepContext {
    DepContext {
        pkgid: Some(PackageId {
            name: "demo".to_string(),
            version: Version {
                major: 0,
                minor: 1,
                patch: 0,
                pre: String::new(),
                build: String::new(),
            },
            source: SourceIdentity::PathSource("/pkg".to_string()),
        }),
        deps: Vec::new(),
        source: SourceIdentity::PathSource("/pkg".to_string()),
        nested_paths: Vec::new(),
        warnings: Vec::new(),
        platform: None,
        root: "/pkg".to_string(),
        features: FeatureSet::new(&Vec::new()).unwrap(),
    }
}

fn details() -> TomlDependencyDetails {
    TomlDependencyDetails::new()
}

#[test]
fn version_only_dependency_uses_default_registry() {
    let mut cx = base_context();
    let mut d = details();
    d.version = Some("1.0".to_string());
    let dep = d.to_dependency("foo", &mut cx, None).unwrap();
    assert_eq!(dep.source, SourceIdentity::DefaultRegistry);
    assert_eq!(dep.version_req, DepVersionReq::Req("1.0".to_string()));
    assert!(dep.default_features);
    assert!(!dep.optional);
    assert!(cx.warnings.is_empty());
}

#[test]
fn git_with_tag_and_branch_warns_and_takes_branch_first() {
    let mut cx = base_context();
    let mut d = details();
    d.git = Some("https://example.com/repo".to_string());
    d.tag = Some("v1".to_string());
    d.branch = Some("main".to_string());
    let dep = d.to_dependency("foo", &mut cx, None).unwrap();
    match dep.source {
        SourceIdentity::Git { url, reference } => {
            assert_eq!(url, "https://example.com/repo".to_string());
            assert_eq!(reference, GitReference::Branch("main".to_string()));
        },
        other => panic!("unexpected source: {:?}", other),
    }
    assert!(cx
        .warnings
        .iter()
        .any(|w| matches!(w, Warning::AmbiguousGitReference(n) if n == "foo")));
}

#[test]
fn git_without_reference_key_follows_default_branch() {
    let mut cx = base_context();
    let mut d = details();
    d.git = Some("https://example.com/repo".to_string());
    let dep = d.to_dependency("foo", &mut cx, None).unwrap();
    match dep.source {
        SourceIdentity::Git { reference, .. } => {
            assert_eq!(reference, GitReference::DefaultBranch);
        },
        other => panic!("unexpected source: {:?}", other),
    }
}

#[test]
fn git_with_registry_is_ambiguous() {
    let mut cx = base_context();
    let mut d = details();
    d.git = Some("https://example.com/repo".to_string());
    d.registry = Some("alt".to_string());
    let err = d.to_dependency("foo", &mut cx, None).unwrap_err();
    assert_eq!(err, ManifestError::AmbiguousGitRegistry("foo".to_string()));
}

#[test]
fn registry_name_and_registry_url_are_ambiguous() {
    let mut cx = base_context();
    let mut d = details();
    d.registry = Some("alt".to_string());
    d.registry_index = Some("https://example.com/index".to_string());
    let err = d.to_dependency("foo", &mut cx, None).unwrap_err();
    assert_eq!(err, ManifestError::AmbiguousRegistryIndex("foo".to_string()));
}

#[test]
fn path_dependency_normalizes_against_package_root() {
    let mut cx = base_context();
    let mut d = details();
    d.path = Some("../lib/./util".to_string());
    let dep = d.to_dependency("util", &mut cx, None).unwrap();
    assert_eq!(dep.source, SourceIdentity::PathSource("/lib/util".to_string()));
    assert_eq!(cx.nested_paths, vec!["../lib/./util".to_string()]);
}

#[test]
fn missing_source_keys_warn() {
    let mut cx = base_context();
    let d = details();
    let dep = d.to_dependency("bare", &mut cx, None).unwrap();
    assert_eq!(dep.source, SourceIdentity::DefaultRegistry);
    assert!(cx
        .warnings
        .iter()
        .any(|w| matches!(w, Warning::DependencyMissingSource(n) if n == "bare")));
}

#[test]
fn workspace_dependency_merges_member_optional() {
    let ws_dep = DefinedTomlDependency::Simple("2.0".to_string());
    let member = WorkspaceDetails { features: None, optional: Some(true) };
    let merged = DefinedTomlDependency::from_workspace_dependency(&member, &ws_dep, None);
    match merged {
        DefinedTomlDependency::Detailed(d) => {
            assert_eq!(d.version, Some("2.0".to_string()));
            assert_eq!(d.optional, Some(true));
        },
        other => panic!("unexpected shape: {:?}", other),
    }
}

#[test]
fn panic_in_package_override_is_fatal() {
    let mut inner = TomlProfile::new();
    inner.panic = Some("abort".to_string());
    let mut profile = TomlProfile::new();
    profile.package = Some(vec![(ProfilePackageSpec::All, inner)]);
    let features = FeatureSet::new(&vec!["profile-overrides".to_string()]).unwrap();
    let mut warnings: Vec<Warning> = Vec::new();
    let err = profile.validate("release", &features, &mut warnings).unwrap_err();
    assert_eq!(
        err,
        ManifestError::ProfileSettingInOverride {
            setting: WholeBuildSetting::PanicStrategy,
            which: OverrideKind::PackageOverride,
        },
    );
}

#[test]
fn invalid_panic_setting_is_fatal() {
    let mut profile = TomlProfile::new();
    profile.panic = Some("sideways".to_string());
    let features = FeatureSet::new(&Vec::new()).unwrap();
    let mut warnings: Vec<Warning> = Vec::new();
    let err = profile.validate("release", &features, &mut warnings).unwrap_err();
    assert_eq!(err, ManifestError::InvalidPanicSetting("sideways".to_string()));
}

#[test]
fn merge_prefers_subordinate_values() {
    let mut base = TomlProfile::new();
    base.codegen_units = Some(16);
    base.strip = Some(Strip::NoStrip);
    let mut over = TomlProfile::new();
    over.codegen_units = Some(1);
    base.merge(&over);
    assert_eq!(base.codegen_units, Some(1));
    assert_eq!(base.strip, Some(Strip::NoStrip));
}

#[test]
fn only_build_script_targets_is_fatal() {
    let targets = vec![Target {
        name: "build-script-build".to_string(),
        kind: TargetKind::CustomBuild,
        src_path: Some("build.rs".to_string()),
    }];
    assert_eq!(ensure_buildable_targets(&targets), Err(ManifestError::NoTargets));
    let with_lib = vec![
        Target {
            name: "build-script-build".to_string(),
            kind: TargetKind::CustomBuild,
            src_path: Some("build.rs".to_string()),
        },
        Target {
            name: "demo".to_string(),
            kind: TargetKind::LibTarget,
            src_path: Some("src/lib.rs".to_string()),
        },
    ];
    assert!(ensure_buildable_targets(&with_lib).is_ok());
}

#[test]
fn custom_build_selection_honours_explicit_toggle() {
    assert_eq!(maybe_custom_build(&Some(StringOrBool::Flag(false)), "/pkg", true), None);
    assert_eq!(
        maybe_custom_build(&None, "/pkg", true),
        Some("/pkg/build.rs".to_string()),
    );
    assert_eq!(maybe_custom_build(&None, "/pkg", false), None);
}

#[test]
fn unknown_capability_is_rejected() {
    let err = FeatureSet::new(&vec!["sideways".to_string()]).unwrap_err();
    assert_eq!(err, ManifestError::UnknownFeature("sideways".to_string()));
}

#[test]
fn defined_field_resolution_ignores_workspace() {
    let r = ws_default(
        Some(MaybeWorkspace::Defined("x".to_string())),
        Some("y".to_string()),
        true,
        InheritableField::License,
    );
    assert_eq!(r, Ok(Some("x".to_string())));
    let r2 = ws_default(
        Some(MaybeWorkspace::Workspace),
        None::<String>,
        true,
        InheritableField::License,
    );
    assert_eq!(r2, Err(ManifestError::WorkspaceFieldMissing(InheritableField::License)));
}

