//! Scenarios for manifest assembly: the package case, the workspace-root
//! case, publishing, and reading a whole document.

use manifest_core::depend::{DefinedTomlDependency, TomlDependency, TomlDependencyDetails};
use manifest_core::errors::{ManifestError, SectionKind, Warning};
use manifest_core::ext::Version;
use manifest_core::manifest::{
    do_read_manifest, DefinedTomlManifest, EitherManifest, Target, TargetKind, TomlManifest,
};
use manifest_core::pkgid::PackageIdSpec;
use manifest_core::project::{DefinedTomlPackage, TomlProject, TomlWorkspace};
use manifest_core::source::SourceIdentity;
use manifest_core::values::MaybeWorkspace;
use manifest_core::errors::InheritableField;

fn version(major: u64, minor: u64, patch: u64) -> Version {
    Version { major, minor, patch, pre: String::new(), build: String::new() }
}

fn empty_workspace_table() -> TomlWorkspace {
    TomlWorkspace {
        members: None,
        default_members: None,
        exclude: None,
        metadata: None,
        resolver: None,
        dependencies: None,
        version: None,
        authors: None,
        description: None,
        documentation: None,
        readme: None,
        homepage: None,
        repository: None,
        license: None,
        license_file: None,
        keywords: None,
        categories: None,
        publish: None,
        edition: None,
        badges: None,
    }
}

fn empty_defined_manifest() -> DefinedTomlManifest {
    DefinedTomlManifest {
        cargo_features: None,
        package: None,
        profile: None,
        lib: None,
        bin: None,
        example: None,
        test: None,
        bench: None,
        dependencies: None,
        dev_dependencies: None,
        build_dependencies: None,
        features: None,
        target: None,
        replace: None,
        patch: None,
        workspace: None,
        badges: None,
    }
}

fn package_section(name: &str) -> DefinedTomlPackage {
    DefinedTomlPackage {
        edition: None,
        name: name.to_string(),
        version: version(0, 1, 0),
        authors: None,
        build: None,
        metabuild: None,
        links: None,
        exclude: None,
        keep: None,
        publish: None,
        publish_lockfile: None,
        workspace: None,
        im_a_teapot: None,
        autobins: None,
        autoexamples: None,
        autotests: None,
        autobenches: None,
        namespaced_features: None,
        default_run: None,
        description: None,
        homepage: None,
        documentation: None,
        readme: None,
        keywords: None,
        categories: None,
        license: None,
        license_file: None,
        repository: None,
        metadata: None,
        resolver: None,
    }
}

fn raw_manifest() -> TomlManifest {
    TomlManifest {
        cargo_features: None,
        package: None,
        project: None,
        profile: None,
        lib: None,
        bin: None,
        example: None,
        test: None,
        bench: None,
        dependencies: None,
        dev_dependencies: None,
        dev_dependencies2: None,
        build_dependencies: None,
        build_dependencies2: None,
        features: None,
        target: None,
        replace: None,
        patch: None,
        workspace: None,
        badges: None,
    }
}

fn raw_project(name: &str) -> TomlProject {
    TomlProject {
        edition: None,
        name: name.to_string(),
        version: MaybeWorkspace::Defined(version(0, 1, 0)),
        authors: None,
        build: None,
        metabuild: None,
        links: None,
        exclude: None,
        keep: None,
        publish: None,
        publish_lockfile: None,
        workspace: None,
        im_a_teapot: None,
        autobins: None,
        autoexamples: None,
        autotests: None,
        autobenches: None,
        namespaced_features: None,
        default_run: None,
        description: None,
        homepage: None,
        documentation: None,
        readme: Some(MaybeWorkspace::Defined(
            manifest_core::values::StringOrBool::Flag(false),
        )),
        keywords: None,
        categories: None,
        license: None,
        license_file: None,
        repository: None,
        metadata: None,
        resolver: None,
    }
}

fn lib_target(name: &str) -> Target {
    Target {
        name: name.to_string(),
        kind: TargetKind::LibTarget,
        src_path: Some("src/lib.rs".to_string()),
    }
}

#[test]
fn virtual_manifest_rejects_dependencies_section() {
    let mut m = empty_defined_manifest();
    m.workspace = Some(empty_workspace_table());
    m.dependencies = Some(vec![(
        "foo".to_string(),
        DefinedTomlDependency::Simple("1.0".to_string()),
    )]);
    let err = m
        .into_virtual_manifest(SourceIdentity::PathSource("/ws".to_string()), "/ws")
        .unwrap_err();
    assert_eq!(
        err,
        ManifestError::VirtualManifestSection(SectionKind::DependenciesSection),
    );
}

#[test]
fn virtual_manifest_with_workspace_only_succeeds() {
    let mut m = empty_defined_manifest();
    m.workspace = Some(empty_workspace_table());
    let (vm, paths) = m
        .into_virtual_manifest(SourceIdentity::PathSource("/ws".to_string()), "/ws")
        .unwrap();
    assert!(vm.replace.is_empty());
    assert!(vm.patch.is_empty());
    assert!(vm.warnings.is_empty());
    assert!(paths.is_empty());
}

#[test]
fn real_manifest_keeps_its_source_identity() {
    let mut m = empty_defined_manifest();
    m.package = Some(package_section("demo"));
    let (built, _paths) = m
        .into_real_manifest(
            SourceIdentity::PathSource("/pkg".to_string()),
            "/pkg",
            None,
            vec![lib_target("demo")],
            Vec::new(),
            Vec::new(),
        )
        .unwrap();
    assert_eq!(
        built.summary.package_id.source,
        SourceIdentity::PathSource("/pkg".to_string()),
    );
    assert_eq!(built.summary.package_id.name, "demo".to_string());
}

#[test]
fn both_resolvers_is_fatal() {
    let mut m = empty_defined_manifest();
    let mut p = package_section("demo");
    p.resolver = Some("2".to_string());
    m.package = Some(p);
    let mut ws = empty_workspace_table();
    ws.resolver = Some("2".to_string());
    m.workspace = Some(ws);
    m.cargo_features = Some(vec!["resolver".to_string()]);
    let err = m
        .into_real_manifest(
            SourceIdentity::PathSource("/pkg".to_string()),
            "/pkg",
            None,
            vec![lib_target("demo")],
            Vec::new(),
            Vec::new(),
        )
        .unwrap_err();
    assert_eq!(err, ManifestError::BothResolvers);
}

#[test]
fn default_run_must_name_a_binary() {
    let mut m = empty_defined_manifest();
    let mut p = package_section("demo");
    p.default_run = Some("demot".to_string());
    m.package = Some(p);
    let targets = vec![
        lib_target("demo"),
        Target {
            name: "demo-cli".to_string(),
            kind: TargetKind::BinTarget,
            src_path: Some("src/main.rs".to_string()),
        },
    ];
    let err = m
        .into_real_manifest(
            SourceIdentity::PathSource("/pkg".to_string()),
            "/pkg",
            None,
            targets,
            Vec::new(),
            Vec::new(),
        )
        .unwrap_err();
    assert_eq!(
        err,
        ManifestError::DefaultRunMissing {
            target: "demot".to_string(),
            suggestion: Some("demo-cli".to_string()),
        },
    );
}

#[test]
fn license_and_license_file_warns() {
    let mut m = empty_defined_manifest();
    let mut p = package_section("demo");
    p.license = Some("MIT".to_string());
    p.license_file = Some("COPYING".to_string());
    m.package = Some(p);
    let (built, _paths) = m
        .into_real_manifest(
            SourceIdentity::PathSource("/pkg".to_string()),
            "/pkg",
            None,
            vec![lib_target("demo")],
            Vec::new(),
            Vec::new(),
        )
        .unwrap();
    assert_eq!(built.warnings.first(), Some(&Warning::LicenseAndLicenseFile));
}

#[test]
fn publish_strips_unversioned_dev_dependencies_and_paths() {
    let mut m = empty_defined_manifest();
    m.package = Some(package_section("demo"));
    let mut path_dep = TomlDependencyDetails::new();
    path_dep.version = Some("1.0".to_string());
    path_dep.path = Some("../util".to_string());
    let mut dev_dep = TomlDependencyDetails::new();
    dev_dep.path = Some("../devtool".to_string());
    m.dependencies = Some(vec![(
        "util".to_string(),
        DefinedTomlDependency::Detailed(path_dep),
    )]);
    m.dev_dependencies = Some(vec![(
        "devtool".to_string(),
        DefinedTomlDependency::Detailed(dev_dep),
    )]);
    let out = m.prepare_for_publish(&Vec::new(), None, "/pkg").unwrap();
    let deps = out.dependencies.unwrap();
    match &deps[0].1 {
        DefinedTomlDependency::Detailed(d) => {
            assert_eq!(d.version, Some("1.0".to_string()));
            assert_eq!(d.path, None);
        },
        other => panic!("unexpected shape: {:?}", other),
    }
    assert!(out.dev_dependencies.unwrap().is_empty());
    assert!(out.workspace.is_none());
}

#[test]
fn publish_elaborates_registry_names_and_rewrites_license_file() {
    let mut m = empty_defined_manifest();
    let mut p = package_section("demo");
    p.license_file = Some("../COPYING".to_string());
    m.package = Some(p);
    let mut reg_dep = TomlDependencyDetails::new();
    reg_dep.version = Some("1.0".to_string());
    reg_dep.registry = Some("alt".to_string());
    m.dependencies = Some(vec![(
        "foo".to_string(),
        DefinedTomlDependency::Detailed(reg_dep),
    )]);
    let urls = vec![("alt".to_string(), "https://example.com/index".to_string())];
    let out = m.prepare_for_publish(&urls, None, "/pkg").unwrap();
    match &out.dependencies.unwrap()[0].1 {
        DefinedTomlDependency::Detailed(d) => {
            assert_eq!(d.registry, None);
            assert_eq!(d.registry_index, Some("https://example.com/index".to_string()));
        },
        other => panic!("unexpected shape: {:?}", other),
    }
    assert_eq!(out.package.unwrap().license_file, Some("COPYING".to_string()));
    let err = m.prepare_for_publish(&Vec::new(), None, "/pkg").unwrap_err();
    assert_eq!(err, ManifestError::UnknownRegistry("alt".to_string()));
}

#[test]
fn reading_a_build_script_only_package_is_fatal() {
    let mut raw = raw_manifest();
    raw.package = Some(Box::new(raw_project("demo")));
    let targets = vec![Target {
        name: "build-script-build".to_string(),
        kind: TargetKind::CustomBuild,
        src_path: Some("build.rs".to_string()),
    }];
    let err = do_read_manifest(
        raw,
        None,
        None,
        "/pkg",
        &Vec::new(),
        SourceIdentity::PathSource("/pkg".to_string()),
        targets,
        Vec::new(),
        Vec::new(),
        &Vec::new(),
    )
    .unwrap_err();
    assert_eq!(err, ManifestError::NoTargets);
}

#[test]
fn optional_workspace_dependency_is_fatal() {
    let mut raw = raw_manifest();
    let mut ws = empty_workspace_table();
    let mut d = TomlDependencyDetails::new();
    d.version = Some("1.0".to_string());
    d.optional = Some(true);
    ws.dependencies = Some(vec![("foo".to_string(), DefinedTomlDependency::Detailed(d))]);
    raw.workspace = Some(ws);
    let err = do_read_manifest(
        raw,
        None,
        None,
        "/ws",
        &Vec::new(),
        SourceIdentity::PathSource("/ws".to_string()),
        Vec::new(),
        Vec::new(),
        Vec::new(),
        &Vec::new(),
    )
    .unwrap_err();
    assert_eq!(err, ManifestError::WorkspaceDependencyOptional("foo".to_string()));
}

#[test]
fn reading_a_workspace_root_document_yields_the_virtual_shape() {
    let mut raw = raw_manifest();
    raw.workspace = Some(empty_workspace_table());
    let (either, _paths) = do_read_manifest(
        raw,
        None,
        None,
        "/ws",
        &Vec::new(),
        SourceIdentity::PathSource("/ws".to_string()),
        Vec::new(),
        Vec::new(),
        Vec::new(),
        &vec!["badges.travis".to_string()],
    )
    .unwrap();
    match either {
        EitherManifest::Virtual(vm) => {
            assert_eq!(
                vm.warnings,
                vec![Warning::UnusedKey("badges.travis".to_string())],
            );
        },
        EitherManifest::Real(_) => panic!("expected the workspace-root-only shape"),
    }
}

#[test]
fn canonical_manifest_serializes_back_to_the_document_shape() {
    let mut m = empty_defined_manifest();
    m.package = Some(package_section("demo"));
    m.dependencies = Some(vec![(
        "foo".to_string(),
        DefinedTomlDependency::Simple("1.0".to_string()),
    )]);
    let raw = m.into_toml_manifest();
    let p = raw.package.unwrap();
    assert_eq!(p.name, "demo".to_string());
    assert!(matches!(p.version, MaybeWorkspace::Defined(ref v) if *v == version(0, 1, 0)));
    assert!(p.workspace.is_none());
    match &raw.dependencies.unwrap()[0].1 {
        TomlDependency::Simple(s) => assert_eq!(s, "1.0"),
        other => panic!("unexpected shape: {:?}", other),
    }
}

#[test]
fn url_qualified_package_id_specs_parse() {
    let s = PackageIdSpec::parse("https://example.com/foo#1.2.3").unwrap();
    assert_eq!(s.name, "foo".to_string());
    assert_eq!(s.version, Some(version(1, 2, 3)));
    assert_eq!(s.url, Some("https://example.com/foo".to_string()));
    let s2 = PackageIdSpec::parse("https://example.com/bar").unwrap();
    assert_eq!(s2.name, "bar".to_string());
    assert_eq!(s2.version, None);
    let s3 = PackageIdSpec::parse("https://example.com/baz#lib:0.2.0").unwrap();
    assert_eq!(s3.name, "lib".to_string());
    assert_eq!(s3.version, Some(version(0, 2, 0)));
}

#[test]
fn reading_a_plain_package_succeeds() {
    let mut raw = raw_manifest();
    raw.package = Some(Box::new(raw_project("demo")));
    raw.dependencies = Some(vec![(
        "foo".to_string(),
        TomlDependency::Simple("1.0".to_string()),
    )]);
    let (either, paths) = do_read_manifest(
        raw,
        None,
        None,
        "/pkg",
        &Vec::new(),
        SourceIdentity::PathSource("/pkg".to_string()),
        vec![lib_target("demo")],
        Vec::new(),
        Vec::new(),
        &Vec::new(),
    )
    .unwrap();
    match either {
        EitherManifest::Real(m) => {
            assert_eq!(m.summary.dependencies.len(), 1);
            assert_eq!(m.summary.dependencies[0].source, SourceIdentity::DefaultRegistry);
        },
        EitherManifest::Virtual(_) => panic!("expected a package manifest"),
    }
    assert!(paths.is_empty());
}

#[test]
fn delegated_readme_without_workspace_names_the_missing_root() {
    let mut raw = raw_manifest();
    let mut p = raw_project("demo");
    p.readme = Some(MaybeWorkspace::Workspace);
    raw.package = Some(Box::new(p));
    let err = do_read_manifest(
        raw,
        None,
        None,
        "/pkg",
        &Vec::new(),
        SourceIdentity::PathSource("/pkg".to_string()),
        vec![lib_target("demo")],
        Vec::new(),
        Vec::new(),
        &Vec::new(),
    )
    .unwrap_err();
    assert_eq!(err, ManifestError::WorkspaceRootMissing(InheritableField::Readme));
}

#[test]
fn first_unknown_capability_is_named() {
    let mut m = empty_defined_manifest();
    m.package = Some(package_section("demo"));
    m.cargo_features = Some(vec![
        "resolver".to_string(),
        "sideways".to_string(),
        "also-bad".to_string(),
    ]);
    let err = m
        .into_real_manifest(
            SourceIdentity::PathSource("/pkg".to_string()),
            "/pkg",
            None,
            vec![lib_target("demo")],
            Vec::new(),
            Vec::new(),
        )
        .unwrap_err();
    assert_eq!(err, ManifestError::UnknownFeature("sideways".to_string()));
}
