//! Build profiles: validation of structural rules and recursive merging
//! of a subordinate profile onto a base profile.

use vstd::prelude::*;
use crate::errors::{
    Capability, ErrorView, ManifestError, NameKind, OverrideKind, Warning, WarningView,
    WholeBuildSetting,
};
use crate::features::FeatureSet;
use crate::names::{find_bad_name_char, first_bad_char, name_chars_ok};
use crate::pkgid::{PackageIdSpec, PackageIdSpecView};
use crate::strutil::str_eq;
use crate::values::{StringOrBool, U32OrBool};

verus! {

broadcast use vstd::seq::group_seq_axioms, vstd::std_specs::vec::group_vec_axioms;

/// An optimization level: a small number, `s` or `z`, kept as text.
#[derive(Debug, Clone, PartialEq, Eq)]
pub struct TomlOptLevel(pub String);

impl DeepView for TomlOptLevel {
    type V = Seq<char>;

    open spec fn deep_view(&self) -> Seq<char> {
        self.0@
    }
}

/// How much is stripped from the final binary.
#[derive(Debug, Clone, Copy, PartialEq, Eq)]
pub enum Strip {
    DebugInfo,
    NoStrip,
    Symbols,
}

impl DeepView for Strip {
    type V = Strip;

    open spec fn deep_view(&self) -> Strip {
        *self
    }
}

/// The key of one per-package override: a package id spec or `*`.
#[derive(Debug, Clone, PartialEq, Eq)]
pub enum ProfilePackageSpec {
    Spec(PackageIdSpec),
    All,
}

/// The mathematical shape of a per-package override key.
pub ghost enum ProfilePackageSpecView {
    Spec(PackageIdSpecView),
    All,
}

impl DeepView for ProfilePackageSpec {
    type V = ProfilePackageSpecView;

    open spec fn deep_view(&self) -> ProfilePackageSpecView {
        match *self {
            ProfilePackageSpec::Spec(ref s) => ProfilePackageSpecView::Spec(s.deep_view()),
            ProfilePackageSpec::All => ProfilePackageSpecView::All,
        }
    }
}

/// One profile: build-tuning settings, per-package overrides and one
/// build-script override.
#[derive(Debug, PartialEq, Eq)]
pub struct TomlProfile {
    pub opt_level: Option<TomlOptLevel>,
    pub lto: Option<StringOrBool>,
    pub codegen_units: Option<u32>,
    pub debug: Option<U32OrBool>,
    pub debug_assertions: Option<bool>,
    pub rpath: Option<bool>,
    pub panic: Option<String>,
    pub overflow_checks: Option<bool>,
    pub incremental: Option<bool>,
    pub package: Option<Vec<(ProfilePackageSpec, TomlProfile)>>,
    pub build_override: Option<Box<TomlProfile>>,
    pub dir_name: Option<String>,
    pub inherits: Option<String>,
    pub strip: Option<Strip>,
}

/// The mathematical shape of a profile.
pub ghost struct ProfileView {
    pub opt_level: Option<Seq<char>>,
    pub lto: Option<crate::values::StringOrBoolView>,
    pub codegen_units: Option<u32>,
    pub debug: Option<U32OrBool>,
    pub debug_assertions: Option<bool>,
    pub rpath: Option<bool>,
    pub panic: Option<Seq<char>>,
    pub overflow_checks: Option<bool>,
    pub incremental: Option<bool>,
    pub package: Option<Seq<(ProfilePackageSpecView, ProfileView)>>,
    pub build_override: Option<Box<ProfileView>>,
    pub dir_name: Option<Seq<char>>,
    pub inherits: Option<Seq<char>>,
    pub strip: Option<Strip>,
}

/// The shape of a profile, defined by structural recursion.
pub open spec fn profile_view(p: TomlProfile) -> ProfileView
    decreases p, 1int,
{
    ProfileView {
        opt_level: p.opt_level.deep_view(),
        lto: p.lto.deep_view(),
        codegen_units: p.codegen_units,
        debug: p.debug,
        debug_assertions: p.debug_assertions,
        rpath: p.rpath,
        panic: p.panic.deep_view(),
        overflow_checks: p.overflow_checks,
        incremental: p.incremental,
        package: match p.package {
            Some(v) => Some(profile_pairs_view(v, 0)),
            None => None,
        },
        build_override: match p.build_override {
            Some(b) => Some(Box::new(profile_view(*b))),
            None => None,
        },
        dir_name: p.dir_name.deep_view(),
        inherits: p.inherits.deep_view(),
        strip: p.strip,
    }
}

/// The shapes of the override entries from index `i` on.
pub open spec fn profile_pairs_view(v: Vec<(ProfilePackageSpec, TomlProfile)>, i: int) -> Seq<
    (ProfilePackageSpecView, ProfileView),
>
    decreases v, 0int, v.len() - i,
{
    if i < 0 || i >= v.len() {
        Seq::empty()
    } else {
        seq![(v[i].0.deep_view(), profile_view(v[i].1))] + profile_pairs_view(v, i + 1)
    }
}

impl DeepView for TomlProfile {
    type V = ProfileView;

    open spec fn deep_view(&self) -> ProfileView {
        profile_view(*self)
    }
}

pub proof fn lemma_profile_pairs_view(v: Vec<(ProfilePackageSpec, TomlProfile)>, i: int)
    requires
        0 <= i <= v.len(),
    ensures
        profile_pairs_view(v, i).len() == v.len() - i,
        forall|k: int|
            i <= k < v.len() ==> #[trigger] profile_pairs_view(v, i)[k - i] == (
                v[k].0.deep_view(),
                profile_view(v[k].1),
            ),
    decreases v.len() - i,
{
    if i < v.len() {
        lemma_profile_pairs_view(v, i + 1);
        assert forall|k: int| i <= k < v.len() implies #[trigger] profile_pairs_view(v, i)[k - i]
            == (v[k].0.deep_view(), profile_view(v[k].1)) by {
            if k == i {
                assert(profile_pairs_view(v, i)[0] == (v[i].0.deep_view(), profile_view(v[i].1)));
            } else {
                assert(profile_pairs_view(v, i + 1)[k - (i + 1)] == (
                    v[k].0.deep_view(),
                    profile_view(v[k].1),
                ));
                assert(profile_pairs_view(v, i)[k - i] == profile_pairs_view(v, i + 1)[k - i - 1]);
            }
        }
    }
}

pub proof fn lemma_profile_pairs_view0(v: Vec<(ProfilePackageSpec, TomlProfile)>)
    ensures
        profile_pairs_view(v, 0).len() == v.len(),
        forall|k: int|
            0 <= k < v.len() ==> #[trigger] profile_pairs_view(v, 0)[k] == (
                v[k].0.deep_view(),
                profile_view(v[k].1),
            ),
{
    lemma_profile_pairs_view(v, 0);
    assert forall|k: int| 0 <= k < v.len() implies #[trigger] profile_pairs_view(v, 0)[k] == (
        v[k].0.deep_view(),
        profile_view(v[k].1),
    ) by {
        assert(profile_pairs_view(v, 0)[k - 0] == (v[k].0.deep_view(), profile_view(v[k].1)));
    }
}

impl TomlProfile {
    /// A profile with nothing set.
    pub fn new() -> (r: TomlProfile)
        ensures
            r.deep_view() == empty_profile_view(),
    {
        TomlProfile {
            opt_level: None,
            lto: None,
            codegen_units: None,
            debug: None,
            debug_assertions: None,
            rpath: None,
            panic: None,
            overflow_checks: None,
            incremental: None,
            package: None,
            build_override: None,
            dir_name: None,
            inherits: None,
            strip: None,
        }
    }

    /// Copies a profile.
    pub fn duplicate(&self) -> (r: TomlProfile)
        ensures
            r.deep_view() == self.deep_view(),
        decreases *self, 1int,
    {
        let opt_level = match &self.opt_level {
            Some(o) => Some(TomlOptLevel(o.0.clone())),
            None => None,
        };
        let lto = match &self.lto {
            Some(StringOrBool::Text(s)) => Some(StringOrBool::Text(s.clone())),
            Some(StringOrBool::Flag(b)) => Some(StringOrBool::Flag(*b)),
            None => None,
        };
        let panic = match &self.panic {
            Some(s) => Some(s.clone()),
            None => None,
        };
        let dir_name = match &self.dir_name {
            Some(s) => Some(s.clone()),
            None => None,
        };
        let inherits = match &self.inherits {
            Some(s) => Some(s.clone()),
            None => None,
        };
        let package = match &self.package {
            Some(v) => Some(Self::duplicate_pairs(v)),
            None => None,
        };
        let build_override = match &self.build_override {
            Some(b) => Some(Box::new(b.duplicate())),
            None => None,
        };
        TomlProfile {
            opt_level,
            lto,
            codegen_units: self.codegen_units,
            debug: self.debug,
            debug_assertions: self.debug_assertions,
            rpath: self.rpath,
            panic,
            overflow_checks: self.overflow_checks,
            incremental: self.incremental,
            package,
            build_override,
            dir_name,
            inherits,
            strip: self.strip,
        }
    }

    /// Copies a list of override entries.
    fn duplicate_pairs(v: &Vec<(ProfilePackageSpec, TomlProfile)>) -> (r: Vec<
        (ProfilePackageSpec, TomlProfile),
    >)
        ensures
            profile_pairs_view(r, 0) == profile_pairs_view(*v, 0),
        decreases *v, 0int,
    {
        let mut r: Vec<(ProfilePackageSpec, TomlProfile)> = Vec::new();
        let mut i: usize = 0;
        proof {
            lemma_profile_pairs_view0(*v);
            lemma_profile_pairs_view0(r);
            assert(profile_pairs_view(r, 0) =~= profile_pairs_view(*v, 0).subrange(0, 0));
        }
        while i < v.len()
            invariant
                i <= v@.len(),
                profile_pairs_view(r, 0) == profile_pairs_view(*v, 0).subrange(0, i as int),
            decreases v@.len() - i,
        {
            let key = match &v[i].0 {
                ProfilePackageSpec::Spec(s) => ProfilePackageSpec::Spec(s.duplicate()),
                ProfilePackageSpec::All => ProfilePackageSpec::All,
            };
            let val = v[i].1.duplicate();
            let ghost old_r = r;
            r.push((key, val));
            proof {
                lemma_profile_pairs_view0(*v);
                lemma_profile_pairs_view0(old_r);
                lemma_profile_pairs_view0(r);
                assert(r@ =~= old_r@.push((key, val)));
                assert forall|k: int| 0 <= k < r@.len() implies #[trigger] profile_pairs_view(
                    r,
                    0,
                )[k] == profile_pairs_view(*v, 0).subrange(0, i + 1)[k] by {
                    if k < i {
                        assert(r@[k] == old_r@[k]);
                        assert(profile_pairs_view(r, 0)[k] == (
                            r[k].0.deep_view(),
                            profile_view(r[k].1),
                        ));
                        assert(profile_pairs_view(old_r, 0)[k] == profile_pairs_view(*v, 0)[k]);
                    } else {
                        assert(r@[k] == (key, val));
                        assert(profile_pairs_view(r, 0)[k] == (
                            key.deep_view(),
                            profile_view(val),
                        ));
                        assert(profile_pairs_view(*v, 0)[k] == (
                            v[k as int].0.deep_view(),
                            profile_view(v[k as int].1),
                        ));
                    }
                }
                assert(profile_pairs_view(r, 0) =~= profile_pairs_view(*v, 0).subrange(
                    0,
                    i + 1,
                ));
            }
            i = i + 1;
        }
        proof {
            assert(profile_pairs_view(*v, 0).subrange(0, v@.len() as int) =~= profile_pairs_view(
                *v,
                0,
            ));
        }
        r
    }
}

/// The shape of a profile with nothing set.
pub open spec fn empty_profile_view() -> ProfileView {
    ProfileView {
        opt_level: None,
        lto: None,
        codegen_units: None,
        debug: None,
        debug_assertions: None,
        rpath: None,
        panic: None,
        overflow_checks: None,
        incremental: None,
        package: None,
        build_override: None,
        dir_name: None,
        inherits: None,
        strip: None,
    }
}

} // verus!

verus! {

/// Appends one warning.
pub fn push_warning(warnings: &mut Vec<Warning>, w: Warning)
    ensures
        final(warnings).deep_view() == old(warnings).deep_view().push(w.deep_view()),
{
    let ghost wv = w.deep_view();
    warnings.push(w);
    proof {
        assert(warnings.deep_view() =~= old(warnings).deep_view().push(wv));
    }
}

/// The names of the built-in profiles.
pub open spec fn is_builtin_profile(name: Seq<char>) -> bool {
    name == "dev"@ || name == "release"@ || name == "bench"@ || name == "test"@ || name == "doc"@
}

/// What name validation yields: the first unacceptable character, then
/// the reserved words; `doc` is reserved for directory names only.
pub open spec fn validate_name_spec(name: Seq<char>, what: NameKind) -> Option<ErrorView> {
    if !name_chars_ok(name) {
        Some(ErrorView::InvalidName { what, name, ch: name[first_bad_char(name)] })
    } else if name == "package"@ || name == "build"@ {
        Some(ErrorView::ReservedName { what, name })
    } else if what == NameKind::DirName && name == "doc"@ {
        Some(ErrorView::ReservedName { what, name })
    } else {
        None
    }
}

/// The first rule an override profile breaks, if any: no nested
/// overrides, and no whole-build settings.
pub open spec fn override_err(p: ProfileView, which: OverrideKind) -> Option<ErrorView> {
    if p.package is Some {
        Some(ErrorView::ProfileNestedPackage)
    } else if p.build_override is Some {
        Some(ErrorView::ProfileNestedBuildOverride)
    } else if p.panic is Some {
        Some(
            ErrorView::ProfileSettingInOverride {
                setting: WholeBuildSetting::PanicStrategy,
                which,
            },
        )
    } else if p.lto is Some {
        Some(ErrorView::ProfileSettingInOverride { setting: WholeBuildSetting::Lto, which })
    } else if p.rpath is Some {
        Some(ErrorView::ProfileSettingInOverride { setting: WholeBuildSetting::Rpath, which })
    } else {
        None
    }
}

/// The first rule any per-package override breaks.
pub open spec fn pkgs_override_err(entries: Seq<(ProfilePackageSpecView, ProfileView)>) -> Option<
    ErrorView,
>
    decreases entries.len(),
{
    if entries.len() == 0 {
        None
    } else if override_err(entries[0].1, OverrideKind::PackageOverride) is Some {
        override_err(entries[0].1, OverrideKind::PackageOverride)
    } else {
        pkgs_override_err(entries.drop_first())
    }
}

/// The first rule a profile breaks before the panic and strip checks.
pub open spec fn validate_err_pre(p: ProfileView, name: Seq<char>, fs: FeatureSet) -> Option<
    ErrorView,
> {
    if p.build_override is Some && !fs.profile_overrides {
        Some(ErrorView::FeatureGate(Capability::ProfileOverrides))
    } else if p.build_override matches Some(bo) && override_err(*bo, OverrideKind::BuildOverride)
        is Some {
        override_err(*p.build_override->0, OverrideKind::BuildOverride)
    } else if p.package is Some && !fs.profile_overrides {
        Some(ErrorView::FeatureGate(Capability::ProfileOverrides))
    } else if p.package matches Some(entries) && pkgs_override_err(entries) is Some {
        pkgs_override_err(p.package->0)
    } else if !is_builtin_profile(name) && !fs.named_profiles {
        Some(ErrorView::FeatureGate(Capability::NamedProfiles))
    } else if validate_name_spec(name, NameKind::ProfileName) is Some {
        validate_name_spec(name, NameKind::ProfileName)
    } else if p.inherits is Some && !fs.named_profiles {
        Some(ErrorView::FeatureGate(Capability::NamedProfiles))
    } else if p.dir_name is Some && !fs.named_profiles {
        Some(ErrorView::FeatureGate(Capability::NamedProfiles))
    } else if p.dir_name matches Some(d) && validate_name_spec(d, NameKind::DirName) is Some {
        validate_name_spec(p.dir_name->0, NameKind::DirName)
    } else if p.inherits matches Some(h) && validate_name_spec(h, NameKind::Inherits) is Some {
        validate_name_spec(p.inherits->0, NameKind::Inherits)
    } else {
        None
    }
}

/// The first rule a profile breaks under a given name and capability set.
pub open spec fn validate_profile_err(p: ProfileView, name: Seq<char>, fs: FeatureSet) -> Option<
    ErrorView,
> {
    if validate_err_pre(p, name, fs) is Some {
        validate_err_pre(p, name, fs)
    } else if p.panic matches Some(pn) && pn != "unwind"@ && pn != "abort"@ {
        Some(ErrorView::InvalidPanicSetting(p.panic->0))
    } else if p.strip is Some && !fs.strip_setting {
        Some(ErrorView::FeatureGate(Capability::StripSetting))
    } else {
        None
    }
}

/// The warnings profile validation leaves behind, in order: the legacy
/// `debug` name first, then — only when no earlier rule failed — the
/// deprecated `doc` profile or the ignored `panic` under test and bench.
pub open spec fn validate_profile_warnings(p: ProfileView, name: Seq<char>, fs: FeatureSet) -> Seq<
    WarningView,
> {
    let w1: Seq<WarningView> = if name == "debug"@ {
        seq![WarningView::UseDevProfile]
    } else {
        Seq::empty()
    };
    if validate_err_pre(p, name, fs) is Some {
        w1
    } else if name == "doc"@ {
        w1 + seq![WarningView::ProfileDocDeprecated]
    } else if (name == "test"@ || name == "bench"@) && p.panic is Some {
        w1 + seq![WarningView::ProfilePanicIgnored(name)]
    } else {
        w1
    }
}

impl TomlProfile {
    /// Validates a profile or directory name: only letters, digits, `_`
    /// and `-`; `package` and `build` are reserved everywhere, `doc` for
    /// directory names.
    pub fn validate_name(name: &str, what: NameKind) -> (r: Result<(), ManifestError>)
        ensures
            crate::errors::result_view(r) == match validate_name_spec(name@, what) {
                Some(e) => Err::<(), ErrorView>(e),
                None => Ok::<(), ErrorView>(()),
            },
    {
        if let Some(ch) = find_bad_name_char(name) {
            return Err(ManifestError::InvalidName { what, name: name.to_owned(), ch });
        }
        if str_eq(name, "package") || str_eq(name, "build") {
            return Err(ManifestError::ReservedName { what, name: name.to_owned() });
        }
        if matches!(what, NameKind::DirName) && str_eq(name, "doc") {
            return Err(ManifestError::ReservedName { what, name: name.to_owned() });
        }
        Ok(())
    }

    /// Enforces what an override profile may not carry.
    pub fn validate_override(&self, which: OverrideKind) -> (r: Result<(), ManifestError>)
        ensures
            crate::errors::result_view(r) == match override_err(self.deep_view(), which) {
                Some(e) => Err::<(), ErrorView>(e),
                None => Ok::<(), ErrorView>(()),
            },
    {
        if self.package.is_some() {
            return Err(ManifestError::ProfileNestedPackage);
        }
        if self.build_override.is_some() {
            return Err(ManifestError::ProfileNestedBuildOverride);
        }
        if self.panic.is_some() {
            return Err(
                ManifestError::ProfileSettingInOverride {
                    setting: WholeBuildSetting::PanicStrategy,
                    which,
                },
            );
        }
        if self.lto.is_some() {
            return Err(
                ManifestError::ProfileSettingInOverride { setting: WholeBuildSetting::Lto, which },
            );
        }
        if self.rpath.is_some() {
            return Err(
                ManifestError::ProfileSettingInOverride {
                    setting: WholeBuildSetting::Rpath,
                    which,
                },
            );
        }
        Ok(())
    }

    /// Validates one profile under its name: override restrictions,
    /// capability gates, name rules and the panic setting. Warnings are
    /// appended to the given list whether or not an error follows them.
    pub fn validate(&self, name: &str, features: &FeatureSet, warnings: &mut Vec<Warning>) -> (r:
        Result<(), ManifestError>)
        ensures
            crate::errors::result_view(r) == match validate_profile_err(
                self.deep_view(),
                name@,
                *features,
            ) {
                Some(e) => Err::<(), ErrorView>(e),
                None => Ok::<(), ErrorView>(()),
            },
            final(warnings).deep_view() == old(warnings).deep_view() + validate_profile_warnings(
                self.deep_view(),
                name@,
                *features,
            ),
    {
        let ghost pv = self.deep_view();
        if str_eq(name, "debug") {
            push_warning(warnings, Warning::UseDevProfile);
        }
        proof {
            assert(warnings.deep_view() =~= old(warnings).deep_view() + (
            if name@ == "debug"@ {
                seq![WarningView::UseDevProfile]
            } else {
                Seq::<WarningView>::empty()
            }));
        }

        if let Some(bo) = &self.build_override {
            if let Err(e) = features.require(Capability::ProfileOverrides) {
                return Err(e);
            }
            if let Err(e) = bo.validate_override(OverrideKind::BuildOverride) {
                return Err(e);
            }
        }
        if let Some(packages) = &self.package {
            if let Err(e) = features.require(Capability::ProfileOverrides) {
                return Err(e);
            }
            let ghost entries = pv.package->0;
            proof {
                lemma_profile_pairs_view0(*packages);
                assert(entries =~= entries.subrange(0, entries.len() as int));
            }
            let mut i: usize = 0;
            #[verifier::loop_isolation(false)]
            while i < packages.len()
                invariant
                    i <= packages@.len(),
                    entries == profile_pairs_view(*packages, 0),
                    entries.len() == packages@.len(),
                    forall|k: int|
                        0 <= k < packages@.len() ==> #[trigger] profile_pairs_view(*packages, 0)[k]
                            == (packages[k].0.deep_view(), profile_view(packages[k].1)),
                    pkgs_override_err(entries) == pkgs_override_err(
                        entries.subrange(i as int, entries.len() as int),
                    ),
                decreases packages@.len() - i,
            {
                let ghost rest = entries.subrange(i as int, entries.len() as int);
                proof {
                    assert(rest[0] == entries[i as int]);
                    assert(rest.drop_first() =~= entries.subrange(
                        i + 1 as int,
                        entries.len() as int,
                    ));
                }
                if let Err(e) = packages[i].1.validate_override(OverrideKind::PackageOverride) {
                    proof {
                        assert(override_err(entries[i as int].1, OverrideKind::PackageOverride)
                            is Some);
                        assert(pkgs_override_err(rest) == override_err(
                            rest[0].1,
                            OverrideKind::PackageOverride,
                        ));
                        assert(pkgs_override_err(entries) == Some(e.deep_view()));
                        assert(validate_err_pre(pv, name@, *features) == Some(e.deep_view()));
                    }
                    return Err(e);
                }
                proof {
                    assert(override_err(entries[i as int].1, OverrideKind::PackageOverride)
                        is None);
                    assert(pkgs_override_err(rest) == pkgs_override_err(rest.drop_first()));
                }
                i = i + 1;
            }
            proof {
                assert(entries.subrange(packages@.len() as int, entries.len() as int)
                    =~= Seq::<(ProfilePackageSpecView, ProfileView)>::empty());
                assert(pkgs_override_err(entries) is None);
            }
        }

        let builtin = str_eq(name, "dev") || str_eq(name, "release") || str_eq(name, "bench")
            || str_eq(name, "test") || str_eq(name, "doc");
        if !builtin {
            if let Err(e) = features.require(Capability::NamedProfiles) {
                return Err(e);
            }
        }

        if let Err(e) = Self::validate_name(name, NameKind::ProfileName) {
            return Err(e);
        }

        if self.inherits.is_some() {
            if let Err(e) = features.require(Capability::NamedProfiles) {
                return Err(e);
            }
        }
        if self.dir_name.is_some() {
            if let Err(e) = features.require(Capability::NamedProfiles) {
                return Err(e);
            }
        }
        if let Some(dir_name) = &self.dir_name {
            if let Err(e) = Self::validate_name(dir_name.as_str(), NameKind::DirName) {
                return Err(e);
            }
        }
        if let Some(inherits) = &self.inherits {
            if let Err(e) = Self::validate_name(inherits.as_str(), NameKind::Inherits) {
                return Err(e);
            }
        }

        if str_eq(name, "doc") {
            push_warning(warnings, Warning::ProfileDocDeprecated);
        } else if (str_eq(name, "test") || str_eq(name, "bench")) && self.panic.is_some() {
            push_warning(warnings, Warning::ProfilePanicIgnored(name.to_owned()));
        }

        if let Some(panic) = &self.panic {
            if !str_eq(panic.as_str(), "unwind") && !str_eq(panic.as_str(), "abort") {
                return Err(ManifestError::InvalidPanicSetting(panic.clone()));
            }
        }

        if self.strip.is_some() {
            if let Err(e) = features.require(Capability::StripSetting) {
                return Err(e);
            }
        }
        Ok(())
    }
}

} // verus!

verus! {

/// The subordinate value when it is set, else the base value.
pub open spec fn pick<T>(base: Option<T>, over: Option<T>) -> Option<T> {
    if over is Some {
        over
    } else {
        base
    }
}

/// Index of the first override entry with the given key, or the length.
pub open spec fn pairs_idx(a: Seq<(ProfilePackageSpecView, ProfileView)>, k: ProfilePackageSpecView) -> int
    decreases a.len(),
{
    if a.len() == 0 {
        0
    } else if a[0].0 == k {
        0
    } else {
        1 + pairs_idx(a.drop_first(), k)
    }
}

pub proof fn lemma_pairs_idx(a: Seq<(ProfilePackageSpecView, ProfileView)>, k: ProfilePackageSpecView)
    ensures
        0 <= pairs_idx(a, k) <= a.len(),
        pairs_idx(a, k) < a.len() ==> a[pairs_idx(a, k)].0 == k,
        forall|j: int| 0 <= j < pairs_idx(a, k) ==> a[j].0 != k,
    decreases a.len(),
{
    if a.len() == 0 {
    } else if a[0].0 == k {
    } else {
        lemma_pairs_idx(a.drop_first(), k);
        assert forall|j: int| 0 <= j < pairs_idx(a, k) implies a[j].0 != k by {
            if j > 0 {
                assert(a.drop_first()[j - 1].0 != k);
            }
        }
        if pairs_idx(a, k) < a.len() {
            assert(a.drop_first()[pairs_idx(a.drop_first(), k)].0 == k);
        }
    }
}

/// A subordinate profile merged onto a base profile: explicit fields of
/// the subordinate win field by field, override maps are merged key by
/// key recursively, absent keys are left untouched.
pub open spec fn merged(a: ProfileView, b: ProfileView) -> ProfileView
    decreases b,
{
    ProfileView {
        opt_level: pick(a.opt_level, b.opt_level),
        lto: pick(a.lto, b.lto),
        codegen_units: pick(a.codegen_units, b.codegen_units),
        debug: pick(a.debug, b.debug),
        debug_assertions: pick(a.debug_assertions, b.debug_assertions),
        rpath: pick(a.rpath, b.rpath),
        panic: pick(a.panic, b.panic),
        overflow_checks: pick(a.overflow_checks, b.overflow_checks),
        incremental: pick(a.incremental, b.incremental),
        package: match (a.package, b.package) {
            (Some(ap), Some(bp)) => Some(merged_pairs(ap, bp)),
            (None, Some(bp)) => Some(bp),
            (x, None) => x,
        },
        build_override: match (a.build_override, b.build_override) {
            (Some(ab), Some(bb)) => Some(Box::new(merged(*ab, *bb))),
            (None, Some(bb)) => Some(bb),
            (x, None) => x,
        },
        dir_name: pick(a.dir_name, b.dir_name),
        inherits: pick(a.inherits, b.inherits),
        strip: pick(a.strip, b.strip),
    }
}

/// Override entries merged key by key: an entry whose key the base
/// already holds is merged into it recursively; a new key is appended.
pub open spec fn merged_pairs(
    a: Seq<(ProfilePackageSpecView, ProfileView)>,
    b: Seq<(ProfilePackageSpecView, ProfileView)>,
) -> Seq<(ProfilePackageSpecView, ProfileView)>
    decreases b,
{
    if b.len() == 0 {
        a
    } else {
        let kv = b[0];
        let i = pairs_idx(a, kv.0);
        let a2 = if i < a.len() {
            a.update(i, (kv.0, merged(a[i].1, kv.1)))
        } else {
            a.push(kv)
        };
        merged_pairs(a2, b.drop_first())
    }
}

impl ProfilePackageSpec {
    /// Equality of two override keys, read at the view level.
    pub fn same(&self, other: &ProfilePackageSpec) -> (r: bool)
        ensures
            r == (self.deep_view() == other.deep_view()),
    {
        match (self, other) {
            (ProfilePackageSpec::All, ProfilePackageSpec::All) => true,
            (ProfilePackageSpec::Spec(a), ProfilePackageSpec::Spec(b)) => a.same(b),
            _ => false,
        }
    }
}

/// Finds the first override entry with the given key.
fn find_pps(v: &Vec<(ProfilePackageSpec, TomlProfile)>, key: &ProfilePackageSpec) -> (r: Option<
    usize,
>)
    ensures
        match r {
            Some(i) => i == pairs_idx(profile_pairs_view(*v, 0), key.deep_view()) && i < v@.len(),
            None => pairs_idx(profile_pairs_view(*v, 0), key.deep_view()) == v@.len(),
        },
{
    let ghost a = profile_pairs_view(*v, 0);
    let ghost k = key.deep_view();
    proof {
        lemma_profile_pairs_view0(*v);
        lemma_pairs_idx(a, k);
    }
    let mut i: usize = 0;
    #[verifier::loop_isolation(false)]
    while i < v.len()
        invariant
            i <= v@.len(),
            forall|j: int| 0 <= j < i ==> a[j].0 != k,
        decreases v@.len() - i,
    {
        if v[i].0.same(key) {
            proof {
                assert(a[i as int].0 == k);
                assert(i == pairs_idx(a, k)) by {
                    if i < pairs_idx(a, k) {
                        assert(a[i as int].0 != k);
                    }
                    if i > pairs_idx(a, k) {
                        assert(a[pairs_idx(a, k)].0 != k);
                    }
                }
            }
            return Some(i);
        }
        i = i + 1;
    }
    proof {
        assert(pairs_idx(a, k) == v@.len()) by {
            if pairs_idx(a, k) < a.len() {
                assert(a[pairs_idx(a, k)].0 != k);
            }
        }
    }
    None
}

impl TomlProfile {
    /// Overwrites the plain settings with the given profile's explicit
    /// values, leaving the override maps untouched.
    fn merge_plain(&mut self, profile: &TomlProfile)
        ensures
            final(self).deep_view() == (ProfileView {
                opt_level: pick(old(self).deep_view().opt_level, profile.deep_view().opt_level),
                lto: pick(old(self).deep_view().lto, profile.deep_view().lto),
                codegen_units: pick(
                    old(self).deep_view().codegen_units,
                    profile.deep_view().codegen_units,
                ),
                debug: pick(old(self).deep_view().debug, profile.deep_view().debug),
                debug_assertions: pick(
                    old(self).deep_view().debug_assertions,
                    profile.deep_view().debug_assertions,
                ),
                rpath: pick(old(self).deep_view().rpath, profile.deep_view().rpath),
                panic: pick(old(self).deep_view().panic, profile.deep_view().panic),
                overflow_checks: pick(
                    old(self).deep_view().overflow_checks,
                    profile.deep_view().overflow_checks,
                ),
                incremental: pick(
                    old(self).deep_view().incremental,
                    profile.deep_view().incremental,
                ),
                package: old(self).deep_view().package,
                build_override: old(self).deep_view().build_override,
                dir_name: pick(old(self).deep_view().dir_name, profile.deep_view().dir_name),
                inherits: pick(old(self).deep_view().inherits, profile.deep_view().inherits),
                strip: pick(old(self).deep_view().strip, profile.deep_view().strip),
            }),
    {
        let opt_level = match &profile.opt_level {
            Some(v) => Some(TomlOptLevel(v.0.clone())),
            None => self.opt_level.take(),
        };
        let lto = match &profile.lto {
            Some(StringOrBool::Text(s)) => Some(StringOrBool::Text(s.clone())),
            Some(StringOrBool::Flag(b)) => Some(StringOrBool::Flag(*b)),
            None => self.lto.take(),
        };
        let codegen_units = match profile.codegen_units {
            Some(v) => Some(v),
            None => self.codegen_units,
        };
        let debug = match profile.debug {
            Some(v) => Some(v),
            None => self.debug,
        };
        let debug_assertions = match profile.debug_assertions {
            Some(v) => Some(v),
            None => self.debug_assertions,
        };
        let rpath = match profile.rpath {
            Some(v) => Some(v),
            None => self.rpath,
        };
        let panic = match &profile.panic {
            Some(v) => Some(v.clone()),
            None => self.panic.take(),
        };
        let overflow_checks = match profile.overflow_checks {
            Some(v) => Some(v),
            None => self.overflow_checks,
        };
        let incremental = match profile.incremental {
            Some(v) => Some(v),
            None => self.incremental,
        };
        let inherits = match &profile.inherits {
            Some(v) => Some(v.clone()),
            None => self.inherits.take(),
        };
        let dir_name = match &profile.dir_name {
            Some(v) => Some(v.clone()),
            None => self.dir_name.take(),
        };
        let strip = match profile.strip {
            Some(v) => Some(v),
            None => self.strip,
        };
        let package = self.package.take();
        let build_override = self.build_override.take();
        *self = TomlProfile {
            opt_level,
            lto,
            codegen_units,
            debug,
            debug_assertions,
            rpath,
            panic,
            overflow_checks,
            incremental,
            package,
            build_override,
            dir_name,
            inherits,
            strip,
        };
    }

    /// Merges the given override entries into `mine`, key by key.
    fn merge_packages(
        mine: &mut Vec<(ProfilePackageSpec, TomlProfile)>,
        other: &Vec<(ProfilePackageSpec, TomlProfile)>,
    )
        ensures
            profile_pairs_view(*final(mine), 0) == merged_pairs(
                profile_pairs_view(*old(mine), 0),
                profile_pairs_view(*other, 0),
            ),
        decreases *other, 9int,
    {
        let ghost bview = profile_pairs_view(*other, 0);
        let ghost orig = profile_pairs_view(*old(mine), 0);
        proof {
            lemma_profile_pairs_view0(*other);
            assert(bview.subrange(0, bview.len() as int) =~= bview);
        }
        let mut j: usize = 0;
        #[verifier::loop_isolation(false)]
        while j < other.len()
            invariant
                j <= other@.len(),
                merged_pairs(orig, bview) == merged_pairs(
                    profile_pairs_view(*mine, 0),
                    bview.subrange(j as int, bview.len() as int),
                ),
            decreases other@.len() - j,
        {
            let ghost cur = profile_pairs_view(*mine, 0);
            let ghost rest = bview.subrange(j as int, bview.len() as int);
            let ghost kv = bview[j as int];
            proof {
                lemma_profile_pairs_view0(*mine);
                assert(rest[0] == kv);
                assert(rest.drop_first() =~= bview.subrange(j + 1 as int, bview.len() as int));
                lemma_pairs_idx(cur, kv.0);
            }
            let key = &other[j].0;
            match find_pps(mine, key) {
                Some(i) => {
                    let ghost pre = *mine;
                    let mut tmp = (ProfilePackageSpec::All, TomlProfile::new());
                    mine.set_and_swap(i, &mut tmp);
                    tmp.1.merge(&other[j].1);
                    mine.set_and_swap(i, &mut tmp);
                    proof {
                        lemma_profile_pairs_view0(pre);
                        lemma_profile_pairs_view0(*mine);
                        let stepped = cur.update(i as int, (kv.0, merged(cur[i as int].1, kv.1)));
                        assert(cur[i as int].0 == kv.0);
                        assert(mine@[i as int].0 == pre@[i as int].0);
                        assert(profile_view(mine@[i as int].1) == merged(cur[i as int].1, kv.1));
                        assert forall|t: int|
                            0 <= t < mine@.len() implies #[trigger] profile_pairs_view(*mine, 0)[t]
                            == stepped[t] by {
                            if t != i {
                                assert(mine@[t] == pre@[t]);
                                assert(stepped[t] == cur[t]);
                            }
                        }
                        assert(profile_pairs_view(*mine, 0) =~= stepped);
                        assert(merged_pairs(cur, rest) == merged_pairs(
                            stepped,
                            rest.drop_first(),
                        ));
                    }
                },
                None => {
                    let dup_key = match key {
                        ProfilePackageSpec::Spec(s) => ProfilePackageSpec::Spec(s.duplicate()),
                        ProfilePackageSpec::All => ProfilePackageSpec::All,
                    };
                    let dup_val = other[j].1.duplicate();
                    let ghost old_mine = *mine;
                    mine.push((dup_key, dup_val));
                    proof {
                        lemma_profile_pairs_view0(*mine);
                        lemma_profile_pairs_view0(old_mine);
                        let stepped = cur.push(kv);
                        assert forall|t: int|
                            0 <= t < mine@.len() implies #[trigger] profile_pairs_view(*mine, 0)[t]
                            == stepped[t] by {
                            if t < mine@.len() - 1 {
                                assert(mine@[t] == old_mine@[t]);
                            }
                        }
                        assert(profile_pairs_view(*mine, 0) =~= stepped);
                        assert(merged_pairs(cur, rest) == merged_pairs(
                            stepped,
                            rest.drop_first(),
                        ));
                    }
                },
            }
            j = j + 1;
        }
        proof {
            assert(bview.subrange(bview.len() as int, bview.len() as int)
                =~= Seq::<(ProfilePackageSpecView, ProfileView)>::empty());
        }
    }

    /// Overwrites this profile's values with the given profile's explicit
    /// values, merging override maps recursively.
    pub fn merge(&mut self, profile: &TomlProfile)
        ensures
            final(self).deep_view() == merged(old(self).deep_view(), profile.deep_view()),
        decreases *profile, 10int,
    {
        self.merge_plain(profile);
        if let Some(other_package) = &profile.package {
            match self.package.take() {
                None => {
                    self.package = Some(Self::duplicate_pairs(other_package));
                },
                Some(mut mine) => {
                    Self::merge_packages(&mut mine, other_package);
                    self.package = Some(mine);
                },
            }
        }
        if let Some(other_bo) = &profile.build_override {
            match self.build_override.take() {
                Some(mut bo) => {
                    bo.merge(&**other_bo);
                    self.build_override = Some(bo);
                },
                None => {
                    self.build_override = Some(Box::new(other_bo.duplicate()));
                },
            }
        }
    }
}

} // verus!

verus! {

/// The profile table of a document: profile name to profile.
#[derive(Debug, PartialEq, Eq)]
pub struct TomlProfiles(pub Vec<(String, TomlProfile)>);

impl DeepView for TomlProfiles {
    type V = Seq<(Seq<char>, ProfileView)>;

    open spec fn deep_view(&self) -> Seq<(Seq<char>, ProfileView)> {
        self.0.deep_view()
    }
}

/// The first rule any profile of the table breaks.
pub open spec fn profiles_err(entries: Seq<(Seq<char>, ProfileView)>, fs: FeatureSet) -> Option<
    ErrorView,
>
    decreases entries.len(),
{
    if entries.len() == 0 {
        None
    } else if validate_profile_err(entries[0].1, entries[0].0, fs) is Some {
        validate_profile_err(entries[0].1, entries[0].0, fs)
    } else {
        profiles_err(entries.drop_first(), fs)
    }
}

/// The warnings the table's validation leaves, entry by entry, stopping
/// after the entry that fails.
pub open spec fn profiles_warnings(entries: Seq<(Seq<char>, ProfileView)>, fs: FeatureSet) -> Seq<
    WarningView,
>
    decreases entries.len(),
{
    if entries.len() == 0 {
        Seq::empty()
    } else if validate_profile_err(entries[0].1, entries[0].0, fs) is Some {
        validate_profile_warnings(entries[0].1, entries[0].0, fs)
    } else {
        validate_profile_warnings(entries[0].1, entries[0].0, fs) + profiles_warnings(
            entries.drop_first(),
            fs,
        )
    }
}

impl TomlProfiles {
    /// All profiles of the table.
    pub fn get_all(&self) -> (r: &Vec<(String, TomlProfile)>)
        ensures
            r.deep_view() == self.deep_view(),
    {
        &self.0
    }

    /// The profile of the given name, if the table holds one.
    pub fn get(&self, name: &str) -> (r: Option<&TomlProfile>)
        ensures
            match r {
                Some(p) => crate::strutil::alist_has(self.0@, name@) && p.deep_view()
                    == self.0@[crate::strutil::alist_idx(self.0@, name@)].1.deep_view(),
                None => !crate::strutil::alist_has(self.0@, name@),
            },
    {
        match crate::strutil::alist_find(&self.0, name) {
            Some(i) => Some(&self.0[i].1),
            None => None,
        }
    }

    /// Validates every profile of the table under its name, stopping at
    /// the first that breaks a rule.
    pub fn validate(&self, features: &FeatureSet, warnings: &mut Vec<Warning>) -> (r: Result<
        (),
        ManifestError,
    >)
        ensures
            crate::errors::result_view(r) == match profiles_err(self.deep_view(), *features) {
                Some(e) => Err::<(), ErrorView>(e),
                None => Ok::<(), ErrorView>(()),
            },
            final(warnings).deep_view() == old(warnings).deep_view() + profiles_warnings(
                self.deep_view(),
                *features,
            ),
    {
        let ghost entries = self.deep_view();
        let mut i: usize = 0;
        proof {
            assert(entries.subrange(0, entries.len() as int) =~= entries);
        }
        #[verifier::loop_isolation(false)]
        while i < self.0.len()
            invariant
                i <= self.0@.len(),
                entries.len() == self.0@.len(),
                profiles_err(entries, *features) == profiles_err(
                    entries.subrange(i as int, entries.len() as int),
                    *features,
                ),
                warnings.deep_view() + profiles_warnings(
                    entries.subrange(i as int, entries.len() as int),
                    *features,
                ) == old(warnings).deep_view() + profiles_warnings(entries, *features),
            decreases self.0@.len() - i,
        {
            let ghost rest = entries.subrange(i as int, entries.len() as int);
            proof {
                assert(rest[0] == entries[i as int]);
                assert(rest.drop_first() =~= entries.subrange(i + 1 as int, entries.len() as int));
            }
            let name = &self.0[i].0;
            let profile = &self.0[i].1;
            let r = profile.validate(name.as_str(), features, warnings);
            if let Err(e) = r {
                return Err(e);
            }
            i = i + 1;
        }
        proof {
            assert(entries.subrange(entries.len() as int, entries.len() as int)
                =~= Seq::<(Seq<char>, ProfileView)>::empty());
            assert(warnings.deep_view() + Seq::<WarningView>::empty() =~= warnings.deep_view());
            assert(old(warnings).deep_view() + profiles_warnings(entries, *features)
                =~= warnings.deep_view());
        }
        Ok(())
    }

    /// Copies the table.
    pub fn duplicate(&self) -> (r: TomlProfiles)
        ensures
            r.deep_view() == self.deep_view(),
    {
        let mut out: Vec<(String, TomlProfile)> = Vec::new();
        let mut i: usize = 0;
        proof {
            assert(out.deep_view() =~= self.deep_view().subrange(0, 0));
        }
        #[verifier::loop_isolation(false)]
        while i < self.0.len()
            invariant
                i <= self.0@.len(),
                out.deep_view() == self.deep_view().subrange(0, i as int),
            decreases self.0@.len() - i,
        {
            let ghost old_out = out.deep_view();
            out.push((self.0[i].0.clone(), self.0[i].1.duplicate()));
            proof {
                assert(out.deep_view() =~= old_out.push(out@[out@.len() - 1].deep_view()));
                assert(out.deep_view() =~= self.deep_view().subrange(0, i + 1));
            }
            i = i + 1;
        }
        proof {
            assert(self.deep_view().subrange(0, self.0@.len() as int) =~= self.deep_view());
        }
        TomlProfiles(out)
    }
}

} // verus!
