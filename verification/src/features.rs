//! The capability set: unstable manifest syntax must be opted into by
//! declaring the matching capability name on the document.

use vstd::prelude::*;
use crate::errors::{Capability, ManifestError};

verus! {

/// The set of capabilities a document has declared.
#[derive(Debug, Clone, Copy, PartialEq, Eq)]
pub struct FeatureSet {
    pub edition: bool,
    pub metabuild: bool,
    pub resolver: bool,
    pub rename_dependency: bool,
    pub public_dependency: bool,
    pub profile_overrides: bool,
    pub named_profiles: bool,
    pub strip_setting: bool,
    pub namespaced_features: bool,
    pub publish_lockfile: bool,
}

/// The name under which each capability is declared.
pub open spec fn feature_name(c: Capability) -> Seq<char> {
    match c {
        Capability::Edition => "edition"@,
        Capability::Metabuild => "metabuild"@,
        Capability::Resolver => "resolver"@,
        Capability::RenameDependency => "rename-dependency"@,
        Capability::PublicDependency => "public-dependency"@,
        Capability::ProfileOverrides => "profile-overrides"@,
        Capability::NamedProfiles => "named-profiles"@,
        Capability::StripSetting => "strip"@,
        Capability::NamespacedFeatures => "namespaced-features"@,
        Capability::PublishLockfile => "publish-lockfile"@,
    }
}

/// Whether a declared name is one of the known capability names.
pub open spec fn is_known_feature(s: Seq<char>) -> bool {
    exists|c: Capability| feature_name(c) == s
}

/// Whether the declared list holds the given name.
pub open spec fn has_feature(declared: Seq<String>, name: Seq<char>) -> bool {
    exists|i: int| 0 <= i < declared.len() && #[trigger] declared[i]@ == name
}

/// Index of the first declared name that is not a known capability, or
/// the length.
pub open spec fn first_unknown_feature(declared: Seq<String>) -> int
    decreases declared.len(),
{
    if declared.len() == 0 {
        0
    } else if !is_known_feature(declared[0]@) {
        0
    } else {
        1 + first_unknown_feature(declared.drop_first())
    }
}

proof fn lemma_feature_names_distinct()
    ensures
        forall|c1: Capability, c2: Capability|
            feature_name(c1) == feature_name(c2) ==> c1 == c2,
{
    reveal_strlit("edition");
    reveal_strlit("metabuild");
    reveal_strlit("resolver");
    reveal_strlit("rename-dependency");
    reveal_strlit("public-dependency");
    reveal_strlit("profile-overrides");
    reveal_strlit("named-profiles");
    reveal_strlit("strip");
    reveal_strlit("namespaced-features");
    reveal_strlit("publish-lockfile");
    assert forall|c1: Capability, c2: Capability|
        feature_name(c1) == feature_name(c2) implies c1 == c2 by {
        if c1 != c2 {
            assert(feature_name(c1).len() != feature_name(c2).len() || feature_name(c1)[0]
                != feature_name(c2)[0] || feature_name(c1)[1] != feature_name(c2)[1]
                || feature_name(c1)[2] != feature_name(c2)[2] || feature_name(c1)[3]
                != feature_name(c2)[3]);
        }
    }
}

impl FeatureSet {
    /// Whether a capability is in the set, at the specification level.
    pub open spec fn is_enabled_spec(self, c: Capability) -> bool {
        match c {
            Capability::Edition => self.edition,
            Capability::Metabuild => self.metabuild,
            Capability::Resolver => self.resolver,
            Capability::RenameDependency => self.rename_dependency,
            Capability::PublicDependency => self.public_dependency,
            Capability::ProfileOverrides => self.profile_overrides,
            Capability::NamedProfiles => self.named_profiles,
            Capability::StripSetting => self.strip_setting,
            Capability::NamespacedFeatures => self.namespaced_features,
            Capability::PublishLockfile => self.publish_lockfile,
        }
    }

    /// The empty capability set.
    pub fn none() -> (r: FeatureSet)
        ensures
            forall|c: Capability| !r.is_enabled_spec(c),
    {
        FeatureSet {
            edition: false,
            metabuild: false,
            resolver: false,
            rename_dependency: false,
            public_dependency: false,
            profile_overrides: false,
            named_profiles: false,
            strip_setting: false,
            namespaced_features: false,
            publish_lockfile: false,
        }
    }

    /// Builds the capability set from the names a document declares.
    /// Every declared name must be known; the set then holds exactly the
    /// capabilities whose names were declared.
    pub fn new(declared: &Vec<String>) -> (r: Result<FeatureSet, ManifestError>)
        ensures
            r is Ok <==> (forall|i: int|
                0 <= i < declared@.len() ==> is_known_feature(#[trigger] declared@[i]@)),
            r matches Ok(fs) ==> (forall|c: Capability|
                #[trigger] fs.is_enabled_spec(c) == has_feature(declared@, feature_name(c))),
            r matches Err(e) ==> (first_unknown_feature(declared@) < declared@.len()
                && e.deep_view() == crate::errors::ErrorView::UnknownFeature(
                declared@[first_unknown_feature(declared@)]@,
            )),
    {
        proof {
            lemma_feature_names_distinct();
        }
        let mut fs = FeatureSet {
            edition: false,
            metabuild: false,
            resolver: false,
            rename_dependency: false,
            public_dependency: false,
            profile_overrides: false,
            named_profiles: false,
            strip_setting: false,
            namespaced_features: false,
            publish_lockfile: false,
        };
        let mut i: usize = 0;
        while i < declared.len()
            invariant
                i <= declared@.len(),
                forall|j: int| 0 <= j < i ==> is_known_feature(#[trigger] declared@[j]@),
                fs.edition == has_feature(
                    declared@.subrange(0, i as int),
                    feature_name(Capability::Edition),
                ),
                fs.metabuild == has_feature(
                    declared@.subrange(0, i as int),
                    feature_name(Capability::Metabuild),
                ),
                fs.resolver == has_feature(
                    declared@.subrange(0, i as int),
                    feature_name(Capability::Resolver),
                ),
                fs.rename_dependency == has_feature(
                    declared@.subrange(0, i as int),
                    feature_name(Capability::RenameDependency),
                ),
                fs.public_dependency == has_feature(
                    declared@.subrange(0, i as int),
                    feature_name(Capability::PublicDependency),
                ),
                fs.profile_overrides == has_feature(
                    declared@.subrange(0, i as int),
                    feature_name(Capability::ProfileOverrides),
                ),
                fs.named_profiles == has_feature(
                    declared@.subrange(0, i as int),
                    feature_name(Capability::NamedProfiles),
                ),
                fs.strip_setting == has_feature(
                    declared@.subrange(0, i as int),
                    feature_name(Capability::StripSetting),
                ),
                fs.namespaced_features == has_feature(
                    declared@.subrange(0, i as int),
                    feature_name(Capability::NamespacedFeatures),
                ),
                fs.publish_lockfile == has_feature(
                    declared@.subrange(0, i as int),
                    feature_name(Capability::PublishLockfile),
                ),
                forall|c1: Capability, c2: Capability|
                    feature_name(c1) == feature_name(c2) ==> c1 == c2,
            decreases declared@.len() - i,
        {
            let name = &declared[i];
            let ghost pre = declared@.subrange(0, i as int);
            let ghost cur = declared@.subrange(0, i + 1 as int);
            proof {
                assert(cur.drop_last() =~= pre);
                assert(cur.last() == declared@[i as int]);
                assert forall|n: Seq<char>| has_feature(cur, n) == (has_feature(pre, n)
                    || declared@[i as int]@ == n) by {
                    if has_feature(pre, n) {
                        let w = choose|k: int| 0 <= k < pre.len() && #[trigger] pre[k]@ == n;
                        assert(cur[w]@ == n);
                    }
                    if declared@[i as int]@ == n {
                        assert(cur[i as int]@ == n);
                    }
                    if has_feature(cur, n) && !(declared@[i as int]@ == n) {
                        let w = choose|k: int| 0 <= k < cur.len() && #[trigger] cur[k]@ == n;
                        assert(pre[w]@ == n);
                    }
                }
            }
            let s = name.as_str();
            if crate::strutil::str_eq(s, "edition") {
                fs.edition = true;
                proof {
                    assert(feature_name(Capability::Edition) == declared@[i as int]@);
                }
            } else if crate::strutil::str_eq(s, "metabuild") {
                fs.metabuild = true;
                proof {
                    assert(feature_name(Capability::Metabuild) == declared@[i as int]@);
                }
            } else if crate::strutil::str_eq(s, "resolver") {
                fs.resolver = true;
                proof {
                    assert(feature_name(Capability::Resolver) == declared@[i as int]@);
                }
            } else if crate::strutil::str_eq(s, "rename-dependency") {
                fs.rename_dependency = true;
                proof {
                    assert(feature_name(Capability::RenameDependency) == declared@[i as int]@);
                }
            } else if crate::strutil::str_eq(s, "public-dependency") {
                fs.public_dependency = true;
                proof {
                    assert(feature_name(Capability::PublicDependency) == declared@[i as int]@);
                }
            } else if crate::strutil::str_eq(s, "profile-overrides") {
                fs.profile_overrides = true;
                proof {
                    assert(feature_name(Capability::ProfileOverrides) == declared@[i as int]@);
                }
            } else if crate::strutil::str_eq(s, "named-profiles") {
                fs.named_profiles = true;
                proof {
                    assert(feature_name(Capability::NamedProfiles) == declared@[i as int]@);
                }
            } else if crate::strutil::str_eq(s, "strip") {
                fs.strip_setting = true;
                proof {
                    assert(feature_name(Capability::StripSetting) == declared@[i as int]@);
                }
            } else if crate::strutil::str_eq(s, "namespaced-features") {
                fs.namespaced_features = true;
                proof {
                    assert(feature_name(Capability::NamespacedFeatures) == declared@[i as int]@);
                }
            } else if crate::strutil::str_eq(s, "publish-lockfile") {
                fs.publish_lockfile = true;
                proof {
                    assert(feature_name(Capability::PublishLockfile) == declared@[i as int]@);
                }
            } else {
                proof {
                    assert(!is_known_feature(declared@[i as int]@)) by {
                        assert forall|c: Capability|
                            feature_name(c) != declared@[i as int]@ by {}
                    }
                    lemma_first_unknown_at(declared@, i as int);
                }
                return Err(ManifestError::UnknownFeature(name.clone()));
            }
            i = i + 1;
        }
        proof {
            assert(declared@.subrange(0, declared@.len() as int) =~= declared@);
        }
        Ok(fs)
    }

    /// Whether a capability is in the set.
    pub fn is_enabled(&self, c: Capability) -> (r: bool)
        ensures
            r == self.is_enabled_spec(c),
    {
        match c {
            Capability::Edition => self.edition,
            Capability::Metabuild => self.metabuild,
            Capability::Resolver => self.resolver,
            Capability::RenameDependency => self.rename_dependency,
            Capability::PublicDependency => self.public_dependency,
            Capability::ProfileOverrides => self.profile_overrides,
            Capability::NamedProfiles => self.named_profiles,
            Capability::StripSetting => self.strip_setting,
            Capability::NamespacedFeatures => self.namespaced_features,
            Capability::PublishLockfile => self.publish_lockfile,
        }
    }

    /// Demands a capability; a gate error names it when it is missing.
    pub fn require(&self, c: Capability) -> (r: Result<(), ManifestError>)
        ensures
            r is Ok <==> self.is_enabled_spec(c),
            r is Err ==> (r matches Err(e) && e == ManifestError::FeatureGate(c)),
    {
        if self.is_enabled(c) {
            Ok(())
        } else {
            Err(ManifestError::FeatureGate(c))
        }
    }
}

} // verus!

verus! {

/// The capability set a declared list selects, field by field.
#[verifier::opaque]
pub open spec fn feature_set_spec(declared: Seq<String>) -> FeatureSet {
    FeatureSet {
        edition: has_feature(declared, feature_name(Capability::Edition)),
        metabuild: has_feature(declared, feature_name(Capability::Metabuild)),
        resolver: has_feature(declared, feature_name(Capability::Resolver)),
        rename_dependency: has_feature(declared, feature_name(Capability::RenameDependency)),
        public_dependency: has_feature(declared, feature_name(Capability::PublicDependency)),
        profile_overrides: has_feature(declared, feature_name(Capability::ProfileOverrides)),
        named_profiles: has_feature(declared, feature_name(Capability::NamedProfiles)),
        strip_setting: has_feature(declared, feature_name(Capability::StripSetting)),
        namespaced_features: has_feature(declared, feature_name(Capability::NamespacedFeatures)),
        publish_lockfile: has_feature(declared, feature_name(Capability::PublishLockfile)),
    }
}

/// Whether every declared capability name is known.
pub open spec fn all_features_known(declared: Seq<String>) -> bool {
    forall|i: int| 0 <= i < declared.len() ==> is_known_feature(#[trigger] declared[i]@)
}

/// Building the set succeeds exactly on known names and yields the set
/// the names select.
pub proof fn lemma_feature_set_new(declared: Vec<String>, r: Result<FeatureSet, ManifestError>)
    requires
        r is Ok <==> all_features_known(declared@),
        r matches Ok(fs) ==> (forall|c: Capability|
            #[trigger] fs.is_enabled_spec(c) == has_feature(declared@, feature_name(c))),
    ensures
        r matches Ok(fs) ==> fs == feature_set_spec(declared@),
{
    reveal(feature_set_spec);
    if r is Ok {
        let fs = r->Ok_0;
        assert(fs.edition == has_feature(declared@, feature_name(Capability::Edition))) by {
            assert(fs.is_enabled_spec(Capability::Edition) == has_feature(
                declared@,
                feature_name(Capability::Edition),
            ));
        }
        assert(fs.metabuild == has_feature(declared@, feature_name(Capability::Metabuild))) by {
            assert(fs.is_enabled_spec(Capability::Metabuild) == has_feature(
                declared@,
                feature_name(Capability::Metabuild),
            ));
        }
        assert(fs.resolver == has_feature(declared@, feature_name(Capability::Resolver))) by {
            assert(fs.is_enabled_spec(Capability::Resolver) == has_feature(
                declared@,
                feature_name(Capability::Resolver),
            ));
        }
        assert(fs.rename_dependency == has_feature(declared@, feature_name(Capability::RenameDependency))) by {
            assert(fs.is_enabled_spec(Capability::RenameDependency) == has_feature(
                declared@,
                feature_name(Capability::RenameDependency),
            ));
        }
        assert(fs.public_dependency == has_feature(declared@, feature_name(Capability::PublicDependency))) by {
            assert(fs.is_enabled_spec(Capability::PublicDependency) == has_feature(
                declared@,
                feature_name(Capability::PublicDependency),
            ));
        }
        assert(fs.profile_overrides == has_feature(declared@, feature_name(Capability::ProfileOverrides))) by {
            assert(fs.is_enabled_spec(Capability::ProfileOverrides) == has_feature(
                declared@,
                feature_name(Capability::ProfileOverrides),
            ));
        }
        assert(fs.named_profiles == has_feature(declared@, feature_name(Capability::NamedProfiles))) by {
            assert(fs.is_enabled_spec(Capability::NamedProfiles) == has_feature(
                declared@,
                feature_name(Capability::NamedProfiles),
            ));
        }
        assert(fs.strip_setting == has_feature(declared@, feature_name(Capability::StripSetting))) by {
            assert(fs.is_enabled_spec(Capability::StripSetting) == has_feature(
                declared@,
                feature_name(Capability::StripSetting),
            ));
        }
        assert(fs.namespaced_features == has_feature(declared@, feature_name(Capability::NamespacedFeatures))) by {
            assert(fs.is_enabled_spec(Capability::NamespacedFeatures) == has_feature(
                declared@,
                feature_name(Capability::NamespacedFeatures),
            ));
        }
        assert(fs.publish_lockfile == has_feature(declared@, feature_name(Capability::PublishLockfile))) by {
            assert(fs.is_enabled_spec(Capability::PublishLockfile) == has_feature(
                declared@,
                feature_name(Capability::PublishLockfile),
            ));
        }
    }
}

/// The first-unknown index is in range, names an unknown entry when it
/// is short of the length, and every entry before it is known.
pub proof fn lemma_first_unknown_bounds(declared: Seq<String>)
    ensures
        0 <= first_unknown_feature(declared) <= declared.len(),
        first_unknown_feature(declared) < declared.len() ==> !is_known_feature(
            declared[first_unknown_feature(declared)]@,
        ),
        forall|j: int|
            0 <= j < first_unknown_feature(declared) ==> is_known_feature(
                #[trigger] declared[j]@,
            ),
    decreases declared.len(),
{
    if declared.len() == 0 {
    } else if !is_known_feature(declared[0]@) {
    } else {
        lemma_first_unknown_bounds(declared.drop_first());
        assert forall|j: int| 0 <= j < first_unknown_feature(declared) implies is_known_feature(
            #[trigger] declared[j]@,
        ) by {
            if j > 0 {
                assert(is_known_feature(declared.drop_first()[j - 1]@));
            }
        }
        if first_unknown_feature(declared) < declared.len() {
            assert(declared.drop_first()[first_unknown_feature(declared.drop_first())]@
                == declared[first_unknown_feature(declared)]@);
        }
    }
}

proof fn lemma_first_unknown_at(declared: Seq<String>, i: int)
    requires
        0 <= i < declared.len(),
        forall|j: int| 0 <= j < i ==> is_known_feature(#[trigger] declared[j]@),
        !is_known_feature(declared[i]@),
    ensures
        first_unknown_feature(declared) == i,
    decreases declared.len(),
{
    if declared.len() == 0 {
    } else if !is_known_feature(declared[0]@) {
        assert(i == 0);
    } else {
        assert(is_known_feature(declared[0]@));
        assert(i > 0);
        assert forall|j: int| 0 <= j < i - 1 implies is_known_feature(
            #[trigger] declared.drop_first()[j]@,
        ) by {
            assert(declared[j + 1]@ == declared.drop_first()[j]@);
            assert(is_known_feature(declared[j + 1]@));
        }
        lemma_first_unknown_at(declared.drop_first(), i - 1);
    }
}

} // verus!
