//! Package id specs: the `name` or `name:version` keys that the
//! replacement and override tables use to pin one package.

use vstd::prelude::*;
use crate::errors::{ErrorView, ManifestError, NameKind};
use crate::ext::{parse_version, semver_parse, Version, VersionView};
use crate::names::{find_bad_name_char, name_chars_ok};
use crate::strutil::{contains_scheme_marker, find_first_char, first_char, has_scheme_marker};

verus! {

/// One package pinned by name and, optionally, an exact version.
#[derive(Debug, Clone, PartialEq, Eq)]
pub struct PackageIdSpec {
    pub name: String,
    pub version: Option<Version>,
    pub url: Option<String>,
}

/// The mathematical shape of a package id spec.
pub ghost struct PackageIdSpecView {
    pub name: Seq<char>,
    pub version: Option<VersionView>,
    pub url: Option<Seq<char>>,
}

impl DeepView for PackageIdSpec {
    type V = PackageIdSpecView;

    open spec fn deep_view(&self) -> PackageIdSpecView {
        PackageIdSpecView {
            name: self.name@,
            version: self.version.deep_view(),
            url: self.url.deep_view(),
        }
    }
}

/// What parsing a URL-qualified package id spec yields: the name and
/// version come from the fragment when one is given — `name:version`,
/// a name beginning with a letter, or a bare version falling back to the
/// last path segment as the name — else from the last path segment; the
/// fragment leaves the recorded URL.
pub open spec fn parse_pkgid_url(s: Seq<char>) -> Result<PackageIdSpecView, ErrorView> {
    match crate::ext::url_parse(s) {
        None => Err(ErrorView::InvalidPackageIdSpec(s)),
        Some(t) => match t.3 {
            None => Err(ErrorView::InvalidPackageIdSpec(s)),
            Some(seg) => match t.1 {
                None => Ok(PackageIdSpecView { name: seg, version: None, url: Some(t.2) }),
                Some(frag) => {
                    let i = first_char(frag, ':');
                    if i < frag.len() {
                        match semver_parse(frag.subrange(i + 1, frag.len() as int)) {
                            None => Err(ErrorView::InvalidPackageIdSpec(s)),
                            Some(v) => Ok(
                                PackageIdSpecView {
                                    name: frag.subrange(0, i),
                                    version: Some(
                                        VersionView {
                                            major: v.0,
                                            minor: v.1,
                                            patch: v.2,
                                            pre: v.3,
                                            build: v.4,
                                        },
                                    ),
                                    url: Some(t.2),
                                },
                            ),
                        }
                    } else if frag.len() > 0 && crate::ext::char_alphabetic(frag[0]) {
                        Ok(PackageIdSpecView { name: frag, version: None, url: Some(t.2) })
                    } else {
                        match semver_parse(frag) {
                            None => Err(ErrorView::InvalidPackageIdSpec(s)),
                            Some(v) => Ok(
                                PackageIdSpecView {
                                    name: seg,
                                    version: Some(
                                        VersionView {
                                            major: v.0,
                                            minor: v.1,
                                            patch: v.2,
                                            pre: v.3,
                                            build: v.4,
                                        },
                                    ),
                                    url: Some(t.2),
                                },
                            ),
                        }
                    }
                },
            },
        },
    }
}

/// What parsing a package id spec yields. A text carrying a URL scheme
/// that parses is read as a URL-qualified spec; otherwise a
/// `name:version` text is split at the first colon, the version part must
/// parse and the name part must hold only name characters.
pub open spec fn parse_pkgid_spec(s: Seq<char>) -> Result<PackageIdSpecView, ErrorView> {
    if has_scheme_marker(s) && crate::ext::url_parse(s) is Some {
        parse_pkgid_url(s)
    } else {
        let i = first_char(s, ':');
        let name = if i < s.len() {
            s.subrange(0, i)
        } else {
            s
        };
        let version = if i < s.len() {
            match semver_parse(s.subrange(i + 1, s.len() as int)) {
                Some(t) => Ok(
                    Some(VersionView { major: t.0, minor: t.1, patch: t.2, pre: t.3, build: t.4 }),
                ),
                None => Err(()),
            }
        } else {
            Ok(None)
        };
        match version {
            Err(_) => Err(ErrorView::InvalidPackageIdSpec(s)),
            Ok(v) => if name_chars_ok(name) {
                Ok(PackageIdSpecView { name, version: v, url: None })
            } else {
                Err(ErrorView::InvalidPackageIdSpec(s))
            },
        }
    }
}

impl PackageIdSpec {
    /// Parses a `name` or `name:version` spec.
    pub fn parse(spec: &str) -> (r: Result<PackageIdSpec, ManifestError>)
        ensures
            crate::errors::result_view(r) == parse_pkgid_spec(spec@),
    {
        proof {
            crate::strutil::lemma_first_char(spec@, ':');
        }
        if contains_scheme_marker(spec) {
            if let Some(parts) = crate::ext::parse_url(spec) {
                let seg = match parts.last_segment {
                    Some(seg) => seg,
                    None => {
                        return Err(ManifestError::InvalidPackageIdSpec(spec.to_owned()));
                    },
                };
                match parts.fragment {
                    None => {
                        return Ok(
                            PackageIdSpec {
                                name: seg,
                                version: None,
                                url: Some(parts.text_no_fragment),
                            },
                        );
                    },
                    Some(frag) => {
                        proof {
                            crate::strutil::lemma_first_char(frag@, ':');
                        }
                        let frag_len = frag.as_str().unicode_len();
                        match find_first_char(frag.as_str(), ':') {
                            Some(i) => {
                                let name = frag.as_str().substring_char(0, i).to_owned();
                                let vtext = frag.as_str().substring_char(i + 1, frag_len);
                                match parse_version(vtext) {
                                    Some(v) => {
                                        return Ok(
                                            PackageIdSpec {
                                                name,
                                                version: Some(v),
                                                url: Some(parts.text_no_fragment),
                                            },
                                        );
                                    },
                                    None => {
                                        return Err(
                                            ManifestError::InvalidPackageIdSpec(spec.to_owned()),
                                        );
                                    },
                                }
                            },
                            None => {
                                if frag_len > 0 && crate::ext::is_alphabetic_char(
                                    frag.as_str().get_char(0),
                                ) {
                                    return Ok(
                                        PackageIdSpec {
                                            name: frag,
                                            version: None,
                                            url: Some(parts.text_no_fragment),
                                        },
                                    );
                                }
                                match parse_version(frag.as_str()) {
                                    Some(v) => {
                                        return Ok(
                                            PackageIdSpec {
                                                name: seg,
                                                version: Some(v),
                                                url: Some(parts.text_no_fragment),
                                            },
                                        );
                                    },
                                    None => {
                                        return Err(
                                            ManifestError::InvalidPackageIdSpec(spec.to_owned()),
                                        );
                                    },
                                }
                            },
                        }
                    },
                }
            }
        }
        let len = spec.unicode_len();
        let (name, version) = match find_first_char(spec, ':') {
            Some(i) => {
                let name = spec.substring_char(0, i);
                let vtext = spec.substring_char(i + 1, len);
                match parse_version(vtext) {
                    Some(v) => (name, Some(v)),
                    None => {
                        return Err(ManifestError::InvalidPackageIdSpec(spec.to_owned()));
                    },
                }
            },
            None => (spec, None),
        };
        match find_bad_name_char(name) {
            Some(_) => Err(ManifestError::InvalidPackageIdSpec(spec.to_owned())),
            None => Ok(PackageIdSpec { name: name.to_owned(), version, url: None }),
        }
    }

    /// Copies a package id spec.
    pub fn duplicate(&self) -> (r: PackageIdSpec)
        ensures
            r.deep_view() == self.deep_view(),
    {
        let version = match &self.version {
            Some(v) => Some(v.duplicate()),
            None => None,
        };
        let url = match &self.url {
            Some(u) => Some(u.clone()),
            None => None,
        };
        PackageIdSpec { name: self.name.clone(), version, url }
    }
}

} // verus!

verus! {

impl PackageIdSpec {
    /// Equality of two package id specs, read at the view level.
    pub fn same(&self, other: &PackageIdSpec) -> (r: bool)
        ensures
            r == (self.deep_view() == other.deep_view()),
    {
        let vs = match (&self.version, &other.version) {
            (None, None) => true,
            (Some(a), Some(b)) => a.same(b),
            _ => false,
        };
        crate::strutil::str_eq(self.name.as_str(), other.name.as_str()) && vs
            && crate::strutil::opt_str_eq(&self.url, &other.url)
    }
}

} // verus!
