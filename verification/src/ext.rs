//! Trusted boundary to the outside crates. Each wrapper makes exactly the
//! calls its doc comment names; its contract states what the outside
//! source shows, over plain values. Results that depend on the arguments
//! alone but are too intricate to restate are given names by bodyless
//! spec functions, which only these contracts apply.

use vstd::prelude::*;
use std::str::FromStr;

verus! {

/// The parts of a version text as the semantic-versioning parser reads
/// them: major, minor and patch numbers, pre-release text, build metadata.
pub uninterp spec fn semver_parse(s: Seq<char>) -> Option<(u64, u64, u64, Seq<char>, Seq<char>)>;

/// Whether a version requirement text is well-formed.
pub uninterp spec fn semver_req_ok(s: Seq<char>) -> bool;

/// The parts of a parsed URL this library reads: the canonical text, the
/// fragment, the canonical text with the fragment removed, and the last
/// path segment.
pub uninterp spec fn url_parse(s: Seq<char>) -> Option<
    (Seq<char>, Option<Seq<char>>, Seq<char>, Option<Seq<char>>),
>;

/// Whether a platform key parses as a target name or cfg expression.
pub uninterp spec fn platform_ok(s: Seq<char>) -> bool;

/// The diagnostics that checking a platform's cfg expression produces.
pub uninterp spec fn platform_warnings(s: Seq<char>) -> Seq<Seq<char>>;

/// Whether a character counts as alphanumeric under Unicode.
pub uninterp spec fn char_alphanumeric(c: char) -> bool;

/// Whether a character counts as alphabetic under Unicode.
pub uninterp spec fn char_alphabetic(c: char) -> bool;

/// A package version held as plain values.
#[derive(Debug, Clone, PartialEq, Eq)]
pub struct Version {
    pub major: u64,
    pub minor: u64,
    pub patch: u64,
    pub pre: String,
    pub build: String,
}

/// A parsed URL, reduced to the parts this library reads.
#[derive(Debug, Clone, PartialEq, Eq)]
pub struct UrlParts {
    pub text: String,
    pub fragment: Option<String>,
    /// The canonical text with the fragment removed.
    pub text_no_fragment: String,
    /// The last segment of the URL's path, absent for URLs that cannot be
    /// a base.
    pub last_segment: Option<String>,
}

/// Relies on `semver::Version::parse`: the result is a function of the
/// text alone; on success the five parts are returned as plain values.
#[verifier::external_body]
pub fn parse_version(s: &str) -> (r: Option<Version>)
    ensures
        match r {
            Some(v) => semver_parse(s@) matches Some(t) && v.major == t.0 && v.minor == t.1
                && v.patch == t.2 && v.pre@ == t.3 && v.build@ == t.4,
            None => semver_parse(s@) is None,
        },
{
    match semver::Version::parse(s) {
        Ok(v) => Some(Version {
            major: v.major,
            minor: v.minor,
            patch: v.patch,
            pre: v.pre.as_str().to_string(),
            build: v.build.as_str().to_string(),
        }),
        Err(_) => None,
    }
}

/// Relies on `semver::VersionReq::parse`: whether a requirement text is
/// accepted is a function of the text alone.
#[verifier::external_body]
pub fn version_req_ok(s: &str) -> (r: bool)
    ensures
        r == semver_req_ok(s@),
{
    semver::VersionReq::parse(s).is_ok()
}

/// Relies on `url::Url::parse`: on success the URL's canonical text
/// (`Url::as_str`), its fragment (`Url::fragment`), its canonical text
/// after `Url::set_fragment(None)`, and the last entry of
/// `Url::path_segments` are returned; each is a function of the text
/// alone.
#[verifier::external_body]
pub fn parse_url(s: &str) -> (r: Option<UrlParts>)
    ensures
        match r {
            Some(p) => url_parse(s@) matches Some(t) && p.text@ == t.0 && p.fragment.deep_view()
                == t.1 && p.text_no_fragment@ == t.2 && p.last_segment.deep_view() == t.3,
            None => url_parse(s@) is None,
        },
{
    match url::Url::parse(s) {
        Ok(u) => {
            let mut bare = u.clone();
            bare.set_fragment(None);
            let last_segment = u.path_segments().and_then(|p| p.last()).map(|x| x.to_string());
            Some(UrlParts {
                text: u.as_str().to_string(),
                fragment: u.fragment().map(|f| f.to_string()),
                text_no_fragment: bare.as_str().to_string(),
                last_segment,
            })
        },
        Err(_) => None,
    }
}

/// Relies on `cargo_platform::Platform::from_str` and
/// `Platform::check_cfg_attributes`: both results are functions of the
/// key text alone. On success the cfg diagnostics are returned; on
/// failure the parser's message.
#[verifier::external_body]
pub fn check_platform(name: &str) -> (r: Result<Vec<String>, String>)
    ensures
        r is Ok <==> platform_ok(name@),
        r matches Ok(w) ==> w.deep_view() == platform_warnings(name@),
{
    match cargo_platform::Platform::from_str(name) {
        Ok(p) => {
            let mut w: Vec<String> = Vec::new();
            p.check_cfg_attributes(&mut w);
            Ok(w)
        },
        Err(e) => Err(e.to_string()),
    }
}

/// Relies on `char::is_alphanumeric` of std, which vstd leaves
/// unspecified.
#[verifier::external_body]
pub fn is_alphanumeric_char(c: char) -> (r: bool)
    ensures
        r == char_alphanumeric(c),
{
    c.is_alphanumeric()
}

/// Relies on `char::is_alphabetic` of std, which vstd leaves
/// unspecified.
#[verifier::external_body]
pub fn is_alphabetic_char(c: char) -> (r: bool)
    ensures
        r == char_alphabetic(c),
{
    c.is_alphabetic()
}

/// The structured-table value type of the document parser, carried
/// through this library opaquely as package metadata.
#[verifier::external_type_specification]
#[verifier::external_body]
pub struct ExTomlValue(toml::Value);

/// Relies on `toml::Value`'s derived `Clone` producing an equal value.
pub assume_specification[ <toml::Value as Clone>::clone ](v: &toml::Value) -> (r: toml::Value)
    ensures
        r == *v,
;

} // verus!

verus! {

/// The mathematical shape of a version: the numeric triple with the
/// pre-release and build texts.
pub ghost struct VersionView {
    pub major: u64,
    pub minor: u64,
    pub patch: u64,
    pub pre: Seq<char>,
    pub build: Seq<char>,
}

impl DeepView for Version {
    type V = VersionView;

    open spec fn deep_view(&self) -> VersionView {
        VersionView {
            major: self.major,
            minor: self.minor,
            patch: self.patch,
            pre: self.pre@,
            build: self.build@,
        }
    }
}

/// The mathematical shape of a parsed URL.
pub ghost struct UrlPartsView {
    pub text: Seq<char>,
    pub fragment: Option<Seq<char>>,
    pub text_no_fragment: Seq<char>,
    pub last_segment: Option<Seq<char>>,
}

impl DeepView for UrlParts {
    type V = UrlPartsView;

    open spec fn deep_view(&self) -> UrlPartsView {
        UrlPartsView {
            text: self.text@,
            fragment: self.fragment.deep_view(),
            text_no_fragment: self.text_no_fragment@,
            last_segment: self.last_segment.deep_view(),
        }
    }
}

impl Version {
    /// Copies a version value.
    pub fn duplicate(&self) -> (r: Version)
        ensures
            r.deep_view() == self.deep_view(),
    {
        Version {
            major: self.major,
            minor: self.minor,
            patch: self.patch,
            pre: self.pre.clone(),
            build: self.build.clone(),
        }
    }
}

} // verus!

verus! {

impl Version {
    /// Equality of two versions, read at the view level.
    pub fn same(&self, other: &Version) -> (r: bool)
        ensures
            r == (self.deep_view() == other.deep_view()),
    {
        self.major == other.major && self.minor == other.minor && self.patch == other.patch
            && crate::strutil::str_eq(self.pre.as_str(), other.pre.as_str())
            && crate::strutil::str_eq(self.build.as_str(), other.build.as_str())
    }
}

} // verus!

verus! {

/// Whether a character counts as whitespace under Unicode.
pub uninterp spec fn char_whitespace(c: char) -> bool;

/// Relies on `char::is_whitespace` of std, which vstd leaves
/// unspecified.
#[verifier::external_body]
pub fn is_whitespace_char(c: char) -> (r: bool)
    ensures
        r == char_whitespace(c),
{
    c.is_whitespace()
}

} // verus!
