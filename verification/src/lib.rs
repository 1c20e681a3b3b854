//! Normalization core for package manifests.
//!
//! A raw descriptor parsed from a declarative configuration document is
//! turned into a fully resolved manifest: workspace-inherited fields are
//! resolved, the three dependency declaration styles are unified into one
//! canonical form, every dependency is bound to a single source identity,
//! build profiles are validated and merged, and unstable fields are gated
//! behind an explicit capability set.

use vstd::prelude::*;

pub mod errors;
pub mod ext;
pub mod features;
pub mod laws;
pub mod manifest;
pub mod names;
pub mod depend;
pub mod pkgid;
pub mod profiles;
pub mod project;
pub mod source;
pub mod strutil;
pub mod values;

verus! {

} // verus!
