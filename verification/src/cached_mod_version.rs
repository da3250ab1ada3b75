//! One cached version of a mod: an archive in the cache and its manifest.

use crate::mod_manifest::{lemma_manifest_names, ModManifest, ModManifestView};
use crate::shared_traits::{ModName, ModVersion};
use crate::text::same_text;
use crate::version::{order_of, same_version, Version, VersionOrder};
use vstd::prelude::*;

verus! {

/// An archive in the cache, with what is written down of it.
#[derive(Clone, Debug)]
pub struct CachedModVersion {
    pub path: String,
    pub manifest: ModManifest,
}

/// What a `CachedModVersion` holds, as characters.
pub struct CachedModVersionView {
    pub path: Seq<char>,
    pub manifest: ModManifestView,
}

impl View for CachedModVersion {
    type V = CachedModVersionView;

    open spec fn view(&self) -> CachedModVersionView {
        CachedModVersionView { path: self.path@, manifest: self.manifest@ }
    }
}

impl PartialEq for CachedModVersion {
    /// Two cached versions are equal when their manifests state the same
    /// version; where the archives lie plays no part.
    fn eq(&self, other: &Self) -> (equal: bool) {
        proof {
            lemma_manifest_names(self.manifest);
            lemma_manifest_names(other.manifest);
        }
        self.manifest.get_version().same(other.manifest.get_version())
    }
}

impl vstd::std_specs::cmp::PartialEqSpecImpl for CachedModVersion {
    open spec fn obeys_eq_spec() -> bool {
        true
    }

    open spec fn eq_spec(&self, other: &Self) -> bool {
        same_version(self@.manifest.version, other@.manifest.version)
    }
}

impl CachedModVersion {
    /// Whether the two lie at one path, and so are one archive. This is no
    /// equality of cached versions: that goes by the version alone.
    pub fn same_archive(&self, other: &CachedModVersion) -> (same: bool)
        ensures
            same == (self.path@ == other.path@),
    {
        same_text(self.path.as_str(), other.path.as_str())
    }

    /// Whether the two are of the same version, as `==` says it. Two cached
    /// versions of one version text are equal, and neither stands before the
    /// other.
    pub fn same_version_as(&self, other: &CachedModVersion) -> (same: bool)
        ensures
            same == same_version(self@.manifest.version, other@.manifest.version),
            self@.manifest.version == other@.manifest.version ==> same && order_of(
                self@.manifest.version,
                other@.manifest.version,
            ) == VersionOrder::Equal,
    {
        *self == *other
    }

    /// A copy of this cached version.
    pub fn duplicate(&self) -> (copy: Self)
        ensures
            copy@ == self@,
    {
        CachedModVersion { path: self.path.clone(), manifest: self.manifest.duplicate() }
    }
}

impl ModName for CachedModVersion {
    open spec fn name(&self) -> Seq<char> {
        self.manifest@.name
    }

    fn get_name(&self) -> (name: &str) {
        proof {
            lemma_manifest_names(self.manifest);
        }
        self.manifest.get_name()
    }

    fn is_same_name(&self, mod_name: &str) -> (same: bool) {
        proof {
            lemma_manifest_names(self.manifest);
        }
        self.manifest.is_same_name(mod_name)
    }
}

impl ModVersion for CachedModVersion {
    open spec fn version(&self) -> Seq<char> {
        self.manifest@.version
    }

    fn get_version(&self) -> (version: &Version) {
        proof {
            lemma_manifest_names(self.manifest);
        }
        self.manifest.get_version()
    }

    fn get_order(&self, mod_version: &Version) -> (order: VersionOrder) {
        proof {
            lemma_manifest_names(self.manifest);
        }
        self.manifest.get_order(mod_version)
    }
}

} // verus!
