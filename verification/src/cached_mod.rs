//! One mod in the cache: its name, where it comes from, and its cached
//! versions.

use crate::cached_mod_version::{CachedModVersion, CachedModVersionView};
use crate::remote_mod_access::{ModKind, ModKindView};
use crate::shared_traits::{ModName, ModVersion};
use crate::text::same_text;
use crate::version::{
    newest_index, position_of, Version,
    VersionOrder,
};
use vstd::prelude::*;

verus! {

/// The versions of a list of cached versions, in order.
pub open spec fn versions_of(versions: Seq<CachedModVersion>) -> Seq<Seq<char>> {
    versions.map_values(|v: CachedModVersion| v@.manifest.version)
}

/// The views of a list of cached versions, in order.
pub open spec fn views_of(versions: Seq<CachedModVersion>) -> Seq<CachedModVersionView> {
    versions.map_values(|v: CachedModVersion| v@)
}

/// The versions of a list of views of cached versions, in order.
pub open spec fn version_texts(versions: Seq<CachedModVersionView>) -> Seq<Seq<char>> {
    versions.map_values(|v: CachedModVersionView| v.manifest.version)
}

/// A mod in the cache.
#[derive(Debug)]
pub struct CachedMod {
    name: String,
    versions: Vec<CachedModVersion>,
    mod_kind: ModKind,
}

/// What a `CachedMod` holds, as characters.
pub struct CachedModView {
    pub name: Seq<char>,
    pub versions: Seq<CachedModVersionView>,
    pub mod_kind: ModKindView,
}

impl View for CachedMod {
    type V = CachedModView;

    closed spec fn view(&self) -> CachedModView {
        CachedModView {
            name: self.name@,
            versions: views_of(self.versions@),
            mod_kind: self.mod_kind@,
        }
    }
}

/// The versions of a list of cached versions are those of its views.
pub proof fn lemma_versions_of_views(versions: Seq<CachedModVersion>)
    ensures
        version_texts(views_of(versions)) == versions_of(versions),
{
    assert(version_texts(views_of(versions)) =~= versions_of(versions));
}

impl CachedMod {
    /// The cached versions, in the order in which they were found.
    pub closed spec fn versions(&self) -> Seq<CachedModVersion> {
        self.versions@
    }

    /// Where the mod comes from.
    pub closed spec fn mod_kind(&self) -> ModKindView {
        self.mod_kind@
    }

    /// A mod with its cached versions.
    pub fn new(name: String, versions: Vec<CachedModVersion>, mod_kind: ModKind) -> (cached: Self)
        ensures
            cached.name() == name@,
            cached.versions() == versions@,
            cached.mod_kind() == mod_kind@,
            cached@ == (CachedModView {
                name: name@,
                versions: views_of(versions@),
                mod_kind: mod_kind@,
            }),
    {
        Self { name, versions, mod_kind }
    }

    /// The cached version that is newest by its version: of two versions the
    /// later one in the list is taken unless the earlier one is greater.
    pub fn get_newest(&self) -> (newest: Option<&CachedModVersion>)
        ensures
            newest is Some <==> self.versions().len() > 0,
            newest matches Some(v) ==> *v == self.versions()[newest_index(
                versions_of(self.versions()),
            )],
    {
        if self.versions.len() == 0 {
            return None;
        }
        let mut best: usize = 0;
        let mut i: usize = 1;
        assert(versions_of(self.versions@.take(1)).len() == 1);
        while i < self.versions.len()
            invariant
                1 <= i <= self.versions.len(),
                best < i,
                best == newest_index(versions_of(self.versions@.take(i as int))),
            decreases self.versions.len() - i,
        {
            proof {
                let now = versions_of(self.versions@.take(i + 1));
                assert(now.drop_last() =~= versions_of(self.versions@.take(i as int)));
                assert(now.last() == self.versions@[i as int]@.manifest.version);
                assert(now[best as int] == self.versions@[best as int]@.manifest.version);
            }
            let order = self.versions[best].get_order(self.versions[i].get_version());
            if order != VersionOrder::Greater {
                best = i;
            }
            i += 1;
        }
        assert(self.versions@.take(self.versions.len() as int) == self.versions@);
        Some(&self.versions[best])
    }

    /// The first cached version that is of the given version.
    pub fn get_version(&self, version: &Version) -> (found: Option<&CachedModVersion>)
        ensures
            found is Some <==> position_of(versions_of(self.versions()), version@, 0)
                < self.versions().len(),
            found matches Some(v) ==> *v == self.versions()[position_of(
                versions_of(self.versions()),
                version@,
                0,
            )],
    {
        let mut i: usize = 0;
        while i < self.versions.len()
            invariant
                i <= self.versions.len(),
                position_of(versions_of(self.versions@), version@, 0) == position_of(
                    versions_of(self.versions@),
                    version@,
                    i as int,
                ),
            decreases self.versions.len() - i,
        {
            if self.versions[i].get_version().same(version) {
                return Some(&self.versions[i]);
            }
            i += 1;
        }
        None
    }

    /// Where the mod comes from.
    pub fn get_mod_kind(&self) -> (mod_kind: &ModKind)
        ensures
            mod_kind@ == self.mod_kind(),
    {
        &self.mod_kind
    }

    /// The number of cached versions.
    pub fn version_count(&self) -> (count: usize)
        ensures
            count == self.versions().len(),
    {
        self.versions.len()
    }
}

impl ModName for CachedMod {
    closed spec fn name(&self) -> Seq<char> {
        self.name@
    }

    fn get_name(&self) -> (name: &str) {
        self.name.as_str()
    }

    fn is_same_name(&self, mod_name: &str) -> (same: bool) {
        same_text(self.name.as_str(), mod_name)
    }
}

/// The view of a cached mod is made of its name, its versions and its origin.
pub proof fn lemma_cached_mod_view(cached: CachedMod)
    ensures
        cached@.name == cached.name(),
        cached@.versions == views_of(cached.versions()),
        cached@.mod_kind == cached.mod_kind(),
{
}

} // verus!
