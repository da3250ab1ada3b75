//! The cache of downloaded archives. Every archive lies in the folder of its
//! mod, beside a manifest with the same base name; the index of the cache is
//! a function of what the folders hold, and what is not part of a pair of
//! archive and readable manifest is litter.

use crate::cached_mod::{
    lemma_cached_mod_view, lemma_versions_of_views, version_texts, versions_of, views_of,
    CachedMod, CachedModView,
};
use crate::cached_mod_version::{CachedModVersion, CachedModVersionView};
use crate::github_mod_repository::same_optional_text;
use crate::mod_manifest::{
    base_name, extension, lemma_manifest_names, manifest_name, separate_file_and_ext,
    ModManifest, ModManifestView,
};
use crate::remote_mod_access::{optional_text, ModKind, ModKindView};
use crate::shared_traits::{normalized, ModName, ModVersion, ModVersionDownload};
use crate::text::{join_text, same_text};
use crate::version::{
    lemma_newest_index, newest_index, order_of, position_of, Version, VersionOrder,
};
use vstd::prelude::*;

verus! {

/// One file in the folder of a mod: its base name, its last extension, its
/// path, and, where it holds a manifest that could be read, that manifest.
#[derive(Debug)]
pub struct CacheFile {
    pub file_name: String,
    pub file_ext: Option<String>,
    pub path: String,
    pub manifest: Option<ModManifest>,
}

impl CacheFile {
    /// The file named `name` at `path`; `manifest` is what was read out of
    /// it, where it is a manifest and could be read.
    pub fn new(name: &str, path: String, manifest: Option<ModManifest>) -> (file: Self)
        ensures
            file.file_name@ == base_name(name@),
            optional_text(file.file_ext) == extension(name@),
            file.path == path,
            file.manifest == manifest,
    {
        let (file_name, file_ext) = separate_file_and_ext(name);
        Self { file_name, file_ext, path, manifest }
    }

    /// Whether the file's name is that of a manifest.
    pub fn is_manifest(&self) -> (manifest: bool)
        ensures
            manifest == is_manifest_file(*self),
    {
        match &self.file_ext {
            Some(ext) => same_text(ext.as_str(), ".manifest"),
            None => false,
        }
    }
}

/// How the cache stands to a version that a host offers. The words say what
/// the cache holds: a newer version than the offered one, the same, or an
/// older one.
#[derive(Clone, Copy, Debug, PartialEq, Eq, Structural)]
pub enum ModCacheStatus {
    NotCached,
    NewerVersion,
    SameVersion,
    OlderVersion,
}

/// Why the cache could not do what it was asked.
#[derive(Clone, Copy, Debug, PartialEq, Eq, Structural)]
pub enum CacheError {
    /// The path of the cache is no folder.
    NotADirectory,
    /// The version that was stored is not in the index.
    NotFound,
}

impl CacheError {
    /// The error in words, as characters.
    pub open spec fn text(&self) -> Seq<char> {
        match self {
            CacheError::NotADirectory => "The path provided was not a directory"@,
            CacheError::NotFound => "Failed to find cached version"@,
        }
    }

    /// The error in words.
    pub fn message(&self) -> (text: &'static str)
        ensures
            text@ == self.text(),
    {
        match self {
            CacheError::NotADirectory => "The path provided was not a directory",
            CacheError::NotFound => "Failed to find cached version",
        }
    }
}

/// The file's name is that of a manifest.
pub open spec fn is_manifest_file(file: CacheFile) -> bool {
    optional_text(file.file_ext) == Some(".manifest"@)
}

/// `other` has the base name of `file` and another extension.
pub open spec fn pairs_with(file: CacheFile, other: CacheFile) -> bool {
    other.file_name@ == file.file_name@ && optional_text(other.file_ext) != optional_text(
        file.file_ext,
    )
}

/// The position of the first of `files[from..]` that pairs with file `i`; the
/// number of files when none does.
pub open spec fn pair_from(files: Seq<CacheFile>, i: int, from: int) -> int
    decreases files.len() - from,
{
    if from < 0 || from >= files.len() {
        files.len() as int
    } else if pairs_with(files[i], files[from]) {
        from
    } else {
        pair_from(files, i, from + 1)
    }
}

/// The position of the file that file `i` is paired with.
pub open spec fn pair_of(files: Seq<CacheFile>, i: int) -> int {
    pair_from(files, i, 0)
}

/// File `i` is a manifest that could be read and has an archive beside it.
pub open spec fn is_valid_pair(files: Seq<CacheFile>, i: int) -> bool {
    0 <= i < files.len() && is_manifest_file(files[i]) && pair_of(files, i) < files.len()
        && files[i].manifest is Some
}

/// File `k` is, or is paired with, one of the first `n` files that are valid
/// manifests.
pub open spec fn keeps_upto(files: Seq<CacheFile>, k: int, n: int) -> bool {
    exists|i: int|
        0 <= i < n && #[trigger] is_valid_pair(files, i) && (i == k || pair_of(files, i) == k)
}

/// File `k` is part of the cache: a valid manifest, or the archive of one.
/// Every other file is litter.
pub open spec fn keeps(files: Seq<CacheFile>, k: int) -> bool {
    keeps_upto(files, k, files.len() as int)
}

/// The cached versions that the first `n` files give, in order: one for
/// every valid manifest, with the path of its archive.
pub open spec fn found_versions(files: Seq<CacheFile>, n: int) -> Seq<CachedModVersionView>
    decreases n,
{
    if n <= 0 {
        Seq::empty()
    } else if is_valid_pair(files, n - 1) {
        found_versions(files, n - 1).push(
            CachedModVersionView {
                path: files[pair_of(files, n - 1)].path@,
                manifest: files[n - 1].manifest->0@,
            },
        )
    } else {
        found_versions(files, n - 1)
    }
}

/// The first `n` files without the litter among them.
pub open spec fn kept_files(files: Seq<CacheFile>, n: int) -> Seq<CacheFile>
    decreases n,
{
    if n <= 0 {
        Seq::empty()
    } else if keeps(files, n - 1) {
        kept_files(files, n - 1).push(files[n - 1])
    } else {
        kept_files(files, n - 1)
    }
}

/// The mod that a folder gives: none where it holds no cached version, else
/// the versions under the name and origin of the first of them.
pub open spec fn folder_mod(files: Seq<CacheFile>) -> Option<CachedModView> {
    let versions = found_versions(files, files.len() as int);
    if versions.len() == 0 {
        None
    } else {
        Some(
            CachedModView {
                name: versions[0].manifest.name,
                versions,
                mod_kind: versions[0].manifest.mod_kind,
            },
        )
    }
}

/// The index that the first `n` folders give, in order.
pub open spec fn cache_index(folders: Seq<Vec<CacheFile>>, n: int) -> Seq<CachedModView>
    decreases n,
{
    if n <= 0 {
        Seq::empty()
    } else {
        match folder_mod(folders[n - 1]@) {
            Some(found) => cache_index(folders, n - 1).push(found),
            None => cache_index(folders, n - 1),
        }
    }
}

/// The position of the first of `mods[from..]` that is named `name`; the
/// number of mods when none is.
pub open spec fn named_from(mods: Seq<CachedModView>, name: Seq<char>, from: int) -> int
    decreases mods.len() - from,
{
    if from < 0 || from >= mods.len() {
        mods.len() as int
    } else if mods[from].name == name {
        from
    } else {
        named_from(mods, name, from + 1)
    }
}

/// The position of the first of `mods[from..]` that comes from `mod_kind`;
/// the number of mods when none does.
pub open spec fn of_kind_from(mods: Seq<CachedModView>, mod_kind: ModKindView, from: int) -> int
    decreases mods.len() - from,
{
    if from < 0 || from >= mods.len() {
        mods.len() as int
    } else if mods[from].mod_kind == mod_kind {
        from
    } else {
        of_kind_from(mods, mod_kind, from + 1)
    }
}

/// How an index stands to the version `version` of the mod `name`.
pub open spec fn status_of(mods: Seq<CachedModView>, name: Seq<char>, version: Seq<char>) -> ModCacheStatus {
    let at = named_from(mods, name, 0);
    if at >= mods.len() || mods[at].versions.len() == 0 {
        ModCacheStatus::NotCached
    } else {
        let newest = mods[at].versions[newest_index(version_texts(mods[at].versions))];
        match order_of(version, newest.manifest.version) {
            VersionOrder::Less => ModCacheStatus::NewerVersion,
            VersionOrder::Equal => ModCacheStatus::SameVersion,
            VersionOrder::Greater => ModCacheStatus::OlderVersion,
        }
    }
}

/// The cached version `version` of the mod at `at` in an index.
pub open spec fn version_at(mods: Seq<CachedModView>, at: int, version: Seq<char>) -> Option<
    CachedModVersionView,
> {
    if at < 0 || at >= mods.len() || position_of(version_texts(mods[at].versions), version, 0)
        >= mods[at].versions.len() {
        None
    } else {
        Some(mods[at].versions[position_of(version_texts(mods[at].versions), version, 0)])
    }
}

/// What looking up the version `version` of the mod `name` gives.
pub open spec fn lookup(mods: Seq<CachedModView>, name: Seq<char>, version: Seq<char>) -> Option<
    CachedModVersionView,
> {
    version_at(mods, named_from(mods, name, 0), version)
}

/// What looking up the version `version` of the mod from `mod_kind` gives.
pub open spec fn lookup_kind(
    mods: Seq<CachedModView>,
    mod_kind: ModKindView,
    version: Seq<char>,
) -> Option<CachedModVersionView> {
    version_at(mods, of_kind_from(mods, mod_kind, 0), version)
}

/// The name under which the archive of a download is stored: the version in
/// its file-system form, a `_`, and the archive's own file name.
pub open spec fn archive_name(version: Seq<char>, file_name: Seq<char>) -> Seq<char> {
    normalized(version) + "_"@ + file_name
}

/// What one pass over a folder finds: the cached versions, and for every
/// file whether it is part of the cache or litter.
pub struct CacheScan {
    pub versions: Vec<CachedModVersion>,
    pub keep: Vec<bool>,
}

/// What has to be written to store a download: the folder of the mod, the
/// names of archive and manifest in it, and the manifest.
pub struct CachePlan {
    pub folder_name: String,
    pub archive_name: String,
    pub manifest_name: String,
    pub manifest: ModManifest,
}

/// The position of the file that file `i` is paired with.
pub fn find_pair(files: &Vec<CacheFile>, i: usize) -> (pair: usize)
    requires
        i < files.len(),
    ensures
        pair == pair_of(files@, i as int),
        pair <= files.len(),
{
    let mut j: usize = 0;
    while j < files.len()
        invariant
            j <= files.len(),
            i < files.len(),
            pair_of(files@, i as int) == pair_from(files@, i as int, j as int),
        decreases files.len() - j,
    {
        if same_text(files[j].file_name.as_str(), files[i].file_name.as_str())
            && !same_optional_text(&files[j].file_ext, &files[i].file_ext) {
            return j;
        }
        j += 1;
    }
    j
}

/// One pass over the files of a folder: pairs every manifest with the first
/// file of the same base name and another extension, takes a cached version
/// from every pair whose manifest could be read, and marks as litter every
/// file that is part of no such pair.
pub fn clean_unmanaged_files_and_build_cache(files: &Vec<CacheFile>) -> (scan: CacheScan)
    ensures
        views_of(scan.versions@) == found_versions(files@, files@.len() as int),
        scan.keep@.len() == files@.len(),
        forall|k: int| 0 <= k < files@.len() ==> scan.keep@[k] == keeps(files@, k),
        marks_litter(scan.keep@, files@),
{
    let mut keep: Vec<bool> = Vec::new();
    let mut k: usize = 0;
    while k < files.len()
        invariant
            k <= files.len(),
            keep@.len() == k,
            forall|m: int| 0 <= m < k ==> !keep@[m],
        decreases files.len() - k,
    {
        keep.push(false);
        k += 1;
    }
    let mut versions: Vec<CachedModVersion> = Vec::new();
    let mut i: usize = 0;
    assert(views_of(versions@) =~= found_versions(files@, 0));
    while i < files.len()
        invariant
            i <= files.len(),
            keep@.len() == files@.len(),
            views_of(versions@) == found_versions(files@, i as int),
            forall|m: int| 0 <= m < files@.len() ==> keep@[m] == keeps_upto(files@, m, i as int),
        decreases files.len() - i,
    {
        let ghost marks = keep@;
        let mut valid = false;
        let mut pair: usize = 0;
        if files[i].is_manifest() {
            pair = find_pair(files, i);
            if pair < files.len() {
                if let Some(manifest) = &files[i].manifest {
                    let version = CachedModVersion {
                        manifest: manifest.duplicate(),
                        path: files[pair].path.clone(),
                    };
                    proof {
                        assert(views_of(versions@.push(version)) =~= views_of(versions@).push(
                            version@,
                        ));
                    }
                    versions.push(version);
                    keep.set(i, true);
                    keep.set(pair, true);
                    valid = true;
                }
            }
        }
        proof {
            assert(valid == is_valid_pair(files@, i as int));
            assert forall|m: int| 0 <= m < files@.len() implies keep@[m] == keeps_upto(
                files@,
                m,
                i + 1,
            ) by {
                if keeps_upto(files@, m, i + 1) {
                    let w = choose|w: int|
                        0 <= w < i + 1 && #[trigger] is_valid_pair(files@, w) && (w == m
                            || pair_of(files@, w) == m);
                    if w < i {
                        assert(keeps_upto(files@, m, i as int));
                    }
                }
                if marks[m] {
                    let w = choose|w: int|
                        0 <= w < i && #[trigger] is_valid_pair(files@, w) && (w == m || pair_of(
                            files@,
                            w,
                        ) == m);
                    assert(0 <= w < i + 1 && is_valid_pair(files@, w));
                }
                if valid && (m == i || m == pair) {
                    assert(is_valid_pair(files@, i as int));
                }
            }
        }
        i += 1;
    }
    CacheScan { versions, keep }
}

/// `marks` says of every file of `files` whether it is part of the cache.
pub open spec fn marks_litter(marks: Seq<bool>, files: Seq<CacheFile>) -> bool {
    marks.len() == files.len() && forall|k: int|
        0 <= k < files.len() ==> #[trigger] marks[k] == keeps(files, k)
}

/// The views of a list of cached mods, in order.
pub open spec fn mod_views(mods: Seq<CachedMod>) -> Seq<CachedModView> {
    mods.map_values(|m: CachedMod| m@)
}

/// What a pass over all folders finds: the index, and for every file of every
/// folder whether it is part of the cache or litter.
pub struct CacheRebuild {
    pub cached_mods: Vec<CachedMod>,
    pub keep: Vec<Vec<bool>>,
}

/// One pass over the folders of the cache: every folder is cleaned and read,
/// and a folder that holds a cached version gives a mod of the index, under
/// the name and origin that its first manifest states.
pub fn calculate_cache(folders: &Vec<Vec<CacheFile>>) -> (rebuilt: CacheRebuild)
    ensures
        mod_views(rebuilt.cached_mods@) == cache_index(folders@, folders@.len() as int),
        rebuilt.keep@.len() == folders@.len(),
        forall|f: int|
            0 <= f < folders@.len() ==> marks_litter(#[trigger] rebuilt.keep@[f]@, folders@[f]@),
{
    let mut cached_mods: Vec<CachedMod> = Vec::new();
    let mut keep: Vec<Vec<bool>> = Vec::new();
    let mut f: usize = 0;
    assert(mod_views(cached_mods@) =~= cache_index(folders@, 0));
    while f < folders.len()
        invariant
            f <= folders.len(),
            keep@.len() == f,
            mod_views(cached_mods@) == cache_index(folders@, f as int),
            forall|g: int| 0 <= g < f ==> marks_litter(#[trigger] keep@[g]@, folders@[g]@),
        decreases folders.len() - f,
    {
        let scan = clean_unmanaged_files_and_build_cache(&folders[f]);
        let CacheScan { versions, keep: marks } = scan;
        if versions.len() > 0 {
            let name = versions[0].manifest.get_name().to_owned();
            let mod_kind = versions[0].manifest.get_mod_kind().duplicate();
            proof {
                lemma_manifest_names(versions@[0].manifest);
                assert(views_of(versions@)[0] == versions@[0]@);
            }
            let cached = CachedMod::new(name, versions, mod_kind);
            proof {
                assert(mod_views(cached_mods@.push(cached)) =~= mod_views(cached_mods@).push(
                    cached@,
                ));
            }
            cached_mods.push(cached);
        } else {
            assert(views_of(versions@).len() == 0);
        }
        let ghost before = keep@;
        keep.push(marks);
        proof {
            assert forall|g: int| 0 <= g < f + 1 implies marks_litter(
                #[trigger] keep@[g]@,
                folders@[g]@,
            ) by {
                if g < f {
                    assert(keep@[g] == before[g]);
                }
            }
        }
        f += 1;
    }
    CacheRebuild { cached_mods, keep }
}

/// The index of the cache, and the folder it was read from.
#[derive(Debug)]
pub struct CacheModAccess {
    cache_dir: String,
    cached_mods: Vec<CachedMod>,
}

impl View for CacheModAccess {
    type V = Seq<CachedModView>;

    closed spec fn view(&self) -> Seq<CachedModView> {
        mod_views(self.cached_mods@)
    }
}

impl CacheModAccess {
    /// The folder of the cache, as it was given.
    pub closed spec fn directory(&self) -> Seq<char> {
        self.cache_dir@
    }

    /// Opens the cache at `cache_path`, which the caller found to be a
    /// folder or not, over the files that its folders hold.
    pub fn build(cache_path: &str, is_directory: bool, folders: &Vec<Vec<CacheFile>>) -> (built:
        Result<(Self, Vec<Vec<bool>>), CacheError>)
        ensures
            built is Ok <==> is_directory,
            built matches Err(e) ==> e == CacheError::NotADirectory,
            built matches Ok(b) ==> {
                &&& b.0.directory() == cache_path@
                &&& b.0@ == cache_index(folders@, folders@.len() as int)
                &&& b.1@.len() == folders@.len()
                &&& forall|f: int|
                    0 <= f < folders@.len() ==> marks_litter(#[trigger] b.1@[f]@, folders@[f]@)
            },
    {
        if !is_directory {
            return Err(CacheError::NotADirectory);
        }
        let CacheRebuild { cached_mods, keep } = calculate_cache(folders);
        Ok((Self { cache_dir: cache_path.to_owned(), cached_mods }, keep))
    }

    /// Reads the index anew from what the folders hold now; what was in the
    /// index before plays no part. Says for every file whether it stays.
    pub fn rebuild(&mut self, folders: &Vec<Vec<CacheFile>>) -> (keep: Vec<Vec<bool>>)
        ensures
            final(self).directory() == old(self).directory(),
            final(self)@ == cache_index(folders@, folders@.len() as int),
            keep@.len() == folders@.len(),
            forall|f: int|
                0 <= f < folders@.len() ==> marks_litter(#[trigger] keep@[f]@, folders@[f]@),
    {
        let CacheRebuild { cached_mods, keep } = calculate_cache(folders);
        self.cached_mods = cached_mods;
        keep
    }

    /// The folder of the cache.
    pub fn cache_dir(&self) -> (path: &str)
        ensures
            path@ == self.directory(),
    {
        self.cache_dir.as_str()
    }

    /// The number of mods in the index.
    pub fn len(&self) -> (count: usize)
        ensures
            count == self@.len(),
    {
        self.cached_mods.len()
    }

    /// The position of the first mod of the index that is named `name`.
    fn find_named(&self, name: &str) -> (at: usize)
        ensures
            at == named_from(self@, name@, 0),
            at <= self.cached_mods@.len(),
            at < self.cached_mods@.len() ==> self.cached_mods@[at as int]@ == self@[at as int],
    {
        let mut i: usize = 0;
        while i < self.cached_mods.len()
            invariant
                i <= self.cached_mods.len(),
                named_from(self@, name@, 0) == named_from(self@, name@, i as int),
            decreases self.cached_mods.len() - i,
        {
            proof {
                lemma_cached_mod_view(self.cached_mods@[i as int]);
            }
            if self.cached_mods[i].is_same_name(name) {
                return i;
            }
            i += 1;
        }
        i
    }

    /// How the cache stands to the version that `mod_version` offers: the
    /// offered version is held against the newest cached version of the mod
    /// of the same name.
    pub fn get_status<Offered: ModVersion>(&self, mod_version: &Offered) -> (status: ModCacheStatus)
        ensures
            status == status_of(self@, mod_version.name(), mod_version.version()),
    {
        let at = self.find_named(mod_version.get_name());
        if at == self.cached_mods.len() {
            return ModCacheStatus::NotCached;
        }
        let cached = &self.cached_mods[at];
        proof {
            lemma_cached_mod_view(*cached);
            lemma_versions_of_views(cached.versions());
        }
        let Some(newest) = cached.get_newest() else {
            return ModCacheStatus::NotCached;
        };
        proof {
            lemma_newest_index(versions_of(cached.versions()));
        }
        match mod_version.get_version().order(newest.get_version()) {
            VersionOrder::Less => ModCacheStatus::NewerVersion,
            VersionOrder::Equal => ModCacheStatus::SameVersion,
            VersionOrder::Greater => ModCacheStatus::OlderVersion,
        }
    }

    /// The cached version of the mod of the same name as `mod_version`, in
    /// the same version.
    pub fn get_cached_mod<Offered: ModVersion>(&self, mod_version: &Offered) -> (found: Option<
        &CachedModVersion,
    >)
        ensures
            found is Some <==> lookup(self@, mod_version.name(), mod_version.version()) is Some,
            found matches Some(v) ==> v@ == lookup(
                self@,
                mod_version.name(),
                mod_version.version(),
            )->0,
    {
        let at = self.find_named(mod_version.get_name());
        if at == self.cached_mods.len() {
            return None;
        }
        let cached = &self.cached_mods[at];
        proof {
            lemma_cached_mod_view(*cached);
            lemma_versions_of_views(cached.versions());
            crate::version::lemma_position_of(
                versions_of(cached.versions()),
                mod_version.version(),
                0,
            );
        }
        cached.get_version(mod_version.get_version())
    }

    /// The cached version `version` of the mod that comes from `mod_kind`.
    pub fn get_cached_mod_from_kind(&self, mod_kind: &ModKind, version: &Version) -> (found: Option<
        &CachedModVersion,
    >)
        ensures
            found is Some <==> lookup_kind(self@, mod_kind@, version@) is Some,
            found matches Some(v) ==> v@ == lookup_kind(self@, mod_kind@, version@)->0,
    {
        let mut i: usize = 0;
        while i < self.cached_mods.len()
            invariant
                i <= self.cached_mods.len(),
                of_kind_from(self@, mod_kind@, 0) == of_kind_from(self@, mod_kind@, i as int),
            decreases self.cached_mods.len() - i,
        {
            proof {
                lemma_cached_mod_view(self.cached_mods@[i as int]);
            }
            if self.cached_mods[i].get_mod_kind().same(mod_kind) {
                let cached = &self.cached_mods[i];
                proof {
                    lemma_versions_of_views(cached.versions());
                    crate::version::lemma_position_of(versions_of(cached.versions()), version@, 0);
                }
                return cached.get_version(version);
            }
            i += 1;
        }
        None
    }

    /// What has to be written to store a download: the archive goes into the
    /// folder of the mod under its version and its own file name, and the
    /// manifest beside it.
    pub fn cache_mod<Download: ModVersionDownload>(&self, downloader: &Download, mod_kind: ModKind) -> (plan:
        CachePlan)
        ensures
            plan.folder_name@ == normalized(downloader.name()),
            plan.archive_name@ == archive_name(downloader.version(), downloader.file_name()),
            plan.manifest_name@ == manifest_name(plan.archive_name@),
            plan.manifest@ == (ModManifestView {
                name: downloader.name(),
                version: downloader.version(),
                uploaded_at: downloader.upload_date(),
                mod_kind: mod_kind@,
            }),
    {
        let folder_name = downloader.to_file_name();
        let archive = to_file_name(downloader);
        let manifest_file = ModManifest::create_manifest_name(archive.as_str());
        let manifest = ModManifest::new(
            downloader.get_upload_date(),
            downloader.get_name().to_owned(),
            downloader.get_version().clone(),
            mod_kind,
        );
        CachePlan { folder_name, archive_name: archive, manifest_name: manifest_file, manifest }
    }

    /// Takes a stored download into the index: the index is read anew from
    /// the folders, every file is marked as staying or as litter, and the
    /// version is looked up under the mod's name.
    pub fn finish_cache_mod<Download: ModVersionDownload>(
        &mut self,
        downloader: &Download,
        folders: &Vec<Vec<CacheFile>>,
    ) -> (stored: (Vec<Vec<bool>>, Result<CachedModVersion, CacheError>))
        ensures
            final(self).directory() == old(self).directory(),
            final(self)@ == cache_index(folders@, folders@.len() as int),
            stored.0@.len() == folders@.len(),
            forall|f: int|
                0 <= f < folders@.len() ==> marks_litter(#[trigger] stored.0@[f]@, folders@[f]@),
            stored.1 is Ok <==> lookup(final(self)@, downloader.name(), downloader.version())
                is Some,
            stored.1 matches Ok(v) ==> v@ == lookup(
                final(self)@,
                downloader.name(),
                downloader.version(),
            )->0,
            stored.1 matches Err(e) ==> e == CacheError::NotFound,
    {
        let keep = self.rebuild(folders);
        let version = match self.get_cached_mod(downloader) {
            Some(version) => Ok(version.duplicate()),
            None => Err(CacheError::NotFound),
        };
        (keep, version)
    }

    /// Forgets everything: the index of a cache whose folders were removed.
    pub fn remove_cache(&mut self)
        ensures
            final(self).directory() == old(self).directory(),
            final(self)@ == Seq::<CachedModView>::empty(),
    {
        self.cached_mods = Vec::new();
        assert(mod_views(self.cached_mods@) =~= Seq::<CachedModView>::empty());
    }
}

/// The name under which the archive of a download is stored.
pub fn to_file_name<Download: ModVersionDownload>(mod_version: &Download) -> (name: String)
    ensures
        name@ == archive_name(mod_version.version(), mod_version.file_name()),
{
    let prefix = mod_version.to_file_version();
    let head = join_text(prefix.as_str(), "_");
    join_text(head.as_str(), mod_version.get_file_name())
}

} // verus!
