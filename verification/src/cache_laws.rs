//! What holds of the cache whatever it is given: how its answers follow the
//! order of versions, that what is stored is found again, and that cleaning a
//! folder twice removes nothing the second time.

use crate::cache_mod_access::{
    cache_index, folder_mod, found_versions, is_manifest_file, is_valid_pair, keeps, keeps_upto,
    kept_files, lookup, named_from, pair_from, pair_of, pairs_with, status_of, CacheFile, ModCacheStatus,
};
use crate::cached_mod::{version_texts, CachedModView};
use crate::cached_mod_version::CachedModVersionView;
use crate::mod_manifest::{base_name, extension, manifest_name, ModManifest};
use crate::remote_mod_access::optional_text;
use crate::text::{last_index, lemma_last_index_before};
use crate::version::{newest_index, order_of, position_of, VersionOrder};
use vstd::prelude::*;

verus! {

/// A cache whose only version of a mod is the offered one has the same
/// version, whatever the version is.
pub proof fn law_same_version_is_same(name: Seq<char>, a: Seq<char>, holds_a: CachedModView)
    requires
        holds_a.name == name,
        holds_a.versions.len() == 1,
        holds_a.versions[0].manifest.version == a,
    ensures
        status_of(seq![holds_a], name, a) == ModCacheStatus::SameVersion,
{
    assert(named_from(seq![holds_a], name, 0) == 0);
    assert(newest_index(version_texts(holds_a.versions)) == 0);
}

/// The answer of the cache follows the order of versions. Of two versions
/// `a` before `b` of one mod: a cache that holds only `b` is ahead of an
/// offered `a`, a cache that holds only `a` has the same as an offered `a`,
/// and a cache that holds only `a` is behind an offered `b` wherever the
/// order, asked the other way round, puts `b` after `a`.
pub proof fn law_status_follows_version_order(
    name: Seq<char>,
    a: Seq<char>,
    b: Seq<char>,
    holds_a: CachedModView,
    holds_b: CachedModView,
)
    requires
        order_of(a, b) == VersionOrder::Less,
        holds_a.name == name,
        holds_a.versions.len() == 1,
        holds_a.versions[0].manifest.version == a,
        holds_b.name == name,
        holds_b.versions.len() == 1,
        holds_b.versions[0].manifest.version == b,
    ensures
        status_of(seq![holds_b], name, a) == ModCacheStatus::NewerVersion,
        status_of(seq![holds_a], name, a) == ModCacheStatus::SameVersion,
        order_of(b, a) == VersionOrder::Greater ==> status_of(seq![holds_a], name, b)
            == ModCacheStatus::OlderVersion,
{
    assert(named_from(seq![holds_a], name, 0) == 0);
    assert(named_from(seq![holds_b], name, 0) == 0);
    assert(newest_index(version_texts(holds_a.versions)) == 0);
    assert(newest_index(version_texts(holds_b.versions)) == 0);
}

/// A mod that the cache does not hold is not cached, whatever is offered.
pub proof fn law_unknown_mod_is_not_cached(
    mods: Seq<CachedModView>,
    name: Seq<char>,
    version: Seq<char>,
)
    requires
        forall|i: int| 0 <= i < mods.len() ==> (#[trigger] mods[i]).name != name,
    ensures
        status_of(mods, name, version) == ModCacheStatus::NotCached,
{
    lemma_named_from(mods, name, 0);
}

/// What `named_from` finds: a mod of that name, or the end of the index.
pub proof fn lemma_named_from(mods: Seq<CachedModView>, name: Seq<char>, from: int)
    requires
        0 <= from <= mods.len(),
    ensures
        from <= named_from(mods, name, from) <= mods.len(),
        named_from(mods, name, from) < mods.len() ==> mods[named_from(mods, name, from)].name
            == name,
    decreases mods.len() - from,
{
    if from < mods.len() && mods[from].name != name {
        lemma_named_from(mods, name, from + 1);
    }
}

/// What `pair_from` finds: the first file at or after `from` that pairs with
/// file `i`.
pub proof fn lemma_pair_from(files: Seq<CacheFile>, i: int, from: int)
    requires
        0 <= from <= files.len(),
    ensures
        from <= pair_from(files, i, from) <= files.len(),
        pair_from(files, i, from) < files.len() ==> pairs_with(
            files[i],
            files[pair_from(files, i, from)],
        ),
        forall|j: int|
            from <= j < pair_from(files, i, from) ==> !pairs_with(files[i], #[trigger] files[j]),
    decreases files.len() - from,
{
    if from < files.len() && !pairs_with(files[i], files[from]) {
        lemma_pair_from(files, i, from + 1);
    }
}

/// The first file that pairs with file `i` is its pair.
pub proof fn lemma_pair_is_first(files: Seq<CacheFile>, i: int, at: int)
    requires
        0 <= at < files.len(),
        pairs_with(files[i], files[at]),
        forall|j: int| 0 <= j < at ==> !pairs_with(files[i], #[trigger] files[j]),
    ensures
        pair_of(files, i) == at,
{
    lemma_pair_from(files, i, 0);
}

/// A manifest without an archive beside it is litter: one pass over its
/// folder marks it for removal.
pub proof fn law_orphan_manifest_is_removed(files: Seq<CacheFile>, k: int)
    requires
        0 <= k < files.len(),
        is_manifest_file(files[k]),
        pair_of(files, k) >= files.len(),
    ensures
        !keeps(files, k),
{
    if keeps(files, k) {
        let i = choose|i: int|
            0 <= i < files.len() && #[trigger] is_valid_pair(files, i) && (i == k || pair_of(
                files,
                i,
            ) == k);
        lemma_pair_from(files, i, 0);
    }
}

/// A file that is neither a manifest nor the archive of a readable manifest
/// is litter, and so is a manifest that could not be read.
pub proof fn law_unreadable_manifest_is_removed(files: Seq<CacheFile>, k: int)
    requires
        0 <= k < files.len(),
        is_manifest_file(files[k]),
        files[k].manifest is None,
    ensures
        !keeps(files, k),
{
    if keeps(files, k) {
        let i = choose|i: int|
            0 <= i < files.len() && #[trigger] is_valid_pair(files, i) && (i == k || pair_of(
                files,
                i,
            ) == k);
        lemma_pair_from(files, i, 0);
    }
}

/// The number of files that stay among the first `k`.
pub open spec fn rank(files: Seq<CacheFile>, k: int) -> int {
    kept_files(files, k).len() as int
}

/// The rank does not fall, and rises past a file that stays.
pub proof fn lemma_rank_rises(files: Seq<CacheFile>, low: int, high: int)
    requires
        0 <= low <= high <= files.len(),
    ensures
        0 <= rank(files, low) <= rank(files, high),
        low < high && keeps(files, low) ==> rank(files, low) < rank(files, high),
    decreases high - low,
{
    if low < high {
        lemma_rank_rises(files, low, high - 1);
        if low == high - 1 {
            assert(kept_files(files, high) == if keeps(files, high - 1) {
                kept_files(files, high - 1).push(files[high - 1])
            } else {
                kept_files(files, high - 1)
            });
        }
    }
}

/// A file that stays stands, among the files that stay, at its rank.
pub proof fn lemma_kept_at_rank(files: Seq<CacheFile>, n: int, k: int)
    requires
        0 <= k < n <= files.len(),
        keeps(files, k),
    ensures
        0 <= rank(files, k) < kept_files(files, n).len(),
        kept_files(files, n)[rank(files, k)] == files[k],
    decreases n,
{
    if k < n - 1 {
        lemma_kept_at_rank(files, n - 1, k);
    }
}

/// Every file among those that stay is a file of the folder that stays.
pub proof fn lemma_kept_origin(files: Seq<CacheFile>, n: int, p: int) -> (k: int)
    requires
        0 <= n <= files.len(),
        0 <= p < kept_files(files, n).len(),
    ensures
        0 <= k < n,
        keeps(files, k),
        rank(files, k) == p,
        kept_files(files, n)[p] == files[k],
    decreases n,
{
    if keeps(files, n - 1) && p == kept_files(files, n - 1).len() {
        n - 1
    } else {
        lemma_kept_origin(files, n - 1, p)
    }
}

/// The archive of a readable manifest is no manifest.
pub proof fn lemma_pair_is_no_manifest(files: Seq<CacheFile>, i: int)
    requires
        is_valid_pair(files, i),
    ensures
        0 <= pair_of(files, i) < files.len(),
        !is_manifest_file(files[pair_of(files, i)]),
        keeps(files, i),
        keeps(files, pair_of(files, i)),
{
    lemma_pair_from(files, i, 0);
}

/// A readable manifest with its archive is one again among the files that
/// stay, and its archive there is the archive it had.
pub proof fn lemma_valid_pair_stays(files: Seq<CacheFile>, i: int)
    requires
        is_valid_pair(files, i),
    ensures
        is_valid_pair(kept_files(files, files.len() as int), rank(files, i)),
        pair_of(kept_files(files, files.len() as int), rank(files, i)) == rank(
            files,
            pair_of(files, i),
        ),
{
    let n = files.len() as int;
    let kept = kept_files(files, n);
    let j = pair_of(files, i);
    lemma_pair_is_no_manifest(files, i);
    lemma_pair_from(files, i, 0);
    lemma_kept_at_rank(files, n, i);
    lemma_kept_at_rank(files, n, j);
    let p = rank(files, i);
    let q = rank(files, j);
    assert forall|r: int| 0 <= r < q implies !pairs_with(kept[p], #[trigger] kept[r]) by {
        let k = lemma_kept_origin(files, n, r);
        if k >= j {
            lemma_rank_rises(files, j, k);
        }
        assert(!pairs_with(files[i], files[k]));
    }
    lemma_pair_is_first(kept, p, q);
}

/// Cleaning is idempotent: of the files that one pass over a folder leaves,
/// a second pass removes none.
pub proof fn law_second_pass_removes_nothing(files: Seq<CacheFile>, p: int)
    requires
        0 <= p < kept_files(files, files.len() as int).len(),
    ensures
        keeps(kept_files(files, files.len() as int), p),
{
    let n = files.len() as int;
    let kept = kept_files(files, n);
    let k = lemma_kept_origin(files, n, p);
    let i = choose|i: int|
        0 <= i < n && #[trigger] is_valid_pair(files, i) && (i == k || pair_of(files, i) == k);
    lemma_valid_pair_stays(files, i);
    lemma_pair_is_no_manifest(files, i);
    lemma_kept_at_rank(files, n, i);
    let at = rank(files, i);
    assert(0 <= at < kept.len() && is_valid_pair(kept, at) && (at == p || pair_of(kept, at) == p));
}

/// A file that stays and is no readable manifest with an archive is one
/// neither among the files that stay.
pub proof fn lemma_invalid_stays_invalid(files: Seq<CacheFile>, k: int)
    requires
        0 <= k < files.len(),
        keeps(files, k),
        !is_valid_pair(files, k),
    ensures
        !is_valid_pair(kept_files(files, files.len() as int), rank(files, k)),
{
    let n = files.len() as int;
    let i = choose|i: int|
        0 <= i < n && #[trigger] is_valid_pair(files, i) && (i == k || pair_of(files, i) == k);
    lemma_pair_is_no_manifest(files, i);
    lemma_kept_at_rank(files, n, k);
}

/// The second pass finds what the first found: among the files that stay,
/// the first `rank(n)` give the cached versions that the first `n` files of
/// the folder gave.
pub proof fn lemma_second_pass_finds_the_same(files: Seq<CacheFile>, n: int)
    requires
        0 <= n <= files.len(),
    ensures
        found_versions(kept_files(files, files.len() as int), rank(files, n)) == found_versions(
            files,
            n,
        ),
    decreases n,
{
    let all = files.len() as int;
    let kept = kept_files(files, all);
    if n > 0 {
        lemma_second_pass_finds_the_same(files, n - 1);
        let p = rank(files, n - 1);
        if keeps(files, n - 1) {
            lemma_kept_at_rank(files, all, n - 1);
            assert(rank(files, n) == p + 1);
            if is_valid_pair(files, n - 1) {
                lemma_valid_pair_stays(files, n - 1);
                lemma_pair_is_no_manifest(files, n - 1);
                lemma_kept_at_rank(files, all, pair_of(files, n - 1));
            } else {
                lemma_invalid_stays_invalid(files, n - 1);
            }
        } else {
            assert(rank(files, n) == p);
        }
    }
}

/// Cleaning changes nothing of the index: the files that one pass over a
/// folder leaves give, in a second pass, the cached versions of the first.
pub proof fn law_second_pass_finds_the_same(files: Seq<CacheFile>)
    ensures
        found_versions(
            kept_files(files, files.len() as int),
            kept_files(files, files.len() as int).len() as int,
        ) == found_versions(files, files.len() as int),
{
    lemma_second_pass_finds_the_same(files, files.len() as int);
}

/// `.manifest` put behind a base name is that name's last extension.
pub proof fn lemma_manifest_name_splits(base: Seq<char>)
    ensures
        base_name(base + ".manifest"@) == base,
        extension(base + ".manifest"@) == Some(".manifest"@),
{
    reveal_strlit(".manifest");
    let s = base + ".manifest"@;
    let dot = base.len() as int;
    lemma_last_index_before(s, '.', s.len() as int);
    let found = last_index(s, '.');
    assert(s[dot] == '.');
    assert forall|j: int| dot < j < s.len() implies s[j] != '.' by {
        assert(s[j] == ".manifest"@[j - dot]);
    }
    assert(found == dot);
    assert(s.subrange(0, dot) == base);
    assert(s.subrange(dot, s.len() as int) == ".manifest"@);
}

/// What is stored is found again. A folder that holds nothing but the
/// archive of a download and the manifest written beside it gives, when the
/// index is read from it, one mod under the manifest's name with exactly one
/// cached version, that of the manifest, at the archive's path; and looking
/// up that name and version finds it. The archive's own extension must not be
/// `.manifest`, or the two files would have one name.
pub proof fn law_cache_round_trip(
    folder: Vec<CacheFile>,
    archive_file_name: Seq<char>,
    manifest: ModManifest,
)
    requires
        folder@.len() == 2,
        extension(archive_file_name) != Some(".manifest"@),
        exists|a: int, m: int|
            #![trigger folder@[a], folder@[m]]
            0 <= a < 2 && 0 <= m < 2 && a != m && folder@[a].file_name@ == base_name(
                archive_file_name,
            ) && optional_text(folder@[a].file_ext) == extension(archive_file_name)
                && folder@[m].file_name@ == base_name(manifest_name(archive_file_name))
                && optional_text(folder@[m].file_ext) == extension(manifest_name(archive_file_name))
                && folder@[m].manifest == Some(manifest),
    ensures
        cache_index(seq![folder], 1).len() == 1,
        cache_index(seq![folder], 1)[0].name == manifest@.name,
        cache_index(seq![folder], 1)[0].mod_kind == manifest@.mod_kind,
        cache_index(seq![folder], 1)[0].versions.len() == 1,
        cache_index(seq![folder], 1)[0].versions[0].manifest == manifest@,
        lookup(cache_index(seq![folder], 1), manifest@.name, manifest@.version) == Some(
            cache_index(seq![folder], 1)[0].versions[0],
        ),
        keeps(folder@, 0) && keeps(folder@, 1),
{
    let files = folder@;
    let (a, m) = choose|a: int, m: int|
        #![trigger folder@[a], folder@[m]]
        0 <= a < 2 && 0 <= m < 2 && a != m && folder@[a].file_name@ == base_name(
            archive_file_name,
        ) && optional_text(folder@[a].file_ext) == extension(archive_file_name)
            && folder@[m].file_name@ == base_name(manifest_name(archive_file_name))
            && optional_text(folder@[m].file_ext) == extension(manifest_name(archive_file_name))
            && folder@[m].manifest == Some(manifest);
    lemma_manifest_name_splits(base_name(archive_file_name));
    assert(is_manifest_file(files[m]));
    assert(!is_manifest_file(files[a]));
    assert(pairs_with(files[m], files[a]));
    assert(!pairs_with(files[m], files[m]));
    lemma_pair_from(files, m, 0);
    assert(pair_of(files, m) == a) by {
        if a == 0 {
            lemma_pair_is_first(files, m, 0);
        } else {
            lemma_pair_is_first(files, m, 1);
        }
    }
    assert(is_valid_pair(files, m));
    assert(!is_valid_pair(files, a));
    let version = CachedModVersionView { path: files[a].path@, manifest: manifest@ };
    reveal_with_fuel(found_versions, 3);
    assert(found_versions(files, 2) == seq![version]);
    assert(folder_mod(files) == Some(
        CachedModView {
            name: manifest@.name,
            versions: seq![version],
            mod_kind: manifest@.mod_kind,
        },
    ));
    let folders = seq![folder];
    reveal_with_fuel(cache_index, 2);
    assert(folders[0]@ == files);
    let index = cache_index(folders, 1);
    assert(index == seq![folder_mod(files)->0]);
    assert(named_from(index, manifest@.name, 0) == 0);
    assert(version_texts(index[0].versions)[0] == manifest@.version);
    assert(position_of(version_texts(index[0].versions), manifest@.version, 0) == 0);
    assert(keeps_upto(files, m, 2));
    assert(keeps_upto(files, a, 2));
}

} // verus!
