use sptmm_lib::cache_mod_access::{
    calculate_cache, clean_unmanaged_files_and_build_cache, find_pair, CacheError, CacheFile,
    CacheModAccess, ModCacheStatus,
};
use sptmm_lib::cached_mod::CachedMod;
use sptmm_lib::cached_mod_version::CachedModVersion;
use sptmm_lib::mod_manifest::ModManifest;
use sptmm_lib::remote_mod_access::{ModDownloadVersion, ModKind};
use sptmm_lib::shared_traits::{ModName, ModVersion};
use sptmm_lib::version::{Version, VersionOrder};

fn kind() -> ModKind {
    ModKind::parse(
        "https://github.com/maxloo2/betterkeys-updated",
        Some("betterkeys".to_string()),
        None,
    )
    .unwrap()
}

fn hub_kind() -> ModKind {
    ModKind::parse("https://hub.sp-tarkov.com/files/file/1963-better-keys-updated/", None, None)
        .unwrap()
}

fn offered(name: &str, version: &str) -> ModDownloadVersion {
    ModDownloadVersion {
        title: name.to_string(),
        file_name: "maxloo2-betterkeys-updated.zip".to_string(),
        download_url: "https://example.com/a.zip".to_string(),
        uploaded_at: 1718132955,
        version: Version::new(version).unwrap(),
    }
}

fn manifest(name: &str, version: &str) -> ModManifest {
    ModManifest::new(1718132955, name.to_string(), Version::new(version).unwrap(), kind())
}

fn archive(name: &str) -> CacheFile {
    CacheFile::new(name, format!("cache/mod/{}", name), None)
}

fn manifest_file(name: &str, content: Option<ModManifest>) -> CacheFile {
    CacheFile::new(name, format!("cache/mod/{}", name), content)
}

fn pair(mod_name: &str, version: &str) -> Vec<CacheFile> {
    vec![
        archive(&format!("{}_mod.zip", version)),
        manifest_file(&format!("{}_mod.manifest", version), Some(manifest(mod_name, version))),
    ]
}

fn cache_of(folders: &Vec<Vec<CacheFile>>) -> CacheModAccess {
    CacheModAccess::build("cache", true, folders).unwrap().0
}

#[test]
fn status_follows_the_order_of_versions() {
    let holds_a = cache_of(&vec![pair("Mod", "1.2.3")]);
    let holds_b = cache_of(&vec![pair("Mod", "1.10.0")]);
    let a = offered("Mod", "1.2.3");
    let b = offered("Mod", "1.10.0");
    assert_eq!(holds_b.get_status(&a), ModCacheStatus::NewerVersion);
    assert_eq!(holds_a.get_status(&b), ModCacheStatus::OlderVersion);
    assert_eq!(holds_a.get_status(&a), ModCacheStatus::SameVersion);
    assert_eq!(holds_a.get_status(&offered("Other", "1.2.3")), ModCacheStatus::NotCached);
    let nothing = cache_of(&Vec::new());
    assert_eq!(nothing.get_status(&a), ModCacheStatus::NotCached);
    assert_eq!(nothing.len(), 0);
}

#[test]
fn status_is_held_against_the_newest_cached_version() {
    let mut files = pair("Mod", "1.2.3");
    files.extend(pair("Mod", "2.0.0"));
    files.extend(pair("Mod", "1.5.0"));
    let cache = cache_of(&vec![files]);
    assert_eq!(cache.get_status(&offered("Mod", "1.9.0")), ModCacheStatus::NewerVersion);
    assert_eq!(cache.get_status(&offered("Mod", "2.0.0")), ModCacheStatus::SameVersion);
    assert_eq!(cache.get_status(&offered("Mod", "2.0.1")), ModCacheStatus::OlderVersion);
    let found = cache.get_cached_mod(&offered("Mod", "1.5.0")).unwrap();
    assert_eq!(found.path, "cache/mod/1.5.0_mod.zip");
    assert_eq!(found.get_version().as_str(), "1.5.0");
    assert!(cache.get_cached_mod(&offered("Mod", "1.9.0")).is_none());
    assert!(cache.get_cached_mod(&offered("Other", "1.5.0")).is_none());
}

#[test]
fn cache_round_trip() {
    let empty = cache_of(&Vec::new());
    let download = offered("Better Keys Updated", "1.2.3");
    let plan = empty.cache_mod(&download, kind());
    assert_eq!(plan.folder_name, "Better_Keys_Updated");
    assert_eq!(plan.archive_name, "1.2.3_maxloo2-betterkeys-updated.zip");
    assert_eq!(plan.manifest_name, "1.2.3_maxloo2-betterkeys-updated.manifest");
    assert_eq!(plan.manifest.get_name(), "Better Keys Updated");
    assert_eq!(plan.manifest.get_version().as_str(), "1.2.3");
    assert_eq!(plan.manifest.get_upload_date(), 1718132955);
    assert!(plan.manifest.get_mod_kind().same(&kind()));

    for manifest_first in [false, true] {
        let archive_path = format!("cache/{}/{}", plan.folder_name, plan.archive_name);
        let stored = CacheFile::new(&plan.archive_name, archive_path.clone(), None);
        let written = CacheFile::new(
            &plan.manifest_name,
            format!("cache/{}/{}", plan.folder_name, plan.manifest_name),
            Some(plan.manifest.duplicate()),
        );
        let folder = if manifest_first { vec![written, stored] } else { vec![stored, written] };
        let folders = vec![folder];
        let mut cache = cache_of(&Vec::new());
        let keep = cache.rebuild(&folders);
        assert_eq!(keep, vec![vec![true, true]]);
        assert_eq!(cache.len(), 1);
        let found = cache.get_cached_mod(&download).unwrap();
        assert_eq!(found.path, archive_path);
        assert_eq!(found.get_name(), "Better Keys Updated");
        assert_eq!(found.get_version().as_str(), "1.2.3");
        assert_eq!(cache.get_status(&download), ModCacheStatus::SameVersion);
        let rebuilt = calculate_cache(&folders);
        assert_eq!(rebuilt.cached_mods.len(), 1);
        assert_eq!(rebuilt.cached_mods[0].version_count(), 1);
        assert_eq!(rebuilt.cached_mods[0].get_name(), "Better Keys Updated");
        let (marks, stored_again) = cache.finish_cache_mod(&download, &folders);
        assert_eq!(marks, vec![vec![true, true]]);
        assert_eq!(stored_again.unwrap().path, archive_path);
    }
}

#[test]
fn stored_download_that_is_not_found_is_an_error() {
    let mut cache = cache_of(&Vec::new());
    let download = offered("Mod", "1.2.3");
    let (marks, stored) = cache.finish_cache_mod(&download, &vec![pair("Mod", "1.2.4")]);
    assert_eq!(marks, vec![vec![true, true]]);
    assert_eq!(stored.err(), Some(CacheError::NotFound));
    assert_eq!(cache.len(), 1);
}

#[test]
fn orphan_cleanup_is_idempotent() {
    let files = vec![
        manifest_file("1.0.0_orphan.manifest", Some(manifest("Mod", "1.0.0"))),
        archive("1.2.3_mod.zip"),
        manifest_file("1.2.3_mod.manifest", Some(manifest("Mod", "1.2.3"))),
        archive("2.0.0_unpaired.zip"),
        manifest_file("3.0.0_broken.manifest", None),
        archive("3.0.0_broken.zip"),
        archive("notes"),
    ];
    let first = clean_unmanaged_files_and_build_cache(&files);
    assert_eq!(first.keep, vec![false, true, true, false, false, false, false]);
    assert_eq!(first.versions.len(), 1);
    assert_eq!(first.versions[0].path, "cache/mod/1.2.3_mod.zip");

    let kept: Vec<CacheFile> = files
        .into_iter()
        .zip(first.keep.iter())
        .filter(|(_, keep)| **keep)
        .map(|(file, _)| file)
        .collect();
    assert_eq!(kept.len(), 2);
    let second = clean_unmanaged_files_and_build_cache(&kept);
    assert_eq!(second.keep, vec![true, true]);
    assert_eq!(second.versions.len(), 1);
    assert_eq!(second.versions[0].path, "cache/mod/1.2.3_mod.zip");
}

#[test]
fn orphan_manifest_alone_is_removed_and_leaves_no_mod() {
    let folder = vec![manifest_file("1.0.0_orphan.manifest", Some(manifest("Mod", "1.0.0")))];
    let scan = clean_unmanaged_files_and_build_cache(&folder);
    assert_eq!(scan.keep, vec![false]);
    assert!(scan.versions.is_empty());
    let rebuilt = calculate_cache(&vec![folder, Vec::new()]);
    assert!(rebuilt.cached_mods.is_empty());
    assert_eq!(rebuilt.keep, vec![vec![false], vec![]]);
    let gone: Vec<CacheFile> = Vec::new();
    let scan = clean_unmanaged_files_and_build_cache(&gone);
    assert!(scan.keep.is_empty());
    assert!(scan.versions.is_empty());
}

#[test]
fn manifest_pairs_with_the_first_file_of_its_base_name() {
    let files = vec![
        manifest_file("1.2.3_mod.manifest", Some(manifest("Mod", "1.2.3"))),
        archive("1.2.3_mod.7z"),
        archive("1.2.3_mod.zip"),
        manifest_file("1.2.3_mod.manifest", Some(manifest("Mod", "1.2.3"))),
    ];
    assert_eq!(find_pair(&files, 0), 1);
    assert_eq!(find_pair(&files, 1), 0);
    assert_eq!(find_pair(&files, 2), 0);
    assert!(files[0].is_manifest());
    assert!(!files[1].is_manifest());
    let scan = clean_unmanaged_files_and_build_cache(&files);
    assert_eq!(scan.keep, vec![true, true, false, true]);
    assert_eq!(scan.versions.len(), 2);
    assert_eq!(scan.versions[0].path, "cache/mod/1.2.3_mod.7z");
    assert_eq!(scan.versions[1].path, "cache/mod/1.2.3_mod.7z");
}

#[test]
fn index_takes_name_and_origin_from_the_first_manifest() {
    let first = pair("Mod A", "1.0.0");
    let mut second = pair("Mod B", "2.0.0");
    second[1] = manifest_file(
        "2.0.0_mod.manifest",
        Some(ModManifest::new(1, "Mod B".to_string(), Version::new("2.0.0").unwrap(), hub_kind())),
    );
    let cache = cache_of(&vec![first, Vec::new(), second]);
    assert_eq!(cache.len(), 2);
    assert_eq!(cache.cache_dir(), "cache");
    let by_kind = cache
        .get_cached_mod_from_kind(&hub_kind(), &Version::new("2.0.0").unwrap())
        .unwrap();
    assert_eq!(by_kind.get_name(), "Mod B");
    assert!(cache.get_cached_mod_from_kind(&hub_kind(), &Version::new("1.0.0").unwrap()).is_none());
    let github = cache
        .get_cached_mod_from_kind(&kind(), &Version::new("1.0.0").unwrap())
        .unwrap();
    assert_eq!(github.get_name(), "Mod A");
    let other = ModKind::parse("https://github.com/a/b", Some("x".to_string()), None).unwrap();
    assert!(cache.get_cached_mod_from_kind(&other, &Version::new("1.0.0").unwrap()).is_none());
}

#[test]
fn cache_must_be_a_folder_and_can_be_emptied() {
    assert_eq!(
        CacheModAccess::build("cache", false, &Vec::new()).err(),
        Some(CacheError::NotADirectory)
    );
    let mut cache = cache_of(&vec![pair("Mod", "1.2.3")]);
    assert_eq!(cache.len(), 1);
    cache.remove_cache();
    assert_eq!(cache.len(), 0);
    assert_eq!(cache.get_status(&offered("Mod", "1.2.3")), ModCacheStatus::NotCached);
    assert_eq!(cache.cache_dir(), "cache");
}

#[test]
fn newest_of_a_mod_takes_the_later_of_equals() {
    let version = |path: &str, version: &str| CachedModVersion {
        path: path.to_string(),
        manifest: manifest("Mod", version),
    };
    let cached = CachedMod::new(
        "Mod".to_string(),
        vec![version("a", "1.0.0"), version("b", "2.0.0"), version("c", "2.0.0"), version("d", "1.5.0")],
        kind(),
    );
    assert_eq!(cached.get_newest().unwrap().path, "c");
    assert_eq!(cached.get_version(&Version::new("2.0.0").unwrap()).unwrap().path, "b");
    assert!(cached.get_version(&Version::new("3.0.0").unwrap()).is_none());
    assert_eq!(cached.version_count(), 4);
    assert!(cached.get_mod_kind().same(&kind()));
    assert!(cached.is_same_name("Mod"));
    let none = CachedMod::new("Mod".to_string(), Vec::new(), kind());
    assert!(none.get_newest().is_none());
    let one = version("a", "1.0.0");
    assert!(one.same_archive(&one.duplicate()));
    assert!(!one.same_archive(&version("b", "1.0.0")));
    assert!(one == version("b", "1.0.0"));
    assert!(one != version("a", "1.0.1"));
    assert!(one.same_version_as(&version("b", "1.0.0")));
    assert!(!one.same_version_as(&version("a", "1.0.1")));
    assert!(version("a", "1.0.0+build1") == version("b", "1.0.0+build2"));
    assert_eq!(
        version("a", "1.0.0+build1").get_order(&Version::new("1.0.0+build2").unwrap()),
        VersionOrder::Equal
    );
    assert_eq!(one.get_order(&Version::new("1.0.1").unwrap()), VersionOrder::Less);
    assert!(one.manifest.is_mod_version(&Version::new("1.0.0").unwrap()));
}

#[test]
fn build_metadata_plays_no_part_in_finding_a_version() {
    let cache = cache_of(&vec![pair("Mod", "1.2.3+build1")]);
    let found = cache.get_cached_mod(&offered("Mod", "1.2.3+build2")).unwrap();
    assert_eq!(found.get_version().as_str(), "1.2.3+build1");
    assert_eq!(cache.get_status(&offered("Mod", "1.2.3+build2")), ModCacheStatus::SameVersion);
    assert!(Version::new("1.2.3+a").unwrap().same(&Version::new("1.2.3+b").unwrap()));
    assert!(!Version::new("1.2.3-a").unwrap().same(&Version::new("1.2.3-b").unwrap()));
    assert!(Version::new("1.2.3").unwrap().same(&Version::new("1.2.3").unwrap()));
}
