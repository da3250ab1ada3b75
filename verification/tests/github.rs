use sptmm_lib::github_mod_repository::{
    Asset, GitHubError, GitHubLink, GithubModRepository, Release,
};
use sptmm_lib::rate_limit::RequestPacer;
use sptmm_lib::version::Version;

fn asset(name: &str) -> Asset {
    Asset {
        name: name.to_string(),
        browser_download_url: format!("https://github.com/o/r/releases/download/v1/{}", name),
        created_at: 1718132955,
    }
}

fn release(name: Option<&str>, assets: &[&str]) -> Release {
    Release {
        name: name.map(|n| n.to_string()),
        assets: assets.iter().map(|a| asset(a)).collect(),
    }
}

fn link(pattern: &str, filter: Option<&str>) -> GitHubLink {
    GitHubLink::parse(
        "https://github.com/maxloo2/betterkeys-updated",
        pattern.to_string(),
        filter.map(|f| f.to_string()),
    )
    .unwrap()
}

#[test]
fn asset_is_chosen_by_pattern_and_filter() {
    let found = release(
        Some("v1.2.3"),
        &["source.tar.gz", "betterkeys-server.zip", "betterkeys-client.zip"],
    );
    let first = GithubModRepository::filter_asset(&link("betterkeys", None), &found).unwrap();
    assert_eq!(first.name, "betterkeys-server.zip");
    let filtered =
        GithubModRepository::filter_asset(&link("betterkeys", Some("server")), &found).unwrap();
    assert_eq!(filtered.name, "betterkeys-client.zip");
    assert_eq!(
        GithubModRepository::filter_asset(&link("betterkeys", Some("keys")), &found).err(),
        Some(GitHubError::AssetNotFound)
    );
    assert_eq!(
        GithubModRepository::filter_asset(&link("missing", None), &found).err(),
        Some(GitHubError::AssetNotFound)
    );
    assert_eq!(
        GithubModRepository::filter_asset(&link("betterkeys", Some("")), &found).err(),
        Some(GitHubError::AssetNotFound)
    );
    assert_eq!(
        GithubModRepository::filter_asset(&link("zip", None), &release(Some("v1"), &[])).err(),
        Some(GitHubError::AssetNotFound)
    );
}

#[test]
fn latest_release_gives_a_download() {
    let found = release(Some("Release v1.2.3"), &["notes.txt", "betterkeys-updated-v1.2.3.zip"]);
    let download = GithubModRepository::get_latest_version(link("betterkeys", None), found).unwrap();
    assert_eq!(download.title, "betterkeys-updated");
    assert_eq!(download.file_name, "betterkeys-updated-v1.2.3.zip");
    assert_eq!(
        download.download_url,
        "https://github.com/o/r/releases/download/v1/betterkeys-updated-v1.2.3.zip"
    );
    assert_eq!(download.uploaded_at, 1718132955);
    assert_eq!(download.version.as_str(), "1.2.3");
}

#[test]
fn latest_release_errors_come_in_order() {
    assert_eq!(
        GithubModRepository::get_latest_version(link("zip", None), release(None, &[])).err(),
        Some(GitHubError::NoName)
    );
    assert_eq!(
        GithubModRepository::get_latest_version(link("zip", None), release(None, &["a.zip"])).err(),
        Some(GitHubError::NoName)
    );
    assert_eq!(
        GithubModRepository::get_latest_version(link("zip", None), release(Some("nightly"), &["a.7z"]))
            .err(),
        Some(GitHubError::AssetNotFound)
    );
    assert_eq!(
        GithubModRepository::get_latest_version(link("zip", None), release(Some("nightly"), &["a.zip"]))
            .err(),
        Some(GitHubError::BadVersion)
    );
}

#[test]
fn pinned_version_is_found_by_its_text_in_the_release_name() {
    let releases = vec![
        release(None, &["a-2.0.0.zip"]),
        release(Some("v2.0.0"), &["a-2.0.0.zip"]),
        release(Some("Release v1.2.3 (hotfix)"), &["a-1.2.3.zip"]),
        release(Some("v1.2.3"), &["b-1.2.3.zip"]),
    ];
    let wanted = Version::new("1.2.3").unwrap();
    let download = GithubModRepository::get_version(link("zip", None), releases.clone(), &wanted)
        .unwrap()
        .unwrap();
    assert_eq!(download.file_name, "a-1.2.3.zip");
    assert_eq!(download.version.as_str(), "1.2.3");
    assert_eq!(download.title, "betterkeys-updated");
    let missing = Version::new("3.0.0").unwrap();
    assert!(GithubModRepository::get_version(link("zip", None), releases.clone(), &missing)
        .unwrap()
        .is_none());
    assert_eq!(
        GithubModRepository::get_version(link("rar", None), releases.clone(), &wanted).err(),
        Some(GitHubError::AssetNotFound)
    );
    let part = Version::new("2.0").unwrap();
    let by_part = GithubModRepository::get_version(link("zip", None), releases, &part)
        .unwrap()
        .unwrap();
    assert_eq!(by_part.file_name, "a-2.0.0.zip");
    assert_eq!(by_part.version.as_str(), "2.0");
    assert!(GithubModRepository::get_version(link("zip", None), Vec::new(), &wanted)
        .unwrap()
        .is_none());
}

#[test]
fn requests_are_spaced_by_the_interval() {
    let mut pacer = RequestPacer::new(1000);
    assert_eq!(pacer.wait_for_turn(5_000), 0);
    assert_eq!(pacer.wait_for_turn(5_200), 800);
    assert_eq!(pacer.wait_for_turn(6_000), 1_000);
    assert_eq!(pacer.wait_for_turn(20_000), 0);
    assert_eq!(pacer.wait_for_turn(21_000), 0);
    let mut late = RequestPacer::new(1000);
    assert_eq!(late.wait_for_turn(u64::MAX - 10), 0);
    assert_eq!(late.wait_for_turn(u64::MAX - 5), 5);
}

#[test]
fn github_client_waits_a_second_between_requests() {
    let mut client = GithubModRepository::new();
    assert_eq!(client.get_client(100), 0);
    assert_eq!(client.get_client(100), 1000);
    assert_eq!(client.get_client(1100), 1000);
    assert_eq!(client.get_client(5000), 0);
    assert_eq!(GitHubError::NoName.message(), "Found no name");
}

#[test]
fn search_is_described_with_pattern_and_filter() {
    assert_eq!(link("zip", None).describe_search(), "pattern: zip, and no filter");
    assert_eq!(
        link("betterkeys", Some("server")).describe_search(),
        "pattern: betterkeys, and filter: server"
    );
    assert_eq!(GitHubError::AssetNotFound.message(), "Failed to find asset from pattern and filter");
    assert_eq!(GitHubError::BadVersion.message(), "Failed to parse version");
}

#[test]
fn missing_asset_is_named_by_pattern_and_filter() {
    let searched = link("betterkeys", Some("server"));
    let error = GithubModRepository::filter_asset(&searched, &release(Some("v1"), &["a.zip"]))
        .unwrap_err();
    assert_eq!(
        error.describe(&searched),
        "Failed to find asset from pattern: betterkeys, and filter: server"
    );
    let unfiltered = link("zip", None);
    assert_eq!(
        GitHubError::AssetNotFound.describe(&unfiltered),
        "Failed to find asset from pattern: zip, and no filter"
    );
    assert_eq!(GitHubError::NoName.describe(&unfiltered), "Found no name");
}
