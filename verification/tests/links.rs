use sptmm_lib::github_mod_repository::{GitHubLink, GitHubMod};
use sptmm_lib::remote_mod_access::{LinkError, ModKind, ModLink};
use sptmm_lib::spt_mod_repository::SptLink;

#[test]
fn github_mod_repository_longer_github_url_should_parse() {
    let result = sptmm_lib::github_mod_repository::validate_url("https://github.com/maxloo2/betterkeys-updated/releases/download/v1.2.3/maxloo2-betterkeys-updated-v1.2.3.zip").unwrap();
    assert_eq!(
        result,
        ("maxloo2".to_string(), "betterkeys-updated".to_string())
    );
}

#[test]
fn github_mod_repository_incorrect_github_url_should_not_parse() {
    let result = sptmm_lib::github_mod_repository::validate_url("https://github.com/maxlo");
    assert!(result.is_err())
}

#[test]
fn github_mod_repository_short_github_url_should_parse() {
    let result =
        sptmm_lib::github_mod_repository::validate_url("https://github.com/maxloo2/betterkeys-updated")
            .unwrap();
    assert_eq!(
        result,
        ("maxloo2".to_string(), "betterkeys-updated".to_string())
    );
}

#[test]
fn github_client_longer_github_url_should_parse() {
    let result = sptmm_lib::github_mod_repository::validate_url("https://github.com/maxloo2/betterkeys-updated/releases/download/v1.2.3/maxloo2-betterkeys-updated-v1.2.3.zip").unwrap();
    assert_eq!(result, ("maxloo2".to_string(), "betterkeys-updated".to_string()));
}

#[test]
fn github_client_incorrect_github_url_should_not_parse() {
    let result = sptmm_lib::github_mod_repository::validate_url("https://github.com/maxlo");
    assert!(result.is_err())
}

#[test]
fn github_client_short_github_url_should_parse() {
    let result =
        sptmm_lib::github_mod_repository::validate_url("https://github.com/maxloo2/betterkeys-updated")
            .unwrap();
    assert_eq!(result, ("maxloo2".to_string(), "betterkeys-updated".to_string()));
}

#[test]
fn url_parses_correctly_with_slash() {
    let result = sptmm_lib::spt_mod_repository::validate_url(
        "https://hub.sp-tarkov.com/files/file/1963-better-keys-updated/",
    );
    assert!(result.is_ok());
}

#[test]
fn url_parses_correctly_without_slash() {
    let result = sptmm_lib::spt_mod_repository::validate_url(
        "https://hub.sp-tarkov.com/files/file/1963-better-keys-updated",
    );
    assert!(result.is_ok());
}

#[test]
fn url_parses_incorrectly_with_ext() {
    let result = sptmm_lib::spt_mod_repository::validate_url(
        "https://hub.sp-tarkov.com/files/file/1963-better-keys-updated/#versions",
    );
    assert!(result.is_err());
}

#[test]
fn hub_url_needs_a_number_and_a_slug() {
    let check = sptmm_lib::spt_mod_repository::validate_url;
    assert!(check("https://hub.sp-tarkov.com/files/file/-better-keys/").is_err());
    assert!(check("https://hub.sp-tarkov.com/files/file/19a3-better-keys/").is_err());
    assert!(check("https://hub.sp-tarkov.com/files/file/1963").is_err());
    assert!(check("https://hub.sp-tarkov.com/files/file/").is_err());
    assert!(check("https://hub.sp-tarkov.com/files/1963-better-keys/").is_err());
    assert!(check("https://hub.sp-tarkov.com/files/file/1963-/").is_ok());
    assert!(check("https://hub.sp-tarkov.com/files/file/1963-a/b").is_err());
    assert_eq!(
        check("https://hub.sp-tarkov.com/files/file/x"),
        Err(LinkError::InvalidHubUrl)
    );
}

#[test]
fn github_link_holds_owner_repo_pattern_and_filter() {
    let link = GitHubLink::parse(
        "https://github.com/maxloo2/betterkeys-updated/releases",
        "betterkeys".to_string(),
        Some("beta".to_string()),
    )
    .unwrap();
    assert_eq!(link.owner(), "maxloo2");
    assert_eq!(link.repo(), "betterkeys-updated");
    assert_eq!(link.asset_pattern(), "betterkeys");
    assert_eq!(link.asset_filter(), Some("beta"));
    let copy = link.duplicate();
    assert!(link.same(&copy));
    assert_eq!(link, copy);
    let other = GitHubLink::new(
        "maxloo2".to_string(),
        "betterkeys-updated".to_string(),
        "betterkeys".to_string(),
        None,
    )
    .unwrap();
    assert!(!link.same(&other));
}

#[test]
fn github_link_refuses_an_empty_pattern() {
    assert_eq!(
        GitHubLink::parse("https://github.com/a/b", String::new(), None),
        Err(LinkError::NoAssetPattern)
    );
    assert!(GitHubLink::new("a".to_string(), "b".to_string(), String::new(), None).is_none());
    assert_eq!(
        GitHubLink::parse("https://github.com/a", "zip".to_string(), None),
        Err(LinkError::InvalidGitHubUrl)
    );
}

#[test]
fn github_url_edges() {
    let parse = sptmm_lib::github_mod_repository::validate_url;
    assert_eq!(parse("https://github.com//repo"), Ok((String::new(), "repo".to_string())));
    assert_eq!(parse("https://github.com/owner/"), Ok(("owner".to_string(), String::new())));
    assert!(parse("http://github.com/owner/repo").is_err());
    assert!(parse("https://github.com").is_err());
    assert!(GitHubLink::starts_with_host("https://github.com"));
    assert!(GitHubLink::starts_with_host("https://github.community/x"));
    assert!(!GitHubLink::starts_with_host("https://gitlab.com/a/b"));
}

#[test]
fn github_mod_is_a_link_without_filter() {
    let link = GitHubMod::parse("https://github.com/owner/repo", "zip".to_string()).unwrap();
    let full = link.with_filter(Some("src".to_string())).unwrap();
    assert_eq!(full.owner(), "owner");
    assert_eq!(full.repo(), "repo");
    assert_eq!(full.asset_pattern(), "zip");
    assert_eq!(full.asset_filter(), Some("src"));
    assert!(GitHubMod::parse("https://github.com/owner", "zip".to_string()).is_err());
}

#[test]
fn hub_link_ends_in_a_slash() {
    let with = SptLink::parse("https://hub.sp-tarkov.com/files/file/1963-better-keys-updated/").unwrap();
    let without = SptLink::parse("https://hub.sp-tarkov.com/files/file/1963-better-keys-updated").unwrap();
    assert_eq!(with.as_str(), "https://hub.sp-tarkov.com/files/file/1963-better-keys-updated/");
    assert_eq!(without.as_str(), with.as_str());
    assert!(with.same(&without));
    assert_eq!(
        with.get_versions_page().unwrap(),
        "https://hub.sp-tarkov.com/files/file/1963-better-keys-updated/#versions"
    );
    assert!(SptLink::starts_with_host("https://hub.sp-tarkov.com/anything"));
    assert!(!SptLink::starts_with_host("https://github.com/a/b"));
    assert!(<SptLink as ModLink>::parse("https://hub.sp-tarkov.com/files/file/1-a/").is_ok());
    assert!(<SptLink as ModLink>::parse("https://hub.sp-tarkov.com/files/").is_err());
}

#[test]
fn host_dispatch_tells_the_errors_apart() {
    assert_eq!(
        ModKind::parse("https://github.com/maxloo2/betterkeys-updated", None, None),
        Err(LinkError::NoAssetPattern)
    );
    assert_eq!(
        ModKind::parse("https://example.com/maxloo2/betterkeys-updated", Some("zip".to_string()), None),
        Err(LinkError::UnsupportedHost)
    );
    assert_eq!(
        ModKind::parse("https://example.com/", None, None),
        Err(LinkError::UnsupportedHost)
    );
    assert_ne!(LinkError::NoAssetPattern, LinkError::UnsupportedHost);
    assert_ne!(LinkError::NoAssetPattern.message(), LinkError::UnsupportedHost.message());
    assert_eq!(
        ModKind::parse("https://github.com/maxlo", Some("zip".to_string()), None),
        Err(LinkError::InvalidGitHubUrl)
    );
    assert_eq!(
        ModKind::parse("https://hub.sp-tarkov.com/files/", Some("zip".to_string()), None),
        Err(LinkError::InvalidHubUrl)
    );
}

#[test]
fn host_dispatch_reads_both_hosts() {
    let hub = ModKind::parse("https://hub.sp-tarkov.com/files/file/1963-better-keys-updated", None, None).unwrap();
    match &hub {
        ModKind::SpTarkov(link) => assert_eq!(
            link.as_str(),
            "https://hub.sp-tarkov.com/files/file/1963-better-keys-updated/"
        ),
        ModKind::GitHub(_) => panic!("a hub address was read as GitHub"),
    }
    let github = ModKind::parse(
        "https://github.com/maxloo2/betterkeys-updated",
        Some("betterkeys".to_string()),
        Some("src".to_string()),
    )
    .unwrap();
    match &github {
        ModKind::GitHub(link) => {
            assert_eq!(link.owner(), "maxloo2");
            assert_eq!(link.repo(), "betterkeys-updated");
            assert_eq!(link.asset_filter(), Some("src"));
        }
        ModKind::SpTarkov(_) => panic!("a GitHub address was read as the hub"),
    }
    assert!(!hub.same(&github));
    assert!(hub.same(&hub.duplicate()));
    assert!(github.same(&github.duplicate()));
    assert_eq!(
        ModKind::get_supported_domains(),
        ["https://hub.sp-tarkov.com", "https://github.com"]
    );
}

#[test]
fn refused_url_is_named_in_the_words_of_the_error() {
    let url = "https://example.com/mods/1";
    let error = ModKind::parse(url, Some("zip".to_string()), None).unwrap_err();
    assert_eq!(error.describe(url), "Unsupported mod host: https://example.com/mods/1");
    let missing = ModKind::parse("https://github.com/o/r", None, None).unwrap_err();
    assert_eq!(missing.describe("https://github.com/o/r"), "No asset pattern was provided for Github");
    assert_eq!(LinkError::InvalidHubUrl.describe("x"), "Failed to parse SP Tarkov url");
}
