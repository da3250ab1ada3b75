//! Mods published as GitHub releases: the reference to a repository, the
//! choice of a release and of its asset, and the spacing of requests.

use crate::rate_limit::RequestPacer;
use crate::remote_mod_access::{LinkError, ModDownloadVersion};
use crate::text::{
    after, chars_of, contains, contains_text, find_from, first_index, has_prefix, join_text,
    lemma_first_index_shift, same_text, starts_with,
    string_of_range,
};
use crate::version::{from_first_digit, leading_version, parse_version, Version};
use vstd::prelude::*;

verus! {

/// The host of GitHub.
pub open spec fn github_domain() -> Seq<char> {
    "https://github.com"@
}

/// What a repository's URL begins with.
pub open spec fn github_prefix() -> Seq<char> {
    "https://github.com/"@
}

/// A repository's URL: the prefix, an owner, a `/`, and more.
pub open spec fn is_repository_url(url: Seq<char>) -> bool {
    has_prefix(url, github_prefix()) && first_index(after(url, 19), '/') < url.len() - 19
}

/// The owner in a repository's URL: what stands between the prefix and the
/// next `/`.
pub open spec fn owner_of(url: Seq<char>) -> Seq<char> {
    after(url, 19).subrange(0, first_index(after(url, 19), '/'))
}

/// The repository in a repository's URL: what follows the owner's `/`, up to
/// the next `/` or to the end.
pub open spec fn repo_of(url: Seq<char>) -> Seq<char> {
    let tail = after(url, 19 + first_index(after(url, 19), '/') + 1);
    tail.subrange(0, first_index(tail, '/'))
}

/// Reads owner and repository out of a repository's URL.
pub fn validate_url(url: &str) -> (names: Result<(String, String), LinkError>)
    ensures
        names is Ok <==> is_repository_url(url@),
        names matches Ok(n) ==> n.0@ == owner_of(url@) && n.1@ == repo_of(url@),
        names matches Err(e) ==> e == LinkError::InvalidGitHubUrl,
{
    let chars = chars_of(url);
    let prefix = chars_of("https://github.com/");
    proof {
        reveal_strlit("https://github.com/");
    }
    if !starts_with(&chars, &prefix) {
        return Err(LinkError::InvalidGitHubUrl);
    }
    let slash = find_from(&chars, '/', 19);
    proof {
        lemma_first_index_shift(chars@, '/', 19, 19);
    }
    if slash == chars.len() {
        return Err(LinkError::InvalidGitHubUrl);
    }
    let owner = string_of_range(&chars, 19, slash);
    let end = find_from(&chars, '/', slash + 1);
    proof {
        lemma_first_index_shift(chars@, '/', slash + 1, slash + 1);
        assert(after(chars@, 19).subrange(0, slash - 19) == chars@.subrange(19, slash as int));
        assert(after(chars@, slash + 1).subrange(0, end - slash - 1) == chars@.subrange(
            slash + 1,
            end as int,
        ));
    }
    let repo = string_of_range(&chars, slash + 1, end);
    Ok((owner, repo))
}

/// A reference to a mod on GitHub: the repository, the text that the wanted
/// asset's file name holds, and the text that it must not hold.
#[derive(Clone, Debug, PartialEq, Eq)]
pub struct GitHubLink {
    owner: String,
    repo: String,
    asset_pattern: String,
    asset_filter: Option<String>,
}

/// What a `GitHubLink` holds, as characters.
pub struct GitHubLinkView {
    pub owner: Seq<char>,
    pub repo: Seq<char>,
    pub asset_pattern: Seq<char>,
    pub asset_filter: Option<Seq<char>>,
}

impl View for GitHubLink {
    type V = GitHubLinkView;

    closed spec fn view(&self) -> GitHubLinkView {
        GitHubLinkView {
            owner: self.owner@,
            repo: self.repo@,
            asset_pattern: self.asset_pattern@,
            asset_filter: match self.asset_filter {
                Some(filter) => Some(filter@),
                None => None,
            },
        }
    }
}

/// What a reference looks for among the assets of a release, in words.
pub open spec fn search_words(link: GitHubLinkView) -> Seq<char> {
    match link.asset_filter {
        Some(filter) => "pattern: "@ + link.asset_pattern + ", and filter: "@ + filter,
        None => "pattern: "@ + link.asset_pattern + ", and no filter"@,
    }
}

/// Whether two optional texts are both absent or hold the same characters.
pub fn same_optional_text(a: &Option<String>, b: &Option<String>) -> (same: bool)
    ensures
        same == match (a, b) {
            (Some(x), Some(y)) => x@ == y@,
            (None, None) => true,
            _ => false,
        },
{
    match (a, b) {
        (Some(x), Some(y)) => same_text(x.as_str(), y.as_str()),
        (None, None) => true,
        _ => false,
    }
}

impl GitHubLink {
    /// The invariant of a reference: the asset pattern is not empty.
    pub open spec fn well_formed(&self) -> bool {
        self@.asset_pattern.len() > 0
    }

    /// Whether `url` is on GitHub's host.
    pub fn starts_with_host(url: &str) -> (on_host: bool)
        ensures
            on_host == has_prefix(url@, github_domain()),
    {
        let chars = chars_of(url);
        let domain = chars_of("https://github.com");
        starts_with(&chars, &domain)
    }

    /// Reads a reference out of a repository's URL. An empty asset pattern is
    /// no pattern.
    pub fn parse(url: &str, asset_pattern: String, asset_filter: Option<String>) -> (link: Result<
        Self,
        LinkError,
    >)
        ensures
            link is Ok <==> asset_pattern@.len() > 0 && is_repository_url(url@),
            link matches Ok(l) ==> l.well_formed() && l@ == (GitHubLinkView {
                owner: owner_of(url@),
                repo: repo_of(url@),
                asset_pattern: asset_pattern@,
                asset_filter: match asset_filter {
                    Some(filter) => Some(filter@),
                    None => None,
                },
            }),
            link matches Err(e) ==> e == if asset_pattern@.len() == 0 {
                LinkError::NoAssetPattern
            } else {
                LinkError::InvalidGitHubUrl
            },
    {
        if asset_pattern.as_str().unicode_len() == 0 {
            return Err(LinkError::NoAssetPattern);
        }
        match validate_url(url) {
            Ok((owner, repo)) => Ok(Self { owner, repo, asset_pattern, asset_filter }),
            Err(e) => Err(e),
        }
    }

    /// Puts a reference together from its parts; the asset pattern must not
    /// be empty.
    pub fn new(owner: String, repo: String, asset_pattern: String, asset_filter: Option<String>) -> (link:
        Option<Self>)
        ensures
            link is Some <==> asset_pattern@.len() > 0,
            link matches Some(l) ==> l.well_formed() && l@ == (GitHubLinkView {
                owner: owner@,
                repo: repo@,
                asset_pattern: asset_pattern@,
                asset_filter: match asset_filter {
                    Some(filter) => Some(filter@),
                    None => None,
                },
            }),
    {
        if asset_pattern.as_str().unicode_len() == 0 {
            return None;
        }
        Some(Self { owner, repo, asset_pattern, asset_filter })
    }

    /// The repository's owner.
    pub fn owner(&self) -> (owner: &str)
        ensures
            owner@ == self@.owner,
    {
        self.owner.as_str()
    }

    /// The repository's name.
    pub fn repo(&self) -> (repo: &str)
        ensures
            repo@ == self@.repo,
    {
        self.repo.as_str()
    }

    /// The text that the wanted asset's file name holds.
    pub fn asset_pattern(&self) -> (pattern: &str)
        ensures
            pattern@ == self@.asset_pattern,
    {
        self.asset_pattern.as_str()
    }

    /// The text that the wanted asset's file name must not hold.
    pub fn asset_filter(&self) -> (filter: Option<&str>)
        ensures
            filter is Some <==> self@.asset_filter is Some,
            filter matches Some(f) ==> f@ == self@.asset_filter->0,
    {
        match &self.asset_filter {
            Some(filter) => Some(filter.as_str()),
            None => None,
        }
    }

    /// What is looked for among the assets of a release, in words: the
    /// pattern, and the filter where there is one.
    pub fn describe_search(&self) -> (words: String)
        ensures
            words@ == search_words(self@),
    {
        let head = join_text("pattern: ", self.asset_pattern.as_str());
        match &self.asset_filter {
            Some(filter) => {
                let with = join_text(head.as_str(), ", and filter: ");
                join_text(with.as_str(), filter.as_str())
            },
            None => join_text(head.as_str(), ", and no filter"),
        }
    }

    /// A copy of this reference.
    pub fn duplicate(&self) -> (copy: Self)
        ensures
            copy@ == self@,
    {
        Self {
            owner: self.owner.clone(),
            repo: self.repo.clone(),
            asset_pattern: self.asset_pattern.clone(),
            asset_filter: match &self.asset_filter {
                Some(filter) => Some(filter.clone()),
                None => None,
            },
        }
    }

    /// Whether the two references hold the same texts.
    pub fn same(&self, other: &GitHubLink) -> (same: bool)
        ensures
            same == (self@ == other@),
    {
        same_text(self.owner.as_str(), other.owner.as_str()) && same_text(
            self.repo.as_str(),
            other.repo.as_str(),
        ) && same_text(self.asset_pattern.as_str(), other.asset_pattern.as_str())
            && same_optional_text(&self.asset_filter, &other.asset_filter)
    }
}

/// A reference to a mod on GitHub without a filter: the repository and the
/// text that the wanted asset's file name holds.
#[derive(Clone, Debug, PartialEq, Eq)]
pub struct GitHubMod {
    owner: String,
    repo: String,
    assert_pattern: String,
}

impl GitHubMod {
    /// The repository's owner, as characters.
    pub closed spec fn owner(&self) -> Seq<char> {
        self.owner@
    }

    /// The repository's name, as characters.
    pub closed spec fn repo(&self) -> Seq<char> {
        self.repo@
    }

    /// The asset pattern, as characters.
    pub closed spec fn pattern(&self) -> Seq<char> {
        self.assert_pattern@
    }

    /// Reads a reference out of a repository's URL.
    pub fn parse(url: &str, assert_pattern: String) -> (link: Result<Self, LinkError>)
        ensures
            link is Ok <==> is_repository_url(url@),
            link matches Ok(l) ==> l.owner() == owner_of(url@) && l.repo() == repo_of(url@)
                && l.pattern() == assert_pattern@,
            link matches Err(e) ==> e == LinkError::InvalidGitHubUrl,
    {
        match validate_url(url) {
            Ok((owner, repo)) => Ok(Self { owner, repo, assert_pattern }),
            Err(e) => Err(e),
        }
    }

    /// The same reference with a filter added; an empty pattern gives none.
    pub fn with_filter(self, asset_filter: Option<String>) -> (link: Option<GitHubLink>)
        ensures
            link is Some <==> self.pattern().len() > 0,
            link matches Some(l) ==> l.well_formed() && l@.owner == self.owner() && l@.repo
                == self.repo() && l@.asset_pattern == self.pattern(),
    {
        GitHubLink::new(self.owner, self.repo, self.assert_pattern, asset_filter)
    }
}

/// One file of a release.
#[derive(Clone, Debug, PartialEq, Eq)]
pub struct Asset {
    pub name: String,
    pub browser_download_url: String,
    pub created_at: i64,
}

/// One release of a repository: its display name, where it has one, and its
/// files in the order in which the host lists them.
#[derive(Clone, Debug, PartialEq, Eq)]
pub struct Release {
    pub name: Option<String>,
    pub assets: Vec<Asset>,
}

/// Why a release could not be turned into a download.
#[derive(Clone, Copy, Debug, PartialEq, Eq, Structural)]
pub enum GitHubError {
    /// The release has no display name.
    NoName,
    /// No asset of the release fits the pattern and the filter.
    AssetNotFound,
    /// The display name of the release holds no version.
    BadVersion,
}

impl GitHubError {
    /// The error in words, as characters.
    pub open spec fn text(&self) -> Seq<char> {
        match self {
            GitHubError::NoName => "Found no name"@,
            GitHubError::AssetNotFound => "Failed to find asset from pattern and filter"@,
            GitHubError::BadVersion => "Failed to parse version"@,
        }
    }

    /// The error in words, for the reference that was followed: a missing
    /// asset is named by the pattern and the filter that found none.
    pub open spec fn words_for(&self, link: GitHubLinkView) -> Seq<char> {
        match self {
            GitHubError::AssetNotFound => "Failed to find asset from "@ + search_words(link),
            _ => self.text(),
        }
    }

    /// The error in words, for the reference that was followed.
    pub fn describe(&self, gh_mod: &GitHubLink) -> (words: String)
        ensures
            words@ == self.words_for(gh_mod@),
    {
        match self {
            GitHubError::AssetNotFound => {
                let search = gh_mod.describe_search();
                join_text("Failed to find asset from ", search.as_str())
            },
            _ => self.message().to_owned(),
        }
    }

    /// The error in words.
    pub fn message(&self) -> (text: &'static str)
        ensures
            text@ == self.text(),
    {
        match self {
            GitHubError::NoName => "Found no name",
            GitHubError::AssetNotFound => "Failed to find asset from pattern and filter",
            GitHubError::BadVersion => "Failed to parse version",
        }
    }
}

/// A file name fits a reference: it holds the pattern and, where there is a
/// filter, does not hold the filter.
pub open spec fn asset_fits(link: GitHubLinkView, name: Seq<char>) -> bool {
    contains_text(name, link.asset_pattern) && match link.asset_filter {
        Some(filter) => !contains_text(name, filter),
        None => true,
    }
}

/// The position of the first of `assets[from..]` whose name fits; the number
/// of assets when none does.
pub open spec fn first_fitting(link: GitHubLinkView, assets: Seq<Asset>, from: int) -> int
    decreases assets.len() - from,
{
    if from < 0 || from >= assets.len() {
        assets.len() as int
    } else if asset_fits(link, assets[from].name@) {
        from
    } else {
        first_fitting(link, assets, from + 1)
    }
}

/// A release carries the version: it has a display name, and the version's
/// text stands in it.
pub open spec fn names_version(release: Release, version: Seq<char>) -> bool {
    match release.name {
        Some(name) => contains_text(name@, version),
        None => false,
    }
}

/// The position of the first of `releases[from..]` that carries the
/// version; the number of releases when none does.
pub open spec fn first_naming(releases: Seq<Release>, version: Seq<char>, from: int) -> int
    decreases releases.len() - from,
{
    if from < 0 || from >= releases.len() {
        releases.len() as int
    } else if names_version(releases[from], version) {
        from
    } else {
        first_naming(releases, version, from + 1)
    }
}

/// The download that `asset` of a release gives for the mod at `link`.
pub open spec fn offers(
    download: ModDownloadVersion,
    link: GitHubLinkView,
    asset: Asset,
    version: Seq<char>,
) -> bool {
    &&& download.title@ == link.repo
    &&& download.file_name@ == asset.name@
    &&& download.download_url@ == asset.browser_download_url@
    &&& download.uploaded_at == asset.created_at
    &&& download.version@ == version
}

/// The client of GitHub's releases: it spaces its requests a second apart,
/// and picks release and asset out of what the host answers.
#[derive(Debug)]
pub struct GithubModRepository {
    pacer: RequestPacer,
}

impl GithubModRepository {
    /// The pacer of this client.
    pub closed spec fn pacer(&self) -> RequestPacer {
        self.pacer
    }

    /// A client whose first request goes out at once.
    pub fn new() -> (repository: Self)
        ensures
            repository.pacer().ready_at() == 0,
            repository.pacer().interval() == 1000,
    {
        Self { pacer: RequestPacer::new(1000) }
    }

    /// Claims the next request at the moment `now`, in milliseconds: the time
    /// to wait before it may be sent.
    pub fn get_client(&mut self, now: u64) -> (wait: u64)
        ensures
            wait == if now >= old(self).pacer().ready_at() {
                0
            } else {
                old(self).pacer().ready_at() - now
            },
            now + wait >= old(self).pacer().ready_at(),
            final(self).pacer().interval() == old(self).pacer().interval(),
            final(self).pacer().ready_at() == if now + wait + old(self).pacer().interval()
                > u64::MAX {
                u64::MAX
            } else {
                (now + wait + old(self).pacer().interval()) as u64
            },
    {
        self.pacer.wait_for_turn(now)
    }

    /// The first asset of the release whose file name fits the reference.
    pub fn filter_asset<'a>(gh_mod: &GitHubLink, release: &'a Release) -> (asset: Result<
        &'a Asset,
        GitHubError,
    >)
        ensures
            asset is Ok <==> first_fitting(gh_mod@, release.assets@, 0) < release.assets@.len(),
            asset matches Ok(a) ==> *a == release.assets@[first_fitting(
                gh_mod@,
                release.assets@,
                0,
            )],
            asset matches Err(e) ==> e == GitHubError::AssetNotFound && e.words_for(gh_mod@)
                == "Failed to find asset from "@ + search_words(gh_mod@),
    {
        let pattern = chars_of(gh_mod.asset_pattern());
        let filter = match gh_mod.asset_filter() {
            Some(f) => Some(chars_of(f)),
            None => None,
        };
        let mut i: usize = 0;
        while i < release.assets.len()
            invariant
                i <= release.assets.len(),
                pattern@ == gh_mod@.asset_pattern,
                match filter {
                    Some(f) => gh_mod@.asset_filter == Some(f@),
                    None => gh_mod@.asset_filter is None,
                },
                first_fitting(gh_mod@, release.assets@, 0) == first_fitting(
                    gh_mod@,
                    release.assets@,
                    i as int,
                ),
            decreases release.assets.len() - i,
        {
            let name = chars_of(release.assets[i].name.as_str());
            let filtered = match &filter {
                Some(f) => contains(&name, f),
                None => false,
            };
            if contains(&name, &pattern) && !filtered {
                return Ok(&release.assets[i]);
            }
            i += 1;
        }
        Err(GitHubError::AssetNotFound)
    }

    /// The download that the latest release gives: the release must have a
    /// display name, an asset that fits, and a version in its name.
    pub fn get_latest_version(gh_mod: GitHubLink, release: Release) -> (download: Result<
        ModDownloadVersion,
        GitHubError,
    >)
        ensures
            download is Ok <==> release.name is Some && first_fitting(gh_mod@, release.assets@, 0)
                < release.assets@.len() && leading_version(from_first_digit(release.name->0@))
                is Some,
            download matches Ok(d) ==> offers(
                d,
                gh_mod@,
                release.assets@[first_fitting(gh_mod@, release.assets@, 0)],
                leading_version(from_first_digit(release.name->0@))->0,
            ),
            download matches Err(e) ==> e == if release.name is None {
                GitHubError::NoName
            } else if first_fitting(gh_mod@, release.assets@, 0) >= release.assets@.len() {
                GitHubError::AssetNotFound
            } else {
                GitHubError::BadVersion
            },
    {
        let Some(name) = &release.name else {
            return Err(GitHubError::NoName);
        };
        let asset = match Self::filter_asset(&gh_mod, &release) {
            Ok(asset) => asset,
            Err(e) => {
                return Err(e);
            },
        };
        let Some(version) = parse_version(name.as_str()) else {
            return Err(GitHubError::BadVersion);
        };
        Ok(
            ModDownloadVersion {
                title: gh_mod.repo().to_owned(),
                file_name: asset.name.clone(),
                download_url: asset.browser_download_url.clone(),
                version,
                uploaded_at: asset.created_at,
            },
        )
    }

    /// The download of a given version: that of the first release whose
    /// display name holds the version's text. No such release is no error.
    pub fn get_version(gh_mod: GitHubLink, releases: Vec<Release>, version: &Version) -> (download:
        Result<Option<ModDownloadVersion>, GitHubError>)
        ensures
            download matches Ok(None) <==> first_naming(releases@, version@, 0)
                >= releases@.len(),
            download is Err <==> first_naming(releases@, version@, 0) < releases@.len()
                && first_fitting(
                gh_mod@,
                releases@[first_naming(releases@, version@, 0)].assets@,
                0,
            ) >= releases@[first_naming(releases@, version@, 0)].assets@.len(),
            download matches Err(e) ==> e == GitHubError::AssetNotFound,
            download matches Ok(Some(d)) ==> {
                let release = releases@[first_naming(releases@, version@, 0)];
                offers(
                    d,
                    gh_mod@,
                    release.assets@[first_fitting(gh_mod@, release.assets@, 0)],
                    version@,
                )
            },
    {
        let wanted = chars_of(version.as_str());
        let mut i: usize = 0;
        while i < releases.len()
            invariant
                i <= releases.len(),
                wanted@ == version@,
                first_naming(releases@, version@, 0) == first_naming(
                    releases@,
                    version@,
                    i as int,
                ),
            decreases releases.len() - i,
        {
            let named = match &releases[i].name {
                Some(name) => {
                    let name = chars_of(name.as_str());
                    contains(&name, &wanted)
                },
                None => false,
            };
            if named {
                let asset = match Self::filter_asset(&gh_mod, &releases[i]) {
                    Ok(asset) => asset,
                    Err(e) => {
                        return Err(e);
                    },
                };
                return Ok(
                    Some(
                        ModDownloadVersion {
                            title: gh_mod.repo().to_owned(),
                            file_name: asset.name.clone(),
                            download_url: asset.browser_download_url.clone(),
                            version: version.clone(),
                            uploaded_at: asset.created_at,
                        },
                    ),
                );
            }
            i += 1;
        }
        Ok(None)
    }
}

} // verus!
