//! References to mods on their hosts, and what a host answers when it is
//! asked for a version.

use crate::github_mod_repository::{github_domain, is_repository_url, owner_of, repo_of, GitHubLink, GitHubLinkView};
use crate::shared_traits::{ModName, ModVersion, ModVersionDownload};
use crate::spt_mod_repository::{canonical_link, hub_domain, is_hub_url, SptLink};
use crate::text::{has_prefix, join_text, same_text};
use crate::url_access::parsed_url;
use crate::version::{Version, VersionOrder};
use vstd::prelude::*;

verus! {

/// Why a URL could not be read as a reference to a mod.
#[derive(Clone, Copy, Debug, PartialEq, Eq, Structural)]
pub enum LinkError {
    /// The URL is on none of the supported hosts.
    UnsupportedHost,
    /// The URL is on GitHub, and no asset pattern came with it.
    NoAssetPattern,
    /// The URL is on GitHub, but names no repository.
    InvalidGitHubUrl,
    /// The URL is on the mod hub, but is not the address of a mod's page.
    InvalidHubUrl,
    /// The text is no URL.
    InvalidUrl,
}

impl LinkError {
    /// The error in words, as characters.
    pub open spec fn text(&self) -> Seq<char> {
        match self {
            LinkError::UnsupportedHost => "Unsupported mod host"@,
            LinkError::NoAssetPattern => "No asset pattern was provided for Github"@,
            LinkError::InvalidGitHubUrl => "Failed to parse"@,
            LinkError::InvalidHubUrl => "Failed to parse SP Tarkov url"@,
            LinkError::InvalidUrl => "Failed to parse url"@,
        }
    }

    /// The error in words, for the URL that was refused: an unsupported
    /// host is named by the URL.
    pub open spec fn words_for(&self, url: Seq<char>) -> Seq<char> {
        match self {
            LinkError::UnsupportedHost => "Unsupported mod host: "@ + url,
            _ => self.text(),
        }
    }

    /// The error in words, for the URL that was refused.
    pub fn describe(&self, url: &str) -> (words: String)
        ensures
            words@ == self.words_for(url@),
    {
        match self {
            LinkError::UnsupportedHost => join_text("Unsupported mod host: ", url),
            _ => self.message().to_owned(),
        }
    }

    /// The error in words.
    pub fn message(&self) -> (text: &'static str)
        ensures
            text@ == self.text(),
    {
        match self {
            LinkError::UnsupportedHost => "Unsupported mod host",
            LinkError::NoAssetPattern => "No asset pattern was provided for Github",
            LinkError::InvalidGitHubUrl => "Failed to parse",
            LinkError::InvalidHubUrl => "Failed to parse SP Tarkov url",
            LinkError::InvalidUrl => "Failed to parse url",
        }
    }
}

/// A reference to a mod: on GitHub, or on the mod hub.
#[derive(Clone, Debug, PartialEq, Eq)]
pub enum ModKind {
    GitHub(GitHubLink),
    SpTarkov(SptLink),
}

/// What a `ModKind` holds, as characters.
pub enum ModKindView {
    GitHub(GitHubLinkView),
    SpTarkov(Seq<char>),
}

impl View for ModKind {
    type V = ModKindView;

    open spec fn view(&self) -> ModKindView {
        match self {
            ModKind::GitHub(link) => ModKindView::GitHub(link@),
            ModKind::SpTarkov(link) => ModKindView::SpTarkov(link@),
        }
    }
}

/// What reading `url` as a reference gives, with the asset pattern and
/// filter that came with it: the hub is tried first, then GitHub.
pub open spec fn parsed_kind(
    url: Seq<char>,
    gh_pattern: Option<Seq<char>>,
    gh_filter: Option<Seq<char>>,
) -> Result<ModKindView, LinkError> {
    if has_prefix(url, hub_domain()) {
        if !is_hub_url(url) {
            Err(LinkError::InvalidHubUrl)
        } else if parsed_url(canonical_link(url)) is None {
            Err(LinkError::InvalidUrl)
        } else {
            Ok(ModKindView::SpTarkov(canonical_link(url)))
        }
    } else if has_prefix(url, github_domain()) {
        match gh_pattern {
            None => Err(LinkError::NoAssetPattern),
            Some(pattern) => if pattern.len() == 0 {
                Err(LinkError::NoAssetPattern)
            } else if !is_repository_url(url) {
                Err(LinkError::InvalidGitHubUrl)
            } else {
                Ok(
                    ModKindView::GitHub(
                        GitHubLinkView {
                            owner: owner_of(url),
                            repo: repo_of(url),
                            asset_pattern: pattern,
                            asset_filter: gh_filter,
                        },
                    ),
                )
            },
        }
    } else {
        Err(LinkError::UnsupportedHost)
    }
}

/// The characters of an optional text.
pub open spec fn optional_text(text: Option<String>) -> Option<Seq<char>> {
    match text {
        Some(t) => Some(t@),
        None => None,
    }
}

impl ModKind {
    /// The invariant of a reference: that of the link it holds.
    pub open spec fn well_formed(&self) -> bool {
        match self {
            ModKind::GitHub(link) => link.well_formed(),
            ModKind::SpTarkov(link) => link.well_formed(),
        }
    }

    /// Reads `url` as a reference to a mod. The hosts are tried in a fixed
    /// order, the hub first. A URL on GitHub needs an asset pattern, and one
    /// on neither host is refused as such.
    pub fn parse(url: &str, gh_pattern: Option<String>, gh_filter: Option<String>) -> (kind: Result<
        Self,
        LinkError,
    >)
        ensures
            kind is Ok <==> parsed_kind(url@, optional_text(gh_pattern), optional_text(gh_filter))
                is Ok,
            kind matches Ok(k) ==> k.well_formed() && k@ == parsed_kind(
                url@,
                optional_text(gh_pattern),
                optional_text(gh_filter),
            )->Ok_0,
            kind matches Err(e) ==> e == parsed_kind(
                url@,
                optional_text(gh_pattern),
                optional_text(gh_filter),
            )->Err_0,
    {
        if SptLink::starts_with_host(url) {
            return match SptLink::parse(url) {
                Ok(link) => Ok(ModKind::SpTarkov(link)),
                Err(e) => Err(e),
            };
        }
        if GitHubLink::starts_with_host(url) {
            let Some(pattern) = gh_pattern else {
                return Err(LinkError::NoAssetPattern);
            };
            return match GitHubLink::parse(url, pattern, gh_filter) {
                Ok(link) => Ok(ModKind::GitHub(link)),
                Err(e) => Err(e),
            };
        }
        Err(LinkError::UnsupportedHost)
    }

    /// The hosts that `parse` knows, in the order in which it tries them.
    pub fn get_supported_domains() -> (domains: [&'static str; 2])
        ensures
            domains[0]@ == hub_domain(),
            domains[1]@ == github_domain(),
    {
        ["https://hub.sp-tarkov.com", "https://github.com"]
    }

    /// A copy of this reference.
    pub fn duplicate(&self) -> (copy: Self)
        ensures
            copy@ == self@,
            self.well_formed() ==> copy.well_formed(),
    {
        match self {
            ModKind::GitHub(link) => ModKind::GitHub(link.duplicate()),
            ModKind::SpTarkov(link) => ModKind::SpTarkov(link.duplicate()),
        }
    }

    /// Whether the two references are the same.
    pub fn same(&self, other: &ModKind) -> (same: bool)
        ensures
            same == (self@ == other@),
    {
        match (self, other) {
            (ModKind::GitHub(a), ModKind::GitHub(b)) => a.same(b),
            (ModKind::SpTarkov(a), ModKind::SpTarkov(b)) => a.same(b),
            _ => false,
        }
    }
}

/// The hosts are told apart, and so are the errors. A URL on GitHub that
/// comes without an asset pattern is refused for the missing pattern, a URL
/// on neither host is refused for its host, and the two errors differ.
pub proof fn law_host_dispatch(url: Seq<char>, gh_filter: Option<Seq<char>>)
    ensures
        has_prefix(url, github_domain()) ==> parsed_kind(url, None, gh_filter) == Err::<
            ModKindView,
            LinkError,
        >(LinkError::NoAssetPattern),
        forall|gh_pattern: Option<Seq<char>>|
            !has_prefix(url, github_domain()) && !has_prefix(url, hub_domain()) ==> #[trigger] parsed_kind(
                url,
                gh_pattern,
                gh_filter,
            ) == Err::<ModKindView, LinkError>(LinkError::UnsupportedHost),
        LinkError::NoAssetPattern != LinkError::UnsupportedHost,
{
    reveal_strlit("https://github.com");
    reveal_strlit("https://hub.sp-tarkov.com");
    if has_prefix(url, github_domain()) {
        assert(url.subrange(0, 18)[8] == 'g');
        if has_prefix(url, hub_domain()) {
            assert(url.subrange(0, 25)[8] == 'h');
        }
    }
}

/// A reference that can be read out of a URL alone.
pub trait ModLink: Sized {
    /// Whether `url` spells a reference of this kind.
    spec fn accepts(url: Seq<char>) -> bool;

    /// The address that a reference read out of `url` holds.
    spec fn address_of(url: Seq<char>) -> Seq<char>;

    /// Why `url` is refused, where it is.
    spec fn refusal_of(url: Seq<char>) -> LinkError;

    /// The address that this reference holds.
    spec fn address(&self) -> Seq<char>;

    /// The invariant of a reference of this kind.
    spec fn valid(&self) -> bool;

    /// Reads a reference out of `url`.
    fn parse(url: &str) -> (link: Result<Self, LinkError>)
        ensures
            link is Ok <==> Self::accepts(url@),
            link matches Ok(l) ==> l.valid() && l.address() == Self::address_of(url@),
            link matches Err(e) ==> e == Self::refusal_of(url@),
    ;
}

impl ModLink for SptLink {
    open spec fn accepts(url: Seq<char>) -> bool {
        is_hub_url(url) && parsed_url(canonical_link(url)) is Some
    }

    open spec fn address_of(url: Seq<char>) -> Seq<char> {
        canonical_link(url)
    }

    open spec fn refusal_of(url: Seq<char>) -> LinkError {
        if !is_hub_url(url) {
            LinkError::InvalidHubUrl
        } else {
            LinkError::InvalidUrl
        }
    }

    open spec fn address(&self) -> Seq<char> {
        self@
    }

    open spec fn valid(&self) -> bool {
        self.well_formed()
    }

    fn parse(url: &str) -> (link: Result<Self, LinkError>) {
        SptLink::parse(url)
    }
}

/// One version of a mod as its host offers it: the result of asking the
/// host, before anything is stored.
#[derive(Clone, Debug)]
pub struct ModDownloadVersion {
    pub title: String,
    pub file_name: String,
    pub download_url: String,
    pub uploaded_at: i64,
    pub version: Version,
}

impl ModName for ModDownloadVersion {
    open spec fn name(&self) -> Seq<char> {
        self.title@
    }

    fn get_name(&self) -> (name: &str) {
        self.title.as_str()
    }

    fn is_same_name(&self, mod_name: &str) -> (same: bool) {
        same_text(self.title.as_str(), mod_name)
    }
}

impl ModVersion for ModDownloadVersion {
    open spec fn version(&self) -> Seq<char> {
        self.version@
    }

    fn get_version(&self) -> (version: &Version) {
        &self.version
    }

    fn get_order(&self, mod_version: &Version) -> (order: VersionOrder) {
        self.version.order(mod_version)
    }
}

impl ModVersionDownload for ModDownloadVersion {
    open spec fn file_name(&self) -> Seq<char> {
        self.file_name@
    }

    open spec fn upload_date(&self) -> i64 {
        self.uploaded_at
    }

    fn get_file_name(&self) -> (file_name: &str) {
        self.file_name.as_str()
    }

    fn get_upload_date(&self) -> (uploaded_at: i64) {
        self.uploaded_at
    }
}

} // verus!
