//! Mods published on the mod hub: the reference to a mod's page, the choice
//! among the versions that the page lists, and the kinds of download link
//! that a version can lead to.

use crate::html_parsers::{
    document_elements, download_link, google_download, google_parse_download,
    spt_parse_download, HtmlElement, ScrapeError, SptMod, SptModVersion,
};
use crate::rate_limit::RequestPacer;
use crate::remote_mod_access::{LinkError, ModDownloadVersion};
use crate::text::{
    after, all_digits, chars_of, ends_with_char, find_from, first_index, first_index_from, has_prefix, is_digit, join_text, lemma_first_index_shift,
    same_text, starts_with, string_of, string_of_range,
};
use crate::url_access::{join_url, joined_url, parse_url, parsed_url};
use crate::version::{newest_index, position_of, Version, VersionOrder};
use vstd::prelude::*;

verus! {

/// The host of the mod hub.
pub open spec fn hub_domain() -> Seq<char> {
    "https://hub.sp-tarkov.com"@
}

/// What the address of a mod's page begins with.
pub open spec fn hub_prefix() -> Seq<char> {
    "https://hub.sp-tarkov.com/files/file/"@
}

/// The address of a mod's page: the prefix, a number, a `-`, and a slug in
/// which no `/` stands but, at most, one at the very end.
pub open spec fn is_hub_url(url: Seq<char>) -> bool {
    has_prefix(url, hub_prefix()) && {
        let rest = after(url, 37);
        let dash = first_index(rest, '-');
        let tail = after(rest, dash);
        &&& 1 <= dash < rest.len()
        &&& all_digits(rest.subrange(0, dash))
        &&& first_index(tail, '/') >= tail.len() - 1
    }
}

/// `url` with a `/` at its end, added where it had none.
pub open spec fn canonical_link(url: Seq<char>) -> Seq<char> {
    if ends_with_char(url, '/') {
        url
    } else {
        url.push('/')
    }
}

/// Whether `url` is the address of a mod's page on the hub.
pub fn validate_url(url: &str) -> (valid: Result<(), LinkError>)
    ensures
        valid is Ok <==> is_hub_url(url@),
        valid matches Err(e) ==> e == LinkError::InvalidHubUrl,
{
    let chars = chars_of(url);
    let prefix = chars_of("https://hub.sp-tarkov.com/files/file/");
    proof {
        reveal_strlit("https://hub.sp-tarkov.com/files/file/");
    }
    if !starts_with(&chars, &prefix) {
        return Err(LinkError::InvalidHubUrl);
    }
    let dash = find_from(&chars, '-', 37);
    let ghost rest = after(chars@, 37);
    proof {
        lemma_first_index_shift(chars@, '-', 37, 37);
    }
    if dash == chars.len() || dash == 37 {
        return Err(LinkError::InvalidHubUrl);
    }
    let mut i: usize = 37;
    while i < dash
        invariant
            37 <= i <= dash < chars.len(),
            chars@ == url@,
            has_prefix(chars@, hub_prefix()),
            rest == after(chars@, 37),
            first_index(rest, '-') == dash - 37,
            all_digits(rest.subrange(0, i - 37)),
        decreases dash - i,
    {
        if !(chars[i] >= '0' && chars[i] <= '9') {
            assert(rest.subrange(0, dash - 37)[i - 37] == chars@[i as int]);
            return Err(LinkError::InvalidHubUrl);
        }
        assert forall|k: int| 0 <= k < i + 1 - 37 implies is_digit(
            #[trigger] rest.subrange(0, i + 1 - 37)[k],
        ) by {
            if k < i - 37 {
                assert(rest.subrange(0, i - 37)[k] == rest.subrange(0, i + 1 - 37)[k]);
            }
        }
        i += 1;
    }
    let slash = find_from(&chars, '/', dash);
    proof {
        lemma_first_index_shift(chars@, '/', dash as int, dash as int);
        assert(after(rest, dash - 37) == after(chars@, dash as int));
    }
    if slash == chars.len() || slash == chars.len() - 1 {
        Ok(())
    } else {
        Err(LinkError::InvalidHubUrl)
    }
}

/// A reference to a mod on the hub: the address of its page.
#[derive(Clone, Debug, PartialEq, Eq)]
pub struct SptLink {
    link: String,
}

impl View for SptLink {
    type V = Seq<char>;

    closed spec fn view(&self) -> Seq<char> {
        self.link@
    }
}

impl SptLink {
    /// The invariant of a reference: the address ends in `/`.
    pub open spec fn well_formed(&self) -> bool {
        ends_with_char(self@, '/')
    }

    /// Whether `url` is on the hub's host.
    pub fn starts_with_host(url: &str) -> (on_host: bool)
        ensures
            on_host == has_prefix(url@, hub_domain()),
    {
        let chars = chars_of(url);
        let domain = chars_of("https://hub.sp-tarkov.com");
        starts_with(&chars, &domain)
    }

    /// Reads a reference out of the address of a mod's page. The address is
    /// kept with a `/` at its end.
    pub fn parse(url: &str) -> (link: Result<Self, LinkError>)
        ensures
            link is Ok <==> is_hub_url(url@) && parsed_url(canonical_link(url@)) is Some,
            link matches Ok(l) ==> l.well_formed() && l@ == canonical_link(url@),
            link matches Err(e) ==> e == if !is_hub_url(url@) {
                LinkError::InvalidHubUrl
            } else {
                LinkError::InvalidUrl
            },
    {
        if let Err(e) = validate_url(url) {
            return Err(e);
        }
        let mut chars = chars_of(url);
        if !(chars.len() > 0 && chars[chars.len() - 1] == '/') {
            chars.push('/');
        }
        let link = string_of(&chars);
        match parse_url(link.as_str()) {
            Some(_) => Ok(Self { link }),
            None => Err(LinkError::InvalidUrl),
        }
    }

    /// The address of the mod's page.
    pub fn as_str(&self) -> (link: &str)
        ensures
            link@ == self@,
    {
        self.link.as_str()
    }

    /// The address of the list of versions on the mod's page.
    pub fn get_versions_page(&self) -> (page: Result<String, LinkError>)
        ensures
            page is Ok <==> joined_url(self@, "#versions"@) is Some,
            page matches Ok(p) ==> p@ == joined_url(self@, "#versions"@)->0,
            page matches Err(e) ==> e == LinkError::InvalidUrl,
    {
        match join_url(self.link.as_str(), "#versions") {
            Some(page) => Ok(page),
            None => Err(LinkError::InvalidUrl),
        }
    }

    /// A copy of this reference.
    pub fn duplicate(&self) -> (copy: Self)
        ensures
            copy@ == self@,
    {
        Self { link: self.link.clone() }
    }

    /// Whether the two references hold the same address.
    pub fn same(&self, other: &SptLink) -> (same: bool)
        ensures
            same == (self@ == other@),
    {
        same_text(self.link.as_str(), other.link.as_str())
    }
}

/// The position behind the leading segments of `s` from `from` on: a segment
/// is one character or more without a `/`, and the `/` that ends it.
pub open spec fn after_segments(s: Seq<char>, from: int) -> int
    decreases s.len() - from,
{
    let slash = first_index_from(s, '/', from);
    if 0 <= from < slash && slash < s.len() {
        after_segments(s, slash + 1)
    } else {
        from
    }
}

/// The file that a download address names: behind `https://` and one
/// segment or more, a rest with a `.` that is not its first character.
pub open spec fn download_file_name(url: Seq<char>) -> Option<Seq<char>> {
    let name = after(url, after_segments(url, 8));
    if has_prefix(url, "https://"@) && after_segments(url, 8) > 8 && 1 <= first_index(name, '.')
        < name.len() {
        Some(name)
    } else {
        None
    }
}

/// The file that an address on the large-file host names: what stands
/// between the host's prefix and the next `/`, one character or more.
pub open spec fn google_file_id(url: Seq<char>) -> Option<Seq<char>> {
    let rest = after(url, 32);
    if has_prefix(url, "https://drive.google.com/file/d/"@) && 1 <= first_index(rest, '/')
        < rest.len() {
        Some(rest.subrange(0, first_index(rest, '/')))
    } else {
        None
    }
}

/// What a download address leads to.
#[derive(Clone, Debug, PartialEq, Eq)]
pub enum DownloadLink {
    /// A file, by its name.
    File { file_name: String },
    /// A file on the large-file host, by its identifier.
    GoogleDrive { file_id: String },
    /// Nothing that is known.
    Unknown,
}

/// What a `DownloadLink` holds, as characters.
pub enum DownloadLinkView {
    File { file_name: Seq<char> },
    GoogleDrive { file_id: Seq<char> },
    Unknown,
}

impl View for DownloadLink {
    type V = DownloadLinkView;

    open spec fn view(&self) -> DownloadLinkView {
        match self {
            DownloadLink::File { file_name } => DownloadLinkView::File { file_name: file_name@ },
            DownloadLink::GoogleDrive { file_id } => DownloadLinkView::GoogleDrive {
                file_id: file_id@,
            },
            DownloadLink::Unknown => DownloadLinkView::Unknown,
        }
    }
}

/// The kind of a download address: a named file first, the large-file host
/// second.
pub open spec fn download_link_kind(url: Seq<char>) -> DownloadLinkView {
    match download_file_name(url) {
        Some(file_name) => DownloadLinkView::File { file_name },
        None => match google_file_id(url) {
            Some(file_id) => DownloadLinkView::GoogleDrive { file_id },
            None => DownloadLinkView::Unknown,
        },
    }
}

/// The address of the warning page of the large-file host for a file.
pub open spec fn warning_page_address(file_id: Seq<char>) -> Seq<char> {
    "https://drive.usercontent.google.com/download?id="@ + file_id
}

/// The name of the file that a download address names.
pub fn get_mod_filename(url: &str) -> (file_name: Option<String>)
    ensures
        file_name is Some <==> download_file_name(url@) is Some,
        file_name matches Some(n) ==> n@ == download_file_name(url@)->0,
{
    let chars = chars_of(url);
    let prefix = chars_of("https://");
    proof {
        reveal_strlit("https://");
    }
    if !starts_with(&chars, &prefix) {
        return None;
    }
    let mut start: usize = 8;
    loop
        invariant
            8 <= start <= chars.len(),
            after_segments(chars@, 8) == after_segments(chars@, start as int),
        ensures
            8 <= start <= chars.len(),
            after_segments(chars@, 8) == start,
        decreases chars.len() - start,
    {
        let slash = find_from(&chars, '/', start);
        if start < slash && slash < chars.len() {
            start = slash + 1;
        } else {
            break ;
        }
    }
    if start == 8 {
        return None;
    }
    let dot = find_from(&chars, '.', start);
    proof {
        lemma_first_index_shift(chars@, '.', start as int, start as int);
    }
    if dot == start || dot == chars.len() {
        return None;
    }
    Some(string_of_range(&chars, start, chars.len()))
}

/// The identifier of the file that an address on the large-file host names.
pub fn get_google_file_id(url: &str) -> (file_id: Option<String>)
    ensures
        file_id is Some <==> google_file_id(url@) is Some,
        file_id matches Some(id) ==> id@ == google_file_id(url@)->0,
{
    let chars = chars_of(url);
    let prefix = chars_of("https://drive.google.com/file/d/");
    proof {
        reveal_strlit("https://drive.google.com/file/d/");
    }
    if !starts_with(&chars, &prefix) {
        return None;
    }
    let slash = find_from(&chars, '/', 32);
    proof {
        lemma_first_index_shift(chars@, '/', 32, 32);
        assert(after(chars@, 32).subrange(0, slash - 32) == chars@.subrange(32, slash as int));
    }
    if slash == 32 || slash == chars.len() {
        return None;
    }
    Some(string_of_range(&chars, 32, slash))
}

/// Tells what a download address leads to.
pub fn parse_download_link(download_link: &str) -> (kind: DownloadLink)
    ensures
        kind@ == download_link_kind(download_link@),
{
    if let Some(file_name) = get_mod_filename(download_link) {
        return DownloadLink::File { file_name };
    }
    if let Some(file_id) = get_google_file_id(download_link) {
        return DownloadLink::GoogleDrive { file_id };
    }
    DownloadLink::Unknown
}

/// The address of the warning page of the large-file host for a file.
pub fn warning_page_of(file_id: &str) -> (address: String)
    ensures
        address@ == warning_page_address(file_id@),
{
    let mut chars = chars_of("https://drive.usercontent.google.com/download?id=");
    let id = chars_of(file_id);
    let ghost head = chars@;
    let mut i: usize = 0;
    while i < id.len()
        invariant
            i <= id.len(),
            chars@ == head + id@.take(i as int),
        decreases id.len() - i,
    {
        chars.push(id[i]);
        assert(head + id@.take(i + 1) =~= (head + id@.take(i as int)).push(id@[i as int]));
        i += 1;
    }
    assert(id@.take(id.len() as int) == id@);
    string_of(&chars)
}

/// Why the hub could not be asked for a download.
#[derive(Clone, Copy, Debug, PartialEq, Eq, Structural)]
pub enum HubError {
    /// The mod's page lists no version.
    NoVersions,
    /// A page could not be read.
    Page(ScrapeError),
    /// The download address leads to nothing that is known.
    UnknownDownloadLink,
    /// The address of the warning page is no URL.
    BadUrl,
}

impl HubError {
    /// The error in words, as characters.
    pub open spec fn text(&self) -> Seq<char> {
        match self {
            HubError::NoVersions => "Found no mods"@,
            HubError::Page(e) => e.text(),
            HubError::UnknownDownloadLink => "Failed to parse file to download"@,
            HubError::BadUrl => "Failed to parse url"@,
        }
    }

    /// The error in words, for the download address that was followed: an
    /// address that leads to nothing known is named.
    pub open spec fn words_for(&self, url: Seq<char>) -> Seq<char> {
        match self {
            HubError::UnknownDownloadLink => "Failed to parse file to download for url: "@ + url,
            _ => self.text(),
        }
    }

    /// The error in words, for the download address that was followed.
    pub fn describe(&self, url: &str) -> (words: String)
        ensures
            words@ == self.words_for(url@),
    {
        match self {
            HubError::UnknownDownloadLink => join_text(
                "Failed to parse file to download for url: ",
                url,
            ),
            _ => self.message().to_owned(),
        }
    }

    /// The error in words.
    pub fn message(&self) -> (text: &'static str)
        ensures
            text@ == self.text(),
    {
        match self {
            HubError::NoVersions => "Found no mods",
            HubError::Page(e) => e.message(),
            HubError::UnknownDownloadLink => "Failed to parse file to download",
            HubError::BadUrl => "Failed to parse url",
        }
    }
}

/// Where the search for a version's archive stands once its download page
/// was read: the archive's address is known, or the warning page of the
/// large-file host has to be read first.
#[derive(Debug, PartialEq, Eq)]
pub enum DownloadStep {
    Ready { download_url: String, file_name: String },
    NeedsWarningPage { url: String },
}

/// What a `DownloadStep` holds, as characters.
pub enum DownloadStepView {
    Ready { download_url: Seq<char>, file_name: Seq<char> },
    NeedsWarningPage { url: Seq<char> },
}

impl View for DownloadStep {
    type V = DownloadStepView;

    open spec fn view(&self) -> DownloadStepView {
        match self {
            DownloadStep::Ready { download_url, file_name } => DownloadStepView::Ready {
                download_url: download_url@,
                file_name: file_name@,
            },
            DownloadStep::NeedsWarningPage { url } => DownloadStepView::NeedsWarningPage {
                url: url@,
            },
        }
    }
}

/// The versions of a list of listed versions, in order.
pub open spec fn listed_texts(versions: Seq<SptModVersion>) -> Seq<Seq<char>> {
    versions.map_values(|v: SptModVersion| v.version@)
}

/// What follows from a download page with the elements `elements`.
pub open spec fn step_after_download_page(elements: Seq<HtmlElement>) -> Result<
    DownloadStepView,
    HubError,
> {
    match download_link(elements) {
        Err(e) => Err(HubError::Page(e)),
        Ok(link) => match download_link_kind(link) {
            DownloadLinkView::File { file_name } => Ok(
                DownloadStepView::Ready { download_url: link, file_name },
            ),
            DownloadLinkView::GoogleDrive { file_id } => match parsed_url(
                warning_page_address(file_id),
            ) {
                Some(url) => Ok(DownloadStepView::NeedsWarningPage { url }),
                None => Err(HubError::BadUrl),
            },
            DownloadLinkView::Unknown => Err(HubError::UnknownDownloadLink),
        },
    }
}

/// What follows from a warning page with the elements `elements`.
pub open spec fn step_after_warning_page(elements: Seq<HtmlElement>) -> Result<
    DownloadStepView,
    HubError,
> {
    match google_download(elements) {
        Err(e) => Err(HubError::Page(e)),
        Ok(found) => Ok(DownloadStepView::Ready { download_url: found.0, file_name: found.1 }),
    }
}

/// The client of the mod hub: it spaces its requests half a second apart,
/// and picks version and archive out of the pages that the hub answers with.
#[derive(Debug)]
pub struct SptClient {
    pacer: RequestPacer,
}

impl SptClient {
    /// The pacer of this client.
    pub closed spec fn pacer(&self) -> RequestPacer {
        self.pacer
    }

    /// A client whose first request goes out at once.
    pub fn new() -> (client: Self)
        ensures
            client.pacer().ready_at() == 0,
            client.pacer().interval() == 500,
    {
        Self { pacer: RequestPacer::new(500) }
    }

    /// Claims the next request to the hub at the moment `now`, in
    /// milliseconds: the time to wait before it may be sent.
    pub fn get_spt_html(&mut self, now: u64) -> (wait: u64)
        ensures
            wait == if now >= old(self).pacer().ready_at() {
                0
            } else {
                old(self).pacer().ready_at() - now
            },
            now + wait >= old(self).pacer().ready_at(),
            final(self).pacer().interval() == old(self).pacer().interval(),
            final(self).pacer().ready_at() == if now + wait + old(self).pacer().interval()
                > u64::MAX {
                u64::MAX
            } else {
                (now + wait + old(self).pacer().interval()) as u64
            },
    {
        self.pacer.wait_for_turn(now)
    }

    /// The newest of the versions that a mod's page lists: of two versions
    /// the later one on the page is taken unless the earlier one is greater.
    pub fn get_latest_version(spt_mod: &SptMod) -> (latest: Result<usize, HubError>)
        ensures
            latest is Ok <==> spt_mod.versions@.len() > 0,
            latest matches Ok(at) ==> at == newest_index(listed_texts(spt_mod.versions@)) && at
                < spt_mod.versions@.len(),
            latest matches Err(e) ==> e == HubError::NoVersions,
    {
        let versions = &spt_mod.versions;
        if versions.len() == 0 {
            return Err(HubError::NoVersions);
        }
        let mut best: usize = 0;
        let mut i: usize = 1;
        assert(listed_texts(versions@.take(1)).len() == 1);
        while i < versions.len()
            invariant
                1 <= i <= versions.len(),
                best < i,
                best == newest_index(listed_texts(versions@.take(i as int))),
            decreases versions.len() - i,
        {
            proof {
                let now = listed_texts(versions@.take(i + 1));
                assert(now.drop_last() =~= listed_texts(versions@.take(i as int)));
                assert(now.last() == versions@[i as int].version@);
                assert(now[best as int] == versions@[best as int].version@);
            }
            let order = versions[best].version.order(&versions[i].version);
            if order != VersionOrder::Greater {
                best = i;
            }
            i += 1;
        }
        assert(versions@.take(versions.len() as int) == versions@);
        Ok(best)
    }

    /// The first of the versions that a mod's page lists which is `version`.
    pub fn get_version(spt_mod: &SptMod, version: &Version) -> (found: Option<usize>)
        ensures
            found is Some <==> position_of(listed_texts(spt_mod.versions@), version@, 0)
                < spt_mod.versions@.len(),
            found matches Some(at) ==> at == position_of(
                listed_texts(spt_mod.versions@),
                version@,
                0,
            ),
    {
        let versions = &spt_mod.versions;
        let mut i: usize = 0;
        while i < versions.len()
            invariant
                i <= versions.len(),
                versions@ == spt_mod.versions@,
                position_of(listed_texts(versions@), version@, 0) == position_of(
                    listed_texts(versions@),
                    version@,
                    i as int,
                ),
            decreases versions.len() - i,
        {
            assert(listed_texts(versions@)[i as int] == versions@[i as int].version@);
            if versions[i].version.same(version) {
                return Some(i);
            }
            i += 1;
        }
        None
    }

    /// Reads a version's download page and says what follows: the archive is
    /// a named file at the page's link, or lies on the large-file host, whose
    /// warning page is to be read next.
    pub fn parse_download(document: &str) -> (step: Result<DownloadStep, HubError>)
        ensures
            step is Ok <==> step_after_download_page(document_elements(document@)) is Ok,
            step matches Ok(s) ==> s@ == step_after_download_page(
                document_elements(document@),
            )->Ok_0,
            step matches Err(e) ==> e == step_after_download_page(
                document_elements(document@),
            )->Err_0,
    {
        let link = match spt_parse_download(document) {
            Ok(link) => link,
            Err(e) => {
                return Err(HubError::Page(e));
            },
        };
        match parse_download_link(link.as_str()) {
            DownloadLink::File { file_name } => Ok(
                DownloadStep::Ready { download_url: link, file_name },
            ),
            DownloadLink::GoogleDrive { file_id } => {
                let address = warning_page_of(file_id.as_str());
                match parse_url(address.as_str()) {
                    Some(url) => Ok(DownloadStep::NeedsWarningPage { url }),
                    None => Err(HubError::BadUrl),
                }
            },
            DownloadLink::Unknown => Err(HubError::UnknownDownloadLink),
        }
    }

    /// Reads the warning page of the large-file host: the archive's address
    /// and name are then known.
    pub fn parse_warning(document: &str) -> (step: Result<DownloadStep, HubError>)
        ensures
            step is Ok <==> step_after_warning_page(document_elements(document@)) is Ok,
            step matches Ok(s) ==> s@ == step_after_warning_page(
                document_elements(document@),
            )->Ok_0,
            step matches Err(e) ==> e == step_after_warning_page(
                document_elements(document@),
            )->Err_0,
    {
        match google_parse_download(document) {
            Ok((download_url, file_name)) => Ok(DownloadStep::Ready { download_url, file_name }),
            Err(e) => Err(HubError::Page(e)),
        }
    }

    /// The download that a listed version gives once its archive's address
    /// and name are known.
    pub fn into_download(
        title: String,
        listed: SptModVersion,
        download_url: String,
        file_name: String,
    ) -> (download: ModDownloadVersion)
        ensures
            download.title == title,
            download.file_name == file_name,
            download.download_url == download_url,
            download.uploaded_at == listed.uploaded_at,
            download.version == listed.version,
    {
        ModDownloadVersion {
            title,
            file_name,
            download_url,
            uploaded_at: listed.uploaded_at,
            version: listed.version,
        }
    }
}

} // verus!
