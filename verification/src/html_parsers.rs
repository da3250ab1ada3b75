//! Reading the pages of the mod hub and of the large-file host. A page is
//! read by `scraper` into a list of its elements; what the library looks for
//! in that list is stated and proved here.

use crate::text::{chars_of, parse_integer, same_chars, same_text, spelled_integer};
use crate::time_access::{is_timestamp, timestamp_in_range};
use crate::url_access::{parse_url, parse_url_with_params, parsed_url, url_with_params};
use crate::version::{from_first_digit, leading_version, parse_version, Version};
use scraper::{Html, Selector};
use vstd::prelude::*;

verus! {

/// One attribute of an element: its namespace, which is empty for the
/// attributes of HTML itself, its name and its value.
#[derive(Clone, Debug, PartialEq, Eq)]
pub struct HtmlAttribute {
    pub namespace: String,
    pub name: String,
    pub value: String,
}

/// One element of a page: its tag, its classes, its attributes in the order
/// in which the page's reader holds them, the first piece of text inside it,
/// and the number of nodes above it.
#[derive(Clone, Debug, PartialEq, Eq)]
pub struct HtmlElement {
    pub tag: String,
    pub classes: Vec<String>,
    pub attrs: Vec<HtmlAttribute>,
    pub text: Option<String>,
    pub depth: usize,
}

/// The elements below the root of the page that `document` spells, in
/// document order.
pub uninterp spec fn document_elements(document: Seq<char>) -> Seq<HtmlElement>;

/// `scraper::Html::parse_document`, then `ElementRef::select` with the
/// selector `*` on the root element: every element below the root, in
/// document order, each converted field by field (`Element::name`,
/// `classes`, the items of the field `attrs` with the namespace and local
/// name of each, the first item of `ElementRef::text`, and the count of
/// `ancestors`).
#[verifier::external_body]
fn read_document(document: &str) -> (elements: Vec<HtmlElement>)
    ensures
        elements@ == document_elements(document@),
{
    let html = Html::parse_document(document);
    let every = Selector::parse("*").unwrap();
    html.root_element().select(&every).map(|e| HtmlElement {
        tag: e.value().name().to_string(),
        classes: e.value().classes().map(String::from).collect(),
        attrs: e.value().attrs.iter().map(|(q, v)| HtmlAttribute {
            namespace: q.ns.to_string(),
            name: q.local.to_string(),
            value: v.to_string(),
        }).collect(),
        text: e.text().next().map(String::from),
        depth: e.ancestors().count(),
    }).collect()
}

/// Why a page could not be read.
#[derive(Clone, Copy, Debug, PartialEq, Eq, Structural)]
pub enum ScrapeError {
    /// The mod's page has no title.
    NoTitle,
    /// The mod's page has no list of versions.
    NoVersions,
    /// A version has no time of upload.
    NoTime,
    /// A version's time of upload is no number.
    BadTimestamp,
    /// A version's time of upload is no moment.
    TimeOutOfRange,
    /// A version's link has no address.
    NoDownloadLink,
    /// A version's link has no label.
    NoVersionName,
    /// A version's label holds no version.
    BadVersion,
    /// An address on the page is no URL.
    BadUrl,
    /// The download page has no link.
    NoLink,
    /// The warning page has no download form.
    NoDownloadForm,
    /// The warning page does not name the file.
    NoFileName,
    /// A hidden field of the download form lacks its name or its value.
    BadFormField,
}

impl ScrapeError {
    /// The error in words, as characters.
    pub open spec fn text(&self) -> Seq<char> {
        match self {
            ScrapeError::NoTitle => "Found no title"@,
            ScrapeError::NoVersions => "Found no versions"@,
            ScrapeError::NoTime => "Failed to find time for version"@,
            ScrapeError::BadTimestamp => "Failed to read the time"@,
            ScrapeError::TimeOutOfRange => "Failed to parse the time"@,
            ScrapeError::NoDownloadLink => "Found no download link for version"@,
            ScrapeError::NoVersionName => "Found no version name"@,
            ScrapeError::BadVersion => "Failed to parse version"@,
            ScrapeError::BadUrl => "Failed to parse url"@,
            ScrapeError::NoLink => "Found no link on the download page"@,
            ScrapeError::NoDownloadForm => "Failed to find download form"@,
            ScrapeError::NoFileName => "Failed to find file name"@,
            ScrapeError::BadFormField => "Failed to parse file download"@,
        }
    }

    /// The error in words.
    pub fn message(&self) -> (text: &'static str)
        ensures
            text@ == self.text(),
    {
        match self {
            ScrapeError::NoTitle => "Found no title",
            ScrapeError::NoVersions => "Found no versions",
            ScrapeError::NoTime => "Failed to find time for version",
            ScrapeError::BadTimestamp => "Failed to read the time",
            ScrapeError::TimeOutOfRange => "Failed to parse the time",
            ScrapeError::NoDownloadLink => "Found no download link for version",
            ScrapeError::NoVersionName => "Found no version name",
            ScrapeError::BadVersion => "Failed to parse version",
            ScrapeError::BadUrl => "Failed to parse url",
            ScrapeError::NoLink => "Found no link on the download page",
            ScrapeError::NoDownloadForm => "Failed to find download form",
            ScrapeError::NoFileName => "Failed to find file name",
            ScrapeError::BadFormField => "Failed to parse file download",
        }
    }
}

/// What the library looks for on a page.
#[derive(Clone, Copy, Debug, PartialEq, Eq, Structural)]
pub enum Wanted {
    /// The heading that holds the mod's title.
    TitleHeading,
    /// The element that is marked as the mod's name.
    TitleName,
    /// The block that holds the list of versions.
    VersionList,
    /// A version in the list that is neither deleted nor disabled.
    VersionItem,
    /// The link that leads to a version's download page.
    ExternalLink,
    /// A time of upload.
    Time,
    /// Any link.
    Anchor,
    /// The form that starts a large file's download.
    DownloadForm,
    /// The paragraph that names a large file.
    WarningCaption,
    /// A hidden field of a form.
    HiddenInput,
}

/// The value of the first attribute without a namespace that is named
/// `name`, among `attrs[from..]`.
pub open spec fn attribute_from(attrs: Seq<HtmlAttribute>, name: Seq<char>, from: int) -> Option<
    Seq<char>,
>
    decreases attrs.len() - from,
{
    if from < 0 || from >= attrs.len() {
        None
    } else if attrs[from].namespace@.len() == 0 && attrs[from].name@ == name {
        Some(attrs[from].value@)
    } else {
        attribute_from(attrs, name, from + 1)
    }
}

/// The value of the element's attribute `name`.
pub open spec fn attribute(element: HtmlElement, name: Seq<char>) -> Option<Seq<char>> {
    attribute_from(element.attrs@, name, 0)
}

/// The element carries the class `class`.
pub open spec fn has_class(element: HtmlElement, class: Seq<char>) -> bool {
    exists|i: int| 0 <= i < element.classes@.len() && (#[trigger] element.classes@[i])@ == class
}

/// An upper-case letter of ASCII becomes its lower-case form.
pub open spec fn ascii_lower(c: char) -> char {
    if 'A' <= c && c <= 'Z' {
        ((c as u8) + 32) as char
    } else {
        c
    }
}

/// `s` with its ASCII letters in lower case.
pub open spec fn lowered(s: Seq<char>) -> Seq<char> {
    Seq::new(s.len(), |i: int| ascii_lower(s[i]))
}

/// The text of an optional string.
pub open spec fn text_of(text: Option<String>) -> Option<Seq<char>> {
    match text {
        Some(t) => Some(t@),
        None => None,
    }
}

/// Whether `element` is what `wanted` describes.
pub open spec fn is_wanted(element: HtmlElement, wanted: Wanted) -> bool {
    match wanted {
        Wanted::TitleHeading => element.tag@ == "h1"@ && has_class(element, "contentTitle"@),
        Wanted::TitleName => attribute(element, "itemprop"@) == Some("name"@),
        Wanted::VersionList => element.tag@ == "div"@ && attribute(element, "id"@) == Some(
            "versions"@,
        ),
        Wanted::VersionItem => element.tag@ == "li"@ && attribute(element, "data-is-deleted"@)
            == Some("false"@) && attribute(element, "data-is-disabled"@) == Some("false"@),
        Wanted::ExternalLink => element.tag@ == "a"@ && has_class(element, "externalURL"@),
        Wanted::Time => element.tag@ == "time"@,
        Wanted::Anchor => element.tag@ == "a"@,
        Wanted::DownloadForm => element.tag@ == "form"@ && attribute(element, "action"@) == Some(
            "https://drive.usercontent.google.com/download"@,
        ),
        Wanted::WarningCaption => element.tag@ == "p"@ && attribute(element, "class"@) == Some(
            "uc-warning-subcaption"@,
        ),
        Wanted::HiddenInput => element.tag@ == "input"@ && match attribute(element, "type"@) {
            Some(kind) => lowered(kind) == "hidden"@,
            None => false,
        },
    }
}

/// The first position at or after `from` whose element lies no deeper than
/// `depth`; the number of elements when there is none.
pub open spec fn shallow_from(elements: Seq<HtmlElement>, depth: usize, from: int) -> int
    decreases elements.len() - from,
{
    if from < 0 || from >= elements.len() {
        elements.len() as int
    } else if elements[from].depth <= depth {
        from
    } else {
        shallow_from(elements, depth, from + 1)
    }
}

/// The position behind the last element inside element `at`.
pub open spec fn subtree_end(elements: Seq<HtmlElement>, at: int) -> int {
    shallow_from(elements, elements[at].depth, at + 1)
}

/// `element` lies one level below `depth`, where a depth is given.
pub open spec fn directly_below(element: HtmlElement, depth: Option<usize>) -> bool {
    match depth {
        Some(d) => element.depth == d + 1,
        None => true,
    }
}

/// The first position in `from..to` whose element is `wanted` and, where
/// `below` is given, lies one level below that depth; `to` when there is
/// none.
pub open spec fn first_wanted(
    elements: Seq<HtmlElement>,
    wanted: Wanted,
    below: Option<usize>,
    from: int,
    to: int,
) -> int
    decreases to - from,
{
    if from < 0 || from >= to || to > elements.len() {
        to
    } else if is_wanted(elements[from], wanted) && directly_below(elements[from], below) {
        from
    } else {
        first_wanted(elements, wanted, below, from + 1, to)
    }
}

/// The value of the element's attribute `name`.
pub fn get_attribute<'a>(element: &'a HtmlElement, name: &str) -> (value: Option<&'a str>)
    ensures
        value is Some <==> attribute(*element, name@) is Some,
        value matches Some(v) ==> v@ == attribute(*element, name@)->0,
{
    let mut i: usize = 0;
    while i < element.attrs.len()
        invariant
            i <= element.attrs.len(),
            attribute(*element, name@) == attribute_from(element.attrs@, name@, i as int),
        decreases element.attrs.len() - i,
    {
        if element.attrs[i].namespace.as_str().unicode_len() == 0 && same_text(
            element.attrs[i].name.as_str(),
            name,
        ) {
            return Some(element.attrs[i].value.as_str());
        }
        i += 1;
    }
    None
}

/// Whether the element's attribute `name` has the value `expected`.
pub fn attribute_is(element: &HtmlElement, name: &str, expected: &str) -> (same: bool)
    ensures
        same == (attribute(*element, name@) == Some(expected@)),
{
    match get_attribute(element, name) {
        Some(value) => same_text(value, expected),
        None => false,
    }
}

/// Whether the element carries the class `class`.
pub fn element_has_class(element: &HtmlElement, class: &str) -> (found: bool)
    ensures
        found == has_class(*element, class@),
{
    let mut i: usize = 0;
    while i < element.classes.len()
        invariant
            i <= element.classes.len(),
            forall|k: int| 0 <= k < i ==> (#[trigger] element.classes@[k])@ != class@,
        decreases element.classes.len() - i,
    {
        if same_text(element.classes[i].as_str(), class) {
            return true;
        }
        i += 1;
    }
    false
}

/// Whether `text`, with its ASCII letters in lower case, is `expected`.
pub fn lowered_is(text: &str, expected: &str) -> (same: bool)
    ensures
        same == (lowered(text@) == expected@),
{
    let chars = chars_of(text);
    let wanted = chars_of(expected);
    let mut lower: Vec<char> = Vec::new();
    let mut i: usize = 0;
    while i < chars.len()
        invariant
            i <= chars.len(),
            lower@ == lowered(chars@.take(i as int)),
        decreases chars.len() - i,
    {
        let c = chars[i];
        let mapped = if c >= 'A' && c <= 'Z' {
            ((c as u8) + 32) as char
        } else {
            c
        };
        lower.push(mapped);
        assert(lower@ =~= lowered(chars@.take(i + 1)));
        i += 1;
    }
    assert(chars@.take(chars.len() as int) == chars@);
    same_chars(&lower, &wanted)
}

/// Whether `element` is what `wanted` describes.
pub fn element_is(element: &HtmlElement, wanted: Wanted) -> (found: bool)
    ensures
        found == is_wanted(*element, wanted),
{
    let tag = element.tag.as_str();
    match wanted {
        Wanted::TitleHeading => same_text(tag, "h1") && element_has_class(element, "contentTitle"),
        Wanted::TitleName => attribute_is(element, "itemprop", "name"),
        Wanted::VersionList => same_text(tag, "div") && attribute_is(element, "id", "versions"),
        Wanted::VersionItem => same_text(tag, "li") && attribute_is(
            element,
            "data-is-deleted",
            "false",
        ) && attribute_is(element, "data-is-disabled", "false"),
        Wanted::ExternalLink => same_text(tag, "a") && element_has_class(element, "externalURL"),
        Wanted::Time => same_text(tag, "time"),
        Wanted::Anchor => same_text(tag, "a"),
        Wanted::DownloadForm => same_text(tag, "form") && attribute_is(
            element,
            "action",
            "https://drive.usercontent.google.com/download",
        ),
        Wanted::WarningCaption => same_text(tag, "p") && attribute_is(
            element,
            "class",
            "uc-warning-subcaption",
        ),
        Wanted::HiddenInput => same_text(tag, "input") && match get_attribute(element, "type") {
            Some(kind) => lowered_is(kind, "hidden"),
            None => false,
        },
    }
}

/// The position behind the last element inside element `at`.
pub fn find_subtree_end(elements: &Vec<HtmlElement>, at: usize) -> (end: usize)
    requires
        at < elements.len(),
    ensures
        end == subtree_end(elements@, at as int),
        at < end <= elements.len(),
{
    let depth = elements[at].depth;
    let mut i: usize = at + 1;
    while i < elements.len()
        invariant
            at < i <= elements.len(),
            depth == elements@[at as int].depth,
            subtree_end(elements@, at as int) == shallow_from(elements@, depth, i as int),
        decreases elements.len() - i,
    {
        if elements[i].depth <= depth {
            return i;
        }
        i += 1;
    }
    i
}

/// The first position in `from..to` whose element is `wanted` and, where
/// `depth` is given, lies one level below that depth; `to` when there is
/// none.
pub fn find_first(
    elements: &Vec<HtmlElement>,
    wanted: Wanted,
    depth: Option<usize>,
    from: usize,
    to: usize,
) -> (at: usize)
    requires
        from <= to <= elements.len(),
    ensures
        at == first_wanted(elements@, wanted, depth, from as int, to as int),
        from <= at <= to,
{
    let mut i: usize = from;
    while i < to
        invariant
            from <= i <= to <= elements.len(),
            first_wanted(elements@, wanted, depth, from as int, to as int) == first_wanted(
                elements@,
                wanted,
                depth,
                i as int,
                to as int,
            ),
        decreases to - i,
    {
        let at_depth = match depth {
            Some(d) => elements[i].depth > 0 && elements[i].depth - 1 == d,
            None => true,
        };
        if at_depth && element_is(&elements[i], wanted) {
            return i;
        }
        i += 1;
    }
    i
}

/// One version as a mod's page lists it.
#[derive(Debug)]
pub struct SptModVersion {
    pub version: Version,
    pub download_url: String,
    pub uploaded_at: i64,
}

/// What an `SptModVersion` holds, as characters.
pub struct SptModVersionView {
    pub version: Seq<char>,
    pub download_url: Seq<char>,
    pub uploaded_at: i64,
}

impl View for SptModVersion {
    type V = SptModVersionView;

    open spec fn view(&self) -> SptModVersionView {
        SptModVersionView {
            version: self.version@,
            download_url: self.download_url@,
            uploaded_at: self.uploaded_at,
        }
    }
}

/// A mod as its page on the hub shows it: its title, and its versions in the
/// order of the page.
#[derive(Debug)]
pub struct SptMod {
    pub title: String,
    pub versions: Vec<SptModVersion>,
}

/// The views of `versions`, in order.
pub open spec fn version_views(versions: Seq<SptModVersion>) -> Seq<SptModVersionView> {
    versions.map_values(|v: SptModVersion| v@)
}

/// The address that a download page leads to: that of its first link.
pub open spec fn download_link(elements: Seq<HtmlElement>) -> Result<Seq<char>, ScrapeError> {
    let anchor = first_wanted(elements, Wanted::Anchor, None, 0, elements.len() as int);
    if anchor == elements.len() {
        Err(ScrapeError::NoLink)
    } else {
        match attribute(elements[anchor], "href"@) {
            None => Err(ScrapeError::NoLink),
            Some(href) => match parsed_url(href) {
                None => Err(ScrapeError::BadUrl),
                Some(url) => Ok(url),
            },
        }
    }
}

/// The title on a mod's page: the first text in the first element marked as
/// the name, directly below the first title heading.
pub open spec fn page_title(elements: Seq<HtmlElement>) -> Option<Seq<char>> {
    let heading = first_wanted(elements, Wanted::TitleHeading, None, 0, elements.len() as int);
    if heading == elements.len() {
        None
    } else {
        let end = subtree_end(elements, heading);
        let holder = first_wanted(
            elements,
            Wanted::TitleName,
            Some(elements[heading].depth),
            heading + 1,
            end,
        );
        if holder == end {
            None
        } else {
            text_of(elements[holder].text)
        }
    }
}

/// What the list item at `item` says of a version: nothing where it holds no
/// external link, else the version or the first thing found amiss.
pub open spec fn listed_version(elements: Seq<HtmlElement>, item: int) -> Option<
    Result<SptModVersionView, ScrapeError>,
> {
    let end = subtree_end(elements, item);
    let link = first_wanted(elements, Wanted::ExternalLink, None, item + 1, end);
    let time = first_wanted(elements, Wanted::Time, None, item + 1, end);
    if link == end {
        None
    } else if time == end {
        Some(Err(ScrapeError::NoTime))
    } else {
        Some(
            match attribute(elements[time], "data-timestamp"@) {
                None => Err(ScrapeError::NoTime),
                Some(stamp) => match spelled_integer(stamp) {
                    None => Err(ScrapeError::BadTimestamp),
                    Some(seconds) => if !timestamp_in_range(seconds) {
                        Err(ScrapeError::TimeOutOfRange)
                    } else {
                        match attribute(elements[link], "href"@) {
                            None => Err(ScrapeError::NoDownloadLink),
                            Some(href) => match text_of(elements[link].text) {
                                None => Err(ScrapeError::NoVersionName),
                                Some(label) => match leading_version(from_first_digit(label)) {
                                    None => Err(ScrapeError::BadVersion),
                                    Some(version) => match parsed_url(href) {
                                        None => Err(ScrapeError::BadUrl),
                                        Some(url) => Ok(
                                            SptModVersionView {
                                                version,
                                                download_url: url,
                                                uploaded_at: seconds,
                                            },
                                        ),
                                    },
                                },
                            },
                        }
                    },
                },
            },
        )
    }
}

/// The versions that the list items in `from..to` hold, in order, or the
/// first thing found amiss.
pub open spec fn listed_versions(elements: Seq<HtmlElement>, from: int, to: int) -> Result<
    Seq<SptModVersionView>,
    ScrapeError,
>
    decreases to - from,
{
    if to <= from {
        Ok(Seq::empty())
    } else {
        match listed_versions(elements, from, to - 1) {
            Err(e) => Err(e),
            Ok(versions) => if is_wanted(elements[to - 1], Wanted::VersionItem) {
                match listed_version(elements, to - 1) {
                    None => Ok(versions),
                    Some(Ok(version)) => Ok(versions.push(version)),
                    Some(Err(e)) => Err(e),
                }
            } else {
                Ok(versions)
            },
        }
    }
}

/// What a mod's page says: the title, and the versions listed inside the
/// first block of versions.
pub open spec fn mod_page(elements: Seq<HtmlElement>) -> Result<
    (Seq<char>, Seq<SptModVersionView>),
    ScrapeError,
> {
    let list = first_wanted(elements, Wanted::VersionList, None, 0, elements.len() as int);
    match page_title(elements) {
        None => Err(ScrapeError::NoTitle),
        Some(title) => if list == elements.len() {
            Err(ScrapeError::NoVersions)
        } else {
            match listed_versions(elements, list + 1, subtree_end(elements, list)) {
                Err(e) => Err(e),
                Ok(versions) => Ok((title, versions)),
            }
        },
    }
}

/// The name and value of the hidden fields directly below the form at
/// `form`, among the elements before `to`, or the error of a field that
/// lacks one of the two.
pub open spec fn hidden_fields(elements: Seq<HtmlElement>, form: int, to: int) -> Result<
    Seq<(Seq<char>, Seq<char>)>,
    ScrapeError,
>
    decreases to - form,
{
    if to <= form + 1 {
        Ok(Seq::empty())
    } else {
        match hidden_fields(elements, form, to - 1) {
            Err(e) => Err(e),
            Ok(fields) => if is_wanted(elements[to - 1], Wanted::HiddenInput) && directly_below(
                elements[to - 1],
                Some(elements[form].depth),
            ) {
                match (
                    attribute(elements[to - 1], "name"@),
                    attribute(elements[to - 1], "value"@),
                ) {
                    (Some(name), Some(value)) => Ok(fields.push((name, value))),
                    _ => Err(ScrapeError::BadFormField),
                }
            } else {
                Ok(fields)
            },
        }
    }
}

/// The file name on a warning page: the first text of the first link inside
/// the first warning caption.
pub open spec fn warned_file_name(elements: Seq<HtmlElement>) -> Option<Seq<char>> {
    let caption = first_wanted(elements, Wanted::WarningCaption, None, 0, elements.len() as int);
    if caption == elements.len() {
        None
    } else {
        let end = subtree_end(elements, caption);
        let anchor = first_wanted(elements, Wanted::Anchor, None, caption + 1, end);
        if anchor == end {
            None
        } else {
            text_of(elements[anchor].text)
        }
    }
}

/// What a warning page of the large-file host says: the address that starts
/// the download, made of the form's action and its hidden fields, and the
/// file's name.
pub open spec fn google_download(elements: Seq<HtmlElement>) -> Result<
    (Seq<char>, Seq<char>),
    ScrapeError,
> {
    let form = first_wanted(elements, Wanted::DownloadForm, None, 0, elements.len() as int);
    if form == elements.len() {
        Err(ScrapeError::NoDownloadForm)
    } else {
        match warned_file_name(elements) {
            None => Err(ScrapeError::NoFileName),
            Some(file_name) => match hidden_fields(elements, form, subtree_end(elements, form)) {
                Err(e) => Err(e),
                Ok(fields) => match url_with_params(
                    "https://drive.usercontent.google.com/download"@,
                    fields,
                ) {
                    None => Err(ScrapeError::BadUrl),
                    Some(url) => Ok((url, file_name)),
                },
            },
        }
    }
}

/// An error among the first list items is the error of the whole list.
pub proof fn lemma_listed_versions_error(
    elements: Seq<HtmlElement>,
    from: int,
    mid: int,
    to: int,
)
    requires
        from <= mid <= to,
        listed_versions(elements, from, mid) is Err,
    ensures
        listed_versions(elements, from, to) == listed_versions(elements, from, mid),
    decreases to - mid,
{
    if mid < to {
        lemma_listed_versions_error(elements, from, mid, to - 1);
    }
}

/// An error among the first fields is the error of the whole form.
pub proof fn lemma_hidden_fields_error(elements: Seq<HtmlElement>, form: int, mid: int, to: int)
    requires
        form < mid <= to,
        hidden_fields(elements, form, mid) is Err,
    ensures
        hidden_fields(elements, form, to) == hidden_fields(elements, form, mid),
    decreases to - mid,
{
    if mid < to {
        lemma_hidden_fields_error(elements, form, mid, to - 1);
    }
}

/// The address that a download page leads to, read from its elements.
pub fn download_link_of(elements: &Vec<HtmlElement>) -> (link: Result<String, ScrapeError>)
    ensures
        link is Ok <==> download_link(elements@) is Ok,
        link matches Ok(url) ==> url@ == download_link(elements@)->Ok_0,
        link matches Err(e) ==> e == download_link(elements@)->Err_0,
{
    let anchor = find_first(elements, Wanted::Anchor, None, 0, elements.len());
    if anchor == elements.len() {
        return Err(ScrapeError::NoLink);
    }
    let Some(href) = get_attribute(&elements[anchor], "href") else {
        return Err(ScrapeError::NoLink);
    };
    match parse_url(href) {
        Some(url) => Ok(url),
        None => Err(ScrapeError::BadUrl),
    }
}

/// The text of an optional string.
fn text_in(text: &Option<String>) -> (found: Option<&str>)
    ensures
        found is Some <==> text is Some,
        found matches Some(t) ==> Some(t@) == text_of(*text),
        found is None ==> text_of(*text) is None,
{
    match text {
        Some(t) => Some(t.as_str()),
        None => None,
    }
}

/// The title on a mod's page, read from its elements.
pub fn page_title_of(elements: &Vec<HtmlElement>) -> (title: Option<String>)
    ensures
        title is Some <==> page_title(elements@) is Some,
        title matches Some(t) ==> t@ == page_title(elements@)->0,
{
    let heading = find_first(elements, Wanted::TitleHeading, None, 0, elements.len());
    if heading == elements.len() {
        return None;
    }
    let end = find_subtree_end(elements, heading);
    let holder = find_first(
        elements,
        Wanted::TitleName,
        Some(elements[heading].depth),
        heading + 1,
        end,
    );
    if holder == end {
        return None;
    }
    match text_in(&elements[holder].text) {
        Some(text) => Some(text.to_owned()),
        None => None,
    }
}

/// What the list item at `item` says of a version, read from the elements.
pub fn listed_version_of(elements: &Vec<HtmlElement>, item: usize) -> (listed: Option<
    Result<SptModVersion, ScrapeError>,
>)
    requires
        item < elements.len(),
    ensures
        listed is Some <==> listed_version(elements@, item as int) is Some,
        listed matches Some(Ok(v)) ==> listed_version(elements@, item as int) == Some(
            Ok::<SptModVersionView, ScrapeError>(v@),
        ),
        listed matches Some(Err(e)) ==> listed_version(elements@, item as int) == Some(
            Err::<SptModVersionView, ScrapeError>(e),
        ),
{
    let end = find_subtree_end(elements, item);
    let link = find_first(elements, Wanted::ExternalLink, None, item + 1, end);
    if link == end {
        return None;
    }
    let time = find_first(elements, Wanted::Time, None, item + 1, end);
    if time == end {
        return Some(Err(ScrapeError::NoTime));
    }
    let Some(stamp) = get_attribute(&elements[time], "data-timestamp") else {
        return Some(Err(ScrapeError::NoTime));
    };
    let Some(seconds) = parse_integer(stamp) else {
        return Some(Err(ScrapeError::BadTimestamp));
    };
    if !is_timestamp(seconds) {
        return Some(Err(ScrapeError::TimeOutOfRange));
    }
    let Some(href) = get_attribute(&elements[link], "href") else {
        return Some(Err(ScrapeError::NoDownloadLink));
    };
    let Some(label) = text_in(&elements[link].text) else {
        return Some(Err(ScrapeError::NoVersionName));
    };
    let Some(version) = parse_version(label) else {
        return Some(Err(ScrapeError::BadVersion));
    };
    let Some(download_url) = parse_url(href) else {
        return Some(Err(ScrapeError::BadUrl));
    };
    Some(Ok(SptModVersion { version, download_url, uploaded_at: seconds }))
}

/// What a mod's page says, read from its elements.
pub fn mod_page_of(elements: &Vec<HtmlElement>) -> (page: Result<SptMod, ScrapeError>)
    ensures
        page is Ok <==> mod_page(elements@) is Ok,
        page matches Ok(m) ==> (m.title@, version_views(m.versions@)) == mod_page(
            elements@,
        )->Ok_0,
        page matches Err(e) ==> e == mod_page(elements@)->Err_0,
{
    let Some(title) = page_title_of(elements) else {
        return Err(ScrapeError::NoTitle);
    };
    let list = find_first(elements, Wanted::VersionList, None, 0, elements.len());
    if list == elements.len() {
        return Err(ScrapeError::NoVersions);
    }
    let end = find_subtree_end(elements, list);
    let mut versions: Vec<SptModVersion> = Vec::new();
    let mut item: usize = list + 1;
    assert(version_views(versions@) =~= Seq::empty());
    while item < end
        invariant
            list < item <= end <= elements.len(),
            page_title(elements@) is Some,
            list == first_wanted(elements@, Wanted::VersionList, None, 0, elements.len() as int),
            end == subtree_end(elements@, list as int),
            listed_versions(elements@, list + 1, item as int) == Ok::<
                Seq<SptModVersionView>,
                ScrapeError,
            >(version_views(versions@)),
        decreases end - item,
    {
        if element_is(&elements[item], Wanted::VersionItem) {
            match listed_version_of(elements, item) {
                None => {},
                Some(Ok(version)) => {
                    proof {
                        assert(version_views(versions@.push(version)) == version_views(
                            versions@,
                        ).push(version@));
                    }
                    versions.push(version);
                },
                Some(Err(e)) => {
                    proof {
                        lemma_listed_versions_error(elements@, list + 1, item + 1, end as int);
                    }
                    return Err(e);
                },
            }
        }
        item += 1;
    }
    Ok(SptMod { title, versions })
}

/// What a warning page of the large-file host says, read from its elements.
pub fn google_download_of(elements: &Vec<HtmlElement>) -> (download: Result<
    (String, String),
    ScrapeError,
>)
    ensures
        download is Ok <==> google_download(elements@) is Ok,
        download matches Ok(d) ==> (d.0@, d.1@) == google_download(elements@)->Ok_0,
        download matches Err(e) ==> e == google_download(elements@)->Err_0,
{
    let form = find_first(elements, Wanted::DownloadForm, None, 0, elements.len());
    if form == elements.len() {
        return Err(ScrapeError::NoDownloadForm);
    }
    let caption = find_first(elements, Wanted::WarningCaption, None, 0, elements.len());
    if caption == elements.len() {
        return Err(ScrapeError::NoFileName);
    }
    let caption_end = find_subtree_end(elements, caption);
    let anchor = find_first(elements, Wanted::Anchor, None, caption + 1, caption_end);
    if anchor == caption_end {
        return Err(ScrapeError::NoFileName);
    }
    let Some(file_name) = text_in(&elements[anchor].text) else {
        return Err(ScrapeError::NoFileName);
    };
    let end = find_subtree_end(elements, form);
    let depth = elements[form].depth;
    let mut fields: Vec<(String, String)> = Vec::new();
    let mut at: usize = form + 1;
    assert(fields.deep_view() =~= Seq::empty());
    while at < end
        invariant
            form < at <= end <= elements.len(),
            warned_file_name(elements@) is Some,
            form == first_wanted(elements@, Wanted::DownloadForm, None, 0, elements.len() as int),
            end == subtree_end(elements@, form as int),
            depth == elements@[form as int].depth,
            hidden_fields(elements@, form as int, at as int) == Ok::<
                Seq<(Seq<char>, Seq<char>)>,
                ScrapeError,
            >(fields.deep_view()),
        decreases end - at,
    {
        let element = &elements[at];
        if element.depth > 0 && element.depth - 1 == depth && element_is(
            element,
            Wanted::HiddenInput,
        ) {
            match (get_attribute(element, "name"), get_attribute(element, "value")) {
                (Some(name), Some(value)) => {
                    let ghost before = fields.deep_view();
                    fields.push((name.to_owned(), value.to_owned()));
                    assert(fields.deep_view() =~= before.push((name@, value@)));
                },
                _ => {
                    proof {
                        lemma_hidden_fields_error(elements@, form as int, at + 1, end as int);
                    }
                    return Err(ScrapeError::BadFormField);
                },
            }
        }
        at += 1;
    }
    match parse_url_with_params("https://drive.usercontent.google.com/download", &fields) {
        Some(url) => Ok((url, file_name.to_owned())),
        None => Err(ScrapeError::BadUrl),
    }
}

/// Reads a mod's page on the hub: its title and the versions it lists.
pub fn spt_parse_mod_page(document: &str) -> (page: Result<SptMod, ScrapeError>)
    ensures
        page is Ok <==> mod_page(document_elements(document@)) is Ok,
        page matches Ok(m) ==> (m.title@, version_views(m.versions@)) == mod_page(
            document_elements(document@),
        )->Ok_0,
        page matches Err(e) ==> e == mod_page(document_elements(document@))->Err_0,
{
    let elements = read_document(document);
    mod_page_of(&elements)
}

/// Reads a version's download page: the address that its first link leads
/// to.
pub fn spt_parse_download(document: &str) -> (link: Result<String, ScrapeError>)
    ensures
        link is Ok <==> download_link(document_elements(document@)) is Ok,
        link matches Ok(url) ==> url@ == download_link(document_elements(document@))->Ok_0,
        link matches Err(e) ==> e == download_link(document_elements(document@))->Err_0,
{
    let elements = read_document(document);
    download_link_of(&elements)
}

/// Reads the warning page that the large-file host shows in place of a large
/// file: the address that starts the download, and the file's name.
pub fn google_parse_download(document: &str) -> (download: Result<(String, String), ScrapeError>)
    ensures
        download is Ok <==> google_download(document_elements(document@)) is Ok,
        download matches Ok(d) ==> (d.0@, d.1@) == google_download(
            document_elements(document@),
        )->Ok_0,
        download matches Err(e) ==> e == google_download(document_elements(document@))->Err_0,
{
    let elements = read_document(document);
    google_download_of(&elements)
}

/// The elements of a page, as the parsers of this module take them.
pub fn parse_elements(document: &str) -> (elements: Vec<HtmlElement>)
    ensures
        elements@ == document_elements(document@),
{
    read_document(document)
}

} // verus!
