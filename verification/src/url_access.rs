//! Absolute URLs, as the `url` crate reads and writes them. A URL is held as
//! the text that the crate serialises it to.

use url::Url;
use vstd::prelude::*;

verus! {

/// The serialisation of the absolute URL that `text` spells, where it spells
/// one.
pub uninterp spec fn parsed_url(text: Seq<char>) -> Option<Seq<char>>;

/// The serialisation of the URL that `reference` denotes relative to the URL
/// spelled by `base`, where both can be read.
pub uninterp spec fn joined_url(base: Seq<char>, reference: Seq<char>) -> Option<Seq<char>>;

/// The serialisation of the URL spelled by `base` with `params` added to its
/// query, where `base` can be read.
pub uninterp spec fn url_with_params(
    base: Seq<char>,
    params: Seq<(Seq<char>, Seq<char>)>,
) -> Option<Seq<char>>;

/// `url::Url::parse`: reads `text` as an absolute URL and hands back its
/// serialisation, or nothing where the crate refuses the text.
#[verifier::external_body]
pub(crate) fn parse_url(text: &str) -> (url: Option<String>)
    ensures
        url is Some <==> parsed_url(text@) is Some,
        url matches Some(u) ==> u@ == parsed_url(text@)->0,
{
    Url::parse(text).ok().map(String::from)
}

/// `url::Url::join` on the URL spelled by `base`: resolves `reference`
/// against it and hands back the serialisation, or nothing where the crate
/// refuses either text.
#[verifier::external_body]
pub(crate) fn join_url(base: &str, reference: &str) -> (url: Option<String>)
    ensures
        url is Some <==> joined_url(base@, reference@) is Some,
        url matches Some(u) ==> u@ == joined_url(base@, reference@)->0,
{
    Url::parse(base).ok()?.join(reference).ok().map(String::from)
}

/// `url::Url::parse_with_params`: reads `base` as an absolute URL, appends
/// the pairs of `params` to its query in order, and hands back the
/// serialisation, or nothing where the crate refuses `base`.
#[verifier::external_body]
pub(crate) fn parse_url_with_params(base: &str, params: &Vec<(String, String)>) -> (url: Option<
    String,
>)
    ensures
        url is Some <==> url_with_params(base@, params.deep_view()) is Some,
        url matches Some(u) ==> u@ == url_with_params(base@, params.deep_view())->0,
{
    Url::parse_with_params(base, params).ok().map(String::from)
}

} // verus!
