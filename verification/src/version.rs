//! Versions of mods. A version is held as its canonical text; reading,
//! ordering and comparing versions is the work of the `versions` crate.

use crate::text::{chars_of, is_digit, same_text, string_of_range};
use std::cmp::Ordering;
use versions::Versioning;
use vstd::prelude::*;

verus! {

/// The outcome of comparing two versions.
#[derive(Clone, Copy, Debug, PartialEq, Eq, Structural)]
pub enum VersionOrder {
    Less,
    Equal,
    Greater,
}

/// The canonical text of the version that `text` spells in full, where it
/// spells one.
pub uninterp spec fn canonical_version(text: Seq<char>) -> Option<Seq<char>>;

/// The canonical text of the version that `text` begins with, where it
/// begins with one.
pub uninterp spec fn leading_version(text: Seq<char>) -> Option<Seq<char>>;

/// How the version spelled by `a` stands to the one spelled by `b`.
pub uninterp spec fn version_order(a: Seq<char>, b: Seq<char>) -> VersionOrder;

/// Whether the version spelled by `a` is the one spelled by `b`.
pub uninterp spec fn version_equal(a: Seq<char>, b: Seq<char>) -> bool;

/// How the version `a` stands to the version `b`: a version is equal to
/// itself, and two versions of different text stand as the crate orders
/// them.
pub open spec fn order_of(a: Seq<char>, b: Seq<char>) -> VersionOrder {
    if a == b {
        VersionOrder::Equal
    } else {
        version_order(a, b)
    }
}

/// The versions `a` and `b` are the same: their texts are, or the crate
/// holds them equal (as it does two semantic versions that differ in their
/// build metadata alone).
pub open spec fn same_version(a: Seq<char>, b: Seq<char>) -> bool {
    a == b || version_equal(a, b)
}

/// `versions::Versioning::new`, followed by the version's `Display` form:
/// the whole of `text` read as a version and written back.
#[verifier::external_body]
fn read_version(text: &str) -> (canonical: Option<String>)
    ensures
        canonical is Some <==> canonical_version(text@) is Some,
        canonical matches Some(c) ==> c@ == canonical_version(text@)->0,
{
    Versioning::new(text).map(|version| version.to_string())
}

/// `versions::Versioning::parse`, followed by the version's `Display` form:
/// the version that the crate's parser reads at the front of `text`,
/// whatever follows it.
#[verifier::external_body]
fn read_leading_version(text: &str) -> (canonical: Option<String>)
    ensures
        canonical is Some <==> leading_version(text@) is Some,
        canonical matches Some(c) ==> c@ == leading_version(text@)->0,
{
    Versioning::parse(text).ok().map(|(_, version)| version.to_string())
}

/// `Ord::cmp` of `versions::Versioning`, on the versions that the two texts
/// spell (a text that spells none comes before every version).
#[verifier::external_body]
fn compare_versions(a: &str, b: &str) -> (order: VersionOrder)
    ensures
        order == version_order(a@, b@),
{
    match Versioning::new(a).cmp(&Versioning::new(b)) {
        Ordering::Less => VersionOrder::Less,
        Ordering::Equal => VersionOrder::Equal,
        Ordering::Greater => VersionOrder::Greater,
    }
}

/// `PartialEq::eq` of `versions::Versioning`, on the versions that the two
/// texts spell (two texts that spell none are equal).
#[verifier::external_body]
fn equal_versions(a: &str, b: &str) -> (equal: bool)
    ensures
        equal == version_equal(a@, b@),
{
    Versioning::new(a) == Versioning::new(b)
}

/// Position of the first decimal digit of `s` at or after `from`; `s.len()`
/// when there is none.
pub open spec fn first_digit_from(s: Seq<char>, from: int) -> int
    decreases s.len() - from,
{
    if from < 0 || from >= s.len() {
        s.len() as int
    } else if is_digit(s[from]) {
        from
    } else {
        first_digit_from(s, from + 1)
    }
}

/// `s` without the characters that stand before its first decimal digit.
pub open spec fn from_first_digit(s: Seq<char>) -> Seq<char> {
    s.subrange(first_digit_from(s, 0), s.len() as int)
}

/// A version of a mod.
#[derive(Debug)]
pub struct Version {
    text: String,
}

impl View for Version {
    type V = Seq<char>;

    closed spec fn view(&self) -> Seq<char> {
        self.text@
    }
}

impl Clone for Version {
    fn clone(&self) -> (copy: Self)
        ensures
            copy@ == self@,
    {
        Version { text: self.text.clone() }
    }
}

impl Version {
    /// Reads `text` as a version; all of it must belong to the version.
    pub fn new(text: &str) -> (version: Option<Version>)
        ensures
            version is Some <==> canonical_version(text@) is Some,
            version matches Some(v) ==> v@ == canonical_version(text@)->0,
    {
        match read_version(text) {
            Some(canonical) => Some(Version { text: canonical }),
            None => None,
        }
    }

    /// Reads the version that `text` begins with.
    pub fn leading(text: &str) -> (version: Option<Version>)
        ensures
            version is Some <==> leading_version(text@) is Some,
            version matches Some(v) ==> v@ == leading_version(text@)->0,
    {
        match read_leading_version(text) {
            Some(canonical) => Some(Version { text: canonical }),
            None => None,
        }
    }

    /// The canonical text.
    pub fn as_str(&self) -> (text: &str)
        ensures
            text@ == self@,
    {
        self.text.as_str()
    }

    /// How this version stands to `other`.
    pub fn order(&self, other: &Version) -> (order: VersionOrder)
        ensures
            order == order_of(self@, other@),
    {
        if same_text(self.text.as_str(), other.text.as_str()) {
            VersionOrder::Equal
        } else {
            compare_versions(self.text.as_str(), other.text.as_str())
        }
    }

    /// Whether this version is `other`.
    pub fn same(&self, other: &Version) -> (same: bool)
        ensures
            same == same_version(self@, other@),
    {
        same_text(self.text.as_str(), other.text.as_str()) || equal_versions(
            self.text.as_str(),
            other.text.as_str(),
        )
    }
}

/// Reads the version out of a display name such as `Release v1.2.3`: what
/// stands before the first decimal digit is dropped, and the rest must begin
/// with a version.
pub fn parse_version(name: &str) -> (version: Option<Version>)
    ensures
        version is Some <==> leading_version(from_first_digit(name@)) is Some,
        version matches Some(v) ==> v@ == leading_version(from_first_digit(name@))->0,
{
    let chars = chars_of(name);
    let mut start: usize = 0;
    while start < chars.len() && !(chars[start] >= '0' && chars[start] <= '9')
        invariant
            start <= chars.len(),
            first_digit_from(chars@, 0) == first_digit_from(chars@, start as int),
        decreases chars.len() - start,
    {
        start += 1;
    }
    let rest = string_of_range(&chars, start, chars.len());
    Version::leading(rest.as_str())
}

/// The position of the newest of `versions`: of two versions the later one in
/// the list is taken unless the earlier one is greater. `0` for an empty list.
pub open spec fn newest_index(versions: Seq<Seq<char>>) -> int
    decreases versions.len(),
{
    if versions.len() <= 1 {
        0
    } else {
        let best = newest_index(versions.drop_last());
        if order_of(versions[best], versions.last()) == VersionOrder::Greater {
            best
        } else {
            versions.len() - 1
        }
    }
}

/// The newest of a list of versions is one of them.
pub proof fn lemma_newest_index(versions: Seq<Seq<char>>)
    requires
        versions.len() > 0,
    ensures
        0 <= newest_index(versions) < versions.len(),
    decreases versions.len(),
{
    if versions.len() > 1 {
        lemma_newest_index(versions.drop_last());
    }
}

/// The position of the first of `versions` that is `wanted`; the length of
/// the list when none is.
pub open spec fn position_of(versions: Seq<Seq<char>>, wanted: Seq<char>, from: int) -> int
    decreases versions.len() - from,
{
    if from < 0 || from >= versions.len() {
        versions.len() as int
    } else if same_version(versions[from], wanted) {
        from
    } else {
        position_of(versions, wanted, from + 1)
    }
}

/// What `position_of` finds: `wanted`, and no `wanted` before it.
pub proof fn lemma_position_of(versions: Seq<Seq<char>>, wanted: Seq<char>, from: int)
    requires
        0 <= from <= versions.len(),
    ensures
        from <= position_of(versions, wanted, from) <= versions.len(),
        position_of(versions, wanted, from) < versions.len() ==> same_version(
            versions[position_of(versions, wanted, from)],
            wanted,
        ),
        forall|k: int|
            from <= k < position_of(versions, wanted, from) ==> !same_version(
                #[trigger] versions[k],
                wanted,
            ),
    decreases versions.len() - from,
{
    if from < versions.len() && !same_version(versions[from], wanted) {
        lemma_position_of(versions, wanted, from + 1);
    }
}

} // verus!
