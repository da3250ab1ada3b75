//! What every mod-like value offers: a display name, a version, and the file
//! names derived from them.

use crate::text::{chars_of, string_of};
use crate::version::{order_of, Version, VersionOrder};
use vstd::prelude::*;

verus! {

/// A space or a hyphen becomes an underscore; every other character stays.
pub open spec fn space_mapped(c: char) -> char {
    if c == ' ' || c == '-' {
        '_'
    } else {
        c
    }
}

/// `s` with every space and hyphen replaced by an underscore.
pub open spec fn normalized(s: Seq<char>) -> Seq<char> {
    Seq::new(s.len(), |i: int| space_mapped(s[i]))
}

/// Replaces a character that is unsafe in a file name.
pub fn space_mapper(c: char) -> (mapped: char)
    ensures
        mapped == space_mapped(c),
{
    match c {
        ' ' => '_',
        '-' => '_',
        _ => c,
    }
}

/// The file-system form of a name: `normalized` of its characters.
pub fn normalize(name: &str) -> (file_name: String)
    ensures
        file_name@ == normalized(name@),
{
    let chars = chars_of(name);
    let mut mapped: Vec<char> = Vec::new();
    let mut i: usize = 0;
    while i < chars.len()
        invariant
            i <= chars.len(),
            mapped@ == normalized(chars@.take(i as int)),
        decreases chars.len() - i,
    {
        mapped.push(space_mapper(chars[i]));
        assert(mapped@ =~= normalized(chars@.take(i + 1)));
        i += 1;
    }
    assert(chars@.take(chars.len() as int) == chars@);
    string_of(&mapped)
}

/// A value with a display name.
pub trait ModName {
    /// The display name, as characters.
    spec fn name(&self) -> Seq<char>;

    /// The display name.
    fn get_name(&self) -> (name: &str)
        ensures
            name@ == self.name(),
    ;

    /// Whether `mod_name` is this value's display name.
    fn is_same_name(&self, mod_name: &str) -> (same: bool)
        ensures
            same == (self.name() == mod_name@),
    ;

    /// The folder or file name that stands for this name on disk.
    fn to_file_name(&self) -> (file_name: String)
        ensures
            file_name@ == normalized(self.name()),
    {
        normalize(self.get_name())
    }
}

/// A named value with a version.
pub trait ModVersion: ModName {
    /// The version, as its canonical text.
    spec fn version(&self) -> Seq<char>;

    /// The version.
    fn get_version(&self) -> (version: &Version)
        ensures
            version@ == self.version(),
    ;

    /// How this value's version stands to `mod_version`.
    fn get_order(&self, mod_version: &Version) -> (order: VersionOrder)
        ensures
            order == order_of(self.version(), mod_version@),
    ;

    /// The version as it is written at the front of a cached file's name.
    fn to_file_version(&self) -> (prefix: String)
        ensures
            prefix@ == normalized(self.version()),
    {
        normalize(self.get_version().as_str())
    }
}

/// A versioned value whose archive can be fetched: what the cache needs to
/// know of it besides the bytes.
pub trait ModVersionDownload: ModVersion {
    /// The archive's own file name, as characters.
    spec fn file_name(&self) -> Seq<char>;

    /// The moment of upload, in seconds since the Unix epoch.
    spec fn upload_date(&self) -> i64;

    /// The archive's own file name.
    fn get_file_name(&self) -> (file_name: &str)
        ensures
            file_name@ == self.file_name(),
    ;

    /// The moment of upload, in seconds since the Unix epoch.
    fn get_upload_date(&self) -> (uploaded_at: i64)
        ensures
            uploaded_at == self.upload_date(),
    ;
}

/// A clock.
pub trait TimeProvider {
    /// The current time, in seconds since the Unix epoch.
    fn get_current_time(&self) -> i64;
}

} // verus!
