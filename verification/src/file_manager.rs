//! The names under which the files of a download lie in the cache.

use crate::cache_mod_access::{archive_name, to_file_name, CacheError};
use crate::remote_mod_access::ModDownloadVersion;
use crate::shared_traits::{normalize, normalized};
use vstd::prelude::*;

verus! {

/// The namer of the files of one cache folder.
#[derive(Clone, Debug)]
pub struct FileManager {
    cache_dir: String,
}

impl FileManager {
    /// The folder of the cache, as it was given.
    pub closed spec fn directory(&self) -> Seq<char> {
        self.cache_dir@
    }

    /// The namer for the cache at `cache_path`, which the caller found to be
    /// a folder or not.
    pub fn new(cache_path: &str, is_directory: bool) -> (manager: Result<Self, CacheError>)
        ensures
            manager is Ok <==> is_directory,
            manager matches Ok(m) ==> m.directory() == cache_path@,
            manager matches Err(e) ==> e == CacheError::NotADirectory,
    {
        if !is_directory {
            return Err(CacheError::NotADirectory);
        }
        Ok(Self { cache_dir: cache_path.to_owned() })
    }

    /// The folder of the cache.
    pub fn cache_dir(&self) -> (path: &str)
        ensures
            path@ == self.directory(),
    {
        self.cache_dir.as_str()
    }
}

/// The name of the folder of a mod: its title in file-system form.
pub fn create_folder_name(mod_version: &ModDownloadVersion) -> (name: String)
    ensures
        name@ == normalized(mod_version.title@),
{
    normalize(mod_version.title.as_str())
}

/// What the names of a version's files begin with: the version in
/// file-system form.
pub fn create_mod_file_prefix(mod_version: &ModDownloadVersion) -> (prefix: String)
    ensures
        prefix@ == normalized(mod_version.version@),
{
    normalize(mod_version.version.as_str())
}

/// The name of a version's archive in the folder of its mod.
pub fn create_file_name(mod_version: &ModDownloadVersion) -> (name: String)
    ensures
        name@ == archive_name(mod_version.version@, mod_version.file_name@),
{
    to_file_name(mod_version)
}

} // verus!
