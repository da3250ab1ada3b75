//! One archive entry as the installer sees it: its bytes, their digest, its
//! path, and where the path says it belongs.

use crate::spt_access::{classify, file_parser, installs, FileType, InstallTarget};
use vstd::prelude::*;

verus! {

/// The SHA-256 digest of `data`, written as hexadecimal digits.
pub uninterp spec fn content_digest(data: Seq<u8>) -> Seq<char>;

/// `sha256::digest` on a byte slice: the hexadecimal SHA-256 digest of the
/// bytes, which depends on nothing but the bytes.
#[verifier::external_body]
fn digest(data: &[u8]) -> (hash: String)
    ensures
        hash@ == content_digest(data@),
{
    sha256::digest(data)
}

/// An archive entry, read and judged.
#[derive(Debug)]
pub struct ZipData<'a> {
    data: &'a [u8],
    hash: String,
    zip_path: &'a str,
    file_type: FileType,
}

impl<'a> ZipData<'a> {
    /// The entry's bytes.
    pub closed spec fn data(&self) -> Seq<u8> {
        self.data@
    }

    /// The digest of the entry's bytes.
    pub closed spec fn hash(&self) -> Seq<char> {
        self.hash@
    }

    /// The entry's path inside the archive.
    pub closed spec fn path(&self) -> Seq<char> {
        self.zip_path@
    }

    /// Where the entry belongs.
    pub closed spec fn file_type(&self) -> FileType {
        self.file_type
    }

    /// Reads an entry: digests its bytes and classifies its path.
    pub fn new(data: &'a [u8], zip_path: &'a str) -> (zip_data: Self)
        ensures
            zip_data.data() == data@,
            zip_data.path() == zip_path@,
            zip_data.hash() == content_digest(data@),
            zip_data.file_type() == classify(zip_path@),
    {
        let hash = digest(data);
        let file_type = file_parser(zip_path);
        Self { hash, data, zip_path, file_type }
    }

    /// The digest of the entry's bytes.
    pub fn get_hash(&self) -> (hash: &str)
        ensures
            hash@ == self.hash(),
    {
        self.hash.as_str()
    }

    /// The entry's bytes.
    pub fn get_data(&self) -> (data: &[u8])
        ensures
            data@ == self.data(),
    {
        self.data
    }

    /// The entry's path inside the archive.
    pub fn get_path(&self) -> (path: &str)
        ensures
            path@ == self.path(),
    {
        self.zip_path
    }

    /// Whether an installation for `target` writes this entry.
    pub fn should_install(&self, target: &InstallTarget) -> (install: bool)
        ensures
            install == installs(self.file_type(), *target),
    {
        match (self.file_type, *target) {
            (FileType::Client, InstallTarget::Client) => true,
            (FileType::Server, _) => true,
            _ => false,
        }
    }
}

} // verus!
