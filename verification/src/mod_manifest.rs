//! The manifest that is kept beside every cached archive: which mod the
//! archive is, in which version, from when and from where.

use crate::remote_mod_access::{ModKind, ModKindView};
use crate::shared_traits::{ModName, ModVersion};
use crate::text::{chars_of, find_last, join_text, last_index, same_text, string_of};
use crate::version::{same_version, Version, VersionOrder};
use vstd::prelude::*;

verus! {

/// The name of a file without its last extension: what stands before the
/// last `.`, or all of it where there is none.
pub open spec fn base_name(file_name: Seq<char>) -> Seq<char> {
    if last_index(file_name, '.') >= 0 {
        file_name.subrange(0, last_index(file_name, '.'))
    } else {
        file_name
    }
}

/// The last extension of a file's name: the last `.` and what follows it,
/// where there is a `.`.
pub open spec fn extension(file_name: Seq<char>) -> Option<Seq<char>> {
    if last_index(file_name, '.') >= 0 {
        Some(file_name.subrange(last_index(file_name, '.'), file_name.len() as int))
    } else {
        None
    }
}

/// The name of the manifest that belongs to the archive `mod_file_name`.
pub open spec fn manifest_name(mod_file_name: Seq<char>) -> Seq<char> {
    base_name(mod_file_name) + ".manifest"@
}

/// Splits a file's name into its base and its last extension.
pub fn separate_file_and_ext(file_name: &str) -> (parts: (String, Option<String>))
    ensures
        parts.0@ == base_name(file_name@),
        parts.1 is Some <==> extension(file_name@) is Some,
        parts.1 matches Some(e) ==> e@ == extension(file_name@)->0,
{
    let chars = chars_of(file_name);
    match find_last(&chars, '.') {
        Some(dot) => {
            let base = crate::text::string_of_range(&chars, 0, dot);
            let ext = crate::text::string_of_range(&chars, dot, chars.len());
            (base, Some(ext))
        },
        None => (string_of(&chars), None),
    }
}

/// What is written down of a cached archive.
#[derive(Clone, Debug)]
pub struct ModManifest {
    name: String,
    version: Version,
    uploaded_at: i64,
    mod_kind: ModKind,
}

/// What a `ModManifest` holds, as characters.
pub struct ModManifestView {
    pub name: Seq<char>,
    pub version: Seq<char>,
    pub uploaded_at: i64,
    pub mod_kind: ModKindView,
}

impl View for ModManifest {
    type V = ModManifestView;

    closed spec fn view(&self) -> ModManifestView {
        ModManifestView {
            name: self.name@,
            version: self.version@,
            uploaded_at: self.uploaded_at,
            mod_kind: self.mod_kind@,
        }
    }
}

impl ModManifest {
    /// Writes a manifest down.
    pub fn new(uploaded_at: i64, name: String, version: Version, mod_kind: ModKind) -> (manifest:
        Self)
        ensures
            manifest@ == (ModManifestView {
                name: name@,
                version: version@,
                uploaded_at,
                mod_kind: mod_kind@,
            }),
    {
        Self { uploaded_at, name, version, mod_kind }
    }

    /// The name of the manifest that belongs to the archive `mod_file_name`:
    /// the archive's name with `.manifest` in place of its last extension.
    pub fn create_manifest_name(mod_file_name: &str) -> (name: String)
        ensures
            name@ == manifest_name(mod_file_name@),
    {
        let (base, _) = separate_file_and_ext(mod_file_name);
        join_text(base.as_str(), ".manifest")
    }

    /// The path of the manifest that belongs to the archive `mod_file_name`
    /// in the folder `mod_path`.
    pub fn create_manifest_path(mod_path: &str, mod_file_name: &str) -> (path: String)
        ensures
            path@ == mod_path@ + "/"@ + manifest_name(mod_file_name@),
    {
        let folder = join_text(mod_path, "/");
        let name = Self::create_manifest_name(mod_file_name);
        join_text(folder.as_str(), name.as_str())
    }

    /// A copy of this manifest.
    pub fn duplicate(&self) -> (copy: Self)
        ensures
            copy@ == self@,
    {
        Self {
            name: self.name.clone(),
            version: self.version.clone(),
            uploaded_at: self.uploaded_at,
            mod_kind: self.mod_kind.duplicate(),
        }
    }

    /// Where the mod comes from.
    pub fn get_mod_kind(&self) -> (mod_kind: &ModKind)
        ensures
            mod_kind@ == self@.mod_kind,
    {
        &self.mod_kind
    }

    /// The moment of upload, in seconds since the Unix epoch.
    pub fn get_upload_date(&self) -> (uploaded_at: i64)
        ensures
            uploaded_at == self@.uploaded_at,
    {
        self.uploaded_at
    }

    /// Whether the manifest is of the given version.
    pub fn is_mod_version(&self, version: &Version) -> (same: bool)
        ensures
            same == same_version(self@.version, version@),
    {
        self.version.same(version)
    }
}

impl ModName for ModManifest {
    closed spec fn name(&self) -> Seq<char> {
        self.name@
    }

    fn get_name(&self) -> (name: &str) {
        self.name.as_str()
    }

    fn is_same_name(&self, mod_name: &str) -> (same: bool) {
        same_text(self.name.as_str(), mod_name)
    }
}

impl ModVersion for ModManifest {
    closed spec fn version(&self) -> Seq<char> {
        self.version@
    }

    fn get_version(&self) -> (version: &Version) {
        &self.version
    }

    fn get_order(&self, mod_version: &Version) -> (order: VersionOrder) {
        self.version.order(mod_version)
    }
}

/// The name and version of a manifest are those of its view.
pub proof fn lemma_manifest_names(manifest: ModManifest)
    ensures
        manifest.name() == manifest@.name,
        manifest.version() == manifest@.version,
{
}

} // verus!
