//! Installing a cached archive into the game tree: which entries go where,
//! what is recorded of them, and when an installation need not be repeated.

use crate::install_record::InstallRecord;
use crate::shared_traits::{normalized, ModName, TimeProvider};
use crate::text::{
    chars_of, ends_with_char, find_from, find_last, first_index, last_index,
    same_text, string_of_range,
};
use crate::zip_data::{content_digest, ZipData};
use vstd::prelude::*;

verus! {

/// Where an archive entry belongs, judged by its top-level directory.
#[derive(Clone, Copy, Debug, PartialEq, Eq, Structural)]
pub enum FileType {
    Unknown,
    Client,
    Server,
}

/// The side of the game that an installation is made for.
#[derive(Clone, Copy, Debug, PartialEq, Eq, Structural)]
pub enum InstallTarget {
    Server,
    Client,
}

/// Why an installation could not be planned or begun.
#[derive(Clone, Copy, Debug, PartialEq, Eq, Structural)]
pub enum InstallError {
    /// Neither server executable stands in the game's root folder.
    ServerNotFound,
    /// No entry of the archive lies under a folder that the target installs.
    NoStructuredPath,
}

impl InstallError {
    /// The error in words, as characters.
    pub open spec fn text(&self) -> Seq<char> {
        match self {
            InstallError::ServerNotFound => "Could not find SPT.Server.exe or Aki.Server.exe in the current folder"@,
            InstallError::NoStructuredPath => "No files with a structured installation path was found"@,
        }
    }

    /// The error in words.
    pub fn message(&self) -> (text: &'static str)
        ensures
            text@ == self.text(),
    {
        match self {
            InstallError::ServerNotFound => "Could not find SPT.Server.exe or Aki.Server.exe in the current folder",
            InstallError::NoStructuredPath => "No files with a structured installation path was found",
        }
    }
}

/// One file of an archive: its path inside the archive and its bytes.
#[derive(Debug)]
pub struct ArchiveEntry {
    pub path: String,
    pub data: Vec<u8>,
}

/// What an installation has to do: the files to write, in archive order, the
/// record of them, and the name under which the record is kept.
pub struct InstallPlan<'a> {
    pub files: Vec<ZipData<'a>>,
    pub record: InstallRecord,
    pub record_name: String,
}

/// The part of `path` before its first `/`, where it has one.
pub open spec fn top_level_directory(path: Seq<char>) -> Option<Seq<char>> {
    if first_index(path, '/') < path.len() {
        Some(path.subrange(0, first_index(path, '/')))
    } else {
        None
    }
}

/// The kind of a path: `user` at the top is the server's, `BepInEx` the
/// client's, and everything else nobody's.
pub open spec fn classify(path: Seq<char>) -> FileType {
    match top_level_directory(path) {
        Some(directory) => if directory == "user"@ {
            FileType::Server
        } else if directory == "BepInEx"@ {
            FileType::Client
        } else {
            FileType::Unknown
        },
        None => FileType::Unknown,
    }
}

/// The part of `path` before its last `/`, where it has one.
pub open spec fn parent_directory(path: Seq<char>) -> Option<Seq<char>> {
    if last_index(path, '/') >= 0 {
        Some(path.subrange(0, last_index(path, '/')))
    } else {
        None
    }
}

/// The inclusion rule: the client target takes client and server files, the
/// server target takes server files only, and unknown files are never taken.
pub open spec fn installs(file_type: FileType, target: InstallTarget) -> bool {
    file_type == FileType::Server || (file_type == FileType::Client && target
        == InstallTarget::Client)
}

/// An entry that names a file (not a folder) which `target` installs.
pub open spec fn wanted(entry: ArchiveEntry, target: InstallTarget) -> bool {
    !ends_with_char(entry.path@, '/') && installs(classify(entry.path@), target)
}

/// The entries of an archive that `target` installs, in archive order.
pub open spec fn selected(entries: Seq<ArchiveEntry>, target: InstallTarget) -> Seq<
    ArchiveEntry,
>
    decreases entries.len(),
{
    if entries.len() == 0 {
        Seq::empty()
    } else if wanted(entries.last(), target) {
        selected(entries.drop_last(), target).push(entries.last())
    } else {
        selected(entries.drop_last(), target)
    }
}

/// The record of having written `files` one after the other.
pub open spec fn record_of(files: Seq<ArchiveEntry>) -> Map<Seq<char>, Seq<char>>
    decreases files.len(),
{
    if files.len() == 0 {
        Map::empty()
    } else {
        record_of(files.drop_last()).insert(files.last().path@, content_digest(files.last().data@))
    }
}

/// Every entry that `target` installs is recorded in `record` with the
/// digest of its bytes.
pub open spec fn matches_record(
    entries: Seq<ArchiveEntry>,
    record: Map<Seq<char>, Seq<char>>,
    target: InstallTarget,
) -> bool {
    forall|i: int|
        0 <= i < entries.len() && wanted(#[trigger] entries[i], target) ==> record.contains_key(
            entries[i].path@,
        ) && record[entries[i].path@] == content_digest(entries[i].data@)
}

/// An installation of `entries` for `target` is on record: there is a
/// record, it is not empty, and it matches.
pub open spec fn is_installed(
    entries: Seq<ArchiveEntry>,
    record: Option<InstallRecord>,
    target: InstallTarget,
) -> bool {
    match record {
        Some(r) => r@ != Map::<Seq<char>, Seq<char>>::empty() && matches_record(
            entries,
            r@,
            target,
        ),
        None => false,
    }
}

/// Files of one path have one digest: no path stands for two contents.
pub open spec fn paths_agree(files: Seq<ArchiveEntry>) -> bool {
    forall|a: int, b: int|
        #![trigger files[a], files[b]]
        0 <= a < b < files.len() && files[a].path@ == files[b].path@ ==> content_digest(
            files[a].data@,
        ) == content_digest(files[b].data@)
}

/// The record of files whose paths agree holds each file's own digest.
pub proof fn lemma_record_holds_each(files: Seq<ArchiveEntry>, k: int)
    requires
        paths_agree(files),
        0 <= k < files.len(),
    ensures
        record_of(files).contains_key(files[k].path@),
        record_of(files)[files[k].path@] == content_digest(files[k].data@),
    decreases files.len(),
{
    let rest = files.drop_last();
    if k < files.len() - 1 {
        assert(paths_agree(rest)) by {
            assert forall|a: int, b: int|
                0 <= a < b < rest.len() && rest[a].path@ == rest[b].path@ implies content_digest(
                rest[a].data@,
            ) == content_digest(rest[b].data@) by {
                assert(rest[a] == files[a] && rest[b] == files[b]);
            }
        }
        lemma_record_holds_each(rest, k);
        assert(rest[k] == files[k]);
        let last = files[files.len() - 1];
        if files[k].path@ == last.path@ {
            assert(content_digest(files[k].data@) == content_digest(last.data@));
        }
    }
}

/// Every entry that the target installs is among the selected ones.
pub proof fn lemma_selected_covers(entries: Seq<ArchiveEntry>, target: InstallTarget, i: int)
    requires
        0 <= i < entries.len(),
        wanted(entries[i], target),
    ensures
        exists|k: int|
            0 <= k < selected(entries, target).len() && #[trigger] selected(entries, target)[k]
                == entries[i],
    decreases entries.len(),
{
    let rest = entries.drop_last();
    if i == entries.len() - 1 {
        let k = selected(rest, target).len() as int;
        assert(selected(entries, target)[k] == entries[i]);
    } else {
        lemma_selected_covers(rest, target, i);
        let k = choose|k: int|
            0 <= k < selected(rest, target).len() && #[trigger] selected(rest, target)[k]
                == rest[i];
        assert(rest[i] == entries[i]);
        assert(selected(entries, target)[k] == entries[i]);
    }
}

/// The asymmetry of the two targets: of a server file and a client file, an
/// installation for the client writes both, in archive order, and one for
/// the server writes the server file only.
pub proof fn law_install_target_asymmetry(server_file: ArchiveEntry, client_file: ArchiveEntry)
    requires
        classify(server_file.path@) == FileType::Server,
        classify(client_file.path@) == FileType::Client,
        !ends_with_char(server_file.path@, '/'),
        !ends_with_char(client_file.path@, '/'),
    ensures
        selected(seq![server_file, client_file], InstallTarget::Client) == seq![
            server_file,
            client_file,
        ],
        selected(seq![server_file, client_file], InstallTarget::Server) == seq![server_file],
{
    let both = seq![server_file, client_file];
    let first = seq![server_file];
    assert(both.drop_last() == first);
    assert(first.drop_last() == Seq::<ArchiveEntry>::empty());
    assert(both.last() == client_file);
    assert(first.last() == server_file);
    reveal_with_fuel(selected, 3);
    assert(selected(first, InstallTarget::Client) == first);
    assert(selected(first, InstallTarget::Server) == first);
    assert(selected(both, InstallTarget::Client) == first.push(client_file));
    assert(first.push(client_file) == both);
}

/// Whatever the server target installs, the client target installs too, and
/// an unknown file is installed for neither.
pub proof fn law_targets_are_nested(entry: ArchiveEntry)
    ensures
        wanted(entry, InstallTarget::Server) ==> wanted(entry, InstallTarget::Client),
        classify(entry.path@) == FileType::Unknown ==> !wanted(entry, InstallTarget::Server)
            && !wanted(entry, InstallTarget::Client),
        classify(entry.path@) == FileType::Client ==> !wanted(entry, InstallTarget::Server),
{
}

/// Installing is idempotent: the record that an installation of `entries`
/// leaves shows the same archive, for the same target, as installed. The
/// installed entries of one path must have one digest: of two entries with
/// one path the record keeps the later digest only.
pub proof fn law_reinstall_is_idempotent(entries: Seq<ArchiveEntry>, target: InstallTarget)
    requires
        selected(entries, target).len() > 0,
        paths_agree(selected(entries, target)),
    ensures
        record_of(selected(entries, target)) != Map::<Seq<char>, Seq<char>>::empty(),
        matches_record(entries, record_of(selected(entries, target)), target),
{
    let files = selected(entries, target);
    let record = record_of(files);
    lemma_record_holds_each(files, 0);
    assert(record.contains_key(files[0].path@));
    assert forall|i: int| 0 <= i < entries.len() && wanted(#[trigger] entries[i], target) implies {
        record.contains_key(entries[i].path@) && record[entries[i].path@] == content_digest(
            entries[i].data@,
        )
    } by {
        lemma_selected_covers(entries, target, i);
        let k = choose|k: int| 0 <= k < files.len() && #[trigger] files[k] == entries[i];
        lemma_record_holds_each(files, k);
    }
}

/// A change is noticed: once the bytes of an installed entry have another
/// digest than the one on record, the archive no longer counts as installed.
pub proof fn law_changed_entry_is_noticed(
    entries: Seq<ArchiveEntry>,
    target: InstallTarget,
    i: int,
    changed: ArchiveEntry,
)
    requires
        paths_agree(selected(entries, target)),
        0 <= i < entries.len(),
        wanted(entries[i], target),
        changed.path@ == entries[i].path@,
        content_digest(changed.data@) != content_digest(entries[i].data@),
    ensures
        !matches_record(entries.update(i, changed), record_of(selected(entries, target)), target),
{
    let files = selected(entries, target);
    lemma_selected_covers(entries, target, i);
    let k = choose|k: int| 0 <= k < files.len() && #[trigger] files[k] == entries[i];
    lemma_record_holds_each(files, k);
    let after = entries.update(i, changed);
    assert(after[i] == changed);
    assert(wanted(after[i], target));
}


/// Classifies an archive entry's path by its top-level directory.
pub fn file_parser(path: &str) -> (file_type: FileType)
    ensures
        file_type == classify(path@),
{
    let chars = chars_of(path);
    let slash = find_from(&chars, '/', 0);
    if slash == chars.len() {
        return FileType::Unknown;
    }
    let directory = string_of_range(&chars, 0, slash);
    if same_text(directory.as_str(), "user") {
        FileType::Server
    } else if same_text(directory.as_str(), "BepInEx") {
        FileType::Client
    } else {
        FileType::Unknown
    }
}

/// The folder that holds the file at `path`: what stands before the last
/// `/`, and nothing where the path has none.
pub fn dir_parser(path: &str) -> (directory: Option<String>)
    ensures
        directory is Some <==> parent_directory(path@) is Some,
        directory matches Some(d) ==> d@ == parent_directory(path@)->0,
{
    let chars = chars_of(path);
    match find_last(&chars, '/') {
        Some(slash) => Some(string_of_range(&chars, 0, slash)),
        None => None,
    }
}

/// Whether an archive entry's name is that of a folder.
pub fn is_directory_entry(path: &str) -> (folder: bool)
    ensures
        folder == ends_with_char(path@, '/'),
{
    let chars = chars_of(path);
    chars.len() > 0 && chars[chars.len() - 1] == '/'
}

/// Plans the installation of an archive for `target`: every file entry that
/// the target installs is to be written at its own path, and recorded with
/// the digest of its bytes. An archive without such an entry is refused.
pub fn plan_install<'a>(
    entries: &'a Vec<ArchiveEntry>,
    target: InstallTarget,
    record_name: String,
) -> (plan: Result<InstallPlan<'a>, InstallError>)
    ensures
        plan is Err <==> selected(entries@, target).len() == 0,
        plan matches Err(e) ==> e == InstallError::NoStructuredPath,
        plan matches Ok(p) ==> {
            &&& p.record_name == record_name
            &&& p.record.well_formed()
            &&& p.record@ == record_of(selected(entries@, target))
            &&& p.files@.len() == selected(entries@, target).len()
            &&& forall|i: int|
                0 <= i < p.files@.len() ==> {
                    &&& (#[trigger] p.files@[i]).path() == selected(entries@, target)[i].path@
                    &&& p.files@[i].data() == selected(entries@, target)[i].data@
                    &&& p.files@[i].hash() == content_digest(p.files@[i].data())
                    &&& p.files@[i].file_type() == classify(p.files@[i].path())
                }
        },
{
    let mut files: Vec<ZipData<'a>> = Vec::new();
    let mut record = InstallRecord::new();
    let mut i: usize = 0;
    while i < entries.len()
        invariant
            i <= entries.len(),
            record.well_formed(),
            record@ == record_of(selected(entries@.take(i as int), target)),
            files@.len() == selected(entries@.take(i as int), target).len(),
            forall|k: int|
                0 <= k < files@.len() ==> {
                    &&& (#[trigger] files@[k]).path() == selected(
                        entries@.take(i as int),
                        target,
                    )[k].path@
                    &&& files@[k].data() == selected(entries@.take(i as int), target)[k].data@
                    &&& files@[k].hash() == content_digest(files@[k].data())
                    &&& files@[k].file_type() == classify(files@[k].path())
                },
        decreases entries.len() - i,
    {
        let entry = &entries[i];
        proof {
            assert(entries@.take(i + 1).drop_last() == entries@.take(i as int));
            assert(entries@.take(i + 1).last() == entries@[i as int]);
        }
        if !is_directory_entry(entry.path.as_str()) {
            let zip_data = ZipData::new(entry.data.as_slice(), entry.path.as_str());
            if zip_data.should_install(&target) {
                proof {
                    let before = selected(entries@.take(i as int), target);
                    assert(before.push(entries@[i as int]).drop_last() == before);
                }
                record.insert(entry.path.clone(), zip_data.get_hash().to_owned());
                files.push(zip_data);
            }
        }
        i += 1;
    }
    assert(entries@.take(entries.len() as int) == entries@);
    if files.len() == 0 {
        return Err(InstallError::NoStructuredPath);
    }
    Ok(InstallPlan { files, record, record_name })
}

/// Whether the installation of an archive for `target` is on record, so that
/// it need not be made again. Nothing is written.
pub fn matches_install_record(
    entries: &Vec<ArchiveEntry>,
    record: Option<&InstallRecord>,
    target: InstallTarget,
) -> (same: bool)
    requires
        record matches Some(r) ==> r.well_formed(),
    ensures
        same == match record {
            Some(r) => r@ != Map::<Seq<char>, Seq<char>>::empty() && matches_record(
                entries@,
                r@,
                target,
            ),
            None => false,
        },
{
    let Some(kept) = record else {
        return false;
    };
    if kept.is_empty() {
        return false;
    }
    let mut i: usize = 0;
    while i < entries.len()
        invariant
            i <= entries.len(),
            record == Some(kept),
            kept.well_formed(),
            matches_record(entries@.take(i as int), kept@, target),
        decreases entries.len() - i,
    {
        let entry = &entries[i];
        if !is_directory_entry(entry.path.as_str()) {
            let zip_data = ZipData::new(entry.data.as_slice(), entry.path.as_str());
            if zip_data.should_install(&target) {
                let on_record = match kept.get(zip_data.get_path()) {
                    Some(hash) => same_text(hash, zip_data.get_hash()),
                    None => false,
                };
                if !on_record {
                    proof {
                        let e = entries@[i as int];
                        assert(wanted(e, target));
                        assert(!(kept@.contains_key(e.path@) && kept@[e.path@]
                            == content_digest(e.data@)));
                    }
                    return false;
                }
            }
        }
        assert forall|k: int|
            0 <= k < i + 1 && wanted(
                #[trigger] entries@.take(i + 1)[k],
                target,
            ) implies kept@.contains_key(entries@.take(i + 1)[k].path@) && kept@[entries@.take(
            i + 1,
        )[k].path@] == content_digest(entries@.take(i + 1)[k].data@) by {
            if k < i {
                assert(entries@.take(i as int)[k] == entries@.take(i + 1)[k]);
            }
        }
        i += 1;
    }
    assert(entries@.take(entries.len() as int) == entries@);
    true
}

/// What removing all mods does with one entry of a mods folder.
#[derive(Clone, Copy, Debug, PartialEq, Eq, Structural)]
pub enum Removal {
    Keep,
    RemoveFile,
    RemoveFolder,
}

/// What removing all mods does with an entry of the folder of server mods:
/// every mod is a folder there, and files are left alone.
pub fn server_mod_removal(is_file: bool) -> (removal: Removal)
    ensures
        removal == if is_file {
            Removal::Keep
        } else {
            Removal::RemoveFolder
        },
{
    if is_file {
        Removal::Keep
    } else {
        Removal::RemoveFolder
    }
}

/// What removing all mods does with an entry of the folder of client
/// plugins: the game's own entry `spt` stays, and everything else goes.
pub fn client_mod_removal(name: &str, is_file: bool) -> (removal: Removal)
    ensures
        removal == if name@ == "spt"@ {
            Removal::Keep
        } else if is_file {
            Removal::RemoveFile
        } else {
            Removal::RemoveFolder
        },
{
    if same_text(name, "spt") {
        Removal::Keep
    } else if is_file {
        Removal::RemoveFile
    } else {
        Removal::RemoveFolder
    }
}

/// The file name of the server executable.
pub fn server_file_name() -> (name: &'static str)
    ensures
        name@ == "SPT.Server.exe"@,
{
    "SPT.Server.exe"
}

/// The file name that the server executable had in earlier releases.
pub fn old_server_file_name() -> (name: &'static str)
    ensures
        name@ == "Aki.Server.exe"@,
{
    "Aki.Server.exe"
}

/// The installer of one game folder.
#[derive(Debug)]
pub struct SptAccess<Time: TimeProvider> {
    root_path: String,
    time: Time,
}

impl<Time: TimeProvider> SptAccess<Time> {
    /// The game's root folder, as it was given.
    pub closed spec fn root(&self) -> Seq<char> {
        self.root_path@
    }

    /// The clock that the installer was given.
    pub closed spec fn clock(&self) -> Time {
        self.time
    }

    /// Opens the game folder at `root_path`. One of the two server
    /// executables has to stand in it: the caller says which it found.
    pub fn init(root_path: &str, server_found: bool, old_server_found: bool, time: Time) -> (access:
        Result<Self, InstallError>)
        ensures
            access is Ok <==> server_found || old_server_found,
            access matches Ok(a) ==> a.root() == root_path@ && a.clock() == time,
            access matches Err(e) ==> e == InstallError::ServerNotFound,
    {
        if !server_found && !old_server_found {
            return Err(InstallError::ServerNotFound);
        }
        Ok(SptAccess { root_path: root_path.to_owned(), time })
    }

    /// The game's root folder.
    pub fn root_path(&self) -> (root: &str)
        ensures
            root@ == self.root(),
    {
        self.root_path.as_str()
    }

    /// The clock that this installer was given.
    pub fn time(&self) -> (time: &Time)
        ensures
            *time == self.clock(),
    {
        &self.time
    }

    /// The folder of server mods, relative to the root.
    pub fn server_mods_path(&self) -> (path: &'static str)
        ensures
            path@ == "user/mods/"@,
    {
        "user/mods/"
    }

    /// The folder of client plugins, relative to the root.
    pub fn client_mods_path(&self) -> (path: &'static str)
        ensures
            path@ == "BepInEx/plugins/"@,
    {
        "BepInEx/plugins/"
    }

    /// The folder of install records, relative to the root.
    pub fn install_index(&self) -> (path: &'static str)
        ensures
            path@ == "install_hash"@,
    {
        "install_hash"
    }

    /// Plans the installation of `entries` for `install_target`; the record
    /// is kept under the file-system form of the mod's name.
    pub fn install_mod<'a, Mod: ModName>(
        &self,
        entries: &'a Vec<ArchiveEntry>,
        spt_mod: &Mod,
        install_target: InstallTarget,
    ) -> (plan: Result<InstallPlan<'a>, InstallError>)
        ensures
            plan is Err <==> selected(entries@, install_target).len() == 0,
            plan matches Err(e) ==> e == InstallError::NoStructuredPath,
            plan matches Ok(p) ==> {
                &&& p.record_name@ == normalized(spt_mod.name())
                &&& p.record.well_formed()
                &&& p.record@ == record_of(selected(entries@, install_target))
                &&& p.files@.len() == selected(entries@, install_target).len()
                &&& forall|i: int|
                    0 <= i < p.files@.len() ==> {
                        &&& (#[trigger] p.files@[i]).path() == selected(
                            entries@,
                            install_target,
                        )[i].path@
                        &&& p.files@[i].data() == selected(entries@, install_target)[i].data@
                        &&& p.files@[i].hash() == content_digest(p.files@[i].data())
                        &&& p.files@[i].file_type() == classify(p.files@[i].path())
                    }
            },
    {
        plan_install(entries, install_target, spt_mod.to_file_name())
    }

    /// Whether `record`, the record kept for the mod, shows that `entries`
    /// are installed for `install_target` as they stand.
    pub fn is_same_installed_version(
        &self,
        entries: &Vec<ArchiveEntry>,
        record: Option<&InstallRecord>,
        install_target: InstallTarget,
    ) -> (same: bool)
        requires
            record matches Some(r) ==> r.well_formed(),
        ensures
            same == match record {
                Some(r) => r@ != Map::<Seq<char>, Seq<char>>::empty() && matches_record(
                    entries@,
                    r@,
                    install_target,
                ),
                None => false,
            },
    {
        matches_install_record(entries, record, install_target)
    }
}

} // verus!
