//! The course of one update: what is done for a wanted mod, step by step,
//! and what it ends in. The library decides; the caller fetches, writes and
//! reports, and tells the library how it went.

use crate::cache_mod_access::{
    archive_name, cache_index, lookup, lookup_kind, marks_litter, status_of, CacheError,
    CacheFile, CacheModAccess, CachePlan, ModCacheStatus,
};
use crate::mod_manifest::{manifest_name, ModManifestView};
use crate::cached_mod_version::{CachedModVersion, CachedModVersionView};
use crate::remote_mod_access::{LinkError, ModDownloadVersion, ModKind};
use crate::shared_traits::{normalized, ModName, ModVersion};
use crate::version::Version;
use vstd::prelude::*;

verus! {

/// What is to be done with a version that a host offers: the cache has it,
/// or it has to be downloaded and stored.
#[derive(Debug)]
pub enum CacheDecision {
    UseCached(CachedModVersion),
    Download,
}

/// What a `CacheDecision` holds, as characters.
pub enum CacheDecisionView {
    UseCached(CachedModVersionView),
    Download,
}

impl View for CacheDecision {
    type V = CacheDecisionView;

    open spec fn view(&self) -> CacheDecisionView {
        match self {
            CacheDecision::UseCached(version) => CacheDecisionView::UseCached(version@),
            CacheDecision::Download => CacheDecisionView::Download,
        }
    }
}

/// What is done with the newest version that a host offers. A cache that
/// holds the same or a newer version is asked for the offered one, and must
/// have it; otherwise the offered version is downloaded.
pub open spec fn newest_release_decision(
    index: Seq<crate::cached_mod::CachedModView>,
    name: Seq<char>,
    version: Seq<char>,
) -> Result<CacheDecisionView, CacheError> {
    match status_of(index, name, version) {
        ModCacheStatus::SameVersion | ModCacheStatus::NewerVersion => match lookup(
            index,
            name,
            version,
        ) {
            Some(found) => Ok(CacheDecisionView::UseCached(found)),
            None => Err(CacheError::NotFound),
        },
        ModCacheStatus::NotCached | ModCacheStatus::OlderVersion => Ok(
            CacheDecisionView::Download,
        ),
    }
}

/// What is done with a pinned version that a host offers. Only a cache whose
/// newest version is the offered one is asked for it; otherwise the offered
/// version is downloaded.
pub open spec fn specific_version_decision(
    index: Seq<crate::cached_mod::CachedModView>,
    name: Seq<char>,
    version: Seq<char>,
) -> Result<CacheDecisionView, CacheError> {
    match status_of(index, name, version) {
        ModCacheStatus::SameVersion => match lookup(index, name, version) {
            Some(found) => Ok(CacheDecisionView::UseCached(found)),
            None => Err(CacheError::NotFound),
        },
        _ => Ok(CacheDecisionView::Download),
    }
}

/// The way from a reference to a cached archive: the cache, and the
/// decisions between it and the hosts.
#[derive(Debug)]
pub struct RemoteModAccess {
    cache_mod_access: CacheModAccess,
}

impl RemoteModAccess {
    /// The index of the cache.
    pub closed spec fn index(&self) -> Seq<crate::cached_mod::CachedModView> {
        self.cache_mod_access@
    }

    /// The way over the given cache.
    pub fn init(cache_mod_access: CacheModAccess) -> (access: Self)
        ensures
            access.index() == cache_mod_access@,
    {
        Self { cache_mod_access }
    }

    /// The cache.
    pub fn cache(&self) -> (cache: &CacheModAccess)
        ensures
            cache@ == self.index(),
    {
        &self.cache_mod_access
    }

    /// The cache, to store a download in it.
    pub fn into_cache(self) -> (cache: CacheModAccess)
        ensures
            cache@ == self.index(),
    {
        self.cache_mod_access
    }

    /// Reads the index anew from what the folders of the cache hold now, and
    /// says for every file whether it stays.
    pub fn rebuild(&mut self, folders: &Vec<Vec<CacheFile>>) -> (keep: Vec<Vec<bool>>)
        ensures
            final(self).index() == cache_index(folders@, folders@.len() as int),
            keep@.len() == folders@.len(),
            forall|f: int|
                0 <= f < folders@.len() ==> marks_litter(#[trigger] keep@[f]@, folders@[f]@),
    {
        self.cache_mod_access.rebuild(folders)
    }

    /// What has to be written to store a download.
    pub fn cache_mod(&self, downloader: &ModDownloadVersion, mod_kind: ModKind) -> (plan: CachePlan)
        ensures
            plan.folder_name@ == normalized(downloader.title@),
            plan.archive_name@ == archive_name(downloader.version@, downloader.file_name@),
            plan.manifest_name@ == manifest_name(plan.archive_name@),
            plan.manifest@ == (ModManifestView {
                name: downloader.title@,
                version: downloader.version@,
                uploaded_at: downloader.uploaded_at,
                mod_kind: mod_kind@,
            }),
    {
        self.cache_mod_access.cache_mod(downloader, mod_kind)
    }

    /// Takes a stored download into the index: the index is read anew from
    /// the folders, every file is marked as staying or as litter, and the
    /// version is looked up under the mod's name.
    pub fn finish_cache_mod(
        &mut self,
        downloader: &ModDownloadVersion,
        folders: &Vec<Vec<CacheFile>>,
    ) -> (stored: (Vec<Vec<bool>>, Result<CachedModVersion, CacheError>))
        ensures
            final(self).index() == cache_index(folders@, folders@.len() as int),
            stored.0@.len() == folders@.len(),
            forall|f: int|
                0 <= f < folders@.len() ==> marks_litter(#[trigger] stored.0@[f]@, folders@[f]@),
            stored.1 is Ok <==> lookup(final(self).index(), downloader.title@, downloader.version@)
                is Some,
            stored.1 matches Ok(v) ==> v@ == lookup(
                final(self).index(),
                downloader.title@,
                downloader.version@,
            )->0,
            stored.1 matches Err(e) ==> e == CacheError::NotFound,
    {
        self.cache_mod_access.finish_cache_mod(downloader, folders)
    }

    /// Forgets everything: the index of a cache whose folders were removed.
    pub fn remove_cache(&mut self)
        ensures
            final(self).index() == Seq::<crate::cached_mod::CachedModView>::empty(),
    {
        self.cache_mod_access.remove_cache()
    }

    /// What is done with the newest version that a host offers.
    pub fn get_newest_release(&self, mod_version: &ModDownloadVersion) -> (decision: Result<
        CacheDecision,
        CacheError,
    >)
        ensures
            decision is Ok <==> newest_release_decision(
                self.index(),
                mod_version.title@,
                mod_version.version@,
            ) is Ok,
            decision matches Ok(d) ==> d@ == newest_release_decision(
                self.index(),
                mod_version.title@,
                mod_version.version@,
            )->Ok_0,
            decision matches Err(e) ==> e == CacheError::NotFound,
    {
        match self.cache_mod_access.get_status(mod_version) {
            ModCacheStatus::SameVersion | ModCacheStatus::NewerVersion => {
                match self.cache_mod_access.get_cached_mod(mod_version) {
                    Some(found) => Ok(CacheDecision::UseCached(found.duplicate())),
                    None => Err(CacheError::NotFound),
                }
            },
            ModCacheStatus::NotCached | ModCacheStatus::OlderVersion => Ok(
                CacheDecision::Download,
            ),
        }
    }

    /// The cached archive of a pinned version, where the cache holds that
    /// version of the mod from `mod_kind`: then no host needs to be asked.
    pub fn find_specific_version(&self, mod_kind: &ModKind, version: &Version) -> (found: Option<
        CachedModVersion,
    >)
        ensures
            found is Some <==> lookup_kind(self.index(), mod_kind@, version@) is Some,
            found matches Some(v) ==> v@ == lookup_kind(self.index(), mod_kind@, version@)->0,
    {
        match self.cache_mod_access.get_cached_mod_from_kind(mod_kind, version) {
            Some(found) => Some(found.duplicate()),
            None => None,
        }
    }

    /// What is done with a pinned version that a host offers.
    pub fn get_specific_version(&self, mod_version: &ModDownloadVersion) -> (decision: Result<
        CacheDecision,
        CacheError,
    >)
        ensures
            decision is Ok <==> specific_version_decision(
                self.index(),
                mod_version.title@,
                mod_version.version@,
            ) is Ok,
            decision matches Ok(d) ==> d@ == specific_version_decision(
                self.index(),
                mod_version.title@,
                mod_version.version@,
            )->Ok_0,
            decision matches Err(e) ==> e == CacheError::NotFound,
    {
        match self.cache_mod_access.get_status(mod_version) {
            ModCacheStatus::SameVersion => {
                match self.cache_mod_access.get_cached_mod(mod_version) {
                    Some(found) => Ok(CacheDecision::UseCached(found.duplicate())),
                    None => Err(CacheError::NotFound),
                }
            },
            _ => Ok(CacheDecision::Download),
        }
    }
}

/// Where the update of one wanted mod stands.
#[derive(Clone, Copy, Debug, PartialEq, Eq, Structural)]
pub enum UpdateState {
    /// Nothing is done yet.
    Start,
    /// The cached archive is being looked for, in the cache or at the host.
    Resolving,
    /// The archive is being unpacked at the path that the entry names.
    Placing,
    /// The record of the last installation is being held against the archive.
    Checking,
    /// The archive is being installed.
    Installing,
    /// The update is over.
    Finished,
}

/// What the caller found out.
#[derive(Clone, Copy, Debug, PartialEq, Eq, Structural)]
pub enum UpdateEvent {
    /// The entry's URL was read as a reference; `pinned` says whether the
    /// entry names a version.
    Parsed { pinned: bool },
    /// The entry's URL is no reference.
    ParseFailed(LinkError),
    /// The archive is in the cache; `explicit_path` says whether the entry
    /// names a path to install to.
    Resolved { explicit_path: bool },
    /// The host does not have the pinned version.
    VersionNotFound,
    /// The archive could not be had.
    ResolveFailed,
    /// The archive was unpacked at the entry's path, or could not be.
    Placed { done: bool },
    /// The record shows the archive as installed, or not.
    Checked { installed: bool },
    /// The record or the archive could not be read.
    CheckFailed,
    /// The archive was installed, or could not be.
    Installed { done: bool },
}

/// How the update of one wanted mod ended.
#[derive(Clone, Copy, Debug, PartialEq, Eq, Structural)]
pub enum UpdateOutcome {
    /// The URL is no reference.
    ParseFailed(LinkError),
    /// The archive could not be had.
    ResolveFailed,
    /// The host does not have the pinned version.
    VersionNotFound,
    /// The archive was unpacked at the entry's path.
    Placed,
    /// The archive could not be unpacked at the entry's path.
    PlaceFailed,
    /// The record or the archive could not be read.
    CheckFailed,
    /// The archive is installed as it stands; nothing was written.
    AlreadyInstalled,
    /// The archive was installed.
    Installed,
    /// The archive could not be installed.
    InstallFailed,
    /// The caller told of something that cannot have happened.
    OutOfTurn,
}

/// What the caller is to do next.
#[derive(Clone, Copy, Debug, PartialEq, Eq, Structural)]
pub enum UpdateAction {
    /// Find the newest version and bring its archive into the cache.
    ResolveNewest,
    /// Find the pinned version and bring its archive into the cache.
    ResolveVersion,
    /// Unpack the whole archive at the entry's path.
    InstallToPath,
    /// Hold the record of the last installation against the archive.
    CheckInstalled,
    /// Install the archive for the target.
    Install,
    /// Report how the update ended, and go on with the next entry.
    Report(UpdateOutcome),
}

/// The step that follows `event` in `state`. A failure ends the update of
/// this entry and of no other; an entry with a path of its own is neither
/// checked nor classified; and nothing is installed that the record shows as
/// installed.
pub open spec fn next_step(state: UpdateState, event: UpdateEvent) -> (UpdateState, UpdateAction) {
    match (state, event) {
        (UpdateState::Start, UpdateEvent::Parsed { pinned }) => (
            UpdateState::Resolving,
            if pinned {
                UpdateAction::ResolveVersion
            } else {
                UpdateAction::ResolveNewest
            },
        ),
        (UpdateState::Start, UpdateEvent::ParseFailed(e)) => (
            UpdateState::Finished,
            UpdateAction::Report(UpdateOutcome::ParseFailed(e)),
        ),
        (UpdateState::Resolving, UpdateEvent::Resolved { explicit_path }) => if explicit_path {
            (UpdateState::Placing, UpdateAction::InstallToPath)
        } else {
            (UpdateState::Checking, UpdateAction::CheckInstalled)
        },
        (UpdateState::Resolving, UpdateEvent::VersionNotFound) => (
            UpdateState::Finished,
            UpdateAction::Report(UpdateOutcome::VersionNotFound),
        ),
        (UpdateState::Resolving, UpdateEvent::ResolveFailed) => (
            UpdateState::Finished,
            UpdateAction::Report(UpdateOutcome::ResolveFailed),
        ),
        (UpdateState::Placing, UpdateEvent::Placed { done }) => (
            UpdateState::Finished,
            UpdateAction::Report(
                if done {
                    UpdateOutcome::Placed
                } else {
                    UpdateOutcome::PlaceFailed
                },
            ),
        ),
        (UpdateState::Checking, UpdateEvent::Checked { installed }) => if installed {
            (UpdateState::Finished, UpdateAction::Report(UpdateOutcome::AlreadyInstalled))
        } else {
            (UpdateState::Installing, UpdateAction::Install)
        },
        (UpdateState::Checking, UpdateEvent::CheckFailed) => (
            UpdateState::Finished,
            UpdateAction::Report(UpdateOutcome::CheckFailed),
        ),
        (UpdateState::Installing, UpdateEvent::Installed { done }) => (
            UpdateState::Finished,
            UpdateAction::Report(
                if done {
                    UpdateOutcome::Installed
                } else {
                    UpdateOutcome::InstallFailed
                },
            ),
        ),
        _ => (UpdateState::Finished, UpdateAction::Report(UpdateOutcome::OutOfTurn)),
    }
}

/// How far `state` is from the end, in steps.
pub open spec fn steps_left(state: UpdateState) -> nat {
    match state {
        UpdateState::Start => 4,
        UpdateState::Resolving => 3,
        UpdateState::Placing => 1,
        UpdateState::Checking => 2,
        UpdateState::Installing => 1,
        UpdateState::Finished => 0,
    }
}

/// Takes the update of one wanted mod a step further.
pub fn update(state: UpdateState, event: UpdateEvent) -> (step: (UpdateState, UpdateAction))
    ensures
        step == next_step(state, event),
{
    match (state, event) {
        (UpdateState::Start, UpdateEvent::Parsed { pinned }) => {
            if pinned {
                (UpdateState::Resolving, UpdateAction::ResolveVersion)
            } else {
                (UpdateState::Resolving, UpdateAction::ResolveNewest)
            }
        },
        (UpdateState::Start, UpdateEvent::ParseFailed(e)) => (
            UpdateState::Finished,
            UpdateAction::Report(UpdateOutcome::ParseFailed(e)),
        ),
        (UpdateState::Resolving, UpdateEvent::Resolved { explicit_path }) => {
            if explicit_path {
                (UpdateState::Placing, UpdateAction::InstallToPath)
            } else {
                (UpdateState::Checking, UpdateAction::CheckInstalled)
            }
        },
        (UpdateState::Resolving, UpdateEvent::VersionNotFound) => (
            UpdateState::Finished,
            UpdateAction::Report(UpdateOutcome::VersionNotFound),
        ),
        (UpdateState::Resolving, UpdateEvent::ResolveFailed) => (
            UpdateState::Finished,
            UpdateAction::Report(UpdateOutcome::ResolveFailed),
        ),
        (UpdateState::Placing, UpdateEvent::Placed { done }) => {
            if done {
                (UpdateState::Finished, UpdateAction::Report(UpdateOutcome::Placed))
            } else {
                (UpdateState::Finished, UpdateAction::Report(UpdateOutcome::PlaceFailed))
            }
        },
        (UpdateState::Checking, UpdateEvent::Checked { installed }) => {
            if installed {
                (UpdateState::Finished, UpdateAction::Report(UpdateOutcome::AlreadyInstalled))
            } else {
                (UpdateState::Installing, UpdateAction::Install)
            }
        },
        (UpdateState::Checking, UpdateEvent::CheckFailed) => (
            UpdateState::Finished,
            UpdateAction::Report(UpdateOutcome::CheckFailed),
        ),
        (UpdateState::Installing, UpdateEvent::Installed { done }) => {
            if done {
                (UpdateState::Finished, UpdateAction::Report(UpdateOutcome::Installed))
            } else {
                (UpdateState::Finished, UpdateAction::Report(UpdateOutcome::InstallFailed))
            }
        },
        _ => (UpdateState::Finished, UpdateAction::Report(UpdateOutcome::OutOfTurn)),
    }
}

/// Every step brings the update nearer to its end, and the update is over
/// exactly when the caller is told to report.
pub proof fn law_update_ends(state: UpdateState, event: UpdateEvent)
    ensures
        state != UpdateState::Finished ==> steps_left(next_step(state, event).0) < steps_left(
            state,
        ),
        next_step(state, event).0 == UpdateState::Finished <==> next_step(state, event).1
            is Report,
{
}

/// Nothing is installed but after a check that found the archive not
/// installed, and nothing is unpacked at a path of its own but for an
/// archive that was just resolved.
pub proof fn law_install_follows_check(state: UpdateState, event: UpdateEvent)
    ensures
        next_step(state, event).1 == UpdateAction::Install ==> state == UpdateState::Checking
            && event == (UpdateEvent::Checked { installed: false }),
        next_step(state, event).1 == UpdateAction::InstallToPath ==> state
            == UpdateState::Resolving && event == (UpdateEvent::Resolved { explicit_path: true }),
        next_step(state, event).1 == UpdateAction::CheckInstalled ==> state
            == UpdateState::Resolving && event == (UpdateEvent::Resolved { explicit_path: false }),
{
}

} // verus!
