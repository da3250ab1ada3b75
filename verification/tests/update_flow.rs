use sptmm_lib::cache_mod_access::{CacheError, CacheFile, CacheModAccess};
use sptmm_lib::mod_manifest::ModManifest;
use sptmm_lib::remote_mod_access::{LinkError, ModDownloadVersion, ModKind};
use sptmm_lib::update::{
    update, CacheDecision, RemoteModAccess, UpdateAction, UpdateEvent, UpdateOutcome, UpdateState,
};
use sptmm_lib::version::Version;

fn kind() -> ModKind {
    ModKind::parse("https://github.com/o/mod", Some("zip".to_string()), None).unwrap()
}

fn offered(version: &str) -> ModDownloadVersion {
    ModDownloadVersion {
        title: "Mod".to_string(),
        file_name: "mod.zip".to_string(),
        download_url: "https://example.com/mod.zip".to_string(),
        uploaded_at: 7,
        version: Version::new(version).unwrap(),
    }
}

fn access(versions: &[&str]) -> RemoteModAccess {
    let mut files = Vec::new();
    for version in versions {
        files.push(CacheFile::new(&format!("{}_mod.zip", version), format!("c/{}_mod.zip", version), None));
        files.push(CacheFile::new(
            &format!("{}_mod.manifest", version),
            format!("c/{}_mod.manifest", version),
            Some(ModManifest::new(7, "Mod".to_string(), Version::new(version).unwrap(), kind())),
        ));
    }
    RemoteModAccess::init(CacheModAccess::build("c", true, &vec![files]).unwrap().0)
}

fn path_of(decision: Result<CacheDecision, CacheError>) -> Option<String> {
    match decision.unwrap() {
        CacheDecision::UseCached(version) => Some(version.path),
        CacheDecision::Download => None,
    }
}

#[test]
fn newest_release_is_downloaded_only_when_the_cache_is_behind() {
    let remote = access(&["1.0.0", "2.0.0"]);
    assert_eq!(path_of(remote.get_newest_release(&offered("2.0.0"))), Some("c/2.0.0_mod.zip".to_string()));
    assert_eq!(path_of(remote.get_newest_release(&offered("1.0.0"))), Some("c/1.0.0_mod.zip".to_string()));
    assert_eq!(path_of(remote.get_newest_release(&offered("3.0.0"))), None);
    assert_eq!(remote.get_newest_release(&offered("1.5.0")).err(), Some(CacheError::NotFound));
    let empty = access(&[]);
    assert_eq!(path_of(empty.get_newest_release(&offered("1.0.0"))), None);
    assert_eq!(remote.cache().len(), 1);
    assert_eq!(remote.into_cache().len(), 1);
}

#[test]
fn pinned_version_is_taken_from_the_cache_where_it_is() {
    let remote = access(&["1.0.0", "2.0.0"]);
    let found = remote.find_specific_version(&kind(), &Version::new("1.0.0").unwrap()).unwrap();
    assert_eq!(found.path, "c/1.0.0_mod.zip");
    assert!(remote.find_specific_version(&kind(), &Version::new("1.5.0").unwrap()).is_none());
    assert_eq!(path_of(remote.get_specific_version(&offered("2.0.0"))), Some("c/2.0.0_mod.zip".to_string()));
    assert_eq!(path_of(remote.get_specific_version(&offered("1.5.0"))), None);
    assert_eq!(path_of(remote.get_specific_version(&offered("1.0.0"))), None);
    assert_eq!(path_of(remote.get_specific_version(&offered("3.0.0"))), None);
}

#[test]
fn update_of_a_mod_runs_to_an_installation() {
    let (state, action) = update(UpdateState::Start, UpdateEvent::Parsed { pinned: false });
    assert_eq!((state, action), (UpdateState::Resolving, UpdateAction::ResolveNewest));
    let (state, action) = update(state, UpdateEvent::Resolved { explicit_path: false });
    assert_eq!((state, action), (UpdateState::Checking, UpdateAction::CheckInstalled));
    let (state, action) = update(state, UpdateEvent::Checked { installed: false });
    assert_eq!((state, action), (UpdateState::Installing, UpdateAction::Install));
    let (state, action) = update(state, UpdateEvent::Installed { done: true });
    assert_eq!((state, action), (UpdateState::Finished, UpdateAction::Report(UpdateOutcome::Installed)));
}

#[test]
fn update_skips_what_is_installed_and_unpacks_at_a_path_unchecked() {
    assert_eq!(
        update(UpdateState::Start, UpdateEvent::Parsed { pinned: true }),
        (UpdateState::Resolving, UpdateAction::ResolveVersion)
    );
    assert_eq!(
        update(UpdateState::Checking, UpdateEvent::Checked { installed: true }),
        (UpdateState::Finished, UpdateAction::Report(UpdateOutcome::AlreadyInstalled))
    );
    assert_eq!(
        update(UpdateState::Resolving, UpdateEvent::Resolved { explicit_path: true }),
        (UpdateState::Placing, UpdateAction::InstallToPath)
    );
    assert_eq!(
        update(UpdateState::Placing, UpdateEvent::Placed { done: true }),
        (UpdateState::Finished, UpdateAction::Report(UpdateOutcome::Placed))
    );
}

#[test]
fn update_failures_end_the_entry_with_a_report() {
    let finished = |outcome| (UpdateState::Finished, UpdateAction::Report(outcome));
    assert_eq!(
        update(UpdateState::Start, UpdateEvent::ParseFailed(LinkError::NoAssetPattern)),
        finished(UpdateOutcome::ParseFailed(LinkError::NoAssetPattern))
    );
    assert_eq!(
        update(UpdateState::Resolving, UpdateEvent::ResolveFailed),
        finished(UpdateOutcome::ResolveFailed)
    );
    assert_eq!(
        update(UpdateState::Resolving, UpdateEvent::VersionNotFound),
        finished(UpdateOutcome::VersionNotFound)
    );
    assert_eq!(
        update(UpdateState::Placing, UpdateEvent::Placed { done: false }),
        finished(UpdateOutcome::PlaceFailed)
    );
    assert_eq!(
        update(UpdateState::Checking, UpdateEvent::CheckFailed),
        finished(UpdateOutcome::CheckFailed)
    );
    assert_eq!(
        update(UpdateState::Installing, UpdateEvent::Installed { done: false }),
        finished(UpdateOutcome::InstallFailed)
    );
    assert_eq!(
        update(UpdateState::Start, UpdateEvent::Installed { done: true }),
        finished(UpdateOutcome::OutOfTurn)
    );
    assert_eq!(
        update(UpdateState::Finished, UpdateEvent::Parsed { pinned: false }),
        finished(UpdateOutcome::OutOfTurn)
    );
    assert_eq!(
        update(UpdateState::Checking, UpdateEvent::Resolved { explicit_path: false }),
        finished(UpdateOutcome::OutOfTurn)
    );
}
