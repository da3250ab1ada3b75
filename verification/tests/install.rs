use sptmm_lib::install_record::InstallRecord;
use sptmm_lib::remote_mod_access::ModDownloadVersion;
use sptmm_lib::shared_traits::ModName;
use sptmm_lib::version::Version;
use sptmm_lib::spt_access::{
    client_mod_removal, dir_parser, file_parser, is_directory_entry, matches_install_record,
    old_server_file_name, plan_install, server_file_name, server_mod_removal, ArchiveEntry,
    FileType, InstallError, InstallTarget, Removal, SptAccess,
};
use sptmm_lib::time_access::Time;
use sptmm_lib::zip_data::ZipData;

fn named(name: &str) -> ModDownloadVersion {
    ModDownloadVersion {
        title: name.to_string(),
        file_name: "mod.zip".to_string(),
        download_url: "https://example.com/mod.zip".to_string(),
        uploaded_at: 0,
        version: Version::new("1.0.0").unwrap(),
    }
}

fn entry(path: &str, data: &[u8]) -> ArchiveEntry {
    ArchiveEntry { path: path.to_string(), data: data.to_vec() }
}

fn fixture() -> Vec<ArchiveEntry> {
    vec![
        entry("user/mods/examplemod/package.json", b"{\"name\":\"examplemod\"}"),
        entry("BepInEx/plugins/example.dll", b"MZ\x90\x00"),
    ]
}

const HELLO_DIGEST: &str = "2cf24dba5fb0a30e26e83b2ac5b9e29e1b161e5c1fa7425e73043362938b9824";

#[test]
fn spt_access_when_parsing_multiple_dirs_return_last_dir() {
    let buf = dir_parser("test_data/1.2.3_/maxloo2-betterkeys-updated/-v1.2.3.zip");
    assert_eq!(buf.as_deref(), Some("test_data/1.2.3_/maxloo2-betterkeys-updated"))
}

#[test]
fn spt_access_when_parsing_no_dirs_return_none() {
    let buf = dir_parser("test_data");
    assert_eq!(buf, None)
}

#[test]
fn test_parse_multiple_dirs() {
    let buf = dir_parser("test_data/1.2.3_/maxloo2-betterkeys-updated/-v1.2.3.zip");
    assert_eq!(buf.as_deref(), Some("test_data/1.2.3_/maxloo2-betterkeys-updated"))
}

#[test]
fn test_parse_no_dirs() {
    let buf = dir_parser("test_data");
    assert_eq!(buf, None)
}

#[test]
fn dir_parser_edges() {
    assert_eq!(dir_parser("/file").as_deref(), Some(""));
    assert_eq!(dir_parser("/abs/file").as_deref(), Some("/abs"));
    assert_eq!(dir_parser("dir/").as_deref(), Some("dir"));
    assert_eq!(dir_parser("a//b").as_deref(), Some("a/"));
    assert_eq!(dir_parser(""), None);
}

#[test]
fn entries_are_classified_by_their_top_level_directory() {
    assert_eq!(file_parser("user/mods/examplemod/package.json"), FileType::Server);
    assert_eq!(file_parser("user/anything.txt"), FileType::Server);
    assert_eq!(file_parser("BepInEx/plugins/example.dll"), FileType::Client);
    assert_eq!(file_parser("bepinex/plugins/example.dll"), FileType::Unknown);
    assert_eq!(file_parser("README.md"), FileType::Unknown);
    assert_eq!(file_parser("user"), FileType::Unknown);
    assert_eq!(file_parser("users/mods/x"), FileType::Unknown);
    assert_eq!(file_parser("/user/mods/x"), FileType::Unknown);
    assert_eq!(file_parser(""), FileType::Unknown);
    assert!(is_directory_entry("user/mods/"));
    assert!(!is_directory_entry("user/mods/a.txt"));
    assert!(!is_directory_entry(""));
}

#[test]
fn zip_data_digests_and_classifies() {
    let data = b"hello".to_vec();
    let zip_data = ZipData::new(&data, "user/mods/hello.txt");
    assert_eq!(zip_data.get_hash(), HELLO_DIGEST);
    assert_eq!(zip_data.get_data(), b"hello");
    assert_eq!(zip_data.get_path(), "user/mods/hello.txt");
    assert!(zip_data.should_install(&InstallTarget::Server));
    assert!(zip_data.should_install(&InstallTarget::Client));
    let client = ZipData::new(&data, "BepInEx/plugins/hello.dll");
    assert!(!client.should_install(&InstallTarget::Server));
    assert!(client.should_install(&InstallTarget::Client));
    let unknown = ZipData::new(&data, "docs/hello.txt");
    assert!(!unknown.should_install(&InstallTarget::Server));
    assert!(!unknown.should_install(&InstallTarget::Client));
    let empty = ZipData::new(&[], "user/empty");
    assert_eq!(
        empty.get_hash(),
        "e3b0c44298fc1c149afbf4c8996fb92427ae41e4649b934ca495991b7852b855"
    );
}

#[test]
fn install_target_asymmetry() {
    let entries = fixture();
    let client = plan_install(&entries, InstallTarget::Client, "Test".to_string()).unwrap();
    let paths: Vec<&str> = client.files.iter().map(|f| f.get_path()).collect();
    assert_eq!(paths, vec!["user/mods/examplemod/package.json", "BepInEx/plugins/example.dll"]);
    assert_eq!(client.record.len(), 2);
    let server = plan_install(&entries, InstallTarget::Server, "Test".to_string()).unwrap();
    let paths: Vec<&str> = server.files.iter().map(|f| f.get_path()).collect();
    assert_eq!(paths, vec!["user/mods/examplemod/package.json"]);
}

#[test]
fn server_install_of_the_example_archive() {
    let entries = fixture();
    let plan = plan_install(&entries, InstallTarget::Server, "examplemod".to_string()).unwrap();
    assert_eq!(plan.files.len(), 1);
    assert_eq!(plan.files[0].get_path(), "user/mods/examplemod/package.json");
    assert_eq!(plan.files[0].get_data(), b"{\"name\":\"examplemod\"}");
    assert_eq!(
        dir_parser(plan.files[0].get_path()).as_deref(),
        Some("user/mods/examplemod")
    );
    assert_eq!(plan.record.len(), 1);
    assert_eq!(plan.record.pairs().len(), 1);
    assert_eq!(plan.record.pairs()[0].0, "user/mods/examplemod/package.json");
    assert_eq!(
        plan.record.get("user/mods/examplemod/package.json"),
        Some(plan.files[0].get_hash())
    );
    assert_eq!(plan.record.get("BepInEx/plugins/example.dll"), None);
    assert_eq!(plan.record_name, "examplemod");
}

#[test]
fn archive_without_structured_paths_is_refused() {
    let entries = vec![entry("README.md", b"read me"), entry("mod/file.dll", b"x")];
    assert_eq!(
        plan_install(&entries, InstallTarget::Client, "Test".to_string()).err(),
        Some(InstallError::NoStructuredPath)
    );
    let client_only = vec![entry("BepInEx/plugins/example.dll", b"x")];
    assert_eq!(
        plan_install(&client_only, InstallTarget::Server, "Test".to_string()).err(),
        Some(InstallError::NoStructuredPath)
    );
    assert!(plan_install(&client_only, InstallTarget::Client, "Test".to_string()).is_ok());
    let none: Vec<ArchiveEntry> = Vec::new();
    assert_eq!(
        plan_install(&none, InstallTarget::Client, "Test".to_string()).err(),
        Some(InstallError::NoStructuredPath)
    );
    let folders = vec![entry("user/", b""), entry("user/mods/", b"")];
    assert_eq!(
        plan_install(&folders, InstallTarget::Client, "Test".to_string()).err(),
        Some(InstallError::NoStructuredPath)
    );
}

#[test]
fn each_entry_is_digested_on_its_own() {
    let entries = vec![
        entry("README.md", b"skipped bytes"),
        entry("user/mods/hello.txt", b"hello"),
    ];
    let plan = plan_install(&entries, InstallTarget::Server, "Test".to_string()).unwrap();
    assert_eq!(plan.files[0].get_hash(), HELLO_DIGEST);
    assert_eq!(plan.files[0].get_data(), b"hello");
    assert_eq!(plan.record.get("user/mods/hello.txt"), Some(HELLO_DIGEST));
}

#[test]
fn idempotent_reinstall() {
    let entries = fixture();
    for target in [InstallTarget::Client, InstallTarget::Server] {
        let plan = plan_install(&entries, target, "Test".to_string()).unwrap();
        assert!(matches_install_record(&entries, Some(&plan.record), target));
    }
    let plan = plan_install(&entries, InstallTarget::Client, "Test".to_string()).unwrap();
    let mut changed = fixture();
    changed[1].data.push(0);
    assert!(!matches_install_record(&changed, Some(&plan.record), InstallTarget::Client));
    assert!(matches_install_record(&changed, Some(&plan.record), InstallTarget::Server));
    let mut added = fixture();
    added.push(entry("user/mods/examplemod/src/mod.js", b"x"));
    assert!(!matches_install_record(&added, Some(&plan.record), InstallTarget::Server));
}

#[test]
fn absent_or_empty_record_means_not_installed() {
    let entries = fixture();
    assert!(!matches_install_record(&entries, None, InstallTarget::Client));
    let empty = InstallRecord::new();
    assert!(!matches_install_record(&entries, Some(&empty), InstallTarget::Client));
    let nothing_to_install = vec![entry("README.md", b"x")];
    assert!(!matches_install_record(&nothing_to_install, Some(&empty), InstallTarget::Client));
    let server_record = plan_install(&entries, InstallTarget::Server, "Test".to_string())
        .unwrap()
        .record;
    assert!(!matches_install_record(&entries, Some(&server_record), InstallTarget::Client));
}

#[test]
fn install_record_keeps_one_digest_per_path() {
    let mut record = InstallRecord::new();
    assert!(record.is_empty());
    record.insert("a".to_string(), "1".to_string());
    record.insert("b".to_string(), "2".to_string());
    record.insert("a".to_string(), "3".to_string());
    assert_eq!(record.len(), 2);
    assert!(!record.is_empty());
    assert_eq!(record.get("a"), Some("3"));
    assert_eq!(record.get("b"), Some("2"));
    assert_eq!(record.get("c"), None);
    let pairs = record.pairs();
    assert_eq!(pairs.len(), 2);
    assert!(pairs.contains(&("a".to_string(), "3".to_string())));
    assert!(pairs.contains(&("b".to_string(), "2".to_string())));
}

#[test]
fn later_entry_of_one_path_wins_in_the_record() {
    let entries = vec![
        entry("user/mods/a.txt", b"first"),
        entry("user/mods/a.txt", b"hello"),
    ];
    let plan = plan_install(&entries, InstallTarget::Server, "Test".to_string()).unwrap();
    assert_eq!(plan.files.len(), 2);
    assert_eq!(plan.record.len(), 1);
    assert_eq!(plan.record.get("user/mods/a.txt"), Some(HELLO_DIGEST));
    assert!(!matches_install_record(&entries, Some(&plan.record), InstallTarget::Server));
}

#[test]
fn installer_needs_a_server_executable() {
    assert_eq!(
        SptAccess::init("./", false, false, Time::new()).err(),
        Some(InstallError::ServerNotFound)
    );
    for (new, old) in [(true, false), (false, true), (true, true)] {
        let access = SptAccess::init("./game", new, old, Time::new()).unwrap();
        assert_eq!(access.root_path(), "./game");
        assert_eq!(access.server_mods_path(), "user/mods/");
        assert_eq!(access.client_mods_path(), "BepInEx/plugins/");
        assert_eq!(access.install_index(), "install_hash");
    }
    assert_eq!(server_file_name(), "SPT.Server.exe");
    assert_eq!(old_server_file_name(), "Aki.Server.exe");
}

#[test]
fn installer_keeps_the_record_under_the_mods_file_name() {
    let access = SptAccess::init("./", true, false, Time::new()).unwrap();
    let entries = fixture();
    let name = named("Better Keys-Updated");
    let plan = access.install_mod(&entries, &name, InstallTarget::Client).unwrap();
    assert_eq!(plan.record_name, "Better_Keys_Updated");
    assert_eq!(name.to_file_name(), "Better_Keys_Updated");
    assert_eq!(plan.files.len(), 2);
    assert!(access.is_same_installed_version(&entries, Some(&plan.record), InstallTarget::Client));
    assert!(!access.is_same_installed_version(&entries, None, InstallTarget::Client));
}

#[test]
fn removing_all_mods_spares_the_games_own_entries() {
    assert_eq!(server_mod_removal(true), Removal::Keep);
    assert_eq!(server_mod_removal(false), Removal::RemoveFolder);
    assert_eq!(client_mod_removal("spt", false), Removal::Keep);
    assert_eq!(client_mod_removal("spt", true), Removal::Keep);
    assert_eq!(client_mod_removal("example.dll", true), Removal::RemoveFile);
    assert_eq!(client_mod_removal("example", false), Removal::RemoveFolder);
    assert_eq!(client_mod_removal("SPT", false), Removal::RemoveFolder);
}

#[test]
fn install_errors_in_words() {
    assert_eq!(
        InstallError::ServerNotFound.message(),
        "Could not find SPT.Server.exe or Aki.Server.exe in the current folder"
    );
    assert_eq!(
        InstallError::NoStructuredPath.message(),
        "No files with a structured installation path was found"
    );
}
