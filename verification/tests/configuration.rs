use sptmm_lib::configuration_access::{
    ConfigError, ConfigManager, ConfigurationAccess, ModConfigurationRaw,
    ModVersionConfiguration, ModVersionConfigurationRaw,
};
use sptmm_lib::time_access::Time;
use sptmm_lib::shared_traits::TimeProvider;

fn raw(url: &str, version: Option<&str>) -> ModVersionConfigurationRaw {
    ModVersionConfigurationRaw {
        url: url.to_string(),
        version: version.map(|v| v.to_string()),
        github_pattern: None,
        install_path: None,
        github_filter: None,
    }
}

#[test]
fn configuration_access_integration_test_get_mods_from_path() {
    let found = vec![raw("https://github.com/test/mactest/", None)];
    let option = ConfigurationAccess::new().get_mods_from_path(Some(found)).unwrap();

    let entries = option.unwrap();
    assert_eq!(entries.len(), 1);
    assert_eq!(entries[0].url, "https://github.com/test/mactest/".to_string());
    assert!(entries[0].version.is_none());
    assert_eq!(entries[0].github_pattern, None);
    assert_eq!(entries[0].install_path, None);
    assert_eq!(entries[0].github_filter, None);
}

#[test]
fn configuration_is_read_with_the_games_version() {
    let access = ConfigurationAccess::init("./test_data/", true).unwrap();
    assert_eq!(access.mod_cfg_path(), "./test_data/spt_mods.json");
    let configuration = access
        .read_remote_mods(ModConfigurationRaw {
            spt_version: "3.8.3".to_string(),
            mods: vec![raw("https://github.com/test/mactest/", None)],
        })
        .unwrap();
    assert_eq!(configuration.spt_version.as_str(), "3.8.3");
    assert_eq!(configuration.mods.len(), 1);
    assert_eq!(configuration.mods[0].url, "https://github.com/test/mactest/");
    assert!(configuration.mods[0].version.is_none());
    let again = access.write_remote_mods(&configuration);
    assert_eq!(
        again,
        ModConfigurationRaw {
            spt_version: "3.8.3".to_string(),
            mods: vec![raw("https://github.com/test/mactest/", None)],
        }
    );
}

#[test]
fn configuration_paths_and_errors() {
    assert_eq!(ConfigurationAccess::new().mod_cfg_path(), "./spt_mods.json");
    assert_eq!(
        ConfigurationAccess::init("C:/SPT", true).unwrap().mod_cfg_path(),
        "C:/SPT/spt_mods.json"
    );
    assert_eq!(
        ConfigurationAccess::init("", true).unwrap().mod_cfg_path(),
        "/spt_mods.json"
    );
    assert_eq!(
        ConfigurationAccess::init("./", false).err(),
        Some(ConfigError::NotADirectory)
    );
    let access = ConfigurationAccess::new();
    assert_eq!(
        access
            .read_remote_mods(ModConfigurationRaw { spt_version: String::new(), mods: Vec::new() })
            .err(),
        Some(ConfigError::BadVersion)
    );
    assert_eq!(
        access
            .read_remote_mods(ModConfigurationRaw {
                spt_version: "3.8.3".to_string(),
                mods: vec![raw("https://a", Some("1.0.0")), raw("https://b", Some(""))],
            })
            .err(),
        Some(ConfigError::BadVersion)
    );
    assert!(access.get_mods_from_path(None).unwrap().is_none());
    assert!(ConfigManager::new().get_mods_from_path(None).unwrap().is_none());
    assert_eq!(
        ConfigManager::new().get_mods_from_path(Some(vec![raw("u", Some(""))])).err(),
        Some(ConfigError::BadVersion)
    );
    assert_eq!(
        ConfigManager::new()
            .get_mods_from_path(Some(vec![raw("u", Some("1.0.0"))]))
            .unwrap()
            .unwrap()
            .len(),
        1
    );
}

#[test]
fn entry_carries_every_field_over() {
    let entry = ModVersionConfiguration::try_from(ModVersionConfigurationRaw {
        url: "https://github.com/o/r".to_string(),
        version: Some("1.2.3".to_string()),
        github_pattern: Some("zip".to_string()),
        install_path: Some("BepInEx/plugins/x".to_string()),
        github_filter: Some("src".to_string()),
    })
    .unwrap();
    assert_eq!(entry.url, "https://github.com/o/r");
    assert_eq!(entry.version.as_ref().unwrap().as_str(), "1.2.3");
    assert_eq!(entry.github_pattern.as_deref(), Some("zip"));
    assert_eq!(entry.install_path.as_deref(), Some("BepInEx/plugins/x"));
    assert_eq!(entry.github_filter.as_deref(), Some("src"));
    let back = entry.to_raw();
    assert_eq!(back.version.as_deref(), Some("1.2.3"));
    assert_eq!(back.github_filter.as_deref(), Some("src"));
    assert_eq!(
        ModVersionConfiguration::try_from(raw("u", Some(""))).err(),
        Some(ConfigError::BadVersion)
    );
}

#[test]
fn clock_tells_a_time_after_2024() {
    let time = Time::new();
    assert!(time.get_current_time() > 1_704_067_200);
}
