use sptmm_lib::cache_mod_access::to_file_name;
use sptmm_lib::file_manager::{create_file_name, create_folder_name, create_mod_file_prefix, FileManager};
use sptmm_lib::mod_manifest::{separate_file_and_ext, ModManifest};
use sptmm_lib::remote_mod_access::ModDownloadVersion;
use sptmm_lib::shared_traits::{normalize, space_mapper, ModName, ModVersion};
use sptmm_lib::text::{
    chars_of, contains, find_from, find_last, join_text, parse_integer, same_text, starts_with,
    string_of,
};
use sptmm_lib::version::Version;

fn download(title: &str, file_name: &str, version: &str) -> ModDownloadVersion {
    ModDownloadVersion {
        title: title.to_string(),
        file_name: file_name.to_string(),
        download_url: "https://example.com/file.zip".to_string(),
        uploaded_at: 1718132955,
        version: Version::new(version).unwrap(),
    }
}

#[test]
fn cache_mod_access_test_file_parser_proper() {
    let result = separate_file_and_ext("1.0.0_maxloo2-betterkeys-updated.zip");
    assert_eq!(
        result,
        (
            "1.0.0_maxloo2-betterkeys-updated".to_string(),
            Some(".zip".to_string())
        )
    );
}

#[test]
fn cache_mod_access_test_file_parser_simple() {
    let result = separate_file_and_ext("foo");
    assert_eq!(result, ("foo".to_string(), None));
}

#[test]
fn file_name_splits_at_the_last_dot() {
    assert_eq!(separate_file_and_ext("a.b.c"), ("a.b".to_string(), Some(".c".to_string())));
    assert_eq!(separate_file_and_ext("a."), ("a".to_string(), Some(".".to_string())));
    assert_eq!(separate_file_and_ext(".a"), ("".to_string(), Some(".a".to_string())));
    assert_eq!(separate_file_and_ext(""), ("".to_string(), None));
    assert_eq!(separate_file_and_ext("a..b"), ("a.".to_string(), Some(".b".to_string())));
}

#[test]
fn space_mapper_replaces_spaces_and_hyphens() {
    assert_eq!(space_mapper(' '), '_');
    assert_eq!(space_mapper('-'), '_');
    assert_eq!(space_mapper('_'), '_');
    assert_eq!(space_mapper('a'), 'a');
    assert_eq!(space_mapper('.'), '.');
}

#[test]
fn normalize_maps_every_character() {
    assert_eq!(normalize("Better Keys-Updated"), "Better_Keys_Updated");
    assert_eq!(normalize(""), "");
    assert_eq!(normalize("plain"), "plain");
    assert_eq!(normalize(&normalize("a - b")), normalize("a - b"));
}

#[test]
fn names_derive_from_title_and_version() {
    let offered = download("Better Keys Updated", "maxloo2-betterkeys-updated-v1.2.3.zip", "1.2.3-beta");
    assert_eq!(offered.get_name(), "Better Keys Updated");
    assert!(offered.is_same_name("Better Keys Updated"));
    assert!(!offered.is_same_name("better keys updated"));
    assert_eq!(offered.to_file_name(), "Better_Keys_Updated");
    assert_eq!(offered.to_file_version(), "1.2.3_beta");
    assert_eq!(
        to_file_name(&offered),
        "1.2.3_beta_maxloo2-betterkeys-updated-v1.2.3.zip"
    );
    assert_eq!(create_folder_name(&offered), "Better_Keys_Updated");
    assert_eq!(create_mod_file_prefix(&offered), "1.2.3_beta");
    assert_eq!(create_file_name(&offered), to_file_name(&offered));
}

#[test]
fn manifest_name_replaces_the_last_extension() {
    assert_eq!(
        ModManifest::create_manifest_name("1.2.3_maxloo2-betterkeys-updated-v1.2.3.zip"),
        "1.2.3_maxloo2-betterkeys-updated-v1.2.3.manifest"
    );
    assert_eq!(ModManifest::create_manifest_name("foo"), "foo.manifest");
    assert_eq!(
        ModManifest::create_manifest_path("cache/Some_Mod", "1.0.0_mod.zip"),
        "cache/Some_Mod/1.0.0_mod.manifest"
    );
    assert_eq!(
        separate_file_and_ext(&ModManifest::create_manifest_name("1.0.0_mod.tar.gz")),
        ("1.0.0_mod.tar".to_string(), Some(".manifest".to_string()))
    );
}

#[test]
fn file_manager_needs_a_folder() {
    assert!(FileManager::new("./cache", false).is_err());
    let manager = FileManager::new("./cache", true).unwrap();
    assert_eq!(manager.cache_dir(), "./cache");
}

#[test]
fn text_helpers_agree_with_std() {
    let hay = chars_of("maxloo2-betterkeys-updated-v1.2.3.zip");
    assert!(contains(&hay, &chars_of("betterkeys")));
    assert!(contains(&hay, &chars_of("")));
    assert!(contains(&hay, &chars_of(".zip")));
    assert!(!contains(&hay, &chars_of("server")));
    assert!(!contains(&chars_of("ab"), &chars_of("abc")));
    assert!(starts_with(&hay, &chars_of("maxloo2")));
    assert!(!starts_with(&hay, &chars_of("axloo2")));
    assert_eq!(find_from(&hay, '-', 0), 7);
    assert_eq!(find_from(&hay, '-', 8), 18);
    assert_eq!(find_from(&hay, '#', 0), hay.len());
    assert_eq!(find_last(&hay, '.'), Some(33));
    assert_eq!(find_last(&hay, '#'), None);
    assert_eq!(string_of(&hay), "maxloo2-betterkeys-updated-v1.2.3.zip");
    assert!(same_text("häßlich", "häßlich"));
    assert!(!same_text("a", "b"));
    assert_eq!(join_text("ab", "cd"), "abcd");
    assert_eq!(chars_of("é1").len(), 2);
}

#[test]
fn integers_are_read_as_std_reads_them() {
    assert_eq!(parse_integer("42"), Some(42));
    assert_eq!(parse_integer("-5"), Some(-5));
    assert_eq!(parse_integer("+7"), Some(7));
    assert_eq!(parse_integer("007"), Some(7));
    assert_eq!(parse_integer("0"), Some(0));
    assert_eq!(parse_integer("-0"), Some(0));
    assert_eq!(parse_integer("1718132955"), Some(1718132955));
    assert_eq!(parse_integer("9223372036854775807"), Some(i64::MAX));
    assert_eq!(parse_integer("-9223372036854775808"), Some(i64::MIN));
    assert_eq!(parse_integer("9223372036854775808"), None);
    assert_eq!(parse_integer("-9223372036854775809"), None);
    assert_eq!(parse_integer("99999999999999999999999999"), None);
    for text in [
        "", "-", "+", " 5", "5 ", "5a", "a5", "1_000", "--5", "+-5", "1.5", "٣", "0x10",
        "-9223372036854775808", "9223372036854775807", "000000000000000000000000001",
    ] {
        assert_eq!(parse_integer(text), text.parse::<i64>().ok());
    }
}
