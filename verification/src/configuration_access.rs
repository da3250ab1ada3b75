//! The list of wanted mods: what the configuration file says, and what the
//! rest of the library makes of it.

use crate::text::join_text;
use crate::remote_mod_access::optional_text;
use crate::text::{chars_of, ends_with_char};
use crate::version::{canonical_version, Version};
use vstd::prelude::*;

verus! {

/// One wanted mod as the configuration file spells it.
#[derive(Clone, Debug, PartialEq, Eq)]
pub struct ModVersionConfigurationRaw {
    pub url: String,
    pub version: Option<String>,
    pub github_pattern: Option<String>,
    pub install_path: Option<String>,
    pub github_filter: Option<String>,
}

/// The configuration file as it is spelled.
#[derive(Clone, Debug, PartialEq, Eq)]
pub struct ModConfigurationRaw {
    pub spt_version: String,
    pub mods: Vec<ModVersionConfigurationRaw>,
}

/// One wanted mod: where it comes from, which version is wanted where one is
/// pinned, what picks the asset on GitHub, and where to install it where that
/// is not left to the installer.
#[derive(Debug)]
pub struct ModVersionConfiguration {
    pub url: String,
    pub version: Option<Version>,
    pub github_pattern: Option<String>,
    pub install_path: Option<String>,
    pub github_filter: Option<String>,
}

/// The wanted mods, in the order of the file, and the version of the game
/// they are meant for.
#[derive(Debug)]
pub struct ModConfiguration {
    pub spt_version: Version,
    pub mods: Vec<ModVersionConfiguration>,
}

/// Why a configuration could not be taken.
#[derive(Clone, Copy, Debug, PartialEq, Eq, Structural)]
pub enum ConfigError {
    /// The game's root is no folder.
    NotADirectory,
    /// A version in the file is none.
    BadVersion,
}

impl ConfigError {
    /// The error in words, as characters.
    pub open spec fn text(&self) -> Seq<char> {
        match self {
            ConfigError::NotADirectory => "Root folder must be a directory"@,
            ConfigError::BadVersion => "Failed to parse version"@,
        }
    }

    /// The error in words.
    pub fn message(&self) -> (text: &'static str)
        ensures
            text@ == self.text(),
    {
        match self {
            ConfigError::NotADirectory => "Root folder must be a directory",
            ConfigError::BadVersion => "Failed to parse version",
        }
    }
}

/// The version of an entry can be read: it has none, or one that is a
/// version.
pub open spec fn readable(raw: ModVersionConfigurationRaw) -> bool {
    match raw.version {
        Some(text) => canonical_version(text@) is Some,
        None => true,
    }
}

/// `entry` says what `raw` spells.
pub open spec fn spells(entry: ModVersionConfiguration, raw: ModVersionConfigurationRaw) -> bool {
    &&& entry.url@ == raw.url@
    &&& optional_text(entry.github_pattern) == optional_text(raw.github_pattern)
    &&& optional_text(entry.install_path) == optional_text(raw.install_path)
    &&& optional_text(entry.github_filter) == optional_text(raw.github_filter)
    &&& match raw.version {
        Some(text) => entry.version is Some && Some(entry.version->0@) == canonical_version(
            text@,
        ),
        None => entry.version is None,
    }
}

/// The position of the first of `mods[from..]` whose version cannot be read;
/// the number of entries when all can.
pub open spec fn first_unreadable(mods: Seq<ModVersionConfigurationRaw>, from: int) -> int
    decreases mods.len() - from,
{
    if from < 0 || from >= mods.len() {
        mods.len() as int
    } else if !readable(mods[from]) {
        from
    } else {
        first_unreadable(mods, from + 1)
    }
}

/// The file in a game's root folder that lists the wanted mods.
pub open spec fn configuration_path(root_path: Seq<char>) -> Seq<char> {
    if ends_with_char(root_path, '/') {
        root_path + "spt_mods.json"@
    } else {
        root_path + "/spt_mods.json"@
    }
}

/// A copy of an optional text.
pub fn copy_optional(text: &Option<String>) -> (copy: Option<String>)
    ensures
        optional_text(copy) == optional_text(*text),
{
    match text {
        Some(t) => Some(t.clone()),
        None => None,
    }
}

impl ModVersionConfiguration {
    /// Takes an entry of the file: a version that it spells is read.
    pub fn try_from(value: ModVersionConfigurationRaw) -> (entry: Result<Self, ConfigError>)
        ensures
            entry is Ok <==> readable(value),
            entry matches Ok(e) ==> spells(e, value),
            entry matches Err(e) ==> e == ConfigError::BadVersion,
    {
        let version = match &value.version {
            Some(text) => match Version::new(text.as_str()) {
                Some(version) => Some(version),
                None => {
                    return Err(ConfigError::BadVersion);
                },
            },
            None => None,
        };
        Ok(
            Self {
                url: value.url,
                install_path: value.install_path,
                github_pattern: value.github_pattern,
                github_filter: value.github_filter,
                version,
            },
        )
    }

    /// The entry as the file spells it.
    pub fn to_raw(&self) -> (raw: ModVersionConfigurationRaw)
        ensures
            raw.url@ == self.url@,
            optional_text(raw.github_pattern) == optional_text(self.github_pattern),
            optional_text(raw.install_path) == optional_text(self.install_path),
            optional_text(raw.github_filter) == optional_text(self.github_filter),
            match self.version {
                Some(version) => raw.version is Some && raw.version->0@ == version@,
                None => raw.version is None,
            },
    {
        ModVersionConfigurationRaw {
            url: self.url.clone(),
            install_path: copy_optional(&self.install_path),
            github_pattern: copy_optional(&self.github_pattern),
            github_filter: copy_optional(&self.github_filter),
            version: match &self.version {
                Some(version) => Some(version.as_str().to_owned()),
                None => None,
            },
        }
    }
}

/// Takes the entries of a file in order; the first version that cannot be
/// read ends it.
pub fn read_entries(mods: Vec<ModVersionConfigurationRaw>) -> (entries: Result<
    Vec<ModVersionConfiguration>,
    ConfigError,
>)
    ensures
        entries is Ok <==> first_unreadable(mods@, 0) >= mods@.len(),
        entries matches Err(e) ==> e == ConfigError::BadVersion,
        entries matches Ok(list) ==> list@.len() == mods@.len() && forall|i: int|
            0 <= i < list@.len() ==> spells(#[trigger] list@[i], mods@[i]),
{
    let mut entries: Vec<ModVersionConfiguration> = Vec::new();
    let mut i: usize = 0;
    while i < mods.len()
        invariant
            i <= mods.len(),
            entries@.len() == i,
            first_unreadable(mods@, 0) == first_unreadable(mods@, i as int),
            forall|k: int| 0 <= k < i ==> spells(#[trigger] entries@[k], mods@[k]),
        decreases mods.len() - i,
    {
        let raw = ModVersionConfigurationRaw {
            url: mods[i].url.clone(),
            version: copy_optional(&mods[i].version),
            github_pattern: copy_optional(&mods[i].github_pattern),
            install_path: copy_optional(&mods[i].install_path),
            github_filter: copy_optional(&mods[i].github_filter),
        };
        assert(readable(raw) == readable(mods@[i as int]));
        match ModVersionConfiguration::try_from(raw) {
            Ok(entry) => {
                let ghost before = entries@;
                entries.push(entry);
                assert forall|k: int| 0 <= k < i + 1 implies spells(
                    #[trigger] entries@[k],
                    mods@[k],
                ) by {
                    if k < i {
                        assert(entries@[k] == before[k]);
                    }
                }
            },
            Err(e) => {
                return Err(e);
            },
        }
        i += 1;
    }
    Ok(entries)
}

/// The reader of the list of wanted mods.
#[derive(Clone, Debug)]
pub struct ConfigurationAccess {
    mod_cfg_path: String,
}

impl ConfigurationAccess {
    /// The path of the file that is read.
    pub closed spec fn path(&self) -> Seq<char> {
        self.mod_cfg_path@
    }

    /// The reader of the file in the current folder.
    pub fn new() -> (access: Self)
        ensures
            access.path() == "./spt_mods.json"@,
    {
        Self { mod_cfg_path: "./spt_mods.json".to_owned() }
    }

    /// The reader of the file in the game's root folder, which the caller
    /// found to be a folder or not.
    pub fn init(root_path: &str, is_directory: bool) -> (access: Result<Self, ConfigError>)
        ensures
            access is Ok <==> is_directory,
            access matches Ok(a) ==> a.path() == configuration_path(root_path@),
            access matches Err(e) ==> e == ConfigError::NotADirectory,
    {
        if !is_directory {
            return Err(ConfigError::NotADirectory);
        }
        let chars = chars_of(root_path);
        let mod_cfg_path = if chars.len() > 0 && chars[chars.len() - 1] == '/' {
            join_text(root_path, "spt_mods.json")
        } else {
            join_text(root_path, "/spt_mods.json")
        };
        Ok(Self { mod_cfg_path })
    }

    /// The path of the file that is read.
    pub fn mod_cfg_path(&self) -> (path: &str)
        ensures
            path@ == self.path(),
    {
        self.mod_cfg_path.as_str()
    }

    /// Takes what the file spells: the game's version and every entry must
    /// be readable.
    pub fn read_remote_mods(&self, raw: ModConfigurationRaw) -> (configuration: Result<
        ModConfiguration,
        ConfigError,
    >)
        ensures
            configuration is Ok <==> canonical_version(raw.spt_version@) is Some
                && first_unreadable(raw.mods@, 0) >= raw.mods@.len(),
            configuration matches Err(e) ==> e == ConfigError::BadVersion,
            configuration matches Ok(c) ==> Some(c.spt_version@) == canonical_version(
                raw.spt_version@,
            ) && c.mods@.len() == raw.mods@.len() && forall|i: int|
                0 <= i < c.mods@.len() ==> spells(#[trigger] c.mods@[i], raw.mods@[i]),
    {
        let Some(spt_version) = Version::new(raw.spt_version.as_str()) else {
            return Err(ConfigError::BadVersion);
        };
        match read_entries(raw.mods) {
            Ok(mods) => Ok(ModConfiguration { spt_version, mods }),
            Err(e) => Err(e),
        }
    }

    /// Takes the entries of a file that lists nothing but wanted mods; a
    /// file that is not there gives nothing.
    pub fn get_mods_from_path(&self, found: Option<Vec<ModVersionConfigurationRaw>>) -> (entries:
        Result<Option<Vec<ModVersionConfiguration>>, ConfigError>)
        ensures
            found is None ==> entries matches Ok(None),
            found matches Some(mods) ==> {
                &&& entries is Ok <==> first_unreadable(mods@, 0) >= mods@.len()
                &&& entries matches Err(e) ==> e == ConfigError::BadVersion
                &&& entries matches Ok(list) ==> list is Some && list->0@.len() == mods@.len()
                    && forall|i: int|
                    0 <= i < mods@.len() ==> spells(#[trigger] list->0@[i], mods@[i])
            },
    {
        match found {
            None => Ok(None),
            Some(mods) => match read_entries(mods) {
                Ok(entries) => Ok(Some(entries)),
                Err(e) => Err(e),
            },
        }
    }

    /// Spells a configuration for the file.
    pub fn write_remote_mods(&self, mod_configuration: &ModConfiguration) -> (raw:
        ModConfigurationRaw)
        ensures
            raw.spt_version@ == mod_configuration.spt_version@,
            raw.mods@.len() == mod_configuration.mods@.len(),
            forall|i: int|
                0 <= i < raw.mods@.len() ==> {
                    &&& (#[trigger] raw.mods@[i]).url@ == mod_configuration.mods@[i].url@
                    &&& optional_text(raw.mods@[i].github_pattern) == optional_text(
                        mod_configuration.mods@[i].github_pattern,
                    )
                    &&& optional_text(raw.mods@[i].install_path) == optional_text(
                        mod_configuration.mods@[i].install_path,
                    )
                    &&& optional_text(raw.mods@[i].github_filter) == optional_text(
                        mod_configuration.mods@[i].github_filter,
                    )
                    &&& match mod_configuration.mods@[i].version {
                        Some(version) => raw.mods@[i].version is Some && raw.mods@[i].version->0@
                            == version@,
                        None => raw.mods@[i].version is None,
                    }
                },
    {
        let mut mods: Vec<ModVersionConfigurationRaw> = Vec::new();
        let mut i: usize = 0;
        while i < mod_configuration.mods.len()
            invariant
                i <= mod_configuration.mods.len(),
                mods@.len() == i,
                forall|k: int|
                    0 <= k < i ==> {
                        &&& (#[trigger] mods@[k]).url@ == mod_configuration.mods@[k].url@
                        &&& optional_text(mods@[k].github_pattern) == optional_text(
                            mod_configuration.mods@[k].github_pattern,
                        )
                        &&& optional_text(mods@[k].install_path) == optional_text(
                            mod_configuration.mods@[k].install_path,
                        )
                        &&& optional_text(mods@[k].github_filter) == optional_text(
                            mod_configuration.mods@[k].github_filter,
                        )
                        &&& match mod_configuration.mods@[k].version {
                            Some(version) => mods@[k].version is Some && mods@[k].version->0@
                                == version@,
                            None => mods@[k].version is None,
                        }
                    },
            decreases mod_configuration.mods.len() - i,
        {
            let raw = mod_configuration.mods[i].to_raw();
            mods.push(raw);
            i += 1;
        }
        ModConfigurationRaw {
            spt_version: mod_configuration.spt_version.as_str().to_owned(),
            mods,
        }
    }
}

/// The reader of a list of wanted mods at a path of the caller's choice.
#[derive(Clone, Copy, Debug, Default)]
pub struct ConfigManager {}

impl ConfigManager {
    /// A reader.
    pub fn new() -> (manager: Self) {
        Self {  }
    }

    /// Takes the entries of a file; a file that is not there gives nothing.
    pub fn get_mods_from_path(&self, found: Option<Vec<ModVersionConfigurationRaw>>) -> (entries:
        Result<Option<Vec<ModVersionConfiguration>>, ConfigError>)
        ensures
            found is None ==> entries matches Ok(None),
            found matches Some(mods) ==> {
                &&& entries is Ok <==> first_unreadable(mods@, 0) >= mods@.len()
                &&& entries matches Err(e) ==> e == ConfigError::BadVersion
                &&& entries matches Ok(list) ==> list is Some && list->0@.len() == mods@.len()
                    && forall|i: int|
                    0 <= i < mods@.len() ==> spells(#[trigger] list->0@[i], mods@[i])
            },
    {
        match found {
            None => Ok(None),
            Some(mods) => match read_entries(mods) {
                Ok(entries) => Ok(Some(entries)),
                Err(e) => Err(e),
            },
        }
    }
}

} // verus!
