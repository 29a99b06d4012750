//! Machine-wide App Store Connect credentials.

use vstd::prelude::*;
use vstd::string::*;
use crate::config::ConfigFile;
use crate::home::home_dir;
use crate::text::{cat, join_path, joined};

verus! {

#[derive(Debug, Clone, PartialEq, Eq)]
pub enum ConfigError {
    Io(String),
    TomlParse(String),
    TomlSerialize(String),
    NoConfigDir,
}

impl ConfigError {
    /// The text shown to the user for this error.
    pub open spec fn text(&self) -> Seq<char> {
        match *self {
            ConfigError::Io(m) => "IO error: "@ + m@,
            ConfigError::TomlParse(m) => "TOML parse error: "@ + m@,
            ConfigError::TomlSerialize(m) => "TOML serialize error: "@ + m@,
            ConfigError::NoConfigDir => "Could not determine config directory"@,
        }
    }

    /// The text shown to the user for this error, as a string.
    pub fn message(&self) -> (r: String)
        ensures
            r@ == self.text(),
    {
        match self {
            ConfigError::Io(m) => cat("IO error: ", m.as_str()),
            ConfigError::TomlParse(m) => cat("TOML parse error: ", m.as_str()),
            ConfigError::TomlSerialize(m) => cat("TOML serialize error: ", m.as_str()),
            ConfigError::NoConfigDir => String::from_str("Could not determine config directory"),
        }
    }
}

#[derive(Debug, Clone, PartialEq, Eq)]
pub struct AppleConfig {
    pub key_id: String,
    pub issuer_id: String,
    pub key_path: String,
}

#[derive(Debug, Clone, PartialEq, Eq)]
pub struct GlobalConfig {
    pub apple: AppleConfig,
}

/// The configuration directory: the override when one is set, else
/// `.launchpad` under the home directory, if that is known.
pub open spec fn config_dir_of(override_dir: Option<Seq<char>>, home: Option<Seq<char>>) -> Option<
    Seq<char>,
> {
    match override_dir {
        Some(d) => Some(d),
        None => match home {
            Some(h) => Some(joined(h, ".launchpad"@)),
            None => None,
        },
    }
}

/// The configuration file inside the configuration directory.
pub open spec fn config_path_of(dir: Option<Seq<char>>) -> Option<Seq<char>> {
    match dir {
        Some(d) => Some(joined(d, "config.toml"@)),
        None => None,
    }
}

/// What a configuration file gives: nothing when it is absent, its contents
/// when it parsed, and an error otherwise. `None` stands for a configuration
/// directory that could not be determined.
pub open spec fn loaded_from(file: Option<ConfigFile<GlobalConfig>>) -> Result<
    Option<GlobalConfig>,
    ConfigError,
> {
    match file {
        None => Err(ConfigError::NoConfigDir),
        Some(ConfigFile::Absent) => Ok(None),
        Some(ConfigFile::Unreadable(m)) => Err(ConfigError::Io(m)),
        Some(ConfigFile::Malformed(m)) => Err(ConfigError::TomlParse(m)),
        Some(ConfigFile::Parsed(c)) => Ok(Some(c)),
    }
}

impl GlobalConfig {
    /// The configuration directory for a given override and home directory.
    pub fn config_dir_from(override_dir: Option<String>, home: Option<String>) -> (r: Option<
        String,
    >)
        ensures
            r.deep_view() == config_dir_of(override_dir.deep_view(), home.deep_view()),
    {
        match override_dir {
            Some(d) => Some(d),
            None => match home {
                Some(h) => Some(join_path(h.as_str(), ".launchpad")),
                None => None,
            },
        }
    }

    /// The configuration directory: `override_dir` when it is set, else
    /// `.launchpad` under the home directory of the current user.
    pub fn config_dir(override_dir: Option<String>) -> (r: Option<String>)
        ensures
            override_dir is Some ==> r.deep_view() == override_dir.deep_view(),
            exists|home: Option<Seq<char>>|
                r.deep_view() == #[trigger] config_dir_of(override_dir.deep_view(), home),
    {
        match override_dir {
            Some(d) => {
                let r = Self::config_dir_from(Some(d), None);
                assert(r.deep_view() == config_dir_of(override_dir.deep_view(), None));
                r
            },
            None => {
                let home = home_dir();
                Self::config_dir_from(None, home)
            },
        }
    }

    /// The configuration file inside a given configuration directory.
    pub fn config_path_in(dir: Option<String>) -> (r: Option<String>)
        ensures
            r.deep_view() == config_path_of(dir.deep_view()),
    {
        match dir {
            Some(d) => Some(join_path(d.as_str(), "config.toml")),
            None => None,
        }
    }

    /// The configuration file: `config.toml` inside the configuration
    /// directory.
    pub fn config_path(override_dir: Option<String>) -> (r: Option<String>)
        ensures
            override_dir is Some ==> r.deep_view() == Some(
                joined(override_dir.deep_view()->0, "config.toml"@),
            ),
            exists|home: Option<Seq<char>>|
                r.deep_view() == config_path_of(
                    #[trigger] config_dir_of(override_dir.deep_view(), home),
                ),
    {
        Self::config_path_in(Self::config_dir(override_dir))
    }

    /// The credentials that three environment variables give: all three must
    /// be set.
    pub fn from_env(
        key_id: Option<String>,
        issuer_id: Option<String>,
        key_path: Option<String>,
    ) -> (r: Option<GlobalConfig>)
        ensures
            r == if key_id is Some && issuer_id is Some && key_path is Some {
                Some(
                    (GlobalConfig {
                        apple: AppleConfig {
                            key_id: key_id->0,
                            issuer_id: issuer_id->0,
                            key_path: key_path->0,
                        },
                    }),
                )
            } else {
                None
            },
    {
        match (key_id, issuer_id, key_path) {
            (Some(key_id), Some(issuer_id), Some(key_path)) => Some(
                GlobalConfig { apple: AppleConfig { key_id, issuer_id, key_path } },
            ),
            _ => None,
        }
    }

    /// The credentials that a configuration file gives.
    pub fn from_file(file: Option<ConfigFile<GlobalConfig>>) -> (r: Result<
        Option<GlobalConfig>,
        ConfigError,
    >)
        ensures
            r == loaded_from(file),
    {
        match file {
            None => Err(ConfigError::NoConfigDir),
            Some(ConfigFile::Absent) => Ok(None),
            Some(ConfigFile::Unreadable(m)) => Err(ConfigError::Io(m)),
            Some(ConfigFile::Malformed(m)) => Err(ConfigError::TomlParse(m)),
            Some(ConfigFile::Parsed(c)) => Ok(Some(c)),
        }
    }

    /// The credentials in force. When all three environment variables are
    /// set they alone decide, whatever the file holds; otherwise the file
    /// decides, and its absence is not an error.
    pub fn load(
        key_id: Option<String>,
        issuer_id: Option<String>,
        key_path: Option<String>,
        file: Option<ConfigFile<GlobalConfig>>,
    ) -> (r: Result<Option<GlobalConfig>, ConfigError>)
        ensures
            key_id is Some && issuer_id is Some && key_path is Some ==> r == Ok::<
                Option<GlobalConfig>,
                ConfigError,
            >(
                Some(
                    (GlobalConfig {
                        apple: AppleConfig {
                            key_id: key_id->0,
                            issuer_id: issuer_id->0,
                            key_path: key_path->0,
                        },
                    }),
                ),
            ),
            !(key_id is Some && issuer_id is Some && key_path is Some) ==> r == loaded_from(file),
    {
        match Self::from_env(key_id, issuer_id, key_path) {
            Some(config) => Ok(Some(config)),
            None => Self::from_file(file),
        }
    }
}

} // verus!
