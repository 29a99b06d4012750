//! Per-repository deployment settings.

use vstd::prelude::*;
use vstd::string::*;
use crate::config::ConfigFile;
use crate::text::cat;

verus! {

/// The name of the project configuration file, in the repository root.
pub const CONFIG_FILENAME: &'static str = ".launchpad.toml";

#[derive(Debug, Clone, PartialEq, Eq)]
pub enum ProjectConfigError {
    Io(String),
    TomlParse(String),
    TomlSerialize(String),
}

impl ProjectConfigError {
    /// The text shown to the user for this error.
    pub open spec fn text(&self) -> Seq<char> {
        match *self {
            ProjectConfigError::Io(m) => "IO error: "@ + m@,
            ProjectConfigError::TomlParse(m) => "TOML parse error: "@ + m@,
            ProjectConfigError::TomlSerialize(m) => "TOML serialize error: "@ + m@,
        }
    }

    /// The text shown to the user for this error, as a string.
    pub fn message(&self) -> (r: String)
        ensures
            r@ == self.text(),
    {
        match self {
            ProjectConfigError::Io(m) => cat("IO error: ", m.as_str()),
            ProjectConfigError::TomlParse(m) => cat("TOML parse error: ", m.as_str()),
            ProjectConfigError::TomlSerialize(m) => cat("TOML serialize error: ", m.as_str()),
        }
    }
}

#[derive(Debug, Clone, PartialEq, Eq)]
pub struct ProjectConfig {
    pub project: ProjectSettings,
    pub deploy: DeploySettings,
}

#[derive(Debug, Clone, PartialEq, Eq)]
pub struct ProjectSettings {
    pub ios_path: String,
    pub scheme: String,
    pub bundle_id: String,
}

#[derive(Debug, Clone, PartialEq, Eq)]
pub struct DeploySettings {
    pub git_tag: bool,
    pub push_tags: bool,
    pub clean_artifacts: bool,
}

/// The value of a deploy setting that the file leaves out.
pub fn default_true() -> (r: bool)
    ensures
        r,
{
    true
}

impl Default for DeploySettings {
    fn default() -> (r: Self)
        ensures
            r == (DeploySettings { git_tag: true, push_tags: true, clean_artifacts: true }),
    {
        DeploySettings {
            git_tag: default_true(),
            push_tags: default_true(),
            clean_artifacts: default_true(),
        }
    }
}

impl DeploySettings {
    /// The deploy settings for what a file states: a setting that it leaves
    /// out is enabled.
    pub fn from_options(
        git_tag: Option<bool>,
        push_tags: Option<bool>,
        clean_artifacts: Option<bool>,
    ) -> (r: Self)
        ensures
            r.git_tag == (git_tag != Some(false)),
            r.push_tags == (push_tags != Some(false)),
            r.clean_artifacts == (clean_artifacts != Some(false)),
    {
        DeploySettings {
            git_tag: match git_tag {
                Some(b) => b,
                None => default_true(),
            },
            push_tags: match push_tags {
                Some(b) => b,
                None => default_true(),
            },
            clean_artifacts: match clean_artifacts {
                Some(b) => b,
                None => default_true(),
            },
        }
    }
}

/// What a project file gives: nothing when it is absent, its contents when
/// it parsed, and an error otherwise.
pub open spec fn project_loaded_from(file: ConfigFile<ProjectConfig>) -> Result<
    Option<ProjectConfig>,
    ProjectConfigError,
> {
    match file {
        ConfigFile::Absent => Ok(None),
        ConfigFile::Unreadable(m) => Err(ProjectConfigError::Io(m)),
        ConfigFile::Malformed(m) => Err(ProjectConfigError::TomlParse(m)),
        ConfigFile::Parsed(c) => Ok(Some(c)),
    }
}

impl ProjectConfig {
    /// The settings that the project file gives.
    pub fn load(file: ConfigFile<ProjectConfig>) -> (r: Result<
        Option<ProjectConfig>,
        ProjectConfigError,
    >)
        ensures
            r == project_loaded_from(file),
    {
        match file {
            ConfigFile::Absent => Ok(None),
            ConfigFile::Unreadable(m) => Err(ProjectConfigError::Io(m)),
            ConfigFile::Malformed(m) => Err(ProjectConfigError::TomlParse(m)),
            ConfigFile::Parsed(c) => Ok(Some(c)),
        }
    }
}

} // verus!
