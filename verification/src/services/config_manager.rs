//! Where the settings are kept, and what is made of what is found there.
//!
//! Reading and writing the file is the caller's part. The manager names the
//! place and turns what the caller found into the settings to run with.

use vstd::prelude::*;
use vstd::string::StringExecFns;
use std::path::PathBuf;
use crate::models::config::UserConfig;

verus! {

/// `std::path::PathBuf`: a path of the file system. The library carries such
/// a value through and never looks inside.
#[verifier::external_type_specification]
#[verifier::external_body]
pub struct ExPathBuf(PathBuf);

/// The path that `std::path::Path::join` makes of `base` and `name`.
pub uninterp spec fn joined_path(base: PathBuf, name: Seq<char>) -> PathBuf;

/// Calls `std::path::Path::join` on `base` with `name`. Nothing is proved of
/// it. The contract gives the result its name and claims no more than that
/// the same base and name always join to the same path.
#[verifier::external_body]
fn join_path(base: &PathBuf, name: &str) -> (joined: PathBuf)
    ensures
        joined == joined_path(*base, name@),
{
    base.join(name)
}

/// The directory, under the user's configuration directory, that holds the
/// settings file.
pub open spec fn app_dir_name() -> Seq<char> {
    seq!['p', 'e', 'r', 'c', 'h']
}

/// The name of the settings file.
pub open spec fn config_file_name() -> Seq<char> {
    seq!['p', 'e', 'r', 'c', 'h', '.', 't', 'o', 'm', 'l']
}

/// Why the settings could not be located or kept.
#[derive(Debug, Clone, PartialEq, Eq)]
pub enum ConfigError {
    /// The platform names no per-user configuration directory.
    PathResolution,
    /// Reading or writing the settings file failed; the text says how.
    Io(String),
}

impl ConfigError {
    /// What to tell the user.
    pub open spec fn spec_message(self) -> Seq<char> {
        match self {
            ConfigError::PathResolution => "Could not find config directory"@,
            ConfigError::Io(detail) => detail@,
        }
    }

    /// What to tell the user: a fixed sentence where no directory was found,
    /// else the text the failure came with.
    pub fn message(&self) -> (text: String)
        ensures
            text@ == self.spec_message(),
    {
        match self {
            ConfigError::PathResolution => String::from_str("Could not find config directory"),
            ConfigError::Io(detail) => detail.clone(),
        }
    }
}

/// What was found at the settings path.
#[derive(Debug, Clone, Copy, PartialEq, Eq, Structural)]
pub enum Stored {
    /// No file is there.
    Missing,
    /// A file is there, and it does not hold settings of the known shape.
    Malformed,
    /// A file is there and holds these settings.
    Parsed(UserConfig),
}

/// The settings store of one path.
pub struct ConfigManager {
    config_path: PathBuf,
}

impl ConfigManager {
    /// The path of the settings file.
    pub closed spec fn path(self) -> PathBuf {
        self.config_path
    }

    /// The settings to run with, given what was found: the settings found, or
    /// the defaults where none were.
    pub open spec fn spec_load(stored: Stored) -> UserConfig {
        match stored {
            Stored::Parsed(config) => config,
            _ => UserConfig::spec_default(),
        }
    }

    pub fn new(config_path: PathBuf) -> (manager: ConfigManager)
        ensures
            manager.path() == config_path,
    {
        ConfigManager { config_path }
    }

    pub fn config_path(&self) -> (path: &PathBuf)
        ensures
            *path == self.path(),
    {
        &self.config_path
    }

    /// The conventional place of the settings file below the user's
    /// configuration directory. Fails only where the platform has no such
    /// directory.
    pub fn default_path(config_dir: Option<PathBuf>) -> (path: Result<PathBuf, ConfigError>)
        ensures
            config_dir is None ==> path == Err::<PathBuf, ConfigError>(ConfigError::PathResolution),
            config_dir matches Some(dir) ==> path == Ok::<PathBuf, ConfigError>(
                joined_path(joined_path(dir, app_dir_name()), config_file_name()),
            ),
    {
        match config_dir {
            None => Err(ConfigError::PathResolution),
            Some(dir) => {
                proof {
                    reveal_strlit("perch");
                    reveal_strlit("perch.toml");
                    assert("perch"@ =~= app_dir_name());
                    assert("perch.toml"@ =~= config_file_name());
                }
                let app_dir = join_path(&dir, "perch");
                Ok(join_path(&app_dir, "perch.toml"))
            },
        }
    }

    /// Settles on the settings to run with. A missing file and a file that
    /// cannot be read as settings both give the defaults; neither is an error.
    pub fn load(&self, stored: Stored) -> (config: UserConfig)
        ensures
            config == Self::spec_load(stored),
            stored is Missing ==> config == UserConfig::spec_default(),
            stored is Malformed ==> config == UserConfig::spec_default(),
            stored matches Stored::Parsed(found) ==> config == found,
    {
        match stored {
            Stored::Parsed(config) => config,
            _ => UserConfig::default(),
        }
    }
}

} // verus!
