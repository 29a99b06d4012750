//! The setup command: where the credentials and the key file are kept.

use vstd::prelude::*;
use vstd::string::*;
use crate::config::global::{AppleConfig, ConfigError, GlobalConfig};
use crate::home::{expand_tilde_in, tilde_expanded};
use crate::text::{cat, join_path, joined};

verus! {

#[derive(Debug, Clone, PartialEq, Eq)]
pub enum SetupError {
    Io(String),
    Config(String),
    Cancelled,
}

impl SetupError {
    /// The text shown to the user for this error.
    pub open spec fn text(&self) -> Seq<char> {
        match *self {
            SetupError::Io(m) => "IO error: "@ + m@,
            SetupError::Config(m) => "Config error: "@ + m@,
            SetupError::Cancelled => "Setup cancelled"@,
        }
    }

    /// The text shown to the user for this error, as a string.
    pub fn message(&self) -> (r: String)
        ensures
            r@ == self.text(),
    {
        match self {
            SetupError::Io(m) => cat("IO error: ", m.as_str()),
            SetupError::Config(m) => cat("Config error: ", m.as_str()),
            SetupError::Cancelled => String::from_str("Setup cancelled"),
        }
    }
}

/// The name under which the key file of a key id is kept.
pub open spec fn key_file_of(key_id: Seq<char>) -> Seq<char> {
    "AuthKey_"@ + key_id + ".p8"@
}

/// The user's answer to a question that setup cannot go on without.
pub fn confirmed(answer: bool) -> (r: Result<(), SetupError>)
    ensures
        answer ==> r is Ok,
        !answer ==> r matches Err(SetupError::Cancelled),
{
    if answer {
        Ok(())
    } else {
        Err(SetupError::Cancelled)
    }
}

/// The name under which the key file of a key id is kept.
pub fn key_file_name(key_id: &str) -> (r: String)
    ensures
        r@ == key_file_of(key_id@),
{
    let head = cat("AuthKey_", key_id);
    cat(head.as_str(), ".p8")
}

/// The directory for key files inside the configuration directory.
pub fn keys_dir(config_dir: &str) -> (r: String)
    ensures
        r@ == joined(config_dir@, "keys"@),
{
    join_path(config_dir, "keys")
}

/// The key path that is stored: that of the copy inside the configuration
/// directory when the key file was copied there, else the path as entered.
pub fn stored_key_path(copied: bool, key_file: &str, entered: String) -> (r: String)
    ensures
        copied ==> r@ == "~/.launchpad/keys/"@ + key_file@,
        !copied ==> r == entered,
{
    if copied {
        cat("~/.launchpad/keys/", key_file)
    } else {
        entered
    }
}

/// The credentials as they are saved.
pub fn credentials(key_id: String, issuer_id: String, key_path: String) -> (r: GlobalConfig)
    ensures
        r == (GlobalConfig { apple: AppleConfig { key_id, issuer_id, key_path } }),
{
    GlobalConfig { apple: AppleConfig { key_id, issuer_id, key_path } }
}

/// The credentials as the user entered them, with the key path expanded.
#[derive(Debug, Clone, PartialEq, Eq)]
pub struct Entry {
    pub key_id: String,
    pub issuer_id: String,
    pub key_path: String,
    pub expanded: String,
}

/// Where setup stands: what it waits for, and what has been entered.
#[derive(Debug, PartialEq, Eq)]
pub enum SetupState {
    Idle,
    LoadingConfig,
    ConfirmingOverwrite,
    AskingKeyId,
    AskingIssuerId { key_id: String },
    AskingKeyPath { key_id: String, issuer_id: String },
    CheckingKey { entry: Entry },
    ConfirmingMissingKey { entry: Entry },
    CreatingDirs { entry: Entry, key_found: bool, target: String },
    CopyingKey { entry: Entry, target: String },
    CheckingCopy { entry: Entry },
    Saving,
    Diagnosing,
    Done,
    Failed(SetupError),
}

/// What happened outside since the last step. An `Err` with a text holds
/// the message of a prompt or a file operation that failed.
#[derive(Debug, PartialEq, Eq)]
pub enum SetupEvent {
    /// The command was started.
    Started,
    /// Whether a global configuration is in force.
    Loaded(Result<bool, ConfigError>),
    /// The answer to a yes-or-no question.
    Answered(Result<bool, String>),
    /// A text that the user entered.
    Entered(Result<String, String>),
    /// Whether a file is there.
    Found(bool),
    /// Directories were created or a file was copied.
    Written(Result<(), String>),
    /// The configuration was saved.
    Saved(Result<(), ConfigError>),
    /// The diagnostics ran, with whatever result.
    Diagnosed,
}

/// What the caller does next.
#[derive(Debug, PartialEq, Eq)]
pub enum SetupAction {
    /// Load the global configuration. Answer: `Loaded`.
    LoadConfig,
    /// Ask whether to overwrite it. Answer: `Answered`.
    ConfirmOverwrite,
    /// Ask for the key id. Answer: `Entered`.
    AskKeyId,
    /// Ask for the issuer id. Answer: `Entered`.
    AskIssuerId,
    /// Ask for the path of the key file. Answer: `Entered`.
    AskKeyPath,
    /// See whether the key file is at this path. Answer: `Found`.
    CheckKey(String),
    /// Warn that no key file is at this path and ask whether to go on.
    /// Answer: `Answered`.
    ConfirmMissingKey(String),
    /// Create the configuration directory and the directory for keys in it.
    /// Answer: `Written`.
    CreateDirs { config_dir: String, keys_dir: String },
    /// Copy the key file. Answer: `Written`.
    CopyKey { from: String, to: String },
    /// See whether a copy of the key file is at this path. Answer: `Found`.
    CheckCopy(String),
    /// Save the configuration. Answer: `Saved`.
    SaveConfig(GlobalConfig),
    /// Run the diagnostics. Answer: `Diagnosed`.
    Diagnose,
    /// Nothing more: setup is done or has failed.
    Stop,
}

/// The step that ends with an error.
pub open spec fn setup_fails_with(r: Option<(SetupState, SetupAction)>, e: SetupError) -> bool {
    r == Some((SetupState::Failed(e), SetupAction::Stop))
}

/// The place of the copy of a key file inside a configuration directory.
pub open spec fn key_copy_of(config_dir: Seq<char>, key_id: Seq<char>) -> Seq<char> {
    joined(joined(config_dir, "keys"@), key_file_of(key_id))
}

/// The step that follows once the key file is dealt with: the directories
/// are created, unless there is no configuration directory.
pub open spec fn prepares(
    config_dir: Option<String>,
    r: Option<(SetupState, SetupAction)>,
    entry: Entry,
    key_found: bool,
) -> bool {
    match config_dir {
        None => r matches Some((SetupState::Failed(SetupError::Config(m)), SetupAction::Stop))
            && m@ == "Could not determine config directory"@,
        Some(dir) => r matches Some(
            (
                SetupState::CreatingDirs { entry: e, key_found: f, target },
                SetupAction::CreateDirs { config_dir: d, keys_dir },
            ),
        ) && e == entry && f == key_found && target@ == key_copy_of(dir@, entry.key_id@) && d
            == dir && keys_dir@ == joined(dir@, "keys"@),
    }
}

/// The step that looks for the copy of the key file.
pub open spec fn checks_copy(
    r: Option<(SetupState, SetupAction)>,
    entry: Entry,
    target: String,
) -> bool {
    r == Some((SetupState::CheckingCopy { entry }, SetupAction::CheckCopy(target)))
}

/// `r` is the step that setup in `state` takes on `event`, for the given
/// home and configuration directories: the next state and what the caller
/// does next. An event that the state does not wait for gives no step.
/// Declining to overwrite, or to go on without a key file, cancels setup.
pub open spec fn is_setup_step(
    home: Option<String>,
    config_dir: Option<String>,
    state: SetupState,
    event: SetupEvent,
    r: Option<(SetupState, SetupAction)>,
) -> bool {
    match (state, event) {
        (SetupState::Idle, SetupEvent::Started) => r == Some(
            (SetupState::LoadingConfig, SetupAction::LoadConfig),
        ),
        (SetupState::LoadingConfig, SetupEvent::Loaded(loaded)) => match loaded {
            Err(e) => r matches Some((SetupState::Failed(SetupError::Config(m)), SetupAction::Stop))
                && m@ == e.text(),
            Ok(true) => r == Some((SetupState::ConfirmingOverwrite, SetupAction::ConfirmOverwrite)),
            Ok(false) => r == Some((SetupState::AskingKeyId, SetupAction::AskKeyId)),
        },
        (SetupState::ConfirmingOverwrite, SetupEvent::Answered(answer)) => match answer {
            Ok(true) => r == Some((SetupState::AskingKeyId, SetupAction::AskKeyId)),
            Ok(false) => setup_fails_with(r, SetupError::Cancelled),
            Err(m) => setup_fails_with(r, SetupError::Io(m)),
        },
        (SetupState::AskingKeyId, SetupEvent::Entered(entered)) => match entered {
            Ok(key_id) => r == Some(
                (SetupState::AskingIssuerId { key_id }, SetupAction::AskIssuerId),
            ),
            Err(m) => setup_fails_with(r, SetupError::Io(m)),
        },
        (SetupState::AskingIssuerId { key_id }, SetupEvent::Entered(entered)) => match entered {
            Ok(issuer_id) => r == Some(
                (SetupState::AskingKeyPath { key_id, issuer_id }, SetupAction::AskKeyPath),
            ),
            Err(m) => setup_fails_with(r, SetupError::Io(m)),
        },
        (SetupState::AskingKeyPath { key_id, issuer_id }, SetupEvent::Entered(entered)) => {
            match entered {
                Ok(key_path) => r matches Some(
                    (SetupState::CheckingKey { entry }, SetupAction::CheckKey(p)),
                ) && entry.key_id == key_id && entry.issuer_id == issuer_id && entry.key_path
                    == key_path && entry.expanded@ == tilde_expanded(key_path@, home.deep_view())
                    && p == entry.expanded,
                Err(m) => setup_fails_with(r, SetupError::Io(m)),
            }
        },
        (SetupState::CheckingKey { entry }, SetupEvent::Found(found)) => if found {
            prepares(config_dir, r, entry, true)
        } else {
            r == Some(
                (
                    SetupState::ConfirmingMissingKey { entry },
                    SetupAction::ConfirmMissingKey(entry.expanded),
                ),
            )
        },
        (SetupState::ConfirmingMissingKey { entry }, SetupEvent::Answered(answer)) => match answer {
            Ok(true) => prepares(config_dir, r, entry, false),
            Ok(false) => setup_fails_with(r, SetupError::Cancelled),
            Err(m) => setup_fails_with(r, SetupError::Io(m)),
        },
        (SetupState::CreatingDirs { entry, key_found, target }, SetupEvent::Written(result)) => {
            match result {
                Ok(_) => if key_found {
                    r == Some(
                        (
                            SetupState::CopyingKey { entry, target },
                            SetupAction::CopyKey { from: entry.expanded, to: target },
                        ),
                    )
                } else {
                    checks_copy(r, entry, target)
                },
                Err(m) => setup_fails_with(r, SetupError::Io(m)),
            }
        },
        (SetupState::CopyingKey { entry, target }, SetupEvent::Written(result)) => match result {
            Ok(_) => checks_copy(r, entry, target),
            Err(m) => setup_fails_with(r, SetupError::Io(m)),
        },
        (SetupState::CheckingCopy { entry }, SetupEvent::Found(copied)) => {
            r matches Some((SetupState::Saving, SetupAction::SaveConfig(config)))
                && config.apple.key_id == entry.key_id && config.apple.issuer_id == entry.issuer_id
                && config.apple.key_path@ == if copied {
                "~/.launchpad/keys/"@ + key_file_of(entry.key_id@)
            } else {
                entry.key_path@
            }
        },
        (SetupState::Saving, SetupEvent::Saved(result)) => match result {
            Ok(_) => r == Some((SetupState::Diagnosing, SetupAction::Diagnose)),
            Err(e) => r matches Some((SetupState::Failed(SetupError::Config(m)), SetupAction::Stop))
                && m@ == e.text(),
        },
        (SetupState::Diagnosing, SetupEvent::Diagnosed) => r == Some(
            (SetupState::Done, SetupAction::Stop),
        ),
        _ => r is None,
    }
}

fn setup_failed(e: SetupError) -> (r: Option<(SetupState, SetupAction)>)
    ensures
        setup_fails_with(r, e),
{
    Some((SetupState::Failed(e), SetupAction::Stop))
}

fn prepare(config_dir: &Option<String>, entry: Entry, key_found: bool) -> (r: Option<
    (SetupState, SetupAction),
>)
    ensures
        prepares(*config_dir, r, entry, key_found),
{
    match config_dir {
        None => Some(
            (
                SetupState::Failed(
                    SetupError::Config(String::from_str("Could not determine config directory")),
                ),
                SetupAction::Stop,
            ),
        ),
        Some(dir) => {
            let keys = keys_dir(dir.as_str());
            let file = key_file_name(entry.key_id.as_str());
            let target = join_path(keys.as_str(), file.as_str());
            Some(
                (
                    SetupState::CreatingDirs { entry, key_found, target },
                    SetupAction::CreateDirs { config_dir: dir.clone(), keys_dir: keys },
                ),
            )
        },
    }
}

fn check_copy(entry: Entry, target: String) -> (r: Option<(SetupState, SetupAction)>)
    ensures
        checks_copy(r, entry, target),
{
    Some((SetupState::CheckingCopy { entry }, SetupAction::CheckCopy(target)))
}

/// One step of setup: the next state and what the caller does next, for
/// the event that the current state waits for.
pub fn setup_step(
    home: &Option<String>,
    config_dir: &Option<String>,
    state: SetupState,
    event: SetupEvent,
) -> (r: Option<(SetupState, SetupAction)>)
    ensures
        is_setup_step(*home, *config_dir, state, event, r),
{
    match (state, event) {
        (SetupState::Idle, SetupEvent::Started) => Some(
            (SetupState::LoadingConfig, SetupAction::LoadConfig),
        ),
        (SetupState::LoadingConfig, SetupEvent::Loaded(loaded)) => match loaded {
            Err(e) => Some((SetupState::Failed(SetupError::Config(e.message())), SetupAction::Stop)),
            Ok(true) => Some((SetupState::ConfirmingOverwrite, SetupAction::ConfirmOverwrite)),
            Ok(false) => Some((SetupState::AskingKeyId, SetupAction::AskKeyId)),
        },
        (SetupState::ConfirmingOverwrite, SetupEvent::Answered(answer)) => match answer {
            Ok(yes) => match confirmed(yes) {
                Ok(()) => Some((SetupState::AskingKeyId, SetupAction::AskKeyId)),
                Err(_) => setup_failed(SetupError::Cancelled),
            },
            Err(m) => setup_failed(SetupError::Io(m)),
        },
        (SetupState::AskingKeyId, SetupEvent::Entered(entered)) => match entered {
            Ok(key_id) => Some((SetupState::AskingIssuerId { key_id }, SetupAction::AskIssuerId)),
            Err(m) => setup_failed(SetupError::Io(m)),
        },
        (SetupState::AskingIssuerId { key_id }, SetupEvent::Entered(entered)) => match entered {
            Ok(issuer_id) => Some(
                (SetupState::AskingKeyPath { key_id, issuer_id }, SetupAction::AskKeyPath),
            ),
            Err(m) => setup_failed(SetupError::Io(m)),
        },
        (SetupState::AskingKeyPath { key_id, issuer_id }, SetupEvent::Entered(entered)) => {
            match entered {
                Ok(key_path) => {
                    let expanded = expand_tilde_in(key_path.as_str(), home);
                    let shown = expanded.clone();
                    let entry = Entry { key_id, issuer_id, key_path, expanded };
                    Some((SetupState::CheckingKey { entry }, SetupAction::CheckKey(shown)))
                },
                Err(m) => setup_failed(SetupError::Io(m)),
            }
        },
        (SetupState::CheckingKey { entry }, SetupEvent::Found(found)) => {
            if found {
                prepare(config_dir, entry, true)
            } else {
                let shown = entry.expanded.clone();
                Some(
                    (
                        SetupState::ConfirmingMissingKey { entry },
                        SetupAction::ConfirmMissingKey(shown),
                    ),
                )
            }
        },
        (SetupState::ConfirmingMissingKey { entry }, SetupEvent::Answered(answer)) => match answer {
            Ok(yes) => match confirmed(yes) {
                Ok(()) => prepare(config_dir, entry, false),
                Err(_) => setup_failed(SetupError::Cancelled),
            },
            Err(m) => setup_failed(SetupError::Io(m)),
        },
        (SetupState::CreatingDirs { entry, key_found, target }, SetupEvent::Written(result)) => {
            match result {
                Ok(_) => {
                    if key_found {
                        let from = entry.expanded.clone();
                        let to = target.clone();
                        Some(
                            (
                                SetupState::CopyingKey { entry, target },
                                SetupAction::CopyKey { from, to },
                            ),
                        )
                    } else {
                        check_copy(entry, target)
                    }
                },
                Err(m) => setup_failed(SetupError::Io(m)),
            }
        },
        (SetupState::CopyingKey { entry, target }, SetupEvent::Written(result)) => match result {
            Ok(_) => check_copy(entry, target),
            Err(m) => setup_failed(SetupError::Io(m)),
        },
        (SetupState::CheckingCopy { entry }, SetupEvent::Found(copied)) => {
            let file = key_file_name(entry.key_id.as_str());
            let key_path = stored_key_path(copied, file.as_str(), entry.key_path);
            let config = credentials(entry.key_id, entry.issuer_id, key_path);
            Some((SetupState::Saving, SetupAction::SaveConfig(config)))
        },
        (SetupState::Saving, SetupEvent::Saved(result)) => match result {
            Ok(_) => Some((SetupState::Diagnosing, SetupAction::Diagnose)),
            Err(e) => Some((SetupState::Failed(SetupError::Config(e.message())), SetupAction::Stop)),
        },
        (SetupState::Diagnosing, SetupEvent::Diagnosed) => Some(
            (SetupState::Done, SetupAction::Stop),
        ),
        _ => None,
    }
}

/// Nothing is written before every question is answered: directories are
/// created only once the key file was found or the user chose to go on
/// without it.
pub proof fn setup_writes_after_consent(
    home: Option<String>,
    config_dir: Option<String>,
    state: SetupState,
    event: SetupEvent,
    r: Option<(SetupState, SetupAction)>,
)
    requires
        is_setup_step(home, config_dir, state, event, r),
        r matches Some(next) && next.1 is CreateDirs,
    ensures
        (state is CheckingKey && event == SetupEvent::Found(true)) || (state is ConfirmingMissingKey
            && event == SetupEvent::Answered(Ok(true))),
{
}

} // verus!
