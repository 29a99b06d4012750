//! The deploy command: what must hold before a build is started, which lane
//! runs, and what happens with its result.

use vstd::prelude::*;
use vstd::string::*;
use crate::config::global::{ConfigError, GlobalConfig};
use crate::config::project::{ProjectConfig, ProjectConfigError};
use crate::fastlane::{lane_of, Fastlane, FastlaneError};
use crate::home::tilde_expanded;
use crate::text::cat;

verus! {

#[derive(Debug, Clone, PartialEq, Eq)]
pub enum DeployError {
    NoGlobalConfig,
    NoProjectConfig,
    ApiKeyNotFound(String),
    DirtyWorkingDirectory,
    FastlaneFailed(String),
    GitTagFailed(String),
    Io(String),
    Config(String),
}

impl DeployError {
    /// The text shown to the user for this error.
    pub open spec fn text(&self) -> Seq<char> {
        match *self {
            DeployError::NoGlobalConfig => "Global config not found. Run 'launchpad setup' first."@,
            DeployError::NoProjectConfig => "Project config not found. Run 'launchpad init' first."@,
            DeployError::ApiKeyNotFound(p) => "Apple API key not found at: "@ + p@,
            DeployError::DirtyWorkingDirectory => "Git working directory is not clean. Commit or stash changes first."@,
            DeployError::FastlaneFailed(m) => "Fastlane failed: "@ + m@,
            DeployError::GitTagFailed(m) => "Failed to create git tag: "@ + m@,
            DeployError::Io(m) => "IO error: "@ + m@,
            DeployError::Config(m) => "Config error: "@ + m@,
        }
    }

    /// The text shown to the user for this error, as a string.
    pub fn message(&self) -> (r: String)
        ensures
            r@ == self.text(),
    {
        match self {
            DeployError::NoGlobalConfig => String::from_str(
                "Global config not found. Run 'launchpad setup' first.",
            ),
            DeployError::NoProjectConfig => String::from_str(
                "Project config not found. Run 'launchpad init' first.",
            ),
            DeployError::ApiKeyNotFound(p) => cat("Apple API key not found at: ", p.as_str()),
            DeployError::DirtyWorkingDirectory => String::from_str(
                "Git working directory is not clean. Commit or stash changes first.",
            ),
            DeployError::FastlaneFailed(m) => cat("Fastlane failed: ", m.as_str()),
            DeployError::GitTagFailed(m) => cat("Failed to create git tag: ", m.as_str()),
            DeployError::Io(m) => cat("IO error: ", m.as_str()),
            DeployError::Config(m) => cat("Config error: ", m.as_str()),
        }
    }
}

/// What a deploy produced.
#[derive(Debug, Clone, PartialEq, Eq)]
pub struct DeployOutcome {
    pub version: String,
}

/// The working tree has no changes: `git status --porcelain` printed nothing.
pub open spec fn tree_is_clean(porcelain: Seq<u8>) -> bool {
    porcelain.len() == 0
}

/// The name of the tag for a version.
pub open spec fn tag_of(version: Seq<char>) -> Seq<char> {
    "v"@ + version
}

/// The global configuration that a deploy works with: it must have loaded
/// and be present.
pub fn require_global(loaded: Result<Option<GlobalConfig>, ConfigError>) -> (r: Result<
    GlobalConfig,
    DeployError,
>)
    ensures
        match loaded {
            Ok(Some(config)) => r == Ok::<GlobalConfig, DeployError>(config),
            Ok(None) => r == Err::<GlobalConfig, DeployError>(DeployError::NoGlobalConfig),
            Err(e) => r matches Err(DeployError::Config(m)) && m@ == e.text(),
        },
{
    match loaded {
        Ok(Some(config)) => Ok(config),
        Ok(None) => Err(DeployError::NoGlobalConfig),
        Err(e) => Err(DeployError::Config(e.message())),
    }
}

/// The project configuration that a deploy works with: it must have loaded
/// and be present.
pub fn require_project(loaded: Result<Option<ProjectConfig>, ProjectConfigError>) -> (r: Result<
    ProjectConfig,
    DeployError,
>)
    ensures
        match loaded {
            Ok(Some(config)) => r == Ok::<ProjectConfig, DeployError>(config),
            Ok(None) => r == Err::<ProjectConfig, DeployError>(DeployError::NoProjectConfig),
            Err(e) => r matches Err(DeployError::Config(m)) && m@ == e.text(),
        },
{
    match loaded {
        Ok(Some(config)) => Ok(config),
        Ok(None) => Err(DeployError::NoProjectConfig),
        Err(e) => Err(DeployError::Config(e.message())),
    }
}

/// The check of the working tree. It is skipped on request; otherwise any
/// output of `git status --porcelain`, untracked files included, fails it.
pub fn check_git(skip_git_check: bool, porcelain: Result<Vec<u8>, String>) -> (r: Result<
    (),
    DeployError,
>)
    ensures
        skip_git_check ==> r is Ok,
        !skip_git_check ==> match porcelain {
            Ok(out) => if tree_is_clean(out@) {
                r is Ok
            } else {
                r == Err::<(), DeployError>(DeployError::DirtyWorkingDirectory)
            },
            Err(e) => r == Err::<(), DeployError>(DeployError::Io(e)),
        },
{
    if skip_git_check {
        return Ok(());
    }
    match porcelain {
        Ok(out) => {
            if out.len() == 0 {
                Ok(())
            } else {
                Err(DeployError::DirtyWorkingDirectory)
            }
        },
        Err(e) => Err(DeployError::Io(e)),
    }
}

/// `r` is the go-ahead for a build with the given configurations: the
/// invocation of the build tool for them, and the project configuration.
pub open spec fn is_plan_for(
    r: Result<(Fastlane, ProjectConfig), DeployError>,
    g: GlobalConfig,
    p: ProjectConfig,
    home: Option<Seq<char>>,
) -> bool {
    r matches Ok(plan) && plan.1 == p && plan.0.key_id == g.apple.key_id && plan.0.issuer_id
        == g.apple.issuer_id && plan.0.key_path@ == tilde_expanded(g.apple.key_path@, home)
        && plan.0.ios_path == p.project.ios_path && plan.0.scheme == p.project.scheme
}

/// Everything that is checked before the build tool is started, in order:
/// the global configuration, the project configuration, the key file at its
/// expanded path, and the working tree. `key_exists` says whether a file is
/// at the key path of the global configuration, expanded against `home`.
/// The invocation of the build tool comes back only when every check
/// passed, so a failed check means that no build is started.
pub fn validate(
    global: Result<Option<GlobalConfig>, ConfigError>,
    project: Result<Option<ProjectConfig>, ProjectConfigError>,
    home: &Option<String>,
    key_exists: bool,
    skip_git_check: bool,
    porcelain: Result<Vec<u8>, String>,
) -> (r: Result<(Fastlane, ProjectConfig), DeployError>)
    ensures
        match global {
            Err(e) => r matches Err(DeployError::Config(m)) && m@ == e.text(),
            Ok(None) => r matches Err(DeployError::NoGlobalConfig),
            Ok(Some(g)) => match project {
                Err(e) => r matches Err(DeployError::Config(m)) && m@ == e.text(),
                Ok(None) => r matches Err(DeployError::NoProjectConfig),
                Ok(Some(p)) => if !key_exists {
                    r matches Err(DeployError::ApiKeyNotFound(path)) && path@ == tilde_expanded(
                        g.apple.key_path@,
                        home.deep_view(),
                    )
                } else if skip_git_check {
                    is_plan_for(r, g, p, home.deep_view())
                } else {
                    match porcelain {
                        Err(e) => r matches Err(DeployError::Io(m)) && m == e,
                        Ok(out) => if tree_is_clean(out@) {
                            is_plan_for(r, g, p, home.deep_view())
                        } else {
                            r matches Err(DeployError::DirtyWorkingDirectory)
                        },
                    }
                },
            },
        },
        !skip_git_check && (porcelain matches Ok(out) && !tree_is_clean(out@)) ==> r is Err,
{
    let global_config = match require_global(global) {
        Ok(config) => config,
        Err(e) => {
            return Err(e);
        },
    };
    let project_config = match require_project(project) {
        Ok(config) => config,
        Err(e) => {
            return Err(e);
        },
    };
    let fastlane = Fastlane::with_home(&global_config, &project_config, home);
    if !key_exists {
        return Err(DeployError::ApiKeyNotFound(fastlane.key_path));
    }
    match check_git(skip_git_check, porcelain) {
        Ok(()) => {},
        Err(e) => {
            return Err(e);
        },
    }
    Ok((fastlane, project_config))
}

/// The version bump that the flags ask for; `patch` wins over `minor`.
pub open spec fn bump_of(patch: bool, minor: bool) -> Option<Seq<char>> {
    if patch {
        Some("patch"@)
    } else if minor {
        Some("minor"@)
    } else {
        None
    }
}

/// The version bump that the flags ask for; `patch` wins over `minor`.
pub fn version_bump(patch: bool, minor: bool) -> (r: Option<&'static str>)
    ensures
        match r {
            Some(b) => bump_of(patch, minor) == Some(b@),
            None => bump_of(patch, minor) is None,
        },
{
    if patch {
        Some("patch")
    } else if minor {
        Some("minor")
    } else {
        None
    }
}

/// Whether a tag is created after a deploy: the project asks for it and the
/// caller did not decline.
pub fn should_tag(no_tag: bool, project_config: &ProjectConfig) -> (r: bool)
    ensures
        r == (!no_tag && project_config.deploy.git_tag),
{
    !no_tag && project_config.deploy.git_tag
}

/// The name of the tag for a version.
pub fn tag_name(version: &str) -> (r: String)
    ensures
        r@ == tag_of(version@),
{
    cat("v", version)
}

/// The message of the annotated tag with the given name.
pub fn tag_message(tag: &str) -> (r: String)
    ensures
        r@ == "Release "@ + tag@,
{
    cat("Release ", tag)
}

/// The result of a `git` call that tags or pushes: a failure carries what
/// the command printed on its error stream.
pub fn git_outcome(success: bool, stderr: String) -> (r: Result<(), DeployError>)
    ensures
        success ==> r is Ok,
        !success ==> r == Err::<(), DeployError>(DeployError::GitTagFailed(stderr)),
{
    if success {
        Ok(())
    } else {
        Err(DeployError::GitTagFailed(stderr))
    }
}

/// What the caller asked of a deploy.
#[derive(Debug, Clone, Copy, PartialEq, Eq)]
pub struct DeployFlags {
    pub patch: bool,
    pub minor: bool,
    pub no_tag: bool,
    pub skip_git_check: bool,
}

/// Where a deploy stands.
#[derive(Debug, Clone, PartialEq, Eq)]
pub enum DeployState {
    /// Nothing has happened yet.
    Idle,
    /// The configurations, the key file and the working tree are checked.
    Validating,
    /// The build tool runs.
    BuildingAndUploading { project: ProjectConfig },
    /// The tag for the uploaded version is created; `push` says whether it
    /// is pushed afterwards.
    Tagging { version: String, push: bool },
    /// The tags are pushed.
    Pushing { version: String },
    /// The deploy succeeded.
    Done(DeployOutcome),
    /// The deploy failed.
    Failed(DeployError),
}

/// What happened outside since the last step.
#[derive(Debug, PartialEq, Eq)]
pub enum DeployEvent {
    /// The command was started.
    Started,
    /// Validation came to this result.
    Validated(Result<(Fastlane, ProjectConfig), DeployError>),
    /// The build tool exited with this result.
    Built(Result<String, FastlaneError>),
    /// Creating the tag came to this result.
    Tagged(Result<(), DeployError>),
    /// Pushing the tags came to this result.
    Pushed(Result<(), DeployError>),
}

/// What the caller does next.
#[derive(Debug, Clone, PartialEq, Eq)]
pub enum DeployAction {
    /// Gather what validation looks at and validate.
    Validate,
    /// Start the build tool with this lane.
    Build { fastlane: Fastlane, lane: String },
    /// Create an annotated tag.
    CreateTag { tag: String, message: String },
    /// Push the tags to the remote.
    PushTags,
    /// Nothing more: the deploy is done or has failed.
    Stop,
}

/// `r` is the step that a deploy in `state` takes on `event`: the next state
/// and what the caller does next. An event that the state does not wait for
/// gives no step. The build starts only after a successful validation; a
/// tag is created only where the project asks for it and the caller did not
/// decline; and once the build succeeded nothing fails the deploy any more.
pub open spec fn is_step(
    flags: DeployFlags,
    state: DeployState,
    event: DeployEvent,
    r: Option<(DeployState, DeployAction)>,
) -> bool {
    match (state, event) {
        (DeployState::Idle, DeployEvent::Started) => r == Some(
            (DeployState::Validating, DeployAction::Validate),
        ),
        (DeployState::Validating, DeployEvent::Validated(Ok(plan))) => {
            r matches Some((DeployState::BuildingAndUploading { project }, DeployAction::Build {
                fastlane,
                lane,
            })) && project == plan.1 && fastlane == plan.0 && lane@ == lane_of(
                bump_of(flags.patch, flags.minor),
            )
        },
        (DeployState::Validating, DeployEvent::Validated(Err(e))) => r == Some(
            (DeployState::Failed(e), DeployAction::Stop),
        ),
        (DeployState::BuildingAndUploading { project }, DeployEvent::Built(Ok(v))) => {
            if !flags.no_tag && project.deploy.git_tag {
                r matches Some((DeployState::Tagging { version, push }, DeployAction::CreateTag {
                    tag,
                    message,
                })) && version == v && push == project.deploy.push_tags && tag@ == tag_of(v@)
                    && message@ == "Release "@ + tag_of(v@)
            } else {
                r == Some((DeployState::Done(DeployOutcome { version: v }), DeployAction::Stop))
            }
        },
        (DeployState::BuildingAndUploading { .. }, DeployEvent::Built(Err(e))) => {
            r matches Some((DeployState::Failed(DeployError::FastlaneFailed(m)), DeployAction::Stop))
                && m@ == e.text()
        },
        (DeployState::Tagging { version, push }, DeployEvent::Tagged(result)) => {
            if push && result is Ok {
                r == Some((DeployState::Pushing { version }, DeployAction::PushTags))
            } else {
                r == Some((DeployState::Done(DeployOutcome { version }), DeployAction::Stop))
            }
        },
        (DeployState::Pushing { version }, DeployEvent::Pushed(_)) => r == Some(
            (DeployState::Done(DeployOutcome { version }), DeployAction::Stop),
        ),
        _ => r is None,
    }
}

/// One step of a deploy: the next state and what the caller does next, for
/// the event that the current state waits for.
pub fn step(flags: &DeployFlags, state: DeployState, event: DeployEvent) -> (r: Option<
    (DeployState, DeployAction),
>)
    ensures
        is_step(*flags, state, event, r),
{
    match (state, event) {
        (DeployState::Idle, DeployEvent::Started) => Some(
            (DeployState::Validating, DeployAction::Validate),
        ),
        (DeployState::Validating, DeployEvent::Validated(Ok(plan))) => {
            let lane = String::from_str(Fastlane::lane(version_bump(flags.patch, flags.minor)));
            let (fastlane, project) = plan;
            Some(
                (
                    DeployState::BuildingAndUploading { project },
                    DeployAction::Build { fastlane, lane },
                ),
            )
        },
        (DeployState::Validating, DeployEvent::Validated(Err(e))) => Some(
            (DeployState::Failed(e), DeployAction::Stop),
        ),
        (DeployState::BuildingAndUploading { project }, DeployEvent::Built(Ok(version))) => {
            if should_tag(flags.no_tag, &project) {
                let tag = tag_name(version.as_str());
                let message = tag_message(tag.as_str());
                let push = project.deploy.push_tags;
                Some((DeployState::Tagging { version, push }, DeployAction::CreateTag { tag, message }))
            } else {
                Some((DeployState::Done(DeployOutcome { version }), DeployAction::Stop))
            }
        },
        (DeployState::BuildingAndUploading { .. }, DeployEvent::Built(Err(e))) => Some(
            (DeployState::Failed(DeployError::FastlaneFailed(e.message())), DeployAction::Stop),
        ),
        (DeployState::Tagging { version, push }, DeployEvent::Tagged(result)) => {
            if push && result.is_ok() {
                Some((DeployState::Pushing { version }, DeployAction::PushTags))
            } else {
                Some((DeployState::Done(DeployOutcome { version }), DeployAction::Stop))
            }
        },
        (DeployState::Pushing { version }, DeployEvent::Pushed(_)) => Some(
            (DeployState::Done(DeployOutcome { version }), DeployAction::Stop),
        ),
        _ => None,
    }
}

/// The build tool is started only on the news that validation succeeded.
pub proof fn build_follows_validation(
    flags: DeployFlags,
    state: DeployState,
    event: DeployEvent,
    r: Option<(DeployState, DeployAction)>,
)
    requires
        is_step(flags, state, event, r),
        r matches Some(next) && next.1 is Build,
    ensures
        state is Validating,
        event matches DeployEvent::Validated(Ok(_)),
{
}

/// A validation that failed, be it for a working tree that is not clean,
/// ends the deploy with that error, and nothing is started.
pub proof fn failed_validation_stops(
    flags: DeployFlags,
    error: DeployError,
    r: Option<(DeployState, DeployAction)>,
)
    requires
        is_step(flags, DeployState::Validating, DeployEvent::Validated(Err(error)), r),
    ensures
        r == Some((DeployState::Failed(error), DeployAction::Stop)),
{
}

/// A tag is created only after a successful build, where the project asks
/// for tags and the caller did not decline; its name is the version behind
/// a `v`.
pub proof fn tag_needs_consent(
    flags: DeployFlags,
    state: DeployState,
    event: DeployEvent,
    r: Option<(DeployState, DeployAction)>,
)
    requires
        is_step(flags, state, event, r),
        r matches Some(next) && next.1 is CreateTag,
    ensures
        !flags.no_tag,
        state matches DeployState::BuildingAndUploading { project } && project.deploy.git_tag,
        event matches DeployEvent::Built(Ok(v)) && (r matches Some(
            (_, DeployAction::CreateTag { tag, .. }),
        ) && tag@ == tag_of(v@)),
{
}

/// Once the build has succeeded the deploy cannot fail: whether or not the
/// tag could be created or pushed, it ends with the version that was built.
pub proof fn tagging_never_fails(
    flags: DeployFlags,
    state: DeployState,
    event: DeployEvent,
    r: Option<(DeployState, DeployAction)>,
)
    requires
        is_step(flags, state, event, r),
        state is Tagging || state is Pushing,
        r is Some,
    ensures
        match r {
            Some((next, _)) => match state {
                DeployState::Tagging { version, .. } => next == (DeployState::Pushing { version })
                    || next == DeployState::Done(DeployOutcome { version }),
                DeployState::Pushing { version } => next == DeployState::Done(DeployOutcome { version }),
                _ => true,
            },
            None => true,
        },
{
}

} // verus!
