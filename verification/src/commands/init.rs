//! The init command: the decisions that lead from a bare repository to a
//! project configuration.

use vstd::prelude::*;
use vstd::string::*;
use crate::config::project::{DeploySettings, ProjectConfig, ProjectSettings};
use crate::fastlane::{fastfile_candidates, fastfile_paths, first_existing, first_set};
use crate::templates::{generate_fastfile, FASTFILE_TEMPLATE, SCHEME_PLACEHOLDER};
use crate::text::{cat, contains, ends_with, has_substring, has_suffix, replaced};
use crate::xcode::XcodeError;

verus! {

#[derive(Debug, Clone, PartialEq, Eq)]
pub enum InitError {
    NoIosProject,
    NoSchemeDetected,
    AlreadyInitialized,
    Io(String),
    Xcode(String),
    FastlaneInstallFailed,
    UserCancelled,
}

impl InitError {
    /// The text shown to the user for this error.
    pub open spec fn text(&self) -> Seq<char> {
        match *self {
            InitError::NoIosProject => "No iOS project found in current directory"@,
            InitError::NoSchemeDetected => "Could not detect Xcode scheme. Use --scheme to specify."@,
            InitError::AlreadyInitialized => ".launchpad.toml already exists. Delete it first to reinitialize."@,
            InitError::Io(m) => "IO error: "@ + m@,
            InitError::Xcode(m) => "Xcode error: "@ + m@,
            InitError::FastlaneInstallFailed => "fastlane installation failed"@,
            InitError::UserCancelled => "User cancelled"@,
        }
    }

    /// The text shown to the user for this error, as a string.
    pub fn message(&self) -> (r: String)
        ensures
            r@ == self.text(),
    {
        match self {
            InitError::NoIosProject => String::from_str("No iOS project found in current directory"),
            InitError::NoSchemeDetected => String::from_str(
                "Could not detect Xcode scheme. Use --scheme to specify.",
            ),
            InitError::AlreadyInitialized => String::from_str(
                ".launchpad.toml already exists. Delete it first to reinitialize.",
            ),
            InitError::Io(m) => cat("IO error: ", m.as_str()),
            InitError::Xcode(m) => cat("Xcode error: ", m.as_str()),
            InitError::FastlaneInstallFailed => String::from_str("fastlane installation failed"),
            InitError::UserCancelled => String::from_str("User cancelled"),
        }
    }
}

/// What to do about the build tool before a project is set up.
#[derive(PartialEq, Eq, Structural, Clone, Copy, Debug)]
pub enum InstallStep {
    /// It is installed: go on.
    Ready,
    /// It is missing and is installed without asking.
    Install,
    /// It is missing and the user decides.
    Ask,
}

/// How a value is settled that the user may be asked for.
#[derive(Debug, Clone, PartialEq, Eq)]
pub enum Choice {
    /// The value is settled.
    Use(String),
    /// The user is asked; for a scheme among those found, for a bundle
    /// identifier with this default.
    Ask(String),
}

/// What to do about the lane file.
#[derive(Debug, Clone, PartialEq, Eq)]
pub enum FastfileStep {
    /// One exists at this path.
    Found(String),
    /// None exists and one is written without asking.
    Create,
    /// None exists and the user decides.
    Ask,
}

/// A directory entry that names a workspace or a project.
pub open spec fn is_container_name(name: Seq<char>) -> bool {
    has_suffix(name, ".xcworkspace"@) || has_suffix(name, ".xcodeproj"@)
}

/// A directory with these entries holds a workspace or a project.
pub open spec fn holds_container(names: Seq<Seq<char>>) -> bool {
    exists|i: int| 0 <= i < names.len() && is_container_name(#[trigger] names[i])
}

/// The directories in which an iOS project is looked for, in order.
pub open spec fn ios_candidates_spec() -> Seq<Seq<char>> {
    seq!["ios"@, "."@, "App"@, "app"@]
}

/// The first candidate directory at or after position `from` that holds a
/// workspace or a project, given the entries of each candidate.
pub open spec fn detected_from(listings: Seq<Seq<Seq<char>>>, from: int) -> Option<Seq<char>>
    decreases 4 - from,
{
    if from < 0 || from >= 4 || from >= listings.len() {
        None
    } else if holds_container(listings[from]) {
        Some(ios_candidates_spec()[from])
    } else {
        detected_from(listings, from + 1)
    }
}

/// The entries of each listing, as texts.
pub open spec fn listing_texts(listings: Seq<Vec<String>>) -> Seq<Seq<Seq<char>>> {
    Seq::new(listings.len(), |i: int| listings[i].deep_view())
}

/// The text that the ignore file gets when the project file is added to it.
pub open spec fn ignoring_config(content: Seq<char>) -> Seq<char> {
    content + "\n.launchpad.toml\n"@
}

/// The first thing `init` decides: a project that has a configuration is
/// never set up again, whatever else was asked for.
pub fn ensure_uninitialized(config_exists: bool) -> (r: Result<(), InitError>)
    ensures
        config_exists ==> r matches Err(InitError::AlreadyInitialized),
        !config_exists ==> r is Ok,
{
    if config_exists {
        Err(InitError::AlreadyInitialized)
    } else {
        Ok(())
    }
}

/// What to do about the build tool: nothing when it is found; otherwise it
/// is installed, after asking unless prompts are off.
pub fn install_step(found: bool, non_interactive: bool) -> (r: InstallStep)
    ensures
        r == if found {
            InstallStep::Ready
        } else if non_interactive {
            InstallStep::Install
        } else {
            InstallStep::Ask
        },
{
    if found {
        InstallStep::Ready
    } else if non_interactive {
        InstallStep::Install
    } else {
        InstallStep::Ask
    }
}

/// The user's answer to whether the build tool is installed: declining
/// ends the setup.
pub fn install_confirmed(answer: bool) -> (r: Result<(), InitError>)
    ensures
        answer ==> r is Ok,
        !answer ==> r matches Err(InitError::UserCancelled),
{
    if answer {
        Ok(())
    } else {
        Err(InitError::UserCancelled)
    }
}

/// The result of installing the build tool.
pub fn install_outcome(success: bool) -> (r: Result<(), InitError>)
    ensures
        success ==> r is Ok,
        !success ==> r matches Err(InitError::FastlaneInstallFailed),
{
    if success {
        Ok(())
    } else {
        Err(InitError::FastlaneInstallFailed)
    }
}

/// The directories in which an iOS project is looked for, in order.
pub fn ios_candidates() -> (r: Vec<String>)
    ensures
        r.deep_view() == ios_candidates_spec(),
{
    let mut out: Vec<String> = Vec::new();
    out.push(String::from_str("ios"));
    out.push(String::from_str("."));
    out.push(String::from_str("App"));
    out.push(String::from_str("app"));
    assert(out.deep_view() =~= ios_candidates_spec());
    out
}

/// Whether a directory with these entries holds a workspace or a project.
pub fn has_container(names: &Vec<String>) -> (r: bool)
    ensures
        r == holds_container(names.deep_view()),
{
    let mut i: usize = 0;
    while i < names.len()
        invariant
            i <= names.len(),
            forall|k: int| 0 <= k < i ==> !is_container_name(#[trigger] names.deep_view()[k]),
        decreases names.len() - i,
    {
        let name = names[i].as_str();
        if ends_with(name, ".xcworkspace") || ends_with(name, ".xcodeproj") {
            assert(is_container_name(names.deep_view()[i as int]));
            return true;
        }
        i += 1;
    }
    false
}

/// The iOS project directory: the first candidate that holds a workspace or
/// a project. `listings` gives the entries of each candidate, in the order
/// of the candidates; a directory that cannot be read has none.
pub fn detect_ios_path(listings: &Vec<Vec<String>>) -> (r: Option<String>)
    ensures
        r.deep_view() == detected_from(listing_texts(listings@), 0),
{
    let candidates = ios_candidates();
    assert(candidates.deep_view().len() == candidates@.len());
    let mut i: usize = 0;
    while i < 4 && i < listings.len()
        invariant
            i <= 4,
            candidates@.len() == 4,
            candidates.deep_view() == ios_candidates_spec(),
            detected_from(listing_texts(listings@), 0) == detected_from(
                listing_texts(listings@),
                i as int,
            ),
        decreases 4 - i,
    {
        if has_container(&listings[i]) {
            assert(candidates.deep_view()[i as int] == candidates@[i as int]@);
            return Some(candidates[i].clone());
        }
        i += 1;
    }
    None
}

/// The iOS project directory to use: the one given, else the one detected.
/// Without either, or with an empty one, there is no project.
pub fn resolve_ios_path(ios_path: Option<String>, detected: Option<String>) -> (r: Result<
    String,
    InitError,
>)
    ensures
        match ios_path {
            Some(p) => if p@.len() > 0 {
                r == Ok::<String, InitError>(p)
            } else {
                r matches Err(InitError::NoIosProject)
            },
            None => match detected {
                Some(d) => if d@.len() > 0 {
                    r == Ok::<String, InitError>(d)
                } else {
                    r matches Err(InitError::NoIosProject)
                },
                None => r matches Err(InitError::NoIosProject),
            },
        },
{
    let chosen = match ios_path {
        Some(p) => p,
        None => match detected {
            Some(d) => d,
            None => {
                return Err(InitError::NoIosProject);
            },
        },
    };
    if chosen.as_str().is_empty() {
        Err(InitError::NoIosProject)
    } else {
        Ok(chosen)
    }
}

/// The scheme to use: the one given; else the only one found, or the first
/// of several when prompts are off. With several and prompts on, the user
/// chooses, starting from the first. Without any there is nothing to use.
pub fn choose_scheme(scheme: Option<String>, schemes: &Vec<String>, non_interactive: bool) -> (r:
    Result<Choice, InitError>)
    ensures
        match scheme {
            Some(s) => r matches Ok(Choice::Use(u)) && u == s,
            None => if schemes@.len() == 0 {
                r matches Err(InitError::NoSchemeDetected)
            } else if schemes@.len() == 1 || non_interactive {
                r matches Ok(Choice::Use(u)) && u == schemes@[0]
            } else {
                r matches Ok(Choice::Ask(d)) && d == schemes@[0]
            },
        },
{
    match scheme {
        Some(s) => Ok(Choice::Use(s)),
        None => {
            if schemes.len() == 0 {
                Err(InitError::NoSchemeDetected)
            } else if schemes.len() == 1 || non_interactive {
                Ok(Choice::Use(schemes[0].clone()))
            } else {
                Ok(Choice::Ask(schemes[0].clone()))
            }
        },
    }
}

/// The bundle identifier to use: the one given; else the one probed, or a
/// placeholder where probing failed, which the user may change unless
/// prompts are off.
pub fn choose_bundle_id(
    bundle_id: Option<String>,
    probed: Result<String, XcodeError>,
    non_interactive: bool,
) -> (r: Choice)
    ensures
        match bundle_id {
            Some(b) => r matches Choice::Use(u) && u == b,
            None => {
                let detected = match probed {
                    Ok(id) => id@,
                    Err(_) => "com.example.app"@,
                };
                if non_interactive {
                    r matches Choice::Use(u) && u@ == detected
                } else {
                    r matches Choice::Ask(d) && d@ == detected
                }
            },
        },
{
    match bundle_id {
        Some(b) => Choice::Use(b),
        None => {
            let detected = match probed {
                Ok(id) => id,
                Err(_) => String::from_str("com.example.app"),
            };
            if non_interactive {
                Choice::Use(detected)
            } else {
                Choice::Ask(detected)
            }
        },
    }
}

/// The deploy settings of a new project. With prompts off everything is
/// enabled; otherwise the answers decide, and tags are pushed only where
/// they are created.
pub fn tag_policy(non_interactive: bool, git_tag: bool, push_tags: bool) -> (r: DeploySettings)
    ensures
        r.clean_artifacts,
        r.git_tag == (non_interactive || git_tag),
        r.push_tags == (non_interactive || (git_tag && push_tags)),
{
    if non_interactive {
        DeploySettings { git_tag: true, push_tags: true, clean_artifacts: true }
    } else {
        DeploySettings { git_tag, push_tags: git_tag && push_tags, clean_artifacts: true }
    }
}

/// What to do about the lane file. `exists` says of each candidate path, in
/// order, whether a file is there.
pub fn fastfile_step(ios_path: &str, exists: &Vec<bool>, non_interactive: bool) -> (r: FastfileStep)
    ensures
        match first_set(exists@, 0) {
            Some(i) if i < 4 => r matches FastfileStep::Found(p) && p@ == fastfile_candidates(
                ios_path@,
            )[i],
            _ => if non_interactive {
                r is Create
            } else {
                r is Ask
            },
        },
{
    let paths = fastfile_paths(ios_path);
    assert(paths.deep_view().len() == paths@.len());
    match first_existing(exists) {
        Some(i) => {
            if i < paths.len() {
                assert(paths.deep_view()[i as int] == paths@[i as int]@);
                return FastfileStep::Found(paths[i].clone());
            }
        },
        None => {},
    }
    if non_interactive {
        FastfileStep::Create
    } else {
        FastfileStep::Ask
    }
}

/// Where a new lane file goes: the directory to create, and the file in it.
pub fn fastfile_target(ios_path: &str) -> (r: (String, String))
    ensures
        r.0@ == ios_path@ + "/fastlane"@,
        r.1@ == ios_path@ + "/fastlane"@ + "/Fastfile"@,
{
    let dir = cat(ios_path, "/fastlane");
    let path = cat(dir.as_str(), "/Fastfile");
    (dir, path)
}

/// The new text of the ignore file when the project file is added to it;
/// nothing when it is mentioned there already.
pub fn gitignore_update(content: &str) -> (r: Option<String>)
    ensures
        r.deep_view() == if has_substring(content@, ".launchpad.toml"@) {
            None
        } else {
            Some(ignoring_config(content@))
        },
{
    if contains(content, ".launchpad.toml") {
        None
    } else {
        Some(cat(content, "\n.launchpad.toml\n"))
    }
}

/// What the caller asked of `init`.
#[derive(Debug, Clone, PartialEq, Eq)]
pub struct InitArgs {
    pub ios_path: Option<String>,
    pub scheme: Option<String>,
    pub bundle_id: Option<String>,
    pub non_interactive: bool,
}

/// Where the setting up of a project stands: what it waits for, and what
/// has been settled so far.
#[derive(Debug, PartialEq, Eq)]
pub enum InitState {
    Idle,
    CheckingConfig,
    FindingFastlane,
    ConfirmingInstall,
    Installing,
    Detecting,
    ListingSchemes { ios_path: String },
    SelectingScheme { ios_path: String, schemes: Vec<String> },
    ProbingBundleId { ios_path: String, scheme: String },
    AskingBundleId { ios_path: String, scheme: String },
    AskingGitTag { project: ProjectSettings },
    AskingPushTags { project: ProjectSettings },
    Saving { project: ProjectSettings },
    WritingExample { project: ProjectSettings },
    CheckingFastfile { project: ProjectSettings },
    ConfirmingFastfile { project: ProjectSettings },
    WritingFastfile,
    CheckingGitignore,
    ConfirmingGitignore,
    ReadingGitignore,
    WritingGitignore,
    Done,
    Failed(InitError),
}

/// What happened outside since the last step. An `Err` holds the message of
/// a prompt, a read or a write that failed.
#[derive(Debug, PartialEq, Eq)]
pub enum InitEvent {
    /// The command was started.
    Started,
    /// Whether what was looked for is there.
    Found(bool),
    /// The answer to a yes-or-no question.
    Answered(Result<bool, String>),
    /// Whether the installation of the build tool succeeded.
    Installed(Result<bool, String>),
    /// The entries of each candidate directory, in order.
    Listed(Vec<Vec<String>>),
    /// The schemes of the project.
    Schemes(Result<Vec<String>, XcodeError>),
    /// The position of the scheme that the user chose.
    Selected(Result<usize, String>),
    /// The bundle identifier that was probed.
    BundleId(Result<String, XcodeError>),
    /// A text that the user entered or that a file holds.
    Entered(Result<String, String>),
    /// A file was written.
    Written(Result<(), String>),
    /// Whether a file is at each candidate path, in order.
    Exists(Vec<bool>),
}

/// What the caller does next.
#[derive(Debug, PartialEq, Eq)]
pub enum InitAction {
    /// See whether the project has a configuration. Answer: `Found`.
    CheckConfig,
    /// See whether the build tool is installed. Answer: `Found`.
    FindFastlane,
    /// Ask whether to install the build tool. Answer: `Answered`.
    ConfirmInstall,
    /// Install the build tool. Answer: `Installed`.
    InstallFastlane,
    /// Read these directories. Answer: `Listed`.
    ListCandidates(Vec<String>),
    /// List the schemes of the project in this directory. Answer: `Schemes`.
    ListSchemes(String),
    /// Let the user choose among these schemes. Answer: `Selected`.
    SelectScheme(Vec<String>),
    /// Probe the bundle identifier. Answer: `BundleId`.
    ProbeBundleId { ios_path: String, scheme: String },
    /// Ask for the bundle identifier, with this default. Answer: `Entered`.
    AskBundleId(String),
    /// Ask whether tags are created. Answer: `Answered`.
    ConfirmGitTag,
    /// Ask whether tags are pushed. Answer: `Answered`.
    ConfirmPushTags,
    /// Write the project configuration. Answer: `Written`.
    SaveConfig(ProjectConfig),
    /// Write the example configuration unless it exists. Answer: `Written`.
    WriteExample,
    /// See which of these lane files exist. Answer: `Exists`.
    CheckFastfiles(Vec<String>),
    /// Ask whether to create a lane file. Answer: `Answered`.
    ConfirmFastfile,
    /// Create the directory and write the lane file. Answer: `Written`.
    WriteFastfile { dir: String, path: String, content: String },
    /// See whether there is an ignore file. Answer: `Found`.
    CheckGitignore,
    /// Ask whether to add the project file to it. Answer: `Answered`.
    ConfirmGitignore,
    /// Read the ignore file. Answer: `Entered`.
    ReadGitignore,
    /// Write the ignore file with this text. Answer: `Written`.
    WriteGitignore(String),
    /// Nothing more: the project is set up, or setting it up has failed.
    Stop,
}

/// The step that ends with an error.
pub open spec fn fails_with(r: Option<(InitState, InitAction)>, e: InitError) -> bool {
    r == Some((InitState::Failed(e), InitAction::Stop))
}

/// The step that ends with success.
pub open spec fn finishes(r: Option<(InitState, InitAction)>) -> bool {
    r == Some((InitState::Done, InitAction::Stop))
}

/// The step that follows once the iOS directory is known or known to be
/// missing: the schemes are listed, or there is no project.
pub open spec fn goes_on_with_path(
    r: Option<(InitState, InitAction)>,
    given: Option<String>,
    detected: Option<Seq<char>>,
) -> bool {
    match given {
        Some(p) => if p@.len() > 0 {
            r == Some((InitState::ListingSchemes { ios_path: p }, InitAction::ListSchemes(p)))
        } else {
            fails_with(r, InitError::NoIosProject)
        },
        None => match detected {
            Some(d) => if d.len() > 0 {
                r matches Some((InitState::ListingSchemes { ios_path }, InitAction::ListSchemes(p)))
                    && ios_path@ == d && p@ == d
            } else {
                fails_with(r, InitError::NoIosProject)
            },
            None => fails_with(r, InitError::NoIosProject),
        },
    }
}

/// The step that follows once the build tool is there: with a directory
/// given it is used, else the candidates are read.
pub open spec fn goes_on_after_fastlane(args: InitArgs, r: Option<(InitState, InitAction)>) -> bool {
    match args.ios_path {
        Some(_) => goes_on_with_path(r, args.ios_path, None),
        None => r matches Some((InitState::Detecting, InitAction::ListCandidates(c)))
            && c.deep_view() == ios_candidates_spec(),
    }
}

/// The step that follows once the scheme is settled: the bundle identifier
/// is probed.
pub open spec fn goes_on_with_scheme(
    r: Option<(InitState, InitAction)>,
    path: String,
    chosen: String,
) -> bool {
    r == Some(
        (
            InitState::ProbingBundleId { ios_path: path, scheme: chosen },
            InitAction::ProbeBundleId { ios_path: path, scheme: chosen },
        ),
    )
}

/// The step that writes the configuration with the given tag settings.
pub open spec fn saves(
    r: Option<(InitState, InitAction)>,
    p: ProjectSettings,
    git_tag: bool,
    push_tags: bool,
) -> bool {
    r == Some(
        (
            InitState::Saving { project: p },
            InitAction::SaveConfig(
                ProjectConfig {
                    project: p,
                    deploy: DeploySettings { git_tag, push_tags, clean_artifacts: true },
                },
            ),
        ),
    )
}

/// The step that follows once the project settings are complete: with
/// prompts off the configuration is written with tagging enabled, else the
/// user is asked about tags.
pub open spec fn goes_on_with_project(
    args: InitArgs,
    r: Option<(InitState, InitAction)>,
    ios_path: String,
    scheme: String,
    bundle_id: Seq<char>,
) -> bool {
    if args.non_interactive {
        r matches Some((InitState::Saving { project }, InitAction::SaveConfig(config)))
            && project.ios_path == ios_path && project.scheme == scheme && project.bundle_id@
            == bundle_id && config.project == project && config.deploy == (DeploySettings {
            git_tag: true,
            push_tags: true,
            clean_artifacts: true,
        })
    } else {
        r matches Some((InitState::AskingGitTag { project }, InitAction::ConfirmGitTag))
            && project.ios_path == ios_path && project.scheme == scheme && project.bundle_id@
            == bundle_id
    }
}

/// The step that writes a new lane file for the project.
pub open spec fn writes_fastfile(r: Option<(InitState, InitAction)>, p: ProjectSettings) -> bool {
    r matches Some((InitState::WritingFastfile, InitAction::WriteFastfile { dir, path, content }))
        && dir@ == p.ios_path@ + "/fastlane"@ && path@ == p.ios_path@ + "/fastlane"@ + "/Fastfile"@
        && content@ == replaced(FASTFILE_TEMPLATE@, SCHEME_PLACEHOLDER@, p.scheme@)
}

/// The step that follows once the lane file is dealt with: the ignore file
/// is looked at only when prompts are on.
pub open spec fn goes_on_after_fastfile(args: InitArgs, r: Option<(InitState, InitAction)>) -> bool {
    if args.non_interactive {
        finishes(r)
    } else {
        r == Some((InitState::CheckingGitignore, InitAction::CheckGitignore))
    }
}

/// `r` is the step that `init` in `state` takes on `event`: the next state
/// and what the caller does next. An event that the state does not wait for
/// gives no step. A project that has a configuration is refused before
/// anything else is looked at; a failed prompt, read or write ends the
/// command with its message.
pub open spec fn is_init_step(
    args: InitArgs,
    state: InitState,
    event: InitEvent,
    r: Option<(InitState, InitAction)>,
) -> bool {
    match (state, event) {
        (InitState::Idle, InitEvent::Started) => r == Some(
            (InitState::CheckingConfig, InitAction::CheckConfig),
        ),
        (InitState::CheckingConfig, InitEvent::Found(exists)) => if exists {
            fails_with(r, InitError::AlreadyInitialized)
        } else {
            r == Some((InitState::FindingFastlane, InitAction::FindFastlane))
        },
        (InitState::FindingFastlane, InitEvent::Found(found)) => if found {
            goes_on_after_fastlane(args, r)
        } else if args.non_interactive {
            r == Some((InitState::Installing, InitAction::InstallFastlane))
        } else {
            r == Some((InitState::ConfirmingInstall, InitAction::ConfirmInstall))
        },
        (InitState::ConfirmingInstall, InitEvent::Answered(answer)) => match answer {
            Ok(true) => r == Some((InitState::Installing, InitAction::InstallFastlane)),
            Ok(false) => fails_with(r, InitError::UserCancelled),
            Err(m) => fails_with(r, InitError::Io(m)),
        },
        (InitState::Installing, InitEvent::Installed(result)) => match result {
            Ok(true) => goes_on_after_fastlane(args, r),
            Ok(false) => fails_with(r, InitError::FastlaneInstallFailed),
            Err(m) => fails_with(r, InitError::Io(m)),
        },
        (InitState::Detecting, InitEvent::Listed(listings)) => goes_on_with_path(
            r,
            None,
            detected_from(listing_texts(listings@), 0),
        ),
        (InitState::ListingSchemes { ios_path }, InitEvent::Schemes(listed)) => match listed {
            Err(e) => r matches Some((InitState::Failed(InitError::Xcode(m)), InitAction::Stop))
                && m@ == e.text(),
            Ok(schemes) => match args.scheme {
                Some(s) => goes_on_with_scheme(r, ios_path, s),
                None => if schemes@.len() == 0 {
                    fails_with(r, InitError::NoSchemeDetected)
                } else if schemes@.len() == 1 || args.non_interactive {
                    goes_on_with_scheme(r, ios_path, schemes@[0])
                } else {
                    r matches Some(
                        (
                            InitState::SelectingScheme { ios_path: p, schemes: kept },
                            InitAction::SelectScheme(offered),
                        ),
                    ) && p == ios_path && kept == schemes && offered@ == schemes@
                },
            },
        },
        (InitState::SelectingScheme { ios_path, schemes }, InitEvent::Selected(choice)) => {
            match choice {
                Ok(i) => if i < schemes@.len() {
                    goes_on_with_scheme(r, ios_path, schemes@[i as int])
                } else {
                    r is None
                },
                Err(m) => fails_with(r, InitError::Io(m)),
            }
        },
        (InitState::ProbingBundleId { ios_path, scheme }, InitEvent::BundleId(probed)) => {
            let detected = match probed {
                Ok(id) => id@,
                Err(_) => "com.example.app"@,
            };
            match args.bundle_id {
                Some(b) => goes_on_with_project(args, r, ios_path, scheme, b@),
                None => if args.non_interactive {
                    goes_on_with_project(args, r, ios_path, scheme, detected)
                } else {
                    r matches Some(
                        (
                            InitState::AskingBundleId { ios_path: p, scheme: s },
                            InitAction::AskBundleId(d),
                        ),
                    ) && p == ios_path && s == scheme && d@ == detected
                },
            }
        },
        (InitState::AskingBundleId { ios_path, scheme }, InitEvent::Entered(entered)) => {
            match entered {
                Ok(b) => goes_on_with_project(args, r, ios_path, scheme, b@),
                Err(m) => fails_with(r, InitError::Io(m)),
            }
        },
        (InitState::AskingGitTag { project }, InitEvent::Answered(answer)) => match answer {
            Ok(true) => r == Some((InitState::AskingPushTags { project }, InitAction::ConfirmPushTags)),
            Ok(false) => saves(r, project, false, false),
            Err(m) => fails_with(r, InitError::Io(m)),
        },
        (InitState::AskingPushTags { project }, InitEvent::Answered(answer)) => match answer {
            Ok(push) => saves(r, project, true, push),
            Err(m) => fails_with(r, InitError::Io(m)),
        },
        (InitState::Saving { project }, InitEvent::Written(result)) => match result {
            Ok(_) => r == Some((InitState::WritingExample { project }, InitAction::WriteExample)),
            Err(m) => fails_with(r, InitError::Io(m)),
        },
        (InitState::WritingExample { project }, InitEvent::Written(result)) => match result {
            Ok(_) => r matches Some(
                (InitState::CheckingFastfile { project: p }, InitAction::CheckFastfiles(paths)),
            ) && p == project && paths.deep_view() == fastfile_candidates(project.ios_path@),
            Err(m) => fails_with(r, InitError::Io(m)),
        },
        (InitState::CheckingFastfile { project }, InitEvent::Exists(exists)) => {
            match first_set(exists@, 0) {
                Some(i) if i < 4 => goes_on_after_fastfile(args, r),
                _ => if args.non_interactive {
                    writes_fastfile(r, project)
                } else {
                    r == Some((InitState::ConfirmingFastfile { project }, InitAction::ConfirmFastfile))
                },
            }
        },
        (InitState::ConfirmingFastfile { project }, InitEvent::Answered(answer)) => match answer {
            Ok(true) => writes_fastfile(r, project),
            Ok(false) => goes_on_after_fastfile(args, r),
            Err(m) => fails_with(r, InitError::Io(m)),
        },
        (InitState::WritingFastfile, InitEvent::Written(result)) => match result {
            Ok(_) => goes_on_after_fastfile(args, r),
            Err(m) => fails_with(r, InitError::Io(m)),
        },
        (InitState::CheckingGitignore, InitEvent::Found(exists)) => if exists {
            r == Some((InitState::ConfirmingGitignore, InitAction::ConfirmGitignore))
        } else {
            finishes(r)
        },
        (InitState::ConfirmingGitignore, InitEvent::Answered(answer)) => match answer {
            Ok(true) => r == Some((InitState::ReadingGitignore, InitAction::ReadGitignore)),
            Ok(false) => finishes(r),
            Err(m) => fails_with(r, InitError::Io(m)),
        },
        (InitState::ReadingGitignore, InitEvent::Entered(entered)) => match entered {
            Ok(content) => if has_substring(content@, ".launchpad.toml"@) {
                finishes(r)
            } else {
                r matches Some((InitState::WritingGitignore, InitAction::WriteGitignore(text)))
                    && text@ == ignoring_config(content@)
            },
            Err(m) => fails_with(r, InitError::Io(m)),
        },
        (InitState::WritingGitignore, InitEvent::Written(result)) => match result {
            Ok(_) => finishes(r),
            Err(m) => fails_with(r, InitError::Io(m)),
        },
        _ => r is None,
    }
}

fn failed(e: InitError) -> (r: Option<(InitState, InitAction)>)
    ensures
        fails_with(r, e),
{
    Some((InitState::Failed(e), InitAction::Stop))
}

fn with_path(given: Option<String>, detected: Option<String>) -> (r: Option<
    (InitState, InitAction),
>)
    ensures
        goes_on_with_path(r, given, detected.deep_view()),
{
    match resolve_ios_path(given, detected) {
        Ok(path) => {
            let ios_path = path.clone();
            Some((InitState::ListingSchemes { ios_path }, InitAction::ListSchemes(path)))
        },
        Err(e) => failed(e),
    }
}

fn after_fastlane(args: &InitArgs) -> (r: Option<(InitState, InitAction)>)
    ensures
        goes_on_after_fastlane(*args, r),
{
    match &args.ios_path {
        Some(p) => with_path(Some(p.clone()), None),
        None => Some((InitState::Detecting, InitAction::ListCandidates(ios_candidates()))),
    }
}

fn with_scheme(path: String, chosen: String) -> (r: Option<(InitState, InitAction)>)
    ensures
        goes_on_with_scheme(r, path, chosen),
{
    let ios_path = path.clone();
    let scheme = chosen.clone();
    Some(
        (
            InitState::ProbingBundleId { ios_path, scheme },
            InitAction::ProbeBundleId { ios_path: path, scheme: chosen },
        ),
    )
}

fn save(project: ProjectSettings, git_tag: bool, push_tags: bool) -> (r: Option<
    (InitState, InitAction),
>)
    ensures
        saves(r, project, git_tag, git_tag && push_tags),
{
    let copy = ProjectSettings {
        ios_path: project.ios_path.clone(),
        scheme: project.scheme.clone(),
        bundle_id: project.bundle_id.clone(),
    };
    let deploy = tag_policy(false, git_tag, git_tag && push_tags);
    Some(
        (
            InitState::Saving { project },
            InitAction::SaveConfig(ProjectConfig { project: copy, deploy }),
        ),
    )
}

fn with_project(args: &InitArgs, ios_path: String, scheme: String, bundle_id: String) -> (r: Option<
    (InitState, InitAction),
>)
    ensures
        goes_on_with_project(*args, r, ios_path, scheme, bundle_id@),
{
    let project = ProjectSettings { ios_path, scheme, bundle_id };
    if args.non_interactive {
        save(project, true, true)
    } else {
        Some((InitState::AskingGitTag { project }, InitAction::ConfirmGitTag))
    }
}

fn write_fastfile(project: &ProjectSettings) -> (r: Option<(InitState, InitAction)>)
    ensures
        writes_fastfile(r, *project),
{
    let (dir, path) = fastfile_target(project.ios_path.as_str());
    let content = generate_fastfile(project.scheme.as_str());
    Some((InitState::WritingFastfile, InitAction::WriteFastfile { dir, path, content }))
}

fn after_fastfile(args: &InitArgs) -> (r: Option<(InitState, InitAction)>)
    ensures
        goes_on_after_fastfile(*args, r),
{
    if args.non_interactive {
        Some((InitState::Done, InitAction::Stop))
    } else {
        Some((InitState::CheckingGitignore, InitAction::CheckGitignore))
    }
}

fn copy_all(texts: &Vec<String>) -> (r: Vec<String>)
    ensures
        r@ == texts@,
{
    let mut out: Vec<String> = Vec::new();
    let mut i: usize = 0;
    while i < texts.len()
        invariant
            i <= texts.len(),
            out@ == texts@.subrange(0, i as int),
        decreases texts.len() - i,
    {
        out.push(texts[i].clone());
        assert(out@ =~= texts@.subrange(0, i + 1));
        i += 1;
    }
    assert(texts@.subrange(0, i as int) =~= texts@);
    out
}

fn copy_of(text: &Option<String>) -> (r: Option<String>)
    ensures
        r == *text,
{
    match text {
        Some(t) => Some(t.clone()),
        None => None,
    }
}

/// One step of `init`: the next state and what the caller does next, for
/// the event that the current state waits for.
pub fn init_step(args: &InitArgs, state: InitState, event: InitEvent) -> (r: Option<
    (InitState, InitAction),
>)
    ensures
        is_init_step(*args, state, event, r),
{
    match (state, event) {
        (InitState::Idle, InitEvent::Started) => Some(
            (InitState::CheckingConfig, InitAction::CheckConfig),
        ),
        (InitState::CheckingConfig, InitEvent::Found(exists)) => {
            match ensure_uninitialized(exists) {
                Ok(()) => Some((InitState::FindingFastlane, InitAction::FindFastlane)),
                Err(_) => failed(InitError::AlreadyInitialized),
            }
        },
        (InitState::FindingFastlane, InitEvent::Found(found)) => {
            match install_step(found, args.non_interactive) {
                InstallStep::Ready => after_fastlane(args),
                InstallStep::Install => Some((InitState::Installing, InitAction::InstallFastlane)),
                InstallStep::Ask => Some(
                    (InitState::ConfirmingInstall, InitAction::ConfirmInstall),
                ),
            }
        },
        (InitState::ConfirmingInstall, InitEvent::Answered(answer)) => match answer {
            Ok(yes) => match install_confirmed(yes) {
                Ok(()) => Some((InitState::Installing, InitAction::InstallFastlane)),
                Err(_) => failed(InitError::UserCancelled),
            },
            Err(m) => failed(InitError::Io(m)),
        },
        (InitState::Installing, InitEvent::Installed(result)) => match result {
            Ok(success) => match install_outcome(success) {
                Ok(()) => after_fastlane(args),
                Err(_) => failed(InitError::FastlaneInstallFailed),
            },
            Err(m) => failed(InitError::Io(m)),
        },
        (InitState::Detecting, InitEvent::Listed(listings)) => with_path(
            None,
            detect_ios_path(&listings),
        ),
        (InitState::ListingSchemes { ios_path }, InitEvent::Schemes(listed)) => match listed {
            Err(e) => Some((InitState::Failed(InitError::Xcode(e.message())), InitAction::Stop)),
            Ok(schemes) => {
                match choose_scheme(copy_of(&args.scheme), &schemes, args.non_interactive) {
                    Err(e) => failed(InitError::NoSchemeDetected),
                    Ok(Choice::Use(chosen)) => with_scheme(ios_path, chosen),
                    Ok(Choice::Ask(_)) => {
                        let offered = copy_all(&schemes);
                        Some(
                            (
                                InitState::SelectingScheme { ios_path, schemes },
                                InitAction::SelectScheme(offered),
                            ),
                        )
                    },
                }
            },
        },
        (InitState::SelectingScheme { ios_path, schemes }, InitEvent::Selected(choice)) => {
            match choice {
                Ok(i) => {
                    if i < schemes.len() {
                        with_scheme(ios_path, schemes[i].clone())
                    } else {
                        None
                    }
                },
                Err(m) => failed(InitError::Io(m)),
            }
        },
        (InitState::ProbingBundleId { ios_path, scheme }, InitEvent::BundleId(probed)) => {
            match choose_bundle_id(copy_of(&args.bundle_id), probed, args.non_interactive) {
                Choice::Use(bundle_id) => with_project(args, ios_path, scheme, bundle_id),
                Choice::Ask(default) => Some(
                    (
                        InitState::AskingBundleId { ios_path, scheme },
                        InitAction::AskBundleId(default),
                    ),
                ),
            }
        },
        (InitState::AskingBundleId { ios_path, scheme }, InitEvent::Entered(entered)) => {
            match entered {
                Ok(bundle_id) => with_project(args, ios_path, scheme, bundle_id),
                Err(m) => failed(InitError::Io(m)),
            }
        },
        (InitState::AskingGitTag { project }, InitEvent::Answered(answer)) => match answer {
            Ok(true) => Some((InitState::AskingPushTags { project }, InitAction::ConfirmPushTags)),
            Ok(false) => save(project, false, false),
            Err(m) => failed(InitError::Io(m)),
        },
        (InitState::AskingPushTags { project }, InitEvent::Answered(answer)) => match answer {
            Ok(push) => save(project, true, push),
            Err(m) => failed(InitError::Io(m)),
        },
        (InitState::Saving { project }, InitEvent::Written(result)) => match result {
            Ok(_) => Some((InitState::WritingExample { project }, InitAction::WriteExample)),
            Err(m) => failed(InitError::Io(m)),
        },
        (InitState::WritingExample { project }, InitEvent::Written(result)) => match result {
            Ok(_) => {
                let paths = fastfile_paths(project.ios_path.as_str());
                Some((InitState::CheckingFastfile { project }, InitAction::CheckFastfiles(paths)))
            },
            Err(m) => failed(InitError::Io(m)),
        },
        (InitState::CheckingFastfile { project }, InitEvent::Exists(exists)) => {
            match fastfile_step(project.ios_path.as_str(), &exists, args.non_interactive) {
                FastfileStep::Found(_) => after_fastfile(args),
                FastfileStep::Create => write_fastfile(&project),
                FastfileStep::Ask => Some(
                    (InitState::ConfirmingFastfile { project }, InitAction::ConfirmFastfile),
                ),
            }
        },
        (InitState::ConfirmingFastfile { project }, InitEvent::Answered(answer)) => match answer {
            Ok(true) => write_fastfile(&project),
            Ok(false) => after_fastfile(args),
            Err(m) => failed(InitError::Io(m)),
        },
        (InitState::WritingFastfile, InitEvent::Written(result)) => match result {
            Ok(_) => after_fastfile(args),
            Err(m) => failed(InitError::Io(m)),
        },
        (InitState::CheckingGitignore, InitEvent::Found(exists)) => {
            if exists {
                Some((InitState::ConfirmingGitignore, InitAction::ConfirmGitignore))
            } else {
                Some((InitState::Done, InitAction::Stop))
            }
        },
        (InitState::ConfirmingGitignore, InitEvent::Answered(answer)) => match answer {
            Ok(true) => Some((InitState::ReadingGitignore, InitAction::ReadGitignore)),
            Ok(false) => Some((InitState::Done, InitAction::Stop)),
            Err(m) => failed(InitError::Io(m)),
        },
        (InitState::ReadingGitignore, InitEvent::Entered(entered)) => match entered {
            Ok(content) => match gitignore_update(content.as_str()) {
                Some(text) => Some((InitState::WritingGitignore, InitAction::WriteGitignore(text))),
                None => Some((InitState::Done, InitAction::Stop)),
            },
            Err(m) => failed(InitError::Io(m)),
        },
        (InitState::WritingGitignore, InitEvent::Written(result)) => match result {
            Ok(_) => Some((InitState::Done, InitAction::Stop)),
            Err(m) => failed(InitError::Io(m)),
        },
        _ => None,
    }
}

/// A project that has a configuration is never set up again: whatever was
/// asked for, the news that the file exists ends `init` with
/// `AlreadyInitialized`, before anything is probed, asked or written.
pub proof fn initialized_project_is_refused(args: InitArgs, r: Option<(InitState, InitAction)>)
    requires
        is_init_step(args, InitState::CheckingConfig, InitEvent::Found(true), r),
    ensures
        r == Some((InitState::Failed(InitError::AlreadyInitialized), InitAction::Stop)),
{
}

/// The first thing `init` asks for, whatever its arguments, is whether the
/// project has a configuration.
pub proof fn init_begins_with_the_config(args: InitArgs, r: Option<(InitState, InitAction)>)
    requires
        is_init_step(args, InitState::Idle, InitEvent::Started, r),
    ensures
        r == Some((InitState::CheckingConfig, InitAction::CheckConfig)),
{
}

/// With prompts off, `init` never asks the user anything.
pub proof fn non_interactive_never_asks(
    args: InitArgs,
    state: InitState,
    event: InitEvent,
    r: Option<(InitState, InitAction)>,
)
    requires
        args.non_interactive,
        is_init_step(args, state, event, r),
        !(state is ConfirmingInstall || state is SelectingScheme || state is AskingBundleId
            || state is AskingGitTag || state is AskingPushTags || state is ConfirmingFastfile
            || state is CheckingGitignore || state is ConfirmingGitignore),
    ensures
        match r {
            Some((_, action)) => !(action is ConfirmInstall || action is SelectScheme
                || action is AskBundleId || action is ConfirmGitTag || action is ConfirmPushTags
                || action is ConfirmFastfile || action is ConfirmGitignore
                || action is CheckGitignore),
            None => true,
        },
{
}

} // verus!
