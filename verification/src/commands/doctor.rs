//! The doctor command: one check per prerequisite, and the verdict over all
//! of them.

use vstd::prelude::*;
use vstd::string::*;
use crate::config::global::{ConfigError, GlobalConfig};
use crate::config::project::{ProjectConfig, ProjectConfigError};
use crate::fastlane::{fastfile_candidates, fastfile_paths, first_existing, first_set};
use crate::home::{expand_tilde_in, tilde_expanded};
use crate::text::{cat, contains, has_substring, last_word, last_word_of, lines, lines_of};

verus! {

#[derive(Debug, Clone, PartialEq, Eq)]
pub enum DoctorError {
    ChecksFailed,
}

impl DoctorError {
    /// The text shown to the user for this error.
    pub open spec fn text(&self) -> Seq<char> {
        "Prerequisites check failed"@
    }

    /// The text shown to the user for this error, as a string.
    pub fn message(&self) -> (r: String)
        ensures
            r@ == self.text(),
    {
        String::from_str("Prerequisites check failed")
    }
}

/// The result of one check.
#[derive(Debug, Clone, PartialEq, Eq)]
pub struct CheckResult {
    pub name: String,
    pub passed: bool,
    pub message: String,
}

/// What was observed of the machine and the project for the diagnostics.
#[derive(Debug, PartialEq, Eq)]
pub struct Probe {
    /// Whether `xcodebuild -version` ran with success, and what it printed.
    pub xcode_success: bool,
    pub xcode_output: String,
    /// Whether the build tool is on the search path, and what
    /// `fastlane --version` printed, if it could be run.
    pub fastlane_found: bool,
    pub fastlane_output: Option<String>,
    /// The global configuration, the home directory, and whether the key
    /// file exists at its expanded path.
    pub global: Result<Option<GlobalConfig>, ConfigError>,
    pub home: Option<String>,
    pub key_exists: bool,
    /// Whether a project file exists, what it holds, and whether its iOS
    /// directory exists.
    pub project_file_exists: bool,
    pub project: Result<Option<ProjectConfig>, ProjectConfigError>,
    pub ios_path_exists: bool,
    /// Whether a lane file is at each candidate path, in order.
    pub fastfiles: Vec<bool>,
}

/// The result of every check that was made.
#[derive(Debug, Clone, PartialEq, Eq)]
pub struct Report {
    pub xcode: CheckResult,
    pub fastlane: CheckResult,
    pub api_key: CheckResult,
    pub project: Option<CheckResult>,
    pub fastfile: Option<CheckResult>,
}

impl CheckResult {
    /// This result has the given name, verdict and message.
    pub open spec fn is(&self, name: Seq<char>, passed: bool, message: Seq<char>) -> bool {
        self.name@ == name && self.passed == passed && self.message@ == message
    }
}

/// The first line at or after `from` that mentions `fastlane`.
pub open spec fn fastlane_line(lines: Seq<Seq<char>>, from: int) -> Option<Seq<char>>
    decreases lines.len() - from,
{
    if from < 0 || from >= lines.len() {
        None
    } else if has_substring(lines[from], "fastlane"@) {
        Some(lines[from])
    } else {
        fastlane_line(lines, from + 1)
    }
}

/// The version in the output of `fastlane --version`: the last word of the
/// first line that mentions the tool, or `installed` when there is none.
pub open spec fn fastlane_version_in(lines: Seq<Seq<char>>) -> Seq<char> {
    match fastlane_line(lines, 0) {
        Some(line) => match last_word_of(line) {
            Some(word) => word,
            None => "installed"@,
        },
        None => "installed"@,
    }
}

/// How many of the checks failed.
pub open spec fn failed_in(checks: Seq<CheckResult>) -> nat
    decreases checks.len(),
{
    if checks.len() == 0 {
        0
    } else {
        failed_in(checks.drop_last()) + if checks.last().passed {
            0nat
        } else {
            1nat
        }
    }
}

/// `c` is the check for Xcode: it passes when `xcodebuild -version` ran
/// with success, and then reports the first line of its output.
pub open spec fn xcode_check_is(c: CheckResult, success: bool, stdout: Seq<char>) -> bool {
    c.is(
        "Xcode"@,
        success,
        if !success {
            "Not installed (run: xcode-select --install)"@
        } else if lines_of(stdout).len() > 0 {
            lines_of(stdout)[0]
        } else {
            "Unknown"@
        },
    )
}

/// `c` is the check for the build tool: it passes when the tool is on the
/// search path, and then reports its version.
pub open spec fn fastlane_check_is(c: CheckResult, found: bool, output: Option<Seq<char>>) -> bool {
    c.is(
        "fastlane"@,
        found,
        if !found {
            "Not installed (run: brew install fastlane)"@
        } else {
            match output {
                Some(stdout) => fastlane_version_in(lines_of(stdout)),
                None => "installed"@,
            }
        },
    )
}

/// `c` is the check for the API key: it passes when credentials are
/// configured and the key file exists.
pub open spec fn api_key_check_is(
    c: CheckResult,
    loaded: Result<Option<GlobalConfig>, ConfigError>,
    home: Option<Seq<char>>,
    key_exists: bool,
) -> bool {
    match loaded {
        Ok(Some(config)) => if key_exists {
            c.is("Apple API key"@, true, "Configured ("@ + config.apple.key_id@ + ")"@)
        } else {
            c.is(
                "Apple API key"@,
                false,
                "Key file not found: "@ + tilde_expanded(config.apple.key_path@, home),
            )
        },
        Ok(None) => c.is("Apple API key"@, false, "Not configured (run: launchpad setup)"@),
        Err(e) => c.is("Apple API key"@, false, "Config error: "@ + e.text()),
    }
}

/// `r` is the check for the project: there is none outside a project; it
/// passes when the configuration loads and its iOS directory exists.
pub open spec fn project_check_is(
    r: Option<CheckResult>,
    file_exists: bool,
    loaded: Result<Option<ProjectConfig>, ProjectConfigError>,
    ios_path_exists: bool,
) -> bool {
    match loaded {
        Ok(Some(config)) => if !file_exists {
            r is None
        } else if ios_path_exists {
            r matches Some(c) && c.is(
                "Project"@,
                true,
                config.project.ios_path@ + " (scheme: "@ + config.project.scheme@ + ")"@,
            )
        } else {
            r matches Some(c) && c.is(
                "Project"@,
                false,
                "iOS path not found: "@ + config.project.ios_path@,
            )
        },
        Ok(None) => r is None,
        Err(e) => if !file_exists {
            r is None
        } else {
            r matches Some(c) && c.is("Project"@, false, "Config error: "@ + e.text())
        },
    }
}

/// `r` is the check for the lane file: there is none without a project
/// configuration; it passes when one of the four candidate paths exists, and
/// then reports the first that does.
pub open spec fn fastfile_check_is(
    r: Option<CheckResult>,
    loaded: Result<Option<ProjectConfig>, ProjectConfigError>,
    exists: Seq<bool>,
) -> bool {
    match loaded {
        Ok(Some(config)) => match first_set(exists, 0) {
            Some(i) if i < 4 => r matches Some(c) && c.is(
                "Fastfile"@,
                true,
                fastfile_candidates(config.project.ios_path@)[i],
            ),
            _ => r matches Some(c) && c.is(
                "Fastfile"@,
                false,
                "Not found (run: fastlane init in ios directory)"@,
            ),
        },
        _ => r is None,
    }
}

/// The checks of a report in the order in which they are shown.
pub open spec fn checks_of(report: Report) -> Seq<CheckResult> {
    let first = seq![report.xcode, report.fastlane, report.api_key];
    let second = match report.project {
        Some(c) => first.push(c),
        None => first,
    };
    match report.fastfile {
        Some(c) => second.push(c),
        None => second,
    }
}

/// The check for Xcode, given whether `xcodebuild -version` ran with
/// success and what it printed.
pub fn check_xcode(success: bool, stdout: &str) -> (r: CheckResult)
    ensures
        xcode_check_is(r, success, stdout@),
{
    if !success {
        return CheckResult {
            name: String::from_str("Xcode"),
            passed: false,
            message: String::from_str("Not installed (run: xcode-select --install)"),
        };
    }
    let all = lines(stdout);
    let message = if all.len() > 0 {
        assert(all.deep_view()[0] == all@[0]@);
        all[0].clone()
    } else {
        String::from_str("Unknown")
    };
    CheckResult { name: String::from_str("Xcode"), passed: true, message }
}

/// The version in the output of `fastlane --version`.
pub fn fastlane_version(stdout: &str) -> (r: String)
    ensures
        r@ == fastlane_version_in(lines_of(stdout@)),
{
    let all = lines(stdout);
    let mut i: usize = 0;
    while i < all.len()
        invariant
            i <= all.len(),
            all.deep_view() == lines_of(stdout@),
            fastlane_line(all.deep_view(), 0) == fastlane_line(all.deep_view(), i as int),
        decreases all.len() - i,
    {
        if contains(all[i].as_str(), "fastlane") {
            return match last_word(all[i].as_str()) {
                Some(word) => word,
                None => String::from_str("installed"),
            };
        }
        i += 1;
    }
    String::from_str("installed")
}

/// The check for the build tool, given whether it is on the search path and
/// what `fastlane --version` printed, if it could be run.
pub fn check_fastlane(found: bool, version_output: Option<&str>) -> (r: CheckResult)
    ensures
        fastlane_check_is(
            r,
            found,
            match version_output {
                Some(stdout) => Some(stdout@),
                None => None,
            },
        ),
{
    if !found {
        return CheckResult {
            name: String::from_str("fastlane"),
            passed: false,
            message: String::from_str("Not installed (run: brew install fastlane)"),
        };
    }
    let message = match version_output {
        Some(stdout) => fastlane_version(stdout),
        None => String::from_str("installed"),
    };
    CheckResult { name: String::from_str("fastlane"), passed: true, message }
}

/// The check for the API key. `key_exists` says whether a file is at the
/// key path of the configuration, expanded against `home`.
pub fn check_global_config(
    loaded: &Result<Option<GlobalConfig>, ConfigError>,
    home: &Option<String>,
    key_exists: bool,
) -> (r: CheckResult)
    ensures
        api_key_check_is(r, *loaded, home.deep_view(), key_exists),
{
    let name = String::from_str("Apple API key");
    match loaded {
        Ok(Some(config)) => {
            if key_exists {
                let head = cat("Configured (", config.apple.key_id.as_str());
                CheckResult { name, passed: true, message: cat(head.as_str(), ")") }
            } else {
                let key_path = expand_tilde_in(config.apple.key_path.as_str(), home);
                CheckResult {
                    name,
                    passed: false,
                    message: cat("Key file not found: ", key_path.as_str()),
                }
            }
        },
        Ok(None) => CheckResult {
            name,
            passed: false,
            message: String::from_str("Not configured (run: launchpad setup)"),
        },
        Err(e) => CheckResult {
            name,
            passed: false,
            message: cat("Config error: ", e.message().as_str()),
        },
    }
}

/// The check for the project, which is made only inside a project: where a
/// project file exists. `ios_path_exists` says whether the iOS directory of
/// the configuration is there.
pub fn check_project_config(
    file_exists: bool,
    loaded: &Result<Option<ProjectConfig>, ProjectConfigError>,
    ios_path_exists: bool,
) -> (r: Option<CheckResult>)
    ensures
        project_check_is(r, file_exists, *loaded, ios_path_exists),
{
    if !file_exists {
        return None;
    }
    let name = String::from_str("Project");
    match loaded {
        Ok(Some(config)) => {
            if ios_path_exists {
                let head = cat(config.project.ios_path.as_str(), " (scheme: ");
                let both = cat(head.as_str(), config.project.scheme.as_str());
                Some(CheckResult { name, passed: true, message: cat(both.as_str(), ")") })
            } else {
                Some(
                    CheckResult {
                        name,
                        passed: false,
                        message: cat("iOS path not found: ", config.project.ios_path.as_str()),
                    },
                )
            }
        },
        Ok(None) => None,
        Err(e) => Some(
            CheckResult {
                name,
                passed: false,
                message: cat("Config error: ", e.message().as_str()),
            },
        ),
    }
}

/// The check for the lane file, which is made only with a project
/// configuration. `exists` says of each candidate path, in order, whether a
/// file is there; the first that exists is reported.
pub fn check_fastfile(
    loaded: &Result<Option<ProjectConfig>, ProjectConfigError>,
    exists: &Vec<bool>,
) -> (r: Option<CheckResult>)
    ensures
        fastfile_check_is(r, *loaded, exists@),
{
    match loaded {
        Ok(Some(config)) => {
            let name = String::from_str("Fastfile");
            let paths = fastfile_paths(config.project.ios_path.as_str());
            assert(paths.deep_view().len() == paths@.len());
            match first_existing(exists) {
                Some(i) => {
                    if i < paths.len() {
                        assert(paths.deep_view()[i as int] == paths@[i as int]@);
                        return Some(CheckResult { name, passed: true, message: paths[i].clone() });
                    }
                },
                None => {},
            }
            Some(
                CheckResult {
                    name,
                    passed: false,
                    message: String::from_str("Not found (run: fastlane init in ios directory)"),
                },
            )
        },
        _ => None,
    }
}

/// All checks for what was observed. Xcode, the build tool and the API
/// key are always checked; the project and the lane file only where there
/// is a project.
pub fn diagnose(probe: &Probe) -> (r: Report)
    ensures
        xcode_check_is(r.xcode, probe.xcode_success, probe.xcode_output@),
        fastlane_check_is(r.fastlane, probe.fastlane_found, probe.fastlane_output.deep_view()),
        api_key_check_is(r.api_key, probe.global, probe.home.deep_view(), probe.key_exists),
        project_check_is(
            r.project,
            probe.project_file_exists,
            probe.project,
            probe.ios_path_exists,
        ),
        fastfile_check_is(r.fastfile, probe.project, probe.fastfiles@),
{
    let fastlane = match &probe.fastlane_output {
        Some(stdout) => check_fastlane(probe.fastlane_found, Some(stdout.as_str())),
        None => check_fastlane(probe.fastlane_found, None),
    };
    Report {
        xcode: check_xcode(probe.xcode_success, probe.xcode_output.as_str()),
        fastlane,
        api_key: check_global_config(&probe.global, &probe.home, probe.key_exists),
        project: check_project_config(
            probe.project_file_exists,
            &probe.project,
            probe.ios_path_exists,
        ),
        fastfile: check_fastfile(&probe.project, &probe.fastfiles),
    }
}

impl Report {
    /// The checks in the order in which they are shown.
    pub fn checks(self) -> (r: Vec<CheckResult>)
        ensures
            r@ == checks_of(self),
    {
        let mut out: Vec<CheckResult> = Vec::new();
        out.push(self.xcode);
        out.push(self.fastlane);
        out.push(self.api_key);
        assert(out@ =~= seq![self.xcode, self.fastlane, self.api_key]);
        match self.project {
            Some(c) => {
                out.push(c);
            },
            None => {},
        }
        match self.fastfile {
            Some(c) => {
                out.push(c);
            },
            None => {},
        }
        out
    }
}

/// How many of the checks failed.
pub fn failed_count(checks: &Vec<CheckResult>) -> (r: usize)
    ensures
        r == failed_in(checks@),
{
    let mut failed: usize = 0;
    let mut i: usize = 0;
    assert(checks@.subrange(0, 0) =~= Seq::<CheckResult>::empty());
    while i < checks.len()
        invariant
            i <= checks.len(),
            failed <= i,
            failed == failed_in(checks@.subrange(0, i as int)),
        decreases checks.len() - i,
    {
        assert(checks@.subrange(0, i + 1).drop_last() =~= checks@.subrange(0, i as int));
        if !checks[i].passed {
            failed += 1;
        }
        i += 1;
    }
    assert(checks@.subrange(0, i as int) =~= checks@);
    failed
}

/// The verdict over all checks: it fails as soon as one check failed.
pub fn verdict(checks: &Vec<CheckResult>) -> (r: Result<(), DoctorError>)
    ensures
        r is Ok <==> failed_in(checks@) == 0,
{
    if failed_count(checks) > 0 {
        Err(DoctorError::ChecksFailed)
    } else {
        Ok(())
    }
}

} // verus!
