//! The build-automation tool: how it is invoked, and what its output says
//! about the version that was uploaded.

use vstd::prelude::*;
use vstd::string::*;
use crate::config::global::GlobalConfig;
use crate::config::project::ProjectConfig;
use crate::home::{expand_tilde_in, home_dir, tilde_expanded};
use crate::text::{cat, contains, has_substring, same_text};

verus! {

#[derive(Debug, Clone, PartialEq, Eq)]
pub enum FastlaneError {
    CommandFailed(String),
    Io(String),
    VersionParseFailed,
}

impl FastlaneError {
    /// The text shown to the user for this error.
    pub open spec fn text(&self) -> Seq<char> {
        match *self {
            FastlaneError::CommandFailed(m) => "Fastlane command failed: "@ + m@,
            FastlaneError::Io(m) => "IO error: "@ + m@,
            FastlaneError::VersionParseFailed => "Could not parse version from output"@,
        }
    }

    /// The text shown to the user for this error, as a string.
    pub fn message(&self) -> (r: String)
        ensures
            r@ == self.text(),
    {
        match self {
            FastlaneError::CommandFailed(m) => cat("Fastlane command failed: ", m.as_str()),
            FastlaneError::Io(m) => cat("IO error: ", m.as_str()),
            FastlaneError::VersionParseFailed => String::from_str(
                "Could not parse version from output",
            ),
        }
    }
}

/// What a run of the build tool needs: the credentials, with the key path
/// expanded, and the project it works on.
#[derive(Debug, Clone, PartialEq, Eq)]
pub struct Fastlane {
    pub key_id: String,
    pub issuer_id: String,
    pub key_path: String,
    pub ios_path: String,
    pub scheme: String,
}

/// A version number, optionally followed by a build number in parentheses.
pub const VERSION_PATTERN: &'static str = r"(\d+\.\d+\.\d+)(?:\s*\((\d+)\))?";

/// How many trailing lines of output a failure reports.
pub const ERROR_CONTEXT_LINES: usize = 10;

/// The capture groups of the leftmost match of a regular expression in a
/// text, the whole match first, as `regex_lite` finds them; `None` when the
/// pattern does not compile or does not match.
pub uninterp spec fn capture_groups(pattern: Seq<char>, haystack: Seq<char>) -> Option<
    Seq<Option<Seq<char>>>,
>;

/// Trusted: `regex_lite::Regex::new` followed by `Regex::captures`. The
/// result holds the text of every group of the first match, `None` for a
/// group that took no part in it.
#[verifier::external_body]
pub(crate) fn captures(pattern: &str, haystack: &str) -> (r: Option<Vec<Option<String>>>)
    ensures
        r.deep_view() == capture_groups(pattern@, haystack@),
{
    let re = regex_lite::Regex::new(pattern).ok()?;
    let caps = re.captures(haystack)?;
    Some(caps.iter().map(|m| m.map(|m| m.as_str().to_string())).collect())
}

/// The lane for a version bump: `patch` and `minor` have their own, and
/// everything else only increments the build number.
pub open spec fn lane_of(version_bump: Option<Seq<char>>) -> Seq<char> {
    if version_bump == Some("patch"@) {
        "beta_patch"@
    } else if version_bump == Some("minor"@) {
        "beta_minor"@
    } else {
        "beta"@
    }
}

/// The version that a match of the version pattern stands for: the first
/// group, followed by the second in parentheses where it took part.
pub open spec fn version_of(groups: Option<Seq<Option<Seq<char>>>>) -> Option<Seq<char>> {
    match groups {
        None => None,
        Some(g) => if g.len() < 2 || g[1] is None {
            None
        } else if g.len() > 2 && g[2] is Some {
            Some(g[1]->0 + " ("@ + g[2]->0 + ")"@)
        } else {
            Some(g[1]->0)
        },
    }
}

/// The version that a line of output mentions, if any.
pub open spec fn version_in(line: Seq<char>) -> Option<Seq<char>> {
    version_of(capture_groups(VERSION_PATTERN@, line))
}

/// A line of output that is looked at for a version.
pub open spec fn is_version_line(line: Seq<char>) -> bool {
    has_substring(line, "Version:"@) || has_substring(line, "version:"@) || has_substring(
        line,
        "Successfully uploaded"@,
    ) || has_substring(line, "Build"@)
}

/// The last version seen once `line` has been read on standard output: the
/// one that the line mentions, else the one seen before.
pub open spec fn version_after(seen: Seq<char>, line: Seq<char>) -> Seq<char> {
    if is_version_line(line) && version_in(line) is Some {
        version_in(line)->0
    } else {
        seen
    }
}

/// Lines joined by newlines.
pub open spec fn join_lines(lines: Seq<Seq<char>>) -> Seq<char>
    decreases lines.len(),
{
    if lines.len() == 0 {
        Seq::empty()
    } else if lines.len() == 1 {
        lines[0]
    } else {
        join_lines(lines.drop_last()) + "\n"@ + lines.last()
    }
}

/// The last `n` lines, oldest first; all of them when there are fewer.
pub open spec fn last_lines(lines: Seq<Seq<char>>, n: int) -> Seq<Seq<char>> {
    if lines.len() > n {
        lines.subrange(lines.len() - n, lines.len() as int)
    } else {
        lines
    }
}

/// The places where a lane file is looked for, in order of preference.
pub open spec fn fastfile_candidates(ios_path: Seq<char>) -> Seq<Seq<char>> {
    seq![
        ios_path + "/fastlane/Fastfile"@,
        ios_path + "/Fastfile"@,
        "fastlane/Fastfile"@,
        "Fastfile"@,
    ]
}

/// The first position at or after `from` whose flag is set.
pub open spec fn first_set(flags: Seq<bool>, from: int) -> Option<int>
    decreases flags.len() - from,
{
    if from < 0 || from >= flags.len() {
        None
    } else if flags[from] {
        Some(from)
    } else {
        first_set(flags, from + 1)
    }
}

/// The version that a run reports: the last one seen, or a placeholder when
/// none was.
pub open spec fn reported_version(seen: Seq<char>) -> Seq<char> {
    if seen.len() == 0 {
        "unknown"@
    } else {
        seen
    }
}

/// The version for the capture groups of a match of the version pattern.
pub fn version_from_groups(groups: &Option<Vec<Option<String>>>) -> (r: Option<String>)
    ensures
        r.deep_view() == version_of(groups.deep_view()),
{
    match groups {
        None => None,
        Some(g) => {
            if g.len() < 2 {
                return None;
            }
            assert(g.deep_view()[1] == g@[1].deep_view());
            match &g[1] {
                None => None,
                Some(version) => {
                    if g.len() > 2 {
                        assert(g.deep_view()[2] == g@[2].deep_view());
                        match &g[2] {
                            Some(build) => {
                                let head = cat(version.as_str(), " (");
                                let both = cat(head.as_str(), build.as_str());
                                return Some(cat(both.as_str(), ")"));
                            },
                            None => {},
                        }
                    }
                    Some(version.clone())
                },
            }
        },
    }
}

/// The version that a line of output mentions: the first run of three
/// dot-separated numbers, with a build number in parentheses where one
/// follows.
pub fn extract_version(line: &str) -> (r: Option<String>)
    ensures
        r.deep_view() == version_in(line@),
{
    let groups = captures(VERSION_PATTERN, line);
    version_from_groups(&groups)
}

/// Whether a line of output is looked at for a version.
pub fn mentions_version(line: &str) -> (r: bool)
    ensures
        r == is_version_line(line@),
{
    contains(line, "Version:") || contains(line, "version:") || contains(
        line,
        "Successfully uploaded",
    ) || contains(line, "Build")
}

/// The given lines joined by newlines, from index `from` on; nothing when
/// `from` lies behind the last line.
pub fn join_from(lines: &Vec<String>, from: usize) -> (r: String)
    ensures
        r@ == if from <= lines@.len() {
            join_lines(lines.deep_view().subrange(from as int, lines@.len() as int))
        } else {
            Seq::<char>::empty()
        },
{
    let ghost all = lines.deep_view();
    let mut out = String::new();
    if from > lines.len() {
        return out;
    }
    let mut i: usize = from;
    assert(all.subrange(from as int, from as int) =~= Seq::<Seq<char>>::empty());
    while i < lines.len()
        invariant
            from <= i <= lines.len(),
            all == lines.deep_view(),
            out@ == join_lines(all.subrange(from as int, i as int)),
        decreases lines.len() - i,
    {
        let ghost next = all.subrange(from as int, i + 1);
        assert(next.drop_last() =~= all.subrange(from as int, i as int));
        assert(next.last() == lines@[i as int]@);
        if i > from {
            out.append("\n");
        } else {
            assert(out@ + lines@[i as int]@ =~= lines@[i as int]@);
        }
        out.append(lines[i].as_str());
        i += 1;
    }
    out
}

/// The places where a lane file is looked for, in order of preference.
pub fn fastfile_paths(ios_path: &str) -> (r: Vec<String>)
    ensures
        r.deep_view() == fastfile_candidates(ios_path@),
{
    let mut paths: Vec<String> = Vec::new();
    paths.push(cat(ios_path, "/fastlane/Fastfile"));
    paths.push(cat(ios_path, "/Fastfile"));
    paths.push(String::from_str("fastlane/Fastfile"));
    paths.push(String::from_str("Fastfile"));
    assert(paths.deep_view() =~= fastfile_candidates(ios_path@));
    paths
}

/// The first position whose flag is set.
pub fn first_existing(exists: &Vec<bool>) -> (r: Option<usize>)
    ensures
        match r {
            Some(i) => first_set(exists@, 0) == Some(i as int),
            None => first_set(exists@, 0) is None,
        },
{
    let mut i: usize = 0;
    while i < exists.len()
        invariant
            i <= exists.len(),
            first_set(exists@, 0) == first_set(exists@, i as int),
        decreases exists.len() - i,
    {
        if exists[i] {
            return Some(i);
        }
        i += 1;
    }
    None
}

/// What has been read so far from a running build: every line of both
/// streams in the order of arrival, and the last version that standard
/// output mentioned.
#[derive(Debug, Clone, PartialEq, Eq)]
pub struct Transcript {
    pub last_version: String,
    pub lines: Vec<String>,
}

impl Transcript {
    /// The transcript of a run that has printed nothing yet.
    pub fn new() -> (r: Self)
        ensures
            r.last_version@ == Seq::<char>::empty(),
            r.lines@ == Seq::<String>::empty(),
    {
        Transcript { last_version: String::new(), lines: Vec::new() }
    }

    /// Records a line of standard output. A later version replaces an
    /// earlier one; a line that mentions none leaves it as it was.
    pub fn stdout_line(&mut self, line: String)
        ensures
            final(self).lines@ == old(self).lines@.push(line),
            final(self).last_version@ == version_after(old(self).last_version@, line@),
            version_in(line@) is None ==> final(self).last_version@ == old(self).last_version@,
    {
        if mentions_version(line.as_str()) {
            match extract_version(line.as_str()) {
                Some(version) => {
                    self.last_version = version;
                },
                None => {},
            }
        }
        self.lines.push(line);
    }

    /// Records a line of standard error, which is never looked at for a
    /// version.
    pub fn stderr_line(&mut self, line: String)
        ensures
            final(self).lines@ == old(self).lines@.push(line),
            final(self).last_version == old(self).last_version,
    {
        self.lines.push(line);
    }

    /// The result of the run once the build tool has exited: the version it
    /// uploaded, or on failure the last lines of output it printed.
    pub fn finish(&self, success: bool) -> (r: Result<String, FastlaneError>)
        ensures
            match r {
                Ok(version) => success && version@ == reported_version(self.last_version@),
                Err(FastlaneError::CommandFailed(context)) => !success && context@ == join_lines(
                    last_lines(self.lines.deep_view(), ERROR_CONTEXT_LINES as int),
                ),
                Err(_) => false,
            },
    {
        if !success {
            let n: usize = self.lines.len();
            let from: usize = if n > ERROR_CONTEXT_LINES {
                n - ERROR_CONTEXT_LINES
            } else {
                0
            };
            assert(self.lines.deep_view().subrange(from as int, n as int) =~= last_lines(
                self.lines.deep_view(),
                ERROR_CONTEXT_LINES as int,
            ));
            return Err(FastlaneError::CommandFailed(join_from(&self.lines, from)));
        }
        if self.last_version.as_str().is_empty() {
            Ok(String::from_str("unknown"))
        } else {
            Ok(self.last_version.clone())
        }
    }
}

impl Fastlane {
    /// The invocation for the given configurations, with the key path
    /// expanded against the given home directory.
    pub fn with_home(
        global_config: &GlobalConfig,
        project_config: &ProjectConfig,
        home: &Option<String>,
    ) -> (r: Self)
        ensures
            r.key_id == global_config.apple.key_id,
            r.issuer_id == global_config.apple.issuer_id,
            r.key_path@ == tilde_expanded(global_config.apple.key_path@, home.deep_view()),
            r.ios_path == project_config.project.ios_path,
            r.scheme == project_config.project.scheme,
    {
        Fastlane {
            key_id: global_config.apple.key_id.clone(),
            issuer_id: global_config.apple.issuer_id.clone(),
            key_path: expand_tilde_in(global_config.apple.key_path.as_str(), home),
            ios_path: project_config.project.ios_path.clone(),
            scheme: project_config.project.scheme.clone(),
        }
    }

    /// The invocation for the given configurations, with the key path
    /// expanded against the home directory of the current user.
    pub fn new(global_config: &GlobalConfig, project_config: &ProjectConfig) -> (r: Self)
        ensures
            r.key_id == global_config.apple.key_id,
            r.issuer_id == global_config.apple.issuer_id,
            exists|home: Option<Seq<char>>|
                r.key_path@ == #[trigger] tilde_expanded(global_config.apple.key_path@, home),
            r.ios_path == project_config.project.ios_path,
            r.scheme == project_config.project.scheme,
    {
        let home = home_dir();
        Self::with_home(global_config, project_config, &home)
    }

    /// The lane to run for a version bump.
    pub fn lane(version_bump: Option<&str>) -> (r: &'static str)
        ensures
            r@ == lane_of(
                match version_bump {
                    Some(b) => Some(b@),
                    None => None,
                },
            ),
    {
        match version_bump {
            Some(b) => {
                if same_text(b, "patch") {
                    "beta_patch"
                } else if same_text(b, "minor") {
                    "beta_minor"
                } else {
                    "beta"
                }
            },
            None => "beta",
        }
    }

    /// The environment variables that the build tool is started with: the
    /// key id, the issuer id, the key file, and the timeout for reading
    /// build settings, in this order.
    pub fn environment(&self) -> (r: Vec<(String, String)>)
        ensures
            r@.len() == 4,
            r@[0].0@ == "APP_STORE_CONNECT_API_KEY_KEY_ID"@ && r@[0].1 == self.key_id,
            r@[1].0@ == "APP_STORE_CONNECT_API_KEY_ISSUER_ID"@ && r@[1].1 == self.issuer_id,
            r@[2].0@ == "APP_STORE_CONNECT_API_KEY_KEY_FILEPATH"@ && r@[2].1 == self.key_path,
            r@[3].0@ == "FASTLANE_XCODEBUILD_SETTINGS_TIMEOUT"@ && r@[3].1@ == "180"@,
    {
        let mut env: Vec<(String, String)> = Vec::new();
        env.push((String::from_str("APP_STORE_CONNECT_API_KEY_KEY_ID"), self.key_id.clone()));
        env.push((String::from_str("APP_STORE_CONNECT_API_KEY_ISSUER_ID"), self.issuer_id.clone()));
        env.push(
            (String::from_str("APP_STORE_CONNECT_API_KEY_KEY_FILEPATH"), self.key_path.clone()),
        );
        env.push(
            (String::from_str("FASTLANE_XCODEBUILD_SETTINGS_TIMEOUT"), String::from_str("180")),
        );
        env
    }
}

} // verus!
