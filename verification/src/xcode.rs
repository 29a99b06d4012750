//! Queries against the local Xcode toolchain: which command to run for a
//! project directory, and what its output means.

use vstd::prelude::*;
use vstd::string::*;
use crate::text::{
    after_first, cat, contains, ends_with, has_prefix, has_substring, has_suffix, join_path,
    joined, lines, lines_of, same_text, starts_with, text_after_first, trim, trimmed,
};

verus! {

#[derive(Debug, Clone, PartialEq, Eq)]
pub enum XcodeError {
    CommandFailed(String),
    NoProjectFound(String),
    Io(String),
}

impl XcodeError {
    /// The text shown to the user for this error.
    pub open spec fn text(&self) -> Seq<char> {
        match *self {
            XcodeError::CommandFailed(m) => "Xcode command failed: "@ + m@,
            XcodeError::NoProjectFound(p) => "No Xcode project found at: "@ + p@,
            XcodeError::Io(m) => "IO error: "@ + m@,
        }
    }

    /// The text shown to the user for this error, as a string.
    pub fn message(&self) -> (r: String)
        ensures
            r@ == self.text(),
    {
        match self {
            XcodeError::CommandFailed(m) => cat("Xcode command failed: ", m.as_str()),
            XcodeError::NoProjectFound(p) => cat("No Xcode project found at: ", p.as_str()),
            XcodeError::Io(m) => cat("IO error: ", m.as_str()),
        }
    }
}

#[derive(Debug, Clone, PartialEq, Eq)]
pub struct Xcode;

/// Each line without its surrounding whitespace.
pub open spec fn trim_each(lines: Seq<Seq<char>>) -> Seq<Seq<char>> {
    Seq::new(lines.len(), |i: int| trimmed(lines[i]))
}

/// The run of scheme names that starts at line `from`: it ends before the
/// first empty line or line that ends in a colon.
pub open spec fn scheme_names(lines: Seq<Seq<char>>, from: int) -> Seq<Seq<char>>
    decreases lines.len() - from,
{
    if from < 0 || from >= lines.len() || lines[from].len() == 0 || has_suffix(lines[from], ":"@) {
        Seq::empty()
    } else {
        seq![lines[from]] + scheme_names(lines, from + 1)
    }
}

/// The scheme names listed under the first `Schemes:` line at or after `from`.
pub open spec fn schemes_after_header(lines: Seq<Seq<char>>, from: int) -> Seq<Seq<char>>
    decreases lines.len() - from,
{
    if from < 0 || from >= lines.len() {
        Seq::empty()
    } else if lines[from] == "Schemes:"@ {
        scheme_names(lines, from + 1)
    } else {
        schemes_after_header(lines, from + 1)
    }
}

/// A directory entry that names a workspace, other than the one Xcode keeps
/// inside a project bundle.
pub open spec fn is_workspace_name(name: Seq<char>) -> bool {
    has_suffix(name, ".xcworkspace"@) && !has_prefix(name, "project."@)
}

/// A directory entry that names a project.
pub open spec fn is_project_name(name: Seq<char>) -> bool {
    has_suffix(name, ".xcodeproj"@)
}

/// The first workspace entry at or after `from`.
pub open spec fn first_workspace(names: Seq<Seq<char>>, from: int) -> Option<Seq<char>>
    decreases names.len() - from,
{
    if from < 0 || from >= names.len() {
        None
    } else if is_workspace_name(names[from]) {
        Some(names[from])
    } else {
        first_workspace(names, from + 1)
    }
}

/// The first project entry at or after `from`.
pub open spec fn first_project(names: Seq<Seq<char>>, from: int) -> Option<Seq<char>>
    decreases names.len() - from,
{
    if from < 0 || from >= names.len() {
        None
    } else if is_project_name(names[from]) {
        Some(names[from])
    } else {
        first_project(names, from + 1)
    }
}

/// The arguments that point `xcodebuild` at what `dir` holds: the workspace
/// if there is one, else the project, else nothing.
pub open spec fn container_args_of(dir: Seq<char>, names: Seq<Seq<char>>) -> Seq<Seq<char>> {
    match first_workspace(names, 0) {
        Some(w) => seq!["-workspace"@, joined(dir, w)],
        None => match first_project(names, 0) {
            Some(p) => seq!["-project"@, joined(dir, p)],
            None => Seq::empty(),
        },
    }
}

/// The bundle identifier given by the first line at or after `from` that
/// mentions the build setting and holds an `=`.
pub open spec fn bundle_id_from(lines: Seq<Seq<char>>, from: int) -> Option<Seq<char>>
    decreases lines.len() - from,
{
    if from < 0 || from >= lines.len() {
        None
    } else if has_substring(lines[from], "PRODUCT_BUNDLE_IDENTIFIER"@) && after_first(
        lines[from],
        '=',
    ) is Some {
        Some(trimmed(after_first(lines[from], '=')->0))
    } else {
        bundle_id_from(lines, from + 1)
    }
}

/// The version that `xcodebuild -version` reported: the first line of its
/// output, when the command succeeded and that line is not empty.
pub open spec fn version_line(success: bool, lines: Seq<Seq<char>>) -> Option<Seq<char>> {
    if success && lines.len() > 0 && lines[0].len() > 0 {
        Some(lines[0])
    } else {
        None
    }
}

/// Trims every line.
pub fn trim_lines(lines: &Vec<String>) -> (r: Vec<String>)
    ensures
        r.deep_view() == trim_each(lines.deep_view()),
{
    let mut out: Vec<String> = Vec::new();
    let mut i: usize = 0;
    while i < lines.len()
        invariant
            i <= lines.len(),
            out.len() == i,
            forall|k: int| 0 <= k < i ==> out@[k]@ == trimmed(lines@[k]@),
        decreases lines.len() - i,
    {
        out.push(trim(lines[i].as_str()));
        i += 1;
    }
    assert(out.deep_view() =~= trim_each(lines.deep_view()));
    out
}

/// Collects the scheme names from lines that are already trimmed.
pub fn schemes_in_lines(lines: &Vec<String>) -> (r: Vec<String>)
    ensures
        r.deep_view() == schemes_after_header(lines.deep_view(), 0),
{
    let ghost all = lines.deep_view();
    let mut out: Vec<String> = Vec::new();
    let mut i: usize = 0;
    while i < lines.len() && !same_text(lines[i].as_str(), "Schemes:")
        invariant
            i <= lines.len(),
            all == lines.deep_view(),
            schemes_after_header(all, 0) == schemes_after_header(all, i as int),
        decreases lines.len() - i,
    {
        i += 1;
    }
    if i >= lines.len() {
        assert(out.deep_view() =~= Seq::<Seq<char>>::empty());
        return out;
    }
    let start: usize = i + 1;
    let mut j: usize = start;
    assert(out.deep_view() =~= Seq::<Seq<char>>::empty());
    while j < lines.len() && !(lines[j].as_str().is_empty() || ends_with(lines[j].as_str(), ":"))
        invariant
            start <= j <= lines.len(),
            all == lines.deep_view(),
            out.deep_view() + scheme_names(all, j as int) == scheme_names(all, start as int),
        decreases lines.len() - j,
    {
        let ghost before = out.deep_view();
        out.push(lines[j].clone());
        assert(out.deep_view() =~= before.push(all[j as int]));
        assert(before.push(all[j as int]) + scheme_names(all, j + 1) =~= before + scheme_names(
            all,
            j as int,
        ));
        j += 1;
    }
    assert(out.deep_view() + scheme_names(all, j as int) =~= out.deep_view());
    out
}

/// The scheme names in the output of `xcodebuild -list`.
pub fn parse_schemes(output: &str) -> (r: Vec<String>)
    ensures
        r.deep_view() == schemes_after_header(trim_each(lines_of(output@)), 0),
{
    let raw = lines(output);
    let clean = trim_lines(&raw);
    schemes_in_lines(&clean)
}

/// The workspace in a directory, as a path: the first entry that names one.
pub fn find_workspace(dir: &str, names: &Vec<String>) -> (r: Option<String>)
    ensures
        r.deep_view() == match first_workspace(names.deep_view(), 0) {
            Some(n) => Some(joined(dir@, n)),
            None => None,
        },
{
    let mut i: usize = 0;
    while i < names.len()
        invariant
            i <= names.len(),
            first_workspace(names.deep_view(), 0) == first_workspace(names.deep_view(), i as int),
        decreases names.len() - i,
    {
        let name = names[i].as_str();
        if ends_with(name, ".xcworkspace") && !starts_with(name, "project.") {
            return Some(join_path(dir, name));
        }
        i += 1;
    }
    None
}

/// The project in a directory, as a path: the first entry that names one.
pub fn find_project(dir: &str, names: &Vec<String>) -> (r: Option<String>)
    ensures
        r.deep_view() == match first_project(names.deep_view(), 0) {
            Some(n) => Some(joined(dir@, n)),
            None => None,
        },
{
    let mut i: usize = 0;
    while i < names.len()
        invariant
            i <= names.len(),
            first_project(names.deep_view(), 0) == first_project(names.deep_view(), i as int),
        decreases names.len() - i,
    {
        let name = names[i].as_str();
        if ends_with(name, ".xcodeproj") {
            return Some(join_path(dir, name));
        }
        i += 1;
    }
    None
}

/// Appends to `args` what points `xcodebuild` at the workspace or project in
/// `dir`, whose entries are `names`.
pub fn push_container_args(args: &mut Vec<String>, dir: &str, names: &Vec<String>)
    ensures
        final(args).deep_view() == old(args).deep_view() + container_args_of(
            dir@,
            names.deep_view(),
        ),
{
    let ghost before = args.deep_view();
    match find_workspace(dir, names) {
        Some(w) => {
            args.push(String::from_str("-workspace"));
            args.push(w);
            assert(args.deep_view() =~= before + container_args_of(dir@, names.deep_view()));
        },
        None => match find_project(dir, names) {
            Some(p) => {
                args.push(String::from_str("-project"));
                args.push(p);
                assert(args.deep_view() =~= before + container_args_of(dir@, names.deep_view()));
            },
            None => {
                assert(args.deep_view() =~= before + container_args_of(dir@, names.deep_view()));
            },
        },
    }
}

/// The bundle identifier in lines of build settings.
pub fn bundle_id_in_lines(lines: &Vec<String>) -> (r: Option<String>)
    ensures
        r.deep_view() == bundle_id_from(lines.deep_view(), 0),
{
    let mut i: usize = 0;
    while i < lines.len()
        invariant
            i <= lines.len(),
            bundle_id_from(lines.deep_view(), 0) == bundle_id_from(lines.deep_view(), i as int),
        decreases lines.len() - i,
    {
        let line = lines[i].as_str();
        if contains(line, "PRODUCT_BUNDLE_IDENTIFIER") {
            match text_after_first(line, '=') {
                Some(value) => {
                    return Some(trim(value.as_str()));
                },
                None => {},
            }
        }
        i += 1;
    }
    None
}

impl Xcode {
    /// The arguments of the `xcodebuild` call that lists the schemes of the
    /// project in `ios_path`, whose entries are `names`. There must be a
    /// workspace or a project to list.
    pub fn list_args(ios_path: &str, names: &Vec<String>) -> (r: Result<Vec<String>, XcodeError>)
        ensures
            match r {
                Ok(args) => container_args_of(ios_path@, names.deep_view()).len() > 0
                    && args.deep_view() == seq!["-list"@] + container_args_of(
                    ios_path@,
                    names.deep_view(),
                ),
                Err(XcodeError::NoProjectFound(p)) => container_args_of(
                    ios_path@,
                    names.deep_view(),
                ).len() == 0 && p@ == ios_path@,
                Err(_) => false,
            },
    {
        let mut args: Vec<String> = Vec::new();
        args.push(String::from_str("-list"));
        assert(args.deep_view() =~= seq!["-list"@]);
        push_container_args(&mut args, ios_path, names);
        assert(args.deep_view().len() == args@.len());
        if args.len() == 1 {
            return Err(XcodeError::NoProjectFound(String::from_str(ios_path)));
        }
        Ok(args)
    }

    /// What the listing command produced: the schemes in its output, or its
    /// error stream when it failed.
    pub fn read_schemes(success: bool, stdout: &str, stderr: &str) -> (r: Result<
        Vec<String>,
        XcodeError,
    >)
        ensures
            match r {
                Ok(schemes) => success && schemes.deep_view() == schemes_after_header(
                    trim_each(lines_of(stdout@)),
                    0,
                ),
                Err(XcodeError::CommandFailed(m)) => !success && m@ == stderr@,
                Err(_) => false,
            },
    {
        if !success {
            return Err(XcodeError::CommandFailed(String::from_str(stderr)));
        }
        Ok(parse_schemes(stdout))
    }

    /// The arguments of the `xcodebuild` call that prints the build settings
    /// of `scheme`.
    pub fn bundle_id_args(ios_path: &str, scheme: &str, names: &Vec<String>) -> (r: Vec<String>)
        ensures
            r.deep_view() == seq!["-showBuildSettings"@, "-scheme"@, scheme@] + container_args_of(
                ios_path@,
                names.deep_view(),
            ),
    {
        let mut args: Vec<String> = Vec::new();
        args.push(String::from_str("-showBuildSettings"));
        args.push(String::from_str("-scheme"));
        args.push(String::from_str(scheme));
        assert(args.deep_view() =~= seq!["-showBuildSettings"@, "-scheme"@, scheme@]);
        push_container_args(&mut args, ios_path, names);
        args
    }

    /// What the build-settings command produced: the bundle identifier in
    /// its output, or why there is none.
    pub fn read_bundle_id(success: bool, stdout: &str, stderr: &str) -> (r: Result<
        String,
        XcodeError,
    >)
        ensures
            match r {
                Ok(id) => success && bundle_id_from(lines_of(stdout@), 0) == Some(id@),
                Err(XcodeError::CommandFailed(m)) => if success {
                    bundle_id_from(lines_of(stdout@), 0) is None && m@
                        == "Could not find bundle identifier"@
                } else {
                    m@ == stderr@
                },
                Err(_) => false,
            },
    {
        if !success {
            return Err(XcodeError::CommandFailed(String::from_str(stderr)));
        }
        let all = lines(stdout);
        match bundle_id_in_lines(&all) {
            Some(id) => Ok(id),
            None => Err(
                XcodeError::CommandFailed(String::from_str("Could not find bundle identifier")),
            ),
        }
    }

    /// The Xcode version in the output of `xcodebuild -version`.
    pub fn read_version(success: bool, stdout: &str) -> (r: Option<String>)
        ensures
            r.deep_view() == version_line(success, lines_of(stdout@)),
    {
        if !success {
            return None;
        }
        let all = lines(stdout);
        if all.len() == 0 || all[0].as_str().is_empty() {
            return None;
        }
        Some(all[0].clone())
    }
}

} // verus!
