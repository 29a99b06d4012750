use launchpad::xcode::{
    bundle_id_in_lines, find_project, find_workspace, parse_schemes, schemes_in_lines, trim_lines,
    Xcode, XcodeError,
};

fn strings(items: &[&str]) -> Vec<String> {
    items.iter().map(|s| s.to_string()).collect()
}

#[test]
fn parse_schemes_reads_the_listed_names() {
    let output = "Schemes:\n  A\n  B\n\nBuild Configurations:\n  Debug\n";
    assert_eq!(parse_schemes(output), strings(&["A", "B"]));
}

#[test]
fn parse_schemes_of_real_output() {
    let output = "Information about project \"App\":\n    Targets:\n        App\n\n    Build Configurations:\n        Debug\n        Release\n\n    Schemes:\n        App\n        App Staging\n";
    assert_eq!(parse_schemes(output), strings(&["App", "App Staging"]));
}

#[test]
fn parse_schemes_without_header_is_empty() {
    assert_eq!(parse_schemes("Targets:\n  A\n"), Vec::<String>::new());
    assert_eq!(parse_schemes(""), Vec::<String>::new());
}

#[test]
fn parse_schemes_stops_at_a_header_like_line() {
    assert_eq!(parse_schemes("Schemes:\nA\nTargets:\nB\n"), strings(&["A"]));
    assert_eq!(parse_schemes("Schemes:\nA\nSchemes:\nB\n"), strings(&["A"]));
    assert_eq!(parse_schemes("Schemes:\n\nA\n"), Vec::<String>::new());
}

#[test]
fn parse_schemes_handles_carriage_returns() {
    assert_eq!(parse_schemes("Schemes:\r\n  A\r\n  B\r\n"), strings(&["A", "B"]));
}

#[test]
fn trim_lines_trims_each_line() {
    assert_eq!(trim_lines(&strings(&["  a ", "\tb", "", " "])), strings(&["a", "b", "", ""]));
}

#[test]
fn schemes_in_lines_uses_the_first_header() {
    let lines = strings(&["x", "Schemes:", "One", "Two", "", "Schemes:", "Three"]);
    assert_eq!(schemes_in_lines(&lines), strings(&["One", "Two"]));
    assert_eq!(schemes_in_lines(&strings(&["Schemes:"])), Vec::<String>::new());
    assert_eq!(schemes_in_lines(&strings(&[])), Vec::<String>::new());
}

#[test]
fn find_workspace_skips_the_inner_workspace() {
    let names = strings(&["README.md", "project.xcworkspace", "App.xcworkspace", "B.xcworkspace"]);
    assert_eq!(find_workspace("ios", &names), Some("ios/App.xcworkspace".to_string()));
    assert_eq!(find_workspace("ios", &strings(&["project.xcworkspace"])), None);
    assert_eq!(find_workspace("ios", &strings(&[])), None);
}

#[test]
fn find_project_takes_the_first_project() {
    let names = strings(&["Pods", "App.xcodeproj", "Other.xcodeproj"]);
    assert_eq!(find_project(".", &names), Some("./App.xcodeproj".to_string()));
    assert_eq!(find_project(".", &strings(&["App.xcworkspace"])), None);
}

#[test]
fn list_args_prefers_the_workspace() {
    let names = strings(&["App.xcodeproj", "App.xcworkspace"]);
    assert_eq!(
        Xcode::list_args("ios", &names),
        Ok(strings(&["-list", "-workspace", "ios/App.xcworkspace"]))
    );
    assert_eq!(
        Xcode::list_args("ios", &strings(&["App.xcodeproj"])),
        Ok(strings(&["-list", "-project", "ios/App.xcodeproj"]))
    );
}

#[test]
fn list_args_without_project_fails() {
    assert_eq!(
        Xcode::list_args("ios", &strings(&["README.md"])),
        Err(XcodeError::NoProjectFound("ios".to_string()))
    );
}

#[test]
fn bundle_id_args_name_the_scheme() {
    assert_eq!(
        Xcode::bundle_id_args("ios", "App", &strings(&["App.xcworkspace"])),
        strings(&["-showBuildSettings", "-scheme", "App", "-workspace", "ios/App.xcworkspace"])
    );
    assert_eq!(
        Xcode::bundle_id_args("ios", "App", &strings(&[])),
        strings(&["-showBuildSettings", "-scheme", "App"])
    );
}

#[test]
fn read_schemes_reports_a_failed_command() {
    assert_eq!(
        Xcode::read_schemes(false, "Schemes:\nA\n", "boom"),
        Err(XcodeError::CommandFailed("boom".to_string()))
    );
    assert_eq!(Xcode::read_schemes(true, "Schemes:\nA\n", "boom"), Ok(strings(&["A"])));
}

#[test]
fn read_bundle_id_finds_the_setting() {
    let out = "Build settings for action build:\n    PRODUCT_NAME = App\n    PRODUCT_BUNDLE_IDENTIFIER = com.acme.app\n";
    assert_eq!(Xcode::read_bundle_id(true, out, ""), Ok("com.acme.app".to_string()));
}

#[test]
fn read_bundle_id_skips_lines_without_a_value() {
    let lines = strings(&["PRODUCT_BUNDLE_IDENTIFIER", "PRODUCT_BUNDLE_IDENTIFIER =  a.b.c  "]);
    assert_eq!(bundle_id_in_lines(&lines), Some("a.b.c".to_string()));
    assert_eq!(bundle_id_in_lines(&strings(&["X = y"])), None);
}

#[test]
fn read_bundle_id_failures() {
    assert_eq!(
        Xcode::read_bundle_id(true, "NOTHING = here\n", ""),
        Err(XcodeError::CommandFailed("Could not find bundle identifier".to_string()))
    );
    assert_eq!(
        Xcode::read_bundle_id(false, "PRODUCT_BUNDLE_IDENTIFIER = a\n", "no scheme"),
        Err(XcodeError::CommandFailed("no scheme".to_string()))
    );
}

#[test]
fn read_version_takes_the_first_line() {
    assert_eq!(
        Xcode::read_version(true, "Xcode 15.2\nBuild version 15C500b\n"),
        Some("Xcode 15.2".to_string())
    );
    assert_eq!(Xcode::read_version(true, "Xcode 15.2\r\n"), Some("Xcode 15.2".to_string()));
    assert_eq!(Xcode::read_version(true, ""), None);
    assert_eq!(Xcode::read_version(true, "\nXcode 15.2\n"), None);
    assert_eq!(Xcode::read_version(false, "Xcode 15.2\n"), None);
}

#[test]
fn xcode_error_messages() {
    assert_eq!(XcodeError::CommandFailed("x".into()).message(), "Xcode command failed: x");
    assert_eq!(XcodeError::NoProjectFound("ios".into()).message(), "No Xcode project found at: ios");
    assert_eq!(XcodeError::Io("gone".into()).message(), "IO error: gone");
}
