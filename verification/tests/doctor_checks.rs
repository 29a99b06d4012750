use launchpad::commands::doctor::{
    check_fastfile, check_fastlane, check_global_config, check_project_config, check_xcode,
    diagnose, failed_count, fastlane_version, verdict, CheckResult, DoctorError, Probe,
};
use launchpad::config::global::{AppleConfig, ConfigError, GlobalConfig};
use launchpad::config::project::{
    DeploySettings, ProjectConfig, ProjectConfigError, ProjectSettings,
};

fn check(name: &str, passed: bool, message: &str) -> CheckResult {
    CheckResult { name: name.into(), passed, message: message.into() }
}

fn global() -> GlobalConfig {
    GlobalConfig {
        apple: AppleConfig {
            key_id: "KEY".into(),
            issuer_id: "ISSUER".into(),
            key_path: "~/k.p8".into(),
        },
    }
}

fn project() -> ProjectConfig {
    ProjectConfig {
        project: ProjectSettings {
            ios_path: "ios".into(),
            scheme: "App".into(),
            bundle_id: "com.acme.app".into(),
        },
        deploy: DeploySettings::default(),
    }
}

#[test]
fn xcode_check() {
    assert_eq!(check_xcode(true, "Xcode 15.2\nBuild version 1\n"), check("Xcode", true, "Xcode 15.2"));
    assert_eq!(check_xcode(true, ""), check("Xcode", true, "Unknown"));
    assert_eq!(
        check_xcode(false, "Xcode 15.2\n"),
        check("Xcode", false, "Not installed (run: xcode-select --install)")
    );
}

#[test]
fn fastlane_check() {
    assert_eq!(
        check_fastlane(true, Some("fastlane installation at path:\n/usr/lib\n-----\nfastlane 2.219.0\n")),
        check("fastlane", true, "path:")
    );
    assert_eq!(check_fastlane(true, Some("fastlane 2.219.0\n")), check("fastlane", true, "2.219.0"));
    assert_eq!(check_fastlane(true, Some("nothing here\n")), check("fastlane", true, "installed"));
    assert_eq!(check_fastlane(true, None), check("fastlane", true, "installed"));
    assert_eq!(
        check_fastlane(false, Some("fastlane 2.219.0\n")),
        check("fastlane", false, "Not installed (run: brew install fastlane)")
    );
}

#[test]
fn fastlane_version_is_the_last_word() {
    assert_eq!(fastlane_version("x\n  fastlane   2.1.0  \n"), "2.1.0");
    assert_eq!(fastlane_version("fastlane"), "fastlane");
    assert_eq!(fastlane_version(""), "installed");
}

#[test]
fn global_config_check() {
    let home = Some("/Users/me".to_string());
    assert_eq!(
        check_global_config(&Ok(Some(global())), &home, true),
        check("Apple API key", true, "Configured (KEY)")
    );
    assert_eq!(
        check_global_config(&Ok(Some(global())), &home, false),
        check("Apple API key", false, "Key file not found: /Users/me/k.p8")
    );
    assert_eq!(
        check_global_config(&Ok(None), &home, false),
        check("Apple API key", false, "Not configured (run: launchpad setup)")
    );
    assert_eq!(
        check_global_config(&Err(ConfigError::TomlParse("bad".into())), &home, false),
        check("Apple API key", false, "Config error: TOML parse error: bad")
    );
}

#[test]
fn project_config_check() {
    assert_eq!(check_project_config(false, &Ok(Some(project())), true), None);
    assert_eq!(
        check_project_config(true, &Ok(Some(project())), true),
        Some(check("Project", true, "ios (scheme: App)"))
    );
    assert_eq!(
        check_project_config(true, &Ok(Some(project())), false),
        Some(check("Project", false, "iOS path not found: ios"))
    );
    assert_eq!(check_project_config(true, &Ok(None), true), None);
    assert_eq!(
        check_project_config(true, &Err(ProjectConfigError::TomlParse("bad".into())), true),
        Some(check("Project", false, "Config error: TOML parse error: bad"))
    );
}

#[test]
fn fastfile_check() {
    let loaded = Ok(Some(project()));
    assert_eq!(
        check_fastfile(&loaded, &vec![false, true, false, true]),
        Some(check("Fastfile", true, "ios/Fastfile"))
    );
    assert_eq!(
        check_fastfile(&loaded, &vec![true, true, true, true]),
        Some(check("Fastfile", true, "ios/fastlane/Fastfile"))
    );
    assert_eq!(
        check_fastfile(&loaded, &vec![false, false, false, true]),
        Some(check("Fastfile", true, "Fastfile"))
    );
    assert_eq!(
        check_fastfile(&loaded, &vec![false, false, false, false]),
        Some(check("Fastfile", false, "Not found (run: fastlane init in ios directory)"))
    );
    assert_eq!(
        check_fastfile(&loaded, &vec![false, false, false, false, true]),
        Some(check("Fastfile", false, "Not found (run: fastlane init in ios directory)"))
    );
    assert_eq!(check_fastfile(&Ok(None), &vec![true]), None);
    assert_eq!(check_fastfile(&Err(ProjectConfigError::Io("x".into())), &vec![true]), None);
}

#[test]
fn verdict_fails_with_one_failed_check() {
    let good = check("a", true, "");
    let bad = check("b", false, "");
    assert_eq!(failed_count(&vec![]), 0);
    assert_eq!(failed_count(&vec![good.clone(), bad.clone(), good.clone(), bad.clone()]), 2);
    assert_eq!(verdict(&vec![]), Ok(()));
    assert_eq!(verdict(&vec![good.clone(), good.clone()]), Ok(()));
    assert_eq!(verdict(&vec![good, bad]), Err(DoctorError::ChecksFailed));
    assert_eq!(DoctorError::ChecksFailed.message(), "Prerequisites check failed");
}

fn healthy() -> Probe {
    Probe {
        xcode_success: true,
        xcode_output: "Xcode 15.2\nBuild version 15C500b\n".into(),
        fastlane_found: true,
        fastlane_output: Some("fastlane 2.219.0\n".into()),
        global: Ok(Some(global())),
        home: Some("/Users/me".into()),
        key_exists: true,
        project_file_exists: true,
        project: Ok(Some(project())),
        ios_path_exists: true,
        fastfiles: vec![true, false, false, false],
    }
}

#[test]
fn diagnose_reports_every_check_in_order() {
    let checks = diagnose(&healthy()).checks();
    assert_eq!(
        checks,
        vec![
            check("Xcode", true, "Xcode 15.2"),
            check("fastlane", true, "2.219.0"),
            check("Apple API key", true, "Configured (KEY)"),
            check("Project", true, "ios (scheme: App)"),
            check("Fastfile", true, "ios/fastlane/Fastfile"),
        ]
    );
    assert_eq!(failed_count(&checks), 0);
    assert_eq!(verdict(&checks), Ok(()));
}

#[test]
fn diagnose_outside_a_project_makes_three_checks() {
    let mut probe = healthy();
    probe.project_file_exists = false;
    probe.project = Ok(None);
    probe.fastlane_found = false;
    probe.fastlane_output = None;
    probe.key_exists = false;
    let checks = diagnose(&probe).checks();
    assert_eq!(
        checks,
        vec![
            check("Xcode", true, "Xcode 15.2"),
            check("fastlane", false, "Not installed (run: brew install fastlane)"),
            check("Apple API key", false, "Key file not found: /Users/me/k.p8"),
        ]
    );
    assert_eq!(failed_count(&checks), 2);
    assert_eq!(verdict(&checks), Err(DoctorError::ChecksFailed));
}

#[test]
fn diagnose_with_a_broken_project_file() {
    let mut probe = healthy();
    probe.project = Err(ProjectConfigError::TomlParse("bad".into()));
    probe.fastfiles = Vec::new();
    let report = diagnose(&probe);
    assert_eq!(
        report.project,
        Some(check("Project", false, "Config error: TOML parse error: bad"))
    );
    assert_eq!(report.fastfile, None);
    assert_eq!(report.checks().len(), 4);
}
