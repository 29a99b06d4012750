use launchpad::commands::init::{
    choose_bundle_id, choose_scheme, detect_ios_path, ensure_uninitialized, fastfile_step,
    fastfile_target, gitignore_update, has_container, install_confirmed, install_outcome,
    install_step, ios_candidates, resolve_ios_path, tag_policy, Choice, FastfileStep, InitError,
    InstallStep,
};
use launchpad::commands::setup::{
    confirmed, credentials, key_file_name, keys_dir, stored_key_path, SetupError,
};
use launchpad::config::global::{AppleConfig, GlobalConfig};
use launchpad::config::project::DeploySettings;
use launchpad::xcode::XcodeError;

fn strings(items: &[&str]) -> Vec<String> {
    items.iter().map(|s| s.to_string()).collect()
}

#[test]
fn init_refuses_an_initialized_project() {
    assert_eq!(ensure_uninitialized(true), Err(InitError::AlreadyInitialized));
    assert_eq!(ensure_uninitialized(true), Err(InitError::AlreadyInitialized));
    assert_eq!(ensure_uninitialized(false), Ok(()));
}

#[test]
fn install_decisions() {
    assert_eq!(install_step(true, false), InstallStep::Ready);
    assert_eq!(install_step(true, true), InstallStep::Ready);
    assert_eq!(install_step(false, true), InstallStep::Install);
    assert_eq!(install_step(false, false), InstallStep::Ask);
    assert_eq!(install_confirmed(true), Ok(()));
    assert_eq!(install_confirmed(false), Err(InitError::UserCancelled));
    assert_eq!(install_outcome(true), Ok(()));
    assert_eq!(install_outcome(false), Err(InitError::FastlaneInstallFailed));
}

#[test]
fn ios_candidates_in_order() {
    assert_eq!(ios_candidates(), strings(&["ios", ".", "App", "app"]));
}

#[test]
fn has_container_looks_at_the_extension() {
    assert!(has_container(&strings(&["a", "App.xcodeproj"])));
    assert!(has_container(&strings(&["project.xcworkspace"])));
    assert!(!has_container(&strings(&["xcodeproj", "App.xcodeproj.bak"])));
    assert!(!has_container(&strings(&[])));
}

#[test]
fn detect_ios_path_takes_the_first_match() {
    let none = strings(&["README.md"]);
    let proj = strings(&["App.xcodeproj"]);
    let ws = strings(&["App.xcworkspace"]);
    assert_eq!(
        detect_ios_path(&vec![proj.clone(), ws.clone(), none.clone(), none.clone()]),
        Some("ios".to_string())
    );
    assert_eq!(
        detect_ios_path(&vec![none.clone(), ws.clone(), proj.clone(), none.clone()]),
        Some(".".to_string())
    );
    assert_eq!(
        detect_ios_path(&vec![none.clone(), none.clone(), none.clone(), proj.clone()]),
        Some("app".to_string())
    );
    assert_eq!(detect_ios_path(&vec![none.clone(), none.clone(), none.clone(), none.clone()]), None);
    assert_eq!(
        detect_ios_path(&vec![none.clone(), none.clone(), none.clone(), none.clone(), proj.clone()]),
        None
    );
    assert_eq!(detect_ios_path(&vec![]), None);
    assert_eq!(detect_ios_path(&vec![none, vec![], ws]), Some("App".to_string()));
}

#[test]
fn resolve_ios_path_prefers_the_argument() {
    assert_eq!(resolve_ios_path(Some("mobile".into()), Some("ios".into())), Ok("mobile".into()));
    assert_eq!(resolve_ios_path(None, Some("ios".into())), Ok("ios".into()));
    assert_eq!(resolve_ios_path(None, None), Err(InitError::NoIosProject));
    assert_eq!(resolve_ios_path(Some(String::new()), Some("ios".into())), Err(InitError::NoIosProject));
    assert_eq!(resolve_ios_path(None, Some(String::new())), Err(InitError::NoIosProject));
}

#[test]
fn choose_scheme_cases() {
    let many = strings(&["One", "Two"]);
    assert_eq!(choose_scheme(Some("Mine".into()), &many, false), Ok(Choice::Use("Mine".into())));
    assert_eq!(choose_scheme(Some("Mine".into()), &vec![], false), Ok(Choice::Use("Mine".into())));
    assert_eq!(choose_scheme(None, &vec![], true), Err(InitError::NoSchemeDetected));
    assert_eq!(choose_scheme(None, &strings(&["Only"]), false), Ok(Choice::Use("Only".into())));
    assert_eq!(choose_scheme(None, &many, true), Ok(Choice::Use("One".into())));
    assert_eq!(choose_scheme(None, &many, false), Ok(Choice::Ask("One".into())));
}

#[test]
fn choose_bundle_id_cases() {
    let failed = || Err(XcodeError::CommandFailed("x".into()));
    assert_eq!(choose_bundle_id(Some("a.b".into()), Ok("c.d".into()), false), Choice::Use("a.b".into()));
    assert_eq!(choose_bundle_id(None, Ok("c.d".into()), true), Choice::Use("c.d".into()));
    assert_eq!(choose_bundle_id(None, Ok("c.d".into()), false), Choice::Ask("c.d".into()));
    assert_eq!(choose_bundle_id(None, failed(), true), Choice::Use("com.example.app".into()));
    assert_eq!(choose_bundle_id(None, failed(), false), Choice::Ask("com.example.app".into()));
}

#[test]
fn tag_policy_cases() {
    let all = DeploySettings { git_tag: true, push_tags: true, clean_artifacts: true };
    assert_eq!(tag_policy(true, false, false), all);
    assert_eq!(tag_policy(false, true, true), all);
    assert_eq!(
        tag_policy(false, true, false),
        DeploySettings { git_tag: true, push_tags: false, clean_artifacts: true }
    );
    assert_eq!(
        tag_policy(false, false, true),
        DeploySettings { git_tag: false, push_tags: false, clean_artifacts: true }
    );
}

#[test]
fn fastfile_step_cases() {
    assert_eq!(
        fastfile_step("ios", &vec![false, false, true, false], false),
        FastfileStep::Found("fastlane/Fastfile".into())
    );
    assert_eq!(
        fastfile_step("ios", &vec![true, false, true, false], true),
        FastfileStep::Found("ios/fastlane/Fastfile".into())
    );
    assert_eq!(fastfile_step("ios", &vec![false; 4], true), FastfileStep::Create);
    assert_eq!(fastfile_step("ios", &vec![false; 4], false), FastfileStep::Ask);
    assert_eq!(fastfile_step("ios", &vec![], true), FastfileStep::Create);
}

#[test]
fn fastfile_target_is_inside_the_project() {
    assert_eq!(
        fastfile_target("ios"),
        ("ios/fastlane".to_string(), "ios/fastlane/Fastfile".to_string())
    );
}

#[test]
fn gitignore_update_adds_the_file_once() {
    assert_eq!(
        gitignore_update("target/\n"),
        Some("target/\n\n.launchpad.toml\n".to_string())
    );
    assert_eq!(gitignore_update(""), Some("\n.launchpad.toml\n".to_string()));
    assert_eq!(gitignore_update("a\n.launchpad.toml\nb\n"), None);
    assert_eq!(gitignore_update(".launchpad.toml.example"), None);
}

#[test]
fn init_error_messages() {
    assert_eq!(InitError::NoIosProject.message(), "No iOS project found in current directory");
    assert_eq!(
        InitError::NoSchemeDetected.message(),
        "Could not detect Xcode scheme. Use --scheme to specify."
    );
    assert_eq!(
        InitError::AlreadyInitialized.message(),
        ".launchpad.toml already exists. Delete it first to reinitialize."
    );
    assert_eq!(InitError::Io("x".into()).message(), "IO error: x");
    assert_eq!(InitError::Xcode("x".into()).message(), "Xcode error: x");
    assert_eq!(InitError::FastlaneInstallFailed.message(), "fastlane installation failed");
    assert_eq!(InitError::UserCancelled.message(), "User cancelled");
}

#[test]
fn setup_decisions() {
    assert_eq!(confirmed(true), Ok(()));
    assert_eq!(confirmed(false), Err(SetupError::Cancelled));
    assert_eq!(key_file_name("ABC123"), "AuthKey_ABC123.p8");
    assert_eq!(keys_dir("/home/me/.launchpad"), "/home/me/.launchpad/keys");
    assert_eq!(
        stored_key_path(true, "AuthKey_ABC123.p8", "/tmp/k.p8".into()),
        "~/.launchpad/keys/AuthKey_ABC123.p8"
    );
    assert_eq!(stored_key_path(false, "AuthKey_ABC123.p8", "/tmp/k.p8".into()), "/tmp/k.p8");
    assert_eq!(
        credentials("K".into(), "I".into(), "/p".into()),
        GlobalConfig {
            apple: AppleConfig { key_id: "K".into(), issuer_id: "I".into(), key_path: "/p".into() }
        }
    );
}

#[test]
fn setup_error_messages() {
    assert_eq!(SetupError::Io("x".into()).message(), "IO error: x");
    assert_eq!(SetupError::Config("x".into()).message(), "Config error: x");
    assert_eq!(SetupError::Cancelled.message(), "Setup cancelled");
}
