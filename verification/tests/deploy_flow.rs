use launchpad::commands::deploy::{
    check_git, git_outcome, require_global, require_project, should_tag, step, tag_message,
    tag_name, validate, version_bump, DeployAction, DeployError, DeployEvent, DeployFlags,
    DeployOutcome, DeployState,
};
use launchpad::config::global::{AppleConfig, ConfigError, GlobalConfig};
use launchpad::config::project::{
    DeploySettings, ProjectConfig, ProjectConfigError, ProjectSettings,
};
use launchpad::fastlane::{Fastlane, FastlaneError, Transcript};

fn global() -> GlobalConfig {
    GlobalConfig {
        apple: AppleConfig {
            key_id: "KEY".into(),
            issuer_id: "ISSUER".into(),
            key_path: "~/keys/AuthKey_KEY.p8".into(),
        },
    }
}

fn project(git_tag: bool, push_tags: bool) -> ProjectConfig {
    ProjectConfig {
        project: ProjectSettings {
            ios_path: "ios".into(),
            scheme: "App".into(),
            bundle_id: "com.acme.app".into(),
        },
        deploy: DeploySettings { git_tag, push_tags, clean_artifacts: true },
    }
}

fn home() -> Option<String> {
    Some("/Users/me".to_string())
}

#[test]
fn dirty_tree_fails_before_the_build() {
    let r = validate(
        Ok(Some(global())),
        Ok(Some(project(true, true))),
        &home(),
        true,
        false,
        Ok(b"?? untracked.txt\n".to_vec()),
    );
    assert_eq!(r, Err(DeployError::DirtyWorkingDirectory));
}

#[test]
fn dirty_tree_is_accepted_when_the_check_is_skipped() {
    let r = validate(
        Ok(Some(global())),
        Ok(Some(project(true, true))),
        &home(),
        true,
        true,
        Ok(b" M src/main.swift\n".to_vec()),
    );
    let (fastlane, config) = r.unwrap();
    assert_eq!(config, project(true, true));
    assert_eq!(fastlane.key_path, "/Users/me/keys/AuthKey_KEY.p8");
    assert_eq!(fastlane.key_id, "KEY");
    assert_eq!(fastlane.issuer_id, "ISSUER");
    assert_eq!(fastlane.ios_path, "ios");
    assert_eq!(fastlane.scheme, "App");
}

#[test]
fn clean_tree_passes_validation() {
    let r = validate(
        Ok(Some(global())),
        Ok(Some(project(true, true))),
        &home(),
        true,
        false,
        Ok(Vec::new()),
    );
    let expected = Fastlane::with_home(&global(), &project(true, true), &home());
    assert_eq!(r, Ok((expected, project(true, true))));
}

#[test]
fn validation_fails_in_order() {
    let dirty = || Ok(b"M x\n".to_vec());
    assert_eq!(
        validate(Ok(None), Ok(None), &home(), false, false, dirty()),
        Err(DeployError::NoGlobalConfig)
    );
    assert_eq!(
        validate(
            Err(ConfigError::TomlParse("bad".into())),
            Ok(None),
            &home(),
            false,
            false,
            dirty()
        ),
        Err(DeployError::Config("TOML parse error: bad".into()))
    );
    assert_eq!(
        validate(Ok(Some(global())), Ok(None), &home(), false, false, dirty()),
        Err(DeployError::NoProjectConfig)
    );
    assert_eq!(
        validate(
            Ok(Some(global())),
            Err(ProjectConfigError::Io("denied".into())),
            &home(),
            false,
            false,
            dirty()
        ),
        Err(DeployError::Config("IO error: denied".into()))
    );
    assert_eq!(
        validate(Ok(Some(global())), Ok(Some(project(true, true))), &home(), false, false, dirty()),
        Err(DeployError::ApiKeyNotFound("/Users/me/keys/AuthKey_KEY.p8".into()))
    );
    assert_eq!(
        validate(
            Ok(Some(global())),
            Ok(Some(project(true, true))),
            &home(),
            true,
            false,
            Err("git missing".to_string())
        ),
        Err(DeployError::Io("git missing".into()))
    );
}

#[test]
fn check_git_treats_any_output_as_dirty() {
    assert_eq!(check_git(false, Ok(Vec::new())), Ok(()));
    assert_eq!(check_git(false, Ok(vec![b'\n'])), Err(DeployError::DirtyWorkingDirectory));
    assert_eq!(check_git(true, Ok(vec![b'M'])), Ok(()));
    assert_eq!(check_git(true, Err("x".into())), Ok(()));
    assert_eq!(check_git(false, Err("x".into())), Err(DeployError::Io("x".into())));
}

#[test]
fn require_configs() {
    assert_eq!(require_global(Ok(Some(global()))), Ok(global()));
    assert_eq!(require_global(Ok(None)), Err(DeployError::NoGlobalConfig));
    assert_eq!(
        require_global(Err(ConfigError::NoConfigDir)),
        Err(DeployError::Config("Could not determine config directory".into()))
    );
    assert_eq!(require_project(Ok(Some(project(true, false)))), Ok(project(true, false)));
    assert_eq!(require_project(Ok(None)), Err(DeployError::NoProjectConfig));
    assert_eq!(
        require_project(Err(ProjectConfigError::TomlParse("bad".into()))),
        Err(DeployError::Config("TOML parse error: bad".into()))
    );
}

#[test]
fn version_bump_from_flags() {
    assert_eq!(version_bump(true, false), Some("patch"));
    assert_eq!(version_bump(false, true), Some("minor"));
    assert_eq!(version_bump(false, false), None);
    assert_eq!(version_bump(true, true), Some("patch"));
}

#[test]
fn tagging_needs_both_the_project_and_the_caller() {
    assert!(should_tag(false, &project(true, true)));
    assert!(!should_tag(true, &project(true, true)));
    assert!(!should_tag(false, &project(false, true)));
    assert!(!should_tag(true, &project(false, true)));
}

#[test]
fn tag_names_and_messages() {
    assert_eq!(tag_name("1.2.1 (9)"), "v1.2.1 (9)");
    assert_eq!(tag_name("unknown"), "vunknown");
    assert_eq!(tag_message("v1.2.1"), "Release v1.2.1");
}

fn flags(patch: bool, minor: bool, no_tag: bool) -> DeployFlags {
    DeployFlags { patch, minor, no_tag, skip_git_check: false }
}

fn done(version: &str) -> DeployState {
    DeployState::Done(DeployOutcome { version: version.into() })
}

/// Runs a deploy to its end on a build that prints `line` and exits with
/// success, and returns the final state with the actions that were asked for.
fn run_deploy(
    flags: &DeployFlags,
    config: ProjectConfig,
    porcelain: &[u8],
    line: &str,
    tag_ok: bool,
) -> (DeployState, Vec<DeployAction>) {
    let mut actions = Vec::new();
    let mut state = DeployState::Idle;
    let mut event = DeployEvent::Started;
    loop {
        let (next, action) = step(flags, state, event).unwrap();
        state = next;
        actions.push(action.clone());
        event = match action {
            DeployAction::Validate => DeployEvent::Validated(validate(
                Ok(Some(global())),
                Ok(Some(config.clone())),
                &home(),
                true,
                flags.skip_git_check,
                Ok(porcelain.to_vec()),
            )),
            DeployAction::Build { .. } => {
                let mut transcript = Transcript::new();
                transcript.stdout_line(line.to_string());
                DeployEvent::Built(transcript.finish(true))
            }
            DeployAction::CreateTag { .. } => {
                DeployEvent::Tagged(git_outcome(tag_ok, "fatal: tag exists".into()))
            }
            DeployAction::PushTags => DeployEvent::Pushed(git_outcome(false, "no remote".into())),
            DeployAction::Stop => break,
        };
    }
    (state, actions)
}

#[test]
fn patch_deploy_end_to_end() {
    let (state, actions) =
        run_deploy(&flags(true, false, false), project(true, true), b"", "Version: 1.2.1 (9)", true);
    assert_eq!(state, done("1.2.1 (9)"));
    let fastlane = Fastlane::with_home(&global(), &project(true, true), &home());
    assert_eq!(
        actions,
        vec![
            DeployAction::Validate,
            DeployAction::Build { fastlane, lane: "beta_patch".into() },
            DeployAction::CreateTag {
                tag: "v1.2.1 (9)".into(),
                message: "Release v1.2.1 (9)".into()
            },
            DeployAction::PushTags,
            DeployAction::Stop,
        ]
    );
}

#[test]
fn deploy_without_tagging() {
    for (flags, config) in [
        (flags(true, false, true), project(true, true)),
        (flags(true, false, false), project(false, true)),
        (flags(true, false, true), project(false, false)),
    ] {
        let (state, actions) = run_deploy(&flags, config, b"", "Version: 1.2.1 (9)", true);
        assert_eq!(state, done("1.2.1 (9)"));
        assert_eq!(actions.len(), 3);
        assert_eq!(actions[2], DeployAction::Stop);
    }
}

#[test]
fn deploy_without_push() {
    let (state, actions) =
        run_deploy(&flags(false, true, false), project(true, false), b"", "Version: 2.0.0", true);
    assert_eq!(state, done("2.0.0"));
    assert_eq!(actions.len(), 4);
    assert!(matches!(&actions[1], DeployAction::Build { lane, .. } if lane == "beta_minor"));
    assert_eq!(
        actions[2],
        DeployAction::CreateTag { tag: "v2.0.0".into(), message: "Release v2.0.0".into() }
    );
}

#[test]
fn failed_tag_does_not_fail_the_deploy() {
    let (state, actions) =
        run_deploy(&flags(false, false, false), project(true, true), b"", "no version", false);
    assert_eq!(state, done("unknown"));
    assert_eq!(actions.len(), 4);
    assert!(matches!(&actions[1], DeployAction::Build { lane, .. } if lane == "beta"));
    assert_eq!(
        actions[2],
        DeployAction::CreateTag { tag: "vunknown".into(), message: "Release vunknown".into() }
    );
    assert_eq!(actions[3], DeployAction::Stop);
}

#[test]
fn dirty_tree_never_starts_the_build() {
    let (state, actions) = run_deploy(
        &flags(true, false, false),
        project(true, true),
        b"?? new.swift\n",
        "Version: 1.2.1 (9)",
        true,
    );
    assert_eq!(state, DeployState::Failed(DeployError::DirtyWorkingDirectory));
    assert_eq!(actions, vec![DeployAction::Validate, DeployAction::Stop]);
}

#[test]
fn failed_build_fails_the_deploy() {
    let state = DeployState::BuildingAndUploading { project: project(true, true) };
    let event = DeployEvent::Built(Err(FastlaneError::CommandFailed("boom".into())));
    assert_eq!(
        step(&flags(false, false, false), state, event),
        Some((
            DeployState::Failed(DeployError::FastlaneFailed("Fastlane command failed: boom".into())),
            DeployAction::Stop
        ))
    );
    let state = DeployState::BuildingAndUploading { project: project(true, true) };
    let event = DeployEvent::Built(Err(FastlaneError::Io("gone".into())));
    assert_eq!(
        step(&flags(false, false, false), state, event),
        Some((
            DeployState::Failed(DeployError::FastlaneFailed("IO error: gone".into())),
            DeployAction::Stop
        ))
    );
}

#[test]
fn unexpected_events_give_no_step() {
    let f = flags(false, false, false);
    assert_eq!(step(&f, DeployState::Idle, DeployEvent::Built(Ok("1.0.0".into()))), None);
    assert_eq!(step(&f, DeployState::Validating, DeployEvent::Started), None);
    assert_eq!(step(&f, done("1.0.0"), DeployEvent::Started), None);
    assert_eq!(
        step(&f, DeployState::Failed(DeployError::NoGlobalConfig), DeployEvent::Tagged(Ok(()))),
        None
    );
    assert_eq!(
        step(&f, DeployState::Pushing { version: "1".into() }, DeployEvent::Tagged(Ok(()))),
        None
    );
}

#[test]
fn git_outcome_carries_the_error_stream() {
    assert_eq!(git_outcome(true, "ignored".into()), Ok(()));
    assert_eq!(
        git_outcome(false, "tag exists".into()),
        Err(DeployError::GitTagFailed("tag exists".into()))
    );
}

#[test]
fn deploy_error_messages() {
    assert_eq!(
        DeployError::NoGlobalConfig.message(),
        "Global config not found. Run 'launchpad setup' first."
    );
    assert_eq!(
        DeployError::NoProjectConfig.message(),
        "Project config not found. Run 'launchpad init' first."
    );
    assert_eq!(DeployError::ApiKeyNotFound("/k".into()).message(), "Apple API key not found at: /k");
    assert_eq!(
        DeployError::DirtyWorkingDirectory.message(),
        "Git working directory is not clean. Commit or stash changes first."
    );
    assert_eq!(DeployError::FastlaneFailed("x".into()).message(), "Fastlane failed: x");
    assert_eq!(DeployError::GitTagFailed("x".into()).message(), "Failed to create git tag: x");
    assert_eq!(DeployError::Io("x".into()).message(), "IO error: x");
    assert_eq!(DeployError::Config("x".into()).message(), "Config error: x");
}
