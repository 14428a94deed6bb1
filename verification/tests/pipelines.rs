use deploy::command::{Action, Command, Event};
use deploy::data::{GenericSettings, Node, NodeSettings, Profile, ProfileSettings};
use deploy::push::{
    build_profile, build_profile_locally, build_profile_remotely, push_profile, succeeded,
    BuildState, Environment, LocalBuildState, PushProfileData, PushProfileError, PushState,
    RemoteBuildState,
};
use deploy::{CmdOverrides, DeployData, DeployDefs};
use std::collections::HashMap;

fn unset() -> GenericSettings {
    GenericSettings {
        ssh_user: None,
        user: None,
        ssh_opts: Vec::new(),
        compress: None,
        fast_connection: None,
        auto_rollback: None,
        confirm_timeout: None,
        activation_timeout: None,
        temp_path: None,
        magic_rollback: None,
        sudo: None,
        remote_build: None,
        interactive_sudo: None,
    }
}

fn target(remote_build: Option<bool>) -> PushProfileData {
    PushProfileData {
        supports_flakes: true,
        check_sigs: true,
        repo: ".".to_string(),
        deploy_data: DeployData {
            node_name: "alpha".to_string(),
            node: Node {
                generic_settings: unset(),
                node_settings: NodeSettings {
                    hostname: "alpha.example.org".to_string(),
                    profiles: HashMap::new(),
                    profiles_order: Vec::new(),
                },
            },
            profile_name: "web".to_string(),
            profile: Profile {
                profile_settings: ProfileSettings {
                    path: "/nix/store/hash-web".to_string(),
                    profile_path: None,
                },
                generic_settings: unset(),
            },
            cmd_overrides: CmdOverrides {
                ssh_user: None,
                profile_user: None,
                ssh_opts: None,
                fast_connection: None,
                auto_rollback: None,
                hostname: None,
                magic_rollback: None,
                temp_path: None,
                confirm_timeout: None,
                activation_timeout: None,
                sudo: None,
                interactive_sudo: None,
                remote_build: None,
            },
            merged_settings: GenericSettings { remote_build, ..unset() },
            progressbar: None,
        },
        deploy_defs: DeployDefs {
            ssh_user: "deployer".to_string(),
            profile_user: "www".to_string(),
            sudo: None,
        },
        keep_result: false,
        result_path: None,
        extra_build_args: Vec::new(),
    }
}

fn bare() -> Environment {
    Environment { tmpdir: None, local_key: None }
}

fn with_key() -> Environment {
    Environment { tmpdir: None, local_key: Some("/run/keys/cache.key".to_string()) }
}

fn exited(code: i32) -> Event {
    Event::Exited { code: Some(code), stdout: Vec::new() }
}

fn wrote(stdout: &str) -> Event {
    Event::Exited { code: Some(0), stdout: stdout.as_bytes().to_vec() }
}

fn killed() -> Event {
    Event::Exited { code: None, stdout: Vec::new() }
}

fn broken() -> Event {
    Event::Failed(std::io::Error::new(std::io::ErrorKind::NotFound, "nix is not installed"))
}

fn line(command: &Command) -> String {
    let mut words = vec![command.program.clone()];
    words.extend(command.args.iter().cloned());
    words.join(" ")
}

fn run_local(
    data: &PushProfileData,
    env: &Environment,
    events: Vec<Event>,
) -> Vec<(LocalBuildState, Action)> {
    let mut state = LocalBuildState::Start;
    let mut steps = Vec::new();
    for event in events {
        match build_profile_locally(data, "/nix/store/abc.drv^out", env, state, event) {
            Some((next, action)) => {
                state = next;
                steps.push((next, action));
            }
            None => break,
        }
    }
    steps
}

fn run_build(data: &PushProfileData, env: &Environment, events: Vec<Event>) -> Vec<Action> {
    let mut state = BuildState::Start;
    let mut actions = Vec::new();
    for event in events {
        match build_profile(data, env, state, event) {
            Some((next, action)) => {
                state = next;
                actions.push(action);
            }
            None => break,
        }
    }
    actions
}

fn run_push(data: &PushProfileData, events: Vec<Event>) -> Vec<(PushState, Action)> {
    let mut state = PushState::Start;
    let mut steps = Vec::new();
    for event in events {
        match push_profile(data, state, event) {
            Some((next, action)) => {
                state = next;
                steps.push((next, action));
            }
            None => break,
        }
    }
    steps
}

fn commands_in(actions: &[Action]) -> Vec<String> {
    let mut lines = Vec::new();
    for action in actions {
        match action {
            Action::Capture(c) | Action::Run(c) => lines.push(line(c)),
            Action::Stream { command, .. } => lines.push(line(command)),
            _ => {}
        }
    }
    lines
}

#[test]
fn exit_code_zero_alone_is_success() {
    assert!(succeeded(Some(0)));
    assert!(!succeeded(Some(1)));
    assert!(!succeeded(Some(-1)));
    assert!(!succeeded(Some(255)));
    assert!(!succeeded(None));
}

#[test]
fn failed_build_is_reported_and_nothing_is_signed() {
    let data = target(None);
    let env = with_key();
    let steps = run_local(&data, &env, vec![Event::Start, exited(1), Event::Exists(true), exited(0)]);
    assert_eq!(steps.len(), 2);
    assert_eq!(steps[0].0, LocalBuildState::Building);
    assert!(matches!(&steps[0].1, Action::Run(c) if line(c) == "nix build /nix/store/abc.drv^out --no-link"));
    assert_eq!(steps[1].0, LocalBuildState::Finished);
    assert!(matches!(
        &steps[1].1,
        Action::Finish(Err(PushProfileError::BuildExit(Some(1))))
    ));
}

#[test]
fn failed_build_ends_the_whole_build() {
    let data = target(None);
    let step = build_profile(
        &data,
        &with_key(),
        BuildState::Local {
            derivation: "/nix/store/abc.drv^out".to_string(),
            local: LocalBuildState::Building,
        },
        exited(1),
    );
    let (state, action) = step.unwrap();
    assert!(matches!(state, BuildState::Finished));
    assert!(matches!(action, Action::Finish(Err(PushProfileError::BuildExit(Some(1))))));
    assert!(build_profile(&data, &with_key(), BuildState::Finished, Event::Start).is_none());
    assert!(build_profile(&data, &with_key(), BuildState::Finished, exited(0)).is_none());
    assert!(build_profile(&data, &with_key(), BuildState::Finished, Event::Exists(true)).is_none());
}

#[test]
fn profile_is_signed_once_before_success() {
    let data = target(None);
    let env = with_key();
    let steps = run_local(
        &data,
        &env,
        vec![Event::Start, exited(0), Event::Exists(true), Event::Exists(true), exited(0)],
    );
    assert_eq!(steps.len(), 5);
    assert!(matches!(&steps[0].1, Action::Run(c) if c.discard_stdout));
    assert!(matches!(&steps[1].1, Action::CheckExists(p) if p == "/nix/store/hash-web/deploy-rs-activate"));
    assert_eq!(steps[1].0, LocalBuildState::CheckingDeployRsActivate);
    assert!(matches!(&steps[2].1, Action::CheckExists(p) if p == "/nix/store/hash-web/activate-rs"));
    assert_eq!(steps[2].0, LocalBuildState::CheckingActivateRs);
    assert_eq!(steps[3].0, LocalBuildState::Signing);
    assert!(matches!(
        &steps[3].1,
        Action::Run(c) if line(c) == "nix sign-paths -r -k /run/keys/cache.key /nix/store/hash-web"
    ));
    assert_eq!(steps[4].0, LocalBuildState::Finished);
    assert!(matches!(&steps[4].1, Action::Finish(Ok(()))));
    let signings = steps.iter().filter(|s| s.0 == LocalBuildState::Signing).count();
    assert_eq!(signings, 1);
}

#[test]
fn profile_is_not_signed_without_a_key() {
    let data = target(None);
    let steps = run_local(
        &data,
        &bare(),
        vec![Event::Start, exited(0), Event::Exists(true), Event::Exists(true), exited(0)],
    );
    assert_eq!(steps.len(), 4);
    assert_eq!(steps[3].0, LocalBuildState::Finished);
    assert!(matches!(&steps[3].1, Action::Finish(Ok(()))));
    assert!(steps.iter().all(|s| s.0 != LocalBuildState::Signing));
}

#[test]
fn missing_entry_points_are_told_apart() {
    let data = target(None);
    let first = run_local(&data, &with_key(), vec![Event::Start, exited(0), Event::Exists(false)]);
    assert!(matches!(
        &first[2].1,
        Action::Finish(Err(PushProfileError::DeployRsActivateDoesntExist))
    ));
    assert_eq!(first[2].0, LocalBuildState::Finished);
    let second = run_local(
        &data,
        &with_key(),
        vec![Event::Start, exited(0), Event::Exists(true), Event::Exists(false)],
    );
    assert!(matches!(&second[3].1, Action::Finish(Err(PushProfileError::ActivateRsDoesntExist))));
    assert_eq!(second[3].0, LocalBuildState::Finished);
}

#[test]
fn local_build_errors_are_typed_by_phase() {
    let data = target(None);
    let env = with_key();
    let not_run = run_local(&data, &env, vec![Event::Start, broken()]);
    assert!(matches!(&not_run[1].1, Action::Finish(Err(PushProfileError::Build(_)))));
    let signal = run_local(&data, &env, vec![Event::Start, killed()]);
    assert!(matches!(&signal[1].1, Action::Finish(Err(PushProfileError::BuildExit(None)))));
    let sign_exit = run_local(
        &data,
        &env,
        vec![Event::Start, exited(0), Event::Exists(true), Event::Exists(true), exited(3)],
    );
    assert!(matches!(&sign_exit[4].1, Action::Finish(Err(PushProfileError::SignExit(Some(3))))));
    let sign_not_run = run_local(
        &data,
        &env,
        vec![Event::Start, exited(0), Event::Exists(true), Event::Exists(true), broken()],
    );
    assert!(matches!(&sign_not_run[4].1, Action::Finish(Err(PushProfileError::Sign(_)))));
    let sign_signal = run_local(
        &data,
        &env,
        vec![Event::Start, exited(0), Event::Exists(true), Event::Exists(true), killed()],
    );
    assert!(matches!(&sign_signal[4].1, Action::Finish(Err(PushProfileError::SignExit(None)))));
}

#[test]
fn local_build_takes_the_temporary_directory() {
    let data = target(None);
    let env = Environment { tmpdir: Some("/var/tmp".to_string()), local_key: None };
    let steps = run_local(&data, &env, vec![Event::Start]);
    match &steps[0].1 {
        Action::Run(c) => {
            assert_eq!(c.env, vec![("TMPDIR".to_string(), "/var/tmp".to_string())]);
        }
        other => panic!("unexpected action {:?}", other),
    }
}

#[test]
fn reports_that_answer_nothing_are_refused() {
    let data = target(None);
    let env = bare();
    let name = "/nix/store/abc.drv";
    assert!(build_profile_locally(&data, name, &env, LocalBuildState::Start, exited(0)).is_none());
    assert!(build_profile_locally(&data, name, &env, LocalBuildState::Start, Event::Exists(true)).is_none());
    assert!(build_profile_locally(&data, name, &env, LocalBuildState::Building, Event::Start).is_none());
    assert!(build_profile_locally(&data, name, &env, LocalBuildState::Building, Event::Exists(true)).is_none());
    assert!(build_profile_locally(&data, name, &env, LocalBuildState::CheckingDeployRsActivate, exited(0)).is_none());
    assert!(build_profile_locally(&data, name, &env, LocalBuildState::CheckingActivateRs, broken()).is_none());
    assert!(build_profile_locally(&data, name, &env, LocalBuildState::Signing, Event::Exists(true)).is_none());
    assert!(build_profile_locally(&data, name, &env, LocalBuildState::Finished, Event::Start).is_none());
    assert!(build_profile_remotely(&data, name, RemoteBuildState::Start, exited(0)).is_none());
    assert!(build_profile_remotely(&data, name, RemoteBuildState::Copying, Event::Exists(true)).is_none());
    assert!(build_profile_remotely(&data, name, RemoteBuildState::Building, Event::Start).is_none());
    assert!(build_profile_remotely(&data, name, RemoteBuildState::Finished, exited(0)).is_none());
    assert!(push_profile(&data, PushState::Start, exited(0)).is_none());
    assert!(push_profile(&data, PushState::Copying, Event::Start).is_none());
    assert!(push_profile(&data, PushState::Copying, Event::Exists(false)).is_none());
    assert!(push_profile(&data, PushState::Finished, Event::Start).is_none());
    assert!(build_profile(&data, &env, BuildState::Start, exited(0)).is_none());
    assert!(build_profile(&data, &env, BuildState::ShowingDerivation, Event::Start).is_none());
    assert!(build_profile(&data, &env, BuildState::EvaluatingStoreRoot { key: "a".to_string() }, Event::Exists(true)).is_none());
    assert!(build_profile(&data, &env, BuildState::ProbingPathInfo { deriver: "a".to_string() }, Event::Start).is_none());
}

#[test]
fn remote_build_copies_the_recipe_and_then_builds() {
    let data = target(Some(true));
    let name = "/nix/store/abc.drv^out";
    let (state, action) =
        build_profile_remotely(&data, name, RemoteBuildState::Start, Event::Start).unwrap();
    assert_eq!(state, RemoteBuildState::Copying);
    match &action {
        Action::Stream { command, display } => {
            assert_eq!(
                line(command),
                "nix --experimental-features nix-command copy -s --to ssh-ng://deployer@alpha.example.org --derivation /nix/store/abc.drv^out"
            );
            assert!(!display);
        }
        other => panic!("unexpected action {:?}", other),
    }
    let (state, action) = build_profile_remotely(&data, name, state, exited(0)).unwrap();
    assert_eq!(state, RemoteBuildState::Building);
    match &action {
        Action::Stream { command, display } => {
            assert_eq!(
                line(command),
                "nix --experimental-features nix-command build /nix/store/abc.drv^out --eval-store auto --store ssh-ng://deployer@alpha.example.org"
            );
            assert!(!display);
        }
        other => panic!("unexpected action {:?}", other),
    }
    let (state, action) = build_profile_remotely(&data, name, state, exited(0)).unwrap();
    assert_eq!(state, RemoteBuildState::Finished);
    assert!(matches!(action, Action::Finish(Ok(()))));
}

#[test]
fn remote_build_shows_its_output_where_a_progress_line_is_attached() {
    let mut data = target(Some(true));
    data.deploy_data.progressbar = Some(indicatif::ProgressBar::hidden());
    let (_, action) =
        build_profile_remotely(&data, "a.drv", RemoteBuildState::Start, Event::Start).unwrap();
    assert!(matches!(action, Action::Stream { display: true, .. }));
    let (_, action) =
        build_profile_remotely(&data, "a.drv", RemoteBuildState::Copying, exited(0)).unwrap();
    assert!(matches!(action, Action::Stream { display: true, .. }));
}

#[test]
fn remote_build_errors_are_typed_by_phase() {
    let data = target(Some(true));
    let name = "a.drv";
    let (state, action) =
        build_profile_remotely(&data, name, RemoteBuildState::Copying, exited(1)).unwrap();
    assert_eq!(state, RemoteBuildState::Finished);
    assert!(matches!(action, Action::Finish(Err(PushProfileError::CopyExit(Some(1))))));
    let (_, action) =
        build_profile_remotely(&data, name, RemoteBuildState::Copying, killed()).unwrap();
    assert!(matches!(action, Action::Finish(Err(PushProfileError::CopyExit(None)))));
    let (_, action) =
        build_profile_remotely(&data, name, RemoteBuildState::Copying, broken()).unwrap();
    assert!(matches!(action, Action::Finish(Err(PushProfileError::Copy(_)))));
    let (state, action) =
        build_profile_remotely(&data, name, RemoteBuildState::Building, exited(2)).unwrap();
    assert_eq!(state, RemoteBuildState::Finished);
    assert!(matches!(action, Action::Finish(Err(PushProfileError::BuildExit(Some(2))))));
    let (_, action) =
        build_profile_remotely(&data, name, RemoteBuildState::Building, broken()).unwrap();
    assert!(matches!(action, Action::Finish(Err(PushProfileError::Build(_)))));
}

#[test]
fn push_copies_once_after_a_local_build() {
    let data = target(None);
    let steps = run_push(&data, vec![Event::Start, exited(0), exited(0), Event::Start]);
    assert_eq!(steps.len(), 2);
    assert_eq!(steps[0].0, PushState::Copying);
    assert!(matches!(
        &steps[0].1,
        Action::Run(c) if line(c) == "nix copy --substitute-on-destination --to ssh://deployer@alpha.example.org?compress=false /nix/store/hash-web"
    ));
    assert_eq!(steps[1].0, PushState::Finished);
    assert!(matches!(&steps[1].1, Action::Finish(Ok(()))));
    let copies = steps.iter().filter(|s| matches!(s.1, Action::Run(_))).count();
    assert_eq!(copies, 1);
}

#[test]
fn push_copies_nothing_after_a_remote_build() {
    let data = target(Some(true));
    let steps = run_push(&data, vec![Event::Start, exited(0)]);
    assert_eq!(steps.len(), 1);
    assert_eq!(steps[0].0, PushState::Finished);
    assert!(matches!(&steps[0].1, Action::Finish(Ok(()))));
}

#[test]
fn push_copies_where_remote_build_is_switched_off() {
    let data = target(Some(false));
    let steps = run_push(&data, vec![Event::Start]);
    assert_eq!(steps.len(), 1);
    assert_eq!(steps[0].0, PushState::Copying);
    assert!(matches!(&steps[0].1, Action::Run(_)));
}

#[test]
fn push_errors_are_typed() {
    let data = target(None);
    let exit = run_push(&data, vec![Event::Start, exited(1)]);
    assert!(matches!(&exit[1].1, Action::Finish(Err(PushProfileError::CopyExit(Some(1))))));
    let signal = run_push(&data, vec![Event::Start, killed()]);
    assert!(matches!(&signal[1].1, Action::Finish(Err(PushProfileError::CopyExit(None)))));
    let not_run = run_push(&data, vec![Event::Start, broken()]);
    assert!(matches!(&not_run[1].1, Action::Finish(Err(PushProfileError::Copy(_)))));
    assert_eq!(not_run[1].0, PushState::Finished);
}

#[test]
fn whole_build_resolves_and_builds_locally() {
    let data = target(None);
    let actions = run_build(
        &data,
        &with_key(),
        vec![
            Event::Start,
            wrote(r#"{"derivations":{"abc-web.drv":{}}}"#),
            wrote("/nix/store"),
            wrote("/nix/store/abc-web.drv\n"),
            exited(0),
            Event::Exists(true),
            Event::Exists(true),
            exited(0),
        ],
    );
    assert_eq!(
        commands_in(&actions),
        vec![
            "nix --experimental-features nix-command show-derivation /nix/store/hash-web",
            "nix eval --raw --expr builtins.storeDir",
            "nix --experimental-features nix-command path-info /nix/store/abc-web.drv",
            "nix build /nix/store/abc-web.drv^out --no-link",
            "nix sign-paths -r -k /run/keys/cache.key /nix/store/hash-web",
        ]
    );
    assert_eq!(actions.len(), 8);
    assert!(matches!(&actions[0], Action::Capture(_)));
    assert!(matches!(&actions[1], Action::Capture(_)));
    assert!(matches!(&actions[2], Action::Capture(_)));
    assert!(matches!(&actions[3], Action::Run(_)));
    assert!(matches!(actions.last(), Some(Action::Finish(Ok(())))));
}

#[test]
fn whole_build_resolves_and_builds_on_the_target() {
    let data = target(Some(true));
    let actions = run_build(
        &data,
        &with_key(),
        vec![
            Event::Start,
            wrote(r#"{"/nix/store/abc-web.drv":{}}"#),
            wrote("/nix/store"),
            wrote("/nix/store/def-web\n"),
            exited(0),
            exited(0),
        ],
    );
    assert_eq!(
        commands_in(&actions),
        vec![
            "nix --experimental-features nix-command show-derivation /nix/store/hash-web",
            "nix eval --raw --expr builtins.storeDir",
            "nix --experimental-features nix-command path-info /nix/store/abc-web.drv",
            "nix --experimental-features nix-command copy -s --to ssh-ng://deployer@alpha.example.org --derivation /nix/store/abc-web.drv",
            "nix --experimental-features nix-command build /nix/store/abc-web.drv --eval-store auto --store ssh-ng://deployer@alpha.example.org",
        ]
    );
    assert!(matches!(&actions[3], Action::Stream { .. }));
    assert!(matches!(&actions[4], Action::Stream { .. }));
    assert!(matches!(actions.last(), Some(Action::Finish(Ok(())))));
    assert_eq!(actions.len(), 6);
}

#[test]
fn exactly_one_kind_of_build_runs() {
    let events = || {
        vec![
            Event::Start,
            wrote(r#"{"/nix/store/abc-web.drv":{}}"#),
            wrote("/nix/store"),
            wrote(""),
            exited(0),
            exited(0),
            Event::Exists(true),
            Event::Exists(true),
        ]
    };
    let local = commands_in(&run_build(&target(None), &bare(), events()));
    assert_eq!(local.iter().filter(|c| c.starts_with("nix build ")).count(), 1);
    assert_eq!(local.iter().filter(|c| c.contains(" --store ssh-ng://")).count(), 0);
    assert_eq!(local.iter().filter(|c| c.contains(" copy ")).count(), 0);
    let remote = commands_in(&run_build(&target(Some(true)), &bare(), events()));
    assert_eq!(remote.iter().filter(|c| c.starts_with("nix build ")).count(), 0);
    assert_eq!(remote.iter().filter(|c| c.contains(" --store ssh-ng://")).count(), 1);
    assert_eq!(remote.iter().filter(|c| c.contains(" copy ")).count(), 1);
}

#[test]
fn resolution_errors_end_the_build() {
    let data = target(None);
    let env = bare();
    let not_run = run_build(&data, &env, vec![Event::Start, broken()]);
    assert!(matches!(&not_run[1], Action::Finish(Err(PushProfileError::ShowDerivation(_)))));
    let exit = run_build(&data, &env, vec![Event::Start, exited(1)]);
    assert!(matches!(
        &exit[1],
        Action::Finish(Err(PushProfileError::ShowDerivationExit(Some(1))))
    ));
    let signal = run_build(&data, &env, vec![Event::Start, killed()]);
    assert!(matches!(&signal[1], Action::Finish(Err(PushProfileError::ShowDerivationExit(None)))));
    let not_utf8 = run_build(
        &data,
        &env,
        vec![Event::Start, Event::Exited { code: Some(0), stdout: vec![0xc3, 0x28] }],
    );
    assert!(matches!(&not_utf8[1], Action::Finish(Err(PushProfileError::ShowDerivationUtf8(_)))));
    let not_json = run_build(&data, &env, vec![Event::Start, wrote("{")]);
    assert!(matches!(&not_json[1], Action::Finish(Err(PushProfileError::ShowDerivationParse(_)))));
    let invalid = run_build(&data, &env, vec![Event::Start, wrote("[]")]);
    assert!(matches!(&invalid[1], Action::Finish(Err(PushProfileError::ShowDerivationInvalid))));
    let empty = run_build(&data, &env, vec![Event::Start, wrote("{}")]);
    assert!(matches!(&empty[1], Action::Finish(Err(PushProfileError::ShowDerivationEmpty))));
    let found = || wrote(r#"{"a.drv":{}}"#);
    let store_not_run = run_build(&data, &env, vec![Event::Start, found(), broken()]);
    assert!(matches!(&store_not_run[2], Action::Finish(Err(PushProfileError::EvalStore(_)))));
    let store_not_utf8 = run_build(
        &data,
        &env,
        vec![Event::Start, found(), Event::Exited { code: Some(0), stdout: vec![0xff] }],
    );
    assert!(matches!(&store_not_utf8[2], Action::Finish(Err(PushProfileError::EvalStoreUtf8(_)))));
    let probe_not_run =
        run_build(&data, &env, vec![Event::Start, found(), wrote("/nix/store"), broken()]);
    assert!(matches!(&probe_not_run[3], Action::Finish(Err(PushProfileError::PathInfo(_)))));
    assert_eq!(probe_not_run.len(), 4);
}

#[test]
fn failing_probe_builds_the_recipe_without_a_selector() {
    let data = target(None);
    let actions = run_build(
        &data,
        &bare(),
        vec![
            Event::Start,
            wrote(r#"{"/nix/store/a.drv":{}}"#),
            wrote("/nix/store"),
            Event::Exited { code: Some(1), stdout: Vec::new() },
        ],
    );
    assert_eq!(commands_in(&actions)[3], "nix build /nix/store/a.drv --no-link");
}

#[test]
fn store_root_query_is_read_whatever_its_exit_code() {
    let data = target(None);
    let actions = run_build(
        &data,
        &bare(),
        vec![
            Event::Start,
            wrote(r#"{"a.drv":{}}"#),
            Event::Exited { code: None, stdout: b"/gnu/store".to_vec() },
        ],
    );
    assert_eq!(
        commands_in(&actions)[2],
        "nix --experimental-features nix-command path-info /gnu/store/a.drv"
    );
}
