use niksi::orchestrator::{
    phase_outcome, step, BuildAction, BuildEvent, BuildPhase, SeedOutcome,
};
use niksi::{docker, BuilderError, Niksi, NiksiConfig};

fn context(template: Option<&str>, lock_file: &str, output_directory: &str) -> Niksi {
    Niksi {
        config: NiksiConfig {
            name: "cs101".to_string(),
            course_code: None,
            version: "1.0".to_string(),
            maintainers: Vec::new(),
            packages: vec!["git".to_string()],
            vscode_extensions: Vec::new(),
            template: template.map(str::to_string),
            registry: None,
        },
        lock_file: lock_file.to_string(),
        output_directory: output_directory.to_string(),
    }
}

/// Drives the machine, answering each action with the scripted events, and
/// returns the actions performed (as debug text) and the outcome.
fn drive(
    niksi: &Niksi,
    mut events: Vec<BuildEvent>,
) -> (Vec<String>, Result<String, BuilderError>) {
    events.reverse();
    let mut performed = Vec::new();
    let mut phase = niksi.build_start();
    loop {
        match niksi.next_action(&phase) {
            None => break,
            Some(action) => {
                performed.push(format!("{:?}", action));
                let event = match action {
                    BuildAction::RemoveWorkspace => BuildEvent::WorkspaceRemoved,
                    _ => events.pop().expect("an event for every action"),
                };
                phase = step(phase, event);
            }
        }
    }
    assert!(events.is_empty(), "every scripted event must be consumed");
    let outcome = phase_outcome(phase).expect("the loop ends only when finished");
    (performed, outcome)
}

fn ok_events(stdout: &str, seeded: SeedOutcome) -> Vec<BuildEvent> {
    vec![
        BuildEvent::TemplateInitialized { spawned: true, exit_ok: true },
        BuildEvent::OverridesWritten { ok: true },
        BuildEvent::LockFileSeeded { outcome: seeded },
        BuildEvent::BuildRun {
            spawned: true,
            exit_ok: true,
            stdout: Some(stdout.to_string()),
        },
        BuildEvent::LockFilePersisted { ok: true },
    ]
}

#[test]
fn successful_build_runs_every_step_in_order() {
    let niksi = context(None, "niksi.lock", "./out");
    let (actions, outcome) = drive(&niksi, ok_events("/nix/store/abc\n", SeedOutcome::Absent));
    assert_eq!(outcome, Ok("/nix/store/abc".to_string()));
    assert_eq!(actions.len(), 6);
    assert!(actions[0].contains("RunTemplateInit"));
    assert!(actions[0].contains("github:niksi-aalto/templates#plain"));
    assert!(actions[1].contains("WriteOverrides"));
    assert!(actions[1].contains("overrides.nix"));
    assert!(actions[1].contains("paths = with pkgs; [git]"));
    assert!(actions[2].contains("SeedLockFile"));
    assert!(actions[2].contains("niksi.lock"));
    assert!(actions[2].contains("flake.lock"));
    assert!(actions[3].contains("RunBuild"));
    assert!(actions[4].contains("PersistLockFile"));
    assert!(actions[4].contains("./out/niksi.lock"));
    assert!(actions[5].contains("RemoveWorkspace"));
}

#[test]
fn configured_template_reaches_the_init_action() {
    let niksi = context(Some("rust"), "niksi.lock", ".");
    let (actions, _) = drive(&niksi, ok_events("/nix/store/abc", SeedOutcome::Absent));
    assert!(actions[0].contains("github:niksi-aalto/templates#rust"));
}

#[test]
fn seeding_precedes_the_build_step() {
    let niksi = context(None, "prior.lock", ".");
    let (actions, _) = drive(&niksi, ok_events("/nix/store/abc", SeedOutcome::Copied));
    let seed = actions.iter().position(|a| a.contains("SeedLockFile")).unwrap();
    let build = actions.iter().position(|a| a.contains("RunBuild")).unwrap();
    assert!(seed < build);
}

#[test]
fn lock_round_trip_seeds_the_second_build() {
    let first = context(None, "niksi.lock", "./out");
    let (actions, outcome) = drive(&first, ok_events("/nix/store/abc", SeedOutcome::Absent));
    assert!(outcome.is_ok());
    // The first build persisted the lock file to ./out/niksi.lock ...
    assert!(actions[4].contains("./out/niksi.lock"));
    // ... and a second build against that path asks to seed from it.
    let second = context(None, "./out/niksi.lock", "./out");
    let (actions, outcome) = drive(&second, ok_events("/nix/store/abc", SeedOutcome::Copied));
    assert!(outcome.is_ok());
    assert!(actions[2].contains("SeedLockFile"));
    assert!(actions[2].contains("./out/niksi.lock"));
}

fn assert_cleanup_ran(actions: &[String]) {
    assert!(
        actions.last().unwrap().contains("RemoveWorkspace"),
        "the workspace must be removed on every exit path, got {:?}",
        actions
    );
}

#[test]
fn template_failure_cleans_up_and_names_the_step() {
    let niksi = context(None, "niksi.lock", ".");
    let (actions, outcome) = drive(
        &niksi,
        vec![BuildEvent::TemplateInitialized { spawned: true, exit_ok: false }],
    );
    assert_eq!(outcome, Err(BuilderError::TemplateInitFailed));
    assert_cleanup_ran(&actions);
}

#[test]
fn template_spawn_failure_cleans_up() {
    let niksi = context(None, "niksi.lock", ".");
    let (actions, outcome) = drive(
        &niksi,
        vec![BuildEvent::TemplateInitialized { spawned: false, exit_ok: false }],
    );
    assert_eq!(outcome, Err(BuilderError::TemplateInitFailed));
    assert_cleanup_ran(&actions);
}

#[test]
fn write_failure_cleans_up_and_names_the_step() {
    let niksi = context(None, "niksi.lock", ".");
    let (actions, outcome) = drive(
        &niksi,
        vec![
            BuildEvent::TemplateInitialized { spawned: true, exit_ok: true },
            BuildEvent::OverridesWritten { ok: false },
        ],
    );
    assert_eq!(outcome, Err(BuilderError::WriteFailed));
    assert_cleanup_ran(&actions);
}

#[test]
fn seed_copy_failure_cleans_up() {
    let niksi = context(None, "niksi.lock", ".");
    let (actions, outcome) = drive(
        &niksi,
        vec![
            BuildEvent::TemplateInitialized { spawned: true, exit_ok: true },
            BuildEvent::OverridesWritten { ok: true },
            BuildEvent::LockFileSeeded { outcome: SeedOutcome::Failed },
        ],
    );
    assert_eq!(outcome, Err(BuilderError::WriteFailed));
    assert_cleanup_ran(&actions);
}

fn failing_build_events(event: BuildEvent) -> Vec<BuildEvent> {
    vec![
        BuildEvent::TemplateInitialized { spawned: true, exit_ok: true },
        BuildEvent::OverridesWritten { ok: true },
        BuildEvent::LockFileSeeded { outcome: SeedOutcome::Absent },
        event,
    ]
}

#[test]
fn build_nonzero_exit_cleans_up_and_fails() {
    let niksi = context(None, "niksi.lock", ".");
    let (actions, outcome) = drive(
        &niksi,
        failing_build_events(BuildEvent::BuildRun {
            spawned: true,
            exit_ok: false,
            stdout: Some("/nix/store/abc".to_string()),
        }),
    );
    assert_eq!(outcome, Err(BuilderError::BuildFailed));
    assert_cleanup_ran(&actions);
}

#[test]
fn build_empty_output_cleans_up_and_fails() {
    let niksi = context(None, "niksi.lock", ".");
    let (actions, outcome) = drive(
        &niksi,
        failing_build_events(BuildEvent::BuildRun {
            spawned: true,
            exit_ok: true,
            stdout: Some("   \n".to_string()),
        }),
    );
    assert_eq!(outcome, Err(BuilderError::BuildFailed));
    assert_cleanup_ran(&actions);
}

#[test]
fn build_unreadable_output_cleans_up_and_fails() {
    let niksi = context(None, "niksi.lock", ".");
    let (actions, outcome) = drive(
        &niksi,
        failing_build_events(BuildEvent::BuildRun {
            spawned: true,
            exit_ok: true,
            stdout: None,
        }),
    );
    assert_eq!(outcome, Err(BuilderError::BuildFailed));
    assert_cleanup_ran(&actions);
}

#[test]
fn persist_failure_cleans_up_and_fails() {
    let niksi = context(None, "niksi.lock", ".");
    let mut events = ok_events("/nix/store/abc", SeedOutcome::Absent);
    events.pop();
    events.push(BuildEvent::LockFilePersisted { ok: false });
    let (actions, outcome) = drive(&niksi, events);
    assert_eq!(outcome, Err(BuilderError::LockPersistFailed));
    assert_cleanup_ran(&actions);
}

#[test]
fn artifact_path_is_trimmed() {
    let niksi = context(None, "niksi.lock", ".");
    let (_, outcome) = drive(&niksi, ok_events("  /nix/store/abc \n\t", SeedOutcome::Absent));
    assert_eq!(outcome, Ok("/nix/store/abc".to_string()));
}

#[test]
fn phase_outcome_is_none_while_under_way() {
    let niksi = context(None, "niksi.lock", ".");
    let phase = niksi.build_start();
    assert!(phase_outcome(phase).is_none());
}

#[test]
fn unfitting_event_is_ignored() {
    let niksi = context(None, "niksi.lock", ".");
    let phase = niksi.build_start();
    let phase = step(phase, BuildEvent::LockFilePersisted { ok: true });
    assert!(matches!(phase, BuildPhase::InitializingTemplate));
}

#[test]
fn push_arguments_reference_the_target() {
    let args = docker::push_command_args(
        "/store/abc",
        "cs101",
        "1.0",
        "docker.io/org",
        "user:secret",
    );
    assert_eq!(
        args,
        vec![
            "--insecure-policy",
            "copy",
            "docker-archive:/store/abc",
            "docker://docker.io/org/cs101:1.0",
            "--dest-creds=user:secret",
        ]
    );
}

#[test]
fn push_fails_on_nonzero_exit() {
    assert_eq!(
        docker::push_outcome(true, false),
        Err(BuilderError::PushError)
    );
}

#[test]
fn push_fails_when_the_tool_cannot_be_spawned() {
    assert_eq!(
        docker::push_outcome(false, false),
        Err(BuilderError::PushError)
    );
}

#[test]
fn push_succeeds_on_zero_exit() {
    assert_eq!(docker::push_outcome(true, true), Ok(()));
}
