use coi_actix_sample::{
    Action, Command, ContainerDescriptor, Event, Failure, ImageDescriptor, IoFailure, Orchestrator,
    Phase, ProcessOutcome, Step,
};

const IMAGE: &str = "coi-actix-sample-postgres";

fn image(tag: &str) -> ImageDescriptor {
    ImageDescriptor { id: "sha256:0123".to_string(), repo_tags: vec![tag.to_string()] }
}

fn container(image: Option<&str>) -> ContainerDescriptor {
    ContainerDescriptor { id: "c1".to_string(), image: image.map(|s| s.to_string()) }
}

/// Runs an invocation, feeding `events` in turn; returns every command issued.
fn run(step: Step, events: Vec<Event>) -> (Orchestrator, Vec<Command>) {
    let (mut s, first) = Orchestrator::start(step, "docker".to_string(), IMAGE.to_string());
    let mut commands = vec![first];
    for e in events {
        let (next, c) = s.handle(e);
        s = next;
        commands.push(c);
    }
    (s, commands)
}

#[test]
fn seed_from_empty_runtime_runs_full_chain() {
    let (s, commands) = run(
        Step::Seed,
        vec![
            Event::Containers(vec![]),
            Event::Images(vec![]),
            Event::Started,
            Event::Process(ProcessOutcome::Exited(Some(0))),
            Event::Started,
            Event::Completed,
            Event::Completed,
            Event::Completed,
            Event::Completed,
        ],
    );
    assert_eq!(
        commands,
        vec![
            Command::ListContainers,
            Command::ListImages,
            Command::Perform(Action::BuildImage),
            Command::AwaitExit,
            Command::Perform(Action::LaunchContainer),
            Command::Perform(Action::Settle),
            Command::Perform(Action::Connect),
            Command::Perform(Action::ExecuteInit),
            Command::Perform(Action::ExecuteSeed),
            Command::Finish(Ok(())),
        ]
    );
    assert_eq!(s.phase, Phase::Finished);
}

#[test]
fn init_against_running_container_only_connects() {
    let (_, commands) = run(
        Step::Init,
        vec![Event::Containers(vec![container(Some("other")), container(Some(IMAGE))]), Event::Completed, Event::Completed],
    );
    assert_eq!(
        commands,
        vec![
            Command::ListContainers,
            Command::Perform(Action::Connect),
            Command::Perform(Action::ExecuteInit),
            Command::Finish(Ok(())),
        ]
    );
}

#[test]
fn init_twice_against_initialized_database_succeeds() {
    for _ in 0..2 {
        let (_, commands) = run(
            Step::Init,
            vec![Event::Containers(vec![container(Some(IMAGE))]), Event::Completed, Event::Completed],
        );
        assert_eq!(commands.last(), Some(&Command::Finish(Ok(()))));
        assert!(!commands.contains(&Command::Perform(Action::BuildImage)));
        assert!(!commands.contains(&Command::Perform(Action::LaunchContainer)));
    }
}

#[test]
fn failed_connect_after_launch_kills_once() {
    let refused = "connection refused".to_string();
    let (_, commands) = run(
        Step::Init,
        vec![
            Event::Containers(vec![]),
            Event::Images(vec![]),
            Event::Started,
            Event::Process(ProcessOutcome::Exited(Some(0))),
            Event::Started,
            Event::Completed,
            Event::DatabaseFailed(refused.clone()),
            Event::Killed,
        ],
    );
    assert_eq!(commands.iter().filter(|c| **c == Command::Kill).count(), 1);
    assert_eq!(commands[7], Command::Kill);
    assert_eq!(commands.last(), Some(&Command::Finish(Err(Failure::Database(refused)))));
}

#[test]
fn failed_kill_reports_both_failures() {
    let (_, commands) = run(
        Step::Seed,
        vec![
            Event::Containers(vec![]),
            Event::Images(vec![image("coi-actix-sample-postgres:latest")]),
            Event::Started,
            Event::Completed,
            Event::Completed,
            Event::DatabaseFailed("bad batch".to_string()),
            Event::KillFailed("no such process".to_string()),
        ],
    );
    assert_eq!(
        commands.last(),
        Some(&Command::Finish(Err(Failure::Compensation {
            database: "bad batch".to_string(),
            cleanup: "no such process".to_string(),
        })))
    );
    assert_eq!(commands.iter().filter(|c| **c == Command::Kill).count(), 1);
}

#[test]
fn failed_connect_on_existing_container_is_not_compensated() {
    let (_, commands) = run(
        Step::Seed,
        vec![Event::Containers(vec![container(Some(IMAGE))]), Event::DatabaseFailed("refused".to_string())],
    );
    assert_eq!(
        commands,
        vec![
            Command::ListContainers,
            Command::Perform(Action::Connect),
            Command::Finish(Err(Failure::Database("refused".to_string()))),
        ]
    );
}

#[test]
fn build_exit_status_one_fails_without_launch() {
    let (_, commands) = run(
        Step::Seed,
        vec![
            Event::Containers(vec![]),
            Event::Images(vec![]),
            Event::Started,
            Event::Process(ProcessOutcome::Exited(Some(1))),
        ],
    );
    assert_eq!(
        commands.last(),
        Some(&Command::Finish(Err(Failure::Exit { command: "docker".to_string(), code: Some(1) })))
    );
    assert!(!commands.contains(&Command::Perform(Action::LaunchContainer)));
    assert!(!commands.contains(&Command::Kill));
}

#[test]
fn build_step_alone_builds_and_awaits() {
    let (_, commands) = run(Step::Build, vec![Event::Started, Event::Process(ProcessOutcome::Exited(Some(0)))]);
    assert_eq!(
        commands,
        vec![Command::Perform(Action::BuildImage), Command::AwaitExit, Command::Finish(Ok(()))]
    );
}

#[test]
fn run_with_tagged_image_launches_and_awaits() {
    let (_, commands) = run(
        Step::Run,
        vec![
            Event::Images(vec![image("coi-actix-sample-postgres:latest")]),
            Event::Started,
            Event::Process(ProcessOutcome::Exited(Some(0))),
        ],
    );
    assert_eq!(
        commands,
        vec![
            Command::ListImages,
            Command::Perform(Action::LaunchContainer),
            Command::AwaitExit,
            Command::Finish(Ok(())),
        ]
    );
}

#[test]
fn run_without_image_builds_first() {
    let (_, commands) = run(
        Step::Run,
        vec![Event::Images(vec![image("coi-actix-sample-postgres:v2"), image("other:latest")])],
    );
    assert_eq!(commands, vec![Command::ListImages, Command::Perform(Action::BuildImage)]);
}

#[test]
fn listing_failure_is_a_runtime_failure() {
    let (_, commands) = run(Step::Init, vec![Event::ListFailed("daemon unreachable".to_string())]);
    assert_eq!(
        commands.last(),
        Some(&Command::Finish(Err(Failure::Runtime("daemon unreachable".to_string()))))
    );
}

#[test]
fn missing_runtime_program_is_reported() {
    let (_, commands) = run(
        Step::Build,
        vec![Event::Process(ProcessOutcome::SpawnFailed(IoFailure {
            not_found: true,
            message: "No such file or directory".to_string(),
        }))],
    );
    assert_eq!(
        commands.last(),
        Some(&Command::Finish(Err(Failure::CommandNotFound {
            command: "docker".to_string(),
            cause: "No such file or directory".to_string(),
        })))
    );
}

#[test]
fn unexpected_event_ends_invocation() {
    let (s, commands) = run(Step::Init, vec![Event::Killed]);
    assert_eq!(commands.last(), Some(&Command::Finish(Err(Failure::Unknown))));
    assert_eq!(s.phase, Phase::Finished);
}
