use cargo_sandbox::container_type::ContainerType;
use cargo_sandbox::dockerapi::container_summary::ContainerSummary;
use cargo_sandbox::dockerapi::create_container_response::CreateContainerResponse;
use cargo_sandbox::dockerapi::create_exec_args::CreateExecArgs;
use cargo_sandbox::dockerapi::create_exec_response::CreateExecResponse;
use cargo_sandbox::dockerapi::start_exec_args::StartExecArgs;
use cargo_sandbox::dockerapi::stream::{demultiplex, Frame, StreamType};
use cargo_sandbox::error::SandboxError;
use cargo_sandbox::orchestrator::{
    ephemeral_exec, reusable_exec, Action, Event, Invocation, Orchestrator, Outcome, Phase, RunKind,
};
use cargo_sandbox::sandbox::{create_container, find_container, Settings, StartDecision};

fn listed(id: &str, state: &str) -> ContainerSummary {
    ContainerSummary {
        id: id.to_string(),
        names: None,
        image: None,
        image_id: None,
        command: None,
        created: None,
        ports: None,
        size_rw: None,
        size_root_fs: None,
        labels: None,
        state: state.to_string(),
        status: None,
        host_config: None,
        network_settings: None,
    }
}

fn argv(words: &[&str]) -> Vec<String> {
    words.iter().map(|word| word.to_string()).collect()
}

fn created(id: &str) -> Event {
    Event::Created(CreateContainerResponse { id: id.to_string(), warnings: Vec::new() })
}

fn refused(operation: &str) -> SandboxError {
    SandboxError::Rejection {
        operation: operation.to_string(),
        status: 500,
        body: b"{\"message\":\"no\"}".to_vec(),
    }
}

fn build_run() -> (Orchestrator, Action) {
    ephemeral_exec(
        Settings::default(),
        "/work/myapp".to_string(),
        "myapp".to_string(),
        argv(&["cargo", "build"]),
        ContainerType::Build,
    )
}

fn exec_run() -> (Orchestrator, Action) {
    reusable_exec(
        Settings::default(),
        "/work/myapp".to_string(),
        "myapp".to_string(),
        argv(&["cargo", "test"]),
        ContainerType::Build,
        argv(&["CARGO_BUILD_JOBS=2"]),
    )
}

fn remove_by_force(id: &str) -> Action {
    Action::Remove { id: id.to_string(), force: true, remove_volumes: true }
}

/// Drives an ephemeral run up to the point where the container `id` has been
/// attached to and the next event decides on the start.
fn attached(id: &str, state: &str) -> Orchestrator {
    let (machine, _) = build_run();
    let (machine, _) = machine.step(Event::Listed(Vec::new()));
    let (machine, _) = machine.step(created(id));
    let (machine, action) = machine.step(Event::Listed(vec![listed(id, state)]));
    assert_eq!(action, Action::Attach { id: id.to_string() });
    machine
}

#[test]
fn build_of_myapp_runs_from_listing_to_removal() {
    let settings = Settings {
        namespace: "ns".to_string(),
        image_prefix: "sandbox".to_string(),
        user: "sandbox-user".to_string(),
        version: None,
    };
    let (machine, action) = ephemeral_exec(
        settings.clone(),
        "myapp".to_string(),
        "myapp".to_string(),
        argv(&["cargo", "build"]),
        ContainerType::Build,
    );
    let listing = match action {
        Action::List(args) => args,
        other => panic!("expected a listing, got {:?}", other),
    };
    assert_eq!(
        listing.filters,
        Some("{\"label\":[\"ns.project-name=myapp\",\"ns.container-type=build\"]}".to_string())
    );

    let (machine, action) = machine.step(Event::Listed(Vec::new()));
    let creation = match action {
        Action::Create(args) => args,
        other => panic!("expected a creation, got {:?}", other),
    };
    assert_eq!(creation.image, "sandbox-build");
    assert_eq!(creation.cmd, argv(&["cargo", "build"]));
    assert_eq!(
        creation.labels,
        vec![
            ("ns.project-name".to_string(), "myapp".to_string()),
            ("ns.container-type".to_string(), "build".to_string()),
        ]
    );

    let (machine, action) = machine.step(created("c0ffee"));
    assert_eq!(action, Action::List(listing));

    let (machine, action) = machine.step(Event::Listed(vec![listed("c0ffee", "created")]));
    assert_eq!(action, Action::Attach { id: "c0ffee".to_string() });

    let (machine, action) = machine.step(Event::Done);
    assert_eq!(action, Action::Start { id: "c0ffee".to_string() });

    let (machine, action) = machine.step(Event::Done);
    assert_eq!(action, Action::AwaitAttach);

    let mut stream = Frame { stream: StreamType::Stdout, payload: b"Compiling myapp\n".to_vec() }
        .encode()
        .unwrap();
    stream.extend(
        Frame { stream: StreamType::Stdout, payload: b"Finished\n".to_vec() }.encode().unwrap(),
    );
    let (frames, end) = demultiplex(&vec![stream]);
    let mut standard_output = Vec::new();
    let mut standard_error = Vec::new();
    for frame in frames {
        match frame.stream {
            StreamType::Stdout => standard_output.extend(frame.payload),
            StreamType::Stderr => standard_error.extend(frame.payload),
        }
    }
    assert_eq!(standard_output, b"Compiling myapp\nFinished\n".to_vec());
    assert!(standard_error.is_empty());
    assert_eq!(end, Ok(()));

    let (machine, action) = machine.step(Event::Done);
    assert_eq!(action, remove_by_force("c0ffee"));

    let (machine, action) = machine.step(Event::Done);
    assert_eq!(action, Action::Finish(Outcome { run: Ok(()), cleanup: Ok(()) }));
    assert!(machine.is_finished());
}

#[test]
fn run_begins_with_the_listing_of_its_container() {
    let (machine, action) = build_run();
    assert_eq!(
        action,
        Action::List(find_container(&Settings::default(), "myapp", ContainerType::Build))
    );
    assert_eq!(machine.phase, Phase::Locating);
    assert!(!machine.is_finished());
    assert_eq!(
        machine.invocation,
        Invocation {
            settings: Settings::default(),
            project_dir: "/work/myapp".to_string(),
            project_name: "myapp".to_string(),
            container_type: ContainerType::Build,
            command: argv(&["cargo", "build"]),
            kind: RunKind::Ephemeral,
            env: Vec::new(),
            network_disabled: false,
        }
    );
}

#[test]
fn ephemeral_run_creates_the_container_with_its_command() {
    let (machine, _) = build_run();
    let (machine, action) = machine.step(Event::Listed(Vec::new()));
    assert_eq!(
        action,
        Action::Create(create_container(
            &Settings::default(),
            "/work/myapp",
            "myapp",
            ContainerType::Build,
            argv(&["cargo", "build"]),
            false,
        ))
    );
    assert_eq!(machine.phase, Phase::Creating);
}

#[test]
fn container_left_behind_is_removed_before_the_run() {
    let (machine, _) = build_run();
    let (machine, action) =
        machine.step(Event::Listed(vec![listed("stale", "exited"), listed("other", "running")]));
    assert_eq!(
        action,
        Action::Remove { id: "stale".to_string(), force: false, remove_volumes: true }
    );
    assert_eq!(machine.phase, Phase::Purging);
    let (machine, action) = machine.step(Event::Done);
    assert!(matches!(action, Action::Create(_)));
    assert_eq!(machine.phase, Phase::Creating);
}

#[test]
fn failed_removal_of_a_stale_container_ends_the_run() {
    let (machine, _) = build_run();
    let (machine, _) = machine.step(Event::Listed(vec![listed("stale", "running")]));
    let (machine, action) = machine.step(Event::Failed(refused("remove_container")));
    assert_eq!(
        action,
        Action::Finish(Outcome { run: Err(refused("remove_container")), cleanup: Ok(()) })
    );
    assert!(machine.is_finished());
}

#[test]
fn running_container_gets_no_start_request() {
    let machine = attached("c1", "running");
    assert_eq!(
        machine.phase,
        Phase::Attaching { id: "c1".to_string(), decision: StartDecision::AlreadyRunning }
    );
    let (machine, action) = machine.step(Event::Done);
    assert_eq!(action, Action::AwaitAttach);
    let (machine, action) = machine.step(Event::Done);
    assert_eq!(action, remove_by_force("c1"));
    let (_, action) = machine.step(Event::Done);
    assert_eq!(action, Action::Finish(Outcome { run: Ok(()), cleanup: Ok(()) }));
}

#[test]
fn exited_container_gets_exactly_one_start_request() {
    let mut machine = attached("c1", "exited");
    let mut starts = 0;
    let mut steps = 0;
    while !machine.is_finished() {
        let (next, action) = machine.step(Event::Done);
        if let Action::Start { id } = &action {
            assert_eq!(id, "c1");
            starts += 1;
        }
        machine = next;
        steps += 1;
        assert!(steps < 10);
    }
    assert_eq!(starts, 1);
}

#[test]
fn container_in_an_unknown_state_is_not_started() {
    let machine = attached("c1", "restarting");
    let (_, action) = machine.step(Event::Done);
    assert_eq!(action, Action::AwaitAttach);
}

#[test]
fn failed_start_is_cleaned_up_and_reported() {
    let machine = attached("c1", "created");
    let (machine, action) = machine.step(Event::Done);
    assert_eq!(action, Action::Start { id: "c1".to_string() });
    let (machine, action) = machine.step(Event::Failed(refused("start_container")));
    assert_eq!(action, remove_by_force("c1"));
    assert_eq!(machine.phase, Phase::Removing { run: Err(refused("start_container")) });
    let (machine, action) = machine.step(Event::Done);
    assert_eq!(
        action,
        Action::Finish(Outcome { run: Err(refused("start_container")), cleanup: Ok(()) })
    );
    assert!(machine.is_finished());
}

#[test]
fn failed_removal_does_not_mask_the_failed_start() {
    let machine = attached("c1", "created");
    let (machine, _) = machine.step(Event::Done);
    let (machine, _) = machine.step(Event::Failed(refused("start_container")));
    let (_, action) = machine.step(Event::Failed(refused("remove_container")));
    let outcome = match action {
        Action::Finish(outcome) => outcome,
        other => panic!("expected the end, got {:?}", other),
    };
    assert_eq!(outcome.run, Err(refused("start_container")));
    assert_eq!(outcome.cleanup, Err(refused("remove_container")));
    assert_eq!(outcome.result(), Err(refused("start_container")));
}

#[test]
fn failed_removal_after_a_good_run_is_reported() {
    let outcome = Outcome { run: Ok(()), cleanup: Err(refused("remove_container")) };
    assert_eq!(outcome.result(), Err(refused("remove_container")));
    assert_eq!(Outcome { run: Ok(()), cleanup: Ok(()) }.result(), Ok(()));
}

#[test]
fn truncated_output_is_cleaned_up_and_reported() {
    let truncated = SandboxError::TruncatedStream { operation: "attach".to_string() };
    let machine = attached("c1", "running");
    let (machine, _) = machine.step(Event::Done);
    let (machine, action) = machine.step(Event::Failed(truncated.clone()));
    assert_eq!(action, remove_by_force("c1"));
    let (_, action) = machine.step(Event::Done);
    assert_eq!(action, Action::Finish(Outcome { run: Err(truncated), cleanup: Ok(()) }));
}

#[test]
fn failed_attach_is_cleaned_up() {
    let machine = attached("c1", "created");
    let (machine, action) = machine.step(Event::Failed(refused("attach")));
    assert_eq!(action, remove_by_force("c1"));
    assert_eq!(machine.phase, Phase::Removing { run: Err(refused("attach")) });
}

#[test]
fn failed_listing_ends_the_run() {
    let down = SandboxError::Connection {
        operation: "list_containers".to_string(),
        cause: "No such file or directory".to_string(),
    };
    let (machine, _) = build_run();
    let (machine, action) = machine.step(Event::Failed(down.clone()));
    assert_eq!(action, Action::Finish(Outcome { run: Err(down), cleanup: Ok(()) }));
    assert!(machine.is_finished());
}

#[test]
fn failed_creation_ends_the_run() {
    let (machine, _) = build_run();
    let (machine, _) = machine.step(Event::Listed(Vec::new()));
    let (machine, action) = machine.step(Event::Failed(refused("create_container")));
    assert_eq!(
        action,
        Action::Finish(Outcome { run: Err(refused("create_container")), cleanup: Ok(()) })
    );
    assert!(machine.is_finished());
}

#[test]
fn container_missing_after_creation_is_removed_by_its_id() {
    let (machine, _) = build_run();
    let (machine, _) = machine.step(Event::Listed(Vec::new()));
    let (machine, _) = machine.step(created("fresh"));
    assert_eq!(machine.phase, Phase::Relocating { created: "fresh".to_string() });
    let (machine, action) = machine.step(Event::Listed(Vec::new()));
    assert_eq!(action, remove_by_force("fresh"));
    let (_, action) = machine.step(Event::Done);
    assert_eq!(
        action,
        Action::Finish(Outcome { run: Err(SandboxError::ContainerMissing), cleanup: Ok(()) })
    );
}

#[test]
fn failed_second_listing_is_cleaned_up() {
    let (machine, _) = build_run();
    let (machine, _) = machine.step(Event::Listed(Vec::new()));
    let (machine, _) = machine.step(created("fresh"));
    let (machine, action) = machine.step(Event::Failed(refused("list_containers")));
    assert_eq!(action, remove_by_force("fresh"));
    assert_eq!(machine.phase, Phase::Removing { run: Err(refused("list_containers")) });
}

#[test]
fn first_listed_container_is_used_whatever_follows() {
    let (machine, _) = build_run();
    let (machine, _) = machine.step(Event::Listed(Vec::new()));
    let (machine, _) = machine.step(created("fresh"));
    let (_, action) =
        machine.step(Event::Listed(vec![listed("first", "created"), listed("second", "created")]));
    assert_eq!(action, Action::Attach { id: "first".to_string() });
}

#[test]
fn event_that_answers_nothing_is_a_failure() {
    let (machine, _) = build_run();
    let (machine, action) = machine.step(Event::Done);
    assert_eq!(
        action,
        Action::Finish(Outcome { run: Err(SandboxError::UnexpectedEvent), cleanup: Ok(()) })
    );
    assert!(machine.is_finished());
}

#[test]
fn finished_run_stays_finished() {
    let (machine, _) = build_run();
    let (machine, _) = machine.step(Event::Failed(refused("list_containers")));
    let (machine, action) = machine.step(Event::Listed(Vec::new()));
    assert_eq!(
        action,
        Action::Finish(Outcome { run: Err(SandboxError::UnexpectedEvent), cleanup: Ok(()) })
    );
    assert!(machine.is_finished());
}

#[test]
fn reusable_run_creates_an_idle_container() {
    let (machine, _) = exec_run();
    let (_, action) = machine.step(Event::Listed(Vec::new()));
    assert_eq!(
        action,
        Action::Create(create_container(
            &Settings::default(),
            "/work/myapp",
            "myapp",
            ContainerType::Build,
            argv(&["sleep", "infinity"]),
            false,
        ))
    );
}

#[test]
fn reusable_run_executes_in_a_running_container() {
    let (machine, _) = exec_run();
    let (machine, action) = machine.step(Event::Listed(vec![listed("keep", "running")]));
    assert_eq!(
        action,
        Action::CreateExec {
            id: "keep".to_string(),
            args: CreateExecArgs {
                attach_stdin: false,
                attach_stdout: true,
                attach_stderr: true,
                detach_keys: String::new(),
                tty: false,
                cmd: argv(&["cargo", "test"]),
                env: argv(&["CARGO_BUILD_JOBS=2"]),
            },
        }
    );
    let (machine, action) =
        machine.step(Event::ExecCreated(CreateExecResponse { id: "e1".to_string() }));
    assert_eq!(
        action,
        Action::StartExec {
            id: "e1".to_string(),
            args: StartExecArgs { detach: false, tty: false },
        }
    );
    let (machine, action) = machine.step(Event::Done);
    assert_eq!(action, Action::Finish(Outcome { run: Ok(()), cleanup: Ok(()) }));
    assert!(machine.is_finished());
}

#[test]
fn reusable_run_starts_a_stopped_container_first() {
    let (machine, _) = exec_run();
    let (machine, action) = machine.step(Event::Listed(vec![listed("keep", "exited")]));
    assert_eq!(action, Action::Start { id: "keep".to_string() });
    let (_, action) = machine.step(Event::Done);
    assert!(matches!(action, Action::CreateExec { .. }));
}

#[test]
fn reusable_run_never_removes_its_container() {
    let (machine, _) = exec_run();
    let (machine, _) = machine.step(Event::Listed(Vec::new()));
    let (machine, _) = machine.step(created("keep"));
    let (machine, action) = machine.step(Event::Listed(vec![listed("keep", "created")]));
    assert_eq!(action, Action::Start { id: "keep".to_string() });
    let (machine, action) = machine.step(Event::Failed(refused("start_container")));
    assert_eq!(
        action,
        Action::Finish(Outcome { run: Err(refused("start_container")), cleanup: Ok(()) })
    );
    assert!(machine.is_finished());
}

#[test]
fn reusable_run_reports_a_failed_command() {
    let (machine, _) = exec_run();
    let (machine, _) = machine.step(Event::Listed(vec![listed("keep", "running")]));
    let (machine, _) = machine.step(Event::ExecCreated(CreateExecResponse { id: "e1".to_string() }));
    let cut = SandboxError::TruncatedStream { operation: "start_exec".to_string() };
    let (_, action) = machine.step(Event::Failed(cut.clone()));
    assert_eq!(action, Action::Finish(Outcome { run: Err(cut), cleanup: Ok(()) }));
}
