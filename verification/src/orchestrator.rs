//! The lifecycle of one sandbox invocation, as a state machine. The machine
//! decides; its driver acts. The driver performs the action it is given,
//! hands back what came of it as an event, and goes on until the action is
//! to finish. Nothing is retried.
//!
//! An ephemeral run removes what an earlier run may have left behind, creates
//! its container, finds it again in the runtime's listing, attaches to it
//! before it starts it, waits for the output to end, and removes the
//! container whether the run went well or not. A reusable run finds or
//! creates a container that idles, starts it where it does not run, executes
//! the command in it, and leaves it running.

use crate::container_type::ContainerType;
use crate::dockerapi::container_summary::ContainerSummary;
use crate::dockerapi::create_container_args::CreateContainerArgs;
use crate::dockerapi::create_container_response::CreateContainerResponse;
use crate::dockerapi::create_exec_args::CreateExecArgs;
use crate::dockerapi::create_exec_response::CreateExecResponse;
use crate::dockerapi::list_containers::ListContainersArgs;
use crate::dockerapi::start_exec_args::StartExecArgs;
use crate::error::SandboxError;
use crate::sandbox::{
    create_container, creates_sandbox, find_container, first_container, locates, start_container,
    start_decision, Settings, StartDecision,
};
use crate::text::clone_texts;
use vstd::prelude::*;

verus! {

/// Whether the container of a run lives for that run only.
#[derive(Copy, Clone, Debug, PartialEq, Eq, Structural)]
pub enum RunKind {
    /// The container is created for the run and removed after it.
    Ephemeral,
    /// The container is found or created, and left running.
    Reusable,
}

/// What one invocation asks for.
#[derive(Clone, Debug, PartialEq)]
pub struct Invocation {
    pub settings: Settings,
    /// The project's directory on the host.
    pub project_dir: String,
    /// The project's name, by which its containers are found.
    pub project_name: String,
    /// The purpose of the container.
    pub container_type: ContainerType,
    /// The command to run.
    pub command: Vec<String>,
    pub kind: RunKind,
    /// The environment of a command that is executed in a reusable
    /// container, each entry in the form `KEY=VALUE`.
    pub env: Vec<String>,
    /// Whether the container is created without networking.
    pub network_disabled: bool,
}

/// The command of a container that only waits to be used.
pub open spec fn idle_command() -> Seq<Seq<char>> {
    seq!["sleep"@, "infinity"@]
}

impl Invocation {
    /// The command that the container is created with: the command to run
    /// where the container lives for the run only, and else one that idles.
    pub open spec fn entry_command(self) -> Seq<Seq<char>> {
        match self.kind {
            RunKind::Ephemeral => self.command.deep_view(),
            RunKind::Reusable => idle_command(),
        }
    }
}

/// How an invocation ended: the run and the removal of the container, each
/// by itself.
#[derive(Debug, PartialEq)]
pub struct Outcome {
    /// What came of the run, up to the end of the container's output.
    pub run: Result<(), SandboxError>,
    /// What came of removing the container; `Ok` also where nothing was to
    /// be removed.
    pub cleanup: Result<(), SandboxError>,
}

impl Outcome {
    /// What the invocation reports: the failure of the run where it failed,
    /// and else what came of the removal.
    pub open spec fn spec_result(self) -> Result<(), SandboxError> {
        match self.run {
            Err(failure) => Err(failure),
            Ok(_) => self.cleanup,
        }
    }

    /// What the invocation reports: a failure of the removal never stands in
    /// for a failure of the run.
    pub fn result(self) -> (result: Result<(), SandboxError>)
        ensures
            result == self.spec_result(),
    {
        match self.run {
            Err(failure) => Err(failure),
            Ok(_) => self.cleanup,
        }
    }
}

/// What the driver is to do next.
#[derive(Debug, PartialEq)]
pub enum Action {
    /// List the containers.
    List(ListContainersArgs),
    /// Create a container.
    Create(CreateContainerArgs),
    /// Remove a container.
    Remove { id: String, force: bool, remove_volumes: bool },
    /// Begin to attach to a container's output, as a task of its own, and
    /// do not wait for it.
    Attach { id: String },
    /// Start a container.
    Start { id: String },
    /// Wait until the task that attached has seen the output end.
    AwaitAttach,
    /// Set up a command in a running container.
    CreateExec { id: String, args: CreateExecArgs },
    /// Start a command that was set up, and stream its output to its end.
    StartExec { id: String, args: StartExecArgs },
    /// Stop: the invocation has ended.
    Finish(Outcome),
}

/// What came of the last action.
#[derive(Clone, Debug, PartialEq)]
pub enum Event {
    /// The listing, in the runtime's order.
    Listed(Vec<ContainerSummary>),
    /// The container was created.
    Created(CreateContainerResponse),
    /// The command was set up.
    ExecCreated(CreateExecResponse),
    /// The action was performed and has nothing to report.
    Done,
    /// The action failed.
    Failed(SandboxError),
}

/// Where an invocation stands; each phase but the last waits for the event
/// of one action.
#[derive(Debug, PartialEq)]
pub enum Phase {
    /// The first listing is awaited.
    Locating,
    /// The removal of a container that an earlier run left behind is
    /// awaited.
    Purging,
    /// The creation of the container is awaited.
    Creating,
    /// The listing after the creation is awaited; `created` is the id that
    /// the runtime gave.
    Relocating { created: String },
    /// The attach task's launch is awaited.
    Attaching { id: String, decision: StartDecision },
    /// The container's start is awaited.
    Starting { id: String },
    /// The end of the container's output is awaited.
    Running { id: String },
    /// The container's removal is awaited, after a run that ended as `run`.
    Removing { run: Result<(), SandboxError> },
    /// The set-up of the command is awaited.
    CreatingExec,
    /// The end of the command's output is awaited.
    Executing,
    /// The invocation has ended.
    Finished,
}

/// An invocation in progress.
#[derive(Debug, PartialEq)]
pub struct Orchestrator {
    pub invocation: Invocation,
    pub phase: Phase,
}

/// The failure that an event stands for where it is not the one awaited.
pub open spec fn failure_of(event: Event) -> SandboxError {
    match event {
        Event::Failed(failure) => failure,
        _ => SandboxError::UnexpectedEvent,
    }
}

/// Whether `action` lists the invocation's containers.
pub open spec fn asks_listing(invocation: Invocation, action: Action) -> bool {
    action matches Action::List(args) && locates(
        args,
        invocation.settings,
        invocation.project_name@,
        invocation.container_type,
    )
}

/// Whether `action` creates the invocation's container.
pub open spec fn asks_creation(invocation: Invocation, action: Action) -> bool {
    action matches Action::Create(args) && creates_sandbox(
        args,
        invocation.settings,
        invocation.project_dir@,
        invocation.project_name@,
        invocation.container_type,
        invocation.entry_command(),
        invocation.network_disabled,
    ) && args.wf()
}

/// Whether `args` executes the invocation's command: with its environment,
/// with standard output and standard error attached, and without a terminal,
/// so that the output comes in frames.
pub open spec fn executes(invocation: Invocation, args: CreateExecArgs) -> bool {
    &&& !args.attach_stdin
    &&& args.attach_stdout
    &&& args.attach_stderr
    &&& args.detach_keys@ == Seq::<char>::empty()
    &&& !args.tty
    &&& args.cmd@ == invocation.command@
    &&& args.env@ == invocation.env@
}

/// Whether `action` sets up the invocation's command in the container `id`.
pub open spec fn asks_exec(invocation: Invocation, id: String, action: Action) -> bool {
    action matches Action::CreateExec { id: target, args } && target == id && executes(
        invocation,
        args,
    )
}

/// Whether an invocation goes on as it does with the container that it is
/// to use. An ephemeral run attaches first. A reusable run starts the
/// container where its state asks for that, and else executes at once.
pub open spec fn enters(
    invocation: Invocation,
    id: String,
    decision: StartDecision,
    phase: Phase,
    action: Action,
) -> bool {
    match invocation.kind {
        RunKind::Ephemeral => phase == (Phase::Attaching { id, decision }) && action == (
        Action::Attach { id }),
        RunKind::Reusable => if decision == StartDecision::Start {
            phase == (Phase::Starting { id }) && action == (Action::Start { id })
        } else {
            phase == Phase::CreatingExec && asks_exec(invocation, id, action)
        },
    }
}

/// Whether an invocation gives up as it does on a failure. An ephemeral run
/// that knows of a container removes it by force before it ends; every
/// other run ends at once.
pub open spec fn gives_up(
    invocation: Invocation,
    known: Option<String>,
    failure: SandboxError,
    phase: Phase,
    action: Action,
) -> bool {
    if invocation.kind == RunKind::Ephemeral && known is Some {
        phase == (Phase::Removing { run: Err(failure) }) && action == (Action::Remove {
            id: known.unwrap(),
            force: true,
            remove_volumes: true,
        })
    } else {
        phase == Phase::Finished && action == Action::Finish(
            Outcome { run: Err(failure), cleanup: Ok(()) },
        )
    }
}

/// The machine's one rule: whether, in the state `pre` and on `event`, the
/// state `post` and `action` follow.
pub open spec fn follows(pre: Orchestrator, event: Event, post: Orchestrator, action: Action) -> bool {
    let invocation = pre.invocation;
    &&& post.invocation == invocation
    &&& match pre.phase {
        Phase::Locating => match event {
            Event::Listed(containers) => if containers@.len() > 0 {
                match invocation.kind {
                    RunKind::Ephemeral => post.phase == Phase::Purging && action == (
                    Action::Remove { id: containers@[0].id, force: false, remove_volumes: true }),
                    RunKind::Reusable => enters(
                        invocation,
                        containers@[0].id,
                        start_decision(containers@[0].state@),
                        post.phase,
                        action,
                    ),
                }
            } else {
                post.phase == Phase::Creating && asks_creation(invocation, action)
            },
            _ => gives_up(invocation, None, failure_of(event), post.phase, action),
        },
        Phase::Purging => match event {
            Event::Done => post.phase == Phase::Creating && asks_creation(invocation, action),
            _ => gives_up(invocation, None, failure_of(event), post.phase, action),
        },
        Phase::Creating => match event {
            Event::Created(response) => post.phase == (Phase::Relocating { created: response.id })
                && asks_listing(invocation, action),
            _ => gives_up(invocation, None, failure_of(event), post.phase, action),
        },
        Phase::Relocating { created } => match event {
            Event::Listed(containers) => if containers@.len() > 0 {
                enters(
                    invocation,
                    containers@[0].id,
                    start_decision(containers@[0].state@),
                    post.phase,
                    action,
                )
            } else {
                gives_up(
                    invocation,
                    Some(created),
                    SandboxError::ContainerMissing,
                    post.phase,
                    action,
                )
            },
            _ => gives_up(invocation, Some(created), failure_of(event), post.phase, action),
        },
        Phase::Attaching { id, decision } => match event {
            Event::Done => if decision == StartDecision::Start {
                post.phase == (Phase::Starting { id }) && action == (Action::Start { id })
            } else {
                post.phase == (Phase::Running { id }) && action == Action::AwaitAttach
            },
            _ => gives_up(invocation, Some(id), failure_of(event), post.phase, action),
        },
        Phase::Starting { id } => match event {
            Event::Done => match invocation.kind {
                RunKind::Ephemeral => post.phase == (Phase::Running { id }) && action
                    == Action::AwaitAttach,
                RunKind::Reusable => post.phase == Phase::CreatingExec && asks_exec(
                    invocation,
                    id,
                    action,
                ),
            },
            _ => gives_up(invocation, Some(id), failure_of(event), post.phase, action),
        },
        Phase::Running { id } => match event {
            Event::Done => post.phase == (Phase::Removing { run: Ok(()) }) && action == (
            Action::Remove { id, force: true, remove_volumes: true }),
            _ => gives_up(invocation, Some(id), failure_of(event), post.phase, action),
        },
        Phase::Removing { run } => post.phase == Phase::Finished && action == Action::Finish(
            Outcome {
                run,
                cleanup: match event {
                    Event::Done => Ok(()),
                    _ => Err(failure_of(event)),
                },
            },
        ),
        Phase::CreatingExec => match event {
            Event::ExecCreated(response) => post.phase == Phase::Executing && action == (
            Action::StartExec { id: response.id, args: StartExecArgs { detach: false, tty: false } }),
            _ => gives_up(invocation, None, failure_of(event), post.phase, action),
        },
        Phase::Executing => match event {
            Event::Done => post.phase == Phase::Finished && action == Action::Finish(
                Outcome { run: Ok(()), cleanup: Ok(()) },
            ),
            _ => gives_up(invocation, None, failure_of(event), post.phase, action),
        },
        Phase::Finished => gives_up(
            invocation,
            None,
            SandboxError::UnexpectedEvent,
            post.phase,
            action,
        ),
    }
}

/// The failure that an event stands for where it is not the one awaited.
fn failure(event: Event) -> (failure: SandboxError)
    ensures
        failure == failure_of(event),
{
    match event {
        Event::Failed(failure) => failure,
        _ => SandboxError::UnexpectedEvent,
    }
}

/// The command of a container that only waits to be used.
fn idle() -> (command: Vec<String>)
    ensures
        command.deep_view() == idle_command(),
{
    let mut command: Vec<String> = Vec::new();
    command.push(String::from_str("sleep"));
    command.push(String::from_str("infinity"));
    assert(command.deep_view() =~= idle_command());
    command
}

impl Orchestrator {
    /// Begins an invocation: its container is looked for first.
    pub fn begin(invocation: Invocation) -> (first: (Orchestrator, Action))
        ensures
            first.0.invocation == invocation,
            first.0.phase == Phase::Locating,
            asks_listing(invocation, first.1),
    {
        let action = Action::List(
            find_container(
                &invocation.settings,
                invocation.project_name.as_str(),
                invocation.container_type,
            ),
        );
        (Orchestrator { invocation, phase: Phase::Locating }, action)
    }

    /// Whether the invocation has ended.
    pub fn is_finished(&self) -> (finished: bool)
        ensures
            finished == (self.phase == Phase::Finished),
    {
        match self.phase {
            Phase::Finished => true,
            _ => false,
        }
    }

    /// Takes what came of the last action and decides what is done next.
    pub fn step(self, event: Event) -> (next: (Orchestrator, Action))
        ensures
            follows(self, event, next.0, next.1),
    {
        let Orchestrator { invocation, phase } = self;
        let (phase, action) = match phase {
            Phase::Locating => match event {
                Event::Listed(containers) => match first_container(containers) {
                    Some(container) => match invocation.kind {
                        RunKind::Ephemeral => (
                            Phase::Purging,
                            Action::Remove { id: container.id, force: false, remove_volumes: true },
                        ),
                        RunKind::Reusable => enter(&invocation, container),
                    },
                    None => (Phase::Creating, create(&invocation)),
                },
                other => give_up(&invocation, None, failure(other)),
            },
            Phase::Purging => match event {
                Event::Done => (Phase::Creating, create(&invocation)),
                other => give_up(&invocation, None, failure(other)),
            },
            Phase::Creating => match event {
                Event::Created(response) => (
                    Phase::Relocating { created: response.id },
                    Action::List(
                        find_container(
                            &invocation.settings,
                            invocation.project_name.as_str(),
                            invocation.container_type,
                        ),
                    ),
                ),
                other => give_up(&invocation, None, failure(other)),
            },
            Phase::Relocating { created } => match event {
                Event::Listed(containers) => match first_container(containers) {
                    Some(container) => enter(&invocation, container),
                    None => give_up(&invocation, Some(created), SandboxError::ContainerMissing),
                },
                other => give_up(&invocation, Some(created), failure(other)),
            },
            Phase::Attaching { id, decision } => match event {
                Event::Done => match decision {
                    StartDecision::Start => (
                        Phase::Starting { id: id.clone() },
                        Action::Start { id },
                    ),
                    _ => (Phase::Running { id }, Action::AwaitAttach),
                },
                other => give_up(&invocation, Some(id), failure(other)),
            },
            Phase::Starting { id } => match event {
                Event::Done => match invocation.kind {
                    RunKind::Ephemeral => (Phase::Running { id }, Action::AwaitAttach),
                    RunKind::Reusable => (Phase::CreatingExec, exec(&invocation, id)),
                },
                other => give_up(&invocation, Some(id), failure(other)),
            },
            Phase::Running { id } => match event {
                Event::Done => (
                    Phase::Removing { run: Ok(()) },
                    Action::Remove { id, force: true, remove_volumes: true },
                ),
                other => give_up(&invocation, Some(id), failure(other)),
            },
            Phase::Removing { run } => {
                let cleanup = match event {
                    Event::Done => Ok(()),
                    other => Err(failure(other)),
                };
                (Phase::Finished, Action::Finish(Outcome { run, cleanup }))
            },
            Phase::CreatingExec => match event {
                Event::ExecCreated(response) => (
                    Phase::Executing,
                    Action::StartExec {
                        id: response.id,
                        args: StartExecArgs { detach: false, tty: false },
                    },
                ),
                other => give_up(&invocation, None, failure(other)),
            },
            Phase::Executing => match event {
                Event::Done => (
                    Phase::Finished,
                    Action::Finish(Outcome { run: Ok(()), cleanup: Ok(()) }),
                ),
                other => give_up(&invocation, None, failure(other)),
            },
            Phase::Finished => give_up(&invocation, None, SandboxError::UnexpectedEvent),
        };
        (Orchestrator { invocation, phase }, action)
    }
}

/// Begins an ephemeral run of a command for a project: with networking, in
/// a container of its own that is removed when the run has ended.
pub fn ephemeral_exec(
    settings: Settings,
    project_dir: String,
    project_name: String,
    cargo_command: Vec<String>,
    container_type: ContainerType,
) -> (first: (Orchestrator, Action))
    ensures
        first.0.invocation.settings == settings,
        first.0.invocation.project_dir == project_dir,
        first.0.invocation.project_name == project_name,
        first.0.invocation.container_type == container_type,
        first.0.invocation.command == cargo_command,
        first.0.invocation.kind == RunKind::Ephemeral,
        first.0.invocation.env@.len() == 0,
        !first.0.invocation.network_disabled,
        first.0.phase == Phase::Locating,
        asks_listing(first.0.invocation, first.1),
{
    Orchestrator::begin(
        Invocation {
            settings,
            project_dir,
            project_name,
            container_type,
            command: cargo_command,
            kind: RunKind::Ephemeral,
            env: Vec::new(),
            network_disabled: false,
        },
    )
}

/// Begins a reusable run of a command for a project: with networking and
/// with the given environment, in a container that is left running.
pub fn reusable_exec(
    settings: Settings,
    project_dir: String,
    project_name: String,
    command: Vec<String>,
    container_type: ContainerType,
    env: Vec<String>,
) -> (first: (Orchestrator, Action))
    ensures
        first.0.invocation == (Invocation {
            settings,
            project_dir,
            project_name,
            container_type,
            command,
            kind: RunKind::Reusable,
            env,
            network_disabled: false,
        }),
        first.0.phase == Phase::Locating,
        asks_listing(first.0.invocation, first.1),
{
    Orchestrator::begin(
        Invocation {
            settings,
            project_dir,
            project_name,
            container_type,
            command,
            kind: RunKind::Reusable,
            env,
            network_disabled: false,
        },
    )
}

/// The creation of the invocation's container.
fn create(invocation: &Invocation) -> (action: Action)
    ensures
        asks_creation(*invocation, action),
{
    let command = match invocation.kind {
        RunKind::Ephemeral => clone_texts(&invocation.command),
        RunKind::Reusable => idle(),
    };
    Action::Create(
        create_container(
            &invocation.settings,
            invocation.project_dir.as_str(),
            invocation.project_name.as_str(),
            invocation.container_type,
            command,
            invocation.network_disabled,
        ),
    )
}

/// The set-up of the invocation's command in a container.
fn exec(invocation: &Invocation, id: String) -> (action: Action)
    ensures
        asks_exec(*invocation, id, action),
{
    Action::CreateExec {
        id,
        args: CreateExecArgs {
            attach_stdin: false,
            attach_stdout: true,
            attach_stderr: true,
            detach_keys: String::new(),
            tty: false,
            cmd: clone_texts(&invocation.command),
            env: clone_texts(&invocation.env),
        },
    }
}

/// How an invocation goes on with the container that it is to use.
fn enter(invocation: &Invocation, container: ContainerSummary) -> (next: (Phase, Action))
    ensures
        enters(*invocation, container.id, start_decision(container.state@), next.0, next.1),
{
    let decision = start_container(&container);
    let id = container.id;
    match invocation.kind {
        RunKind::Ephemeral => (Phase::Attaching { id: id.clone(), decision }, Action::Attach { id }),
        RunKind::Reusable => match decision {
            StartDecision::Start => (Phase::Starting { id: id.clone() }, Action::Start { id }),
            _ => (Phase::CreatingExec, exec(invocation, id)),
        },
    }
}

/// How an invocation gives up on a failure.
fn give_up(invocation: &Invocation, known: Option<String>, failure: SandboxError) -> (next: (
    Phase,
    Action,
))
    ensures
        gives_up(*invocation, known, failure, next.0, next.1),
{
    match (invocation.kind, known) {
        (RunKind::Ephemeral, Some(id)) => (
            Phase::Removing { run: Err(failure) },
            Action::Remove { id, force: true, remove_volumes: true },
        ),
        _ => (Phase::Finished, Action::Finish(Outcome { run: Err(failure), cleanup: Ok(()) })),
    }
}

} // verus!
