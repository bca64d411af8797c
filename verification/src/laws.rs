//! What holds of every run of the lifecycle machine.

use crate::error::SandboxError;
use crate::orchestrator::{follows, Action, Event, Orchestrator, Outcome, Phase, RunKind};
use crate::sandbox::{start_decision, StartDecision};
use vstd::prelude::*;

verus! {

/// How far a phase is on the way of an invocation.
pub open spec fn rank(phase: Phase) -> nat {
    match phase {
        Phase::Locating => 0,
        Phase::Purging => 1,
        Phase::Creating => 2,
        Phase::Relocating { .. } => 3,
        Phase::Attaching { .. } => 4,
        Phase::Starting { .. } => 5,
        Phase::Running { .. } => 6,
        Phase::CreatingExec => 6,
        Phase::Removing { .. } => 7,
        Phase::Executing => 7,
        Phase::Finished => 8,
    }
}

/// A run of the machine: the states it went through, the events it was
/// handed, and the actions it answered with, each step by the machine's
/// rule.
pub open spec fn is_run(states: Seq<Orchestrator>, events: Seq<Event>, actions: Seq<Action>) -> bool {
    &&& states.len() == events.len() + 1
    &&& actions.len() == events.len()
    &&& forall|i: int|
        0 <= i < events.len() ==> #[trigger] follows(states[i], events[i], states[i + 1], actions[i])
}

/// Whether an action removes a container by force.
pub open spec fn removes_by_force(action: Action) -> bool {
    action matches Action::Remove { force, .. } && force
}

/// Nothing is retried: every step takes an invocation further, until it has
/// ended, and keeps what was asked for.
pub proof fn lemma_steps_advance(pre: Orchestrator, event: Event, post: Orchestrator, action: Action)
    requires
        follows(pre, event, post, action),
    ensures
        post.invocation == pre.invocation,
        rank(pre.phase) < rank(post.phase) || (pre.phase == Phase::Finished && post.phase
            == Phase::Finished),
        action is Start <==> post.phase is Starting,
        action is Finish <==> post.phase == Phase::Finished,
{
}

/// In a run, a later state is further on than an earlier one, unless the
/// invocation had ended.
pub proof fn lemma_runs_advance(
    states: Seq<Orchestrator>,
    events: Seq<Event>,
    actions: Seq<Action>,
    i: int,
    j: int,
)
    requires
        is_run(states, events, actions),
        0 <= i < j < states.len(),
    ensures
        states[j].invocation == states[i].invocation,
        rank(states[i].phase) < rank(states[j].phase) || states[i].phase == Phase::Finished,
    decreases j - i,
{
    let k = j - 1;
    assert(follows(states[k], events[k], states[k + 1], actions[k]));
    lemma_steps_advance(states[k], events[k], states[j], actions[k]);
    if i < j - 1 {
        lemma_runs_advance(states, events, actions, i, j - 1);
    }
}

/// What the states `running` and `exited` ask for.
proof fn lemma_decisions()
    ensures
        start_decision("running"@) == StartDecision::AlreadyRunning,
        start_decision("exited"@) == StartDecision::Start,
{
    reveal_strlit("running");
    reveal_strlit("exited");
    reveal_strlit("created");
    reveal_strlit("dead");
    reveal_strlit("paused");
    let running = "running"@;
    assert(running.len() == 7 && running[0] == 'r');
    assert("created"@[0] == 'c');
}

/// Start-if-needed in an ephemeral run. The container of the listing is
/// attached to; then one that was reported as `running` gets no start
/// request, and one that was reported as `exited` gets one.
pub proof fn lemma_start_if_needed(
    pre: Orchestrator,
    listing: Event,
    mid: Orchestrator,
    attach: Action,
    post: Orchestrator,
    action: Action,
)
    requires
        pre.invocation.kind == RunKind::Ephemeral,
        pre.phase is Relocating,
        listing matches Event::Listed(containers) && containers@.len() > 0,
        follows(pre, listing, mid, attach),
        follows(mid, Event::Done, post, action),
    ensures
        attach == (Action::Attach { id: listing->Listed_0@[0].id }),
        listing->Listed_0@[0].state@ == "running"@ ==> action == Action::AwaitAttach,
        listing->Listed_0@[0].state@ == "exited"@ ==> action == (Action::Start {
            id: listing->Listed_0@[0].id,
        }),
{
    lemma_decisions();
}

/// Start-if-needed in a reusable run. A container that is reported as
/// `running` gets no start request: the command is set up in it at once. One
/// that is reported as `exited` gets a start request.
pub proof fn lemma_start_if_needed_on_reuse(
    pre: Orchestrator,
    listing: Event,
    post: Orchestrator,
    action: Action,
)
    requires
        pre.invocation.kind == RunKind::Reusable,
        pre.phase is Locating || pre.phase is Relocating,
        listing matches Event::Listed(containers) && containers@.len() > 0,
        follows(pre, listing, post, action),
    ensures
        listing->Listed_0@[0].state@ == "running"@ ==> action is CreateExec,
        listing->Listed_0@[0].state@ == "exited"@ ==> action == (Action::Start {
            id: listing->Listed_0@[0].id,
        }),
{
    lemma_decisions();
}

/// No run asks twice for a start.
pub proof fn lemma_at_most_one_start(
    states: Seq<Orchestrator>,
    events: Seq<Event>,
    actions: Seq<Action>,
    i: int,
    j: int,
)
    requires
        is_run(states, events, actions),
        0 <= i < actions.len(),
        0 <= j < actions.len(),
        actions[i] is Start,
        actions[j] is Start,
    ensures
        i == j,
{
    lemma_steps_advance(states[i], events[i], states[i + 1], actions[i]);
    lemma_steps_advance(states[j], events[j], states[j + 1], actions[j]);
    if i < j {
        lemma_runs_advance(states, events, actions, i + 1, j + 1);
    }
    if j < i {
        lemma_runs_advance(states, events, actions, j + 1, i + 1);
    }
}

/// A state that waits for the attach task's launch was reached by asking
/// for that attach.
pub proof fn lemma_attaching_was_asked(pre: Orchestrator, event: Event, post: Orchestrator, action: Action)
    requires
        follows(pre, event, post, action),
        post.phase is Attaching,
    ensures
        action == (Action::Attach { id: post.phase->Attaching_id }),
{
}

/// An ephemeral run attaches before it starts: the request before a start
/// request is the attach to the same container, so that no output of the
/// container is missed.
pub proof fn lemma_attach_precedes_start(
    states: Seq<Orchestrator>,
    events: Seq<Event>,
    actions: Seq<Action>,
    i: int,
)
    requires
        is_run(states, events, actions),
        states[0].invocation.kind == RunKind::Ephemeral,
        states[0].phase == Phase::Locating,
        0 <= i < actions.len(),
        actions[i] is Start,
    ensures
        i > 0,
        actions[i - 1] == (Action::Attach { id: actions[i]->Start_id }),
{
    assert(follows(states[i], events[i], states[i + 1], actions[i]));
    if i > 0 {
        lemma_runs_advance(states, events, actions, 0, i);
        let k = i - 1;
        assert(follows(states[k], events[k], states[k + 1], actions[k]));
        lemma_attaching_was_asked(states[k], events[k], states[i], actions[k]);
    }
}

/// An ephemeral run whose start request fails still asks for the removal of
/// its container, by force, and then reports the failure of the start,
/// whatever comes of the removal.
pub proof fn lemma_failed_start_is_cleaned_up(
    pre: Orchestrator,
    failure: SandboxError,
    mid: Orchestrator,
    removal: Action,
    event: Event,
    post: Orchestrator,
    last: Action,
    id: String,
)
    requires
        pre.invocation.kind == RunKind::Ephemeral,
        pre.phase == (Phase::Starting { id }),
        follows(pre, Event::Failed(failure), mid, removal),
        follows(mid, event, post, last),
    ensures
        removal == (Action::Remove { id, force: true, remove_volumes: true }),
        last matches Action::Finish(outcome) && outcome.run == Err::<(), SandboxError>(failure)
            && outcome.spec_result() == Err::<(), SandboxError>(failure),
{
}

/// Whether a phase of an ephemeral run knows of a container that is still to
/// be removed.
pub open spec fn owes_removal(phase: Phase) -> bool {
    phase is Relocating || phase is Attaching || phase is Starting || phase is Running
}

/// An ephemeral run that knows of its container goes on knowing of it until
/// it asks for the removal by force.
pub proof fn lemma_removal_stays_owed(pre: Orchestrator, event: Event, post: Orchestrator, action: Action)
    requires
        pre.invocation.kind == RunKind::Ephemeral,
        follows(pre, event, post, action),
        owes_removal(pre.phase) || (pre.phase == Phase::Creating && event is Created),
    ensures
        owes_removal(post.phase) || removes_by_force(action),
        !(action is Finish),
{
}

/// The container of an ephemeral run is removed on every path: a run that
/// has ended, and in which the runtime had created the container, has asked
/// for the removal by force after that, and before it ended.
pub proof fn lemma_ephemeral_container_is_removed(
    states: Seq<Orchestrator>,
    events: Seq<Event>,
    actions: Seq<Action>,
    created: int,
) -> (removed: int)
    requires
        is_run(states, events, actions),
        states[0].invocation.kind == RunKind::Ephemeral,
        0 <= created < events.len(),
        states[created].phase == Phase::Creating,
        events[created] is Created,
        states.last().phase == Phase::Finished,
    ensures
        created < removed < actions.len(),
        removes_by_force(actions[removed]),
{
    lemma_owed_until_removed(states, events, actions, created, events.len() as int)
}

/// The induction behind the law above: up to any later point of the run,
/// either the removal has been asked for or it is still owed.
proof fn lemma_owed_until_removed(
    states: Seq<Orchestrator>,
    events: Seq<Event>,
    actions: Seq<Action>,
    created: int,
    upto: int,
) -> (removed: int)
    requires
        is_run(states, events, actions),
        states[0].invocation.kind == RunKind::Ephemeral,
        0 <= created < upto <= events.len(),
        states[created].phase == Phase::Creating,
        events[created] is Created,
        !owes_removal(states[upto].phase),
    ensures
        created < removed < upto,
        removes_by_force(actions[removed]),
    decreases upto - created,
{
    let step = upto - 1;
    assert(follows(states[step], events[step], states[step + 1], actions[step]));
    if step > 0 {
        lemma_runs_advance(states, events, actions, 0, step);
    }
    if step == created || owes_removal(states[step].phase) {
        // The removal is owed before this step, or from this step on, and is
        // not owed after it: so this step has asked for it, and is not the
        // creation, which leaves it owed.
        lemma_removal_stays_owed(states[step], events[step], states[upto], actions[step]);
        step
    } else {
        lemma_owed_until_removed(states, events, actions, created, step)
    }
}

/// More than one container under the same labels is no error: the first of
/// the listing is the one that the run goes on with.
pub proof fn lemma_first_match_is_used(pre: Orchestrator, event: Event, post: Orchestrator, action: Action)
    requires
        pre.phase is Relocating,
        event matches Event::Listed(containers) && containers@.len() >= 1,
        follows(pre, event, post, action),
    ensures
        !(action is Finish),
        pre.invocation.kind == RunKind::Ephemeral ==> action == (Action::Attach {
            id: event->Listed_0@[0].id,
        }),
        pre.invocation.kind == RunKind::Reusable ==> (action is Start || action is CreateExec),
{
}

/// The phases that a reusable run goes through.
pub open spec fn reusable_phase(phase: Phase) -> bool {
    !(phase is Purging || phase is Attaching || phase is Running || phase is Removing)
}

/// A reusable run stays in its phases and asks for no removal there.
pub proof fn lemma_reusable_step(pre: Orchestrator, event: Event, post: Orchestrator, action: Action)
    requires
        pre.invocation.kind == RunKind::Reusable,
        reusable_phase(pre.phase),
        follows(pre, event, post, action),
    ensures
        reusable_phase(post.phase),
        !(action is Remove),
{
}

/// A reusable run never asks for a removal: its container is left for the
/// next invocation.
pub proof fn lemma_reusable_is_never_removed(
    states: Seq<Orchestrator>,
    events: Seq<Event>,
    actions: Seq<Action>,
    i: int,
)
    requires
        is_run(states, events, actions),
        states[0].invocation.kind == RunKind::Reusable,
        states[0].phase == Phase::Locating,
        0 <= i < actions.len(),
    ensures
        states[i].invocation.kind == RunKind::Reusable,
        reusable_phase(states[i].phase),
        !(actions[i] is Remove),
    decreases i,
{
    if i > 0 {
        let k = i - 1;
        lemma_reusable_is_never_removed(states, events, actions, k);
        assert(follows(states[k], events[k], states[k + 1], actions[k]));
        lemma_reusable_step(states[k], events[k], states[i], actions[k]);
    }
    assert(follows(states[i], events[i], states[i + 1], actions[i]));
    lemma_reusable_step(states[i], events[i], states[i + 1], actions[i]);
}

/// A failure of the removal does not stand in for a failure of the run, and
/// is not lost where the run went well.
pub proof fn lemma_first_failure_is_reported(outcome: Outcome)
    ensures
        outcome.run is Err ==> outcome.spec_result() == outcome.run,
        outcome.run is Ok ==> outcome.spec_result() == outcome.cleanup,
{
}

} // verus!
