//! What holds of every run of the supervisor.

use crate::supervisor::{
    supervisor_initial, supervisor_next, CommandView, EventView, Phase, SupervisorView,
};
use crate::launch::LaunchSpecView;
use vstd::prelude::*;

verus! {

/// The state after a sequence of events, and all the commands issued on the
/// way, in order.
pub open spec fn supervisor_run<H>(s: SupervisorView<H>, events: Seq<EventView<H>>) -> (
    SupervisorView<H>,
    Seq<CommandView<H>>,
)
    decreases events.len(),
{
    if events.len() == 0 {
        (s, Seq::empty())
    } else {
        let earlier = supervisor_run(s, events.drop_last());
        let last = supervisor_next(earlier.0, events.last());
        (last.0, earlier.1 + last.1)
    }
}

/// The position of a phase in the lifecycle.
pub open spec fn phase_rank(phase: Phase) -> nat {
    match phase {
        Phase::Uninitialized => 0,
        Phase::Spawning => 1,
        Phase::Running => 2,
        Phase::ShuttingDown => 3,
        Phase::Terminated => 4,
    }
}

/// `n` exit notifications in a row.
pub open spec fn exit_requests<H>(n: nat) -> Seq<EventView<H>> {
    Seq::new(n, |i: int| EventView::ExitRequested)
}

/// Whether a command starts or observes a child: the spawn, the relay, the
/// probe, or the declaration that startup is complete.
pub open spec fn brings_up_child<H>(command: CommandView<H>) -> bool {
    command is Spawn || command is StartRelay || command is Probe || command is Ready
}

/// Every step keeps the slot and the phase in agreement: the slot holds a
/// handle exactly while the child is running, and so never more than one.
pub proof fn lemma_step_preserves_wf<H>(s: SupervisorView<H>, event: EventView<H>)
    requires
        s.wf(),
    ensures
        supervisor_next(s, event).0.wf(),
{
}

/// Every run from a consistent state ends in a consistent state.
pub proof fn lemma_run_preserves_wf<H>(s: SupervisorView<H>, events: Seq<EventView<H>>)
    requires
        s.wf(),
    ensures
        supervisor_run(s, events).0.wf(),
    decreases events.len(),
{
    if events.len() > 0 {
        lemma_run_preserves_wf(s, events.drop_last());
        lemma_step_preserves_wf(supervisor_run(s, events.drop_last()).0, events.last());
    }
}

/// The lifecycle only moves forward, and only along its edges: from
/// `Uninitialized` to `Spawning` on `Start`; from `Spawning` to `Running` on
/// `Spawned`, or to `Terminated` on a startup failure; from `Running` to
/// `ShuttingDown` on the exit notification and on nothing else; from
/// `ShuttingDown` to `Terminated` when the terminate call returns, whatever
/// it returned. `Terminated` is never left.
pub proof fn lemma_lifecycle_moves_forward<H>(s: SupervisorView<H>, event: EventView<H>)
    requires
        s.wf(),
    ensures
        phase_rank(s.phase) <= phase_rank(supervisor_next(s, event).0.phase),
        supervisor_next(s, event).0.phase != s.phase ==> match s.phase {
            Phase::Uninitialized => event is Start && supervisor_next(s, event).0.phase
                == Phase::Spawning,
            Phase::Spawning => (event is Spawned && supervisor_next(s, event).0.phase
                == Phase::Running) || ((event is SpawnFailed || event is DataDirFailed)
                && supervisor_next(s, event).0.phase == Phase::Terminated),
            Phase::Running => event is ExitRequested && supervisor_next(s, event).0.phase
                == Phase::ShuttingDown,
            Phase::ShuttingDown => event is TerminateReturned && supervisor_next(
                s,
                event,
            ).0.phase == Phase::Terminated,
            Phase::Terminated => false,
        },
        s.phase == Phase::ShuttingDown && event is TerminateReturned ==> supervisor_next(
            s,
            event,
        ).0.phase == Phase::Terminated,
{
}

/// After the exit notification the slot is empty, and it makes no difference
/// how often the notification is repeated: any number of them, one at least,
/// leaves the state that the first one left and asks for what the first one
/// asked for, so that a handle is handed out for termination at most once.
pub proof fn lemma_shutdown_is_idempotent<H>(s: SupervisorView<H>, n: nat)
    requires
        n >= 1,
    ensures
        supervisor_next(s, EventView::ExitRequested).0.slot is None,
        supervisor_run(s, exit_requests(n)) == supervisor_next(s, EventView::ExitRequested),
        supervisor_next(supervisor_next(s, EventView::ExitRequested).0, EventView::ExitRequested)
            == (supervisor_next(s, EventView::ExitRequested).0, Seq::<CommandView<H>>::empty()),
    decreases n,
{
    let once = supervisor_next(s, EventView::ExitRequested);
    let events = exit_requests::<H>(n);
    assert(events.drop_last() =~= exit_requests::<H>((n - 1) as nat));
    assert(events.last() == EventView::<H>::ExitRequested);
    if n == 1 {
        assert(supervisor_run(s, events.drop_last()) == (s, Seq::<CommandView<H>>::empty()));
        assert(Seq::<CommandView<H>>::empty() + once.1 =~= once.1);
    } else {
        lemma_shutdown_is_idempotent(s, (n - 1) as nat);
        assert(once.1 + Seq::<CommandView<H>>::empty() =~= once.1);
    }
}

/// Once startup has failed or the child has been terminated, nothing brings
/// a child up again: whatever events follow, the phase stays `Terminated`,
/// the slot stays empty, and no command spawns, relays, probes or declares
/// startup complete.
pub proof fn lemma_terminated_is_final<H>(s: SupervisorView<H>, events: Seq<EventView<H>>)
    requires
        s.wf(),
        s.phase == Phase::Terminated,
    ensures
        supervisor_run(s, events).0.phase == Phase::Terminated,
        supervisor_run(s, events).0.slot is None,
        forall|i: int|
            0 <= i < supervisor_run(s, events).1.len() ==> !brings_up_child(
                #[trigger] supervisor_run(s, events).1[i],
            ),
    decreases events.len(),
{
    if events.len() > 0 {
        lemma_terminated_is_final(s, events.drop_last());
    }
}

/// If startup fails, at the data directory or at the spawn, no handle is
/// ever put into the slot and the relay is never started: in a run that
/// begins with `Start` and the failure, whatever events follow, the slot is
/// empty at the end and no command starts the relay, the probe, or declares
/// startup complete. The failure itself is answered with `Abort` alone.
pub proof fn lemma_failed_startup_starts_nothing<H>(
    max_wait_seconds: Option<u32>,
    spec: LaunchSpecView,
    failure: EventView<H>,
    later: Seq<EventView<H>>,
)
    requires
        failure is SpawnFailed || failure is DataDirFailed,
    ensures
        ({
            let begun = supervisor_next(
                supervisor_initial::<H>(max_wait_seconds),
                EventView::Start(spec),
            );
            let failed = supervisor_next(begun.0, failure);
            let rest = supervisor_run(failed.0, later);
            &&& begun.0.slot is None
            &&& failed.0.slot is None
            &&& failed.0.phase == Phase::Terminated
            &&& failed.0.failure is Some
            &&& failed.1.len() == 1
            &&& failed.1[0] is Abort
            &&& rest.0.slot is None
            &&& rest.0.phase == Phase::Terminated
            &&& forall|i: int|
                0 <= i < rest.1.len() ==> !(#[trigger] rest.1[i] is StartRelay) && !(rest.1[i]
                    is Probe) && !(rest.1[i] is Ready) && !(rest.1[i] is Spawn)
        }),
{
    let begun = supervisor_next(supervisor_initial::<H>(max_wait_seconds), EventView::Start(spec));
    let failed = supervisor_next(begun.0, failure);
    lemma_terminated_is_final(failed.0, later);
    let rest = supervisor_run(failed.0, later);
    assert forall|i: int| 0 <= i < rest.1.len() implies !(#[trigger] rest.1[i] is StartRelay) && !(
    rest.1[i] is Probe) && !(rest.1[i] is Ready) && !(rest.1[i] is Spawn) by {
        assert(!brings_up_child(rest.1[i]));
    }
}

/// A handle enters the slot only through a `Spawned` event during startup,
/// and leaves it only through the exit notification, which hands out that
/// very handle for termination.
pub proof fn lemma_slot_changes_only_at_spawn_and_exit<H>(
    s: SupervisorView<H>,
    event: EventView<H>,
)
    requires
        s.wf(),
    ensures
        supervisor_next(s, event).0.slot != s.slot ==> match event {
            EventView::Spawned(handle) => s.phase == Phase::Spawning && s.slot is None
                && supervisor_next(s, event).0.slot == Some(handle),
            EventView::ExitRequested => s.slot is Some && supervisor_next(s, event).0.slot is None
                && supervisor_next(s, event).1.last() == CommandView::Terminate(s.slot->Some_0),
            _ => false,
        },
{
}

} // verus!
