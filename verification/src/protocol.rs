//! A mathematical model of the whole bridge: submissions on the host thread,
//! completions on worker tasks, and drains back on the host thread. The
//! model ties the pending counter and the trigger registration to the number
//! of requests actually outstanding, whatever order the threads interleave
//! their steps in.
//!
//! The host-visible pair (pending, hook) moves exactly as `PendingCounter`'s
//! operations move it: a counted submission is `Submit(true)`, a drained
//! outcome is `Drain`.

use vstd::prelude::*;
use vstd::seq_lib::group_to_multiset_ensures;
use vstd::multiset::Multiset;

verus! {

/// The state of the whole system, counted abstractly: how many accepted
/// requests are still running on the worker, how many finished outcomes are
/// queued for the host, and what the host-side counter and trigger show.
pub struct SystemModel {
    /// The host's pending counter.
    pub pending: nat,
    /// Counted requests handed to the worker whose task has not finished.
    pub in_flight: nat,
    /// Outcomes queued in the result channel, not yet drained.
    pub queued: nat,
    /// Whether the host's polling trigger is installed.
    pub hook: bool,
}

/// One step of the system.
pub enum SystemEvent {
    /// The host submits a request; `true` when it registered at least one
    /// callback and therefore owes an outcome.
    Submit(bool),
    /// A worker task finishes and queues the outcome it owes.
    Complete,
    /// The host drains one queued outcome.
    Drain,
}

/// The state before anything happened.
pub open spec fn init() -> SystemModel {
    SystemModel { pending: 0, in_flight: 0, queued: 0, hook: false }
}

/// When an event can occur: a completion needs a running task, a drain
/// needs a queued outcome; submissions are always possible.
pub open spec fn enabled(s: SystemModel, e: SystemEvent) -> bool {
    match e {
        SystemEvent::Submit(_) => true,
        SystemEvent::Complete => s.in_flight > 0,
        SystemEvent::Drain => s.queued > 0,
    }
}

/// The state after an event. A submission that registered no callback
/// occupies nothing: it is counted and released within the same submit call,
/// so on balance the state is unchanged. A drain removes the trigger exactly
/// when it accounts for the last outstanding request.
pub open spec fn step(s: SystemModel, e: SystemEvent) -> SystemModel {
    match e {
        SystemEvent::Submit(counted) => if counted {
            SystemModel {
                pending: s.pending + 1,
                in_flight: s.in_flight + 1,
                queued: s.queued,
                hook: true,
            }
        } else {
            s
        },
        SystemEvent::Complete => SystemModel {
            pending: s.pending,
            in_flight: if s.in_flight > 0 {
                (s.in_flight - 1) as nat
            } else {
                0
            },
            queued: s.queued + 1,
            hook: s.hook,
        },
        SystemEvent::Drain => {
            let pending = if s.pending > 0 {
                (s.pending - 1) as nat
            } else {
                0
            };
            SystemModel {
                pending,
                in_flight: s.in_flight,
                queued: if s.queued > 0 {
                    (s.queued - 1) as nat
                } else {
                    0
                },
                hook: pending > 0,
            }
        },
    }
}

/// The system invariant: the pending counter equals the number of requests
/// actually outstanding — running or queued — and the polling trigger is
/// installed exactly while that number is positive. In particular the
/// counter never drifts and never goes below zero.
pub open spec fn inv(s: SystemModel) -> bool {
    &&& s.pending == s.in_flight + s.queued
    &&& s.hook == (s.pending > 0)
}

/// The initial state satisfies the invariant.
pub proof fn lemma_init_inv()
    ensures
        inv(init()),
{
}

/// Every enabled event preserves the invariant.
pub proof fn lemma_step_inv(s: SystemModel, e: SystemEvent)
    requires
        inv(s),
        enabled(s, e),
    ensures
        inv(step(s, e)),
{
}

/// A drain never finds the trigger missing, and removes it exactly when it
/// accounts for the last outstanding request: deregistration happens once,
/// at the moment the counter returns to zero, and never before or twice.
pub proof fn lemma_drain_deregisters_once(s: SystemModel)
    requires
        inv(s),
        enabled(s, SystemEvent::Drain),
    ensures
        s.hook,
        !step(s, SystemEvent::Drain).hook <==> s.pending == 1,
{
}

/// With no task running and nothing queued, the counter shows exactly zero
/// and the trigger is not installed.
pub proof fn lemma_quiescent(s: SystemModel)
    requires
        inv(s),
        s.in_flight == 0,
        s.queued == 0,
    ensures
        s.pending == 0,
        !s.hook,
{
}

/// One polling tick of the drain loop: everything currently queued is
/// drained, and nothing more — the loop never waits for outcomes that have
/// not arrived.
pub open spec fn drain_tick(s: SystemModel) -> SystemModel
    decreases s.queued,
{
    if s.queued == 0 {
        s
    } else {
        drain_tick(step(s, SystemEvent::Drain))
    }
}

/// A tick that finds no outcome available does nothing at all.
pub proof fn lemma_empty_tick(s: SystemModel)
    requires
        s.queued == 0,
    ensures
        drain_tick(s) == s,
{
}

/// Once the worker has finished every task, one full tick returns the
/// counter to exactly zero and leaves the trigger deregistered.
pub proof fn lemma_tick_settles(s: SystemModel)
    requires
        inv(s),
        s.in_flight == 0,
    ensures
        inv(drain_tick(s)),
        drain_tick(s).pending == 0,
        drain_tick(s).queued == 0,
        !drain_tick(s).hook,
    decreases s.queued,
{
    if s.queued == 0 {
        lemma_quiescent(s);
    } else {
        lemma_step_inv(s, SystemEvent::Drain);
        lemma_tick_settles(step(s, SystemEvent::Drain));
    }
}

/// The state an event sequence leads to, one step after the other.
pub open spec fn run(s0: SystemModel, events: Seq<SystemEvent>) -> SystemModel
    decreases events.len(),
{
    if events.len() == 0 {
        s0
    } else {
        step(run(s0, events.drop_last()), events.last())
    }
}

/// Whether every event of the sequence is enabled when its turn comes.
pub open spec fn run_enabled(s0: SystemModel, events: Seq<SystemEvent>) -> bool
    decreases events.len(),
{
    if events.len() == 0 {
        true
    } else {
        run_enabled(s0, events.drop_last()) && enabled(
            run(s0, events.drop_last()),
            events.last(),
        )
    }
}

/// The invariant holds after any run of enabled events.
pub proof fn lemma_run_inv(s0: SystemModel, events: Seq<SystemEvent>)
    requires
        inv(s0),
        run_enabled(s0, events),
    ensures
        inv(run(s0, events)),
    decreases events.len(),
{
    if events.len() == 0 {
    } else {
        lemma_run_inv(s0, events.drop_last());
        lemma_step_inv(run(s0, events.drop_last()), events.last());
    }
}

/// How often an event occurs in a sequence.
pub open spec fn occurrences(events: Seq<SystemEvent>, e: SystemEvent) -> nat {
    events.to_multiset().count(e)
}

/// Where a run ends depends only on how often each event occurred, never on
/// the order the threads interleaved them in.
pub proof fn lemma_run_counts(s0: SystemModel, events: Seq<SystemEvent>)
    requires
        inv(s0),
        run_enabled(s0, events),
    ensures
        run(s0, events).pending == s0.pending + occurrences(events, SystemEvent::Submit(true))
            - occurrences(events, SystemEvent::Drain),
        run(s0, events).in_flight == s0.in_flight + occurrences(
            events,
            SystemEvent::Submit(true),
        ) - occurrences(events, SystemEvent::Complete),
        run(s0, events).queued == s0.queued + occurrences(events, SystemEvent::Complete)
            - occurrences(events, SystemEvent::Drain),
    decreases events.len(),
{
    broadcast use group_to_multiset_ensures;

    if events.len() == 0 {
        assert(events.to_multiset() =~= Multiset::empty());
    } else {
        let head = events.drop_last();
        let last = events.last();
        lemma_run_inv(s0, head);
        lemma_run_counts(s0, head);
        assert(events =~= head.push(last));
        assert(events.to_multiset() =~= head.to_multiset().insert(last));
    }
}

/// A balanced run — every counted submission completed and every outcome
/// drained, in whatever enabled interleaving — returns the system exactly
/// to its initial state: the counter shows zero again and the trigger is
/// deregistered.
pub proof fn lemma_balanced_run(events: Seq<SystemEvent>)
    requires
        run_enabled(init(), events),
        occurrences(events, SystemEvent::Submit(true)) == occurrences(events, SystemEvent::Drain),
        occurrences(events, SystemEvent::Submit(true)) == occurrences(
            events,
            SystemEvent::Complete,
        ),
    ensures
        run(init(), events) == init(),
{
    lemma_run_counts(init(), events);
    lemma_run_inv(init(), events);
}

/// Order independence: two enabled interleavings of the same multiset of
/// events — however submissions, completions and drains were reordered —
/// lead to the same state.
pub proof fn lemma_order_independent(
    s0: SystemModel,
    events1: Seq<SystemEvent>,
    events2: Seq<SystemEvent>,
)
    requires
        inv(s0),
        run_enabled(s0, events1),
        run_enabled(s0, events2),
        events1.to_multiset() == events2.to_multiset(),
    ensures
        run(s0, events1) == run(s0, events2),
{
    lemma_run_counts(s0, events1);
    lemma_run_counts(s0, events2);
    lemma_run_inv(s0, events1);
    lemma_run_inv(s0, events2);
    let a = run(s0, events1);
    let b = run(s0, events2);
    assert(a.pending == b.pending && a.in_flight == b.in_flight && a.queued == b.queued);
    assert(a.hook == b.hook);
}

} // verus!
