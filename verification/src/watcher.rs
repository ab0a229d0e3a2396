//! The watcher: a single-owner state machine driven by control messages and
//! timer ticks.
//!
//! The watcher owns the current monitoring target exclusively. The boundary
//! runs the loop — it waits on whichever of "next inbox message" and "timer
//! tick" is ready first, performs the returned action, and feeds the next
//! event back in — while every decision is taken here, one step at a time.

use vstd::prelude::*;

use crate::data::{SentryResponse, SentryState};
use crate::models::{status_of, MachineStatus, StatusStore, STATUS_ROW_ID};
use crate::sentry::SentryError;

verus! {

/// A message sent by the boundary into the watcher's inbox.
pub enum ControlMessage {
    /// Graceful shutdown: the only way to end the loop without an error.
    Cancel,
    /// Replace the monitoring target wholesale, effective on the next tick.
    Reconfigure(SentryState),
}

/// One occurrence the loop wakes up on.
pub enum WatcherEvent {
    /// A control message arrived.
    Message(ControlMessage),
    /// The inbox closed without a graceful cancel.
    InboxClosed,
    /// The sampling interval elapsed.
    Tick,
}

/// The watcher's state: it is running against one target, or it has
/// terminated. There are no other states.
pub enum WatcherState {
    /// The loop is live and samples this target on each tick.
    Running(SentryState),
    /// The loop has exited, gracefully or fatally.
    Terminated,
}

/// What the boundary must do after a step.
pub enum WatcherAction {
    /// Nothing: wait for the next event.
    Continue,
    /// Probe this target and feed the outcome to [`apply_sample`].
    Sample(SentryState),
    /// Exit the loop gracefully.
    Stop,
    /// Exit the loop reporting this error upward.
    Fail(SentryError),
}

/// The watcher's transition function. A reconfiguration replaces the target
/// and takes effect on the next tick — it never interrupts a sample; a
/// cancel is the only graceful exit; a closed inbox is a distinct, fatal
/// exit; a tick samples the current target.
pub open spec fn spec_watcher_step(state: WatcherState, event: WatcherEvent) -> (
    WatcherState,
    WatcherAction,
) {
    match state {
        WatcherState::Terminated => (WatcherState::Terminated, WatcherAction::Stop),
        WatcherState::Running(target) => match event {
            WatcherEvent::Message(ControlMessage::Cancel) => (
                WatcherState::Terminated,
                WatcherAction::Stop,
            ),
            WatcherEvent::Message(ControlMessage::Reconfigure(t)) => (
                WatcherState::Running(t),
                WatcherAction::Continue,
            ),
            WatcherEvent::InboxClosed => (
                WatcherState::Terminated,
                WatcherAction::Fail(SentryError::ChannelClosed),
            ),
            WatcherEvent::Tick => (WatcherState::Running(target), WatcherAction::Sample(target)),
        },
    }
}

/// Performs one step of the watcher loop.
pub fn watcher_step(state: WatcherState, event: WatcherEvent) -> (r: (WatcherState, WatcherAction))
    ensures
        r == spec_watcher_step(state, event),
{
    match state {
        WatcherState::Terminated => (WatcherState::Terminated, WatcherAction::Stop),
        WatcherState::Running(target) => match event {
            WatcherEvent::Message(ControlMessage::Cancel) => (
                WatcherState::Terminated,
                WatcherAction::Stop,
            ),
            WatcherEvent::Message(ControlMessage::Reconfigure(t)) => (
                WatcherState::Running(t),
                WatcherAction::Continue,
            ),
            WatcherEvent::InboxClosed => (
                WatcherState::Terminated,
                WatcherAction::Fail(SentryError::ChannelClosed),
            ),
            WatcherEvent::Tick => {
                let sampled = target.clone();
                (WatcherState::Running(target), WatcherAction::Sample(sampled))
            },
        },
    }
}

/// What one sample outcome leaves in the status store: a success replaces
/// the singleton row, a failure leaves the prior row untouched.
pub open spec fn spec_apply_sample(
    row: Option<MachineStatus>,
    outcome: Result<SentryResponse, SentryError>,
) -> Option<MachineStatus> {
    match outcome {
        Ok(resp) => Some(status_of(resp)),
        Err(_) => row,
    }
}

/// Applies one sample outcome to the store. A successful sample upserts the
/// singleton row; a failed sample leaves the store untouched and hands the
/// error back — it is fatal to the loop, not retried.
pub fn apply_sample(store: &mut StatusStore, outcome: Result<SentryResponse, SentryError>) -> (r:
    Option<SentryError>)
    ensures
        final(store)@ == spec_apply_sample(old(store)@, outcome),
        old(store).wf() ==> final(store).wf(),
        match outcome {
            Ok(resp) => r is None,
            Err(e) => r matches Some(e2) && e2 == e,
        },
{
    match outcome {
        Ok(resp) => {
            store.upsert(MachineStatus::from_response(&resp));
            None
        },
        Err(e) => Some(e),
    }
}

/// Concludes one sample: applies the outcome to the store and decides the
/// loop's fate. A successful sample leaves the watcher running as it was; a
/// failed sample is fatal — the watcher terminates and the error is handed
/// upward, never retried or skipped.
pub fn record_sample(
    state: WatcherState,
    store: &mut StatusStore,
    outcome: Result<SentryResponse, SentryError>,
) -> (r: (WatcherState, Option<SentryError>))
    ensures
        final(store)@ == spec_apply_sample(old(store)@, outcome),
        old(store).wf() ==> final(store).wf(),
        outcome is Ok ==> r.0 == state && r.1 is None,
        outcome matches Err(e) ==> (r.1 matches Some(e2) && e2 == e && r.0 is Terminated),
{
    match apply_sample(store, outcome) {
        None => (state, None),
        Some(e) => (WatcherState::Terminated, Some(e)),
    }
}

/// The watcher run from `state` over `events`, oldest first: the final
/// state, and one action per event in order.
pub open spec fn spec_watcher_run(state: WatcherState, events: Seq<WatcherEvent>) -> (
    WatcherState,
    Seq<WatcherAction>,
)
    decreases events.len(),
{
    if events.len() == 0 {
        (state, Seq::empty())
    } else {
        let prior = spec_watcher_run(state, events.drop_last());
        let step = spec_watcher_step(prior.0, events.last());
        (step.0, prior.1.push(step.1))
    }
}

/// Without a tick there is no sample: over any run whose events hold no
/// timer tick, the watcher never asks for a target to be probed.
pub proof fn lemma_no_tick_no_sample(state: WatcherState, events: Seq<WatcherEvent>)
    requires
        forall|i: int| 0 <= i < events.len() ==> !(#[trigger] events[i] is Tick),
    ensures
        spec_watcher_run(state, events).1.len() == events.len(),
        forall|i: int|
            0 <= i < events.len() ==> !(#[trigger] spec_watcher_run(state, events).1[i] is Sample),
    decreases events.len(),
{
    if events.len() > 0 {
        lemma_no_tick_no_sample(state, events.drop_last());
        assert(events.drop_last().len() == events.len() - 1);
        assert(forall|i: int|
            0 <= i < events.len() - 1 ==> events.drop_last()[i] == events[i]);
        assert(!(events.last() is Tick));
    }
}

/// A reconfiguration followed immediately by a cancel, before any tick
/// fires, exits the loop without ever sampling the new target: the run's
/// actions are exactly "continue, stop", and the loop ends terminated. The
/// new target would only have been sampled by a tick that never came.
pub proof fn lemma_reconfigure_then_cancel(a: SentryState, b: SentryState)
    ensures
        ({
            let run = spec_watcher_run(
                WatcherState::Running(a),
                seq![
                    WatcherEvent::Message(ControlMessage::Reconfigure(b)),
                    WatcherEvent::Message(ControlMessage::Cancel),
                ],
            );
            run.0 is Terminated && run.1 =~= seq![WatcherAction::Continue, WatcherAction::Stop]
        }),
{
    reveal_with_fuel(spec_watcher_run, 3);
    let e1 = WatcherEvent::Message(ControlMessage::Reconfigure(b));
    let e2 = WatcherEvent::Message(ControlMessage::Cancel);
    let events = seq![e1, e2];
    let start = WatcherState::Running(a);
    assert(events.drop_last() =~= seq![e1]);
    assert(seq![e1].drop_last() =~= Seq::<WatcherEvent>::empty());
    assert(seq![e1].last() == e1);
    assert(events.last() == e2);
    assert(spec_watcher_run(start, seq![e1]).0 == WatcherState::Running(b));
    assert(spec_watcher_run(start, events).0 is Terminated);
    assert(spec_watcher_run(start, events).1 =~= seq![
        WatcherAction::Continue,
        WatcherAction::Stop,
    ]);
}

/// The last successful sample among `outcomes`, if any.
pub open spec fn last_success(outcomes: Seq<Result<SentryResponse, SentryError>>) -> Option<
    SentryResponse,
>
    decreases outcomes.len(),
{
    if outcomes.len() == 0 {
        None
    } else {
        match outcomes.last() {
            Ok(resp) => Some(resp),
            Err(_) => last_success(outcomes.drop_last()),
        }
    }
}

/// The store after a sequence of sample outcomes, oldest first.
pub open spec fn spec_store_after(
    init: Option<MachineStatus>,
    outcomes: Seq<Result<SentryResponse, SentryError>>,
) -> Option<MachineStatus>
    decreases outcomes.len(),
{
    if outcomes.len() == 0 {
        init
    } else {
        spec_apply_sample(spec_store_after(init, outcomes.drop_last()), outcomes.last())
    }
}

/// The store always reflects the last successful sample: after any sequence
/// of ticks the singleton row matches the most recent success exactly, a
/// failed tick retains the prior value, no row ever appears under another
/// key, and once the row exists it never disappears.
pub proof fn lemma_store_reflects_last_success(
    init: Option<MachineStatus>,
    outcomes: Seq<Result<SentryResponse, SentryError>>,
)
    requires
        init matches Some(r) ==> r.id == STATUS_ROW_ID,
    ensures
        ({
            match last_success(outcomes) {
                Some(resp) => spec_store_after(init, outcomes) == Some(status_of(resp)),
                None => spec_store_after(init, outcomes) == init,
            }
        }),
        spec_store_after(init, outcomes) matches Some(r) ==> r.id == STATUS_ROW_ID,
        init is Some ==> spec_store_after(init, outcomes) is Some,
    decreases outcomes.len(),
{
    if outcomes.len() > 0 {
        lemma_store_reflects_last_success(init, outcomes.drop_last());
    }
}

} // verus!
