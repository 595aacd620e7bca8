//! The listener's worker state machine.
//!
//! The listener owns a subscriber socket and one worker thread; the thread
//! loops {blocking receive, decode, publish to channel} until asked to
//! stop, and a one-shot two-party rendezvous barrier makes `start`
//! synchronous with the first observed message, masking the pub/sub
//! "slow joiner" window. The blocking receive, the thread, the barrier and
//! the channel live outside this crate; every decision the loop takes —
//! which phase comes next, what to publish, when to release the barrier,
//! when to exit — is [`worker_step`], verified here.

use vstd::prelude::*;

use crate::decode::{decode_event, decode_event_post, MempoolSequence};
use crate::errors::ZMQSeqListenerError;

verus! {

/// The lifecycle phase of one listener instance.
///
/// `AwaitFirstMessage` is entered at thread spawn; the move to
/// `SteadyReceive` happens exactly once, on the first successfully
/// received message, when the rendezvous barrier is released. `Stopping`
/// begins once the stop flag is observed at loop top; `Stopped` is
/// terminal.
#[derive(Clone, Copy, Debug, PartialEq, Eq)]
pub enum ListenerPhase {
    AwaitFirstMessage,
    SteadyReceive,
    Stopping,
    Stopped,
}

/// What the worker observed at the top of one loop iteration: the stop
/// flag, one successfully received multi-frame message, or a socket
/// failure reported as text.
#[derive(Debug)]
pub enum WorkerEvent {
    StopObserved,
    Frames(Vec<Vec<u8>>),
    ReceiveFailure(String),
}

/// What the loop must do next: publish an event to the channel and
/// release the rendezvous barrier, publish only, or exit the loop.
#[derive(Debug)]
pub enum WorkerAction {
    PublishAndRelease(MempoolSequence),
    Publish(MempoolSequence),
    Exit,
}

/// The phase after handling one event in the given phase.
pub open spec fn next_phase(phase: ListenerPhase, event: WorkerEvent) -> ListenerPhase {
    match phase {
        ListenerPhase::AwaitFirstMessage => match event {
            WorkerEvent::StopObserved => ListenerPhase::Stopping,
            WorkerEvent::Frames(_) => ListenerPhase::SteadyReceive,
            WorkerEvent::ReceiveFailure(_) => ListenerPhase::AwaitFirstMessage,
        },
        ListenerPhase::SteadyReceive => match event {
            WorkerEvent::StopObserved => ListenerPhase::Stopping,
            _ => ListenerPhase::SteadyReceive,
        },
        ListenerPhase::Stopping => ListenerPhase::Stopping,
        ListenerPhase::Stopped => ListenerPhase::Stopped,
    }
}

/// Whether handling this event releases the one-shot rendezvous barrier:
/// only the first successfully received message does. A receive failure
/// before the first message leaves the barrier held, so `start` keeps
/// waiting for live traffic.
pub open spec fn releases_barrier(phase: ListenerPhase, event: WorkerEvent) -> bool {
    phase is AwaitFirstMessage && event is Frames
}

/// The event an action publishes to the stream, if any.
pub open spec fn published_event(a: WorkerAction) -> Option<MempoolSequence> {
    match a {
        WorkerAction::PublishAndRelease(ev) => Some(ev),
        WorkerAction::Publish(ev) => Some(ev),
        WorkerAction::Exit => None,
    }
}

/// One decision step of the worker loop: given the current phase and what
/// the loop observed, choose the next phase and the action to perform.
///
/// Every received message — well-formed or not — is published as exactly
/// one event, in the order observed; a receive failure is published as a
/// `SeqError` carrying a `TransportError`, and the loop goes on. Only the
/// stop flag (or a phase past stopping) makes the loop exit.
pub fn worker_step(phase: ListenerPhase, event: WorkerEvent) -> (r: (
    ListenerPhase,
    WorkerAction,
))
    ensures
        r.0 == next_phase(phase, event),
        (r.1 is PublishAndRelease) == releases_barrier(phase, event),
        (r.1 is Exit) == (phase is Stopping || phase is Stopped || event is StopObserved),
        event matches WorkerEvent::Frames(msg) ==> (phase is AwaitFirstMessage || phase
            is SteadyReceive) ==> (published_event(r.1) matches Some(ev) && decode_event_post(
            msg.deep_view(),
            ev,
        )),
        event matches WorkerEvent::ReceiveFailure(e) ==> (phase is AwaitFirstMessage || phase
            is SteadyReceive) ==> published_event(r.1) == Some(
            MempoolSequence::SeqError { error: ZMQSeqListenerError::TransportError(e) },
        ),
{
    match phase {
        ListenerPhase::Stopping => (ListenerPhase::Stopping, WorkerAction::Exit),
        ListenerPhase::Stopped => (ListenerPhase::Stopped, WorkerAction::Exit),
        _ => match event {
            WorkerEvent::StopObserved => (ListenerPhase::Stopping, WorkerAction::Exit),
            WorkerEvent::Frames(msg) => {
                let ev = decode_event(msg);
                match phase {
                    ListenerPhase::AwaitFirstMessage => (
                        ListenerPhase::SteadyReceive,
                        WorkerAction::PublishAndRelease(ev),
                    ),
                    _ => (ListenerPhase::SteadyReceive, WorkerAction::Publish(ev)),
                }
            },
            WorkerEvent::ReceiveFailure(e) => {
                let ev = MempoolSequence::SeqError {
                    error: ZMQSeqListenerError::TransportError(e),
                };
                (phase, WorkerAction::Publish(ev))
            },
        },
    }
}

/// The phase after the worker handles a whole sequence of events in order.
pub open spec fn run_phases(phase: ListenerPhase, events: Seq<WorkerEvent>) -> ListenerPhase
    decreases events.len(),
{
    if events.len() == 0 {
        phase
    } else {
        run_phases(next_phase(phase, events[0]), events.drop_first())
    }
}

/// How many of the events, handled in order from the given phase, release
/// the rendezvous barrier.
pub open spec fn count_releases(phase: ListenerPhase, events: Seq<WorkerEvent>) -> nat
    decreases events.len(),
{
    if events.len() == 0 {
        0
    } else {
        (if releases_barrier(phase, events[0]) {
            1nat
        } else {
            0nat
        }) + count_releases(next_phase(phase, events[0]), events.drop_first())
    }
}

/// Away from the initial phase the barrier is never touched again: the
/// machine never returns to `AwaitFirstMessage`.
proof fn lemma_no_release_after_first(phase: ListenerPhase, events: Seq<WorkerEvent>)
    requires
        !(phase is AwaitFirstMessage),
    ensures
        count_releases(phase, events) == 0,
    decreases events.len(),
{
    if events.len() > 0 {
        lemma_no_release_after_first(next_phase(phase, events[0]), events.drop_first());
    }
}

/// The rendezvous barrier is released at most once over any run of the
/// worker from thread spawn: only the first successfully received
/// message, observed in the initial phase, releases it — so `start`,
/// which waits on the barrier exactly once, cannot be signalled twice.
pub proof fn lemma_barrier_released_at_most_once(events: Seq<WorkerEvent>)
    ensures
        count_releases(ListenerPhase::AwaitFirstMessage, events) <= 1,
    decreases events.len(),
{
    if events.len() > 0 {
        let next = next_phase(ListenerPhase::AwaitFirstMessage, events[0]);
        if next is AwaitFirstMessage {
            lemma_barrier_released_at_most_once(events.drop_first());
        } else {
            lemma_no_release_after_first(next, events.drop_first());
        }
    }
}

/// Once the stop flag has been observed the machine stays stopped: no
/// later event leaves the stopping phases, so a joined worker never
/// resumes.
pub proof fn lemma_stop_is_terminal(phase: ListenerPhase, events: Seq<WorkerEvent>)
    requires
        phase is Stopping || phase is Stopped,
    ensures
        run_phases(phase, events) == phase,
    decreases events.len(),
{
    if events.len() > 0 {
        lemma_stop_is_terminal(next_phase(phase, events[0]), events.drop_first());
    }
}

} // verus!
