//! The blocking-fetch bridge, modelled as an explicit state machine.
//!
//! The external platform only delivers its completion callback when the
//! owning thread is pumped, so one dedicated worker polls for the result
//! and signals "pump needed" to the caller's cooperative loop, under a hard
//! wall-clock timeout. The decisions of both sides live here as pure
//! functions — what the worker does at each poll, and how the session
//! state advances on each event — while the threads, channels and sleeps
//! that carry them out stay outside the library.

use vstd::prelude::*;

use crate::record::Classification;
use crate::record::ItemRecord;
use crate::record::ItemRecordModel;

verus! {

/// Hard wall-clock timeout of one fetch, measured from the worker's first
/// poll: 30 seconds, in milliseconds.
pub const FETCH_TIMEOUT_MS: u64 = 30 * 1000;

/// How long the worker sleeps between two polls, in milliseconds.
pub const POLL_INTERVAL_MS: u64 = 10;

/// Capacity of the bounded pump-signal queue. Only the latest signal
/// matters, so a signal that finds the queue full is simply dropped.
pub const PUMP_QUEUE_CAPACITY: usize = 32;

/// What the external platform hands the completion handler: one optional
/// record per requested id, or an error message.
pub type FetchResponse = Result<Vec<Option<ItemRecord>>, String>;

/// The filter a fetched batch passes through before anything else sees it.
pub open spec fn community_filter() -> spec_fn(Option<ItemRecordModel>) -> Option<
    ItemRecordModel,
> {
    |o: Option<ItemRecordModel>|
        match o {
            Some(rec) => if rec.classification == Classification::Community {
                Some(rec)
            } else {
                None
            },
            None => None,
        }
}

/// The records of a fetched batch that are present and carry the primary
/// community classification, in batch order. Everything else is discarded
/// as if the platform had never returned it.
pub open spec fn spec_keep_community(fetched: Seq<Option<ItemRecordModel>>) -> Seq<
    ItemRecordModel,
> {
    fetched.filter_map(community_filter())
}

/// Keeps exactly the returned records with the primary community
/// classification, in order; absent entries and other classifications are
/// dropped and later count as confirmed missing.
pub fn filter_fetched(fetched: Vec<Option<ItemRecord>>) -> (r: Vec<ItemRecord>)
    ensures
        r.deep_view() == spec_keep_community(fetched.deep_view()),
{
    let mut kept: Vec<ItemRecord> = Vec::new();
    let mut i: usize = 0;
    proof {
        assert(fetched.deep_view().take(0) =~= Seq::<Option<ItemRecordModel>>::empty());
    }
    while i < fetched.len()
        invariant
            i <= fetched.len(),
            fetched.deep_view().len() == fetched.len(),
            kept.deep_view() == spec_keep_community(fetched.deep_view().take(i as int)),
        decreases fetched.len() - i,
    {
        proof {
            fetched.deep_view().lemma_filter_map_take_succ(community_filter(), i as int);
        }
        match &fetched[i] {
            Some(rec) => {
                if rec.classification == Classification::Community {
                    let ghost prev = kept.deep_view();
                    kept.push(rec.clone());
                    proof {
                        assert(kept.deep_view() =~= prev.push(fetched.deep_view()[i as int]->0));
                    }
                }
            },
            None => {},
        }
        i = i + 1;
    }
    proof {
        assert(fetched.deep_view().take(fetched.len() as int) =~= fetched.deep_view());
    }
    kept
}

/// What the worker decides at one iteration of its poll loop.
#[derive(Debug)]
pub enum WorkerStep {
    /// The completion handler has fired: forward its response.
    Deliver(FetchResponse),
    /// Nothing arrived and the hard deadline has passed: give up.
    Expire,
    /// Nothing arrived yet: signal a pump and sleep one interval.
    KeepPolling,
}

/// The worker's poll decision: a response that has arrived is always
/// delivered; otherwise the worker keeps polling until the hard deadline
/// has passed, and expires at the first poll after it.
pub open spec fn spec_worker_step(received: Option<FetchResponse>, elapsed_ms: u64) -> WorkerStep {
    match received {
        Some(response) => WorkerStep::Deliver(response),
        None => if elapsed_ms > FETCH_TIMEOUT_MS {
            WorkerStep::Expire
        } else {
            WorkerStep::KeepPolling
        },
    }
}

/// One iteration of the worker's poll loop, as a pure decision:
/// `received` is what a non-blocking read of the result channel found and
/// `elapsed_ms` the wall-clock time since the first poll.
pub fn worker_poll_step(received: Option<FetchResponse>, elapsed_ms: u64) -> (r: WorkerStep)
    ensures
        r == spec_worker_step(received, elapsed_ms),
{
    match received {
        Some(response) => WorkerStep::Deliver(response),
        None => {
            if elapsed_ms > FETCH_TIMEOUT_MS {
                WorkerStep::Expire
            } else {
                WorkerStep::KeepPolling
            }
        },
    }
}

/// A worker that has received nothing expires exactly when the hard
/// deadline has passed: never at or before [`FETCH_TIMEOUT_MS`] elapsed
/// milliseconds, at every poll after it, and it never fabricates a
/// delivery.
pub proof fn lemma_worker_timeout(elapsed_ms: u64)
    ensures
        spec_worker_step(None, elapsed_ms) == WorkerStep::Expire <==> elapsed_ms
            > FETCH_TIMEOUT_MS,
        spec_worker_step(None, elapsed_ms) == WorkerStep::KeepPolling <==> elapsed_ms
            <= FETCH_TIMEOUT_MS,
        !(spec_worker_step(None, elapsed_ms) is Deliver),
{
}

/// The state of one bridged fetch session. A session starts `Idle`, moves
/// to `Fetching` when the fetch is requested, and reaches exactly one of
/// the four terminal states.
#[derive(Debug)]
pub enum BridgeState {
    /// No fetch has been requested yet.
    Idle,
    /// The worker is fetching; pump signals are being honoured.
    Fetching,
    /// The platform answered: the filtered records, in batch order.
    Completed(Vec<ItemRecord>),
    /// The platform reported an error; its message, kept verbatim.
    Failed(String),
    /// The hard timeout passed before any answer arrived.
    TimedOut,
    /// The worker itself failed — it panicked or was cancelled; the
    /// message describes the fault.
    InternalTaskError(String),
}

/// An event the cooperative loop observes.
#[derive(Debug)]
pub enum BridgeEvent {
    /// The caller asks for the fetch to begin.
    FetchRequested,
    /// The worker signalled that the platform needs a pump.
    PumpSignal,
    /// The worker delivered the platform's response.
    WorkerDelivered(FetchResponse),
    /// The worker gave up after the hard timeout.
    WorkerExpired,
    /// The worker task faulted; the message describes the fault.
    WorkerFault(String),
}

/// What the cooperative loop must do after a step.
#[derive(Clone, Copy, PartialEq, Eq, Structural, Debug)]
pub enum BridgeAction {
    /// Spawn the dedicated worker for this fetch.
    SpawnWorker,
    /// Perform exactly one pump call on the owned client handle.
    Pump,
    /// Nothing: the event was absorbed.
    Ignore,
}

/// Whether a session state is terminal. Terminal states absorb every
/// further event, so a late completion is discarded, never acted on.
pub open spec fn bridge_terminal(state: BridgeState) -> bool {
    match state {
        BridgeState::Idle => false,
        BridgeState::Fetching => false,
        _ => true,
    }
}

/// The transition relation of the bridge: how the session state advances
/// on an event, and which action the cooperative loop owes for it.
pub open spec fn bridge_transition(
    pre: BridgeState,
    event: BridgeEvent,
    post: BridgeState,
    action: BridgeAction,
) -> bool {
    match pre {
        BridgeState::Idle => match event {
            BridgeEvent::FetchRequested => post == BridgeState::Fetching && action
                == BridgeAction::SpawnWorker,
            _ => post == pre && action == BridgeAction::Ignore,
        },
        BridgeState::Fetching => match event {
            BridgeEvent::PumpSignal => post == BridgeState::Fetching && action
                == BridgeAction::Pump,
            BridgeEvent::FetchRequested => post == pre && action == BridgeAction::Ignore,
            BridgeEvent::WorkerDelivered(response) => action == BridgeAction::Ignore && match response {
                Ok(list) => post matches BridgeState::Completed(kept) && kept.deep_view()
                    == spec_keep_community(list.deep_view()),
                Err(message) => post == BridgeState::Failed(message),
            },
            BridgeEvent::WorkerExpired => post == BridgeState::TimedOut && action
                == BridgeAction::Ignore,
            BridgeEvent::WorkerFault(message) => post == BridgeState::InternalTaskError(message)
                && action == BridgeAction::Ignore,
        },
        _ => post == pre && action == BridgeAction::Ignore,
    }
}

/// Advances a session by one event and says what the cooperative loop must
/// do for it. The platform's response passes through the classification
/// filter on its way into the `Completed` state.
pub fn bridge_step(state: BridgeState, event: BridgeEvent) -> (r: (BridgeState, BridgeAction))
    ensures
        bridge_transition(state, event, r.0, r.1),
{
    match state {
        BridgeState::Idle => match event {
            BridgeEvent::FetchRequested => (BridgeState::Fetching, BridgeAction::SpawnWorker),
            _ => (BridgeState::Idle, BridgeAction::Ignore),
        },
        BridgeState::Fetching => match event {
            BridgeEvent::PumpSignal => (BridgeState::Fetching, BridgeAction::Pump),
            BridgeEvent::FetchRequested => (BridgeState::Fetching, BridgeAction::Ignore),
            BridgeEvent::WorkerDelivered(response) => match response {
                Ok(list) => (BridgeState::Completed(filter_fetched(list)), BridgeAction::Ignore),
                Err(message) => (BridgeState::Failed(message), BridgeAction::Ignore),
            },
            BridgeEvent::WorkerExpired => (BridgeState::TimedOut, BridgeAction::Ignore),
            BridgeEvent::WorkerFault(message) => (
                BridgeState::InternalTaskError(message),
                BridgeAction::Ignore,
            ),
        },
        terminal => (terminal, BridgeAction::Ignore),
    }
}

/// A pump is owed exactly for a pump signal that arrives while the fetch
/// is in flight — never twice for one signal, and never from any other
/// state or event. This is what serializes pump calls on the client
/// handle.
pub proof fn lemma_one_pump_per_signal(
    pre: BridgeState,
    event: BridgeEvent,
    post: BridgeState,
    action: BridgeAction,
)
    requires
        bridge_transition(pre, event, post, action),
    ensures
        action == BridgeAction::Pump <==> (pre == BridgeState::Fetching && event
            == BridgeEvent::PumpSignal),
{
}

/// A terminal state is entered only from `Fetching`, and each worker
/// outcome reaches its own terminal state: delivery completes or fails the
/// session, expiry times it out, and a worker fault is kept distinct from
/// both.
pub proof fn lemma_terminal_entered_from_fetching(
    pre: BridgeState,
    event: BridgeEvent,
    post: BridgeState,
    action: BridgeAction,
)
    requires
        bridge_transition(pre, event, post, action),
        !bridge_terminal(pre),
        bridge_terminal(post),
    ensures
        pre == BridgeState::Fetching,
        post is Completed <==> (event matches BridgeEvent::WorkerDelivered(r) && r is Ok),
        post is Failed <==> (event matches BridgeEvent::WorkerDelivered(r) && r is Err),
        post is TimedOut <==> event == BridgeEvent::WorkerExpired,
        post is InternalTaskError <==> event is WorkerFault,
{
}

/// A chain of states is a run of the bridge when each step follows the
/// transition relation for its event and action.
pub open spec fn bridge_run(
    states: Seq<BridgeState>,
    events: Seq<BridgeEvent>,
    actions: Seq<BridgeAction>,
) -> bool {
    &&& states.len() == events.len() + 1
    &&& actions.len() == events.len()
    &&& forall|i: int|
        0 <= i < events.len() ==> #[trigger] bridge_transition(
            states[i],
            events[i],
            states[i + 1],
            actions[i],
        )
}

/// In any run of the bridge a terminal state is final: every later state
/// is that same state, so each session reaches at most one terminal state,
/// and reaches it at most once. Late events are absorbed without action.
pub proof fn lemma_terminal_state_is_final(
    states: Seq<BridgeState>,
    events: Seq<BridgeEvent>,
    actions: Seq<BridgeAction>,
    i: int,
    j: int,
)
    requires
        bridge_run(states, events, actions),
        0 <= i <= j < states.len(),
        bridge_terminal(states[i]),
    ensures
        states[j] == states[i],
        i < j ==> actions[j - 1] == BridgeAction::Ignore,
    decreases j - i,
{
    if i < j {
        lemma_terminal_state_is_final(states, events, actions, i, j - 1);
        let k: int = j - 1;
        assert(bridge_transition(states[k], events[k], states[k + 1], actions[k]));
    }
}

} // verus!
