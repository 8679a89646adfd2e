use vstd::prelude::*;

verus! {

/// The seconds that the loop sleeps between two ticks, after a failed tick
/// as after a good one.
pub const POLL_INTERVAL_SECS: u64 = 1;

/// Where the polling loop stands.
#[derive(Clone, Copy, Debug, PartialEq, Eq, Structural)]
pub enum LoopState {
    /// Not started yet.
    Idle,
    /// The bridge has been asked for its current values.
    Polling,
    /// The readings of this tick are being stored.
    Storing,
    /// The tick is over and the loop waits for the next one.
    Sleeping,
    /// The loop has ended and will do nothing more.
    Stopped,
}

/// What the owner of the loop reports back to it.
#[derive(Clone, Copy, Debug, PartialEq, Eq, Structural)]
pub enum LoopEvent {
    /// A cycle is about to begin, at the start or after a sleep, and the
    /// cancellation signal was found set or not.
    CycleBoundary { cancelled: bool },
    /// The bridge has answered and its report was turned into readings.
    Fetched,
    /// The bridge could not be reached or its answer could not be read.
    FetchFailed,
    /// The readings of this tick have gone to the sink.
    Stored,
    /// The sink has failed.
    StoreFailed,
}

/// What the owner of the loop is to do next.
#[derive(Clone, Copy, Debug, PartialEq, Eq, Structural)]
pub enum LoopAction {
    /// Ask the bridge for its current values.
    Fetch,
    /// Store the readings of this tick.
    Store,
    /// Wait for this many seconds, then look at the cancellation signal.
    Sleep { seconds: u64 },
    /// Leave the loop.
    Stop,
    /// The event does not belong to what the loop is waiting for: go on
    /// with what was asked last.
    Continue,
}

/// The transition of the polling loop.
///
/// A cycle begins at a boundary unless the cancellation signal is set, in
/// which case the loop stops. A tick fetches, stores what was fetched, and
/// sleeps; a failure of the fetch or of the store skips to the sleep. An
/// event that the state does not wait for changes nothing.
pub open spec fn next_step(state: LoopState, event: LoopEvent) -> (LoopState, LoopAction) {
    match (state, event) {
        (LoopState::Stopped, _) => (LoopState::Stopped, LoopAction::Stop),
        (LoopState::Idle, LoopEvent::CycleBoundary { cancelled })
        | (LoopState::Sleeping, LoopEvent::CycleBoundary { cancelled }) => if cancelled {
            (LoopState::Stopped, LoopAction::Stop)
        } else {
            (LoopState::Polling, LoopAction::Fetch)
        },
        (LoopState::Polling, LoopEvent::Fetched) => (LoopState::Storing, LoopAction::Store),
        (LoopState::Polling, LoopEvent::FetchFailed) => (
            LoopState::Sleeping,
            LoopAction::Sleep { seconds: POLL_INTERVAL_SECS },
        ),
        (LoopState::Storing, LoopEvent::Stored) | (LoopState::Storing, LoopEvent::StoreFailed) => (
            LoopState::Sleeping,
            LoopAction::Sleep { seconds: POLL_INTERVAL_SECS },
        ),
        _ => (state, LoopAction::Continue),
    }
}

/// The state that the loop is in after `events`, starting from `state`.
pub open spec fn state_after(state: LoopState, events: Seq<LoopEvent>) -> LoopState
    decreases events.len(),
{
    if events.len() == 0 {
        state
    } else {
        next_step(state_after(state, events.drop_last()), events.last()).0
    }
}

/// Whether an event reports a failure.
pub open spec fn is_failure(event: LoopEvent) -> bool {
    event is FetchFailed || event is StoreFailed
}

/// Takes one step of the polling loop.
pub fn step(state: LoopState, event: LoopEvent) -> (next: (LoopState, LoopAction))
    ensures
        next == next_step(state, event),
{
    match state {
        LoopState::Stopped => (LoopState::Stopped, LoopAction::Stop),
        LoopState::Idle | LoopState::Sleeping => match event {
            LoopEvent::CycleBoundary { cancelled } => if cancelled {
                (LoopState::Stopped, LoopAction::Stop)
            } else {
                (LoopState::Polling, LoopAction::Fetch)
            },
            _ => (state, LoopAction::Continue),
        },
        LoopState::Polling => match event {
            LoopEvent::Fetched => (LoopState::Storing, LoopAction::Store),
            LoopEvent::FetchFailed => (
                LoopState::Sleeping,
                LoopAction::Sleep { seconds: POLL_INTERVAL_SECS },
            ),
            _ => (state, LoopAction::Continue),
        },
        LoopState::Storing => match event {
            LoopEvent::Stored | LoopEvent::StoreFailed => (
                LoopState::Sleeping,
                LoopAction::Sleep { seconds: POLL_INTERVAL_SECS },
            ),
            _ => (state, LoopAction::Continue),
        },
    }
}

/// A failed tick never ends the loop: the loop stops only at a cycle
/// boundary at which the cancellation signal is set, and a failure of the
/// fetch or of the store leads to the sleep, from where the next cycle
/// begins.
pub proof fn law_failure_does_not_stop(state: LoopState, event: LoopEvent)
    requires
        state != LoopState::Stopped,
    ensures
        next_step(state, event).0 == LoopState::Stopped <==> (state == LoopState::Idle || state
            == LoopState::Sleeping) && event == (LoopEvent::CycleBoundary { cancelled: true }),
        is_failure(event) && next_step(state, event).1 != LoopAction::Continue ==> next_step(
            state,
            event,
        ) == (LoopState::Sleeping, LoopAction::Sleep { seconds: POLL_INTERVAL_SECS }),
        next_step(LoopState::Sleeping, LoopEvent::CycleBoundary { cancelled: false }) == (
            LoopState::Polling,
            LoopAction::Fetch,
        ),
{
}

/// A stopped loop stays stopped, whatever is reported to it.
pub proof fn law_stopped_is_final(events: Seq<LoopEvent>)
    ensures
        state_after(LoopState::Stopped, events) == LoopState::Stopped,
    decreases events.len(),
{
    if events.len() > 0 {
        law_stopped_is_final(events.drop_last());
    }
}

/// The sleep is the same after every tick: whenever the loop asks for a
/// sleep, it asks for the fixed interval.
pub proof fn law_sleep_is_fixed(state: LoopState, event: LoopEvent)
    ensures
        next_step(state, event).1 matches LoopAction::Sleep { seconds } ==> seconds
            == POLL_INTERVAL_SECS,
{
}

/// Ticks are sequential and complete: a fetch is asked for only at a cycle
/// boundary, a store only after a fetch that succeeded, and a sleep only at
/// the end of a tick.
pub proof fn law_tick_order(state: LoopState, event: LoopEvent)
    ensures
        next_step(state, event).1 == LoopAction::Fetch ==> (state == LoopState::Idle || state
            == LoopState::Sleeping) && event == (LoopEvent::CycleBoundary { cancelled: false }),
        next_step(state, event).1 == LoopAction::Store ==> state == LoopState::Polling && event
            == LoopEvent::Fetched,
        next_step(state, event).1 is Sleep ==> (state == LoopState::Polling && event
            == LoopEvent::FetchFailed) || (state == LoopState::Storing && (event
            == LoopEvent::Stored || event == LoopEvent::StoreFailed)),
{
}

} // verus!
