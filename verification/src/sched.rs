//! The poll scheduler: the control loop's decisions as an explicit state
//! machine. The driver performs each returned action (fetch, render one
//! frame, or a blocking sleep) and hands the outcome back as the next
//! event. A successful fetch opens a render window that redraws the
//! frame at a fast tick for a bounded number of iterations — countdowns
//! stay live without re-querying the network — and a failed fetch costs
//! exactly one backoff sleep before the next attempt. The loop has no
//! terminal state.

use vstd::prelude::*;

verus! {

/// Fixed backoff after a failed fetch, in milliseconds.
pub const BACKOFF_MILLIS: u64 = 20000;

/// Pause between two renders of the same fetched data, in milliseconds.
pub const TICK_MILLIS: u64 = 500;

/// Frames rendered per fetch: one render window re-renders this many
/// times at the fast tick before the data is fetched anew.
pub const RENDER_TICKS: u32 = 40;

/// Where the loop stands.
#[derive(Debug, Clone, Copy, PartialEq, Eq, Structural)]
pub enum SchedulerState {
    /// A fetch has been issued; its outcome is the next event.
    Fetching,
    /// In the render window; `ticks_left` frames remain, counting the
    /// one being drawn.
    Rendering { ticks_left: u32 },
    /// In the render window, pausing between frames; `ticks_left`
    /// counts the frame just drawn.
    TickSleeping { ticks_left: u32 },
    /// Backing off after a failed fetch.
    BackoffSleeping,
}

/// What the driver reports back.
#[derive(Debug, Clone, Copy, PartialEq, Eq, Structural)]
pub enum SchedulerEvent {
    /// The fetch round trip produced a decodable response.
    FetchSucceeded,
    /// The fetch failed in transport or decode.
    FetchFailed,
    /// One frame was drawn (best-effort; draw errors are not failures).
    FrameRendered,
    /// The requested sleep elapsed.
    SleepFinished,
}

/// What the driver must do next.
#[derive(Debug, Clone, Copy, PartialEq, Eq, Structural)]
pub enum SchedulerAction {
    /// Build the query, perform the round trip, project the response.
    Fetch,
    /// Recompute countdowns from the fetched data and draw one frame.
    Render,
    /// Block for the given duration.
    Sleep { millis: u64 },
}

/// The events that can actually arrive in a state: fetch outcomes while
/// fetching, a drawn frame while rendering, an elapsed sleep while
/// sleeping.
pub open spec fn expects(state: SchedulerState, event: SchedulerEvent) -> bool {
    match state {
        SchedulerState::Fetching => event is FetchSucceeded || event is FetchFailed,
        SchedulerState::Rendering { .. } => event is FrameRendered,
        SchedulerState::TickSleeping { .. } => event is SleepFinished,
        SchedulerState::BackoffSleeping => event is SleepFinished,
    }
}

/// A reachable state never carries an empty render window.
pub open spec fn wf(state: SchedulerState) -> bool {
    match state {
        SchedulerState::Rendering { ticks_left } => 1 <= ticks_left <= RENDER_TICKS,
        SchedulerState::TickSleeping { ticks_left } => 1 <= ticks_left <= RENDER_TICKS,
        _ => true,
    }
}

/// The transition table.
pub open spec fn spec_step(state: SchedulerState, event: SchedulerEvent) -> (SchedulerState,
    SchedulerAction) {
    match state {
        SchedulerState::Fetching => if event is FetchSucceeded {
            ((SchedulerState::Rendering { ticks_left: RENDER_TICKS }), SchedulerAction::Render)
        } else {
            (SchedulerState::BackoffSleeping, (SchedulerAction::Sleep { millis: BACKOFF_MILLIS }))
        },
        SchedulerState::Rendering { ticks_left } => (
            (SchedulerState::TickSleeping { ticks_left }),
            (SchedulerAction::Sleep { millis: TICK_MILLIS }),
        ),
        SchedulerState::TickSleeping { ticks_left } => if ticks_left > 1 {
            ((SchedulerState::Rendering { ticks_left: (ticks_left - 1) as u32 }),
            SchedulerAction::Render)
        } else {
            (SchedulerState::Fetching, SchedulerAction::Fetch)
        },
        SchedulerState::BackoffSleeping => (SchedulerState::Fetching, SchedulerAction::Fetch),
    }
}

/// The state and action the loop starts from: fetch at once.
pub fn initial() -> (r: (SchedulerState, SchedulerAction))
    ensures
        r.0 == SchedulerState::Fetching,
        r.1 == SchedulerAction::Fetch,
{
    (SchedulerState::Fetching, SchedulerAction::Fetch)
}

/// Whether an event can arrive in a state; the runtime counterpart of
/// `expects`, for drivers that want to test before stepping.
pub fn event_expected(state: SchedulerState, event: SchedulerEvent) -> (b: bool)
    ensures
        b == expects(state, event),
{
    match state {
        SchedulerState::Fetching => matches!(
            event,
            SchedulerEvent::FetchSucceeded | SchedulerEvent::FetchFailed
        ),
        SchedulerState::Rendering { .. } => matches!(event, SchedulerEvent::FrameRendered),
        SchedulerState::TickSleeping { .. } => matches!(event, SchedulerEvent::SleepFinished),
        SchedulerState::BackoffSleeping => matches!(event, SchedulerEvent::SleepFinished),
    }
}

/// Takes one transition: from the current state and the event the
/// driver reports, the next state and the action to perform.
pub fn step(state: SchedulerState, event: SchedulerEvent) -> (r: (SchedulerState, SchedulerAction))
    requires
        expects(state, event),
    ensures
        r == spec_step(state, event),
{
    match state {
        SchedulerState::Fetching => {
            match event {
                SchedulerEvent::FetchSucceeded => (
                    SchedulerState::Rendering { ticks_left: RENDER_TICKS },
                    SchedulerAction::Render,
                ),
                _ => (
                    SchedulerState::BackoffSleeping,
                    SchedulerAction::Sleep { millis: BACKOFF_MILLIS },
                ),
            }
        },
        SchedulerState::Rendering { ticks_left } => (
            SchedulerState::TickSleeping { ticks_left },
            SchedulerAction::Sleep { millis: TICK_MILLIS },
        ),
        SchedulerState::TickSleeping { ticks_left } => {
            if ticks_left > 1 {
                (SchedulerState::Rendering { ticks_left: ticks_left - 1 }, SchedulerAction::Render)
            } else {
                (SchedulerState::Fetching, SchedulerAction::Fetch)
            }
        },
        SchedulerState::BackoffSleeping => (SchedulerState::Fetching, SchedulerAction::Fetch),
    }
}

/// Well-formedness is preserved by every expected transition.
pub proof fn lemma_step_preserves_wf(state: SchedulerState, event: SchedulerEvent)
    requires
        wf(state),
        expects(state, event),
    ensures
        wf(spec_step(state, event).0),
{
}

/// LAW: a failed fetch costs exactly one backoff sleep of the configured
/// duration before the next fetch attempt, and no render action occurs
/// anywhere in that cycle.
pub proof fn lemma_failure_cycle()
    ensures
        ({
            let (s1, a1) = spec_step(SchedulerState::Fetching, SchedulerEvent::FetchFailed);
            let (s2, a2) = spec_step(s1, SchedulerEvent::SleepFinished);
            &&& a1 == (SchedulerAction::Sleep { millis: BACKOFF_MILLIS })
            &&& s1 == SchedulerState::BackoffSleeping
            &&& a2 == SchedulerAction::Fetch
            &&& s2 == SchedulerState::Fetching
            &&& !(a1 is Render)
            &&& !(a2 is Render)
        }),
{
}

} // verus!
