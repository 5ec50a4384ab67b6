use entur_display::sched::event_expected;
use entur_display::sched::initial;
use entur_display::sched::step;
use entur_display::sched::SchedulerAction;
use entur_display::sched::SchedulerEvent;
use entur_display::sched::SchedulerState;
use entur_display::sched::BACKOFF_MILLIS;
use entur_display::sched::RENDER_TICKS;
use entur_display::sched::TICK_MILLIS;

#[test]
fn loop_starts_by_fetching() {
    assert_eq!(initial(), (SchedulerState::Fetching, SchedulerAction::Fetch));
}

#[test]
fn failed_fetch_backs_off_exactly_once_without_rendering() {
    let (s1, a1) = step(SchedulerState::Fetching, SchedulerEvent::FetchFailed);
    assert_eq!(s1, SchedulerState::BackoffSleeping);
    assert_eq!(a1, SchedulerAction::Sleep { millis: BACKOFF_MILLIS });
    assert_eq!(BACKOFF_MILLIS, 20_000);
    let (s2, a2) = step(s1, SchedulerEvent::SleepFinished);
    assert_eq!(s2, SchedulerState::Fetching);
    assert_eq!(a2, SchedulerAction::Fetch);
    assert!(!matches!(a1, SchedulerAction::Render));
    assert!(!matches!(a2, SchedulerAction::Render));
}

#[test]
fn only_matching_events_are_expected() {
    assert!(event_expected(SchedulerState::Fetching, SchedulerEvent::FetchSucceeded));
    assert!(event_expected(SchedulerState::Fetching, SchedulerEvent::FetchFailed));
    assert!(!event_expected(SchedulerState::Fetching, SchedulerEvent::FrameRendered));
    assert!(event_expected(SchedulerState::BackoffSleeping, SchedulerEvent::SleepFinished));
    assert!(!event_expected(
        SchedulerState::Rendering { ticks_left: 1 },
        SchedulerEvent::SleepFinished
    ));
    assert!(event_expected(
        SchedulerState::TickSleeping { ticks_left: 1 },
        SchedulerEvent::SleepFinished
    ));
}

#[test]
fn successful_fetch_opens_a_render_window() {
    let (s, a) = step(SchedulerState::Fetching, SchedulerEvent::FetchSucceeded);
    assert_eq!(s, SchedulerState::Rendering { ticks_left: RENDER_TICKS });
    assert_eq!(a, SchedulerAction::Render);
}

#[test]
fn render_window_ticks_down_then_refetches() {
    let mut state = SchedulerState::Fetching;
    let mut action = SchedulerAction::Fetch;
    let mut renders: u32 = 0;
    let mut tick_sleeps: u32 = 0;
    (state, action) = step(state, SchedulerEvent::FetchSucceeded);
    loop {
        match action {
            SchedulerAction::Render => {
                renders += 1;
                (state, action) = step(state, SchedulerEvent::FrameRendered);
            }
            SchedulerAction::Sleep { millis } => {
                assert_eq!(millis, TICK_MILLIS);
                tick_sleeps += 1;
                (state, action) = step(state, SchedulerEvent::SleepFinished);
            }
            SchedulerAction::Fetch => break,
        }
    }
    // One render per tick of the window, a fast pause after each.
    assert_eq!(renders, RENDER_TICKS);
    assert_eq!(tick_sleeps, RENDER_TICKS);
    assert_eq!(state, SchedulerState::Fetching);
}
