use terrain_generation::{Lifecycle, LifecycleError, LifecycleEvent, Step};

const FIXED_PERIOD: u64 = 8_333_333; // 1/120 s in nanoseconds
const UPDATE_PERIOD: u64 = 16_666_666; // 1/60 s in nanoseconds

#[test]
fn create_zero_simulation_period_fails() {
    let result = Lifecycle::create(0, 16_666_666);
    assert!(matches!(result, Err(LifecycleError::InvalidConfiguration)));
}

#[test]
fn create_negative_presentation_period_fails() {
    let result = Lifecycle::create(8_333_333, -1);
    assert!(matches!(result, Err(LifecycleError::InvalidConfiguration)));
}

#[test]
fn create_default_rates_succeeds() {
    let lifecycle = Lifecycle::create(FIXED_PERIOD as i64, UPDATE_PERIOD as i64).unwrap();
    assert_eq!(lifecycle.fixed_update_frequency(), FIXED_PERIOD);
    assert_eq!(lifecycle.update_frequency(), UPDATE_PERIOD);
    assert_eq!(lifecycle.last_fixed_update_time(), 0);
    assert_eq!(lifecycle.last_update_time(), 0);
}

#[test]
fn new_uses_default_rates() {
    let lifecycle = Lifecycle::new();
    assert_eq!(lifecycle.fixed_update_frequency(), FIXED_PERIOD);
    assert_eq!(lifecycle.update_frequency(), UPDATE_PERIOD);
}

#[test]
fn default_matches_new() {
    let lifecycle: Lifecycle = Default::default();
    assert_eq!(lifecycle.fixed_update_frequency(), FIXED_PERIOD);
    assert_eq!(lifecycle.update_frequency(), UPDATE_PERIOD);
    assert_eq!(lifecycle.last_fixed_update_time(), 0);
    assert_eq!(lifecycle.last_update_time(), 0);
}

#[test]
fn first_event_is_fixed_update_after_one_sleep() {
    let mut lifecycle = Lifecycle::new();
    let step = lifecycle.next(0);
    assert_eq!(step, Step::Sleep(FIXED_PERIOD));
    let step = lifecycle.next(FIXED_PERIOD);
    assert_eq!(step, Step::Fire(LifecycleEvent::FixedUpdate(FIXED_PERIOD)));
}

#[test]
fn rate_over_simulated_span() {
    // 1/120 s simulation period, 1/60 s presentation period, driven on a
    // virtual clock.  Every 1/60 s span holds two fixed updates and one
    // update; over the whole span the counts match the nominal rates.
    let mut lifecycle = Lifecycle::create(FIXED_PERIOD as i64, UPDATE_PERIOD as i64).unwrap();
    let mut now: u64 = 0;
    let mut fixed_count: u64 = 0;
    let mut update_count: u64 = 0;
    for _ in 0..300 {
        match lifecycle.advance(&mut now) {
            LifecycleEvent::FixedUpdate(_) => fixed_count += 1,
            LifecycleEvent::Update(_) => update_count += 1,
        }
    }
    let span: u64 = now;
    assert_eq!(span, 100 * 2 * FIXED_PERIOD);
    // floor(span / period) for each timer, within one tick.
    assert_eq!(fixed_count, 200);
    assert_eq!(update_count, 100);
    assert!(span / FIXED_PERIOD - 1 <= fixed_count && fixed_count <= span / FIXED_PERIOD);
    assert!(span / UPDATE_PERIOD - 1 <= update_count && update_count <= span / UPDATE_PERIOD);
}

#[test]
fn tie_break_presentation_before_simulation() {
    // Equal periods: both timers are due at the same instant from the
    // start.  The update (presentation) event fires first, then the
    // fixed update (simulation) at the very same instant.
    let mut lifecycle = Lifecycle::create(5, 5).unwrap();
    let mut now: u64 = 0;
    let first = lifecycle.advance(&mut now);
    assert_eq!(now, 5);
    assert_eq!(first, LifecycleEvent::Update(5));
    let second = lifecycle.advance(&mut now);
    assert_eq!(now, 5);
    assert_eq!(second, LifecycleEvent::FixedUpdate(5));
}

#[test]
fn tie_break_at_default_rates() {
    // With 1/120 s and 1/60 s periods the two timers meet at every
    // 1/60 s boundary; at the first such boundary the update fires
    // before the second fixed update.
    let mut lifecycle = Lifecycle::new();
    let mut now: u64 = 0;
    assert_eq!(
        lifecycle.advance(&mut now),
        LifecycleEvent::FixedUpdate(FIXED_PERIOD)
    );
    let at_boundary = lifecycle.advance(&mut now);
    assert_eq!(now, UPDATE_PERIOD);
    assert_eq!(at_boundary, LifecycleEvent::Update(UPDATE_PERIOD));
    let after_boundary = lifecycle.advance(&mut now);
    assert_eq!(now, UPDATE_PERIOD);
    assert_eq!(
        after_boundary,
        LifecycleEvent::FixedUpdate(UPDATE_PERIOD - FIXED_PERIOD)
    );
}

#[test]
fn no_catch_up_after_delay() {
    // A long pause is repaid with a single event whose elapsed time
    // reflects the whole delay, then the steady cadence resumes —
    // never a burst of same-variant events with tiny elapsed values.
    let mut lifecycle = Lifecycle::create(10, 1_000_000).unwrap();
    let mut now: u64 = 0;
    assert_eq!(lifecycle.advance(&mut now), LifecycleEvent::FixedUpdate(10));
    assert_eq!(now, 10);

    // The caller goes quiet for far longer than the 10 ns period.
    now += 5_000;
    let late = lifecycle.advance(&mut now);
    assert_eq!(now, 5_010);
    assert_eq!(late, LifecycleEvent::FixedUpdate(5_000));

    // The next simulation event comes one nominal period later.
    let resumed = lifecycle.advance(&mut now);
    assert_eq!(now, 5_020);
    assert_eq!(resumed, LifecycleEvent::FixedUpdate(10));
}

#[test]
fn elapsed_never_below_period() {
    let mut lifecycle = Lifecycle::create(7, 11).unwrap();
    let mut now: u64 = 3;
    for round in 0..200 {
        // An irregular caller: sometimes prompt, sometimes late.
        if round % 5 == 0 {
            now += 30;
        }
        match lifecycle.advance(&mut now) {
            LifecycleEvent::FixedUpdate(elapsed) => assert!(elapsed >= 7),
            LifecycleEvent::Update(elapsed) => assert!(elapsed >= 11),
        }
    }
}

#[test]
fn firing_instants_are_monotonic() {
    let mut lifecycle = Lifecycle::create(7, 11).unwrap();
    let mut now: u64 = 0;
    let mut previous: u64 = 0;
    for round in 0..500 {
        if round % 7 == 0 {
            now += round as u64;
        }
        lifecycle.advance(&mut now);
        // After each advance the clock reads the firing instant of the
        // event just returned; the instants never decrease.
        assert!(now >= previous);
        previous = now;
    }
}

#[test]
fn sleeps_once_instead_of_polling() {
    // Instrumented run loop: between two events the scheduler asks for
    // at most one sleep, of exactly the time remaining until the next
    // due instant — it never polls in small increments.
    let mut lifecycle = Lifecycle::create(100, 150).unwrap();
    let mut now: u64 = 0;
    let mut sleeps_since_last_event: u64 = 0;
    let mut events: u64 = 0;
    while events < 50 {
        match lifecycle.next(now) {
            Step::Sleep(duration) => {
                assert!(duration > 0);
                sleeps_since_last_event += 1;
                assert!(sleeps_since_last_event <= 1);
                now += duration;
            }
            Step::Fire(_) => {
                events += 1;
                sleeps_since_last_event = 0;
            }
        }
    }
}

#[test]
fn sleep_is_exactly_the_remaining_time() {
    let mut lifecycle = Lifecycle::create(100, 150).unwrap();
    assert_eq!(lifecycle.next(0), Step::Sleep(100));
    assert_eq!(lifecycle.next(30), Step::Sleep(70));
    assert_eq!(lifecycle.next(99), Step::Sleep(1));
    match lifecycle.next(100) {
        Step::Fire(event) => assert_eq!(event, LifecycleEvent::FixedUpdate(100)),
        Step::Sleep(_) => panic!("a due timer must fire"),
    }
}

#[test]
fn next_leaves_state_unchanged_while_sleeping() {
    let mut lifecycle = Lifecycle::create(100, 150).unwrap();
    let step = lifecycle.next(40);
    assert_eq!(step, Step::Sleep(60));
    assert_eq!(lifecycle.last_fixed_update_time(), 0);
    assert_eq!(lifecycle.last_update_time(), 0);
    assert_eq!(lifecycle.fixed_update_frequency(), 100);
    assert_eq!(lifecycle.update_frequency(), 150);
}

#[test]
fn exactly_one_event_per_call() {
    // Even with both timers long overdue, one call fires one timer;
    // the other is served by the following call.
    let mut lifecycle = Lifecycle::create(10, 15).unwrap();
    let mut now: u64 = 10_000;
    let first = lifecycle.advance(&mut now);
    assert_eq!(now, 10_000);
    assert_eq!(first, LifecycleEvent::FixedUpdate(10_000));
    let second = lifecycle.advance(&mut now);
    assert_eq!(now, 10_000);
    assert_eq!(second, LifecycleEvent::Update(10_000));
}
