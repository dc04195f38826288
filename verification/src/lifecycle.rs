//! The frame scheduler: a state machine that decouples a fixed-rate
//! simulation clock from a separate presentation clock.
//!
//! The scheduler owns two periodic timers, the fixed-update (simulation)
//! timer and the update (presentation) timer.  Asked for the next event,
//! it decides which timer is due first, asks the caller to sleep when
//! neither is due yet, and otherwise emits exactly one event naming the
//! timer that fired and the wall-clock time elapsed since that timer
//! last fired.
//!
//! Timestamps and durations are nanoseconds on a monotonic clock,
//! counted from the scheduler's creation.  The caller supplies the
//! current reading of that clock, so the scheduler itself performs no
//! input or output; a run loop drives it against the platform clock and
//! sleep primitive, and a test drives it against a virtual clock.
//!
//! The key design decision: when a timer fires, its record of the last
//! firing is set to the actual current time, never advanced by the
//! nominal period.  A scheduler that falls behind therefore resumes a
//! steady cadence from now instead of firing a burst of catch-up events
//! (the "spiral of death").

use vstd::prelude::*;

verus! {

/// Number of nanoseconds in one second.
pub const NANOS_PER_SECOND: u64 = 1_000_000_000;

/// Default fixed-update (simulation) rate, in ticks per second.
pub const DEFAULT_FIXED_UPDATE_PER_SECOND: u64 = 120;

/// Default update (presentation) rate, in ticks per second.
pub const DEFAULT_UPDATE_PER_SECOND: u64 = 60;

/// One event emitted by the scheduler.  The payload is the wall-clock
/// time in nanoseconds since the same timer last fired — the actual
/// elapsed time, not the nominal period.
#[derive(Clone, Copy, Debug, PartialEq, Eq, Structural)]
pub enum LifecycleEvent {
    /// The fixed-rate simulation timer fired.
    FixedUpdate(u64),
    /// The presentation (input polling and rendering) timer fired.
    Update(u64),
}

/// What the scheduler asks of its run loop on one call of [`Lifecycle::next`]:
/// either block for the given number of nanoseconds and ask again, or
/// handle the event that just fired.
#[derive(Clone, Copy, Debug, PartialEq, Eq, Structural)]
pub enum Step {
    /// Neither timer is due: sleep this many nanoseconds, then ask again.
    Sleep(u64),
    /// A timer fired; exactly one event per call.
    Fire(LifecycleEvent),
}

/// Failure of construction.
#[derive(Clone, Copy, Debug, PartialEq, Eq, Structural)]
pub enum LifecycleError {
    /// A period was not strictly positive.
    InvalidConfiguration,
}

/// The transient decision phase of the scheduler's state machine.
/// It is consumed within one call and is not observable outside it.
enum Phase {
    /// Choosing the earlier of the two next-due times.
    Deciding,
    /// The fixed-update (simulation) timer is due now.
    SimulationDue,
    /// The update (presentation) timer is due now.
    PresentationDue,
}

/// Decisions remaining before the machine must emit its step: the
/// deciding phase may still hand off to a due phase; a due phase
/// fires at once.
spec fn phase_rank(phase: Phase) -> int {
    match phase {
        Phase::Deciding => 1,
        Phase::SimulationDue => 0,
        Phase::PresentationDue => 0,
    }
}

/// The mathematical model of a scheduler: the two timers' last firing
/// instants and their periods, as unbounded integers (nanoseconds).
pub ghost struct LifecycleModel {
    pub last_fixed_update_time: int,
    pub last_update_time: int,
    pub fixed_update_frequency: int,
    pub update_frequency: int,
}

impl LifecycleModel {
    /// Both periods are strictly positive; established at construction
    /// and preserved for the scheduler's lifetime.
    pub open spec fn wf(self) -> bool {
        self.fixed_update_frequency > 0 && self.update_frequency > 0
    }

    /// A scheduler whose timers are considered to have just fired at
    /// creation time (instant zero of the scheduler's clock).
    pub open spec fn fresh(fixed_update_frequency: int, update_frequency: int) -> LifecycleModel {
        LifecycleModel {
            last_fixed_update_time: 0,
            last_update_time: 0,
            fixed_update_frequency: fixed_update_frequency,
            update_frequency: update_frequency,
        }
    }

    /// The instant the fixed-update timer is next due.
    pub open spec fn next_fixed_update_due(self) -> int {
        self.last_fixed_update_time + self.fixed_update_frequency
    }

    /// The instant the update timer is next due.
    pub open spec fn next_update_due(self) -> int {
        self.last_update_time + self.update_frequency
    }

    /// Tie-break rule: when both timers are due at the same instant the
    /// update (presentation) timer fires first.
    pub open spec fn update_fires_first(self) -> bool {
        self.next_update_due() <= self.next_fixed_update_due()
    }

    /// The earlier of the two next-due instants.
    pub open spec fn next_due(self) -> int {
        if self.update_fires_first() {
            self.next_update_due()
        } else {
            self.next_fixed_update_due()
        }
    }

    /// The instant at which the next event fires when the clock reads
    /// `now`: immediately if a timer is already due, otherwise at the
    /// earlier due time (after one sleep).
    pub open spec fn fire_time(self, now: int) -> int {
        if now >= self.next_due() {
            now
        } else {
            self.next_due()
        }
    }

    /// The elapsed time carried by the next event: actual time since
    /// the firing timer last fired.
    pub open spec fn step_elapsed(self, now: int) -> int {
        if self.update_fires_first() {
            self.fire_time(now) - self.last_update_time
        } else {
            self.fire_time(now) - self.last_fixed_update_time
        }
    }

    /// The event emitted by the next firing.
    pub open spec fn step_event(self, now: int) -> LifecycleEvent {
        if self.update_fires_first() {
            LifecycleEvent::Update(self.step_elapsed(now) as u64)
        } else {
            LifecycleEvent::FixedUpdate(self.step_elapsed(now) as u64)
        }
    }

    /// The scheduler state after the next firing: the firing timer's
    /// last-fired instant becomes the actual firing instant.
    pub open spec fn step(self, now: int) -> LifecycleModel {
        if self.update_fires_first() {
            LifecycleModel { last_update_time: self.fire_time(now), ..self }
        } else {
            LifecycleModel { last_fixed_update_time: self.fire_time(now), ..self }
        }
    }
}

/// The frame scheduler.  Create it with [`Lifecycle::new`] or
/// [`Lifecycle::create`], then drive it in a loop: either with
/// [`Lifecycle::next`] against a real monotonic clock, sleeping when it
/// asks to, or with [`Lifecycle::advance`] against a virtual clock.
pub struct Lifecycle {
    last_fixed_update_time: u64,
    last_update_time: u64,
    fixed_update_frequency: u64,
    update_frequency: u64,
}

impl View for Lifecycle {
    type V = LifecycleModel;

    closed spec fn view(&self) -> LifecycleModel {
        LifecycleModel {
            last_fixed_update_time: self.last_fixed_update_time as int,
            last_update_time: self.last_update_time as int,
            fixed_update_frequency: self.fixed_update_frequency as int,
            update_frequency: self.update_frequency as int,
        }
    }
}

impl Default for Lifecycle {
    /// A scheduler with the default rates (120 fixed updates and 60
    /// updates per second), whose timers have just fired at instant zero.
    fn default() -> (lifecycle: Lifecycle)
        ensures
            lifecycle@ == LifecycleModel::fresh(
                (NANOS_PER_SECOND / DEFAULT_FIXED_UPDATE_PER_SECOND) as int,
                (NANOS_PER_SECOND / DEFAULT_UPDATE_PER_SECOND) as int,
            ),
            lifecycle@.wf(),
    {
        Lifecycle {
            last_fixed_update_time: 0,
            last_update_time: 0,
            fixed_update_frequency: NANOS_PER_SECOND / DEFAULT_FIXED_UPDATE_PER_SECOND,
            update_frequency: NANOS_PER_SECOND / DEFAULT_UPDATE_PER_SECOND,
        }
    }
}

impl Lifecycle {
    /// A scheduler with the default rates; see [`Lifecycle::default`].
    pub fn new() -> (lifecycle: Lifecycle)
        ensures
            lifecycle@ == LifecycleModel::fresh(
                (NANOS_PER_SECOND / DEFAULT_FIXED_UPDATE_PER_SECOND) as int,
                (NANOS_PER_SECOND / DEFAULT_UPDATE_PER_SECOND) as int,
            ),
            lifecycle@.wf(),
    {
        Lifecycle::default()
    }

    /// A scheduler with explicit periods, both in nanoseconds.  Both
    /// timers are considered to have just fired at creation time
    /// (instant zero).  Fails if and only if a period is not strictly
    /// positive.
    pub fn create(fixed_update_frequency_ns: i64, update_frequency_ns: i64) -> (result: Result<
        Lifecycle,
        LifecycleError,
    >)
        ensures
            fixed_update_frequency_ns > 0 && update_frequency_ns > 0 ==> (result matches Ok(
                lifecycle,
            ) && lifecycle@ == LifecycleModel::fresh(
                fixed_update_frequency_ns as int,
                update_frequency_ns as int,
            ) && lifecycle@.wf()),
            !(fixed_update_frequency_ns > 0 && update_frequency_ns > 0) ==> (result matches Err(
                error,
            ) && error == LifecycleError::InvalidConfiguration),
    {
        if fixed_update_frequency_ns <= 0 || update_frequency_ns <= 0 {
            Err(LifecycleError::InvalidConfiguration)
        } else {
            Ok(
                Lifecycle {
                    last_fixed_update_time: 0,
                    last_update_time: 0,
                    fixed_update_frequency: fixed_update_frequency_ns as u64,
                    update_frequency: update_frequency_ns as u64,
                },
            )
        }
    }

    /// The fixed-update (simulation) period in nanoseconds.
    pub fn fixed_update_frequency(&self) -> (frequency: u64)
        ensures
            frequency == self@.fixed_update_frequency,
    {
        self.fixed_update_frequency
    }

    /// The update (presentation) period in nanoseconds.
    pub fn update_frequency(&self) -> (frequency: u64)
        ensures
            frequency == self@.update_frequency,
    {
        self.update_frequency
    }

    /// The instant the fixed-update timer last fired.
    pub fn last_fixed_update_time(&self) -> (time: u64)
        ensures
            time == self@.last_fixed_update_time,
    {
        self.last_fixed_update_time
    }

    /// The instant the update timer last fired.
    pub fn last_update_time(&self) -> (time: u64)
        ensures
            time == self@.last_update_time,
    {
        self.last_update_time
    }

    /// One decision of the state machine, given the current reading
    /// `now` of the monotonic clock.
    ///
    /// If neither timer is due yet, asks for one blocking sleep of
    /// exactly the time remaining until the earlier due instant and
    /// leaves the scheduler unchanged; the caller sleeps, re-reads the
    /// clock and asks again.  Otherwise fires the due timer — the
    /// update timer on an exact tie — records `now` as its last firing
    /// instant, and returns its event carrying the actual elapsed time.
    ///
    /// The clock must be monotonic: `now` may not lie before a recorded
    /// firing instant.  The bounds against `u64::MAX` only keep the due
    /// times representable on the machine.
    pub fn next(&mut self, now: u64) -> (step: Step)
        requires
            old(self)@.wf(),
            now >= old(self)@.last_fixed_update_time,
            now >= old(self)@.last_update_time,
            now + old(self)@.fixed_update_frequency <= u64::MAX,
            now + old(self)@.update_frequency <= u64::MAX,
        ensures
            now < old(self)@.next_due() ==> step == Step::Sleep(
                (old(self)@.next_due() - now) as u64,
            ) && *final(self) == *old(self),
            now >= old(self)@.next_due() ==> step == Step::Fire(old(self)@.step_event(now as int))
                && final(self)@ == old(self)@.step(now as int),
    {
        let mut phase = Phase::Deciding;
        loop
            invariant
                *self == *old(self),
                self@.wf(),
                now >= self@.last_fixed_update_time,
                now >= self@.last_update_time,
                now + self@.fixed_update_frequency <= u64::MAX,
                now + self@.update_frequency <= u64::MAX,
                phase is SimulationDue ==> now >= self@.next_due() && !self@.update_fires_first(),
                phase is PresentationDue ==> now >= self@.next_due() && self@.update_fires_first(),
            decreases phase_rank(phase),
        {
            match phase {
                Phase::Deciding => {
                    let next_fixed_update = self.last_fixed_update_time
                        + self.fixed_update_frequency;
                    let next_update = self.last_update_time + self.update_frequency;
                    let next_event = if next_update <= next_fixed_update {
                        next_update
                    } else {
                        next_fixed_update
                    };
                    if next_event > now {
                        return Step::Sleep(next_event - now);
                    } else if next_event == next_update {
                        phase = Phase::PresentationDue;
                    } else {
                        phase = Phase::SimulationDue;
                    }
                },
                Phase::SimulationDue => {
                    let delta_time = now - self.last_fixed_update_time;
                    self.last_fixed_update_time = now;
                    return Step::Fire(LifecycleEvent::FixedUpdate(delta_time));
                },
                Phase::PresentationDue => {
                    let delta_time = now - self.last_update_time;
                    self.last_update_time = now;
                    return Step::Fire(LifecycleEvent::Update(delta_time));
                },
            }
        }
    }

    /// Blocks — on the virtual clock `now` — until the earlier of the
    /// two next-due instants, then fires that timer and returns exactly
    /// one event.  Sleeping advances `now` to the due instant; a timer
    /// already due fires at `now` without sleeping.  This is
    /// [`Lifecycle::next`] with the one possible sleep folded in, and
    /// is how the scheduler is driven deterministically in tests; a run
    /// loop on the platform clock uses [`Lifecycle::next`] and a real
    /// sleep instead.
    pub fn advance(&mut self, now: &mut u64) -> (event: LifecycleEvent)
        requires
            old(self)@.wf(),
            *old(now) >= old(self)@.last_fixed_update_time,
            *old(now) >= old(self)@.last_update_time,
            *old(now) + old(self)@.fixed_update_frequency <= u64::MAX,
            *old(now) + old(self)@.update_frequency <= u64::MAX,
        ensures
            final(self)@ == old(self)@.step(*old(now) as int),
            *final(now) == old(self)@.fire_time(*old(now) as int),
            event == old(self)@.step_event(*old(now) as int),
            *final(now) >= *old(now),
    {
        let next_fixed_update = self.last_fixed_update_time + self.fixed_update_frequency;
        let next_update = self.last_update_time + self.update_frequency;
        let next_event = if next_update <= next_fixed_update {
            next_update
        } else {
            next_fixed_update
        };
        if next_event > *now {
            // Neither timer is due: sleep (by advancing the virtual
            // clock) until the earlier due instant.
            *now = next_event;
        }
        if next_update <= next_fixed_update {
            let delta_time = *now - self.last_update_time;
            self.last_update_time = *now;
            LifecycleEvent::Update(delta_time)
        } else {
            let delta_time = *now - self.last_fixed_update_time;
            self.last_fixed_update_time = *now;
            LifecycleEvent::FixedUpdate(delta_time)
        }
    }
}

} // verus!
