//! Proved laws of the frame scheduler.
//!
//! A run drives a scheduler model from a starting instant through `n`
//! firings on a virtual clock, exactly as [`crate::Lifecycle::advance`]
//! does: each firing happens at [`LifecycleModel::fire_time`], the
//! clock advances to that instant, and the state steps by
//! [`LifecycleModel::step`].  The proof functions here state the
//! scheduler's guarantees over such runs: tick counts match the
//! nominal rates, ties resolve presentation-then-simulation, firing
//! instants never decrease, a delayed caller is never repaid with a
//! burst of catch-up ticks, and one sleep always reaches the next due
//! instant.

use vstd::prelude::*;

use crate::lifecycle::{LifecycleEvent, LifecycleModel};

verus! {

/// The scheduler state after `n` firings of a run that begins in state
/// `m` with the virtual clock reading `start`.
pub open spec fn run_state(m: LifecycleModel, start: int, n: nat) -> LifecycleModel
    decreases n,
{
    if n == 0 {
        m
    } else {
        run_state(m, start, (n - 1) as nat).step(run_clock(m, start, (n - 1) as nat))
    }
}

/// The virtual clock after `n` firings: the instant at which the
/// `n`-th event of the run fired (`start` when `n` is zero).
pub open spec fn run_clock(m: LifecycleModel, start: int, n: nat) -> int
    decreases n,
{
    if n == 0 {
        start
    } else {
        run_state(m, start, (n - 1) as nat).fire_time(run_clock(m, start, (n - 1) as nat))
    }
}

/// How many of the first `n` events of the run are `Update`
/// (presentation) events.
pub open spec fn run_update_count(m: LifecycleModel, start: int, n: nat) -> int
    decreases n,
{
    if n == 0 {
        0
    } else {
        run_update_count(m, start, (n - 1) as nat) + if run_state(
            m,
            start,
            (n - 1) as nat,
        ).update_fires_first() {
            1int
        } else {
            0int
        }
    }
}

/// How many of the first `n` events of the run are `FixedUpdate`
/// (simulation) events.
pub open spec fn run_fixed_update_count(m: LifecycleModel, start: int, n: nat) -> int
    decreases n,
{
    if n == 0 {
        0
    } else {
        run_fixed_update_count(m, start, (n - 1) as nat) + if run_state(
            m,
            start,
            (n - 1) as nat,
        ).update_fires_first() {
            0int
        } else {
            1int
        }
    }
}

/// A step never changes the periods, so well-formedness is kept for
/// the whole run.
pub proof fn lemma_run_wf(m: LifecycleModel, start: int, n: nat)
    requires
        m.wf(),
    ensures
        run_state(m, start, n).wf(),
        run_state(m, start, n).fixed_update_frequency == m.fixed_update_frequency,
        run_state(m, start, n).update_frequency == m.update_frequency,
    decreases n,
{
    if n > 0 {
        lemma_run_wf(m, start, (n - 1) as nat);
    }
}

/// Monotonicity: the firing instants of a run never decrease.  The
/// instant of firing `i` is `run_clock(m, start, i + 1)`, so the whole
/// sequence of instants is non-decreasing, and no instant lies before
/// the start of the run.
pub proof fn lemma_monotonicity(m: LifecycleModel, start: int, n: nat)
    ensures
        run_clock(m, start, n) <= run_clock(m, start, n + 1),
        start <= run_clock(m, start, n),
    decreases n,
{
    if n > 0 {
        lemma_monotonicity(m, start, (n - 1) as nat);
    }
}

/// The recorded last-firing instants never decrease across a firing,
/// and never pass the firing instant itself — so a monotonic clock
/// stays ahead of both records, call after call.
pub proof fn lemma_last_fires_non_decreasing(m: LifecycleModel, now: int)
    requires
        m.wf(),
        now >= m.last_fixed_update_time,
        now >= m.last_update_time,
    ensures
        m.step(now).last_fixed_update_time >= m.last_fixed_update_time,
        m.step(now).last_update_time >= m.last_update_time,
        m.step(now).last_fixed_update_time <= m.fire_time(now),
        m.step(now).last_update_time <= m.fire_time(now),
{
}

/// Rate: over a run from a fresh scheduler, each timer's recorded last
/// firing equals its count of events times its period, and the final
/// clock `t` lies within one period above `count * period` for both
/// timers.  Hence over a span of `t` nanoseconds the number of
/// fixed-update events is `t / p` or `t / p - 1`, and likewise for
/// update events: the nominal rates, within one tick of boundary
/// rounding.
pub proof fn lemma_rate(fixed_update_frequency: int, update_frequency: int, n: nat)
    requires
        fixed_update_frequency > 0,
        update_frequency > 0,
    ensures
        ({
            let m0 = LifecycleModel::fresh(fixed_update_frequency, update_frequency);
            let t = run_clock(m0, 0, n);
            let fixed_count = run_fixed_update_count(m0, 0, n);
            let update_count = run_update_count(m0, 0, n);
            &&& run_state(m0, 0, n).last_fixed_update_time == fixed_count
                * fixed_update_frequency
            &&& run_state(m0, 0, n).last_update_time == update_count * update_frequency
            &&& fixed_count * fixed_update_frequency <= t <= fixed_count
                * fixed_update_frequency + fixed_update_frequency
            &&& update_count * update_frequency <= t <= update_count * update_frequency
                + update_frequency
        }),
    decreases n,
{
    let m0 = LifecycleModel::fresh(fixed_update_frequency, update_frequency);
    if n > 0 {
        lemma_rate(fixed_update_frequency, update_frequency, (n - 1) as nat);
        lemma_run_wf(m0, 0, (n - 1) as nat);
        let m = run_state(m0, 0, (n - 1) as nat);
        let t = run_clock(m0, 0, (n - 1) as nat);
        let fixed_count = run_fixed_update_count(m0, 0, (n - 1) as nat);
        let update_count = run_update_count(m0, 0, (n - 1) as nat);
        if m.update_fires_first() {
            assert((update_count + 1) * update_frequency == update_count * update_frequency
                + update_frequency) by (nonlinear_arith);
        } else {
            assert((fixed_count + 1) * fixed_update_frequency == fixed_count
                * fixed_update_frequency + fixed_update_frequency) by (nonlinear_arith);
        }
    }
}

/// Rate, in floor form: over a run from a fresh scheduler spanning `t`
/// nanoseconds of virtual time, the number of fixed-update events is
/// `t / p` or `t / p - 1` for period `p`, and the number of update
/// events is `t / q` or `t / q - 1` for period `q` — the nominal rates,
/// within one tick of boundary rounding.
pub proof fn lemma_rate_floor(fixed_update_frequency: int, update_frequency: int, n: nat)
    requires
        fixed_update_frequency > 0,
        update_frequency > 0,
    ensures
        ({
            let m0 = LifecycleModel::fresh(fixed_update_frequency, update_frequency);
            let t = run_clock(m0, 0, n);
            let fixed_count = run_fixed_update_count(m0, 0, n);
            let update_count = run_update_count(m0, 0, n);
            &&& (fixed_count == t / fixed_update_frequency || fixed_count == t
                / fixed_update_frequency - 1)
            &&& (update_count == t / update_frequency || update_count == t / update_frequency
                - 1)
        }),
{
    lemma_rate(fixed_update_frequency, update_frequency, n);
    let m0 = LifecycleModel::fresh(fixed_update_frequency, update_frequency);
    let t = run_clock(m0, 0, n);
    let fixed_count = run_fixed_update_count(m0, 0, n);
    let update_count = run_update_count(m0, 0, n);
    if t < fixed_count * fixed_update_frequency + fixed_update_frequency {
        vstd::arithmetic::div_mod::lemma_fundamental_div_mod_converse(
            t,
            fixed_update_frequency,
            fixed_count,
            t - fixed_count * fixed_update_frequency,
        );
    } else {
        assert((fixed_count + 1) * fixed_update_frequency == fixed_count * fixed_update_frequency
            + fixed_update_frequency) by (nonlinear_arith);
        vstd::arithmetic::div_mod::lemma_fundamental_div_mod_converse(
            t,
            fixed_update_frequency,
            fixed_count + 1,
            0,
        );
    }
    if t < update_count * update_frequency + update_frequency {
        vstd::arithmetic::div_mod::lemma_fundamental_div_mod_converse(
            t,
            update_frequency,
            update_count,
            t - update_count * update_frequency,
        );
    } else {
        assert((update_count + 1) * update_frequency == update_count * update_frequency
            + update_frequency) by (nonlinear_arith);
        vstd::arithmetic::div_mod::lemma_fundamental_div_mod_converse(
            t,
            update_frequency,
            update_count + 1,
            0,
        );
    }
}

/// Tie-break: when both timers are due at the very same instant, the
/// next firing is the update (presentation) event, and the firing
/// after it is the fixed-update (simulation) event, at that same
/// instant.
pub proof fn lemma_tie_break(m: LifecycleModel, now: int)
    requires
        m.wf(),
        m.next_update_due() == m.next_fixed_update_due(),
    ensures
        m.step_event(now) is Update,
        m.step(now).step_event(m.fire_time(now)) is FixedUpdate,
        m.step(now).fire_time(m.fire_time(now)) == m.fire_time(now),
{
}

/// No catch-up, part one: an event's elapsed time is never less than
/// the nominal period of its timer.  A delayed caller therefore never
/// receives a burst of same-variant events with tiny elapsed values:
/// the scheduler resumes its cadence from the actual firing instant.
pub proof fn lemma_no_catch_up(m: LifecycleModel, now: int)
    requires
        m.wf(),
    ensures
        m.update_fires_first() ==> m.step_elapsed(now) >= m.update_frequency,
        !m.update_fires_first() ==> m.step_elapsed(now) >= m.fixed_update_frequency,
{
}

/// No catch-up, part two: a caller that arrives late — at or past the
/// next due instant — is served at once, and the event's elapsed value
/// is the actual time since that timer last fired, reflecting the full
/// delay.
pub proof fn lemma_late_call(m: LifecycleModel, now: int)
    requires
        m.wf(),
        now >= m.next_due(),
    ensures
        m.fire_time(now) == now,
        m.update_fires_first() ==> m.step_elapsed(now) == now - m.last_update_time,
        !m.update_fires_first() ==> m.step_elapsed(now) == now - m.last_fixed_update_time,
{
}

/// No catch-up, part three: a prompt caller — one that asks again no
/// later than the timers' due instants — receives each event with an
/// elapsed time of exactly one nominal period, and remains prompt for
/// the following firing.  After a late stretch this state is reached
/// as soon as the overdue timers have fired once.
pub proof fn lemma_prompt_cadence(m: LifecycleModel, now: int)
    requires
        m.wf(),
        m.next_fixed_update_due() >= now,
        m.next_update_due() >= now,
    ensures
        m.update_fires_first() ==> m.step_elapsed(now) == m.update_frequency,
        !m.update_fires_first() ==> m.step_elapsed(now) == m.fixed_update_frequency,
        m.step(now).next_fixed_update_due() >= m.fire_time(now),
        m.step(now).next_update_due() >= m.fire_time(now),
{
}

/// No busy wait: when neither timer is due, the scheduler asks for a
/// single sleep of exactly the remaining time, which lands on the next
/// due instant — after that one sleep a timer is due, so the following
/// request fires instead of sleeping again.
pub proof fn lemma_no_busy_wait(m: LifecycleModel, now: int)
    requires
        m.wf(),
        now < m.next_due(),
    ensures
        m.next_due() - now > 0,
        m.fire_time(now) == m.next_due(),
        now + (m.next_due() - now) >= m.next_due(),
{
}

} // verus!
