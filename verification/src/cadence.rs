//! Timing of the two clock channels: the slow periodic full-update timer and
//! the fast animation clock, together with the cadence facts the loop's
//! update policy rests on.

use vstd::prelude::*;

verus! {

/// Period of the full-update timer, in milliseconds.
pub const TICK_INTERVAL_MS: u64 = 5000;

/// Period of the animation clock, in milliseconds.
pub const SPINNER_INTERVAL_MS: u64 = 80;

/// Law: the animation clock runs at least an order of magnitude faster than
/// the periodic timer, so animation wakeups dominate and must stay on the
/// cheap dispatch path.
pub proof fn lemma_animation_clock_dominates()
    ensures
        SPINNER_INTERVAL_MS * 10 <= TICK_INTERVAL_MS,
{
}

/// A periodic source with the given interval delivers at the instants that
/// are whole multiples of that interval.
pub open spec fn is_tick_time(interval: nat, t: nat) -> bool {
    interval > 0 && t % interval == 0
}

/// Law: within any window exactly as long as the interval, a periodic source
/// delivers exactly once: at least one delivery instant lies in the window,
/// and no two distinct ones do.
pub proof fn lemma_one_tick_per_window(interval: nat, start: nat)
    requires
        interval > 0,
    ensures
        exists|t: nat| start <= t < start + interval && #[trigger] is_tick_time(interval, t),
        forall|t1: nat, t2: nat|
            start <= t1 < start + interval && start <= t2 < start + interval && #[trigger] is_tick_time(
                interval,
                t1,
            ) && #[trigger] is_tick_time(interval, t2) ==> t1 == t2,
{
    let r: nat = start % interval;
    let w: nat = if r == 0 {
        start
    } else {
        (start + interval - r) as nat
    };
    assert(w % interval == 0 && start <= w < start + interval) by (nonlinear_arith)
        requires
            interval > 0,
            r == start % interval,
            w == if r == 0 {
                start
            } else {
                (start + interval - r) as nat
            },
    ;
    assert(is_tick_time(interval, w));
    assert forall|t1: nat, t2: nat|
        start <= t1 < start + interval && start <= t2 < start + interval && #[trigger] is_tick_time(
            interval,
            t1,
        ) && #[trigger] is_tick_time(interval, t2) implies t1 == t2 by {
        assert(t1 == t2) by (nonlinear_arith)
            requires
                interval > 0,
                t1 % interval == 0,
                t2 % interval == 0,
                start <= t1 < start + interval,
                start <= t2 < start + interval,
        ;
    }
}

/// Law: under periodic polling, each window exactly one interval long sees
/// exactly one timer delivery, and every timer delivery dispatches a full
/// application update.
pub proof fn lemma_one_full_update_per_tick_window(interval: nat, start: nat)
    requires
        interval > 0,
    ensures
        exists|t: nat| start <= t < start + interval && #[trigger] is_tick_time(interval, t),
        forall|t1: nat, t2: nat|
            start <= t1 < start + interval && start <= t2 < start + interval && #[trigger] is_tick_time(
                interval,
                t1,
            ) && #[trigger] is_tick_time(interval, t2) ==> t1 == t2,
        crate::dispatch::plan_spec(crate::events::QueueEvent::Tick).call == Some(
            crate::dispatch::AppCall::FullUpdate,
        ),
{
    lemma_one_tick_per_window(interval, start);
}

/// The unique delivery instant of a periodic source within the window that
/// starts now and lasts one interval.
pub fn next_tick_time(interval: u64, now: u64) -> (r: u64)
    requires
        interval > 0,
        now + interval <= u64::MAX,
    ensures
        now <= r < now + interval,
        is_tick_time(interval as nat, r as nat),
{
    let rem: u64 = now % interval;
    proof {
        assert(rem <= now && rem < interval) by (nonlinear_arith)
            requires
                interval > 0,
                rem == now % interval,
        ;
    }
    let r: u64 = if rem == 0 {
        now
    } else {
        now - rem + interval
    };
    proof {
        assert(now <= r < now + interval && r % interval == 0) by (nonlinear_arith)
            requires
                interval > 0,
                rem == now % interval,
                r == if rem == 0 {
                    now
                } else {
                    (now - rem + interval) as u64
                },
                now + interval <= u64::MAX,
        ;
    }
    r
}

} // verus!
