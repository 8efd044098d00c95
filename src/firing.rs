//! Fire cooldown: at most one shot per cooldown window.
use vstd::prelude::*;

verus! {

/// Default minimum time between two shots, in milliseconds.
pub const FIRE_COOLDOWN_MS: u64 = 100;

/// Milliseconds from `last` to `now`, or zero if the clock reads earlier.
pub open spec fn since(last: int, now: int) -> int {
    if now >= last {
        now - last
    } else {
        0
    }
}

/// A shot leaves when it is requested and strictly more than the cooldown
/// has passed since the last one.
pub open spec fn may_fire(requested: bool, last: int, now: int, cooldown: int) -> bool {
    requested && since(last, now) > cooldown
}

/// Number of shots over ticks at the given clock readings, fire held on
/// every tick, starting from a last shot at `last`.
pub open spec fn shots(last: int, times: Seq<int>, cooldown: int) -> nat
    decreases times.len(),
{
    if times.len() == 0 {
        0
    } else if may_fire(true, last, times[0], cooldown) {
        1 + shots(times[0], times.drop_first(), cooldown)
    } else {
        shots(last, times.drop_first(), cooldown)
    }
}

pub open spec fn nondecreasing(times: Seq<int>) -> bool {
    forall|i: int, j: int| 0 <= i <= j < times.len() ==> times[i] <= times[j]
}

/// Remembers when the craft last fired.
#[derive(Clone, Copy, Debug, PartialEq, Eq, Structural)]
pub struct FireTimer {
    pub last_fired_ms: u64,
}

impl FireTimer {
    /// A timer created at `now_ms` counts its first window from then.
    pub fn new(now_ms: u64) -> (r: FireTimer)
        ensures
            r.last_fired_ms == now_ms,
    {
        FireTimer { last_fired_ms: now_ms }
    }

    /// Decides whether a shot leaves at `now_ms`, and if so restarts the
    /// window from there.
    pub fn try_fire(&mut self, requested: bool, now_ms: u64, cooldown_ms: u64) -> (fired: bool)
        ensures
            fired == may_fire(requested, old(self).last_fired_ms as int, now_ms as int, cooldown_ms as int),
            final(self).last_fired_ms == if fired {
                now_ms
            } else {
                old(self).last_fired_ms
            },
    {
        let elapsed: u64 = if now_ms >= self.last_fired_ms {
            now_ms - self.last_fired_ms
        } else {
            0
        };
        let fired = requested && elapsed > cooldown_ms;
        if fired {
            self.last_fired_ms = now_ms;
        }
        fired
    }
}

proof fn lemma_no_shots(last: int, times: Seq<int>, cooldown: int)
    requires
        forall|i: int| 0 <= i < times.len() ==> since(last, #[trigger] times[i]) <= cooldown,
    ensures
        shots(last, times, cooldown) == 0,
    decreases times.len(),
{
    if times.len() > 0 {
        let rest = times.drop_first();
        assert forall|i: int| 0 <= i < rest.len() implies since(last, #[trigger] rest[i])
            <= cooldown by {
            assert(rest[i] == times[i + 1]);
        }
        lemma_no_shots(last, rest, cooldown);
    }
}

/// Holding fire on every tick over a span of clock readings shorter than the
/// cooldown fires at most once.
pub proof fn lemma_one_shot_per_window(last: int, times: Seq<int>, cooldown: int)
    requires
        cooldown >= 0,
        nondecreasing(times),
        times.len() > 0 ==> times[times.len() - 1] - times[0] < cooldown,
    ensures
        shots(last, times, cooldown) <= 1,
    decreases times.len(),
{
    if times.len() > 0 {
        let rest = times.drop_first();
        if may_fire(true, last, times[0], cooldown) {
            assert forall|i: int| 0 <= i < rest.len() implies since(times[0], #[trigger] rest[i])
                <= cooldown by {
                assert(rest[i] == times[i + 1]);
                assert(times[0] <= times[i + 1] <= times[times.len() - 1]);
            }
            lemma_no_shots(times[0], rest, cooldown);
        } else {
            assert(nondecreasing(rest)) by {
                assert forall|i: int, j: int| 0 <= i <= j < rest.len() implies rest[i]
                    <= rest[j] by {
                    assert(rest[i] == times[i + 1] && rest[j] == times[j + 1]);
                }
            }
            if rest.len() > 0 {
                assert(rest[0] == times[1]);
                assert(rest[rest.len() - 1] == times[times.len() - 1]);
                assert(times[0] <= times[1]);
            }
            lemma_one_shot_per_window(last, rest, cooldown);
        }
    }
}

} // verus!
