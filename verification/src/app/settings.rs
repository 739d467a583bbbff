//! The settings overlay's lines and the interval ladder.

use vstd::prelude::*;

use crate::num;

verus! {

/// One editable line in the settings overlay.
///
/// Derived from the config on every frame rather than stored, so an external
/// `config.toml` edit that adds or removes a provider cannot leave the cursor
/// pointing at a row that no longer exists.
#[derive(Debug, Clone, Copy, PartialEq, Eq, Structural)]
pub enum SettingsRow {
    /// The global poll interval.
    GlobalInterval,
    /// Whether a provider is polled, by index into `ConfigView::providers`.
    ProviderEnabled(usize),
    /// A provider's interval override, by the same index.
    ProviderInterval(usize),
}

/// Intervals a keypress moves between, in seconds.
///
/// A ladder rather than ±1s: one press should be a change worth making, and
/// the bottom rung is the daemon's own floor, so the overlay cannot propose a
/// value that would come back rejected.
pub const INTERVAL_RUNGS: [u32; 10] = [10, 15, 30, 60, 120, 300, 600, 900, 1800, 3600];

/// How many of the first `n` rungs lie below `current`.
pub open spec fn rungs_below(current: u32, n: nat) -> int
    decreases n,
{
    if n == 0 {
        0
    } else {
        rungs_below(current, (n - 1) as nat) + if INTERVAL_RUNGS@[n - 1] < current {
            1int
        } else {
            0
        }
    }
}

/// The rung `delta` steps from `current`: along the ladder from a rung, to the
/// neighbouring rung in the requested direction from between two, and never
/// past either end.
pub open spec fn stepped(current: u32, delta: int) -> u32 {
    let below = rungs_below(current, 10);
    let target = if below < 10 && INTERVAL_RUNGS@[below] == current {
        below + delta
    } else if delta > 0 {
        below
    } else {
        below - 1
    };
    INTERVAL_RUNGS@[num::limited(target, 0, 9)]
}

/// The rung `delta` steps from `current`, clamped at both ends. A value
/// between rungs (hand-written in `config.toml`) moves to the neighbouring
/// rung in the requested direction rather than snapping backwards.
pub fn step_interval(current: u32, delta: isize) -> (r: u32)
    ensures
        r == stepped(current, delta as int),
{
    let mut i: usize = 0;
    while i < 10 && INTERVAL_RUNGS[i] < current
        invariant
            i <= 10,
            rungs_below(current, i as nat) == i,
        decreases 10 - i,
    {
        i += 1;
    }
    proof {
        rungs_below_stops(current, i as nat, 10);
    }
    let on_rung = i < 10 && INTERVAL_RUNGS[i] == current;
    let target: i128 = if on_rung {
        i as i128 + delta as i128
    } else if delta > 0 {
        i as i128
    } else {
        i as i128 - 1
    };
    INTERVAL_RUNGS[num::limit(target, 0, 9) as usize]
}

proof fn rungs_below_stops(current: u32, i: nat, n: nat)
    requires
        i <= n <= 10,
        rungs_below(current, i) == i,
        i < 10 ==> INTERVAL_RUNGS@[i as int] >= current,
    ensures
        rungs_below(current, n) == i,
    decreases n,
{
    if i < n {
        rungs_below_stops(current, i, (n - 1) as nat);
        ladder_ascends(i as int, n - 1);
    }
}

/// The ladder's rungs ascend.
pub proof fn ladder_ascends(i: int, j: int)
    requires
        0 <= i <= j < 10,
    ensures
        INTERVAL_RUNGS@[i] <= INTERVAL_RUNGS@[j],
        i < j ==> INTERVAL_RUNGS@[i] < INTERVAL_RUNGS@[j],
{
}

/// How many rungs lie below `current` settles where it stands on the ladder.
proof fn rungs_below_places(current: u32, n: nat)
    requires
        n <= 10,
    ensures
        ({
            let b = rungs_below(current, n);
            &&& 0 <= b <= n
            &&& forall|i: int| 0 <= i < b ==> INTERVAL_RUNGS@[i] < current
            &&& forall|i: int| b <= i < n ==> INTERVAL_RUNGS@[i] >= current
        }),
    decreases n,
{
    if n > 0 {
        rungs_below_places(current, (n - 1) as nat);
        assert forall|i: int| 0 <= i < n - 1 && INTERVAL_RUNGS@[n - 1] < current implies
            #[trigger] INTERVAL_RUNGS@[i] < current by {
            ladder_ascends(i, n - 1);
        }
    }
}

/// Every step lands on a rung: no press proposes any other interval.
pub proof fn a_step_lands_on_a_rung(current: u32, delta: int)
    ensures
        exists|i: int| 0 <= i < 10 && stepped(current, delta) == #[trigger] INTERVAL_RUNGS@[i],
{
    rungs_below_places(current, 10);
    let below = rungs_below(current, 10);
    let target = if below < 10 && INTERVAL_RUNGS@[below] == current {
        below + delta
    } else if delta > 0 {
        below
    } else {
        below - 1
    };
    assert(stepped(current, delta) == INTERVAL_RUNGS@[num::limited(target, 0, 9)]);
}

/// A step up lengthens every interval short of the top rung, and a step down
/// shortens every interval past the bottom one.
pub proof fn a_step_moves_its_way(current: u32, delta: int)
    ensures
        delta > 0 && current < INTERVAL_RUNGS@[9] ==> stepped(current, delta) > current,
        delta < 0 && current > INTERVAL_RUNGS@[0] ==> stepped(current, delta) < current,
{
    rungs_below_places(current, 10);
    let below = rungs_below(current, 10);
    if delta > 0 && current < INTERVAL_RUNGS@[9] {
        if INTERVAL_RUNGS@[below] == current {
            ladder_ascends(below, num::limited(below + delta, 0, 9));
        }
    }
    if delta < 0 && current > INTERVAL_RUNGS@[0] {
        if below < 10 && INTERVAL_RUNGS@[below] == current {
            ladder_ascends(num::limited(below + delta, 0, 9), below);
        }
    }
}

/// One step down undoes one step up, anywhere below the top rung.
pub proof fn a_step_down_undoes_a_step_up(i: int)
    requires
        0 <= i < 9,
    ensures
        stepped(INTERVAL_RUNGS@[i], 1) == INTERVAL_RUNGS@[i + 1],
        stepped(INTERVAL_RUNGS@[i + 1], -1) == INTERVAL_RUNGS@[i],
{
    rungs_below_places(INTERVAL_RUNGS@[i], 10);
    rungs_below_places(INTERVAL_RUNGS@[i + 1], 10);
    let a = rungs_below(INTERVAL_RUNGS@[i], 10);
    let b = rungs_below(INTERVAL_RUNGS@[i + 1], 10);
    assert(a == i) by {
        if a < i {
            ladder_ascends(a, i);
        }
    }
    assert(b == i + 1) by {
        if b < i + 1 {
            ladder_ascends(b, i + 1);
        }
    }
}

/// The cadences there are.
pub proof fn the_rungs_of_the_ladder()
    ensures
        INTERVAL_RUNGS@ == seq![10u32, 15, 30, 60, 120, 300, 600, 900, 1800, 3600],
{
}

/// A step up is to the smallest cadence on the ladder above the current one, and
/// a step down to the greatest below it; past its ends the ladder holds still,
/// or is joined at the end that is nearest.
pub proof fn a_step_is_to_the_next_rung(current: u32, rung: int)
    requires
        0 <= rung < 10,
    ensures
        INTERVAL_RUNGS@[rung] > current ==> current < stepped(current, 1) <= INTERVAL_RUNGS@[rung],
        INTERVAL_RUNGS@[rung] < current ==> INTERVAL_RUNGS@[rung] <= stepped(current, -1) < current,
        current >= 3600 ==> stepped(current, 1) == 3600,
        current <= 10 ==> stepped(current, -1) == 10,
{
    reveal_with_fuel(rungs_below, 11);
}

/// From a rung, as many rungs are taken as are asked for, as far as there are
/// any; from between two rungs, the next one that way, however many.
pub proof fn as_many_rungs_as_asked_for(current: u32, rung: int, delta: int)
    requires
        0 <= rung < 10,
        delta != 0,
    ensures
        0 <= rung + delta < 10 ==> stepped(INTERVAL_RUNGS@[rung], delta) == INTERVAL_RUNGS@[rung
            + delta],
        rung + delta >= 10 ==> stepped(INTERVAL_RUNGS@[rung], delta) == 3600,
        rung + delta < 0 ==> stepped(INTERVAL_RUNGS@[rung], delta) == 10,
        (forall|i: int| 0 <= i < 10 ==> #[trigger] INTERVAL_RUNGS@[i] != current) ==> stepped(
            current,
            delta,
        ) == if delta > 0 {
            stepped(current, 1)
        } else {
            stepped(current, -1)
        },
{
    reveal_with_fuel(rungs_below, 11);
}

} // verus!
