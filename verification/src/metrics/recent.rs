//! The newest unbroken stretch of a window's series.

use vstd::prelude::*;

use crate::amount::Amount;
use crate::domain;
use crate::domain::QuotaSnapshot;
use crate::metrics::window;
use crate::metrics::window::EffectiveWindow;
use crate::num;
use crate::order;
use crate::order::Timed;
use crate::rollover::RESET_TOLERANCE;
use crate::time;
use crate::time::Timestamp;

verus! {

/// Shortest stretch of series a rate is worth deriving from, in seconds. Below
/// this, one poll's rounding is most of the signal.
pub const MIN_SAMPLE_SECS: i64 = 300;

/// How far usage may slip before the fall counts as a break in the series: the
/// bit pattern of five thousandths.
///
/// Half of the last digit the row prints. A revision this small cannot change
/// what the user sees, but cutting the stretch at it can: the field vanishes,
/// or survives at a rate re-scaled over the few readings left after the slip.
pub const FALL_EPSILON: u64 = 0x3f74_7ae1_47ae_147b;

/// How long a hole in the series may be before the two sides of it stop being
/// one measurement, in nanoseconds: four missed polls, and never under ten
/// minutes so a fast cadence does not make the field flicker on one dropped
/// request.
///
/// Derived from the account's own cadence rather than fixed, so a user polling
/// every ten minutes is not permanently "stale" while one polling every thirty
/// seconds gets a rate averaged over an outage.
pub fn gap_tolerance(poll_interval_secs: u32) -> (r: i128)
    ensures
        r == (if poll_interval_secs * 4 > 600 {
            poll_interval_secs * 4
        } else {
            600
        }) * time::NANOS_PER_SEC,
{
    let secs: i128 = poll_interval_secs as i128 * 4;
    if secs > 600 {
        secs * time::NANOS_PER_SEC
    } else {
        600 * time::NANOS_PER_SEC
    }
}

/// How far back a "recent" rate looks, in seconds: a tenth of the window, but
/// never so short that two polls dominate it, nor so long that recent stops
/// meaning anything. A 5-hour window looks back 30 minutes, a weekly one 12
/// hours.
pub open spec fn lookback(span_secs: int) -> int {
    num::limited(num::truncated(span_secs, 10), 900, 43_200)
}

/// The instant the recent stretch may not reach behind: the lookback, or the
/// window's own start.
pub open spec fn floor(w: EffectiveWindow, now: Timestamp) -> int {
    let back = now.at() - lookback(w.span_secs()) * time::NANOS_PER_SEC;
    if back > w.start.at() {
        back
    } else {
        w.start.at()
    }
}

/// Whether a reading was taken inside the window as it stands now, judged by
/// the reset instant it carried — the only signal a lone snapshot has.
///
/// Note what this cannot see: an unannounced restart leaves `reset_at` exactly
/// where it was, so both sides of one pass this test. Catching those is what
/// [`recent_stretch`]'s cut on a falling reading is for; the two are
/// complementary, not redundant.
pub open spec fn same_window(p: QuotaSnapshot, w: EffectiveWindow) -> bool {
    p.reset_at matches Some(theirs) && -RESET_TOLERANCE <= theirs.at() - w.reset_at.at()
        <= RESET_TOLERANCE
}

/// Whether a reading belongs to the recent run.
pub open spec fn is_recent(p: QuotaSnapshot, w: EffectiveWindow, now: Timestamp) -> bool {
    &&& p.window@ == w.window@
    &&& floor(w, now) <= p.ts.at() <= now.at()
    &&& same_window(p, w)
    &&& domain::utilization_divisor(p.unit, p.limit) is Some
}

/// A reading of the run: which it is, and when it was taken.
#[derive(Debug, Clone, Copy, PartialEq, Eq, Structural)]
pub struct RunPoint {
    /// Its place among the readings given.
    pub index: usize,
    /// When it was taken.
    pub ts: Timestamp,
}

impl Timed for RunPoint {
    open spec fn when(&self) -> int {
        self.ts.at()
    }

    fn when_nanos(&self) -> (r: i128) {
        self.ts.nanos_since_epoch()
    }
}

/// Which of the first `n` readings belong to the recent run.
pub open spec fn recent_among(
    points: Seq<QuotaSnapshot>,
    w: EffectiveWindow,
    now: Timestamp,
    n: nat,
) -> Seq<RunPoint>
    decreases n,
{
    if n == 0 {
        Seq::empty()
    } else {
        let rest = recent_among(points, w, now, (n - 1) as nat);
        if is_recent(points[n - 1], w, now) {
            rest.push(RunPoint { index: (n - 1) as usize, ts: points[n - 1].ts })
        } else {
            rest
        }
    }
}

/// A run without the readings taken at the same instant as the one before
/// them.
pub open spec fn deduped(run: Seq<RunPoint>) -> Seq<RunPoint>
    decreases run.len(),
{
    if run.len() == 0 {
        Seq::empty()
    } else {
        let rest = deduped(run.drop_last());
        if run.len() > 1 && run[run.len() - 2].ts.at() == run.last().ts.at() {
            rest
        } else {
            rest.push(run.last())
        }
    }
}

/// The readings the recent stretch is looked for in: those of this window,
/// inside the lookback, in time order, each instant once.
pub open spec fn run_of(points: Seq<QuotaSnapshot>, w: EffectiveWindow, now: Timestamp) -> Seq<
    RunPoint,
> {
    deduped(order::in_order(recent_among(points, w, now, points.len())))
}

fn recent(p: &QuotaSnapshot, w: &EffectiveWindow, now: Timestamp) -> (r: bool)
    ensures
        r == is_recent(*p, *w, now),
{
    if !p.window.same(&w.window) {
        return false;
    }
    let back: i128 = num::limit(num::truncated_div(w.whole_span() as i128, 10), 900, 43_200);
    let at: i128 = p.ts.nanos_since_epoch();
    let since: i128 = now.nanos_since_epoch() - back * time::NANOS_PER_SEC;
    if at < since || at < w.start.nanos_since_epoch() || at > now.nanos_since_epoch() {
        return false;
    }
    match p.reset_at {
        None => false,
        Some(theirs) => {
            let apart: i128 = theirs.since(w.reset_at);
            -RESET_TOLERANCE <= apart && apart <= RESET_TOLERANCE && p.divisor().is_some()
        },
    }
}

/// The readings the recent stretch is looked for in. Sorted and deduplicated,
/// because nothing in the protocol promises an ordering and a repeated poll is
/// not a second measurement. Empty for a window of no length.
pub fn recent_run(window: &EffectiveWindow, points: &[QuotaSnapshot], now: Timestamp) -> (r: Vec<
    RunPoint,
>)
    ensures
        r@ == if window.span_secs() <= 0 {
            Seq::empty()
        } else {
            run_of(points@, *window, now)
        },
{
    let mut found: Vec<RunPoint> = Vec::new();
    if window.whole_span() <= 0 {
        return found;
    }
    let mut i: usize = 0;
    while i < points.len()
        invariant
            i <= points@.len(),
            found@ == recent_among(points@, *window, now, i as nat),
        decreases points@.len() - i,
    {
        if recent(&points[i], window, now) {
            found.push(RunPoint { index: i, ts: points[i].ts });
        }
        i += 1;
    }
    let sorted = order::by_time(found);
    let mut out: Vec<RunPoint> = Vec::new();
    let mut k: usize = 0;
    assert(sorted@.take(0) =~= Seq::empty());
    while k < sorted.len()
        invariant
            k <= sorted@.len(),
            sorted@ == order::in_order(recent_among(points@, *window, now, points@.len())),
            out@ == deduped(sorted@.take(k as int)),
        decreases sorted@.len() - k,
    {
        let ghost upto = sorted@.take(k + 1);
        assert(upto.drop_last() =~= sorted@.take(k as int));
        assert(upto.last() == sorted@[k as int]);
        if k == 0 || !sorted[k - 1].ts.same(sorted[k].ts) {
            out.push(sorted[k]);
        }
        k += 1;
    }
    assert(sorted@.take(k as int) =~= sorted@);
    out
}

/// Whether the series cannot be read across the step to reading `k`: a hole
/// longer than the tolerance, or a fall in usage past the epsilon.
/// `floors[k]` is reading `k`'s utilization less [`FALL_EPSILON`].
pub open spec fn breaks_at(
    run: Seq<RunPoint>,
    used: Seq<Amount>,
    floors: Seq<Amount>,
    max_gap: int,
    k: int,
) -> bool {
    ||| run[k].ts.at() - run[k - 1].ts.at() > max_gap
    ||| used[k].lt(floors[k - 1])
}

/// Where the unbroken stretch that ends at reading `k` begins.
pub open spec fn stretch_start(
    run: Seq<RunPoint>,
    used: Seq<Amount>,
    floors: Seq<Amount>,
    max_gap: int,
    k: int,
) -> int
    decreases k,
{
    if k <= 0 {
        0
    } else if breaks_at(run, used, floors, max_gap, k) {
        k
    } else {
        stretch_start(run, used, floors, max_gap, k - 1)
    }
}

/// The newest unbroken stretch of a run.
#[derive(Debug, Clone, Copy, PartialEq, Eq, Structural)]
pub struct Stretch {
    /// The place of its first reading in the run.
    pub first: usize,
    /// The place of its newest reading in the run.
    pub newest: usize,
    /// Seconds between the two.
    pub elapsed: i64,
    /// Seconds in the window.
    pub span: i64,
}

/// The newest stretch of a run that a rate can be read off: it is not stale,
/// and long enough.
pub open spec fn stretch_of(
    w: EffectiveWindow,
    run: Seq<RunPoint>,
    used: Seq<Amount>,
    floors: Seq<Amount>,
    max_gap: int,
    now: Timestamp,
) -> Option<Stretch> {
    let newest = run.len() - 1;
    let first = stretch_start(run, used, floors, max_gap, newest);
    let elapsed = window::secs_of(run[newest].ts.at() - run[first].ts.at());
    if w.span_secs() <= 0 || run.len() == 0 || now.at() - run[newest].ts.at() > max_gap || elapsed
        < MIN_SAMPLE_SECS {
        None
    } else {
        Some(
            Stretch {
                first: first as usize,
                newest: newest as usize,
                elapsed: elapsed as i64,
                span: w.span_secs() as i64,
            },
        )
    }
}

/// The newest unbroken stretch of the series, whose burn is the recent pace:
/// what its readings climbed, over its seconds, times the window's.
///
/// What counts as "the recent end" is the question the whole function is
/// about, because a series is not a continuous record. The daemon stops, and
/// resumes hours later; the provider restarts the window without saying so, or
/// revises a reading downwards. None of those is a measurement, and averaging
/// across one invents a rate that was never burnt — so the stretch is walked
/// backwards from the newest reading and cut at the first step that crosses
/// one.
///
/// `run` is what [`recent_run`] gave, `used` the utilization of each of its
/// readings and `floors` each of those less [`FALL_EPSILON`]. `None` when the
/// newest reading is itself older than `max_gap`: a series that stopped has no
/// current rate, and printing the last one it had under a `now` label is worse
/// than printing nothing.
pub fn recent_stretch(
    window: &EffectiveWindow,
    run: &[RunPoint],
    used: &[Amount],
    floors: &[Amount],
    max_gap: i128,
    now: Timestamp,
) -> (r: Option<Stretch>)
    requires
        used@.len() == run@.len(),
        floors@.len() == run@.len(),
    ensures
        r == stretch_of(*window, run@, used@, floors@, max_gap as int, now),
        r matches Some(s) ==> s.first <= s.newest < run@.len() && s.elapsed >= MIN_SAMPLE_SECS,
{
    let span: i64 = window.whole_span();
    if span <= 0 || run.len() == 0 {
        return None;
    }
    let newest: usize = run.len() - 1;
    if now.since(run[newest].ts) > max_gap {
        return None;
    }
    // Walk back from the newest while each step is one the series can be read
    // across: no hole longer than the tolerance, and no fall in usage.
    let mut first: usize = newest;
    while first > 0 && !(run[first].ts.since(run[first - 1].ts) > max_gap || used[first].below(
        floors[first - 1],
    ))
        invariant
            first <= newest,
            newest < run@.len(),
            used@.len() == run@.len(),
            floors@.len() == run@.len(),
            stretch_start(run@, used@, floors@, max_gap as int, newest as int) == stretch_start(
                run@,
                used@,
                floors@,
                max_gap as int,
                first as int,
            ),
        decreases first,
    {
        first -= 1;
    }
    let elapsed: i128 = time::whole_secs(run[newest].ts.since(run[first].ts));
    if elapsed < MIN_SAMPLE_SECS as i128 {
        return None;
    }
    Some(Stretch { first, newest, elapsed: elapsed as i64, span })
}

/// A stretch never reaches across an outage or a fall: every step inside it
/// is one the series can be read across, and it begins where the series does
/// or right after a step that cannot.
pub proof fn a_stretch_is_unbroken(
    run: Seq<RunPoint>,
    used: Seq<Amount>,
    floors: Seq<Amount>,
    max_gap: int,
    k: int,
)
    requires
        0 <= k < run.len(),
    ensures
        ({
            let first = stretch_start(run, used, floors, max_gap, k);
            &&& 0 <= first <= k
            &&& forall|j: int|
                first < j <= k ==> !#[trigger] breaks_at(run, used, floors, max_gap, j)
            &&& first > 0 ==> breaks_at(run, used, floors, max_gap, first)
        }),
    decreases k,
{
    if k > 0 && !breaks_at(run, used, floors, max_gap, k) {
        a_stretch_is_unbroken(run, used, floors, max_gap, k - 1);
    }
}

/// Whether a run has a reading at an instant.
pub open spec fn has_instant(run: Seq<RunPoint>, at: int) -> bool {
    exists|j: int| 0 <= j < run.len() && (#[trigger] run[j]).ts.at() == at
}

proof fn prefix_is_ordered(run: Seq<RunPoint>)
    requires
        order::is_ordered(run),
        run.len() > 0,
    ensures
        order::is_ordered(run.drop_last()),
{
    let init = run.drop_last();
    assert forall|i: int, j: int| 0 <= i < j < init.len() implies (#[trigger] init[i]).when() <= (
    #[trigger] init[j]).when() by {
        assert(run[i].when() <= run[j].when());
    }
}

proof fn dedup_ascends(run: Seq<RunPoint>)
    requires
        order::is_ordered(run),
    ensures
        run.len() > 0 ==> deduped(run).len() > 0 && deduped(run).last().ts.at()
            == run.last().ts.at(),
        forall|i: int, j: int|
            0 <= i < j < deduped(run).len() ==> (#[trigger] deduped(run)[i]).ts.at() < (
            #[trigger] deduped(run)[j]).ts.at(),
    decreases run.len(),
{
    if run.len() > 0 {
        let init = run.drop_last();
        let rest = deduped(init);
        let out = deduped(run);
        prefix_is_ordered(run);
        dedup_ascends(init);
        if out.len() > rest.len() && init.len() > 0 {
            assert(run[run.len() - 2].when() <= run[run.len() - 1].when());
            assert(init.last() == run[run.len() - 2]);
            assert forall|i: int, j: int| 0 <= i < j < out.len() implies (
            #[trigger] out[i]).ts.at() < (#[trigger] out[j]).ts.at() by {
                if j == rest.len() {
                    assert(i == rest.len() - 1 || rest[i].ts.at() < rest[rest.len() - 1].ts.at());
                }
            }
        }
    }
}

proof fn dedup_keeps_members(run: Seq<RunPoint>, p: RunPoint)
    requires
        deduped(run).contains(p),
    ensures
        run.contains(p),
    decreases run.len(),
{
    if run.len() > 0 {
        let init = run.drop_last();
        let rest = deduped(init);
        let out = deduped(run);
        let i = choose|i: int| 0 <= i < out.len() && out[i] == p;
        if i < rest.len() {
            assert(rest[i] == p);
            dedup_keeps_members(init, p);
            let k = choose|k: int| 0 <= k < init.len() && init[k] == p;
            assert(run[k] == p);
        } else {
            assert(run[run.len() - 1] == p);
        }
    }
}

proof fn dedup_keeps_instants(run: Seq<RunPoint>, i: int)
    requires
        order::is_ordered(run),
        0 <= i < run.len(),
    ensures
        has_instant(deduped(run), run[i].ts.at()),
    decreases run.len(),
{
    let init = run.drop_last();
    let rest = deduped(init);
    let out = deduped(run);
    if i < run.len() - 1 {
        prefix_is_ordered(run);
        dedup_keeps_instants(init, i);
        let j = choose|j: int| 0 <= j < rest.len() && (#[trigger] rest[j]).ts.at()
            == run[i].ts.at();
        assert(out[j].ts.at() == run[i].ts.at());
    } else {
        dedup_ascends(run);
        assert(out[out.len() - 1].ts.at() == run[i].ts.at());
    }
}

/// The run lists each instant once, oldest first, whatever order the readings
/// came in and however often each was repeated.
pub proof fn the_run_ascends(points: Seq<QuotaSnapshot>, w: EffectiveWindow, now: Timestamp)
    ensures
        forall|i: int, j: int|
            0 <= i < j < run_of(points, w, now).len() ==> (#[trigger] run_of(
                points,
                w,
                now,
            )[i]).ts.at() < (#[trigger] run_of(points, w, now)[j]).ts.at(),
{
    let found = recent_among(points, w, now, points.len());
    order::ordered_once_put_in_order(found);
    dedup_ascends(order::in_order(found));
}

/// Every reading of the run is a recent reading of this window.
pub proof fn the_run_holds_only_recent_readings(
    points: Seq<QuotaSnapshot>,
    w: EffectiveWindow,
    now: Timestamp,
    i: int,
)
    requires
        points.len() <= usize::MAX,
        0 <= i < run_of(points, w, now).len(),
    ensures
        ({
            let p = run_of(points, w, now)[i];
            &&& p.index < points.len()
            &&& p.ts == points[p.index as int].ts
            &&& is_recent(points[p.index as int], w, now)
        }),
{
    let found = recent_among(points, w, now, points.len());
    let sorted = order::in_order(found);
    let p = run_of(points, w, now)[i];
    order::ordering_keeps_everything(found);
    dedup_keeps_members(sorted, p);
    same_members(sorted, found, p);
    found_are_recent(points, w, now, points.len());
    let k = choose|k: int| 0 <= k < found.len() && found[k] == p;
    assert(found[k] == p);
}

/// Every instant at which there is a recent reading of this window is in the
/// run.
pub proof fn the_run_holds_every_recent_instant(
    points: Seq<QuotaSnapshot>,
    w: EffectiveWindow,
    now: Timestamp,
    k: int,
)
    requires
        0 <= k < points.len() <= usize::MAX,
        is_recent(points[k], w, now),
    ensures
        has_instant(run_of(points, w, now), points[k].ts.at()),
{
    let found = recent_among(points, w, now, points.len());
    let sorted = order::in_order(found);
    let p = RunPoint { index: k as usize, ts: points[k].ts };
    order::ordered_once_put_in_order(found);
    order::ordering_keeps_everything(found);
    found_are_recent(points, w, now, points.len());
    assert(found.contains(p));
    same_members(found, sorted, p);
    let i = choose|i: int| 0 <= i < sorted.len() && sorted[i] == p;
    dedup_keeps_instants(sorted, i);
}

proof fn same_members(a: Seq<RunPoint>, b: Seq<RunPoint>, p: RunPoint)
    requires
        a.to_multiset() == b.to_multiset(),
        a.contains(p),
    ensures
        b.contains(p),
{
    a.to_multiset_ensures();
    b.to_multiset_ensures();
    vstd::seq_lib::to_multiset_contains(a, p);
    vstd::seq_lib::to_multiset_contains(b, p);
}

proof fn found_are_recent(
    points: Seq<QuotaSnapshot>,
    w: EffectiveWindow,
    now: Timestamp,
    n: nat,
)
    requires
        n <= points.len() <= usize::MAX,
    ensures
        forall|i: int|
            0 <= i < recent_among(points, w, now, n).len() ==> {
                let p = #[trigger] recent_among(points, w, now, n)[i];
                &&& p.index < n
                &&& p.ts == points[p.index as int].ts
                &&& is_recent(points[p.index as int], w, now)
            },
        forall|k: int|
            0 <= k < n && is_recent(#[trigger] points[k], w, now) ==> recent_among(
                points,
                w,
                now,
                n,
            ).contains(RunPoint { index: k as usize, ts: points[k].ts }),
    decreases n,
{
    if n > 0 {
        found_are_recent(points, w, now, (n - 1) as nat);
        let rest = recent_among(points, w, now, (n - 1) as nat);
        let all = recent_among(points, w, now, n);
        assert forall|k: int| 0 <= k < n && is_recent(
            #[trigger] points[k],
            w,
            now,
        ) implies all.contains(RunPoint { index: k as usize, ts: points[k].ts }) by {
            let p = RunPoint { index: k as usize, ts: points[k].ts };
            if k < n - 1 {
                assert(rest.contains(p));
                let i = choose|i: int| 0 <= i < rest.len() && rest[i] == p;
                assert(all[i] == p);
            } else {
                assert(all[all.len() - 1] == p);
            }
        }
        assert forall|i: int| 0 <= i < all.len() implies {
            let p = #[trigger] all[i];
            &&& p.index < n
            &&& p.ts == points[p.index as int].ts
            &&& is_recent(points[p.index as int], w, now)
        } by {
            if i < rest.len() {
                assert(all[i] == rest[i]);
            }
        }
    }
}

/// A series that stopped has no current rate: once the newest reading is older
/// than the tolerance there is no stretch to read one off.
pub proof fn a_stale_series_has_no_stretch(
    w: EffectiveWindow,
    run: Seq<RunPoint>,
    used: Seq<Amount>,
    floors: Seq<Amount>,
    max_gap: int,
    now: Timestamp,
)
    requires
        run.len() == 0 || now.at() - run.last().ts.at() > max_gap,
    ensures
        stretch_of(w, run, used, floors, max_gap, now) is None,
{
}

proof fn skipping_moves_the_start(
    run: Seq<RunPoint>,
    used: Seq<Amount>,
    floors: Seq<Amount>,
    max_gap: int,
    k: int,
    j: int,
)
    requires
        0 < k <= j < run.len(),
        used.len() == run.len(),
        floors.len() == run.len(),
        breaks_at(run, used, floors, max_gap, k),
    ensures
        stretch_start(run, used, floors, max_gap, j) == k + stretch_start(
            run.skip(k),
            used.skip(k),
            floors.skip(k),
            max_gap,
            j - k,
        ),
    decreases j,
{
    if j > k {
        assert(breaks_at(run.skip(k), used.skip(k), floors.skip(k), max_gap, j - k) == breaks_at(
            run,
            used,
            floors,
            max_gap,
            j,
        ));
        if !breaks_at(run, used, floors, max_gap, j) {
            skipping_moves_the_start(run, used, floors, max_gap, k, j - 1);
        }
    }
}

/// Only the newest unbroken stretch counts: leaving out everything before an
/// outage, or before a fall in usage, does not move the rate.
pub proof fn nothing_before_a_break_counts(
    w: EffectiveWindow,
    run: Seq<RunPoint>,
    used: Seq<Amount>,
    floors: Seq<Amount>,
    max_gap: int,
    now: Timestamp,
    k: int,
)
    requires
        0 < k < run.len() <= usize::MAX,
        used.len() == run.len(),
        floors.len() == run.len(),
        breaks_at(run, used, floors, max_gap, k),
    ensures
        match (
            stretch_of(w, run, used, floors, max_gap, now),
            stretch_of(w, run.skip(k), used.skip(k), floors.skip(k), max_gap, now),
        ) {
            (Some(whole), Some(trimmed)) => {
                &&& whole.first == trimmed.first + k
                &&& whole.newest == trimmed.newest + k
                &&& whole.elapsed == trimmed.elapsed
                &&& whole.span == trimmed.span
            },
            (None, None) => true,
            _ => false,
        },
{
    let newest = run.len() - 1;
    skipping_moves_the_start(run, used, floors, max_gap, k, newest);
    a_stretch_is_unbroken(run.skip(k), used.skip(k), floors.skip(k), max_gap, newest - k);
    let first = stretch_start(run.skip(k), used.skip(k), floors.skip(k), max_gap, newest - k);
    assert(run.skip(k)[first] == run[first + k]);
    assert(run.skip(k)[newest - k] == run[newest]);
}

/// Whether a run lists each of its instants once, oldest first.
pub open spec fn ascends(run: Seq<RunPoint>) -> bool {
    forall|i: int, j: int|
        0 <= i < j < run.len() ==> (#[trigger] run[i]).ts.at() < (#[trigger] run[j]).ts.at()
}

/// Two runs that each list the same instants once, oldest first, list them
/// alike.
proof fn instants_fix_a_run(a: Seq<RunPoint>, b: Seq<RunPoint>)
    requires
        ascends(a),
        ascends(b),
        forall|t: int| has_instant(a, t) == has_instant(b, t),
    ensures
        a.len() == b.len(),
        forall|i: int| 0 <= i < a.len() ==> (#[trigger] a[i]).ts.at() == b[i].ts.at(),
    decreases a.len(),
{
    if a.len() == 0 {
        if b.len() > 0 {
            assert(has_instant(b, b[0].ts.at()));
            assert(has_instant(a, b[0].ts.at()));
        }
    } else {
        let t = a.last().ts.at();
        assert(a[a.len() - 1].ts.at() == t);
        assert(has_instant(a, t));
        assert(has_instant(b, t));
        let u = b.last().ts.at();
        assert(b[b.len() - 1].ts.at() == u);
        assert(has_instant(b, u));
        assert(has_instant(a, u));
        let i = choose|i: int| 0 <= i < b.len() && (#[trigger] b[i]).ts.at() == t;
        let j = choose|j: int| 0 <= j < a.len() && (#[trigger] a[j]).ts.at() == u;
        assert(t == u) by {
            assert(i == b.len() - 1 || b[i].ts.at() < b[b.len() - 1].ts.at());
            assert(j == a.len() - 1 || a[j].ts.at() < a[a.len() - 1].ts.at());
        }
        let (c, d) = (a.drop_last(), b.drop_last());
        assert(ascends(c)) by {
            assert forall|i: int, j: int| 0 <= i < j < c.len() implies (#[trigger] c[i]).ts.at() < (
            #[trigger] c[j]).ts.at() by {
                assert(a[i].ts.at() < a[j].ts.at());
            }
        }
        assert(ascends(d)) by {
            assert forall|i: int, j: int| 0 <= i < j < d.len() implies (#[trigger] d[i]).ts.at() < (
            #[trigger] d[j]).ts.at() by {
                assert(b[i].ts.at() < b[j].ts.at());
            }
        }
        assert forall|s: int| has_instant(c, s) == has_instant(d, s) by {
            without_the_last(a, s);
            without_the_last(b, s);
        }
        instants_fix_a_run(c, d);
        assert forall|i: int| 0 <= i < a.len() implies (#[trigger] a[i]).ts.at()
            == b[i].ts.at() by {
            if i < a.len() - 1 {
                assert(c[i].ts.at() == d[i].ts.at());
            }
        }
    }
}

proof fn without_the_last(run: Seq<RunPoint>, t: int)
    requires
        ascends(run),
        run.len() > 0,
    ensures
        has_instant(run.drop_last(), t) == (has_instant(run, t) && t != run.last().ts.at()),
{
    let init = run.drop_last();
    if has_instant(init, t) {
        let k = choose|k: int| 0 <= k < init.len() && (#[trigger] init[k]).ts.at() == t;
        assert(run[k].ts.at() == t);
        assert(run[k].ts.at() < run[run.len() - 1].ts.at());
    }
    if has_instant(run, t) && t != run.last().ts.at() {
        let k = choose|k: int| 0 <= k < run.len() && (#[trigger] run[k]).ts.at() == t;
        assert(init[k].ts.at() == t);
    }
}

/// What stands for the utilization of each reading of a run, where `used` says
/// what stands for a reading's.
pub open spec fn read_off(
    points: Seq<QuotaSnapshot>,
    run: Seq<RunPoint>,
    used: spec_fn(QuotaSnapshot) -> Amount,
) -> Seq<Amount> {
    Seq::new(run.len(), |i: int| used(points[run[i].index as int]))
}

/// Whether every recent reading of `points` has its like among those of
/// `others`: one of the same instant and the same utilization.
pub open spec fn covers(
    points: Seq<QuotaSnapshot>,
    others: Seq<QuotaSnapshot>,
    used: spec_fn(QuotaSnapshot) -> Amount,
    w: EffectiveWindow,
    now: Timestamp,
) -> bool {
    forall|k: int|
        0 <= k < points.len() && is_recent(#[trigger] points[k], w, now) ==> exists|m: int|
            {
                &&& 0 <= m < others.len()
                &&& is_recent(#[trigger] others[m], w, now)
                &&& others[m].ts.at() == points[k].ts.at()
                &&& used(others[m]) == used(points[k])
            }
}

/// Whether no two recent readings of one instant differ in utilization.
pub open spec fn agrees(
    points: Seq<QuotaSnapshot>,
    used: spec_fn(QuotaSnapshot) -> Amount,
    w: EffectiveWindow,
    now: Timestamp,
) -> bool {
    forall|i: int, j: int|
        0 <= i < points.len() && 0 <= j < points.len() && is_recent(#[trigger] points[i], w, now)
            && is_recent(#[trigger] points[j], w, now) && points[i].ts.at() == points[j].ts.at()
            ==> used(points[i]) == used(points[j])
}

proof fn instants_carry_over(
    points: Seq<QuotaSnapshot>,
    others: Seq<QuotaSnapshot>,
    used: spec_fn(QuotaSnapshot) -> Amount,
    w: EffectiveWindow,
    now: Timestamp,
    t: int,
)
    requires
        points.len() <= usize::MAX,
        others.len() <= usize::MAX,
        covers(points, others, used, w, now),
        has_instant(run_of(points, w, now), t),
    ensures
        has_instant(run_of(others, w, now), t),
{
    let run = run_of(points, w, now);
    let j = choose|j: int| 0 <= j < run.len() && (#[trigger] run[j]).ts.at() == t;
    the_run_holds_only_recent_readings(points, w, now, j);
    let k = run[j].index as int;
    assert(is_recent(points[k], w, now));
    let m = choose|m: int|
        {
            &&& 0 <= m < others.len()
            &&& is_recent(#[trigger] others[m], w, now)
            &&& others[m].ts.at() == points[k].ts.at()
            &&& used(others[m]) == used(points[k])
        };
    the_run_holds_every_recent_instant(others, w, now, m);
}

/// Where a stretch begins depends on when the readings were taken and on their
/// utilization alone.
proof fn instants_fix_a_start(
    a: Seq<RunPoint>,
    b: Seq<RunPoint>,
    used: Seq<Amount>,
    floors: Seq<Amount>,
    max_gap: int,
    k: int,
)
    requires
        k < a.len() == b.len(),
        forall|i: int| 0 <= i < a.len() ==> (#[trigger] a[i]).ts.at() == b[i].ts.at(),
    ensures
        stretch_start(a, used, floors, max_gap, k) == stretch_start(b, used, floors, max_gap, k),
    decreases k,
{
    if k > 0 {
        assert(a[k].ts.at() == b[k].ts.at());
        assert(a[k - 1].ts.at() == b[k - 1].ts.at());
        instants_fix_a_start(a, b, used, floors, max_gap, k - 1);
    }
}

/// The rate does not depend on the order the readings arrive in, nor on how
/// often one is repeated. As long as the same recent readings are there, by
/// instant and utilization, and no two of one instant differ in utilization,
/// the run goes through the same utilizations, and the same stretch of it
/// counts. `used` says what stands for a reading's utilization, and `floor` for
/// a utilization less [`FALL_EPSILON`].
pub proof fn the_stretch_is_the_same_in_any_order(
    points: Seq<QuotaSnapshot>,
    others: Seq<QuotaSnapshot>,
    used: spec_fn(QuotaSnapshot) -> Amount,
    floor: spec_fn(Amount) -> Amount,
    w: EffectiveWindow,
    max_gap: int,
    now: Timestamp,
)
    requires
        points.len() <= usize::MAX,
        others.len() <= usize::MAX,
        covers(points, others, used, w, now),
        covers(others, points, used, w, now),
        agrees(points, used, w, now),
    ensures
        ({
            let (a, b) = (run_of(points, w, now), run_of(others, w, now));
            let (u, v) = (read_off(points, a, used), read_off(others, b, used));
            &&& u == v
            &&& stretch_of(w, a, u, u.map_values(floor), max_gap, now) == stretch_of(
                w,
                b,
                v,
                v.map_values(floor),
                max_gap,
                now,
            )
        }),
{
    let (a, b) = (run_of(points, w, now), run_of(others, w, now));
    let (u, v) = (read_off(points, a, used), read_off(others, b, used));
    the_run_ascends(points, w, now);
    the_run_ascends(others, w, now);
    assert forall|t: int| has_instant(a, t) == has_instant(b, t) by {
        if has_instant(a, t) {
            instants_carry_over(points, others, used, w, now, t);
        }
        if has_instant(b, t) {
            instants_carry_over(others, points, used, w, now, t);
        }
    }
    instants_fix_a_run(a, b);
    assert forall|i: int| 0 <= i < a.len() implies u[i] == v[i] by {
        the_run_holds_only_recent_readings(points, w, now, i);
        the_run_holds_only_recent_readings(others, w, now, i);
        let (n, k) = (a[i].index as int, b[i].index as int);
        assert(is_recent(others[k], w, now));
        let m = choose|m: int|
            {
                &&& 0 <= m < points.len()
                &&& is_recent(#[trigger] points[m], w, now)
                &&& points[m].ts.at() == others[k].ts.at()
                &&& used(points[m]) == used(others[k])
            };
        assert(a[i].ts.at() == b[i].ts.at());
        assert(is_recent(points[n], w, now) && is_recent(points[m], w, now));
    }
    assert(u =~= v);
    if a.len() > 0 {
        let floors = u.map_values(floor);
        let newest = a.len() - 1;
        instants_fix_a_start(a, b, u, floors, max_gap, newest);
        a_stretch_is_unbroken(a, u, floors, max_gap, newest);
        let first = stretch_start(a, u, floors, max_gap, newest);
        assert(a[newest].ts.at() == b[newest].ts.at());
        assert(a[first].ts.at() == b[first].ts.at());
    }
}

/// A series that stopped has no current rate: when every reading of the window
/// up to now is older than the tolerance there is no stretch to read one off.
pub proof fn a_stopped_series_has_no_stretch(
    points: Seq<QuotaSnapshot>,
    used: Seq<Amount>,
    floors: Seq<Amount>,
    w: EffectiveWindow,
    max_gap: int,
    now: Timestamp,
)
    requires
        points.len() <= usize::MAX,
        forall|k: int|
            0 <= k < points.len() && (#[trigger] points[k]).window@ == w.window@
                && points[k].ts.at() <= now.at() ==> now.at() - points[k].ts.at() > max_gap,
    ensures
        stretch_of(w, run_of(points, w, now), used, floors, max_gap, now) is None,
{
    let run = run_of(points, w, now);
    if run.len() > 0 {
        the_run_holds_only_recent_readings(points, w, now, run.len() - 1);
        assert(points[run.last().index as int].window@ == w.window@);
    }
    a_stale_series_has_no_stretch(w, run, used, floors, max_gap, now);
}

/// How far back a rate looks: a tenth of the window, but a quarter of an hour
/// at least and half a day at most; and never behind the window's own start.
/// A reading counts exactly when it is of this window, was taken since then and
/// not after now, carried the window's reset instant to within two minutes, and
/// has a scale to be measured against.
pub proof fn a_reading_is_recent_for_a_tenth_of_the_window(
    p: QuotaSnapshot,
    w: EffectiveWindow,
    now: Timestamp,
)
    requires
        w.start.at() <= w.reset_at.at(),
    ensures
        ({
            let tenth = (w.reset_at.at() - w.start.at()) / 10_000_000_000;
            let age = now.at() - p.ts.at();
            is_recent(p, w, now) <==> {
                &&& p.window@ == w.window@
                &&& w.start.at() <= p.ts.at() <= now.at()
                &&& age <= 43_200_000_000_000
                &&& age <= 900_000_000_000 || age <= tenth * 1_000_000_000
                &&& p.reset_at matches Some(theirs) && -120_000_000_000 <= theirs.at()
                    - w.reset_at.at() <= 120_000_000_000
                &&& p.unit == domain::QuotaUnit::Percent || (p.limit matches Some(l) && 0 < l.bits
                    <= 0x7ff0_0000_0000_0000)
            }
        }),
{
    let length = w.reset_at.at() - w.start.at();
    assert(num::truncated(num::truncated(length, 1_000_000_000), 10) == length / 10_000_000_000);
    domain::readings_are_measured_against_their_scale(p.unit, p.limit);
}

/// No reading of a run is older than a tenth of the window's length, or than a
/// quarter of an hour where a tenth is shorter, or than half a day.
pub proof fn the_run_reaches_back_a_tenth_of_the_window(
    points: Seq<QuotaSnapshot>,
    w: EffectiveWindow,
    now: Timestamp,
    i: int,
)
    requires
        points.len() <= usize::MAX,
        w.start.at() <= w.reset_at.at(),
        0 <= i < run_of(points, w, now).len(),
    ensures
        ({
            let age = now.at() - run_of(points, w, now)[i].ts.at();
            &&& 0 <= age <= 43_200_000_000_000
            &&& age <= 900_000_000_000 || age * 10 <= w.reset_at.at() - w.start.at()
            &&& age <= now.at() - w.start.at()
        }),
{
    the_run_holds_only_recent_readings(points, w, now, i);
    let p = points[run_of(points, w, now)[i].index as int];
    a_reading_is_recent_for_a_tenth_of_the_window(p, w, now);
}

/// Every reading of this window, since its start and up to now, that is no older
/// than a tenth of the window — or a quarter of an hour — nor than half a day,
/// and that carries the window's reset instant and a scale, has its instant in
/// the run.
pub proof fn the_run_misses_nothing_recent(
    points: Seq<QuotaSnapshot>,
    w: EffectiveWindow,
    now: Timestamp,
    k: int,
)
    requires
        0 <= k < points.len() <= usize::MAX,
        w.start.at() <= w.reset_at.at(),
        points[k].window@ == w.window@,
        w.start.at() <= points[k].ts.at() <= now.at(),
        now.at() - points[k].ts.at() <= 43_200_000_000_000,
        now.at() - points[k].ts.at() <= 900_000_000_000 || now.at() - points[k].ts.at() <= (
        w.reset_at.at() - w.start.at()) / 10_000_000_000 * 1_000_000_000,
        points[k].reset_at matches Some(theirs) && -120_000_000_000 <= theirs.at()
            - w.reset_at.at() <= 120_000_000_000,
        points[k].unit == domain::QuotaUnit::Percent || (points[k].limit matches Some(l) && 0
            < l.bits <= 0x7ff0_0000_0000_0000),
    ensures
        exists|j: int|
            0 <= j < run_of(points, w, now).len() && (#[trigger] run_of(points, w, now)[j]).ts.at()
                == points[k].ts.at(),
{
    a_reading_is_recent_for_a_tenth_of_the_window(points[k], w, now);
    the_run_holds_every_recent_instant(points, w, now, k);
}

/// Of several readings of one instant the first one given is the one in the run.
pub proof fn the_first_reading_of_an_instant_counts(
    points: Seq<QuotaSnapshot>,
    w: EffectiveWindow,
    now: Timestamp,
    i: int,
    k: int,
)
    requires
        points.len() <= usize::MAX,
        0 <= i < run_of(points, w, now).len(),
        0 <= k < points.len(),
        is_recent(points[k], w, now),
        points[k].ts.at() == run_of(points, w, now)[i].ts.at(),
    ensures
        run_of(points, w, now)[i].index <= k,
{
    let found = recent_among(points, w, now, points.len());
    let sorted = order::in_order(found);
    let run = run_of(points, w, now);
    let p = RunPoint { index: k as usize, ts: points[k].ts };
    found_are_recent(points, w, now, points.len());
    found_by_index(points, w, now, points.len());
    ties_by_index(found);
    order::ordered_once_put_in_order(found);
    order::ordering_keeps_everything(found);
    assert(found.contains(p));
    same_members(found, sorted, p);
    let m = choose|m: int| 0 <= m < sorted.len() && sorted[m] == p;
    dedup_keeps_the_first(sorted, i, m);
}

proof fn found_by_index(points: Seq<QuotaSnapshot>, w: EffectiveWindow, now: Timestamp, n: nat)
    requires
        n <= points.len() <= usize::MAX,
    ensures
        forall|i: int, j: int|
            0 <= i < j < recent_among(points, w, now, n).len() ==> (#[trigger] recent_among(
                points,
                w,
                now,
                n,
            )[i]).index < (#[trigger] recent_among(points, w, now, n)[j]).index,
    decreases n,
{
    if n > 0 {
        found_by_index(points, w, now, (n - 1) as nat);
        found_are_recent(points, w, now, (n - 1) as nat);
    }
}

/// Points of one instant stay in the order of their indices.
proof fn ties_by_index(s: Seq<RunPoint>)
    requires
        forall|i: int, j: int|
            0 <= i < j < s.len() ==> (#[trigger] s[i]).index < (#[trigger] s[j]).index,
    ensures
        forall|i: int, j: int|
            0 <= i < j < order::in_order(s).len() && (#[trigger] order::in_order(s)[i]).ts.at() == (
            #[trigger] order::in_order(s)[j]).ts.at() ==> order::in_order(s)[i].index
                < order::in_order(s)[j].index,
    decreases s.len(),
{
    if s.len() > 0 {
        let rest = s.drop_first();
        let sorted = order::in_order(rest);
        let out = order::in_order(s);
        assert forall|i: int, j: int| 0 <= i < j < rest.len() implies (#[trigger] rest[i]).index < (
        #[trigger] rest[j]).index by {
            assert(s[i + 1].index < s[j + 1].index);
        }
        ties_by_index(rest);
        order::ordered_once_put_in_order(rest);
        order::ordering_keeps_everything(rest);
        order::the_place_parts_earlier_from_later(sorted, s[0].when());
        let at = order::place(sorted, s[0].when());
        assert forall|i: int, j: int|
            0 <= i < j < out.len() && (#[trigger] out[i]).ts.at() == (#[trigger] out[j]).ts.at() implies out[i].index
            < out[j].index by {
            let x = if i < at {
                i
            } else {
                i - 1
            };
            let y = if j < at {
                j
            } else {
                j - 1
            };
            if i == at {
                assert(out[j] == sorted[y]);
                assert(sorted.contains(sorted[y]));
                same_members(sorted, rest, sorted[y]);
                let q = choose|q: int| 0 <= q < rest.len() && rest[q] == sorted[y];
                assert(s[q + 1] == sorted[y]);
                assert(s[0].index < s[q + 1].index);
            } else if j == at {
                assert(out[i] == sorted[x]);
                assert(sorted[x].when() < s[0].when());
            } else {
                assert(out[i] == sorted[x] && out[j] == sorted[y]);
            }
        }
    }
}

proof fn dedup_keeps_the_first(run: Seq<RunPoint>, i: int, m: int)
    requires
        order::is_ordered(run),
        forall|a: int, b: int|
            0 <= a < b < run.len() && (#[trigger] run[a]).ts.at() == (#[trigger] run[b]).ts.at()
                ==> run[a].index < run[b].index,
        0 <= i < deduped(run).len(),
        0 <= m < run.len(),
        run[m].ts.at() == deduped(run)[i].ts.at(),
    ensures
        deduped(run)[i].index <= run[m].index,
    decreases run.len(),
{
    let init = run.drop_last();
    let rest = deduped(init);
    prefix_is_ordered(run);
    assert forall|a: int, b: int|
        0 <= a < b < init.len() && (#[trigger] init[a]).ts.at() == (#[trigger] init[b]).ts.at() implies init[a].index
        < init[b].index by {
        assert(run[a].index < run[b].index);
    }
    if i < rest.len() {
        if m < init.len() {
            assert(init[m] == run[m]);
            dedup_keeps_the_first(init, i, m);
        } else {
            // The last of the run is of the instant of one before it.
            assert(deduped(run)[i] == rest[i]);
            assert(rest.contains(rest[i]));
            dedup_keeps_members(init, rest[i]);
            let q = choose|q: int| 0 <= q < init.len() && init[q] == rest[i];
            assert(run[q] == rest[i]);
            assert(run[q].index < run[m].index);
        }
    } else {
        // The last of the run is of an instant of its own.
        if m < init.len() {
            let t = run.len() - 1;
            assert(run[m].when() <= run[t - 1].when() || m == t - 1);
            assert(run[t - 1].when() <= run[t].when());
            assert(run[m].ts.at() == run[t].ts.at());
            assert(run[t - 1].ts.at() == run[t].ts.at());
        }
    }
}

/// The stretch a rate is read off: it ends at the newest reading, and goes back
/// as far as no hole is longer than the tolerance and no reading falls below
/// the floor of the one before it. There is one exactly when the newest reading
/// is no older than the tolerance, the stretch is five minutes long or more and
/// the window lasts at least a second.
pub proof fn the_stretch_is_the_newest_unbroken_one(
    w: EffectiveWindow,
    run: Seq<RunPoint>,
    used: Seq<Amount>,
    floors: Seq<Amount>,
    max_gap: int,
    now: Timestamp,
    first: int,
)
    requires
        0 <= first < run.len() <= usize::MAX,
        ascends(run),
        forall|j: int|
            first < j < run.len() ==> (#[trigger] run[j]).ts.at() - run[j - 1].ts.at() <= max_gap
                && !used[j].lt(floors[j - 1]),
        first > 0 ==> run[first].ts.at() - run[first - 1].ts.at() > max_gap || used[first].lt(
            floors[first - 1],
        ),
        w.reset_at.at() - w.start.at() < 1_000_000_000 * i64::MAX,
        run.last().ts.at() - run[first].ts.at() < 1_000_000_000 * i64::MAX,
    ensures
        ({
            let length = run.last().ts.at() - run[first].ts.at();
            let span = w.reset_at.at() - w.start.at();
            let found = stretch_of(w, run, used, floors, max_gap, now);
            &&& found is Some <==> now.at() - run.last().ts.at() <= max_gap && length
                >= 300_000_000_000 && span >= 1_000_000_000
            &&& found matches Some(s) ==> {
                &&& s.first == first
                &&& s.newest == run.len() - 1
                &&& s.elapsed * 1_000_000_000 <= length < (s.elapsed + 1) * 1_000_000_000
                &&& s.span * 1_000_000_000 <= span < (s.span + 1) * 1_000_000_000
            }
        }),
{
    let newest = run.len() - 1;
    stretch_begins_at(run, used, floors, max_gap, first, newest);
    let length = run[newest].ts.at() - run[first].ts.at();
    let span = w.reset_at.at() - w.start.at();
    if first < newest {
        assert(run[first].ts.at() < run[newest].ts.at());
    }
    num::rounding_towards_zero_loses_less_than_one(length, 1_000_000_000);
    num::rounding_towards_zero_loses_less_than_one(span, 1_000_000_000);
}

proof fn stretch_begins_at(
    run: Seq<RunPoint>,
    used: Seq<Amount>,
    floors: Seq<Amount>,
    max_gap: int,
    first: int,
    k: int,
)
    requires
        0 <= first <= k < run.len(),
        forall|j: int|
            first < j <= k ==> (#[trigger] run[j]).ts.at() - run[j - 1].ts.at() <= max_gap
                && !used[j].lt(floors[j - 1]),
        first > 0 ==> run[first].ts.at() - run[first - 1].ts.at() > max_gap || used[first].lt(
            floors[first - 1],
        ),
    ensures
        stretch_start(run, used, floors, max_gap, k) == first,
    decreases k,
{
    if k > first {
        assert(run[k].ts.at() - run[k - 1].ts.at() <= max_gap);
        stretch_begins_at(run, used, floors, max_gap, first, k - 1);
    }
}

/// No run, no stretch.
pub proof fn nothing_read_is_no_stretch(
    w: EffectiveWindow,
    used: Seq<Amount>,
    floors: Seq<Amount>,
    max_gap: int,
    now: Timestamp,
)
    ensures
        stretch_of(w, Seq::empty(), used, floors, max_gap, now) is None,
{
}

} // verus!
