//! Reducing a stored series to what a chart can show.

use vstd::prelude::*;

use crate::domain;
use crate::domain::QuotaSnapshot;
use crate::ids::WindowId;
use crate::num;
use crate::order;
use crate::time;
use crate::time::Timestamp;

verus! {

/// Hard ceiling on the points a history query returns *per window*, applied
/// even when the caller asks for no downsampling. Nothing prunes the tables,
/// so at the default 60 s cadence a series grows by ~1 440 points a day;
/// without this cap a far-back `since` could produce a response too large for
/// the 1 MiB frame limit.
pub const MAX_HISTORY_POINTS: u32 = 2_000;

/// Whole milliseconds from `a` to `b`, rounded towards zero.
pub open spec fn millis_between(a: Timestamp, b: Timestamp) -> int {
    num::truncated(b.at() - a.at(), time::NANOS_PER_MILLI as int)
}

fn whole_millis(a: Timestamp, b: Timestamp) -> (r: i128)
    ensures
        r == millis_between(a, b),
        -17_000_000_000_000_000 <= r <= 17_000_000_000_000_000,
{
    num::truncated_div(b.since(a), time::NANOS_PER_MILLI)
}

/// Which of `budget` equal buckets, cut from `span` milliseconds after `since`,
/// a reading falls into. One before the interval falls into the first, one
/// after it into the last. An interval without length is one bucket.
pub open spec fn bucket(s: QuotaSnapshot, since: Timestamp, span: int, budget: int) -> int {
    let offset = if millis_between(since, s.ts) > 0 {
        millis_between(since, s.ts)
    } else {
        0
    };
    if span <= 0 {
        0
    } else if offset * budget / span < budget {
        offset * budget / span
    } else {
        budget - 1
    }
}

/// Whether row `i` falls into another bucket than the row before it.
pub open spec fn opens_bucket(
    rows: Seq<QuotaSnapshot>,
    since: Timestamp,
    span: int,
    budget: int,
    i: int,
) -> bool {
    bucket(rows[i], since, span, budget) != bucket(rows[i - 1], since, span, budget)
}

/// Of the rows that share the bucket of the `n`th row and lead up to it
/// without a break, the first whose `used` no later one exceeds.
pub open spec fn peak(
    rows: Seq<QuotaSnapshot>,
    since: Timestamp,
    span: int,
    budget: int,
    n: nat,
) -> int
    decreases n,
{
    if n <= 1 {
        0
    } else {
        let before = peak(rows, since, span, budget, (n - 1) as nat);
        if opens_bucket(rows, since, span, budget, n - 1) || rows[before].used.lt(
            rows[n - 1].used,
        ) {
            n - 1
        } else {
            before
        }
    }
}

/// The peaks of the buckets that the first `n` rows have left behind.
pub open spec fn passed_peaks(
    rows: Seq<QuotaSnapshot>,
    since: Timestamp,
    span: int,
    budget: int,
    n: nat,
) -> Seq<int>
    decreases n,
{
    if n <= 1 {
        Seq::empty()
    } else {
        let rest = passed_peaks(rows, since, span, budget, (n - 1) as nat);
        if opens_bucket(rows, since, span, budget, n - 1) {
            rest.push(peak(rows, since, span, budget, (n - 1) as nat))
        } else {
            rest
        }
    }
}

/// The rows of a long series that survive: the peak of every bucket but the
/// last, and the newest row.
pub open spec fn picks(rows: Seq<QuotaSnapshot>, since: Timestamp, span: int, budget: int) -> Seq<
    int,
> {
    passed_peaks(rows, since, span, budget, rows.len()).push(rows.len() - 1)
}

/// One window's series reduced to its budget.
pub open spec fn reduced(
    rows: Seq<QuotaSnapshot>,
    since: Timestamp,
    span: int,
    budget: int,
) -> Seq<QuotaSnapshot> {
    if rows.len() <= budget {
        rows
    } else {
        picks(rows, since, span, budget).map_values(|i: int| rows[i])
    }
}

/// The windows that occur, in the order they first occur.
pub open spec fn windows_seen(snapshots: Seq<QuotaSnapshot>) -> Seq<Seq<char>>
    decreases snapshots.len(),
{
    if snapshots.len() == 0 {
        Seq::empty()
    } else {
        let rest = windows_seen(snapshots.drop_last());
        if rest.contains(snapshots.last().window@) {
            rest
        } else {
            rest.push(snapshots.last().window@)
        }
    }
}

/// The reduced series of the first `n` windows, one after the other.
pub open spec fn reduced_series(
    snapshots: Seq<QuotaSnapshot>,
    windows: Seq<Seq<char>>,
    since: Timestamp,
    span: int,
    budget: int,
    n: nat,
) -> Seq<QuotaSnapshot>
    decreases n,
{
    if n == 0 {
        Seq::empty()
    } else {
        reduced_series(snapshots, windows, since, span, budget, (n - 1) as nat) + reduced(
            domain::readings_of(snapshots, windows[n - 1]),
            since,
            span,
            budget,
        )
    }
}

/// Whether no window has more readings than the budget allows.
pub open spec fn within_budget(snapshots: Seq<QuotaSnapshot>, budget: int) -> bool {
    forall|i: int|
        0 <= i < snapshots.len() ==> domain::readings_of(
            snapshots,
            #[trigger] snapshots[i].window@,
        ).len() <= budget
}

/// Every window's series reduced to its budget, all together in time order.
/// There is nothing to put in order in an interval without length, so what is
/// within the budget there is left as it is.
pub open spec fn downsampled(
    snapshots: Seq<QuotaSnapshot>,
    since: Timestamp,
    until: Timestamp,
    budget: int,
) -> Seq<QuotaSnapshot> {
    let span = millis_between(since, until);
    if span <= 0 && within_budget(snapshots, budget) {
        snapshots
    } else {
        let windows = windows_seen(snapshots);
        order::in_order(reduced_series(snapshots, windows, since, span, budget, windows.len()))
    }
}

fn bucket_of(s: &QuotaSnapshot, since: Timestamp, span: i128, budget: u32) -> (r: i128)
    ensures
        r == bucket(*s, since, span as int, budget as int),
{
    if span <= 0 {
        return 0;
    }
    let millis: i128 = whole_millis(since, s.ts);
    let offset: i128 = if millis > 0 {
        millis
    } else {
        0
    };
    assert(0 <= offset * budget <= 17_000_000_000_000_000 * 0xffff_ffff) by (nonlinear_arith)
        requires
            0 <= offset <= 17_000_000_000_000_000,
            0 <= budget <= 0xffff_ffff,
    ;
    let b: i128 = offset * budget as i128 / span;
    if b < budget as i128 {
        b
    } else {
        budget as i128 - 1
    }
}

/// Reduce one window's oldest-first series to at most `budget` points.
///
/// `since..since + span` is cut into `budget` equal buckets and the row with
/// the **highest** `used` in each survives. Peaks rather than averages,
/// because a quota chart exists to show how close to the cap you came —
/// averaging would smooth away exactly the spike worth seeing. The final
/// bucket yields its newest row instead of its peak, so the series always
/// ends on the true current reading — as does one over an interval without
/// length, of which nothing else is left.
pub fn reduce_series(rows: Vec<QuotaSnapshot>, since: Timestamp, span: i128, budget: u32) -> (r: Vec<
    QuotaSnapshot,
>)
    ensures
        r@ == reduced(rows@, since, span as int, budget as int),
{
    if rows.len() <= budget as usize {
        return rows;
    }
    let mut out: Vec<QuotaSnapshot> = Vec::new();
    let mut current: i128 = bucket_of(&rows[0], since, span, budget);
    let mut high: usize = 0;
    let mut i: usize = 1;
    let ghost all = rows@;
    while i < rows.len()
        invariant
            all == rows@,
            1 <= i <= rows@.len(),
            high < i,
            current == bucket(all[i - 1], since, span as int, budget as int),
            high == peak(all, since, span as int, budget as int, i as nat),
            out@ == passed_peaks(all, since, span as int, budget as int, i as nat).map_values(
                |k: int| all[k],
            ),
        decreases rows@.len() - i,
    {
        let ghost before = passed_peaks(all, since, span as int, budget as int, i as nat);
        let b: i128 = bucket_of(&rows[i], since, span, budget);
        if b != current {
            let kept = rows[high].clone();
            out.push(kept);
            assert(out@ =~= before.push(high as int).map_values(|k: int| all[k]));
            current = b;
            high = i;
        } else if rows[high].used.below(rows[i].used) {
            high = i;
        }
        i += 1;
    }
    let ghost passed = passed_peaks(all, since, span as int, budget as int, all.len());
    let newest = rows[rows.len() - 1].clone();
    out.push(newest);
    assert(out@ =~= passed.push(all.len() - 1).map_values(|k: int| all[k]));
    out
}

/// Sort readings into one series per window, in the order windows first occur.
fn group(snapshots: Vec<QuotaSnapshot>) -> (r: Vec<Vec<QuotaSnapshot>>)
    ensures
        r@.len() == windows_seen(snapshots@).len(),
        forall|k: int|
            0 <= k < r@.len() ==> (#[trigger] r@[k])@ == domain::readings_of(
                snapshots@,
                windows_seen(snapshots@)[k],
            ),
{
    let ghost all = snapshots@;
    let mut left = snapshots;
    let mut queue: Vec<QuotaSnapshot> = Vec::new();
    while left.len() > 0
        invariant
            left@.len() <= all.len(),
            left@ == all.take(left@.len() as int),
            queue@.len() == all.len() - left@.len(),
            forall|k: int| 0 <= k < queue@.len() ==> #[trigger] queue@[k] == all[all.len() - 1 - k],
        decreases left@.len(),
    {
        let last = left.pop();
        if let Some(s) = last {
            queue.push(s);
        }
    }
    let mut groups: Vec<Vec<QuotaSnapshot>> = Vec::new();
    let ghost mut done: int = 0;
    assert(all.take(0) =~= Seq::empty());
    while queue.len() > 0
        invariant
            0 <= done,
            done + queue@.len() == all.len(),
            forall|k: int| 0 <= k < queue@.len() ==> #[trigger] queue@[k] == all[all.len() - 1 - k],
            grouped(groups@, all.take(done)),
        decreases queue@.len(),
    {
        let next = queue.pop();
        if let Some(s) = next {
            assert(s == all[done]);
            assert(all.take(done + 1) =~= all.take(done).push(s));
            add_to_group(&mut groups, s, Ghost(all.take(done)));
            proof {
                done = done + 1;
            }
        }
    }
    assert(all.take(done) =~= all);
    groups
}

/// Whether `groups` holds the readings of each window that occurs.
spec fn grouped(groups: Seq<Vec<QuotaSnapshot>>, snapshots: Seq<QuotaSnapshot>) -> bool {
    let windows = windows_seen(snapshots);
    &&& groups.len() == windows.len()
    &&& forall|k: int|
        0 <= k < groups.len() ==> {
            &&& (#[trigger] groups[k])@ == domain::readings_of(snapshots, windows[k])
            &&& groups[k]@.len() > 0
            &&& groups[k]@[0].window@ == windows[k]
        }
}

fn add_to_group(
    groups: &mut Vec<Vec<QuotaSnapshot>>,
    s: QuotaSnapshot,
    Ghost(before): Ghost<Seq<QuotaSnapshot>>,
)
    requires
        grouped(old(groups)@, before),
    ensures
        grouped(final(groups)@, before.push(s)),
{
    let ghost windows = windows_seen(before);
    let ghost had = groups@;
    assert(before.push(s).drop_last() =~= before);
    let mut k: usize = 0;
    while k < groups.len() && !groups[k][0].window.same(&s.window)
        invariant
            k <= groups@.len(),
            groups@ == had,
            grouped(had, before),
            windows == windows_seen(before),
            forall|j: int| 0 <= j < k ==> #[trigger] windows[j] != s.window@,
        decreases groups@.len() - k,
    {
        assert(had[k as int]@[0].window@ == windows[k as int]);
        k += 1;
    }
    proof {
        windows_are_distinct(before);
        assert forall|w: Seq<char>| #[trigger]
            domain::readings_of(before.push(s), w) == if s.window@ == w {
                domain::readings_of(before, w).push(s)
            } else {
                domain::readings_of(before, w)
            } by {
            domain::readings_of_push(before, s, w);
        }
    }
    if k < groups.len() {
        let ghost item = s;
        assert(had[k as int]@[0].window@ == windows[k as int]);
        let mut rows = groups.remove(k);
        rows.push(s);
        groups.insert(k, rows);
        proof {
            assert(windows[k as int] == item.window@);
            assert(windows.contains(item.window@));
            assert(windows_seen(before.push(item)) == windows);
            assert forall|j: int| 0 <= j < groups@.len() implies {
                &&& (#[trigger] groups@[j])@ == domain::readings_of(before.push(item), windows[j])
                &&& groups@[j]@.len() > 0
                &&& groups@[j]@[0].window@ == windows[j]
            } by {
                assert(had[j]@ == domain::readings_of(before, windows[j]));
                if j != k {
                    assert(groups@[j] == had[j]);
                    assert(windows[j] != item.window@) by {
                        if windows[j] == item.window@ {
                            assert(windows[j] == windows[k as int]);
                        }
                    }
                }
            }
        }
    } else {
        let ghost item = s;
        let mut rows: Vec<QuotaSnapshot> = Vec::new();
        rows.push(s);
        groups.push(rows);
        proof {
            assert(!windows.contains(item.window@)) by {
                if windows.contains(item.window@) {
                    let j = choose|j: int| 0 <= j < windows.len() && windows[j] == item.window@;
                    assert(windows[j] != item.window@);
                }
            }
            let after = windows_seen(before.push(item));
            assert(after == windows.push(item.window@));
            unseen_has_no_readings(before, item.window@);
            assert forall|j: int| 0 <= j < groups@.len() implies {
                &&& (#[trigger] groups@[j])@ == domain::readings_of(before.push(item), after[j])
                &&& groups@[j]@.len() > 0
                &&& groups@[j]@[0].window@ == after[j]
            } by {
                if j < had.len() {
                    assert(groups@[j] == had[j]);
                    assert(had[j]@ == domain::readings_of(before, windows[j]));
                    assert(windows[j] != item.window@);
                } else {
                    assert(groups@[j]@ =~= seq![item]);
                    assert(domain::readings_of(before.push(item), after[j]) =~= seq![item]);
                }
            }
        }
    }
}

/// No window is listed twice.
pub proof fn windows_are_distinct(snapshots: Seq<QuotaSnapshot>)
    ensures
        windows_seen(snapshots).no_duplicates(),
    decreases snapshots.len(),
{
    if snapshots.len() > 0 {
        windows_are_distinct(snapshots.drop_last());
    }
}

/// A window that is not listed has no readings.
pub proof fn unseen_has_no_readings(snapshots: Seq<QuotaSnapshot>, window: Seq<char>)
    requires
        !windows_seen(snapshots).contains(window),
    ensures
        domain::readings_of(snapshots, window) == Seq::<QuotaSnapshot>::empty(),
    decreases snapshots.len(),
{
    if snapshots.len() > 0 {
        let init = snapshots.drop_last();
        let seen = windows_seen(init);
        assert(snapshots =~= init.push(snapshots.last()));
        domain::readings_of_push(init, snapshots.last(), window);
        assert(!seen.contains(window)) by {
            if seen.contains(window) {
                let i = choose|i: int| 0 <= i < seen.len() && seen[i] == window;
                assert(windows_seen(snapshots)[i] == window);
            }
        }
        assert(snapshots.last().window@ != window) by {
            if snapshots.last().window@ == window {
                let all = windows_seen(snapshots);
                assert(all[all.len() - 1] == window);
            }
        }
        unseen_has_no_readings(init, window);
    } else {
        assert(snapshots =~= Seq::empty());
        domain::readings_of_nothing(window);
    }
}

/// How many readings of a window there are.
fn count_of(snapshots: &Vec<QuotaSnapshot>, window: &WindowId) -> (r: usize)
    ensures
        r == domain::readings_of(snapshots@, window@).len(),
{
    let mut count: usize = 0;
    let mut i: usize = 0;
    proof {
        domain::readings_of_nothing(window@);
        assert(snapshots@.take(0) =~= Seq::empty());
    }
    while i < snapshots.len()
        invariant
            i <= snapshots@.len(),
            count <= i,
            count == domain::readings_of(snapshots@.take(i as int), window@).len(),
        decreases snapshots@.len() - i,
    {
        proof {
            let before = snapshots@.take(i as int);
            assert(snapshots@.take(i + 1) =~= before.push(snapshots@[i as int]));
            domain::readings_of_push(before, snapshots@[i as int], window@);
        }
        if snapshots[i].window.same(window) {
            count += 1;
        }
        i += 1;
    }
    assert(snapshots@.take(i as int) =~= snapshots@);
    count
}

fn is_within_budget(snapshots: &Vec<QuotaSnapshot>, budget: u32) -> (r: bool)
    ensures
        r == within_budget(snapshots@, budget as int),
{
    let mut i: usize = 0;
    while i < snapshots.len()
        invariant
            i <= snapshots@.len(),
            forall|k: int|
                0 <= k < i ==> domain::readings_of(
                    snapshots@,
                    #[trigger] snapshots@[k].window@,
                ).len() <= budget,
        decreases snapshots@.len() - i,
    {
        if count_of(snapshots, &snapshots[i].window) > budget as usize {
            assert(domain::readings_of(snapshots@, snapshots@[i as int].window@).len() > budget);
            return false;
        }
        i += 1;
    }
    true
}

/// Reduce each window's series in `snapshots` to at most `budget` points.
///
/// Windows are reduced independently, so a multi-window query keeps every
/// series intact rather than interleaving them into one budget. Input and
/// output are both oldest-first.
pub fn downsample(
    snapshots: Vec<QuotaSnapshot>,
    since: Timestamp,
    until: Timestamp,
    budget: u32,
) -> (r: Vec<QuotaSnapshot>)
    ensures
        r@ == downsampled(snapshots@, since, until, budget as int),
{
    let span: i128 = whole_millis(since, until);
    if span <= 0 && is_within_budget(&snapshots, budget) {
        return snapshots;
    }
    let ghost all = snapshots@;
    let ghost windows = windows_seen(all);
    let mut groups = group(snapshots);
    let mut out: Vec<QuotaSnapshot> = Vec::new();
    let ghost whole = groups@;
    let mut k: usize = 0;
    let n: usize = groups.len();
    while k < n
        invariant
            k <= n,
            n == windows.len(),
            whole.len() == n,
            groups@ == whole.skip(k as int),
            forall|j: int|
                0 <= j < n ==> (#[trigger] whole[j])@ == domain::readings_of(all, windows[j]),
            out@ == reduced_series(all, windows, since, span as int, budget as int, k as nat),
        decreases n - k,
    {
        assert(groups@[0] == whole[k as int]);
        let rows = groups.remove(0);
        assert(groups@ =~= whole.skip(k + 1));
        let mut reduced_rows = reduce_series(rows, since, span, budget);
        out.append(&mut reduced_rows);
        k += 1;
    }
    order::by_time(out)
}

/// The number of points per window a history query asks for: what the caller
/// wants, but at least one and never more than the ceiling.
pub open spec fn points_allowed(max_points: Option<u32>) -> int {
    match max_points {
        Some(n) => num::limited(n as int, 1, MAX_HISTORY_POINTS as int),
        None => MAX_HISTORY_POINTS as int,
    }
}

/// What a history query answers, given the snapshots stored in the interval,
/// oldest first.
///
/// Each window's series is independently downsampled to at most `max_points`
/// (capped by [`MAX_HISTORY_POINTS`]).
pub fn history(
    snapshots: Vec<QuotaSnapshot>,
    since: Timestamp,
    until: Timestamp,
    max_points: Option<u32>,
) -> (r: Vec<QuotaSnapshot>)
    ensures
        r@ == downsampled(snapshots@, since, until, points_allowed(max_points)),
{
    let budget: u32 = match max_points {
        Some(n) => if n < 1 {
            1
        } else if n > MAX_HISTORY_POINTS {
            MAX_HISTORY_POINTS
        } else {
            n
        },
        None => MAX_HISTORY_POINTS,
    };
    downsample(snapshots, since, until, budget)
}

} // verus!
