//! What downsampling keeps.

use vstd::prelude::*;

use crate::domain;
use crate::domain::QuotaSnapshot;
use crate::order;
use crate::storage::downsample as ds;
use crate::time::Timestamp;

verus! {

proof fn buckets_advance(
    a: QuotaSnapshot,
    b: QuotaSnapshot,
    since: Timestamp,
    span: int,
    budget: int,
)
    requires
        a.ts.at() <= b.ts.at(),
        budget > 0,
    ensures
        0 <= ds::bucket(a, since, span, budget) <= ds::bucket(b, since, span, budget) < budget,
{
    let x = if ds::millis_between(since, a.ts) > 0 {
        ds::millis_between(since, a.ts)
    } else {
        0
    };
    let y = if ds::millis_between(since, b.ts) > 0 {
        ds::millis_between(since, b.ts)
    } else {
        0
    };
    assert(x <= y);
    if span > 0 {
        assert(0 <= x * budget <= y * budget) by (nonlinear_arith)
            requires
                0 <= x <= y,
                budget > 0,
        ;
        vstd::arithmetic::div_mod::lemma_div_is_ordered(x * budget, y * budget, span);
        vstd::arithmetic::div_mod::lemma_div_pos_is_pos(x * budget, span);
    }
}

proof fn peak_is_in_its_bucket(
    rows: Seq<QuotaSnapshot>,
    since: Timestamp,
    span: int,
    budget: int,
    n: nat,
)
    requires
        1 <= n <= rows.len(),
    ensures
        ({
            let p = ds::peak(rows, since, span, budget, n);
            &&& 0 <= p < n
            &&& ds::bucket(rows[p], since, span, budget) == ds::bucket(rows[n - 1], since, span, budget)
        }),
    decreases n,
{
    if n > 1 {
        peak_is_in_its_bucket(rows, since, span, budget, (n - 1) as nat);
    }
}

proof fn passed_peaks_advance(
    rows: Seq<QuotaSnapshot>,
    since: Timestamp,
    span: int,
    budget: int,
    n: nat,
)
    requires
        1 <= n <= rows.len(),
        order::is_ordered(rows),
        budget > 0,
    ensures
        ({
            let done = ds::passed_peaks(rows, since, span, budget, n);
            &&& done.len() <= ds::bucket(rows[n - 1], since, span, budget)
            &&& forall|k: int|
                0 <= k < done.len() ==> 0 <= #[trigger] done[k] < n - 1 && ds::bucket(
                    rows[done[k]],
                    since,
                    span,
                    budget,
                ) < ds::bucket(rows[n - 1], since, span, budget)
            &&& forall|j: int, k: int| 0 <= j < k < done.len() ==> done[j] < done[k]
        }),
    decreases n,
{
    if n == 1 {
        buckets_advance(rows[0], rows[0], since, span, budget);
    } else {
        let m = (n - 1) as nat;
        passed_peaks_advance(rows, since, span, budget, m);
        peak_is_in_its_bucket(rows, since, span, budget, m);
        assert(rows[n - 2].ts.at() <= rows[n - 1].ts.at()) by {
            assert(order::Timed::when(&rows[n - 2]) <= order::Timed::when(&rows[n - 1]));
        }
        buckets_advance(rows[n - 2], rows[n - 1], since, span, budget);
        let done = ds::passed_peaks(rows, since, span, budget, n);
        let rest = ds::passed_peaks(rows, since, span, budget, m);
        let p = ds::peak(rows, since, span, budget, m);
        if ds::opens_bucket(rows, since, span, budget, n - 1) {
            assert forall|j: int, k: int| 0 <= j < k < done.len() implies done[j] < done[k] by {
                if k == rest.len() {
                    if rest[j] >= p {
                        assert(order::Timed::when(&rows[p]) <= order::Timed::when(&rows[rest[j]])
                            || p == rest[j]);
                        buckets_advance(rows[p], rows[rest[j]], since, span, budget);
                    }
                }
            }
        }
    }
}

/// A series in time order is never reduced to more than its budget.
pub proof fn the_budget_is_kept(
    rows: Seq<QuotaSnapshot>,
    since: Timestamp,
    span: int,
    budget: int,
)
    requires
        order::is_ordered(rows),
        budget > 0,
    ensures
        ds::reduced(rows, since, span, budget).len() <= budget,
{
    if rows.len() > budget {
        passed_peaks_advance(rows, since, span, budget, rows.len());
        buckets_advance(rows.last(), rows.last(), since, span, budget);
    }
}

/// A reduced series still ends on the newest reading.
pub proof fn a_reduced_series_ends_on_the_newest(
    rows: Seq<QuotaSnapshot>,
    since: Timestamp,
    span: int,
    budget: int,
)
    requires
        rows.len() > 0,
    ensures
        ds::reduced(rows, since, span, budget).len() > 0,
        ds::reduced(rows, since, span, budget).last() == rows.last(),
{
}

/// A reduced series is still in time order.
pub proof fn a_reduced_series_stays_in_order(
    rows: Seq<QuotaSnapshot>,
    since: Timestamp,
    span: int,
    budget: int,
)
    requires
        order::is_ordered(rows),
        budget > 0,
    ensures
        order::is_ordered(ds::reduced(rows, since, span, budget)),
{
    if rows.len() > budget {
        passed_peaks_advance(rows, since, span, budget, rows.len());
        let at = ds::picks(rows, since, span, budget);
        let out = ds::reduced(rows, since, span, budget);
        assert forall|i: int, j: int| 0 <= i < j < out.len() implies order::Timed::when(
            &#[trigger] out[i],
        ) <= order::Timed::when(&#[trigger] out[j]) by {
            assert(out[i] == rows[at[i]] && out[j] == rows[at[j]]);
            assert(at[i] < at[j]);
        }
    }
}

/// The high mark of a run: no row of it exceeds its peak.
proof fn peak_is_highest(
    rows: Seq<QuotaSnapshot>,
    since: Timestamp,
    span: int,
    budget: int,
    n: nat,
    i: int,
)
    requires
        1 <= n <= rows.len(),
        0 <= i < n,
        forall|j: int|
            i < j < n ==> !#[trigger] ds::opens_bucket(rows, since, span, budget, j),
    ensures
        !rows[ds::peak(rows, since, span, budget, n)].used.lt(rows[i].used),
    decreases n,
{
    if n > 1 {
        if i < n - 1 {
            peak_is_highest(rows, since, span, budget, (n - 1) as nat, i);
            assert(!ds::opens_bucket(rows, since, span, budget, n - 1));
        }
    }
}

/// Every bucket but the last keeps its peak: for every reading outside the
/// newest bucket, some surviving reading of its own bucket is no lower.
pub proof fn peaks_survive(
    rows: Seq<QuotaSnapshot>,
    since: Timestamp,
    span: int,
    budget: int,
    i: int,
)
    requires
        order::is_ordered(rows),
        budget > 0,
        0 <= i < rows.len(),
        ds::bucket(rows[i], since, span, budget) != ds::bucket(rows.last(), since, span, budget),
    ensures
        exists|k: int|
            0 <= k < ds::reduced(rows, since, span, budget).len() && ds::bucket(
                #[trigger] ds::reduced(rows, since, span, budget)[k],
                since,
                span,
                budget,
            ) == ds::bucket(rows[i], since, span, budget) && !ds::reduced(
                rows,
                since,
                span,
                budget,
            )[k].used.lt(rows[i].used),
{
    let out = ds::reduced(rows, since, span, budget);
    if rows.len() <= budget {
        assert(out[i] == rows[i]);
    } else {
        passed_peak_of(rows, since, span, budget, rows.len(), i);
        let done = ds::passed_peaks(rows, since, span, budget, rows.len());
        let k = choose|k: int|
            0 <= k < done.len() && ds::bucket(rows[#[trigger] done[k]], since, span, budget)
                == ds::bucket(rows[i], since, span, budget) && !rows[done[k]].used.lt(rows[i].used);
        assert(out[k] == rows[done[k]]);
    }
}

proof fn passed_peak_of(
    rows: Seq<QuotaSnapshot>,
    since: Timestamp,
    span: int,
    budget: int,
    n: nat,
    i: int,
)
    requires
        order::is_ordered(rows),
        budget > 0,
        0 <= i < n <= rows.len(),
        ds::bucket(rows[i], since, span, budget) != ds::bucket(rows[n - 1], since, span, budget),
    ensures
        ({
            let done = ds::passed_peaks(rows, since, span, budget, n);
            exists|k: int|
                0 <= k < done.len() && ds::bucket(rows[#[trigger] done[k]], since, span, budget)
                    == ds::bucket(rows[i], since, span, budget) && !rows[done[k]].used.lt(rows[i].used)
        }),
    decreases n,
{
    let done = ds::passed_peaks(rows, since, span, budget, n);
    let rest = ds::passed_peaks(rows, since, span, budget, (n - 1) as nat);
    if ds::bucket(rows[i], since, span, budget) == ds::bucket(rows[n - 2], since, span, budget) {
        // The last row opens a new bucket, and row `i` is in the one it closes.
        assert(ds::opens_bucket(rows, since, span, budget, n - 1));
        assert forall|j: int| i < j < n - 1 implies !#[trigger] ds::opens_bucket(
            rows,
            since,
            span,
            budget,
            j,
        ) by {
            between(rows, since, span, budget, i, j - 1, n - 2);
            between(rows, since, span, budget, i, j, n - 2);
        }
        peak_is_highest(rows, since, span, budget, (n - 1) as nat, i);
        peak_is_in_its_bucket(rows, since, span, budget, (n - 1) as nat);
        assert(done[rest.len() as int] == ds::peak(rows, since, span, budget, (n - 1) as nat));
    } else {
        passed_peak_of(rows, since, span, budget, (n - 1) as nat, i);
        let k = choose|k: int|
            0 <= k < rest.len() && ds::bucket(rows[#[trigger] rest[k]], since, span, budget)
                == ds::bucket(rows[i], since, span, budget) && !rows[rest[k]].used.lt(rows[i].used);
        assert(done[k] == rest[k]);
    }
}

/// A row between two rows of one bucket is in that bucket too.
proof fn between(
    rows: Seq<QuotaSnapshot>,
    since: Timestamp,
    span: int,
    budget: int,
    i: int,
    j: int,
    k: int,
)
    requires
        order::is_ordered(rows),
        budget > 0,
        0 <= i <= j <= k < rows.len(),
        ds::bucket(rows[i], since, span, budget) == ds::bucket(rows[k], since, span, budget),
    ensures
        ds::bucket(rows[j], since, span, budget) == ds::bucket(rows[i], since, span, budget),
{
    assert(i == j || order::Timed::when(&rows[i]) <= order::Timed::when(&rows[j]));
    assert(j == k || order::Timed::when(&rows[j]) <= order::Timed::when(&rows[k]));
    buckets_advance(rows[i], rows[j], since, span, budget);
    buckets_advance(rows[j], rows[k], since, span, budget);
}

/// Every window is reduced on its own: among the readings returned, one
/// window's are its own series, reduced, whatever the other windows hold.
pub proof fn windows_are_reduced_independently(
    snapshots: Seq<QuotaSnapshot>,
    since: Timestamp,
    until: Timestamp,
    budget: int,
    window: Seq<char>,
)
    requires
        order::is_ordered(snapshots),
        budget > 0,
    ensures
        domain::readings_of(ds::downsampled(snapshots, since, until, budget), window) == ds::reduced(
            domain::readings_of(snapshots, window),
            since,
            ds::millis_between(since, until),
            budget,
        ),
{
    let span = ds::millis_between(since, until);
    if span <= 0 && ds::within_budget(snapshots, budget) {
        a_series_is_within_budget(snapshots, budget, window);
    } else {
        put_in_order_independently(snapshots, since, span, budget, window);
    }
}

/// What is within the budget is so for every window, even one that does not
/// occur.
proof fn a_series_is_within_budget(
    snapshots: Seq<QuotaSnapshot>,
    budget: int,
    window: Seq<char>,
)
    requires
        ds::within_budget(snapshots, budget),
        budget > 0,
    ensures
        domain::readings_of(snapshots, window).len() <= budget,
{
    let series = domain::readings_of(snapshots, window);
    let own = domain::of_window(window);
    if series.len() > 0 {
        snapshots.lemma_filter_pred(own, 0);
        snapshots.lemma_filter_contains_rev(own, series[0]);
        let i = choose|i: int| 0 <= i < snapshots.len() && snapshots[i] == series[0];
        assert(snapshots[i].window@ == window);
    }
}

proof fn put_in_order_independently(
    snapshots: Seq<QuotaSnapshot>,
    since: Timestamp,
    span: int,
    budget: int,
    window: Seq<char>,
)
    requires
        order::is_ordered(snapshots),
        budget > 0,
    ensures
        domain::readings_of(
            order::in_order(
                ds::reduced_series(
                    snapshots,
                    ds::windows_seen(snapshots),
                    since,
                    span,
                    budget,
                    ds::windows_seen(snapshots).len(),
                ),
            ),
            window,
        ) == ds::reduced(domain::readings_of(snapshots, window), since, span, budget),
{
    let windows = ds::windows_seen(snapshots);
    let own = domain::of_window(window);
    let joined = ds::reduced_series(snapshots, windows, since, span, budget, windows.len());
    let series = domain::readings_of(snapshots, window);
    order::picking_commutes_with_ordering(joined, own);
    readings_in_joined(snapshots, windows, since, span, budget, windows.len(), window);
    readings_stay_in_order(snapshots, window);
    a_reduced_series_stays_in_order(series, since, span, budget);
    assert(windows.take(windows.len() as int) =~= windows);
    if windows.contains(window) {
        order::order_is_kept(ds::reduced(series, since, span, budget));
    } else {
        ds::unseen_has_no_readings(snapshots, window);
        order::order_is_kept(Seq::<QuotaSnapshot>::empty());
    }
}

proof fn readings_in_joined(
    snapshots: Seq<QuotaSnapshot>,
    windows: Seq<Seq<char>>,
    since: Timestamp,
    span: int,
    budget: int,
    n: nat,
    window: Seq<char>,
)
    requires
        windows == ds::windows_seen(snapshots),
        n <= windows.len(),
        budget >= 0,
    ensures
        domain::readings_of(
            ds::reduced_series(snapshots, windows, since, span, budget, n),
            window,
        ) == if windows.take(n as int).contains(window) {
            ds::reduced(domain::readings_of(snapshots, window), since, span, budget)
        } else {
            Seq::empty()
        },
    decreases n,
{
    let own = domain::of_window(window);
    if n == 0 {
        domain::readings_of_nothing(window);
    } else {
        let m = (n - 1) as nat;
        readings_in_joined(snapshots, windows, since, span, budget, m, window);
        let w = windows[n - 1];
        let head = ds::reduced_series(snapshots, windows, since, span, budget, m);
        let tail = ds::reduced(domain::readings_of(snapshots, w), since, span, budget);
        Seq::filter_distributes_over_add(head, tail, own);
        ds::windows_are_distinct(snapshots);
        reduced_is_of_its_window(snapshots, w, since, span, budget);
        let (a, b) = (windows.take(m as int), windows.take(n as int));
        assert(b =~= a.push(w));
        if w == window {
            assert(!a.contains(window)) by {
                if a.contains(window) {
                    let i = choose|i: int| 0 <= i < a.len() && a[i] == window;
                    assert(windows[i] == windows[n - 1]);
                }
            }
            assert(b[n - 1] == window);
            filter_keeps_all(tail, own);
            assert(head.filter(own) + tail =~= tail);
        } else {
            assert(b.contains(window) == a.contains(window)) by {
                if a.contains(window) {
                    let i = choose|i: int| 0 <= i < a.len() && a[i] == window;
                    assert(b[i] == window);
                }
                if b.contains(window) {
                    let i = choose|i: int| 0 <= i < b.len() && b[i] == window;
                    assert(a[i] == window);
                }
            }
            filter_keeps_none(tail, own);
            assert(head.filter(own) + tail.filter(own) =~= head.filter(own));
        }
    }
    assert(windows.take(windows.len() as int) =~= windows);
}

proof fn reduced_is_of_its_window(
    snapshots: Seq<QuotaSnapshot>,
    window: Seq<char>,
    since: Timestamp,
    span: int,
    budget: int,
)
    requires
        budget >= 0,
    ensures
        forall|i: int|
            0 <= i < ds::reduced(domain::readings_of(snapshots, window), since, span, budget).len()
                ==> (#[trigger] ds::reduced(
                domain::readings_of(snapshots, window),
                since,
                span,
                budget,
            )[i]).window@ == window,
{
    let rows = domain::readings_of(snapshots, window);
    let own = domain::of_window(window);
    let out = ds::reduced(rows, since, span, budget);
    assert forall|i: int| 0 <= i < rows.len() implies (#[trigger] rows[i]).window@ == window by {
        snapshots.lemma_filter_pred(own, i);
    }
    if rows.len() > budget {
        assert forall|i: int| 0 <= i < out.len() implies (#[trigger] out[i]).window@ == window by {
            picks_in_range(rows, since, span, budget, rows.len());
            let at = ds::picks(rows, since, span, budget);
            assert(out[i] == rows[at[i]]);
        }
    }
}

proof fn picks_in_range(
    rows: Seq<QuotaSnapshot>,
    since: Timestamp,
    span: int,
    budget: int,
    n: nat,
)
    requires
        n <= rows.len(),
    ensures
        forall|k: int|
            0 <= k < ds::passed_peaks(rows, since, span, budget, n).len() ==> 0 <= #[trigger]
                ds::passed_peaks(rows, since, span, budget, n)[k] < rows.len(),
    decreases n,
{
    if n > 1 {
        picks_in_range(rows, since, span, budget, (n - 1) as nat);
        peak_is_in_its_bucket(rows, since, span, budget, (n - 1) as nat);
        let rest = ds::passed_peaks(rows, since, span, budget, (n - 1) as nat);
        let done = ds::passed_peaks(rows, since, span, budget, n);
        assert forall|k: int| 0 <= k < done.len() implies 0 <= #[trigger] done[k]
            < rows.len() by {
            if k < rest.len() {
                assert(done[k] == rest[k]);
            }
        }
    }
}

proof fn filter_keeps_all(s: Seq<QuotaSnapshot>, pick: spec_fn(QuotaSnapshot) -> bool)
    requires
        forall|i: int| 0 <= i < s.len() ==> pick(#[trigger] s[i]),
    ensures
        s.filter(pick) == s,
    decreases s.len(),
{
    reveal(Seq::filter);
    if s.len() > 0 {
        filter_keeps_all(s.drop_last(), pick);
        assert(s.drop_last().push(s.last()) =~= s);
    }
}

proof fn filter_keeps_none(s: Seq<QuotaSnapshot>, pick: spec_fn(QuotaSnapshot) -> bool)
    requires
        forall|i: int| 0 <= i < s.len() ==> !pick(#[trigger] s[i]),
    ensures
        s.filter(pick) == Seq::<QuotaSnapshot>::empty(),
    decreases s.len(),
{
    reveal(Seq::filter);
    if s.len() > 0 {
        filter_keeps_none(s.drop_last(), pick);
    }
}

proof fn readings_stay_in_order(snapshots: Seq<QuotaSnapshot>, window: Seq<char>)
    requires
        order::is_ordered(snapshots),
    ensures
        order::is_ordered(domain::readings_of(snapshots, window)),
{
    let own = domain::of_window(window);
    order::order_is_kept(snapshots);
    order::picking_commutes_with_ordering(snapshots, own);
    order::ordered_once_put_in_order(snapshots.filter(own));
}

/// Whatever is returned is in time order.
pub proof fn a_downsampled_history_is_in_order(
    snapshots: Seq<QuotaSnapshot>,
    since: Timestamp,
    until: Timestamp,
    budget: int,
)
    requires
        order::is_ordered(snapshots),
    ensures
        order::is_ordered(ds::downsampled(snapshots, since, until, budget)),
{
    let span = ds::millis_between(since, until);
    let windows = ds::windows_seen(snapshots);
    order::ordered_once_put_in_order(
        ds::reduced_series(snapshots, windows, since, span, budget, windows.len()),
    );
}

/// No window comes back with more points than its budget, and one that had any
/// comes back ending on its newest.
pub proof fn every_window_keeps_its_budget_and_its_newest(
    snapshots: Seq<QuotaSnapshot>,
    since: Timestamp,
    until: Timestamp,
    budget: int,
    window: Seq<char>,
)
    requires
        order::is_ordered(snapshots),
        budget > 0,
    ensures
        ({
            let kept = domain::readings_of(ds::downsampled(snapshots, since, until, budget), window);
            let had = domain::readings_of(snapshots, window);
            &&& kept.len() <= budget
            &&& had.len() > 0 ==> kept.len() > 0 && kept.last() == had.last()
        }),
{
    let span = ds::millis_between(since, until);
    let series = domain::readings_of(snapshots, window);
    windows_are_reduced_independently(snapshots, since, until, budget, window);
    readings_stay_in_order(snapshots, window);
    the_budget_is_kept(series, since, span, budget);
}

/// The interval is cut into buckets of equal length: a reading taken `x`
/// milliseconds after the interval began is in bucket `b` of `budget` exactly
/// when `b * span <= x * budget < (b + 1) * span`. The first bucket also holds
/// what was taken before the interval, and the last what was taken after it.
pub proof fn buckets_are_of_equal_length(
    s: QuotaSnapshot,
    since: Timestamp,
    span: int,
    budget: int,
)
    requires
        span > 0,
        budget > 0,
    ensures
        ({
            let x = (s.ts.at() - since.at()) / 1_000_000;
            let b = ds::bucket(s, since, span, budget);
            &&& 0 <= b < budget
            &&& 0 <= x < span ==> b * span <= x * budget < (b + 1) * span
            &&& x < 0 ==> b == 0
            &&& x >= span ==> b == budget - 1
        }),
{
    let length = s.ts.at() - since.at();
    let x = length / 1_000_000;
    let offset = if ds::millis_between(since, s.ts) > 0 {
        ds::millis_between(since, s.ts)
    } else {
        0
    };
    assert(offset == if x > 0 {
        x
    } else {
        0
    });
    let q = offset * budget / span;
    vstd::arithmetic::div_mod::lemma_fundamental_div_mod(offset * budget, span);
    assert(q * span <= offset * budget < (q + 1) * span) by (nonlinear_arith)
        requires
            offset * budget == span * q + (offset * budget) % span,
            0 <= (offset * budget) % span < span,
    ;
    assert(0 <= offset * budget) by (nonlinear_arith)
        requires
            0 <= offset,
            0 < budget,
    ;
    assert(q >= 0) by (nonlinear_arith)
        requires
            0 <= offset * budget < (q + 1) * span,
            span > 0,
    ;
    if offset < span {
        assert(q < budget) by (nonlinear_arith)
            requires
                q * span <= offset * budget,
                offset < span,
                budget > 0,
                span > 0,
        ;
    } else {
        assert(q >= budget) by (nonlinear_arith)
            requires
                offset * budget < (q + 1) * span,
                offset >= span,
                budget > 0,
                span > 0,
        ;
    }
    if x < 0 {
        assert(offset == 0);
        assert(q == 0) by (nonlinear_arith)
            requires
                q >= 0,
                q * span <= 0,
                span > 0,
        ;
    }
}

/// An interval without length is one bucket.
pub proof fn an_interval_without_length_is_one_bucket(
    a: QuotaSnapshot,
    b: QuotaSnapshot,
    since: Timestamp,
    span: int,
    budget: int,
)
    requires
        span <= 0,
    ensures
        ds::bucket(a, since, span, budget) == ds::bucket(b, since, span, budget),
{
}

/// Two readings inside the interval that are as far apart as a bucket is long
/// are never merged.
pub proof fn readings_a_bucket_apart_are_never_merged(
    a: QuotaSnapshot,
    b: QuotaSnapshot,
    since: Timestamp,
    span: int,
    budget: int,
)
    requires
        span > 0,
        budget > 0,
        0 <= (a.ts.at() - since.at()) / 1_000_000,
        (b.ts.at() - since.at()) / 1_000_000 < span,
        ((b.ts.at() - since.at()) / 1_000_000 - (a.ts.at() - since.at()) / 1_000_000) * budget
            >= span,
    ensures
        ds::bucket(a, since, span, budget) < ds::bucket(b, since, span, budget),
{
    let (x, y) = ((a.ts.at() - since.at()) / 1_000_000, (b.ts.at() - since.at()) / 1_000_000);
    let (p, q) = (ds::bucket(a, since, span, budget), ds::bucket(b, since, span, budget));
    assert(y > x) by (nonlinear_arith)
        requires
            (y - x) * budget >= span,
            span > 0,
            budget > 0,
    ;
    buckets_are_of_equal_length(a, since, span, budget);
    buckets_are_of_equal_length(b, since, span, budget);
    assert(p < q) by (nonlinear_arith)
        requires
            p * span <= x * budget,
            y * budget < (q + 1) * span,
            (y - x) * budget >= span,
            span > 0,
    ;
}

/// Which rows of a long series survive, by their places: the newest, and before
/// it one of each bucket that the newest is not in. Every bucket with a row has
/// one that survives and none has two. The one that survives is a peak: no row
/// of its bucket is higher, and every earlier one is lower.
pub proof fn one_peak_of_each_bucket_survives(
    rows: Seq<QuotaSnapshot>,
    since: Timestamp,
    span: int,
    budget: int,
) -> (at: Seq<int>)
    requires
        order::is_ordered(rows),
        rows.len() > budget > 0,
    ensures
        ds::reduced(rows, since, span, budget).len() == at.len() > 0,
        forall|k: int|
            0 <= k < at.len() ==> 0 <= #[trigger] at[k] < rows.len() && ds::reduced(
                rows,
                since,
                span,
                budget,
            )[k] == rows[at[k]],
        at.last() == rows.len() - 1,
        forall|j: int, k: int|
            0 <= j < k < at.len() ==> #[trigger] at[j] < #[trigger] at[k] && ds::bucket(
                rows[at[j]],
                since,
                span,
                budget,
            ) != ds::bucket(rows[at[k]], since, span, budget),
        forall|i: int|
            0 <= i < rows.len() ==> exists|k: int|
                0 <= k < at.len() && ds::bucket(rows[#[trigger] at[k]], since, span, budget)
                    == ds::bucket(#[trigger] rows[i], since, span, budget),
        forall|i: int, k: int|
            0 <= i < rows.len() && 0 <= k < at.len() - 1 && ds::bucket(
                #[trigger] rows[i],
                since,
                span,
                budget,
            ) == ds::bucket(rows[#[trigger] at[k]], since, span, budget)
                ==> !rows[at[k]].used.lt(rows[i].used) && (i < at[k] && !rows[i].used.nan()
                ==> rows[i].used.lt(rows[at[k]].used)),
{
    let n = rows.len();
    let at = ds::picks(rows, since, span, budget);
    let done = ds::passed_peaks(rows, since, span, budget, n);
    passed_peaks_advance(rows, since, span, budget, n);
    passed_peaks_differ(rows, since, span, budget, n);
    assert forall|i: int| 0 <= i < rows.len() implies exists|k: int|
        0 <= k < at.len() && ds::bucket(rows[#[trigger] at[k]], since, span, budget)
            == ds::bucket(#[trigger] rows[i], since, span, budget) by {
        if ds::bucket(rows[i], since, span, budget) == ds::bucket(rows[n - 1], since, span, budget) {
            assert(at[at.len() - 1] == n - 1);
        } else {
            passed_peak_of(rows, since, span, budget, n, i);
            let k = choose|k: int|
                0 <= k < done.len() && ds::bucket(rows[#[trigger] done[k]], since, span, budget)
                    == ds::bucket(rows[i], since, span, budget) && !rows[done[k]].used.lt(
                    rows[i].used,
                );
            assert(at[k] == done[k]);
        }
    }
    assert forall|i: int, k: int|
        0 <= i < rows.len() && 0 <= k < at.len() - 1 && ds::bucket(
            #[trigger] rows[i],
            since,
            span,
            budget,
        ) == ds::bucket(rows[#[trigger] at[k]], since, span, budget) implies !rows[at[k]].used.lt(
        rows[i].used,
    ) && (i < at[k] && !rows[i].used.nan() ==> rows[i].used.lt(rows[at[k]].used)) by {
        assert(at[k] == done[k]);
        passed_peak_of(rows, since, span, budget, n, i);
        let j = choose|j: int|
            0 <= j < done.len() && ds::bucket(rows[#[trigger] done[j]], since, span, budget)
                == ds::bucket(rows[i], since, span, budget) && !rows[done[j]].used.lt(rows[i].used);
        assert(j == k);
        if i < at[k] && !rows[i].used.nan() {
            passed_peak_is_first(rows, since, span, budget, n, k, i);
        }
    }
    assert forall|j: int, k: int| 0 <= j < k < at.len() implies #[trigger] at[j]
        < #[trigger] at[k] && ds::bucket(rows[at[j]], since, span, budget) != ds::bucket(
        rows[at[k]],
        since,
        span,
        budget,
    ) by {
        assert(at[j] == done[j]);
        if k < done.len() {
            assert(at[k] == done[k]);
        }
    }
    at
}

/// No two peaks left behind are of one bucket.
proof fn passed_peaks_differ(
    rows: Seq<QuotaSnapshot>,
    since: Timestamp,
    span: int,
    budget: int,
    n: nat,
)
    requires
        1 <= n <= rows.len(),
        order::is_ordered(rows),
        budget > 0,
    ensures
        forall|j: int, k: int|
            0 <= j < k < ds::passed_peaks(rows, since, span, budget, n).len() ==> ds::bucket(
                rows[#[trigger] ds::passed_peaks(rows, since, span, budget, n)[j]],
                since,
                span,
                budget,
            ) < ds::bucket(
                rows[#[trigger] ds::passed_peaks(rows, since, span, budget, n)[k]],
                since,
                span,
                budget,
            ),
    decreases n,
{
    if n > 1 {
        let m = (n - 1) as nat;
        passed_peaks_differ(rows, since, span, budget, m);
        passed_peaks_advance(rows, since, span, budget, m);
        peak_is_in_its_bucket(rows, since, span, budget, m);
        let done = ds::passed_peaks(rows, since, span, budget, n);
        let rest = ds::passed_peaks(rows, since, span, budget, m);
        assert forall|j: int, k: int| 0 <= j < k < done.len() implies ds::bucket(
            rows[#[trigger] done[j]],
            since,
            span,
            budget,
        ) < ds::bucket(rows[#[trigger] done[k]], since, span, budget) by {
            assert(done[j] == rest[j]);
            if k < rest.len() {
                assert(done[k] == rest[k]);
            }
        }
    }
}

/// Every row of a bucket before its peak is lower than the peak.
proof fn peak_is_first(
    rows: Seq<QuotaSnapshot>,
    since: Timestamp,
    span: int,
    budget: int,
    n: nat,
    i: int,
)
    requires
        1 <= n <= rows.len(),
        0 <= i < ds::peak(rows, since, span, budget, n),
        forall|j: int| i < j < n ==> !#[trigger] ds::opens_bucket(rows, since, span, budget, j),
        !rows[i].used.nan(),
    ensures
        rows[i].used.lt(rows[ds::peak(rows, since, span, budget, n)].used),
    decreases n,
{
    if n > 1 {
        let m = (n - 1) as nat;
        let before = ds::peak(rows, since, span, budget, m);
        peak_is_in_its_bucket(rows, since, span, budget, m);
        if ds::peak(rows, since, span, budget, n) == n - 1 {
            assert(!ds::opens_bucket(rows, since, span, budget, n - 1));
            peak_is_highest(rows, since, span, budget, m, i);
        } else {
            peak_is_first(rows, since, span, budget, m, i);
        }
    }
}

proof fn passed_peak_is_first(
    rows: Seq<QuotaSnapshot>,
    since: Timestamp,
    span: int,
    budget: int,
    n: nat,
    k: int,
    i: int,
)
    requires
        order::is_ordered(rows),
        budget > 0,
        1 <= n <= rows.len(),
        0 <= k < ds::passed_peaks(rows, since, span, budget, n).len(),
        0 <= i < ds::passed_peaks(rows, since, span, budget, n)[k],
        ds::bucket(rows[i], since, span, budget) == ds::bucket(
            rows[ds::passed_peaks(rows, since, span, budget, n)[k]],
            since,
            span,
            budget,
        ),
        !rows[i].used.nan(),
    ensures
        rows[i].used.lt(rows[ds::passed_peaks(rows, since, span, budget, n)[k]].used),
    decreases n,
{
    let m = (n - 1) as nat;
    let rest = ds::passed_peaks(rows, since, span, budget, m);
    if k < rest.len() {
        passed_peak_is_first(rows, since, span, budget, m, k, i);
    } else {
        peak_is_in_its_bucket(rows, since, span, budget, m);
        assert forall|j: int| i < j < m implies !#[trigger] ds::opens_bucket(
            rows,
            since,
            span,
            budget,
            j,
        ) by {
            between(rows, since, span, budget, i, j - 1, m - 1);
            between(rows, since, span, budget, i, j, m - 1);
        }
        peak_is_first(rows, since, span, budget, m, i);
    }
}

/// A series within its budget survives whole.
pub proof fn a_short_series_survives_whole(
    rows: Seq<QuotaSnapshot>,
    since: Timestamp,
    span: int,
    budget: int,
)
    requires
        rows.len() <= budget,
    ensures
        ds::reduced(rows, since, span, budget) == rows,
{
}

/// No spike is thinned away: for every reading inside the interval that does
/// not share a bucket with the newest one, some reading survives that is no
/// lower and was taken less than a bucket's length before or after it.
pub proof fn no_spike_is_thinned_away(
    rows: Seq<QuotaSnapshot>,
    since: Timestamp,
    span: int,
    budget: int,
    i: int,
)
    requires
        order::is_ordered(rows),
        span > 0,
        budget > 0,
        0 <= i < rows.len(),
        forall|j: int|
            0 <= j < rows.len() ==> 0 <= ((#[trigger] rows[j]).ts.at() - since.at()) / 1_000_000
                < span,
        forall|b: int|
            !(b * span <= (rows[i].ts.at() - since.at()) / 1_000_000 * budget < (b + 1) * span
                && #[trigger] (b * span) <= (rows.last().ts.at() - since.at()) / 1_000_000 * budget
                < (b + 1) * span),
    ensures
        exists|k: int|
            0 <= k < ds::reduced(rows, since, span, budget).len() && {
                let kept = #[trigger] ds::reduced(rows, since, span, budget)[k];
                let apart = (kept.ts.at() - since.at()) / 1_000_000 - (rows[i].ts.at() - since.at())
                    / 1_000_000;
                &&& !kept.used.lt(rows[i].used)
                &&& -span < apart * budget < span
            },
{
    let out = ds::reduced(rows, since, span, budget);
    buckets_are_of_equal_length(rows[i], since, span, budget);
    buckets_are_of_equal_length(rows.last(), since, span, budget);
    let b = ds::bucket(rows[i], since, span, budget);
    assert(rows[rows.len() - 1] == rows.last());
    assert(b * span <= (rows[i].ts.at() - since.at()) / 1_000_000 * budget < (b + 1) * span);
    assert(ds::bucket(rows.last(), since, span, budget) != b);
    peaks_survive(rows, since, span, budget, i);
    let k = choose|k: int|
        0 <= k < out.len() && ds::bucket(#[trigger] out[k], since, span, budget) == b
            && !out[k].used.lt(rows[i].used);
    let kept = out[k];
    assert(exists|j: int| 0 <= j < rows.len() && #[trigger] rows[j] == kept) by {
        if rows.len() > budget {
            let at = one_peak_of_each_bucket_survives(rows, since, span, budget);
            assert(rows[at[k]] == kept);
        } else {
            assert(rows[k] == kept);
        }
    }
    let j = choose|j: int| 0 <= j < rows.len() && #[trigger] rows[j] == kept;
    buckets_are_of_equal_length(kept, since, span, budget);
    let (x, y) = (
        (rows[i].ts.at() - since.at()) / 1_000_000,
        (kept.ts.at() - since.at()) / 1_000_000,
    );
    assert(-span < (y - x) * budget < span) by (nonlinear_arith)
        requires
            b * span <= x * budget < (b + 1) * span,
            b * span <= y * budget < (b + 1) * span,
    ;
}

/// A query for so many points gets at most that many per window, but at least
/// one, and never more than two thousand; one that does not say gets two
/// thousand.
pub proof fn a_query_gets_the_points_it_asks_for(n: u32)
    ensures
        1 <= n <= 2_000 ==> ds::points_allowed(Some(n)) == n,
        n == 0 ==> ds::points_allowed(Some(n)) == 1,
        n > 2_000 ==> ds::points_allowed(Some(n)) == 2_000,
        ds::points_allowed(None) == 2_000,
{
}

/// Every window of a history is listed, each of them once.
pub proof fn every_window_is_listed_once(snapshots: Seq<QuotaSnapshot>)
    ensures
        forall|w: Seq<char>|
            #[trigger] ds::windows_seen(snapshots).contains(w) <==> exists|i: int|
                0 <= i < snapshots.len() && (#[trigger] snapshots[i]).window@ == w,
        ds::windows_seen(snapshots).no_duplicates(),
    decreases snapshots.len(),
{
    ds::windows_are_distinct(snapshots);
    if snapshots.len() > 0 {
        let init = snapshots.drop_last();
        let (rest, all) = (ds::windows_seen(init), ds::windows_seen(snapshots));
        every_window_is_listed_once(init);
        assert forall|w: Seq<char>| #[trigger] all.contains(w) <==> exists|i: int|
            0 <= i < snapshots.len() && (#[trigger] snapshots[i]).window@ == w by {
            if all.contains(w) {
                let k = choose|k: int| 0 <= k < all.len() && all[k] == w;
                if k < rest.len() {
                    assert(rest[k] == w);
                    assert(rest.contains(w));
                    let i = choose|i: int| 0 <= i < init.len() && (#[trigger] init[i]).window@ == w;
                    assert(snapshots[i].window@ == w);
                } else {
                    assert(snapshots[snapshots.len() - 1].window@ == w);
                }
            }
            if exists|i: int| 0 <= i < snapshots.len() && (#[trigger] snapshots[i]).window@ == w {
                let i = choose|i: int|
                    0 <= i < snapshots.len() && (#[trigger] snapshots[i]).window@ == w;
                if i < init.len() {
                    assert(init[i].window@ == w);
                    assert(rest.contains(w));
                    let k = choose|k: int| 0 <= k < rest.len() && rest[k] == w;
                    assert(all[k] == w);
                } else if rest.contains(w) {
                    let k = choose|k: int| 0 <= k < rest.len() && rest[k] == w;
                    assert(all[k] == w);
                } else {
                    assert(all[all.len() - 1] == w);
                }
            }
        }
    }
}

/// Between two instants, as long as the later one is not before the earlier,
/// there are as many milliseconds as fit.
pub proof fn milliseconds_are_whole(a: Timestamp, b: Timestamp)
    ensures
        a.at() <= b.at() ==> ds::millis_between(a, b) * 1_000_000 <= b.at() - a.at() < (
        ds::millis_between(a, b) + 1) * 1_000_000,
        a.at() >= b.at() ==> ds::millis_between(b, a) == -ds::millis_between(a, b),
{
}

/// Whatever a history query thins out, a reading of any of its windows is
/// answered by one that is no lower and less than a bucket's length away, so
/// long as the newest reading of that window is not in the same bucket.
pub proof fn no_spike_of_any_window_is_thinned_away(
    snapshots: Seq<QuotaSnapshot>,
    since: Timestamp,
    until: Timestamp,
    budget: int,
    i: int,
)
    requires
        order::is_ordered(snapshots),
        budget > 0,
        until.at() - since.at() >= 1_000_000,
        0 <= i < snapshots.len(),
        forall|j: int|
            0 <= j < snapshots.len() ==> 0 <= ((#[trigger] snapshots[j]).ts.at() - since.at())
                / 1_000_000 < (until.at() - since.at()) / 1_000_000,
        ({
            let span = (until.at() - since.at()) / 1_000_000;
            let newest = domain::readings_of(snapshots, snapshots[i].window@).last();
            forall|b: int|
                !(b * span <= (snapshots[i].ts.at() - since.at()) / 1_000_000 * budget < (b + 1)
                    * span && #[trigger] (b * span) <= (newest.ts.at() - since.at()) / 1_000_000
                    * budget < (b + 1) * span)
        }),
    ensures
        ({
            let out = ds::downsampled(snapshots, since, until, budget);
            let span = (until.at() - since.at()) / 1_000_000;
            exists|k: int|
                0 <= k < out.len() && {
                    let kept = #[trigger] out[k];
                    let apart = (kept.ts.at() - since.at()) / 1_000_000 - (snapshots[i].ts.at()
                        - since.at()) / 1_000_000;
                    &&& kept.window@ == snapshots[i].window@
                    &&& !kept.used.lt(snapshots[i].used)
                    &&& -span < apart * budget < span
                }
        }),
{
    let window = snapshots[i].window@;
    let own = domain::of_window(window);
    let span = ds::millis_between(since, until);
    let out = ds::downsampled(snapshots, since, until, budget);
    let rows = domain::readings_of(snapshots, window);
    milliseconds_are_whole(since, until);
    assert(span == (until.at() - since.at()) / 1_000_000);
    readings_stay_in_order(snapshots, window);
    windows_are_reduced_independently(snapshots, since, until, budget, window);
    snapshots.lemma_filter_contains(own, i);
    let p = choose|p: int| 0 <= p < rows.len() && rows[p] == snapshots[i];
    assert forall|j: int| 0 <= j < rows.len() implies 0 <= ((#[trigger] rows[j]).ts.at()
        - since.at()) / 1_000_000 < span by {
        snapshots.lemma_filter_contains_rev(own, rows[j]);
        let m = choose|m: int| 0 <= m < snapshots.len() && snapshots[m] == rows[j];
        assert(snapshots[m].ts == rows[j].ts);
    }
    no_spike_is_thinned_away(rows, since, span, budget, p);
    let kept_rows = ds::reduced(rows, since, span, budget);
    let q = choose|q: int|
        0 <= q < kept_rows.len() && {
            let kept = #[trigger] kept_rows[q];
            let apart = (kept.ts.at() - since.at()) / 1_000_000 - (rows[p].ts.at() - since.at())
                / 1_000_000;
            &&& !kept.used.lt(rows[p].used)
            &&& -span < apart * budget < span
        };
    let kept = kept_rows[q];
    assert(out.filter(own)[q] == kept);
    out.lemma_filter_pred(own, q);
    out.lemma_filter_contains_rev(own, kept);
    let k = choose|k: int| 0 <= k < out.len() && out[k] == kept;
    assert(out[k].window@ == window);
}

/// Nothing is returned that was not stored.
pub proof fn only_what_was_stored_is_returned(
    snapshots: Seq<QuotaSnapshot>,
    since: Timestamp,
    until: Timestamp,
    budget: int,
    k: int,
)
    requires
        order::is_ordered(snapshots),
        budget > 0,
        0 <= k < ds::downsampled(snapshots, since, until, budget).len(),
    ensures
        snapshots.contains(ds::downsampled(snapshots, since, until, budget)[k]),
{
    let out = ds::downsampled(snapshots, since, until, budget);
    let s = out[k];
    let window = s.window@;
    let own = domain::of_window(window);
    let span = ds::millis_between(since, until);
    let rows = domain::readings_of(snapshots, window);
    let kept = ds::reduced(rows, since, span, budget);
    windows_are_reduced_independently(snapshots, since, until, budget, window);
    out.lemma_filter_contains(own, k);
    let q = choose|q: int| 0 <= q < kept.len() && kept[q] == s;
    readings_stay_in_order(snapshots, window);
    if rows.len() > budget {
        let at = one_peak_of_each_bucket_survives(rows, since, span, budget);
        assert(rows[at[q]] == s);
    }
    assert(rows.contains(s));
    snapshots.lemma_filter_contains_rev(own, s);
}

} // verus!
