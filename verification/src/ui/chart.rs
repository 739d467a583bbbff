//! What the trend chart draws: its series, its rules, its axes.

use vstd::prelude::*;

use crate::amount::Amount;
use crate::app::state::{App, Trend};
use crate::domain::{QuotaSnapshot, QuotaUnit, HUNDRED, ONE};
use crate::metrics;
use crate::metrics::window;
use crate::metrics::{Boundary, BoundaryKind};
use crate::num;
use crate::protocol::wire::{AccountStatus, WindowView};
use crate::rollover::RolloverKind;
use crate::time;
use crate::time::Timestamp;
use crate::ui::cells;
use crate::ui::cells::truncate;
use crate::ui::detail;
use crate::ui::formats;
use crate::ui::gauges;
use crate::ui::theme;
use crate::ui::theme::Color;

verus! {

// ---------------------------------------------------------------------------
// The y axis
// ---------------------------------------------------------------------------

/// Less than any reading.
pub const LOWEST: u64 = 0xfff0_0000_0000_0000;

/// The greatest of the first `n` readings that are numbers.
pub open spec fn peak_among(snapshots: Seq<QuotaSnapshot>, n: nat) -> Amount
    decreases n,
{
    if n == 0 {
        Amount { bits: LOWEST }
    } else {
        let rest = peak_among(snapshots, (n - 1) as nat);
        if rest.lt(snapshots[n - 1].used) {
            snapshots[n - 1].used
        } else {
            rest
        }
    }
}

/// The greatest reading of a series.
pub open spec fn peak_of(snapshots: Seq<QuotaSnapshot>) -> Amount {
    peak_among(snapshots, snapshots.len())
}

/// The greatest reading of a series; below any number without one.
pub fn peak(snapshots: &Vec<QuotaSnapshot>) -> (r: Amount)
    ensures
        r == peak_of(snapshots@),
{
    let mut peak = Amount { bits: LOWEST };
    let mut i: usize = 0;
    while i < snapshots.len()
        invariant
            i <= snapshots.len(),
            peak == peak_among(snapshots@, i as nat),
        decreases snapshots.len() - i,
    {
        if peak.below(snapshots[i].used) {
            peak = snapshots[i].used;
        }
        i += 1;
    }
    peak
}

/// No reading is above the peak.
pub proof fn the_peak_is_the_greatest(snapshots: Seq<QuotaSnapshot>, n: nat, i: int)
    requires
        0 <= i < n <= snapshots.len(),
    ensures
        !peak_among(snapshots, n).lt(snapshots[i].used),
    decreases n,
{
    if i < n - 1 {
        the_peak_is_the_greatest(snapshots, (n - 1) as nat, i);
    }
    lowest_is_a_number();
    peak_is_a_number(snapshots, n);
    peak_is_a_number(snapshots, (n - 1) as nat);
}

proof fn lowest_is_a_number()
    ensures
        !(Amount { bits: LOWEST }).nan(),
{
}

proof fn peak_is_a_number(snapshots: Seq<QuotaSnapshot>, n: nat)
    ensures
        !peak_among(snapshots, n).nan(),
    decreases n,
{
    if n > 0 {
        peak_is_a_number(snapshots, (n - 1) as nat);
    } else {
        lowest_is_a_number();
    }
}

/// The greater of two numbers.
pub open spec fn greater(a: Amount, b: Amount) -> Amount {
    if a.lt(b) {
        b
    } else {
        a
    }
}

fn greater_of(a: Amount, b: Amount) -> (r: Amount)
    ensures
        r == greater(a, b),
{
    if a.below(b) {
        b
    } else {
        a
    }
}

/// What the peak is multiplied by to keep the line off the top border: the bit
/// pattern of one and a twentieth.
pub const PEAK_HEADROOM: u64 = 0x3ff0_cccc_cccc_cccd;

/// Room above the peak; `scaled` is the peak times [`PEAK_HEADROOM`].
pub open spec fn headroom_over(snapshots: Seq<QuotaSnapshot>, scaled: Amount) -> Amount {
    if peak_of(snapshots).finite() && (Amount { bits: 0 }).lt(peak_of(snapshots)) {
        scaled
    } else {
        Amount { bits: 0 }
    }
}

/// Upper bound of the y axis.
pub open spec fn y_top(snapshots: Seq<QuotaSnapshot>, scaled: Amount) -> Amount {
    let headroom = headroom_over(snapshots, scaled);
    let zero = Amount { bits: 0 };
    let open = if zero.lt(headroom) {
        headroom
    } else {
        Amount { bits: ONE }
    };
    if snapshots.len() == 0 {
        open
    } else if snapshots.last().unit == QuotaUnit::Percent {
        greater(Amount { bits: HUNDRED }, headroom)
    } else {
        match snapshots.last().limit {
            Some(limit) => if zero.lt(limit) {
                greater(limit, headroom)
            } else {
                open
            },
            None => open,
        }
    }
}

/// Upper bound of the y axis: the published limit where there is one, else
/// enough headroom above the peak to keep the line off the top border. Never
/// below the peak: a provider reporting over its own limit should show the
/// overshoot rather than have the line silently clipped flat. `scaled` is the
/// peak times [`PEAK_HEADROOM`].
pub fn y_bound(snapshots: &Vec<QuotaSnapshot>, scaled: Amount) -> (r: Amount)
    ensures
        r == y_top(snapshots@, scaled),
{
    let zero = Amount { bits: 0 };
    let peak = peak(snapshots);
    let headroom = if peak.is_finite() && zero.below(peak) {
        scaled
    } else {
        zero
    };
    if snapshots.len() > 0 {
        let last = &snapshots[snapshots.len() - 1];
        match (last.unit, last.limit) {
            (QuotaUnit::Percent, _) => {
                return greater_of(Amount { bits: HUNDRED }, headroom);
            },
            (_, Some(limit)) => {
                if zero.below(limit) {
                    return greater_of(limit, headroom);
                }
            },
            _ => {},
        }
    }
    if zero.below(headroom) {
        headroom
    } else {
        Amount { bits: ONE }
    }
}

/// The axis reaches every reading, so long as what stands for the peak times
/// [`PEAK_HEADROOM`] is not below the peak.
pub proof fn the_axis_reaches_the_peak(snapshots: Seq<QuotaSnapshot>, scaled: Amount)
    requires
        peak_of(snapshots).finite(),
        (Amount { bits: 0 }).lt(peak_of(snapshots)),
        peak_of(snapshots).le(scaled),
        snapshots.last().limit matches Some(limit) ==> !limit.nan(),
    ensures
        peak_of(snapshots).le(y_top(snapshots, scaled)),
{
}

// ---------------------------------------------------------------------------
// The x axis
// ---------------------------------------------------------------------------

/// One over the widest slice of empty future the chart will grow to show the
/// upcoming reset, as a part of the visible range: a fifth.
///
/// Without a ceiling a weekly window would squash a `1h` chart's whole history
/// into the leftmost column to make room for a reset three days out. Past that
/// point the countdown on the window's own row is the better answer, and the
/// rule is simply dropped.
pub const FUTURE_LEAD_PARTS: i64 = 5;

/// Where an instant lies on an x axis of `span` seconds that ends at `until`.
pub open spec fn x_of(at: int, span: int, until: int) -> int {
    span - formats::secs_of(until - at)
}

fn x_at(at: Timestamp, span: i64, until: Timestamp) -> (r: i64)
    requires
        0 <= span <= 604_800,
    ensures
        r == x_of(at.at(), span as int, until.at()),
        -20_000_000_000_000 <= r <= 20_000_000_000_000,
{
    span - time::whole_secs(until.since(at)) as i64
}

/// The first upcoming reset among the rules.
pub open spec fn upcoming(rules: Seq<Boundary>) -> Option<int>
    decreases rules.len(),
{
    if rules.len() == 0 {
        None
    } else if rules[0].kind == BoundaryKind::UpcomingReset {
        Some(rules[0].at.at())
    } else {
        upcoming(rules.drop_first())
    }
}

/// How far past the right edge the axis reaches to fit the upcoming reset.
pub open spec fn lead_for(rules: Seq<Boundary>, span: int, until: int, live: bool) -> int {
    match upcoming(rules) {
        Some(at) => {
            let lead = x_of(at, span, until) - span;
            if live && 0 < lead && lead * FUTURE_LEAD_PARTS <= span {
                lead
            } else {
                0
            }
        },
        None => 0,
    }
}

/// How far past the right edge the axis should reach, in seconds, to fit the
/// upcoming reset — zero when there is none, when it is too far out to be
/// worth the room, or when the chart is panned.
///
/// A panned view is deliberately excluded: it is not showing the present, so
/// the *current* window's reset is not the boundary next to its right edge, and
/// drawing it there would place a future instant in the middle of the past.
pub fn future_lead(rules: &[Boundary], span: i64, until: Timestamp, live: bool) -> (r: i64)
    ensures
        r == lead_for(rules@, span as int, until.at(), live),
        time::representable(until.at() + r * time::NANOS_PER_SEC),
        0 <= r && (r > 0 ==> r <= span),
{
    let end: i128 = until.nanos_since_epoch();
    if !live {
        return 0;
    }
    let mut i: usize = 0;
    assert(rules@.skip(0) =~= rules@);
    while i < rules.len()
        invariant
            i <= rules.len(),
            live,
            end == until.at(),
            time::representable(end as int),
            upcoming(rules@) == upcoming(rules@.skip(i as int)),
        decreases rules.len() - i,
    {
        assert(rules@.skip(i as int).drop_first() =~= rules@.skip(i + 1));
        assert(rules@.skip(i as int)[0] == rules@[i as int]);
        if rules[i].kind == BoundaryKind::UpcomingReset {
            let ahead: i128 = rules[i].at.nanos_since_epoch() - end;
            let lead: i64 = time::whole_secs(ahead) as i64;
            return if 0 < lead && lead * FUTURE_LEAD_PARTS <= span {
                lead
            } else {
                0
            };
        }
        i += 1;
    }
    assert(rules@.skip(i as int).len() == 0);
    0
}

/// The axis never grows by more than a fifth of the range, and not at all on a
/// panned chart.
pub proof fn the_lead_is_bounded(rules: Seq<Boundary>, span: int, until: int, live: bool)
    requires
        span >= 0,
    ensures
        0 <= lead_for(rules, span, until, live),
        lead_for(rules, span, until, live) * 5 <= span,
        !live ==> lead_for(rules, span, until, live) == 0,
{
}

/// Color for a boundary rule. Scheduled rollovers recede into the background;
/// the live window's own edges match its series; anything the provider did not
/// advertise is flagged.
pub fn rule_color(kind: BoundaryKind) -> (r: Color)
    ensures
        r == match kind {
            BoundaryKind::Rollover => theme::BOUNDARY,
            BoundaryKind::Surprise => theme::BOUNDARY_SURPRISE,
            BoundaryKind::CurrentStart => theme::BOUNDARY_LIVE,
            BoundaryKind::UpcomingReset => theme::BOUNDARY_LIVE,
        },
{
    match kind {
        BoundaryKind::Rollover => theme::BOUNDARY,
        BoundaryKind::Surprise => theme::BOUNDARY_SURPRISE,
        BoundaryKind::CurrentStart => theme::BOUNDARY_LIVE,
        BoundaryKind::UpcomingReset => theme::BOUNDARY_LIVE,
    }
}

/// An axis label for an instant `length` nanoseconds from now.
pub open spec fn label_of(length: int) -> Seq<char> {
    let secs = formats::secs_of(length);
    if secs == 0 {
        "now"@
    } else if secs < 0 {
        "-"@ + formats::humanized(-secs)
    } else {
        "+"@ + formats::humanized(secs)
    }
}

fn label_for(length: i128) -> (r: String)
    requires
        -20_000_000_000_000_000_000_000 <= length <= 20_000_000_000_000_000_000_000,
    ensures
        r@ == label_of(length as int),
{
    let secs: i128 = time::whole_secs(length);
    if secs == 0 {
        "now".to_owned()
    } else if secs < 0 {
        "-".to_owned().concat(formats::humanize((-secs) as u64).as_str())
    } else {
        "+".to_owned().concat(formats::humanize(secs as u64).as_str())
    }
}

/// The labels of an x axis.
#[derive(Debug, PartialEq, Eq)]
pub struct Labels {
    /// At its left end.
    pub left: String,
    /// In its middle.
    pub middle: String,
    /// At its right end.
    pub right: String,
}

/// Axis labels for an x extent of `total` seconds starting at `left`, counted
/// against *now* rather than against the edges — on a panned chart the two
/// differ, and "now" on the right of a view that ends three days ago would be
/// a lie. When the axis has been extended to reach an upcoming reset the right
/// label runs forwards instead, as `+1h`.
pub fn x_labels(left: Timestamp, total: i64, now: Timestamp) -> (r: Labels)
    requires
        time::representable(left.at() + total * time::NANOS_PER_SEC),
    ensures
        r.left@ == label_of(left.at() - now.at()),
        r.middle@ == label_of(
            left.at() + num::truncated(total as int, 2) * time::NANOS_PER_SEC - now.at(),
        ),
        r.right@ == label_of(left.at() + total * time::NANOS_PER_SEC - now.at()),
{
    let from: i128 = left.nanos_since_epoch() - now.nanos_since_epoch();
    let half: i128 = num::truncated_div(total as i128, 2) * time::NANOS_PER_SEC;
    let whole: i128 = total as i128 * time::NANOS_PER_SEC;
    Labels { left: label_for(from), middle: label_for(from + half), right: label_for(from + whole) }
}

// ---------------------------------------------------------------------------
// The chart
// ---------------------------------------------------------------------------

/// A reading on the chart.
#[derive(Debug, Clone, Copy, PartialEq, Eq, Structural)]
pub struct Point {
    /// Seconds from the left edge.
    pub x: i64,
    /// The reading.
    pub y: Amount,
}

/// A vertical rule on the chart.
#[derive(Debug, Clone, Copy, PartialEq, Eq, Structural)]
pub struct Rule {
    /// Seconds from the left edge.
    pub x: i64,
    /// What it marks.
    pub kind: BoundaryKind,
}

/// What the trend chart draws.
#[derive(Debug, PartialEq, Eq)]
pub struct Chart {
    /// Its title.
    pub title: String,
    /// Seconds of the charted interval.
    pub span: i64,
    /// Seconds of empty future after it.
    pub lead: i64,
    /// The series.
    pub series: Vec<Point>,
    /// The part of the y axis at which the provider's critical threshold
    /// lies.
    pub threshold: Amount,
    /// The rules.
    pub rules: Vec<Rule>,
    /// Readings that raised an unannounced drop.
    pub drops: Vec<Point>,
    /// The labels of the x axis.
    pub labels: Labels,
}

/// What the trend tab shows.
#[derive(Debug, PartialEq, Eq)]
pub enum TrendView {
    /// There is no chart to draw, for this reason.
    Message(String),
    /// This chart.
    Drawn(Chart),
}

/// Whether no account has a window.
pub open spec fn no_windows(statuses: Seq<AccountStatus>) -> bool {
    forall|i: int| 0 <= i < statuses.len() ==> (#[trigger] statuses[i]).windows@.len() == 0
}

fn has_no_windows(statuses: &Vec<AccountStatus>) -> (r: bool)
    ensures
        r == no_windows(statuses@),
{
    let mut i: usize = 0;
    while i < statuses.len()
        invariant
            i <= statuses.len(),
            forall|k: int| 0 <= k < i ==> (#[trigger] statuses@[k]).windows@.len() == 0,
        decreases statuses.len() - i,
    {
        if statuses[i].windows.len() > 0 {
            assert(statuses@[i as int].windows@.len() > 0);
            return false;
        }
        i += 1;
    }
    true
}

/// The series: every reading, where it lies on the chart.
pub open spec fn series_of(snapshots: Seq<QuotaSnapshot>, span: int, until: int) -> Seq<Point> {
    Seq::new(
        snapshots.len(),
        |i: int|
            Point {
                x: x_of(snapshots[i].ts.at(), span, until) as i64,
                y: snapshots[i].used,
            },
    )
}

/// The rules drawn: all of them, but the upcoming reset only where the axis
/// has grown to hold it.
pub open spec fn rules_of(
    rules: Seq<Boundary>,
    n: nat,
    span: int,
    until: int,
    lead: int,
) -> Seq<Rule>
    decreases n,
{
    if n == 0 {
        Seq::empty()
    } else {
        let rest = rules_of(rules, (n - 1) as nat, span, until, lead);
        let b = rules[n - 1];
        if b.kind != BoundaryKind::UpcomingReset || lead > 0 {
            rest.push(Rule { x: x_of(b.at.at(), span, until) as i64, kind: b.kind })
        } else {
            rest
        }
    }
}

/// The readings that raised an unannounced drop of the charted window, among
/// the first `n` rollovers. Not a boundary — inferred from `used` alone, it is
/// not trustworthy enough to draw a rule through the chart — but still worth a
/// mark.
pub open spec fn drops_of(trend: Trend, n: nat, span: int) -> Seq<Point>
    decreases n,
{
    if n == 0 {
        Seq::empty()
    } else {
        let rest = drops_of(trend, (n - 1) as nat, span);
        let r = trend.rollovers@[n - 1];
        if r.window@ == trend.window@ && r.kind == RolloverKind::Unannounced {
            rest.push(
                Point {
                    x: x_of(r.observed_at.at(), span, trend.until.at()) as i64,
                    y: r.new_used,
                },
            )
        } else {
            rest
        }
    }
}

/// The boundaries of the charted interval.
pub open spec fn charted_boundaries(app: App, trend: Trend, quotient: Amount, now: Timestamp) -> Seq<
    Boundary,
> {
    let from = Timestamp::instant(trend.until.at() - trend.range.secs() * time::NANOS_PER_SEC);
    match app.window() {
        Some((_, view)) => {
            let effective = window::effective_of(view, quotient, now);
            match effective {
                Some(e) => metrics::boundaries::inner_rules(
                    view.window.id@,
                    Some(&e),
                    trend.rollovers@,
                    from,
                    trend.until,
                ).push(Boundary { at: e.reset_at, kind: BoundaryKind::UpcomingReset }),
                None => metrics::boundaries::inner_rules(
                    view.window.id@,
                    None,
                    trend.rollovers@,
                    from,
                    trend.until,
                ),
            }
        },
        None => seq![],
    }
}

/// Whether a chart is the one of a series; `quotient` is the selected window's.
pub open spec fn charts(
    chart: Chart,
    app: App,
    trend: Trend,
    quotient: Amount,
    now: Timestamp,
) -> bool {
    let span = trend.range.secs();
    let until = trend.until.at();
    let rules = charted_boundaries(app, trend, quotient, now);
    let lead = lead_for(rules, span, until, app.trend_pan_secs == 0);
    let left = until - span * time::NANOS_PER_SEC;
    let total = span + lead;
    &&& chart.title@ == " "@ + cells::truncated(trend.title@, 40) + " "@
    &&& chart.span == span
    &&& chart.lead == lead
    &&& chart.series@ == series_of(trend.snapshots@, span, until)
    &&& chart.threshold == match app.window() {
        Some((_, view)) => view.hint.critical_threshold,
        None => Amount { bits: ONE },
    }
    &&& chart.rules@ == rules_of(rules, rules.len(), span, until, lead)
    &&& chart.drops@ == drops_of(trend, trend.rollovers@.len(), span)
    &&& chart.labels.left@ == label_of(left - now.at())
    &&& chart.labels.middle@ == label_of(
        left + num::truncated(total, 2) * time::NANOS_PER_SEC - now.at(),
    )
    &&& chart.labels.right@ == label_of(left + total * time::NANOS_PER_SEC - now.at())
}

fn points_of(snapshots: &Vec<QuotaSnapshot>, span: i64, until: Timestamp) -> (r: Vec<Point>)
    requires
        0 <= span <= 604_800,
    ensures
        r@ == series_of(snapshots@, span as int, until.at()),
{
    let mut out: Vec<Point> = Vec::new();
    let mut i: usize = 0;
    while i < snapshots.len()
        invariant
            i <= snapshots.len(),
            0 <= span <= 604_800,
            out@ == series_of(snapshots@, span as int, until.at()).take(i as int),
        decreases snapshots.len() - i,
    {
        let s = &snapshots[i];
        out.push(Point { x: x_at(s.ts, span, until), y: s.used });
        i += 1;
        assert(out@ =~= series_of(snapshots@, span as int, until.at()).take(i as int));
    }
    assert(out@ =~= series_of(snapshots@, span as int, until.at()));
    out
}

fn drawn_rules(rules: &Vec<Boundary>, span: i64, until: Timestamp, lead: i64) -> (r: Vec<Rule>)
    requires
        0 <= span <= 604_800,
    ensures
        r@ == rules_of(rules@, rules@.len(), span as int, until.at(), lead as int),
{
    let mut out: Vec<Rule> = Vec::new();
    let mut i: usize = 0;
    while i < rules.len()
        invariant
            i <= rules.len(),
            0 <= span <= 604_800,
            out@ == rules_of(rules@, i as nat, span as int, until.at(), lead as int),
        decreases rules.len() - i,
    {
        let b = rules[i];
        if b.kind != BoundaryKind::UpcomingReset || lead > 0 {
            out.push(Rule { x: x_at(b.at, span, until), kind: b.kind });
        }
        i += 1;
    }
    out
}

fn marked_drops(trend: &Trend, span: i64) -> (r: Vec<Point>)
    requires
        0 <= span <= 604_800,
    ensures
        r@ == drops_of(*trend, trend.rollovers@.len(), span as int),
{
    let mut out: Vec<Point> = Vec::new();
    let mut i: usize = 0;
    while i < trend.rollovers.len()
        invariant
            i <= trend.rollovers.len(),
            0 <= span <= 604_800,
            out@ == drops_of(*trend, i as nat, span as int),
        decreases trend.rollovers.len() - i,
    {
        let r = &trend.rollovers[i];
        if r.window.same(&trend.window) && !r.kind.is_boundary() {
            out.push(Point { x: x_at(r.observed_at, span, trend.until), y: r.new_used });
        }
        i += 1;
    }
    out
}

/// What the trend tab shows. `quotient` is the selected window's.
///
/// Only a series that belongs to the current selection is charted: a reload is
/// in flight while the selection moves, and the previous window's history
/// under the new window's title would be a lie. "Select a window" is only
/// actionable advice when there *are* windows; with none it reads as a broken
/// chart rather than as a daemon that has not reported a successful poll yet.
///
/// X is seconds from the left edge of the charted interval, so the series
/// always ends at the right one regardless of when the daemon last polled —
/// and a panned chart stays put instead of sliding right on every tick.
pub fn trend_view(app: &App, quotient: Amount, now: Timestamp) -> (r: TrendView)
    requires
        app.charted() matches Some(trend) ==> time::representable(
            trend.until.at() - trend.range.secs() * time::NANOS_PER_SEC,
        ),
        app.window() matches Some((_, view)) ==> gauges::placeable(view),
    ensures
        match app.charted() {
            None => r matches TrendView::Message(m) && m@ == if no_windows(app.statuses@) {
                "no quota data yet — waiting for the first successful poll"@
            } else {
                "select a window with j/k to chart its history"@
            },
            Some(trend) => if trend.snapshots@.len() < 2 {
                r matches TrendView::Message(m) && m@ == "not enough history for "@ + trend.title@
                    + " in the last "@ + detail::range_name(trend.range)
            } else {
                r matches TrendView::Drawn(chart) && charts(chart, *app, trend, quotient, now)
            },
        },
{
    let trend = match app.charted_trend() {
        Some(trend) => trend,
        None => {
            return TrendView::Message(
                if has_no_windows(&app.statuses) {
                    "no quota data yet — waiting for the first successful poll".to_owned()
                } else {
                    "select a window with j/k to chart its history".to_owned()
                },
            );
        },
    };
    if trend.snapshots.len() < 2 {
        return TrendView::Message(
            "not enough history for ".to_owned().concat(trend.title.as_str()).concat(
                " in the last ",
            ).concat(trend.range.label()),
        );
    }
    let span: i64 = trend.range.duration();
    let until = trend.until;
    let from = Timestamp::from_nanos(
        until.nanos_since_epoch() - span as i128 * time::NANOS_PER_SEC,
    );
    // Where the window began and where it ends. Empty for a provider that
    // publishes no reset instant and has never been seen to roll over.
    let (rules, threshold): (Vec<Boundary>, Amount) = match app.selected_window() {
        Some((_, view)) => {
            let effective = metrics::effective_window(view, quotient, now);
            let rules = metrics::boundaries(
                &view.window.id,
                effective.as_ref(),
                trend.rollovers.as_slice(),
                from,
                until,
            );
            (rules, view.hint.critical_threshold)
        },
        None => (Vec::new(), Amount { bits: ONE }),
    };
    assert(rules@ =~= charted_boundaries(*app, *trend, quotient, now));
    // The upcoming reset is the one boundary that lies to the right of the
    // series, so the axis has to grow to hold it.
    let lead: i64 = future_lead(rules.as_slice(), span, until, app.trend_is_live());
    TrendView::Drawn(
        Chart {
            title: " ".to_owned().concat(truncate(trend.title.as_str(), 40).as_str()).concat(" "),
            span,
            lead,
            series: points_of(&trend.snapshots, span, until),
            threshold,
            rules: drawn_rules(&rules, span, until, lead),
            drops: marked_drops(trend, span),
            labels: x_labels(from, span + lead, now),
        },
    )
}

/// The peak is a reading of the series, unless none of them is a number.
pub proof fn the_peak_is_a_reading(snapshots: Seq<QuotaSnapshot>, n: nat)
    requires
        n <= snapshots.len(),
    ensures
        peak_among(snapshots, n).bits == 0xfff0_0000_0000_0000 || exists|i: int|
            0 <= i < n && (#[trigger] snapshots[i]).used == peak_among(snapshots, n),
    decreases n,
{
    if n > 0 {
        the_peak_is_a_reading(snapshots, (n - 1) as nat);
        let rest = peak_among(snapshots, (n - 1) as nat);
        if peak_among(snapshots, n) == rest && rest.bits != 0xfff0_0000_0000_0000 {
            let i = choose|i: int|
                0 <= i < n - 1 && (#[trigger] snapshots[i]).used == rest;
            assert(snapshots[i].used == peak_among(snapshots, n));
        } else if peak_among(snapshots, n) != rest {
            assert(snapshots[n - 1].used == peak_among(snapshots, n));
        }
    }
}

/// The axis of a share reaches a hundred, that of anything else its limit, and
/// either the room above the peak where that is more; without a limit it reaches
/// just that room, and one where there is none.
pub proof fn the_axis_reaches_the_limit(snapshots: Seq<QuotaSnapshot>, scaled: Amount)
    ensures
        ({
            let zero = Amount { bits: 0 };
            let peak = peak_of(snapshots);
            let room = if peak.finite() && zero.lt(peak) {
                scaled
            } else {
                zero
            };
            let open = if zero.lt(room) {
                room
            } else {
                Amount { bits: 0x3ff0_0000_0000_0000 }
            };
            let hundred = Amount { bits: 0x4059_0000_0000_0000 };
            let top = y_top(snapshots, scaled);
            &&& snapshots.len() == 0 ==> top == open
            &&& snapshots.len() > 0 && snapshots.last().unit is Percent ==> top == if hundred.lt(
                room,
            ) {
                room
            } else {
                hundred
            }
            &&& snapshots.len() > 0 && snapshots.last().unit !is Percent
                && snapshots.last().limit is Some && zero.lt(snapshots.last().limit->0) ==> top
                == if (snapshots.last().limit->0).lt(room) {
                room
            } else {
                snapshots.last().limit->0
            }
            &&& snapshots.len() > 0 && snapshots.last().unit !is Percent && !(
            snapshots.last().limit is Some && zero.lt(snapshots.last().limit->0)) ==> top == open
        }),
        PEAK_HEADROOM == 0x3ff0_cccc_cccc_cccd,
{
}

/// The axis of time counts seconds: the right edge of the range stands at its
/// length, and an instant as many whole seconds from it as it lies from the end
/// of the interval.
pub proof fn the_axis_of_time_counts_seconds(at: int, span: int, until: int)
    ensures
        x_of(until, span, until) == span,
        at <= until ==> (span - x_of(at, span, until)) * 1_000_000_000 <= until - at < (span
            - x_of(at, span, until) + 1) * 1_000_000_000,
        at >= until ==> (x_of(at, span, until) - span) * 1_000_000_000 <= at - until < (x_of(
            at,
            span,
            until,
        ) - span + 1) * 1_000_000_000,
{
}

/// Room is made for the upcoming reset exactly when the chart shows the present,
/// the reset is ahead, and by no more than a fifth of the range; and then just
/// as much as it is ahead.
pub proof fn room_is_made_for_a_reset_that_is_near(
    rules: Seq<Boundary>,
    i: int,
    span: int,
    until: int,
    live: bool,
)
    requires
        0 <= i < rules.len(),
        rules[i].kind is UpcomingReset,
        forall|k: int| 0 <= k < i ==> !((#[trigger] rules[k]).kind is UpcomingReset),
    ensures
        upcoming(rules) == Some(rules[i].at.at()),
        ({
            let ahead = x_of(rules[i].at.at(), span, until) - span;
            &&& live && 0 < ahead && 5 * ahead <= span ==> lead_for(rules, span, until, live)
                == ahead
            &&& !(live && 0 < ahead && 5 * ahead <= span) ==> lead_for(rules, span, until, live)
                == 0
        }),
    decreases rules.len(),
{
    if i > 0 {
        let rest = rules.drop_first();
        assert forall|k: int| 0 <= k < i - 1 implies !((
        #[trigger] rest[k]).kind is UpcomingReset) by {
            assert(rest[k] == rules[k + 1]);
        }
        assert(!(rules[0].kind is UpcomingReset));
        room_is_made_for_a_reset_that_is_near(rest, i - 1, span, until, live);
    }
}

/// Without an upcoming reset no room is made.
pub proof fn without_a_reset_no_room_is_made(
    rules: Seq<Boundary>,
    span: int,
    until: int,
    live: bool,
)
    requires
        forall|k: int| 0 <= k < rules.len() ==> !((#[trigger] rules[k]).kind is UpcomingReset),
    ensures
        upcoming(rules) is None,
        lead_for(rules, span, until, live) == 0,
    decreases rules.len(),
{
    if rules.len() > 0 {
        let rest = rules.drop_first();
        assert forall|k: int| 0 <= k < rest.len() implies !((
        #[trigger] rest[k]).kind is UpcomingReset) by {
            assert(rest[k] == rules[k + 1]);
        }
        assert(!(rules[0].kind is UpcomingReset));
        without_a_reset_no_room_is_made(rest, span, until, live);
    }
}

/// An edge of the chart is told from the present: how far ahead or back it lies,
/// and within a second that it is now.
pub proof fn an_edge_is_told_from_the_present(length: int, secs: int)
    ensures
        -1_000_000_000 < length < 1_000_000_000 ==> label_of(length) == "now"@,
        secs >= 1 && secs * 1_000_000_000 <= length < (secs + 1) * 1_000_000_000 ==> label_of(
            length,
        ) == "+"@ + formats::humanized(secs),
        secs >= 1 && secs * 1_000_000_000 <= -length < (secs + 1) * 1_000_000_000 ==> label_of(
            length,
        ) == "-"@ + formats::humanized(secs),
{
}

/// Every reading is a point of the series, at its instant and its height.
pub proof fn every_reading_is_a_point(
    snapshots: Seq<QuotaSnapshot>,
    span: int,
    until: int,
    i: int,
)
    requires
        0 <= i < snapshots.len(),
        i64::MIN <= x_of(snapshots[i].ts.at(), span, until) <= i64::MAX,
    ensures
        series_of(snapshots, span, until).len() == snapshots.len(),
        series_of(snapshots, span, until)[i].y == snapshots[i].used,
        series_of(snapshots, span, until)[i].x == x_of(snapshots[i].ts.at(), span, until),
{
}

/// Every boundary is a rule at its instant, but an upcoming reset that no room
/// was made for; and every unannounced drop of the charted window is a mark at
/// its instant, as high as what was left in use.
pub proof fn every_boundary_is_a_rule(
    rules: Seq<Boundary>,
    trend: Trend,
    n: nat,
    span: int,
    until: int,
    lead: int,
)
    ensures
        rules_of(rules, 0, span, until, lead).len() == 0,
        drops_of(trend, 0, span).len() == 0,
        n < rules.len() ==> {
            let (before, after) = (
                rules_of(rules, n, span, until, lead),
                rules_of(rules, n + 1, span, until, lead),
            );
            let b = rules[n as int];
            &&& b.kind is UpcomingReset && lead <= 0 ==> after == before
            &&& !(b.kind is UpcomingReset && lead <= 0) ==> after == before.push(
                Rule { x: x_of(b.at.at(), span, until) as i64, kind: b.kind },
            )
        },
        n < trend.rollovers@.len() ==> {
            let (before, after) = (drops_of(trend, n, span), drops_of(trend, n + 1, span));
            let r = trend.rollovers@[n as int];
            if r.window@ == trend.window@ && r.kind is Unannounced {
                after == before.push(
                    Point {
                        x: x_of(r.observed_at.at(), span, trend.until.at()) as i64,
                        y: r.new_used,
                    },
                )
            } else {
                after == before
            }
        },
{
}

/// What a chart shows: the title, the range, every reading, the boundaries of the
/// selected window, and at its edges and its middle how far they lie from now.
pub proof fn a_chart_shows_its_interval(
    chart: Chart,
    app: App,
    trend: Trend,
    quotient: Amount,
    now: Timestamp,
)
    requires
        charts(chart, app, trend, quotient, now),
    ensures
        ({
            let (span, until) = (trend.range.secs(), trend.until.at());
            let rules = charted_boundaries(app, trend, quotient, now);
            let right = until + chart.lead * 1_000_000_000;
            let left = until - span * 1_000_000_000;
            &&& chart.title@ == " "@ + cells::truncated(trend.title@, 40) + " "@
            &&& chart.span == span
            &&& chart.lead == lead_for(rules, span, until, app.trend_pan_secs == 0)
            &&& chart.series@ == series_of(trend.snapshots@, span, until)
            &&& chart.drops@ == drops_of(trend, trend.rollovers@.len(), span)
            &&& chart.rules@ == rules_of(rules, rules.len(), span, until, chart.lead as int)
            &&& chart.labels.left@ == label_of(left - now.at())
            &&& chart.labels.right@ == label_of(right - now.at())
            &&& chart.lead >= 0 ==> chart.labels.middle@ == label_of(
                left + (span + chart.lead) / 2 * 1_000_000_000 - now.at(),
            )
            &&& app.window() matches Some((status, view)) ==> chart.threshold
                == view.hint.critical_threshold
            &&& app.window() is None ==> chart.threshold.bits == 0x3ff0_0000_0000_0000
        }),
{
}

/// The boundaries charted are those of the selected window over the interval on
/// display, and the reset it is due for.
pub proof fn the_boundaries_charted(
    app: App,
    trend: Trend,
    quotient: Amount,
    now: Timestamp,
    status: AccountStatus,
    view: WindowView,
)
    ensures
        app.window() is None ==> charted_boundaries(app, trend, quotient, now).len() == 0,
        app.window() == Some((status, view)) ==> {
            let from = Timestamp::instant(
                trend.until.at() - trend.range.secs() * 1_000_000_000,
            );
            match window::effective_of(view, quotient, now) {
                Some(e) => charted_boundaries(app, trend, quotient, now)
                    == metrics::boundaries::inner_rules(
                    view.window.id@,
                    Some(&e),
                    trend.rollovers@,
                    from,
                    trend.until,
                ).push(Boundary { at: e.reset_at, kind: BoundaryKind::UpcomingReset }),
                None => charted_boundaries(app, trend, quotient, now)
                    == metrics::boundaries::inner_rules(
                    view.window.id@,
                    None,
                    trend.rollovers@,
                    from,
                    trend.until,
                ),
            }
        },
{
}

} // verus!
