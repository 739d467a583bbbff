//! Rates, runways and boundaries of the window that actually ran.

use proptest::arbitrary::any;
use proptest::collection::vec as many;
use proptest::strategy::{Just, Strategy};
use proptest::test_runner::{TestCaseError, TestRunner};
use teiryo::adapter::{BarStyle, RenderHint};
use teiryo::amount::Amount;
use teiryo::domain::{QuotaSnapshot, QuotaUnit, QuotaWindow, ResetKind, WindowScope};
use teiryo::ids::{AccountId, PollId, WindowId};
use teiryo::metrics::window::MIN_ELAPSED_PARTS;
use teiryo::metrics::{
    boundaries, gap_tolerance, recent_run, recent_stretch, BoundaryKind, EffectiveWindow, Fraction,
};
use teiryo::protocol::wire::WindowView;
use teiryo::rollover::{ObservedStart, RolloverKind, WindowRollover};
use teiryo::time::{Duration as Length, Timestamp};

fn seconds(n: i64) -> i64 {
    n
}

fn minutes(n: i64) -> i64 {
    n * 60
}

fn hours(n: i64) -> i64 {
    n * 3600
}

fn days(n: i64) -> i64 {
    n * 86_400
}

fn nanos(secs: i64) -> i128 {
    i128::from(secs) * 1_000_000_000
}

fn after(ts: Timestamp, secs: i64) -> Timestamp {
    Timestamp::from_nanos(ts.nanos_since_epoch() + nanos(secs))
}

/// 2026-08-21 12:00:00 UTC.
fn now() -> Timestamp {
    Timestamp::from_nanos(nanos(1_787_313_600))
}

/// So many seconds from now.
fn at(secs: i64) -> Timestamp {
    after(now(), secs)
}

fn amount(value: f64) -> Amount {
    Amount {
        bits: value.to_bits(),
    }
}

fn value(amount: Amount) -> f64 {
    f64::from_bits(amount.bits)
}

// The divisions the library leaves to its caller.

fn utilization(window: &QuotaWindow) -> Option<f64> {
    let quotient = window.divisor().map(|d| value(window.used) / value(d));
    window
        .utilization(amount(quotient.unwrap_or(0.0)))
        .map(value)
}

fn reading(point: &QuotaSnapshot) -> f64 {
    let divisor = point.divisor().expect("a measurable reading");
    value(
        point
            .utilization(amount(value(point.used) / value(divisor)))
            .expect("a measurable reading"),
    )
}

fn effective_window(view: &WindowView, now: Timestamp) -> Option<EffectiveWindow> {
    let quotient = view
        .window
        .divisor()
        .map_or(0.0, |d| value(view.window.used) / value(d));
    teiryo::metrics::effective_window(view, amount(quotient), now)
}

fn ratio(fraction: Fraction) -> f64 {
    fraction.part as f64 / fraction.whole as f64
}

fn elapsed_fraction(window: &EffectiveWindow, now: Timestamp) -> Option<f64> {
    teiryo::metrics::elapsed_fraction(window, now).map(ratio)
}

fn pace(window: &EffectiveWindow, now: Timestamp) -> Option<f64> {
    teiryo::metrics::pace(window, now).map(|r| value(r.used) / ratio(r.over))
}

fn projected(window: &EffectiveWindow, pace: f64) -> Option<i64> {
    let used = window.used.map_or(0.0, value);
    let secs = ((1.0 - used) / (pace / window.whole_span() as f64)).round();
    (secs.is_finite() && secs >= 0.0 && secs <= i64::MAX as f64).then_some(secs as i64)
}

fn runway_at(window: &EffectiveWindow, pace: f64) -> Option<i64> {
    teiryo::metrics::runway_at(window, amount(pace), projected(window, pace))
}

fn runway(window: &EffectiveWindow, now: Timestamp) -> Option<i64> {
    let rate = pace(window, now).unwrap_or(0.0);
    teiryo::metrics::runway(window, amount(rate), projected(window, rate), now)
}

fn eta_to_cap(window: &EffectiveWindow, now: Timestamp) -> Option<Timestamp> {
    teiryo::metrics::eta_to_cap(window, runway(window, now), now)
}

fn affordable_pace(window: &EffectiveWindow, now: Timestamp) -> Option<f64> {
    teiryo::metrics::affordable_pace(window, now)
        .map(|r| (1.0 - value(r.used)) / ratio(r.over))
}

fn recent_pace(
    window: &EffectiveWindow,
    points: &[QuotaSnapshot],
    max_gap: i128,
    now: Timestamp,
) -> Option<f64> {
    let run = recent_run(window, points, now);
    let used: Vec<f64> = run.iter().map(|p| reading(&points[p.index])).collect();
    let figures: Vec<Amount> = used.iter().map(|u| amount(*u)).collect();
    let floors: Vec<Amount> = used.iter().map(|u| amount(u - 0.005)).collect();
    let stretch = recent_stretch(window, &run, &figures, &floors, max_gap, now)?;
    let burnt = (used[stretch.newest] - used[stretch.first]).max(0.0);
    Some(burnt / stretch.elapsed as f64 * stretch.span as f64)
}

fn hint() -> RenderHint {
    RenderHint {
        style: BarStyle::Percent,
        warn_threshold: amount(0.8),
        critical_threshold: amount(0.95),
        note: None,
    }
}

/// The 10-hour test window as it reaches the TUI, with whatever the daemon
/// has observed about where it began.
fn view(window: QuotaWindow, observed_start: Option<ObservedStart>) -> WindowView {
    WindowView {
        window,
        hint: hint(),
        observed_start,
    }
}

/// The effective window for a provider that moved `reset_at` with the
/// reset — the uncomplicated case, where it is `reset_at` less the span.
fn effective(used: f64, remaining_hours: i64) -> EffectiveWindow {
    effective_window(&view(window(used, remaining_hours), None), now())
        .expect("a published reset instant")
}

/// The gap tolerance for an account polled every ten minutes, which is the
/// cadence the readings below are spaced at.
fn max_gap() -> i128 {
    gap_tolerance(600)
}

/// A 10-hour rolling window `used`% consumed, with `remaining` hours left
/// before it resets.
fn window(used: f64, remaining_hours: i64) -> QuotaWindow {
    QuotaWindow {
        id: WindowId::from("w"),
        label: "w".into(),
        scope: WindowScope::AccountWide,
        reset_kind: ResetKind::Rolling(Length {
            secs: 10 * 3600,
            nanos: 0,
        }),
        unit: QuotaUnit::Percent,
        used: amount(used),
        limit: Some(amount(100.0)),
        reset_at: Some(at(hours(remaining_hours))),
    }
}

#[test]
fn ui_utilization_from_percent_and_limits() {
    let window = |unit: QuotaUnit, used: f64, limit: Option<f64>| QuotaWindow {
        unit,
        used: amount(used),
        limit: limit.map(amount),
        reset_at: None,
        ..window(0.0, 0)
    };
    assert_eq!(
        utilization(&window(QuotaUnit::Percent, 42.0, None)),
        Some(0.42)
    );
    assert_eq!(
        utilization(&window(QuotaUnit::Messages, 30.0, Some(60.0))),
        Some(0.5)
    );
    assert_eq!(utilization(&window(QuotaUnit::Tokens, 30.0, None)), None);
    // Overuse clamps rather than overflowing the bar.
    assert_eq!(
        utilization(&window(QuotaUnit::Percent, 150.0, None)),
        Some(1.0)
    );
}

#[test]
fn metrics_utilization_from_percent_and_limits() {
    let mut w = window(42.0, 5);
    assert_eq!(utilization(&w), Some(0.42));

    w.unit = QuotaUnit::Messages;
    w.used = amount(30.0);
    w.limit = Some(amount(60.0));
    assert_eq!(utilization(&w), Some(0.5));

    w.limit = None;
    assert_eq!(utilization(&w), None);

    // Overuse clamps rather than overflowing a bar.
    w.unit = QuotaUnit::Percent;
    w.used = amount(150.0);
    assert_eq!(utilization(&w), Some(1.0));
}

#[test]
fn elapsed_fraction_tracks_the_clock() {
    // 4 of 10 hours remain, so 60% of the window has elapsed.
    assert_eq!(elapsed_fraction(&effective(0.0, 4), now()), Some(0.6));
}

#[test]
fn an_observed_restart_shortens_the_window_it_is_measured_against() {
    // The provider still publishes a reset 4 hours out and a 10-hour span,
    // so its arithmetic puts the start 6 hours back. The daemon saw the
    // window actually restart 2 hours ago, inside a half-hour bracket.
    let observed = ObservedStart {
        not_before: at(-hours(2) - minutes(15)),
        not_after: at(-hours(2) + minutes(15)),
    };
    let w = effective_window(&view(window(30.0, 4), Some(observed)), now()).unwrap();
    assert_eq!(w.start, at(-hours(2)));
    assert_eq!(w.start_uncertainty, nanos(minutes(30)));
    // Six hours of window remain, not ten, and 30% of the budget is gone
    // two of those hours in: a third of the window for a third of the
    // clock is dead level, where the published span called it 0.5×.
    assert_eq!(w.span(), nanos(hours(6)));
    assert_eq!(pace(&w, now()), Some(0.9));
    assert_eq!(pace(&effective(30.0, 4), now()), Some(0.5));
}

#[test]
fn a_restart_older_than_the_window_itself_is_ignored() {
    // A reset from two windows ago says nothing about this one: a window
    // cannot have begun before its own `reset_at` less its span.
    let stale = ObservedStart {
        not_before: at(-hours(30)),
        not_after: at(-hours(29)),
    };
    let w = effective_window(&view(window(30.0, 4), Some(stale)), now()).unwrap();
    assert_eq!(w.start, at(-hours(6)));
    assert_eq!(w.start_uncertainty, 0);
}

#[test]
fn a_window_without_a_reset_instant_has_no_effective_window() {
    let mut no_reset = window(0.0, 4);
    no_reset.reset_at = None;
    assert_eq!(effective_window(&view(no_reset, None), now()), None);
}

#[test]
fn pace_compares_usage_against_elapsed_time() {
    // 60% used with 60% elapsed is exactly on track.
    assert_eq!(pace(&effective(60.0, 4), now()), Some(1.0));
    // 90% used with 60% elapsed is burning fast.
    assert_eq!(pace(&effective(90.0, 4), now()), Some(1.5));
    // 30% used with 60% elapsed leaves headroom.
    assert_eq!(pace(&effective(30.0, 4), now()), Some(0.5));
    // A window that just started cannot be extrapolated from.
    assert_eq!(pace(&effective(0.0, 10), now()), None);
}

#[test]
fn a_short_effective_span_pays_the_fraction_and_no_absolute_floor() {
    // The case an observed start makes reachable, and the one an absolute
    // seconds floor would have blanked: a 5-hour window whose restart was
    // seen an hour before its reset runs for an effective 3600 s, so the
    // documented twentieth is 180 s. At 225 s elapsed the window is past
    // it and the number is owed, even though 225 s is a short stretch in
    // absolute terms — which is the whole argument for a fraction
    // over a duration.
    let mut short = window(25.0, 0);
    short.reset_kind = ResetKind::Rolling(Length { secs: 5 * 3600, nanos: 0 });
    short.reset_at = Some(at(seconds(3375)));
    let observed = ObservedStart {
        not_before: at(-seconds(255)),
        not_after: at(-seconds(195)),
    };
    let w = effective_window(&view(short, Some(observed)), now()).unwrap();
    assert_eq!(w.start, at(-seconds(225)));
    assert_eq!(w.span(), nanos(seconds(3600)));
    // 225/3600 is 0.0625, comfortably over the 0.05 floor, so a quarter of
    // the budget spent a sixteenth of the way in is 4× the affordable rate.
    assert_eq!(elapsed_fraction(&w, now()), Some(0.0625));
    assert_eq!(pace(&w, now()), Some(4.0));
    // And the fraction floor still bounds it: one second in, nothing.
    assert_eq!(pace(&w, after(w.start, seconds(1))), None);
}

#[test]
fn runway_spends_the_remaining_headroom_at_the_pace_given() {
    // Half a 10-hour window left to spend, at exactly the rate the window
    // affords: five hours of headroom.
    assert_eq!(
        runway_at(&effective(50.0, 5), 1.0),
        Some(hours(5)),
    );
    // Twice that rate empties it in half the time.
    assert_eq!(
        runway_at(&effective(50.0, 5), 2.0),
        Some(hours(2) + minutes(30)),
    );
    // Already capped: no headroom left to project.
    assert_eq!(runway_at(&effective(100.0, 4), 2.0), Some(0));
    // A pace of zero never arrives at the cap.
    assert_eq!(runway_at(&effective(50.0, 5), 0.0), None);
}

#[test]
fn runway_is_reported_even_when_the_window_resets_first() {
    // 30% used with 6 of 10 hours gone burns the rest in another 14h —
    // long after the 4h reset, which is exactly the case `eta_to_cap`
    // suppresses. The rate is still a real answer.
    assert_eq!(
        runway(&effective(30.0, 4), now()),
        Some(hours(14))
    );
    assert_eq!(eta_to_cap(&effective(30.0, 4), now()), None);

    // Nothing used yet: no rate to project from, either way.
    assert_eq!(runway(&effective(0.0, 4), now()), None);
}

#[test]
fn affordable_pace_spreads_what_is_left_over_the_time_left() {
    // 50% used with half the window to go: usage and clock are level.
    assert_eq!(affordable_pace(&effective(50.0, 5), now()), Some(1.0));
    // 30% used with half to go — the shape of a weekly window 84h from
    // reset — leaves 70% for 50% of the span: 1.4× the nominal rate.
    assert_eq!(affordable_pace(&effective(30.0, 5), now()), Some(1.4));
    // At the cap there is nothing left to afford.
    assert_eq!(affordable_pace(&effective(100.0, 5), now()), Some(0.0));
    // A window at its reset has no time left to spread anything over.
    assert_eq!(affordable_pace(&effective(50.0, 0), now()), None);
}

/// A burn rate rounded to the two decimals the row prints. Rates are
/// ratios of ratios, so the last bit of a `f64` is noise the UI never
/// shows.
fn as_shown(rate: Option<f64>) -> Option<f64> {
    rate.map(|r| (r * 100.0).round() / 100.0)
}

/// A reading of the 10-hour test window taken `minutes_ago`, `used`%
/// consumed, belonging to the window that resets 4 hours from `now()`.
fn point(minutes_ago: i64, used: f64) -> QuotaSnapshot {
    QuotaSnapshot {
        poll_id: PollId::generate(),
        ts: at(-minutes(minutes_ago)),
        window: WindowId::from("w"),
        label: "w".to_owned(),
        unit: QuotaUnit::Percent,
        used: amount(used),
        limit: Some(amount(100.0)),
        reset_at: Some(at(hours(4))),
    }
}

#[test]
fn recent_pace_measures_the_last_stretch_not_the_whole_window() {
    // 60% of a 10-hour window used with 6 hours gone is dead on track...
    let window = effective(60.0, 4);
    assert_eq!(pace(&window, now()), Some(1.0));
    // ...but 10 points of it went in the last half hour, which is twice
    // the rate the window can afford.
    let series = [point(30, 50.0), point(0, 60.0)];
    assert_eq!(
        as_shown(recent_pace(&window, &series, max_gap(), now())),
        Some(2.0)
    );
}

#[test]
fn recent_pace_never_measures_across_a_rollover() {
    let window = effective(60.0, 4);
    // A reading from the window that came before this one: same series,
    // different reset instant, and 90% used where this window has 60%.
    let mut previous = point(45, 90.0);
    previous.reset_at = Some(at(-hours(1)));

    let series = [previous, point(30, 50.0), point(0, 60.0)];
    // Measured from the far side of the boundary only — reading across it
    // would report usage falling by 30 points.
    assert_eq!(
        as_shown(recent_pace(&window, &series, max_gap(), now())),
        Some(2.0)
    );
}

#[test]
fn recent_pace_needs_two_readings_far_enough_apart() {
    let window = effective(60.0, 4);
    assert_eq!(recent_pace(&window, &[], max_gap(), now()), None);
    assert_eq!(
        recent_pace(&window, &[point(0, 60.0)], max_gap(), now()),
        None
    );
    // Two polls two minutes apart are mostly rounding.
    let series = [point(2, 59.0), point(0, 60.0)];
    assert_eq!(recent_pace(&window, &series, max_gap(), now()), None);
}

#[test]
fn a_provider_correction_ends_the_stretch_rather_than_reading_across_it() {
    let window = effective(70.0, 4);
    // 62% revised down to 60% half an hour ago, then 10 points burnt since.
    let series = [
        point(60, 40.0),
        point(45, 62.0),
        point(30, 60.0),
        point(0, 70.0),
    ];
    // Measured from the far side of the revision only: 10 points in 30
    // minutes of a 10-hour window is twice what it can afford. Reading
    // across it would subtract two readings that never described the same
    // accounting.
    assert_eq!(
        as_shown(recent_pace(&window, &series, max_gap(), now())),
        Some(2.0)
    );
}

#[test]
fn a_stretch_whose_only_content_is_a_correction_has_no_rate() {
    // Two readings with a revision between them leave nothing to measure:
    // no interval of this series describes a burn. Better to shed the
    // field than to report the `0.00×` that clamping a negative would.
    let window = effective(60.0, 4);
    let series = [point(30, 62.0), point(0, 60.0)];
    assert_eq!(recent_pace(&window, &series, max_gap(), now()), None);
}

#[test]
fn a_reset_too_small_for_the_detector_still_ends_the_stretch() {
    // A weekly window restarting from 1.8% is under `MIN_RESET_DROP`, so
    // nothing recorded it and no anchor exists — but the fall is still a
    // fall, and the burn since it is the only rate there is. Reading
    // across it would subtract 1.8 from 1.2 and print `0.00× now` over
    // exactly the stretch a fresh window was being spent.
    //
    // 1.2 points in the 40 minutes since the restart, against a 10-hour
    // window: 0.012 / 2400s × 36000s.
    let window = effective(1.2, 4);
    let series = [
        point(50, 1.8),
        point(40, 0.0),
        point(20, 0.6),
        point(0, 1.2),
    ];
    assert_eq!(
        as_shown(recent_pace(&window, &series, max_gap(), now())),
        Some(0.18)
    );
}

#[test]
fn a_young_window_has_no_average_pace_however_long_it_has_run() {
    // Five minutes into a five-day window with 5% spent. The division is
    // sound and worthless: 300 seconds is a fourteen-hundredth of the
    // window, so it reports 72×, and the runway derived from it warns of a
    // cap in an hour and a half. A floor in absolute time cannot catch
    // this — the same 300 seconds is a twentieth of a shorter window — so
    // the fraction is what is floored.
    let long = EffectiveWindow {
        window: WindowId::from("w"),
        start: at(-minutes(5)),
        reset_at: at(days(5) - minutes(5)),
        start_uncertainty: 0,
        used: Some(amount(0.05)),
    };
    assert_eq!(pace(&long, now()), None);
    assert_eq!(runway(&long, now()), None);
    assert_eq!(eta_to_cap(&long, now()), None);

    // The field arrives once a twentieth of the window has run, and what
    // it can print on arrival is bounded by that same twentieth.
    let grown = at(hours(7));
    let got = pace(&long, grown).expect("a window past its opening");
    assert!(got <= MIN_ELAPSED_PARTS as f64, "unbounded pace {got}");
}

#[test]
fn a_slip_too_small_to_print_does_not_end_the_stretch() {
    let window = effective(60.0, 4);
    // A tenth of a point given back ten minutes ago: below the rounding
    // the row prints, so cutting there would drop the field over a change
    // nobody can see. 2 points in 40 minutes of a 10-hour window.
    let series = [
        point(40, 58.0),
        point(30, 58.5),
        point(20, 59.0),
        point(10, 58.9),
        point(0, 60.0),
    ];
    assert_eq!(
        as_shown(recent_pace(&window, &series, max_gap(), now())),
        Some(0.3)
    );

    // Six tenths of a point is a change the row would show, and the cut
    // stands: measured from the far side of it only.
    let series = [
        point(40, 58.0),
        point(30, 58.5),
        point(20, 59.0),
        point(10, 58.4),
        point(0, 60.0),
    ];
    assert_eq!(
        as_shown(recent_pace(&window, &series, max_gap(), now())),
        Some(0.96)
    );
}

#[test]
fn a_window_that_just_opened_has_no_recent_stretch_to_measure() {
    // Nothing before the window's own start counts, and it started now.
    let window = effective(0.0, 10);
    let series = [point(30, 50.0), point(0, 60.0)];
    assert_eq!(recent_pace(&window, &series, max_gap(), now()), None);
}

#[test]
fn eta_to_cap_only_fires_when_the_cap_comes_first() {
    // 90% used, 6h elapsed → ~0.67h to burn the last 10%, well before the
    // 4h reset.
    let eta = eta_to_cap(&effective(90.0, 4), now()).expect("cap projected");
    assert!(now().before(eta) && eta.before(at(hours(4))));

    // 30% used at the same point projects past the reset: no warning.
    assert_eq!(eta_to_cap(&effective(30.0, 4), now()), None);
    // Nothing used yet: no rate to extrapolate.
    assert_eq!(eta_to_cap(&effective(0.0, 4), now()), None);
    // Already capped.
    assert_eq!(eta_to_cap(&effective(100.0, 4), now()), Some(now()));
}

#[test]
fn metrics_are_none_without_a_measurable_window() {
    // A window whose unit gives no ratio: the clock is known, the usage is
    // not, and every number here is usage over the clock.
    let mut unmeasurable = window(50.0, 4);
    unmeasurable.unit = QuotaUnit::Messages;
    unmeasurable.limit = None;
    let w = effective_window(&view(unmeasurable, None), now()).unwrap();
    assert_eq!(pace(&w, now()), None);
    assert_eq!(eta_to_cap(&w, now()), None);
    assert_eq!(runway(&w, now()), None);
    assert_eq!(affordable_pace(&w, now()), None);
    // The clock half still works, which is what lets the chart draw rules
    // for a window whose usage it cannot scale.
    assert_eq!(elapsed_fraction(&w, now()), Some(0.6));
}

/// A rollover of `kind` for the 10-hour test window, `hours_ago` back.
fn rollover(kind: RolloverKind, hours_ago: i64) -> WindowRollover {
    WindowRollover {
        account: AccountId::from("a"),
        window: WindowId::from("w"),
        poll: PollId::generate(),
        observed_at: at(-hours(hours_ago)),
        kind,
        prev_reset_at: None,
        new_reset_at: None,
        prev_used: amount(90.0),
        new_used: amount(1.0),
        prev_observed_at: Some(at(-hours(hours_ago) - minutes(3))),
    }
}

/// The 24h interval the chart would be showing at `now`.
fn day() -> (Timestamp, Timestamp) {
    (at(-hours(24)), now())
}

#[test]
fn observed_rollovers_become_rules_by_severity() {
    let (from, to) = day();
    // 4 of 10 hours remain, so the current window began 6 hours ago; keep
    // both rollovers well clear of that.
    let found = boundaries(
        &WindowId::from("w"),
        Some(&effective(60.0, 4)),
        &[
            rollover(RolloverKind::Scheduled, 20),
            rollover(RolloverKind::Early, 14),
        ],
        from,
        to,
    );
    let kinds: Vec<_> = found.iter().map(|b| b.kind).collect();
    assert_eq!(
        kinds,
        vec![
            BoundaryKind::Rollover,
            BoundaryKind::Surprise,
            BoundaryKind::CurrentStart,
            BoundaryKind::UpcomingReset,
        ]
    );
    // Past boundaries are ordered oldest first.
    assert!(found[0].at.before(found[1].at) && found[1].at.before(found[2].at));
}

#[test]
fn an_unannounced_drop_marks_no_boundary() {
    let (from, to) = day();
    let found = boundaries(
        &WindowId::from("w"),
        Some(&effective(60.0, 4)),
        &[rollover(RolloverKind::Unannounced, 20)],
        from,
        to,
    );
    // Only the current window's own two edges.
    assert_eq!(
        found.iter().map(|b| b.kind).collect::<Vec<_>>(),
        vec![BoundaryKind::CurrentStart, BoundaryKind::UpcomingReset]
    );
}

#[test]
fn the_rollover_that_began_this_window_is_not_drawn_twice() {
    let (from, to) = day();
    // The current window started 6h ago; a rollover observed one poll
    // later is that same event seen from the other side.
    let mut seen = rollover(RolloverKind::Scheduled, 6);
    seen.observed_at = after(seen.observed_at, seconds(60));
    let found = boundaries(
        &WindowId::from("w"),
        Some(&effective(60.0, 4)),
        &[seen],
        from,
        to,
    );
    assert_eq!(
        found.iter().map(|b| b.kind).collect::<Vec<_>>(),
        vec![BoundaryKind::CurrentStart, BoundaryKind::UpcomingReset]
    );
}

#[test]
fn boundaries_outside_the_interval_and_other_windows_are_dropped() {
    let (from, to) = day();
    let mut elsewhere = rollover(RolloverKind::Early, 14);
    elsewhere.window = WindowId::from("other");
    let found = boundaries(
        &WindowId::from("w"),
        Some(&effective(60.0, 4)),
        &[rollover(RolloverKind::Early, 30), elsewhere],
        from,
        to,
    );
    assert_eq!(
        found.iter().map(|b| b.kind).collect::<Vec<_>>(),
        vec![BoundaryKind::CurrentStart, BoundaryKind::UpcomingReset]
    );
}

#[test]
fn a_window_start_outside_the_interval_is_not_drawn() {
    let (from, to) = day();
    // A 10-hour window resetting in 20 hours started 10 hours before the
    // left edge — off the chart, but the reset is still known.
    let found = boundaries(
        &WindowId::from("w"),
        Some(&effective(10.0, 20)),
        &[],
        from,
        to,
    );
    assert_eq!(
        found.iter().map(|b| b.kind).collect::<Vec<_>>(),
        vec![BoundaryKind::UpcomingReset]
    );
}

/// The "does nothing without a cap" requirement: a provider that publishes
/// no reset instant, and no history of ever having rolled over, must
/// produce no rules at all.
#[test]
fn a_window_with_no_reset_instant_has_no_boundaries() {
    let (from, to) = day();
    assert!(boundaries(&WindowId::from("w"), None, &[], from, to).is_empty());
}
#[test]
fn a_start_seen_through_a_wide_bracket_is_uncertain() {
    let bracketed = |half: i64| {
        let observed = ObservedStart {
            not_before: at(-hours(2) - half),
            not_after: at(-hours(2) + half),
        };
        effective_window(&view(window(30.0, 4), Some(observed)), now()).unwrap()
    };
    // A twentieth of the six hours that ran is 18 minutes.
    let uncertain = teiryo::metrics::start_is_uncertain;
    assert!(!uncertain(&bracketed(minutes(9))));
    assert!(uncertain(&bracketed(minutes(9) + 1)));
    assert!(!uncertain(&effective(30.0, 4)));
}

#[test]
fn the_gap_tolerance_is_four_polls_and_never_under_ten_minutes() {
    assert_eq!(gap_tolerance(60), nanos(600));
    assert_eq!(gap_tolerance(150), nanos(600));
    assert_eq!(gap_tolerance(151), nanos(604));
    assert_eq!(gap_tolerance(u32::MAX), nanos(4 * i64::from(u32::MAX)));
}

// ---------------------------------------------------------------------------
// Generated windows and series
// ---------------------------------------------------------------------------

fn holds(ok: bool, what: String) -> Result<(), TestCaseError> {
    if ok {
        Ok(())
    } else {
        Err(TestCaseError::fail(what))
    }
}

/// A window that reset earlier than the provider's arithmetic implies.
///
/// `reset_at` is where the provider says the window ends; `span` is the
/// nominal length. `start` is where the window *actually* opened — after
/// `reset_at - span`, because a missed reset can only ever have moved the
/// start forwards.
///
/// The daemon never sees the restart happen, only two polls that straddle
/// it, so what it publishes is the bracket `gap_before`/`gap_after` mark
/// out around `start` rather than `start` itself.
#[derive(Debug, Clone)]
struct EarlyReset {
    span: i64,
    reset_at: Timestamp,
    start: Timestamp,
    gap_before: i64,
    gap_after: i64,
    used: f64,
}

impl EarlyReset {
    /// The window as it reaches the TUI: the provider's reading, plus the
    /// bracket the daemon observed the restart inside.
    fn view(&self) -> WindowView {
        WindowView {
            window: QuotaWindow {
                reset_kind: ResetKind::Rolling(Length {
                    secs: self.span as u64,
                    nanos: 0,
                }),
                used: amount(self.used * 100.0),
                reset_at: Some(self.reset_at),
                ..window(0.0, 0)
            },
            hint: hint(),
            observed_start: Some(self.observed()),
        }
    }

    fn observed(&self) -> ObservedStart {
        ObservedStart {
            not_before: after(self.start, -self.gap_before),
            not_after: after(self.start, self.gap_after),
        }
    }

    /// The pace of a window that began at `start`: usage over the fraction
    /// of `start..reset_at` that has elapsed.
    fn pace_from(&self, start: Timestamp, now: Timestamp) -> f64 {
        let length = (self.reset_at.since(start) / nanos(1)) as f64;
        let elapsed = (now.since(start) / nanos(1)) as f64;
        self.used / (elapsed / length)
    }
}

/// A twentieth: less of a window than this says nothing about its pace.
const MIN_ELAPSED_FRACTION: f64 = 0.05;

/// The least elapsed time, in seconds, a draw may leave the window with.
fn youngest_measurable(remaining_secs: i64) -> i64 {
    let youngest = (remaining_secs as f64 * MIN_ELAPSED_FRACTION / (1.0 - MIN_ELAPSED_FRACTION))
        .ceil() as i64;
    youngest.max(3600)
}

fn assemble(
    (span, used, remaining, early_by, gap_before, gap_after): (i64, f64, i64, i64, i64, i64),
) -> EarlyReset {
    let reset_at = at(remaining);
    EarlyReset {
        span,
        reset_at,
        start: after(reset_at, early_by - span),
        gap_before,
        gap_after,
        used,
    }
}

/// A window that restarted early, in every shape an effective window is made
/// of, those too young for a pace among them.
fn early_reset() -> impl Strategy<Value = EarlyReset> {
    (hours(5)..days(14), 0.01f64..0.95)
        .prop_flat_map(|(span, used)| (Just(span), Just(used), 3600i64..(span / 2)))
        .prop_flat_map(|(span, used, remaining)| {
            let hi = span - remaining - youngest_measurable(remaining);
            (
                Just(span),
                Just(used),
                Just(remaining),
                3600i64..hi,
                60i64..3600,
                60i64..3600,
            )
        })
        .prop_map(assemble)
}

/// A window that restarted early, whose anchor is old enough for `pace` to
/// answer.
fn early_reset_with_a_measurable_pace() -> impl Strategy<Value = EarlyReset> {
    (hours(5)..days(14), 0.01f64..0.95)
        .prop_flat_map(|(span, used)| {
            (
                Just(span),
                Just(used),
                3600i64..(span / 2),
                60i64..3600,
                60i64..3600,
            )
        })
        .prop_flat_map(|(span, used, remaining, before, after)| {
            let shift = ((after - before + 1) / 2).max(0);
            let hi = span - remaining - youngest_measurable(remaining) - shift;
            (
                Just(span),
                Just(used),
                Just(remaining),
                3600i64..hi,
                Just(before),
                Just(after),
            )
        })
        .prop_map(assemble)
}

/// A window whose anchor leaves it too young for a pace.
fn early_reset_too_young_to_pace() -> impl Strategy<Value = EarlyReset> {
    (26_000i64..days(14), 0.01f64..0.95, 60i64..600, 60i64..600)
        .prop_flat_map(|(span, used, before, after)| {
            (
                Just(span),
                Just(used),
                12_000i64..(span / 2),
                Just(before),
                Just(after),
            )
        })
        .prop_flat_map(|(span, used, remaining, before, after)| {
            let displacement = (after - before) / 2;
            let floor = (remaining as f64 * MIN_ELAPSED_FRACTION / (1.0 - MIN_ELAPSED_FRACTION))
                .ceil() as i64;
            let least = (after - displacement).max(1);
            (
                Just(span),
                Just(used),
                Just(remaining),
                least..floor,
                Just(before),
                Just(after),
            )
        })
        .prop_map(|(span, used, remaining, elapsed, before, after)| {
            let displacement = (after - before) / 2;
            let early_by = span - remaining - elapsed - displacement;
            assemble((span, used, remaining, early_by, before, after))
        })
}

fn in_range(w: &EarlyReset) {
    let e = effective_window(&w.view(), now()).expect("a reset instant");
    assert!(e.start.before(e.reset_at), "window runs backwards: {w:?}");
    let f = elapsed_fraction(&e, now()).expect("a positive span");
    assert!((0.0..=1.0).contains(&f), "elapsed fraction {f} for {w:?}");
    if let Some(p) = pace(&e, now()) {
        assert!(p.is_finite() && p >= 0.0, "pace {p} for {w:?}");
    }
    if let Some(a) = affordable_pace(&e, now()) {
        assert!(a.is_finite() && a >= 0.0, "affordable {a} for {w:?}");
    }
    if let Some(r) = runway(&e, now()) {
        assert!(r >= 0, "runway {r} for {w:?}");
    }
    if let Some(eta) = eta_to_cap(&e, now()) {
        assert!(
            !eta.before(now()) && eta.before(w.reset_at),
            "eta {eta:?} for {w:?}"
        );
    }
}

#[test]
fn the_shrunk_early_resets_still_hold() {
    for w in [
        EarlyReset {
            span: 209_404,
            // 2026-08-21 13:00:23 and 2026-08-19 21:23:11.
            reset_at: at(3_623),
            start: at(-139_009),
            gap_before: 60,
            gap_after: 60,
            used: 0.591_235_081_022_373_7,
        },
        EarlyReset {
            span: 1_127_057,
            // 2026-08-24 04:59:17 and 2026-08-21 08:41:54.
            reset_at: at(233_957),
            start: at(-11_886),
            gap_before: 60,
            gap_after: 60,
            used: 0.770_789_297_552_086,
        },
    ] {
        in_range(&w);
    }
}

#[test]
fn a_cap_past_the_calendar_is_no_cap() {
    let window = EffectiveWindow {
        window: WindowId::from("w"),
        start: at(-hours(6)),
        reset_at: at(hours(4)),
        start_uncertainty: 0,
        used: Some(amount(1e-9)),
    };
    let projected = runway(&window, now());
    assert!(projected.is_some_and(|secs| secs > 9_000_000_000_000), "{projected:?}");
    assert_eq!(eta_to_cap(&window, now()), None);
    for secs in [i64::MIN, i64::MAX] {
        assert_eq!(teiryo::metrics::eta_to_cap(&window, Some(secs), now()), None);
    }
    assert_eq!(
        teiryo::metrics::eta_to_cap(&window, Some(hours(4)), now()),
        None
    );
    assert_eq!(
        teiryo::metrics::eta_to_cap(&window, Some(hours(4) - 1), now()),
        Some(at(hours(4) - 1))
    );
}

#[test]
fn derived_numbers_stay_in_range() {
    TestRunner::deterministic()
        .run(&early_reset(), |w| {
            in_range(&w);
            Ok(())
        })
        .unwrap();
}

#[test]
fn pace_is_anchored_inside_the_observed_bracket() {
    TestRunner::deterministic()
        .run(&early_reset_with_a_measurable_pace(), |w| {
            let effective = effective_window(&w.view(), now()).expect("a reset instant");
            let observed = w.observed();
            holds(
                !effective.start.before(observed.not_before)
                    && !observed.not_after.before(effective.start),
                format!("anchored at {:?} outside {observed:?}", effective.start),
            )?;
            let got = pace(&effective, now()).expect("a mid-window pace");
            let floor = w.pace_from(observed.not_before, now());
            let ceiling = w.pace_from(observed.not_after, now());
            holds(
                got >= floor - 0.005 && got <= ceiling + 0.005,
                format!("pace {got:.4} outside [{floor:.4}, {ceiling:.4}]"),
            )
        })
        .unwrap();
}

#[test]
fn a_window_too_young_to_pace_withholds_what_rests_on_its_start() {
    TestRunner::deterministic()
        .run(&early_reset_too_young_to_pace(), |w| {
            let effective = effective_window(&w.view(), now()).expect("a reset instant");
            holds(
                effective.start == w.observed().estimate(),
                "anchor dropped".to_owned(),
            )?;
            let f = elapsed_fraction(&effective, now()).expect("a positive span");
            holds(f < MIN_ELAPSED_FRACTION, format!("elapsed {f} clears the floor"))?;
            holds(
                pace(&effective, now()).is_none()
                    && runway(&effective, now()).is_none()
                    && eta_to_cap(&effective, now()).is_none(),
                format!("a pace at {f} elapsed"),
            )?;
            holds(
                affordable_pace(&effective, now()).is_some(),
                "afford rests on reset_at, not on the start".to_owned(),
            )
        })
        .unwrap();
}

/// A generated series of readings of one window: an older stretch, an
/// optional outage, then a newer stretch ending `stale` before `now`.
#[derive(Debug, Clone)]
struct Series {
    cadence: i64,
    /// The stretch between the two, in multiples of `cadence`. At most
    /// four it is ordinary cadence and the two are one continuous run;
    /// beyond that it is longer than `max_gap` and they are not.
    outage: i64,
    /// Utilization at each reading of the older stretch, oldest first.
    older: Vec<f64>,
    /// Where the older stretch picks up from.
    older_base: f64,
    /// The same for the newer stretch, which is what a "now" rate is about.
    newer: Vec<f64>,
    /// How long before `now` the newest reading was taken.
    stale: i64,
    /// Whether the window reset during the outage. When it did, the
    /// provider does not say so: `reset_at` stays where it was.
    reset_between: bool,
    /// Sort keys, so a property can rearrange the series and check the
    /// answer does not move.
    order: Vec<u64>,
}

/// The window these series are readings of: a weekly one, three days from
/// its reset, so every generated reading falls inside both the window and
/// the 12-hour lookback and neither edge is what the property is measuring.
fn series_window(used: f64) -> EffectiveWindow {
    let weekly = QuotaWindow {
        reset_kind: ResetKind::Rolling(Length {
            secs: 7 * 24 * 3600,
            nanos: 0,
        }),
        used: amount(used * 100.0),
        reset_at: Some(at(days(3))),
        ..window(0.0, 0)
    };
    // Deliberately nothing observed: these properties are about reading the
    // series itself, so the reset inside it has to be found there rather than
    // handed over by the daemon.
    effective_window(&view(weekly, None), now()).expect("a reset instant")
}

impl Series {
    /// Utilization at each reading, oldest first. The newer stretch
    /// continues the older one, or restarts from zero when the window reset
    /// between them.
    fn values(&self) -> (Vec<f64>, Vec<f64>) {
        let older: Vec<f64> = self
            .older
            .iter()
            .map(|v| (self.older_base + v).min(1.0))
            .collect();
        let base = if self.reset_between {
            0.0
        } else {
            older.last().copied().unwrap_or(0.0)
        };
        let newer = self.newer.iter().map(|v| (base + v).min(1.0)).collect();
        (older, newer)
    }

    /// The readings, shifted `extra` further into the past.
    fn points_aged(&self, extra: i64) -> Vec<QuotaSnapshot> {
        let (older, newer) = self.values();
        let newest = -self.stale - extra;
        let mut out = Vec::new();
        for (k, used) in newer.iter().rev().enumerate() {
            out.push(self.point(newest - self.cadence * k as i64, *used));
        }
        let older_end =
            newest - self.cadence * (newer.len() as i64 - 1).max(0) - self.cadence * self.outage;
        for (k, used) in older.iter().rev().enumerate() {
            out.push(self.point(older_end - self.cadence * k as i64, *used));
        }
        out.reverse();
        out
    }

    fn points(&self) -> Vec<QuotaSnapshot> {
        self.points_aged(0)
    }

    fn point(&self, secs: i64, used: f64) -> QuotaSnapshot {
        QuotaSnapshot {
            ts: at(secs),
            used: amount(used * 100.0),
            // Silent throughout: a reset the provider never announced
            // leaves this instant exactly where it was.
            reset_at: Some(at(days(3))),
            ..point(0, 0.0)
        }
    }

    /// Utilization at the newest reading, which is what the live window
    /// would be reporting.
    fn current(&self) -> f64 {
        self.values().1.last().copied().unwrap_or(0.0)
    }

    /// The rate the newer stretch alone was burnt at.
    fn newer_pace(&self) -> f64 {
        let newer = self.values().1;
        let burned = newer.last().copied().unwrap_or(0.0) - newer[0];
        let elapsed = (self.cadence * (newer.len() as i64 - 1)) as f64;
        burned / elapsed * days(7) as f64
    }

    fn gap(&self) -> i128 {
        gap_tolerance(self.cadence as u32)
    }
}

/// A non-decreasing ramp of `len` readings from 0 up to exactly `peak`.
fn ramp(len: usize, peak: f64) -> Vec<f64> {
    let step = peak / (len - 1) as f64;
    (0..len).map(|k| step * k as f64).collect()
}

/// Series of a given shape: how long the stretch between the two runs is
/// in multiples of the cadence, and whether the window restarted across it.
fn series_shaped(
    outage: std::ops::Range<i64>,
    reset_between: impl Strategy<Value = bool>,
) -> impl Strategy<Value = Series> {
    (
        // Cadence bounded below so `max_gap` is always 4 × cadence, and
        // above so the whole series stays inside the 12-hour lookback.
        150i64..400i64,
        outage,
        (6usize..20, 0.05f64..0.5, 0.0f64..0.5),
        (6usize..20, 0.05f64..0.5),
        0i64..600,
        reset_between,
        many(any::<u64>(), 40),
    )
        .prop_map(
            |(cadence, outage, older, newer, stale, reset_between, order)| Series {
                cadence,
                outage,
                older: ramp(older.0, older.1),
                older_base: older.2,
                newer: ramp(newer.0, newer.1),
                stale,
                reset_between,
                order,
            },
        )
}

/// Two rates agree to the two decimals the dashboard prints.
fn same_rate(a: f64, b: f64) -> bool {
    (a - b).abs() < 0.005
}

#[test]
fn the_shrunk_series_still_reports_only_its_newer_stretch() {
    let climb: Vec<f64> = vec![0.0, 0.01, 0.02, 0.03, 0.04, 0.05];
    for reset_between in [false, true] {
        let s = Series {
            cadence: 150,
            // Beyond four cadences, so the two stretches are not one run.
            outage: 5,
            older: climb.clone(),
            older_base: 0.0,
            newer: climb.clone(),
            stale: 0,
            reset_between,
            order: Vec::new(),
        };
        let window = series_window(s.current());
        let got = recent_pace(&window, &s.points(), s.gap(), now()).expect("a rate");
        let want = s.newer_pace();
        assert!(
            (got - want).abs() < 1e-9,
            "reset_between={reset_between}: got {got}, want {want}"
        );
    }
}

#[test]
fn a_rate_labelled_now_ignores_everything_before_the_outage() {
    TestRunner::deterministic()
        .run(&series_shaped(5..12, any::<bool>()), |s| {
            let window = series_window(s.current());
            let whole = recent_pace(&window, &s.points(), s.gap(), now());
            let newest_only: Vec<_> = s
                .points()
                .into_iter()
                .filter(|p| {
                    now().since(p.ts) <= nanos(s.cadence * s.newer.len() as i64 + s.stale)
                })
                .collect();
            let trimmed = recent_pace(&window, &newest_only, s.gap(), now());
            holds(
                match (whole, trimmed) {
                    (Some(a), Some(b)) => same_rate(a, b),
                    (a, b) => a == b,
                },
                format!("dropping the stretch before the outage: {whole:?} became {trimmed:?}"),
            )
        })
        .unwrap();
}

#[test]
fn a_stale_series_reports_no_current_rate() {
    TestRunner::deterministic()
        .run(&series_shaped(1..12, any::<bool>()), |s| {
            let window = series_window(s.current());
            let aged = s.points_aged((s.gap() / nanos(1)) as i64 + minutes(1));
            holds(
                recent_pace(&window, &aged, s.gap(), now()).is_none(),
                "a rate from readings past the tolerance".to_owned(),
            )
        })
        .unwrap();
}

#[test]
fn a_reset_inside_the_lookback_does_not_read_as_idle() {
    TestRunner::deterministic()
        .run(&series_shaped(1..5, Just(true)), |s| {
            let window = series_window(s.current());
            let got = recent_pace(&window, &s.points(), s.gap(), now())
                .expect("a rate after the reset");
            holds(
                same_rate(got, s.newer_pace()),
                format!("read {got:.4} across the reset, {:.4} since it", s.newer_pace()),
            )
        })
        .unwrap();
}

#[test]
fn the_rate_survives_reordering_and_duplicates() {
    TestRunner::deterministic()
        .run(&series_shaped(1..12, any::<bool>()), |s| {
            let window = series_window(s.current());
            let ordered = s.points();
            let expected = recent_pace(&window, &ordered, s.gap(), now());
            let key = |p: &QuotaSnapshot| {
                let secs = (p.ts.nanos_since_epoch() / nanos(1)) as usize;
                s.order[secs % s.order.len()]
            };
            let mut shuffled = s.points();
            shuffled.sort_by_key(key);
            holds(
                recent_pace(&window, &shuffled, s.gap(), now()) == expected,
                "reordering changed the rate".to_owned(),
            )?;
            let mut doubled = s.points();
            doubled.extend(s.points());
            holds(
                recent_pace(&window, &doubled, s.gap(), now()) == expected,
                "a duplicated poll changed the rate".to_owned(),
            )
        })
        .unwrap();
}

/// A weekly window publishing a Thursday reset actually restarted on the
/// Tuesday; by Tuesday evening 5% of it is gone.
///
/// Against the published seven-day span that reads as 0.07× — "you are
/// barely touching it". Against the two-day window that actually ran, with
/// its full budget, it is 0.60× and climbing.
#[test]
fn a_silent_early_weekly_reset_reads_at_its_true_pace() {
    // 2026-08-27 00:00:00 and 2026-08-25 00:00:00.
    let reset_at = at(days(6) - hours(12));
    let observed_start = at(days(4) - hours(12));
    let evening = after(observed_start, hours(4));
    let weekly = EarlyReset {
        span: days(7),
        reset_at,
        start: observed_start,
        // Polled every three minutes, so the restart is bracketed tightly
        // and the midpoint is the restart to within a poll.
        gap_before: minutes(3),
        gap_after: minutes(3),
        used: 0.05,
    };

    // What the window that actually ran says: 4 hours into 2 days.
    let expected: f64 = 0.05 / (4.0 / 48.0);
    assert!((expected - 0.6).abs() < 0.005, "worked example: {expected}");

    let effective = effective_window(&weekly.view(), evening).expect("a reset instant");
    let got = pace(&effective, evening).expect("a pace");
    assert!(
        (got - expected).abs() < 0.005,
        "read {got:.2}× against a true {expected:.2}×",
    );

    // And what the published span alone says: the same 5% spread over five of
    // seven days.
    let published = WindowView {
        observed_start: None,
        ..weekly.view()
    };
    let stale = effective_window(&published, evening).expect("a reset instant");
    let was = pace(&stale, evening).expect("a pace");
    assert!((was - 0.07).abs() < 0.005, "the published reading was {was:.2}×");
}
