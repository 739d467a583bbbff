//! Reset detection.

use std::time::Duration as Length;

use teiryo::amount::Amount;
use teiryo::domain::{QuotaUnit, QuotaWindow, ResetKind, WindowScope};
use teiryo::ids::{AccountId, PollId, WindowId};
use teiryo::rollover::{
    detect, predecessor, Fall, ObservedStart, RolloverKind, WindowRollover, RESET_COLLAPSE_RATIO,
};
use teiryo::time::{Duration, Timestamp};

const SEC: i128 = 1_000_000_000;
const MINUTE: i128 = 60 * SEC;
const HOUR: i128 = 3600 * SEC;

/// 2026-08-21 12:00:00 UTC.
fn now() -> Timestamp {
    Timestamp::from_nanos(1_787_313_600 * SEC)
}

fn plus(ts: Timestamp, nanos: i128) -> Timestamp {
    Timestamp::from_nanos(ts.nanos_since_epoch() + nanos)
}

fn after_now(nanos: i128) -> Timestamp {
    plus(now(), nanos)
}

fn amount(value: f64) -> Amount {
    Amount {
        bits: value.to_bits(),
    }
}

fn value(amount: Amount) -> f64 {
    f64::from_bits(amount.bits)
}

fn account() -> AccountId {
    AccountId::from("acme:test")
}

/// A 5-hour percent window `used`% consumed, resetting at `reset_at`.
fn window(used: f64, reset_at: Option<Timestamp>) -> QuotaWindow {
    QuotaWindow {
        id: WindowId::from("session_5h"),
        label: "Session — 5 hour".to_owned(),
        scope: WindowScope::AccountWide,
        reset_kind: ResetKind::Rolling(Duration {
            secs: 5 * 3600,
            nanos: 0,
        }),
        unit: QuotaUnit::Percent,
        used: amount(used),
        limit: Some(amount(100.0)),
        reset_at,
    }
}

fn utilization(window: &QuotaWindow) -> Option<f64> {
    let quotient = window.divisor().map(|d| value(window.used) / value(d));
    window
        .utilization(amount(quotient.unwrap_or(0.0)))
        .map(value)
}

/// How each window's utilization fell from that of its predecessor.
fn falls(prev: &[QuotaWindow], next: &[QuotaWindow]) -> Vec<Option<Fall>> {
    next.iter()
        .map(|after| {
            let before = &prev[predecessor(prev, &after.id)?];
            let (before, after) = (utilization(before)?, utilization(after)?);
            Some(Fall {
                new: amount(after),
                drop: amount(before - after),
                ceiling: amount(before * f64::from_bits(RESET_COLLAPSE_RATIO)),
            })
        })
        .collect()
}

fn found(
    account: &AccountId,
    prev: &[QuotaWindow],
    next: &[QuotaWindow],
    poll: PollId,
    prev_observed_at: Option<Timestamp>,
    observed_at: Timestamp,
) -> Vec<WindowRollover> {
    let falls = falls(prev, next);
    detect(
        account,
        prev,
        next,
        &falls,
        poll,
        prev_observed_at,
        observed_at,
    )
}

fn detected(before: QuotaWindow, after: QuotaWindow) -> Option<RolloverKind> {
    let found = found(
        &account(),
        &[before],
        &[after],
        PollId::generate(),
        Some(after_now(-3 * MINUTE)),
        now(),
    );
    found.first().map(|r| r.kind)
}

#[test]
fn a_window_past_its_reset_rolls_on_schedule() {
    // The old reset was a minute ago, so the new window is simply the next one
    // along.
    let before = window(88.0, Some(after_now(-MINUTE)));
    let after = window(3.0, Some(after_now(5 * HOUR)));
    assert_eq!(detected(before, after), Some(RolloverKind::Scheduled));
}

#[test]
fn a_reset_that_was_still_an_hour_out_is_early() {
    let before = window(88.0, Some(after_now(HOUR)));
    let after = window(3.0, Some(after_now(6 * HOUR)));
    assert_eq!(detected(before, after), Some(RolloverKind::Early));
}

#[test]
fn a_reset_inside_the_tolerance_is_not_early() {
    // One minute out is clock skew, not a provider decision.
    let before = window(88.0, Some(after_now(MINUTE)));
    let after = window(3.0, Some(after_now(5 * HOUR)));
    assert_eq!(detected(before, after), Some(RolloverKind::Scheduled));
}

/// Providers recompute `reset_at` per request, so an unmoved window still
/// reports an instant that drifts sub-second between polls. Without a
/// tolerance on the forward comparison every single poll is a rollover.
#[test]
fn sub_tolerance_forward_drift_is_not_a_rollover() {
    let reset = after_now(16 * HOUR);
    let before = window(77.0, Some(reset));
    let after = window(77.0, Some(plus(reset, 686_000_000)));
    assert_eq!(detected(before, after), None);
}

/// The tolerance is symmetric: the same drift backwards is also noise.
#[test]
fn sub_tolerance_backward_drift_is_not_a_rollover() {
    let reset = after_now(16 * HOUR);
    let before = window(77.0, Some(reset));
    let after = window(77.0, Some(plus(reset, -686_000_000)));
    assert_eq!(detected(before, after), None);
}

/// Drift must not mask a real reset the provider failed to announce.
#[test]
fn a_collapse_under_drift_is_still_unannounced() {
    let reset = after_now(16 * HOUR);
    let before = window(77.0, Some(reset));
    let after = window(2.0, Some(plus(reset, 686_000_000)));
    assert_eq!(detected(before, after), Some(RolloverKind::Unannounced));
}

#[test]
fn a_reset_moving_backwards_is_retracted() {
    let before = window(40.0, Some(after_now(4 * HOUR)));
    let after = window(40.0, Some(after_now(HOUR)));
    assert_eq!(detected(before, after), Some(RolloverKind::Retracted));
}

#[test]
fn usage_collapsing_without_a_reset_move_is_unannounced() {
    let reset = Some(after_now(2 * HOUR));
    assert_eq!(
        detected(window(60.0, reset), window(2.0, reset)),
        Some(RolloverKind::Unannounced)
    );
}

#[test]
fn a_small_correction_is_not_a_rollover() {
    // Exactly the kind of downward revision that must not break a series.
    let reset = Some(after_now(2 * HOUR));
    assert_eq!(detected(window(60.0, reset), window(58.0, reset)), None);
}

#[test]
fn a_reset_is_judged_by_what_is_left_not_by_how_much_went() {
    let reset = Some(after_now(2 * HOUR));
    // A fifth of a weekly window handed back is a reset, however modest the
    // absolute drop.
    assert_eq!(
        detected(window(20.0, reset), window(0.0, reset)),
        Some(RolloverKind::Unannounced)
    );
    // Halving a number this small is a revision, not a restart: the ratio
    // alone is trivially satisfied down here, so the floor is what decides.
    assert_eq!(detected(window(0.4, reset), window(0.1, reset)), None);
    assert_eq!(detected(window(5.0, reset), window(2.0, reset)), None);
    // A big drop that still leaves most of the window standing is a
    // correction, not a restart — the ratio, not the drop, decides.
    assert_eq!(detected(window(90.0, reset), window(50.0, reset)), None);
}

/// Both constants are a strict/non-strict choice, and every test above
/// straddles them without landing on either. A rule written with `>` and `<`
/// instead of `>=` and `<=` passes all of them and fails all of these.
#[test]
fn a_fall_exactly_on_either_threshold_is_a_reset() {
    let reset = Some(after_now(2 * HOUR));
    // 10% → 5% sits on *both* at once: the drop is exactly the floor and what
    // is left is exactly the ratio of what was there.
    assert_eq!(
        detected(window(10.0, reset), window(5.0, reset)),
        Some(RolloverKind::Unannounced)
    );
    // Exactly on the ratio, well clear of the floor, so only the ratio's
    // boundary is under test here.
    assert_eq!(
        detected(window(90.0, reset), window(45.0, reset)),
        Some(RolloverKind::Unannounced)
    );
    // A window that climbed to exactly five points and restarted.
    assert_eq!(
        detected(window(5.0, reset), window(0.0, reset)),
        Some(RolloverKind::Unannounced)
    );
}

/// The other side of each threshold, isolated: one case that only the floor
/// rejects and one that only the ratio rejects.
#[test]
fn a_fall_one_step_past_either_threshold_is_not() {
    let reset = Some(after_now(2 * HOUR));
    // Exactly on the ratio and a hair under the floor: 8% → 4% gives back half
    // of what was there, and half of a number this small is under five points.
    // The floor alone rejects it.
    assert_eq!(detected(window(8.0, reset), window(4.0, reset)), None);
    // Forty-four points is far over the floor, and 46% left is a hair over
    // half of 90%. The ratio alone rejects it.
    assert_eq!(detected(window(90.0, reset), window(46.0, reset)), None);
}

#[test]
fn an_observed_start_is_the_middle_of_the_bracket_it_was_seen_in() {
    let observed_at = now();
    let found = found(
        &account(),
        &[window(60.0, Some(plus(observed_at, 2 * HOUR)))],
        &[window(0.0, Some(plus(observed_at, 2 * HOUR)))],
        PollId::generate(),
        Some(plus(observed_at, -4 * HOUR)),
        observed_at,
    );
    let start = ObservedStart::from_rollover(&found[0]);
    assert_eq!(start.uncertainty(), 4 * HOUR);
    assert_eq!(start.estimate(), plus(observed_at, -2 * HOUR));
}

#[test]
fn a_rollover_with_no_recorded_predecessor_brackets_nothing() {
    // How a row written before the column existed reads: the instant we
    // noticed, with no claim about how long before that it happened.
    let found = found(
        &account(),
        &[window(60.0, Some(after_now(2 * HOUR)))],
        &[window(0.0, Some(after_now(2 * HOUR)))],
        PollId::generate(),
        None,
        now(),
    );
    let start = ObservedStart::from_rollover(&found[0]);
    assert_eq!(start.uncertainty(), 0);
    assert_eq!(start.estimate(), now());
}

#[test]
fn usage_rising_is_never_a_rollover() {
    let reset = Some(after_now(2 * HOUR));
    assert_eq!(detected(window(20.0, reset), window(55.0, reset)), None);
}

#[test]
fn a_window_without_a_reset_instant_still_reports_a_collapse() {
    // No `reset_at` to compare, but the usage evidence stands on its own.
    assert_eq!(
        detected(window(70.0, None), window(1.0, None)),
        Some(RolloverKind::Unannounced)
    );
}

#[test]
fn an_unmeasurable_window_reports_nothing() {
    // Tokens with no published limit: the drop has no scale to be judged
    // against, so it is not evidence of a reset.
    let tokens = |used: f64| {
        let mut w = window(used, None);
        w.unit = QuotaUnit::Tokens;
        w.limit = None;
        w
    };
    assert_eq!(detected(tokens(9_000.0), tokens(5.0)), None);
}

#[test]
fn windows_seen_only_once_are_skipped() {
    let existing = window(10.0, Some(after_now(HOUR)));
    let mut fresh = window(0.0, Some(after_now(5 * HOUR)));
    fresh.id = WindowId::from("weekly");
    // `fresh` has no predecessor and `existing` has no successor.
    assert!(found(
        &account(),
        &[existing],
        &[fresh],
        PollId::generate(),
        Some(after_now(-3 * MINUTE)),
        now()
    )
    .is_empty());
}

#[test]
fn every_rolled_window_in_one_poll_is_reported() {
    let poll = PollId::generate();
    let mut weekly_before = window(50.0, Some(after_now(-MINUTE)));
    weekly_before.id = WindowId::from("weekly");
    let mut weekly_after = window(0.0, Some(after_now(7 * 24 * HOUR)));
    weekly_after.id = WindowId::from("weekly");

    let found = found(
        &account(),
        &[window(88.0, Some(after_now(2 * HOUR))), weekly_before],
        &[window(1.0, Some(after_now(5 * HOUR))), weekly_after],
        poll,
        Some(after_now(-3 * MINUTE)),
        now(),
    );
    assert_eq!(found.len(), 2);
    assert_eq!(found[0].kind, RolloverKind::Early);
    assert_eq!(value(found[0].prev_used), 88.0);
    assert_eq!(found[1].kind, RolloverKind::Scheduled);
    assert!(found
        .iter()
        .all(|r| r.poll == poll && r.account == account()));
}

#[test]
fn only_scheduled_rollovers_are_unsurprising() {
    assert!(!RolloverKind::Scheduled.is_surprise());
    for kind in [
        RolloverKind::Early,
        RolloverKind::Retracted,
        RolloverKind::Unannounced,
    ] {
        assert!(kind.is_surprise());
    }
}

#[test]
fn an_unannounced_drop_is_not_a_window_boundary() {
    assert!(!RolloverKind::Unannounced.is_boundary());
    assert!(RolloverKind::Scheduled.is_boundary());
    assert!(RolloverKind::Early.is_boundary());
}

#[test]
fn kind_strings_round_trip() {
    for kind in [
        RolloverKind::Scheduled,
        RolloverKind::Early,
        RolloverKind::Retracted,
        RolloverKind::Unannounced,
    ] {
        assert_eq!(RolloverKind::from_column(kind.as_str()), Some(kind));
    }
    assert_eq!(RolloverKind::from_column("nonsense"), None);
}

/// A weekly window sitting at 20% restarts, and the provider leaves `reset_at`
/// alone. Nothing about that is ambiguous — a fifth of the week's budget did
/// not get refunded by a rounding fix.
#[test]
fn a_silent_weekly_reset_from_twenty_percent_is_observed() {
    // 2026-08-27 00:00:00 UTC.
    let reset_at = Timestamp::from_nanos(1_787_788_800 * SEC);
    let weekly = |used: f64| QuotaWindow {
        id: WindowId::from("weekly"),
        label: "Weekly — all models".to_owned(),
        scope: WindowScope::AccountWide,
        reset_kind: ResetKind::Rolling(Duration {
            secs: 7 * 24 * 3600,
            nanos: 0,
        }),
        unit: QuotaUnit::Percent,
        used: amount(used),
        limit: Some(amount(100.0)),
        reset_at: Some(reset_at),
    };
    // 2026-08-25 09:00:00 UTC.
    let observed_at = Timestamp::from_nanos(1_787_648_400 * SEC);
    let found = found(
        &AccountId::from("acme:test"),
        &[weekly(20.0)],
        &[weekly(0.0)],
        PollId::generate(),
        Some(plus(observed_at, -3 * MINUTE)),
        observed_at,
    );
    assert_eq!(
        found.first().map(|r| r.kind),
        Some(RolloverKind::Unannounced),
    );
}

// ---------------------------------------------------------------------------
// Reset detection against a generated ground truth
//
// Inside one window instance `used` only ever climbs. A reading lower than the
// one before it therefore was not revised — the window restarted. These
// generate a series whose reset instants are *known*, and hold the detector to
// them.
// ---------------------------------------------------------------------------

use proptest::arbitrary::any;
use proptest::collection::vec as many;
use proptest::strategy::{Strategy, ValueTree};
use proptest::test_runner::{TestCaseError, TestRunner};

/// One generated window instance: when it opened, and how far usage got before
/// the window ended.
#[derive(Debug, Clone)]
struct Run {
    opened_at: Timestamp,
    /// Utilization at each reading, oldest first, non-decreasing.
    used: Vec<f64>,
}

/// A generated history of one window: consecutive runs, the readings taken of
/// them, and whether the provider moved `reset_at` at each boundary.
#[derive(Debug, Clone)]
struct Scenario {
    span: Length,
    cadence: i128,
    runs: Vec<Run>,
    /// Whether `reset_at` advances with each reset.
    announced: bool,
    /// When announced, whether each run publishes its own real end rather than
    /// a distant one.
    punctual: bool,
    /// Sub-tolerance drift in the published instant, in seconds, applied with
    /// alternating sign.
    jitter: i128,
}

impl Scenario {
    fn readings(&self) -> Vec<(Timestamp, QuotaWindow)> {
        let span = self.span.as_nanos() as i128;
        let mut out = Vec::new();
        for (r, run) in self.runs.iter().enumerate() {
            let reset_at = match (self.announced, self.punctual) {
                (true, true) => plus(run.opened_at, self.cadence * run.used.len() as i128),
                (true, false) => plus(run.opened_at, span),
                (false, _) => plus(self.runs[0].opened_at, span),
            };
            for (k, used) in run.used.iter().enumerate() {
                let drift = if (r + k) % 2 == 0 {
                    self.jitter
                } else {
                    -self.jitter
                };
                out.push((
                    plus(run.opened_at, self.cadence * k as i128),
                    QuotaWindow {
                        id: WindowId::from("w"),
                        label: "w".to_owned(),
                        scope: WindowScope::AccountWide,
                        reset_kind: ResetKind::Rolling(Duration {
                            secs: self.span.as_secs(),
                            nanos: 0,
                        }),
                        unit: QuotaUnit::Percent,
                        used: amount(used * 100.0),
                        limit: Some(amount(100.0)),
                        reset_at: Some(plus(reset_at, drift * SEC)),
                    },
                ));
            }
        }
        out.sort_by_key(|(ts, _)| ts.nanos_since_epoch());
        out
    }

    /// Each instant at which a run actually gave way to the next, as the
    /// bracket between the last reading of the old and the first of the new.
    fn true_resets(&self) -> Vec<(Timestamp, Timestamp)> {
        self.runs
            .windows(2)
            .map(|pair| {
                let last = pair[0].used.len() as i128 - 1;
                (
                    plus(pair[0].opened_at, self.cadence * last),
                    pair[1].opened_at,
                )
            })
            .collect()
    }

    /// Every rollover the detector finds, walking the readings pairwise the way
    /// the daemon does.
    fn detected(&self) -> Vec<WindowRollover> {
        self.readings()
            .windows(2)
            .flat_map(|pair| {
                found(
                    &AccountId::from("a"),
                    std::slice::from_ref(&pair[0].1),
                    std::slice::from_ref(&pair[1].1),
                    PollId::generate(),
                    Some(pair[0].0),
                    pair[1].0,
                )
            })
            .collect()
    }
}

/// A non-decreasing ramp of `len` readings from `base` up to exactly `peak`.
fn ramp(len: usize, base: f64, peak: f64) -> Vec<f64> {
    let step = (peak - base) / (len - 1) as f64;
    (0..len).map(|k| base + step * k as f64).collect()
}

/// Scenarios with `runs` consecutive window instances.
fn scenario(runs: usize) -> impl Strategy<Value = Scenario> {
    (
        5i64 * 3600..14 * 24 * 3600i64,
        60i64..600i64,
        // A peak floor clear of the smallest fall that is a reset, so every
        // generated reset is one a correct detector is obliged to report.
        many((4usize..40, 0.08f64..1.0, 0.5f64..1.0), runs),
        any::<bool>(),
        any::<bool>(),
        0i64..=40,
    )
        .prop_map(
            |(span_secs, cadence_secs, shapes, announced, punctual, jitter)| {
                let cadence = i128::from(cadence_secs) * SEC;
                // 2026-01-01 00:00:00 UTC.
                let mut opened_at = Timestamp::from_nanos(1_767_225_600 * SEC);
                let mut out = Vec::new();
                let mut base = 0.0f64;
                for (len, peak, leftover) in shapes {
                    let from = base.min(peak * 0.9);
                    out.push(Run {
                        opened_at,
                        used: ramp(len, from, peak),
                    });
                    let ceiling = (peak - 0.075).min(peak * 0.475);
                    base = (leftover * ceiling).max(0.0);
                    opened_at = plus(opened_at, cadence * len as i128);
                }
                Scenario {
                    span: Length::from_secs(span_secs as u64),
                    cadence,
                    runs: out,
                    announced,
                    punctual,
                    jitter: i128::from(jitter),
                }
            },
        )
}

fn holds(ok: bool, otherwise: String) -> Result<(), TestCaseError> {
    if ok {
        Ok(())
    } else {
        Err(TestCaseError::fail(otherwise))
    }
}

/// What the generator actually reaches, sampled and asserted: a generator that
/// cannot produce a case is a property that cannot test it.
#[test]
fn the_generator_reaches_both_announced_kinds_and_partial_resets() {
    let mut runner = TestRunner::deterministic();
    let strategy = scenario(3);
    let mut kinds: Vec<RolloverKind> = Vec::new();
    let mut partial = false;
    for _ in 0..512 {
        let s = strategy
            .new_tree(&mut runner)
            .expect("a scenario")
            .current();
        for r in s.detected() {
            if !kinds.contains(&r.kind) {
                kinds.push(r.kind);
            }
            // A reset that left something behind is the only kind that puts
            // the ratio guard in charge of the answer.
            partial |= value(r.new_used) > 0.0;
        }
    }
    for wanted in [
        RolloverKind::Scheduled,
        RolloverKind::Early,
        RolloverKind::Unannounced,
    ] {
        assert!(
            kinds.contains(&wanted),
            "the generator never produced {wanted:?} in 512 scenarios; saw {kinds:?}"
        );
    }
    assert!(partial, "every generated reset still falls to exactly zero");
}

/// The ground truth is what it claims to be: readings are strictly ordered in
/// time and non-decreasing inside each run, and the only falls are at the
/// generated reset instants.
#[test]
fn the_generated_history_falls_only_at_its_own_resets() {
    TestRunner::deterministic()
        .run(&scenario(3), |scenario| {
            let readings = scenario.readings();
            let resets: Vec<_> = scenario.true_resets().iter().map(|(_, to)| *to).collect();
            for pair in readings.windows(2) {
                let (prev_ts, prev) = &pair[0];
                let (ts, next) = &pair[1];
                holds(prev_ts.before(*ts), format!("readings out of order at {ts:?}"))?;
                if value(next.used) < value(prev.used) {
                    holds(
                        resets.contains(ts),
                        format!("usage fell at {ts:?}, which is no reset"),
                    )?;
                }
            }
            Ok(())
        })
        .expect("the property holds");
}

/// Every reset is observed: a window that restarts after climbing to a peak
/// reset, however small the peak was, and the detector must report it between
/// the two readings that straddle it.
#[test]
fn every_reset_is_observed() {
    TestRunner::deterministic()
        .run(&scenario(3), |scenario| {
            let found = scenario.detected();
            for (from, to) in scenario.true_resets() {
                holds(
                    found.iter().any(|r| r.observed_at == to),
                    format!("reset in ({from:?}, {to:?}] went unobserved; detected: {found:?}"),
                )?;
            }
            Ok(())
        })
        .expect("the property holds");
}

/// No phantom resets: one run climbing monotonically is one window, and nothing
/// inside it may read as a boundary.
#[test]
fn a_single_climbing_run_holds_no_resets() {
    TestRunner::deterministic()
        .run(&scenario(1), |scenario| {
            let found = scenario.detected();
            holds(
                found.is_empty(),
                format!("invented resets inside one window: {found:?}"),
            )
        })
        .expect("the property holds");
}
