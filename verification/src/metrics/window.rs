//! The window a rate is measured against, and the rates measured from it.

use vstd::prelude::*;

use crate::amount::Amount;
use crate::domain;
use crate::domain::ONE;
use crate::ids::WindowId;
use crate::num;
use crate::protocol::wire::WindowView;
use crate::rollover;
use crate::rollover::ObservedStart;
use crate::time;
use crate::time::Timestamp;

verus! {

/// The window a rate should be measured against: where it actually began,
/// where it ends, and how sure we are of the first of those.
///
/// Distinct from [`crate::domain::QuotaWindow`] because a window that restarted early is
/// genuinely shorter than its nominal span *and* carries a full budget. Both
/// halves matter: the same usage is a faster burn, and there is more left to
/// afford than the clock alone would suggest.
#[derive(Debug, PartialEq, Eq)]
pub struct EffectiveWindow {
    /// Which window this describes, so a history series can be filtered to it.
    pub window: WindowId,
    /// When it began.
    pub start: Timestamp,
    /// When it ends.
    pub reset_at: Timestamp,
    /// How wide the bracket around `start` was, in nanoseconds. Zero when the
    /// start is the provider's own arithmetic, and as wide as a daemon outage
    /// when the restart was seen across one.
    pub start_uncertainty: i128,
    /// Utilization at the latest reading, when computable.
    pub used: Option<Amount>,
}

/// A fraction of a window: `part` seconds of `whole`.
#[derive(Debug, Clone, Copy, PartialEq, Eq, Structural)]
pub struct Fraction {
    /// Seconds of it.
    pub part: i64,
    /// Seconds in all.
    pub whole: i64,
}

/// A rate: what of the window's budget, over what of its time.
#[derive(Debug, Clone, Copy, PartialEq, Eq, Structural)]
pub struct Rate {
    /// The utilization at the latest reading.
    pub used: Amount,
    /// The time it is measured over.
    pub over: Fraction,
}

/// Whole seconds of a length, rounded towards zero.
pub open spec fn secs_of(length: int) -> int {
    num::truncated(length, time::NANOS_PER_SEC as int)
}

impl EffectiveWindow {
    /// How long the window that actually ran is, in whole seconds.
    pub open spec fn span_secs(self) -> int {
        secs_of(self.reset_at.at() - self.start.at())
    }

    /// How long the window that actually ran is, in nanoseconds — what a pace
    /// is a multiple of.
    pub fn span(&self) -> (r: i128)
        ensures
            r == self.reset_at.at() - self.start.at(),
            time::FIRST - time::LAST <= r <= time::LAST - time::FIRST,
    {
        self.reset_at.since(self.start)
    }

    /// How long the window that actually ran is, in whole seconds.
    pub fn whole_span(&self) -> (r: i64)
        ensures
            r == self.span_secs(),
            -17_000_000_000_000 <= r <= 17_000_000_000_000,
    {
        time::whole_secs(self.span()) as i64
    }
}

/// Whether an observed restart is one the window that is running began with:
/// later than the provider's arithmetic says, before the reset, and already
/// past.
pub open spec fn restart_counts(
    observed: ObservedStart,
    nominal: int,
    reset_at: Timestamp,
    now: Timestamp,
) -> bool {
    &&& nominal < observed.midpoint() < reset_at.at()
    &&& observed.not_after.at() <= now.at()
}

/// The window a view's rates are measured against.
pub open spec fn effective_of(view: WindowView, quotient: Amount, now: Timestamp) -> Option<
    EffectiveWindow,
> {
    match view.window.start() {
        None => None,
        Some(nominal) => {
            let reset_at = (view.window.reset_at)->0;
            let used = domain::utilization_of(view.window.unit, view.window.limit, quotient);
            let published = EffectiveWindow {
                window: view.window.id,
                start: Timestamp::instant(nominal),
                reset_at,
                start_uncertainty: 0,
                used,
            };
            let effective = match view.observed_start {
                Some(o) => if restart_counts(o, nominal, reset_at, now) {
                    EffectiveWindow {
                        start: Timestamp::instant(o.midpoint()),
                        start_uncertainty: o.width() as i128,
                        ..published
                    }
                } else {
                    published
                },
                None => published,
            };
            Some(effective)
        },
    }
}

/// Reconcile what the provider publishes with what the daemon observed.
///
/// The observed restart wins only where it says the window began *later* than
/// the provider's arithmetic does, which is the one direction a missed reset
/// can push it: an earlier restart belongs to a window that has since ended,
/// and there is no such thing as a window that began before its own
/// `reset_at - span` and is still running.
///
/// `None` when the provider publishes no `reset_at`, since then neither party
/// knows where the window sits. `quotient` is `used` over the window's
/// [`crate::domain::QuotaWindow::divisor`].
pub fn effective_window(view: &WindowView, quotient: Amount, now: Timestamp) -> (r: Option<
    EffectiveWindow,
>)
    requires
        view.window.start() is Some ==> time::representable(view.window.start()->0),
    ensures
        r == effective_of(*view, quotient, now),
        match (view.window.start(), r) {
            (None, None) => true,
            (Some(nominal), Some(e)) => {
                let reset_at = (view.window.reset_at)->0;
                &&& e.window == view.window.id
                &&& e.reset_at == reset_at
                &&& e.used == domain::utilization_of(
                    view.window.unit,
                    view.window.limit,
                    quotient,
                )
                &&& match view.observed_start {
                    Some(o) => if restart_counts(o, nominal, reset_at, now) {
                        e.start.at() == o.midpoint() && e.start_uncertainty == o.width()
                    } else {
                        e.start.at() == nominal && e.start_uncertainty == 0
                    },
                    None => e.start.at() == nominal && e.start_uncertainty == 0,
                }
            },
            _ => false,
        },
        r matches Some(e) ==> time::FIRST - time::LAST <= e.start_uncertainty <= time::LAST
            - time::FIRST,
{
    let window = &view.window;
    match (window.reset_at, window.started_at()) {
        (Some(reset_at), Some(nominal)) => {
            let used = window.utilization(quotient);
            if let Some(o) = view.observed_start {
                let estimate = o.estimate();
                if nominal.before(estimate) && estimate.before(reset_at) && !now.before(
                    o.not_after,
                ) {
                    return Some(
                        EffectiveWindow {
                            window: window.id.clone(),
                            start: estimate,
                            reset_at,
                            start_uncertainty: o.uncertainty(),
                            used,
                        },
                    );
                }
            }
            Some(
                EffectiveWindow {
                    window: window.id.clone(),
                    start: nominal,
                    reset_at,
                    start_uncertainty: 0,
                    used,
                },
            )
        },
        _ => None,
    }
}

/// A reconciled window never begins before the provider's arithmetic says, and
/// is never longer than the provider's span.
pub proof fn an_effective_window_is_never_longer(
    observed: ObservedStart,
    nominal: int,
    reset_at: Timestamp,
    now: Timestamp,
)
    requires
        restart_counts(observed, nominal, reset_at, now),
    ensures
        nominal < observed.midpoint(),
        0 < reset_at.at() - observed.midpoint() < reset_at.at() - nominal,
{
}

/// An observed restart that counts anchors the window inside the bracket it was
/// seen in, and knows how wide that bracket is.
pub proof fn the_start_lies_in_the_observed_bracket(
    view: WindowView,
    quotient: Amount,
    now: Timestamp,
)
    requires
        view.window.start() is Some,
        view.observed_start is Some,
        restart_counts(
            view.observed_start->0,
            view.window.start()->0,
            (view.window.reset_at)->0,
            now,
        ),
        time::FIRST <= (view.observed_start->0).not_before.at() <= (
        view.observed_start->0).not_after.at() <= time::LAST,
    ensures
        effective_of(view, quotient, now) is Some,
        (view.observed_start->0).not_before.at() <= (effective_of(
            view,
            quotient,
            now,
        )->0).start.at() <= (view.observed_start->0).not_after.at(),
        (effective_of(view, quotient, now)->0).start_uncertainty == (
        view.observed_start->0).not_after.at() - (view.observed_start->0).not_before.at(),
{
    let o = view.observed_start->0;
    rollover::estimate_lies_in_its_bracket(o);
    time::instants_are_where_they_say(o.midpoint());
}

/// How far through a window of `span` seconds `elapsed` seconds are, within
/// nothing and all of it.
pub open spec fn through(window: EffectiveWindow, now: Timestamp) -> Option<Fraction> {
    if window.span_secs() <= 0 {
        None
    } else {
        Some(
            Fraction {
                part: num::limited(
                    secs_of(now.at() - window.start.at()),
                    0,
                    window.span_secs(),
                ) as i64,
                whole: window.span_secs() as i64,
            },
        )
    }
}

/// How far through the window we are, between none of it and all of it.
/// `None` for a window of no length.
pub fn elapsed_fraction(window: &EffectiveWindow, now: Timestamp) -> (r: Option<Fraction>)
    ensures
        r == through(*window, now),
        r matches Some(f) ==> 0 <= f.part <= f.whole && 0 < f.whole <= 17_000_000_000_000,
{
    let span: i64 = window.whole_span();
    if span <= 0 {
        return None;
    }
    let elapsed: i128 = time::whole_secs(now.since(window.start));
    Some(Fraction { part: num::limit(elapsed, 0, span as i128) as i64, whole: span })
}

/// One over the part of a window's length its start bracket may span before
/// the numbers measured from that start are marked as estimates: a twentieth.
///
/// A fraction rather than a duration: half an hour is most of a 5-hour
/// window's precision budget and nothing at all against a weekly one. At a
/// twentieth, an ordinary poll cadence never trips it and a bracket left by an
/// outage always does.
pub const TRUSTED_BRACKET_PARTS: i64 = 20;

/// One over how much of a window must have run before an average over it is
/// worth printing: a twentieth.
///
/// An average over the first moments of a window divides whatever has been
/// used by a nearly-zero fraction. A floor in *absolute* time cannot bound
/// that, because the same five minutes is a smaller fraction of a longer
/// window: what makes the number large is the ratio, so the ratio is what has
/// to be floored. At a twentieth of the window this bounds pace at `20×`.
pub const MIN_ELAPSED_PARTS: i64 = 20;

/// Whether the window's start is known loosely enough that the numbers
/// measured from it should say so: the bracket spans more than a twentieth of
/// the window.
///
/// Only the fields measured *from the start* are affected. `afford` divides
/// the remaining budget by the time left to `reset_at` and never touches it,
/// which is why it stays plain while `pace` beside it is marked.
pub fn start_is_uncertain(window: &EffectiveWindow) -> (r: bool)
    requires
        window.start_uncertainty > i128::MIN,
    ensures
        r == (window.span_secs() > 0 && secs_of(window.start_uncertainty as int)
            * TRUSTED_BRACKET_PARTS > window.span_secs()),
        window.start_uncertainty >= 0 ==> (r <==> window.span_secs() > 0
            && window.start_uncertainty as int / 1_000_000_000 * 20 > window.span_secs()),
{
    let span: i64 = window.whole_span();
    let bracket: i128 = time::whole_secs(window.start_uncertainty);
    span > 0 && bracket * TRUSTED_BRACKET_PARTS as i128 > span as i128
}

/// The figures of a window's pace: what has been used, over the part of the
/// window that has run. `None` before a twentieth of the window has run.
pub open spec fn pace_of(window: EffectiveWindow, now: Timestamp) -> Option<Rate> {
    match (through(window, now), window.used) {
        (Some(f), Some(used)) => if f.part * MIN_ELAPSED_PARTS < f.whole {
            None
        } else {
            Some(Rate { used, over: f })
        },
        _ => None,
    }
}

/// Consumption relative to the clock: a quotient of one is exactly on track,
/// of two means burning twice as fast as the window can afford.
///
/// Under a linear model this is also the projected utilization at reset. The
/// two are deliberately not separate functions.
pub fn pace(window: &EffectiveWindow, now: Timestamp) -> (r: Option<Rate>)
    ensures
        r == pace_of(*window, now),
        r matches Some(rate) ==> rate.over.part > 0,
{
    match elapsed_fraction(window, now) {
        None => None,
        Some(f) => {
            if f.part * MIN_ELAPSED_PARTS < f.whole {
                return None;
            }
            match window.used {
                Some(used) => Some(Rate { used, over: f }),
                None => None,
            }
        },
    }
}

/// A pace is bounded: it is never measured over less than a twentieth of its
/// window.
pub proof fn a_pace_has_time_behind_it(window: EffectiveWindow, now: Timestamp)
    requires
        pace_of(window, now) is Some,
        window.span_secs() <= i64::MAX,
    ensures
        ({
            let over = (pace_of(window, now)->0).over;
            &&& over.part > 0
            &&& over.part * 20 >= over.whole
        }),
{
}

/// A window too young to pace withholds what rests on its start, and only
/// that: what it can still afford rests on the reset alone, and is known.
pub proof fn a_young_window_withholds_its_pace(window: EffectiveWindow, now: Timestamp)
    requires
        window.used is Some,
        through(window, now) matches Some(f) && f.part * MIN_ELAPSED_PARTS < f.whole,
        0 < window.span_secs() <= i64::MAX,
    ensures
        pace_of(window, now) is None,
        affordable_of(window, now) is Some,
{
}

/// The later a window began, the less of it has passed, and the faster the
/// same usage reads: exactly so where the two starts are whole seconds apart,
/// and to the second everywhere.
pub proof fn a_later_start_has_less_behind_it(
    early: EffectiveWindow,
    late: EffectiveWindow,
    now: Timestamp,
)
    requires
        early.reset_at.at() == late.reset_at.at(),
        early.start.at() <= late.start.at() <= now.at() <= early.reset_at.at(),
        early.span_secs() <= i64::MAX,
        late.span_secs() > 0,
    ensures
        through(early, now) matches Some(e) && through(late, now) matches Some(l) && {
            &&& l.part * e.whole <= e.part * (l.whole + 1)
            &&& (late.start.at() - early.start.at()) % (time::NANOS_PER_SEC as int) == 0 ==> l.part
                * e.whole <= e.part * l.whole
        },
{
    let s = time::NANOS_PER_SEC as int;
    let apart = late.start.at() - early.start.at();
    let (x, y) = (now.at() - early.start.at(), early.reset_at.at() - early.start.at());
    let (a, b) = (x / s, y / s);
    let (c, d) = ((x - apart) / s, (y - apart) / s);
    assert(0 <= x <= y);
    assert(num::truncated(x, s) == a && num::truncated(y, s) == b);
    assert(num::truncated(x - apart, s) == c && num::truncated(y - apart, s) == d);
    assert(0 <= a <= b && 0 <= c <= d);
    let (low, high) = (apart / s, if apart % s == 0 {
        apart / s
    } else {
        apart / s + 1
    });
    assert(c <= a - low);
    assert(d >= b - high);
    assert(c * b <= a * (d + 1)) by (nonlinear_arith)
        requires
            0 <= a <= b,
            0 <= c <= a - low,
            d >= b - high,
            0 <= low <= high <= low + 1,
    ;
    if apart % s == 0 {
        assert(c * b <= a * d) by (nonlinear_arith)
            requires
                0 <= a <= b,
                0 <= c <= a - low,
                d >= b - low,
                0 <= low,
        ;
    }
}

/// Seconds the remaining headroom lasts at `pace`, sustained.
pub open spec fn runway_at_pace(
    window: EffectiveWindow,
    pace: Amount,
    projected: Option<i64>,
) -> Option<i64> {
    match window.used {
        None => None,
        Some(used) => if (Amount { bits: ONE }).le(used) {
            Some(0i64)
        } else if pace.le(Amount { bits: 0 }) || window.span_secs() <= 0 {
            None
        } else {
            projected
        },
    }
}

/// How much longer the remaining headroom lasts at `pace`, sustained, in
/// seconds. `projected` is the headroom over the pace per second of the
/// window, in whole seconds, or `None` where that is no such number.
///
/// Deliberately says nothing about the reset: a runway longer than the window
/// has left is a real answer to "how long could I keep this up", and the row
/// prints it alongside the countdown so the two can be compared. Zero when the
/// cap is already reached; `None` at a pace of zero, which never arrives.
pub fn runway_at(window: &EffectiveWindow, pace: Amount, projected: Option<i64>) -> (r: Option<i64>)
    ensures
        r == runway_at_pace(*window, pace, projected),
{
    match window.used {
        None => None,
        Some(used) => {
            if (Amount { bits: ONE }).at_most(used) {
                return Some(0);
            }
            if pace.at_most(Amount { bits: 0 }) {
                return None;
            }
            if window.whole_span() <= 0 {
                return None;
            }
            projected
        },
    }
}

/// Seconds the headroom lasts at the pace held since the window opened.
pub open spec fn runway_of(
    window: EffectiveWindow,
    rate: Amount,
    projected: Option<i64>,
    now: Timestamp,
) -> Option<i64> {
    match pace_of(window, now) {
        Some(_) => runway_at_pace(window, rate, projected),
        None => None,
    }
}

/// How much longer the headroom lasts at the pace held since the window opened,
/// in seconds. `rate` is the quotient of [`pace`], where there is one, and
/// `projected` what [`runway_at`] takes for it.
pub fn runway(window: &EffectiveWindow, rate: Amount, projected: Option<i64>, now: Timestamp) -> (r:
    Option<i64>)
    ensures
        r == runway_of(*window, rate, projected, now),
{
    match pace(window, now) {
        Some(_) => runway_at(window, rate, projected),
        None => None,
    }
}

/// The figures of the pace that spends exactly the remaining headroom over
/// exactly the time left. `None` when no time is left.
pub open spec fn affordable_of(window: EffectiveWindow, now: Timestamp) -> Option<Rate> {
    match (window.used, through(window, now)) {
        (Some(used), Some(f)) => if f.part == f.whole {
            None
        } else {
            Some(Rate { used, over: Fraction { part: (f.whole - f.part) as i64, whole: f.whole } })
        },
        _ => None,
    }
}

/// The pace that spends exactly the remaining headroom over exactly the time
/// left, as what has been used and the part of the window that is left.
///
/// The forward-looking counterpart to [`pace`], and what answers "how fast may
/// I go from here without running out early".
pub fn affordable_pace(window: &EffectiveWindow, now: Timestamp) -> (r: Option<Rate>)
    ensures
        r == affordable_of(*window, now),
        r matches Some(rate) ==> 0 < rate.over.part <= rate.over.whole,
{
    match window.used {
        None => None,
        Some(used) => match elapsed_fraction(window, now) {
            None => None,
            Some(f) => if f.part == f.whole {
                None
            } else {
                Some(Rate { used, over: Fraction { part: f.whole - f.part, whole: f.whole } })
            },
        },
    }
}

/// Whether a runway of so many seconds ends before the window does: whether
/// [`eta_to_cap`] has an instant to give.
pub fn cap_binds(window: &EffectiveWindow, runway: i64, now: Timestamp) -> (r: bool)
    ensures
        r == (now.at() + runway * time::NANOS_PER_SEC < window.reset_at.at()),
{
    (runway as i128) * time::NANOS_PER_SEC < window.reset_at.since(now)
}

/// When the window is projected to hit its cap, given how many seconds its
/// headroom lasts.
///
/// The reset-aware reading of a runway: `None` when the projected cap falls
/// *after* the reset, because the window rolls over first and there is no
/// exhaustion to warn about. That makes it the test for "is the runway the
/// binding limit", which is how the row decides whether to colour it.
pub fn eta_to_cap(window: &EffectiveWindow, runway: Option<i64>, now: Timestamp) -> (r: Option<
    Timestamp,
>)
    ensures
        match runway {
            Some(secs) => {
                let at = now.at() + secs * time::NANOS_PER_SEC;
                if at < window.reset_at.at() && (secs >= 0 || time::representable(at)) {
                    r matches Some(eta) && eta.at() == at
                } else {
                    r is None
                }
            },
            None => r is None,
        },
{
    match runway {
        None => None,
        Some(secs) => {
            let at: i128 = now.nanos_since_epoch() + secs as i128 * time::NANOS_PER_SEC;
            if at < window.reset_at.nanos_since_epoch() {
                Timestamp::checked_from_nanos(at)
            } else {
                None
            }
        },
    }
}

/// The seconds of a window that actually ran: as many as fit between its start
/// and its reset.
pub proof fn a_span_is_whole_seconds(window: EffectiveWindow)
    requires
        window.start.at() <= window.reset_at.at(),
    ensures
        window.span_secs() * 1_000_000_000 <= window.reset_at.at() - window.start.at() < (
        window.span_secs() + 1) * 1_000_000_000,
{
    num::rounding_towards_zero_loses_less_than_one(
        window.reset_at.at() - window.start.at(),
        1_000_000_000,
    );
}

/// How far through a window we are is told by its start, its reset and the
/// clock: the whole seconds gone since it began, none before that and no more
/// than it has.
pub proof fn the_time_gone_is_the_time_since_the_start(window: EffectiveWindow, now: Timestamp)
    requires
        0 <= window.reset_at.at() - window.start.at() < 1_000_000_000 * i64::MAX,
    ensures
        through(window, now) is Some <==> window.reset_at.at() - window.start.at()
            >= 1_000_000_000,
        through(window, now) matches Some(f) ==> {
            let gone = now.at() - window.start.at();
            let length = window.reset_at.at() - window.start.at();
            &&& f.whole * 1_000_000_000 <= length < (f.whole + 1) * 1_000_000_000
            &&& gone < 1_000_000_000 ==> f.part == 0
            &&& 0 <= gone < f.whole * 1_000_000_000 ==> f.part * 1_000_000_000 <= gone < (f.part
                + 1) * 1_000_000_000
            &&& gone >= f.whole * 1_000_000_000 ==> f.part == f.whole
        },
{
    let length = window.reset_at.at() - window.start.at();
    let gone = now.at() - window.start.at();
    num::rounding_towards_zero_loses_less_than_one(length, 1_000_000_000);
    num::rounding_towards_zero_loses_less_than_one(gone, 1_000_000_000);
}

/// A pace is what has been used over the time that has run: there is one exactly
/// when the usage is known and a twentieth of the window has run, and it sets
/// the one against the whole seconds from the window's start to now, of all the
/// seconds it has. Before the start none have run, after the reset all have, and
/// a window of less than a second has no pace. Nothing else about the window
/// matters to it.
pub proof fn a_pace_is_over_the_time_that_has_run(window: EffectiveWindow, now: Timestamp)
    requires
        window.reset_at.at() - window.start.at() < 1_000_000_000 * i64::MAX,
    ensures
        ({
            let length = if window.reset_at.at() <= window.start.at() {
                0
            } else {
                (window.reset_at.at() - window.start.at()) / 1_000_000_000
            };
            let gone = if now.at() <= window.start.at() {
                0
            } else if now.at() >= window.reset_at.at() {
                length
            } else {
                (now.at() - window.start.at()) / 1_000_000_000
            };
            &&& pace_of(window, now) is Some <==> window.used is Some && length > 0 && gone * 20
                >= length
            &&& pace_of(window, now) matches Some(rate) ==> {
                &&& window.used == Some(rate.used)
                &&& rate.over.part == gone
                &&& rate.over.whole == length
            }
        }),
{
}

/// A pace depends on nothing but when the window began and ends, what of it is
/// used, and the clock — not on how sure we are of the start, nor on which
/// window it is.
pub proof fn a_pace_rests_on_the_clock_alone(a: EffectiveWindow, b: EffectiveWindow, now: Timestamp)
    requires
        a.start.at() == b.start.at(),
        a.reset_at.at() == b.reset_at.at(),
        a.used == b.used,
    ensures
        pace_of(a, now) == pace_of(b, now),
        affordable_of(a, now) == affordable_of(b, now),
        through(a, now) == through(b, now),
        forall|rate: Amount, projected: Option<i64>| #[trigger]
            runway_of(a, rate, projected, now) == runway_of(b, rate, projected, now),
{
}

/// The time that has run and the time that is left make up the window: what is
/// affordable is set against the seconds a pace is not, and there is a pace to
/// afford exactly while there are any.
pub proof fn what_is_affordable_is_over_the_time_left(window: EffectiveWindow, now: Timestamp)
    requires
        window.reset_at.at() - window.start.at() < 1_000_000_000 * i64::MAX,
    ensures
        ({
            let length = if window.reset_at.at() <= window.start.at() {
                0
            } else {
                (window.reset_at.at() - window.start.at()) / 1_000_000_000
            };
            let gone = if now.at() <= window.start.at() {
                0
            } else if now.at() >= window.reset_at.at() {
                length
            } else {
                (now.at() - window.start.at()) / 1_000_000_000
            };
            &&& affordable_of(window, now) is Some <==> window.used is Some && gone < length
            &&& affordable_of(window, now) matches Some(rate) ==> {
                &&& window.used == Some(rate.used)
                &&& rate.over.part == length - gone
                &&& rate.over.whole == length
            }
        }),
{
}

/// How long the headroom lasts at a rate: not at all once the cap is reached,
/// however slow the rate; without end at a rate of nothing or less; and as long
/// as projected otherwise.
pub proof fn headroom_lasts_as_projected(
    window: EffectiveWindow,
    rate: Amount,
    projected: Option<i64>,
)
    requires
        window.reset_at.at() - window.start.at() >= 1_000_000_000,
    ensures
        window.used is None ==> runway_at_pace(window, rate, projected) is None,
        window.used matches Some(used) ==> {
            let capped = 0x3ff0_0000_0000_0000 <= used.bits <= 0x7ff0_0000_0000_0000;
            let idle = rate.bits == 0 || 0x8000_0000_0000_0000 <= rate.bits
                <= 0xfff0_0000_0000_0000;
            &&& capped ==> runway_at_pace(window, rate, projected) == Some(0i64)
            &&& !capped && idle ==> runway_at_pace(window, rate, projected) is None
            &&& !capped && !idle ==> runway_at_pace(window, rate, projected) == projected
        },
{
}

/// The headroom lasts as it does at the window's pace, and is not projected for
/// a window without one.
pub proof fn a_runway_needs_a_pace(
    window: EffectiveWindow,
    rate: Amount,
    projected: Option<i64>,
    now: Timestamp,
)
    ensures
        pace_of(window, now) is None ==> runway_of(window, rate, projected, now) is None,
        pace_of(window, now) is Some ==> runway_of(window, rate, projected, now) == runway_at_pace(
            window,
            rate,
            projected,
        ),
{
}

/// The window that rates are measured against: it ends when the provider says
/// and began its length before that, unless a restart was seen. A restart
/// counts exactly when the middle of the bracket it was seen in lies after that
/// beginning and before the reset, and the bracket is over; the window then
/// began there, give or take the bracket.
pub proof fn a_restart_that_was_seen_is_where_the_window_began(
    view: WindowView,
    quotient: Amount,
    now: Timestamp,
)
    requires
        view.window.start() matches Some(nominal) ==> time::representable(nominal),
        view.observed_start matches Some(o) ==> time::representable(o.not_before.at())
            && time::representable(o.not_after.at()),
    ensures
        effective_of(view, quotient, now) is Some <==> view.window.start() is Some,
        effective_of(view, quotient, now) matches Some(e) ==> {
            let nominal = view.window.start()->0;
            &&& e.window == view.window.id
            &&& view.window.reset_at == Some(e.reset_at)
            &&& e.used == domain::utilization_of(view.window.unit, view.window.limit, quotient)
            &&& view.observed_start is None ==> e.start.at() == nominal && e.start_uncertainty == 0
            &&& view.observed_start matches Some(o) ==> {
                let sum = o.not_before.at() + o.not_after.at();
                if nominal < sum / 2 < e.reset_at.at() && o.not_after.at() <= now.at() {
                    e.start.at() == sum / 2 && e.start_uncertainty == o.not_after.at()
                        - o.not_before.at()
                } else {
                    e.start.at() == nominal && e.start_uncertainty == 0
                }
            }
        },
{
    if let Some(nominal) = view.window.start() {
        time::instants_are_where_they_say(nominal);
        if let Some(o) = view.observed_start {
            rollover::the_estimate_is_halfway(o);
            time::instants_are_where_they_say(o.midpoint());
        }
    }
}

} // verus!
