//! The vertical rules of the trend chart.

use vstd::prelude::*;

use crate::ids::WindowId;
use crate::metrics::window::EffectiveWindow;
use crate::order;
use crate::order::Timed;
use crate::rollover::{RolloverKind, WindowRollover, RESET_TOLERANCE};
use crate::time::Timestamp;

verus! {

/// What a vertical rule on the trend chart marks.
#[derive(Debug, Clone, Copy, PartialEq, Eq, Structural)]
pub enum BoundaryKind {
    /// A window that expired on schedule and was replaced.
    Rollover,
    /// A window the provider reset without advertising it — early, or with
    /// `reset_at` pulled backwards.
    Surprise,
    /// Where the window currently in progress began.
    CurrentStart,
    /// When the window currently in progress is due to reset. Unlike the
    /// others this lies in the future, so a caller has to make room for it.
    UpcomingReset,
}

/// One vertical rule: an instant, and why it matters.
#[derive(Debug, Clone, Copy, PartialEq, Eq, Structural)]
pub struct Boundary {
    /// When the boundary falls.
    pub at: Timestamp,
    /// What it marks.
    pub kind: BoundaryKind,
}

impl Timed for Boundary {
    open spec fn when(&self) -> int {
        self.at.at()
    }

    fn when_nanos(&self) -> (r: i128) {
        self.at.nanos_since_epoch()
    }
}

/// Whether an instant lies in `from..=to`.
pub open spec fn within(at: Timestamp, from: Timestamp, to: Timestamp) -> bool {
    from.at() <= at.at() <= to.at()
}

/// Whether a rollover is a boundary of this window to draw: recorded for it, a
/// boundary at all, inside the interval, and not the event the current window
/// began with, which is drawn as such.
pub open spec fn is_drawn(
    r: WindowRollover,
    window: Seq<char>,
    start: Option<Timestamp>,
    from: Timestamp,
    to: Timestamp,
) -> bool {
    &&& r.window@ == window
    &&& r.kind != RolloverKind::Unannounced
    &&& within(r.observed_at, from, to)
    &&& start matches Some(s) ==> {
        let apart = r.observed_at.at() - s.at();
        apart > RESET_TOLERANCE || apart < -RESET_TOLERANCE
    }
}

/// The rule drawn for a rollover.
pub open spec fn rule_of(r: WindowRollover) -> Boundary {
    Boundary {
        at: r.observed_at,
        kind: if r.kind == RolloverKind::Scheduled {
            BoundaryKind::Rollover
        } else {
            BoundaryKind::Surprise
        },
    }
}

/// The rules of the first `n` rollovers that are drawn.
pub open spec fn past_rules(
    rollovers: Seq<WindowRollover>,
    window: Seq<char>,
    start: Option<Timestamp>,
    from: Timestamp,
    to: Timestamp,
    n: nat,
) -> Seq<Boundary>
    decreases n,
{
    if n == 0 {
        Seq::empty()
    } else {
        let rest = past_rules(rollovers, window, start, from, to, (n - 1) as nat);
        if is_drawn(rollovers[n - 1], window, start, from, to) {
            rest.push(rule_of(rollovers[n - 1]))
        } else {
            rest
        }
    }
}

/// The start of the window in progress.
pub open spec fn start_of(effective: Option<&EffectiveWindow>) -> Option<Timestamp> {
    match effective {
        Some(e) => Some(e.start),
        None => None,
    }
}

/// The rules inside the interval, oldest first: the rollovers drawn, and the
/// start of the window in progress if it lies there.
pub open spec fn inner_rules(
    window: Seq<char>,
    effective: Option<&EffectiveWindow>,
    rollovers: Seq<WindowRollover>,
    from: Timestamp,
    to: Timestamp,
) -> Seq<Boundary> {
    let start = start_of(effective);
    let past = past_rules(rollovers, window, start, from, to, rollovers.len());
    order::in_order(
        match start {
            Some(s) => if within(s, from, to) {
                past.push(Boundary { at: s, kind: BoundaryKind::CurrentStart })
            } else {
                past
            },
            None => past,
        },
    )
}

/// Window boundaries to draw over `from..=to`, oldest first, with the upcoming
/// reset (which lies outside that interval) last when there is one.
///
/// Past boundaries come only from `rollovers` — observed, recorded events.
/// They are deliberately not extrapolated backwards from `reset_at`: a rolling
/// window is anchored to first use, so after an idle stretch the next one
/// starts later than the last ended, and a fixed lattice of predicted
/// boundaries would draw lines where nothing happened.
///
/// `effective` of `None` — a provider that publishes no `reset_at` — leaves
/// only whatever rollovers were recorded.
pub fn boundaries(
    window: &WindowId,
    effective: Option<&EffectiveWindow>,
    rollovers: &[WindowRollover],
    from: Timestamp,
    to: Timestamp,
) -> (r: Vec<Boundary>)
    ensures
        r@ == match effective {
            Some(e) => inner_rules(window@, effective, rollovers@, from, to).push(
                Boundary { at: e.reset_at, kind: BoundaryKind::UpcomingReset },
            ),
            None => inner_rules(window@, effective, rollovers@, from, to),
        },
{
    let start = match effective {
        Some(e) => Some(e.start),
        None => None,
    };
    let mut out: Vec<Boundary> = Vec::new();
    let mut i: usize = 0;
    while i < rollovers.len()
        invariant
            i <= rollovers@.len(),
            out@ == past_rules(rollovers@, window@, start, from, to, i as nat),
        decreases rollovers@.len() - i,
    {
        let r = &rollovers[i];
        if drawn(r, window, start, from, to) {
            out.push(
                Boundary {
                    at: r.observed_at,
                    kind: if r.kind.is_surprise() {
                        BoundaryKind::Surprise
                    } else {
                        BoundaryKind::Rollover
                    },
                },
            );
        }
        i += 1;
    }
    if let Some(s) = start {
        if !s.before(from) && !to.before(s) {
            out.push(Boundary { at: s, kind: BoundaryKind::CurrentStart });
        }
    }
    let mut sorted = order::by_time(out);
    if let Some(e) = effective {
        sorted.push(Boundary { at: e.reset_at, kind: BoundaryKind::UpcomingReset });
    }
    sorted
}

fn drawn(
    r: &WindowRollover,
    window: &WindowId,
    start: Option<Timestamp>,
    from: Timestamp,
    to: Timestamp,
) -> (d: bool)
    ensures
        d == is_drawn(*r, window@, start, from, to),
{
    if !r.window.same(window) || !r.kind.is_boundary() {
        return false;
    }
    if r.observed_at.before(from) || to.before(r.observed_at) {
        return false;
    }
    match start {
        Some(s) => {
            let apart: i128 = r.observed_at.since(s);
            apart > RESET_TOLERANCE || apart < -RESET_TOLERANCE
        },
        None => true,
    }
}

/// The rules inside the interval come oldest first.
pub proof fn rules_come_oldest_first(
    window: Seq<char>,
    effective: Option<&EffectiveWindow>,
    rollovers: Seq<WindowRollover>,
    from: Timestamp,
    to: Timestamp,
)
    ensures
        order::is_ordered(inner_rules(window, effective, rollovers, from, to)),
        forall|i: int, j: int|
            0 <= i < j < inner_rules(window, effective, rollovers, from, to).len() ==> (
            #[trigger] inner_rules(window, effective, rollovers, from, to)[i]).at.at() <= (
            #[trigger] inner_rules(window, effective, rollovers, from, to)[j]).at.at(),
{
    let start = start_of(effective);
    let past = past_rules(rollovers, window, start, from, to, rollovers.len());
    order::ordered_once_put_in_order(past);
    if let Some(s) = start {
        order::ordered_once_put_in_order(
            past.push(Boundary { at: s, kind: BoundaryKind::CurrentStart }),
        );
    }
}

/// Every rollover drawn is of this window, inside the interval, and no drop
/// that was merely inferred from usage.
pub proof fn only_this_windows_boundaries_are_drawn(
    rollovers: Seq<WindowRollover>,
    window: Seq<char>,
    start: Option<Timestamp>,
    from: Timestamp,
    to: Timestamp,
    n: nat,
)
    requires
        n <= rollovers.len(),
    ensures
        forall|k: int|
            0 <= k < past_rules(rollovers, window, start, from, to, n).len() ==> exists|i: int|
                0 <= i < n && is_drawn(rollovers[i], window, start, from, to)
                    && #[trigger] past_rules(rollovers, window, start, from, to, n)[k]
                    == #[trigger] rule_of(rollovers[i]),
    decreases n,
{
    if n > 0 {
        let rest = past_rules(rollovers, window, start, from, to, (n - 1) as nat);
        let all = past_rules(rollovers, window, start, from, to, n);
        only_this_windows_boundaries_are_drawn(rollovers, window, start, from, to, (n - 1) as nat);
        assert forall|k: int| 0 <= k < all.len() implies exists|i: int|
            0 <= i < n && is_drawn(rollovers[i], window, start, from, to) && #[trigger] all[k]
                == #[trigger] rule_of(rollovers[i]) by {
            if k < rest.len() {
                let i = choose|i: int|
                    0 <= i < n - 1 && is_drawn(rollovers[i], window, start, from, to) && rest[k]
                        == #[trigger] rule_of(rollovers[i]);
                assert(all[k] == rule_of(rollovers[i]));
            } else {
                assert(all[k] == rule_of(rollovers[n - 1]));
            }
        }
    }
}

/// A restart is drawn once: no rollover within the tolerance of the current
/// window's start is drawn beside it.
pub proof fn the_current_start_is_drawn_once(
    r: WindowRollover,
    window: Seq<char>,
    start: Timestamp,
    from: Timestamp,
    to: Timestamp,
)
    requires
        -RESET_TOLERANCE <= r.observed_at.at() - start.at() <= RESET_TOLERANCE,
    ensures
        !is_drawn(r, window, Some(start), from, to),
{
}

/// A rollover is drawn exactly when it is one of this window, was announced or
/// noticed by its reset instant, was seen inside the interval, both ends
/// included, and was seen more than two minutes from where the window in
/// progress began. It is drawn where it was seen, and as a surprise unless it
/// came on schedule.
pub proof fn a_rollover_is_drawn_where_it_was_seen(
    rollovers: Seq<WindowRollover>,
    window: Seq<char>,
    start: Option<Timestamp>,
    from: Timestamp,
    to: Timestamp,
    n: nat,
)
    requires
        n < rollovers.len(),
    ensures
        past_rules(rollovers, window, start, from, to, 0) == Seq::<Boundary>::empty(),
        ({
            let r = rollovers[n as int];
            let before = past_rules(rollovers, window, start, from, to, n);
            let after = past_rules(rollovers, window, start, from, to, n + 1);
            let seen = r.observed_at.at();
            let apart = start is None || seen > start->0.at() + 120_000_000_000 || seen
                < start->0.at() - 120_000_000_000;
            let drawn = r.window@ == window && r.kind !is Unannounced && from.at() <= seen
                <= to.at() && apart;
            &&& !drawn ==> after == before
            &&& drawn && r.kind is Scheduled ==> after == before.push(
                Boundary { at: r.observed_at, kind: BoundaryKind::Rollover },
            )
            &&& drawn && r.kind !is Scheduled ==> after == before.push(
                Boundary { at: r.observed_at, kind: BoundaryKind::Surprise },
            )
        }),
{
}

/// What is drawn inside the interval is those rollovers, and where the window in
/// progress began if that lies inside the interval, both ends included: each
/// once, and nothing else.
pub proof fn nothing_else_is_drawn(
    window: Seq<char>,
    effective: Option<&EffectiveWindow>,
    rollovers: Seq<WindowRollover>,
    from: Timestamp,
    to: Timestamp,
)
    ensures
        effective is None ==> inner_rules(window, effective, rollovers, from, to).to_multiset()
            == past_rules(
            rollovers,
            window,
            None,
            from,
            to,
            rollovers.len(),
        ).to_multiset(),
        effective matches Some(e) ==> {
            let past = past_rules(rollovers, window, Some(e.start), from, to, rollovers.len());
            let rules = inner_rules(window, effective, rollovers, from, to).to_multiset();
            if from.at() <= e.start.at() <= to.at() {
                rules == past.to_multiset().insert(
                    Boundary { at: e.start, kind: BoundaryKind::CurrentStart },
                )
            } else {
                rules == past.to_multiset()
            }
        },
{
    broadcast use vstd::seq_lib::group_to_multiset_ensures;

    let start = start_of(effective);
    let past = past_rules(rollovers, window, start, from, to, rollovers.len());
    order::ordering_keeps_everything(past);
    if let Some(s) = start {
        order::ordering_keeps_everything(
            past.push(Boundary { at: s, kind: BoundaryKind::CurrentStart }),
        );
    }
}

/// Every rollover that is drawn has a rule of its own in the result.
pub proof fn every_boundary_is_drawn(
    window: Seq<char>,
    effective: Option<&EffectiveWindow>,
    rollovers: Seq<WindowRollover>,
    from: Timestamp,
    to: Timestamp,
    i: int,
)
    requires
        0 <= i < rollovers.len(),
        rollovers[i].window@ == window,
        rollovers[i].kind !is Unannounced,
        from.at() <= rollovers[i].observed_at.at() <= to.at(),
        effective is None || rollovers[i].observed_at.at() - effective->0.start.at()
            > 120_000_000_000 || effective->0.start.at() - rollovers[i].observed_at.at()
            > 120_000_000_000,
    ensures
        inner_rules(window, effective, rollovers, from, to).contains(
            (Boundary {
                at: rollovers[i].observed_at,
                kind: if rollovers[i].kind is Scheduled {
                    BoundaryKind::Rollover
                } else {
                    BoundaryKind::Surprise
                },
            }),
        ),
{
    broadcast use vstd::seq_lib::group_to_multiset_ensures;

    let start = start_of(effective);
    let past = past_rules(rollovers, window, start, from, to, rollovers.len());
    let rule = rule_of(rollovers[i]);
    drawn_rules_stay(rollovers, window, start, from, to, rollovers.len(), i);
    nothing_else_is_drawn(window, effective, rollovers, from, to);
    assert(past.to_multiset().count(rule) > 0);
    assert(inner_rules(window, effective, rollovers, from, to).to_multiset().count(rule) > 0);
}

proof fn drawn_rules_stay(
    rollovers: Seq<WindowRollover>,
    window: Seq<char>,
    start: Option<Timestamp>,
    from: Timestamp,
    to: Timestamp,
    n: nat,
    i: int,
)
    requires
        0 <= i < n <= rollovers.len(),
        is_drawn(rollovers[i], window, start, from, to),
    ensures
        past_rules(rollovers, window, start, from, to, n).contains(rule_of(rollovers[i])),
    decreases n,
{
    let rest = past_rules(rollovers, window, start, from, to, (n - 1) as nat);
    let all = past_rules(rollovers, window, start, from, to, n);
    if i == n - 1 {
        assert(all[rest.len() as int] == rule_of(rollovers[i]));
    } else {
        drawn_rules_stay(rollovers, window, start, from, to, (n - 1) as nat, i);
        let k = choose|k: int| 0 <= k < rest.len() && rest[k] == rule_of(rollovers[i]);
        assert(all[k] == rest[k]);
    }
}

} // verus!
