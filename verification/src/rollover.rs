//! Detecting when a quota window rolled over, and whether that was a surprise.
//!
//! A rollover is read from `reset_at` **moving** where the provider moved it,
//! and otherwise from usage collapsing. The second signal is the weaker one
//! and is treated as such: a provider correction that shaves a couple of
//! points off `used` mid-window is not a new window, and treating it as one
//! would split a chart series that never actually broke. What separates the
//! two is [`is_collapse`] — a fall to at most half of what was there, and by
//! at least a few points, which a correction is not and a reset always is.
//!
//! Note what is *not* a surprise: `reset_at` jumping further ahead than one
//! span. Rolling windows are anchored to first use, so after an idle stretch
//! the next window legitimately starts later than the last one ended.

use vstd::prelude::*;

use crate::amount::Amount;
use crate::domain::QuotaWindow;
use crate::ids::{AccountId, PollId, WindowId};
use crate::num;
use crate::text;
use crate::time;
use crate::time::Timestamp;

verus! {

/// Tolerance absorbing clock skew between our poll timestamp and the
/// provider's published reset instant, plus provider-side rounding, in
/// nanoseconds: two minutes. Below this a difference is noise, not a decision.
///
/// Applied to `reset_at` moves in **both** directions. Providers recompute the
/// instant per request, so a window that has not rolled at all still reports a
/// `reset_at` that drifts by a fraction of a second between polls.
pub const RESET_TOLERANCE: i128 = 120_000_000_000;

/// What must be left for a fall in usage to be a correction rather than a
/// reset: the bit pattern of one half. A window holding at most half of what
/// it held a poll ago was not revised — it restarted.
pub const RESET_COLLAPSE_RATIO: u64 = 0x3fe0_0000_0000_0000;

/// How much of the window must actually vanish before a fall is considered at
/// all, whatever the ratio says: the bit pattern of five hundredths.
///
/// Five points is comfortably above the corrections providers actually make
/// (a point or two) and comfortably below a weekly window restarting from a
/// fifth.
pub const MIN_RESET_DROP: u64 = 0x3fa9_9999_9999_999a;

/// Why a window's accounting restarted.
#[derive(Debug, Clone, Copy, PartialEq, Eq, Structural)]
pub enum RolloverKind {
    /// `reset_at` advanced at or after the old reset was due. Business as
    /// usual — the window simply expired.
    Scheduled,
    /// `reset_at` advanced while the old reset was still in the future: the
    /// window rolled over earlier than the provider said it would.
    Early,
    /// `reset_at` moved backwards — the reset was pulled in.
    Retracted,
    /// Usage collapsed with `reset_at` unchanged. The provider reset the
    /// window without saying so.
    Unannounced,
}

impl RolloverKind {
    /// Whether this is something the provider did not advertise.
    pub fn is_surprise(self) -> (r: bool)
        ensures
            r == (self != RolloverKind::Scheduled),
    {
        match self {
            RolloverKind::Scheduled => false,
            _ => true,
        }
    }

    /// Whether this marks the boundary between two windows.
    ///
    /// `Unannounced` deliberately does not: it is inferred from usage alone,
    /// which is exactly the signal that is not trustworthy enough to break a
    /// series on. It is drawn as a marker instead.
    pub fn is_boundary(self) -> (r: bool)
        ensures
            r == (self != RolloverKind::Unannounced),
    {
        match self {
            RolloverKind::Unannounced => false,
            _ => true,
        }
    }

    /// Stable string for the storage column.
    pub open spec fn column(self) -> Seq<char> {
        match self {
            RolloverKind::Scheduled => "scheduled"@,
            RolloverKind::Early => "early"@,
            RolloverKind::Retracted => "retracted"@,
            RolloverKind::Unannounced => "unannounced"@,
        }
    }

    /// Stable string for the storage column.
    pub fn as_str(self) -> (r: &'static str)
        ensures
            r@ == self.column(),
    {
        match self {
            RolloverKind::Scheduled => "scheduled",
            RolloverKind::Early => "early",
            RolloverKind::Retracted => "retracted",
            RolloverKind::Unannounced => "unannounced",
        }
    }

    /// Inverse of [`RolloverKind::as_str`]. Deliberately not `FromStr`: this
    /// is a storage encoding, not a user-facing parse.
    pub fn from_column(s: &str) -> (r: Option<RolloverKind>)
        ensures
            match r {
                Some(kind) => kind.column() == s@,
                None => forall|kind: RolloverKind| #[trigger] kind.column() != s@,
            },
    {
        if text::same(s, "scheduled") {
            Some(RolloverKind::Scheduled)
        } else if text::same(s, "early") {
            Some(RolloverKind::Early)
        } else if text::same(s, "retracted") {
            Some(RolloverKind::Retracted)
        } else if text::same(s, "unannounced") {
            Some(RolloverKind::Unannounced)
        } else {
            None
        }
    }
}

/// No two kinds share a column string, so what was stored reads back as what
/// it was.
pub proof fn kind_columns_are_distinct(a: RolloverKind, b: RolloverKind)
    requires
        a.column() == b.column(),
    ensures
        a == b,
{
    reveal_strlit("scheduled");
    reveal_strlit("early");
    reveal_strlit("retracted");
    reveal_strlit("unannounced");
    assert("scheduled"@[0] == 's' && "early"@[0] == 'e');
    assert("retracted"@[0] == 'r' && "unannounced"@[0] == 'u');
}

/// One observed rollover of one window, tied to the poll that revealed it.
#[derive(Debug, PartialEq, Eq)]
pub struct WindowRollover {
    /// Account the window belongs to.
    pub account: AccountId,
    /// Window that rolled over.
    pub window: WindowId,
    /// Poll that first reported the change. With `window`, the primary key.
    pub poll: PollId,
    /// When that poll completed — the earliest instant we can prove the new
    /// window was already running.
    pub observed_at: Timestamp,
    /// What kind of rollover this was.
    pub kind: RolloverKind,
    /// `reset_at` before the change.
    pub prev_reset_at: Option<Timestamp>,
    /// `reset_at` after it.
    pub new_reset_at: Option<Timestamp>,
    /// `used` before the change, in the window's unit.
    pub prev_used: Amount,
    /// `used` after it.
    pub new_used: Amount,
    /// When the poll this was compared against completed — the latest instant
    /// the *old* window was still provably running.
    ///
    /// With `observed_at` it brackets the reset. `None` on rows written before
    /// the column existed; those read as a zero-width bracket at
    /// `observed_at`.
    pub prev_observed_at: Option<Timestamp>,
}

/// Where a window is known to have begun, and how precisely.
///
/// A reset is never seen happening, only inferred from two readings that
/// straddle it, so the honest answer is an interval rather than an instant.
#[derive(Debug, Clone, Copy, PartialEq, Eq, Structural)]
pub struct ObservedStart {
    /// Latest instant the previous window was still provably running.
    pub not_before: Timestamp,
    /// Earliest instant the new window was provably running.
    pub not_after: Timestamp,
}

impl ObservedStart {
    /// The bracket's midpoint, in nanoseconds since the epoch.
    pub open spec fn midpoint(self) -> int {
        self.not_before.at() + (self.not_after.at() - self.not_before.at()) / 2
    }

    /// The bracket's width.
    pub open spec fn width(self) -> int {
        self.not_after.at() - self.not_before.at()
    }

    /// The bracket implied by one rollover.
    pub fn from_rollover(rollover: &WindowRollover) -> (r: Self)
        ensures
            r.not_after == rollover.observed_at,
            r.not_before == match rollover.prev_observed_at {
                Some(t) => t,
                None => rollover.observed_at,
            },
    {
        ObservedStart {
            not_before: match rollover.prev_observed_at {
                Some(t) => t,
                None => rollover.observed_at,
            },
            not_after: rollover.observed_at,
        }
    }

    /// The single instant to compute against: the bracket's midpoint.
    ///
    /// Neither end is usable on its own. `not_before` under-reports the pace
    /// after an outage, while `not_after` can sit arbitrarily close to `now`,
    /// and a window that opened a moment ago divides by an elapsed fraction of
    /// nearly zero. The midpoint is wrong by at most half the bracket in
    /// either direction, which is the best a bracket allows.
    pub fn estimate(self) -> (r: Timestamp)
        ensures
            r.at() == self.midpoint(),
            r == Timestamp::instant(self.midpoint()),
    {
        let before: i128 = self.not_before.nanos_since_epoch();
        let after: i128 = self.not_after.nanos_since_epoch();
        Timestamp::from_nanos(before + num::floor_div(after - before, 2))
    }

    /// How wide the bracket is, in nanoseconds — how much the estimate could
    /// be out by, doubled.
    pub fn uncertainty(self) -> (r: i128)
        ensures
            r == self.width(),
            time::FIRST - time::LAST <= r <= time::LAST - time::FIRST,
    {
        self.not_after.since(self.not_before)
    }
}

/// The estimate lies inside its bracket, and is out by no more than half the
/// bracket's width from either end.
pub proof fn estimate_lies_in_its_bracket(start: ObservedStart)
    requires
        start.not_before.at() <= start.not_after.at(),
    ensures
        start.not_before.at() <= start.midpoint() <= start.not_after.at(),
        2 * (start.midpoint() - start.not_before.at()) <= start.width(),
        2 * (start.not_after.at() - start.midpoint()) <= start.width() + 1,
{
}

/// The figures a fall in utilization is judged by.
#[derive(Debug, Clone, Copy, PartialEq, Eq, Structural)]
pub struct Fall {
    /// The utilization after the fall.
    pub new: Amount,
    /// The utilization before it less the utilization after it.
    pub drop: Amount,
    /// [`RESET_COLLAPSE_RATIO`] times the utilization before it.
    pub ceiling: Amount,
}

impl Fall {
    /// Whether the fall is far enough to be a reset.
    pub open spec fn collapse(self) -> bool {
        (Amount { bits: MIN_RESET_DROP }).le(self.drop) && self.new.le(self.ceiling)
    }
}

/// Whether usage fell far enough to be a reset the provider did not announce:
/// by at least [`MIN_RESET_DROP`], and to at most [`RESET_COLLAPSE_RATIO`] of
/// what was there.
///
/// Exported so that a decision *recorded* under this rule can be re-judged
/// under it later.
pub fn is_collapse(fall: Fall) -> (r: bool)
    ensures
        r == fall.collapse(),
{
    (Amount { bits: MIN_RESET_DROP }).at_most(fall.drop) && fall.new.at_most(fall.ceiling)
}

/// Which rollover, if any, one window underwent between two polls, given how
/// its utilization fell where both readings have one.
pub open spec fn classified(
    before: Option<Timestamp>,
    after: Option<Timestamp>,
    fall: Option<Fall>,
    observed_at: Timestamp,
) -> Option<RolloverKind> {
    let unannounced = if fall is Some && (fall->0).collapse() {
        Some(RolloverKind::Unannounced)
    } else {
        None
    };
    match (before, after) {
        (Some(prev), Some(new)) => if new.at() > prev.at() + RESET_TOLERANCE {
            // The old window was still supposed to be running when the new
            // one appeared, so the provider rolled it early.
            if prev.at() > observed_at.at() + RESET_TOLERANCE {
                Some(RolloverKind::Early)
            } else {
                Some(RolloverKind::Scheduled)
            }
        } else if new.at() < prev.at() - RESET_TOLERANCE {
            Some(RolloverKind::Retracted)
        } else {
            unannounced
        },
        _ => unannounced,
    }
}

fn classify(
    before: Option<Timestamp>,
    after: Option<Timestamp>,
    fall: Option<Fall>,
    observed_at: Timestamp,
) -> (r: Option<RolloverKind>)
    ensures
        r == classified(before, after, fall, observed_at),
{
    match (before, after) {
        (Some(prev), Some(new)) => {
            let moved: i128 = new.since(prev);
            if moved > RESET_TOLERANCE {
                return if prev.since(observed_at) > RESET_TOLERANCE {
                    Some(RolloverKind::Early)
                } else {
                    Some(RolloverKind::Scheduled)
                };
            }
            if moved < -RESET_TOLERANCE {
                return Some(RolloverKind::Retracted);
            }
        },
        _ => {},
    }
    // `reset_at` held still (or was never published), so the only evidence
    // left is the usage itself.
    match fall {
        Some(f) => if is_collapse(f) {
            Some(RolloverKind::Unannounced)
        } else {
            None
        },
        None => None,
    }
}

/// The last position in `windows` that holds the window `id`, if any does.
pub open spec fn position_of(windows: Seq<QuotaWindow>, id: Seq<char>) -> Option<int>
    decreases windows.len(),
{
    if windows.len() == 0 {
        None
    } else if windows.last().id@ == id {
        Some(windows.len() - 1)
    } else {
        position_of(windows.drop_last(), id)
    }
}

/// A position found holds the window asked for, and no later one does; where
/// none is found the window is not there.
pub proof fn position_holds_the_window(windows: Seq<QuotaWindow>, id: Seq<char>)
    ensures
        match position_of(windows, id) {
            Some(k) => {
                &&& 0 <= k < windows.len()
                &&& windows[k].id@ == id
                &&& forall|j: int| k < j < windows.len() ==> (#[trigger] windows[j]).id@ != id
            },
            None => forall|j: int| 0 <= j < windows.len() ==> (#[trigger] windows[j]).id@ != id,
        },
    decreases windows.len(),
{
    if windows.len() > 0 && windows.last().id@ != id {
        let init = windows.drop_last();
        position_holds_the_window(init, id);
        assert forall|j: int| 0 <= j < windows.len() - 1 implies #[trigger] windows[j]
            == init[j] by {}
    }
}

/// The window of an earlier poll that a later reading of `id` is compared
/// with: the last one listed under that id.
pub fn predecessor(windows: &[QuotaWindow], id: &WindowId) -> (r: Option<usize>)
    ensures
        r is Some <==> position_of(windows@, id@) is Some,
        r is Some ==> r->0 == position_of(windows@, id@)->0 && r->0 < windows@.len(),
{
    let mut i: usize = windows.len();
    assert(windows@.take(i as int) =~= windows@);
    while i > 0
        invariant
            i <= windows@.len(),
            position_of(windows@, id@) == position_of(windows@.take(i as int), id@),
        decreases i,
    {
        assert(windows@.take(i as int).drop_last() =~= windows@.take(i - 1));
        assert(windows@.take(i as int).last() == windows@[i - 1]);
        i -= 1;
        if windows[i].id.same(id) {
            return Some(i);
        }
    }
    None
}

/// What one window of the later poll underwent, if it was in the earlier one.
pub open spec fn change_of(
    prev: Seq<QuotaWindow>,
    after: QuotaWindow,
    fall: Option<Fall>,
    observed_at: Timestamp,
) -> Option<RolloverKind> {
    match position_of(prev, after.id@) {
        Some(k) => classified(prev[k].reset_at, after.reset_at, fall, observed_at),
        None => None,
    }
}

/// The positions among the first `n` windows of the later poll that rolled
/// over, in order.
pub open spec fn rolled(
    prev: Seq<QuotaWindow>,
    next: Seq<QuotaWindow>,
    falls: Seq<Option<Fall>>,
    observed_at: Timestamp,
    n: nat,
) -> Seq<int>
    decreases n,
{
    if n == 0 {
        Seq::empty()
    } else {
        let rest = rolled(prev, next, falls, observed_at, (n - 1) as nat);
        if change_of(prev, next[n - 1], falls[n - 1], observed_at) is Some {
            rest.push(n - 1)
        } else {
            rest
        }
    }
}

/// Compare two consecutive successful polls and report every window that
/// rolled over between them.
///
/// Windows present in only one of the two are skipped: a window appearing for
/// the first time has nothing to have rolled over from, and one that vanished
/// tells us about the provider's payload, not about a reset.
///
/// `falls[i]` is how the utilization of `next[i]` fell from that of its
/// [`predecessor`], where both readings have one. `prev_observed_at` is when
/// the earlier of the two polls completed; it is recorded on every rollover so
/// the reset's instant is stored as the bracket it actually is rather than as
/// the moment we happened to notice.
pub fn detect(
    account: &AccountId,
    prev: &[QuotaWindow],
    next: &[QuotaWindow],
    falls: &[Option<Fall>],
    poll: PollId,
    prev_observed_at: Option<Timestamp>,
    observed_at: Timestamp,
) -> (r: Vec<WindowRollover>)
    requires
        falls@.len() == next@.len(),
    ensures
        ({
            let at = rolled(prev@, next@, falls@, observed_at, next@.len());
            &&& r@.len() == at.len()
            &&& forall|k: int|
                0 <= k < at.len() ==> {
                    let after = next@[at[k]];
                    let before = prev@[position_of(prev@, after.id@)->0];
                    (#[trigger] r@[k]) == (WindowRollover {
                        account: *account,
                        window: after.id,
                        poll,
                        observed_at,
                        kind: change_of(prev@, after, falls@[at[k]], observed_at)->0,
                        prev_reset_at: before.reset_at,
                        new_reset_at: after.reset_at,
                        prev_used: before.used,
                        new_used: after.used,
                        prev_observed_at,
                    })
                }
        }),
{
    let mut out: Vec<WindowRollover> = Vec::new();
    let mut i: usize = 0;
    while i < next.len()
        invariant
            i <= next@.len(),
            falls@.len() == next@.len(),
            ({
                let at = rolled(prev@, next@, falls@, observed_at, i as nat);
                &&& out@.len() == at.len()
                &&& forall|k: int|
                    0 <= k < at.len() ==> {
                        let after = next@[at[k]];
                        let before = prev@[position_of(prev@, after.id@)->0];
                        (#[trigger] out@[k]) == (WindowRollover {
                            account: *account,
                            window: after.id,
                            poll,
                            observed_at,
                            kind: change_of(prev@, after, falls@[at[k]], observed_at)->0,
                            prev_reset_at: before.reset_at,
                            new_reset_at: after.reset_at,
                            prev_used: before.used,
                            new_used: after.used,
                            prev_observed_at,
                        })
                    }
            }),
        decreases next@.len() - i,
    {
        let after = &next[i];
        if let Some(k) = predecessor(prev, &after.id) {
            let before = &prev[k];
            if let Some(kind) = classify(before.reset_at, after.reset_at, falls[i], observed_at) {
                out.push(
                    WindowRollover {
                        account: account.clone(),
                        window: after.id.clone(),
                        poll,
                        observed_at,
                        kind,
                        prev_reset_at: before.reset_at,
                        new_reset_at: after.reset_at,
                        prev_used: before.used,
                        new_used: after.used,
                        prev_observed_at,
                    },
                );
            }
        }
        i += 1;
    }
    out
}

/// `reset_at` drifting within the tolerance, in either direction, is no
/// rollover unless usage collapsed as well.
pub proof fn drift_alone_is_no_rollover(
    before: Timestamp,
    after: Timestamp,
    fall: Option<Fall>,
    observed_at: Timestamp,
)
    requires
        -RESET_TOLERANCE <= after.at() - before.at() <= RESET_TOLERANCE,
        fall is Some ==> !(fall->0).collapse(),
    ensures
        classified(Some(before), Some(after), fall, observed_at) is None,
{
}

/// A fall of less than [`MIN_RESET_DROP`] — a rise in particular — is never
/// read as a reset.
pub proof fn a_small_fall_is_no_collapse(fall: Fall)
    requires
        fall.drop.lt(Amount { bits: MIN_RESET_DROP }),
    ensures
        !fall.collapse(),
{
}

/// Every reset is observed: usage that collapsed is reported, whatever the
/// provider says of the reset instant, and so is an instant that moved by more
/// than the tolerance, whatever usage did.
pub proof fn every_reset_is_observed(
    before: Option<Timestamp>,
    after: Option<Timestamp>,
    fall: Option<Fall>,
    observed_at: Timestamp,
)
    requires
        (fall is Some && (fall->0).collapse()) || (before is Some && after is Some && !(
        -RESET_TOLERANCE <= (after->0).at() - (before->0).at() <= RESET_TOLERANCE)),
    ensures
        classified(before, after, fall, observed_at) is Some,
{
}

/// Nothing inside one window reads as a reset: while usage does not fall and
/// the instant does not move by more than the tolerance, nothing is reported.
pub proof fn a_climbing_window_holds_no_reset(
    before: Option<Timestamp>,
    after: Option<Timestamp>,
    fall: Option<Fall>,
    observed_at: Timestamp,
)
    requires
        fall matches Some(f) ==> f.drop.le(Amount { bits: 0 }),
        before is Some && after is Some ==> -RESET_TOLERANCE <= (after->0).at() - (before->0).at()
            <= RESET_TOLERANCE,
    ensures
        classified(before, after, fall, observed_at) is None,
{
}

/// Every position reported is one of the later poll's, in order and without
/// repetition, and its window was in the earlier poll as well.
pub proof fn only_windows_in_both_polls_roll(
    prev: Seq<QuotaWindow>,
    next: Seq<QuotaWindow>,
    falls: Seq<Option<Fall>>,
    observed_at: Timestamp,
    n: nat,
)
    requires
        n <= next.len(),
    ensures
        ({
            let at = rolled(prev, next, falls, observed_at, n);
            &&& forall|k: int|
                0 <= k < at.len() ==> 0 <= #[trigger] at[k] < n && position_of(
                    prev,
                    next[at[k]].id@,
                ) is Some
            &&& forall|j: int, k: int| 0 <= j < k < at.len() ==> at[j] < at[k]
        }),
    decreases n,
{
    if n > 0 {
        only_windows_in_both_polls_roll(prev, next, falls, observed_at, (n - 1) as nat);
    }
}

/// Every window of the later poll that underwent a change is reported.
pub proof fn every_rolled_window_is_reported(
    prev: Seq<QuotaWindow>,
    next: Seq<QuotaWindow>,
    falls: Seq<Option<Fall>>,
    observed_at: Timestamp,
    n: nat,
    i: int,
)
    requires
        0 <= i < n <= next.len(),
        change_of(prev, next[i], falls[i], observed_at) is Some,
    ensures
        rolled(prev, next, falls, observed_at, n).contains(i),
    decreases n,
{
    let at = rolled(prev, next, falls, observed_at, n);
    if i < n - 1 {
        every_rolled_window_is_reported(prev, next, falls, observed_at, (n - 1) as nat, i);
        let rest = rolled(prev, next, falls, observed_at, (n - 1) as nat);
        let k = choose|k: int| 0 <= k < rest.len() && rest[k] == i;
        assert(at[k] == i);
    } else {
        assert(at.last() == i);
    }
}

/// The kind of an announced reset is told by three instants alone, whatever
/// usage did: where the new reset lies more than two minutes after the old one,
/// the reset was early if the old one was still more than two minutes out when
/// the poll completed, and on schedule otherwise; where it lies more than two
/// minutes before the old one, it was pulled in.
pub proof fn an_announced_reset_is_told_by_its_instants(
    before: Timestamp,
    after: Timestamp,
    fall: Option<Fall>,
    observed_at: Timestamp,
)
    ensures
        after.at() - before.at() > 120_000_000_000 ==> classified(
            Some(before),
            Some(after),
            fall,
            observed_at,
        ) == Some(
            if before.at() - observed_at.at() > 120_000_000_000 {
                RolloverKind::Early
            } else {
                RolloverKind::Scheduled
            },
        ),
        before.at() - after.at() > 120_000_000_000 ==> classified(
            Some(before),
            Some(after),
            fall,
            observed_at,
        ) == Some(RolloverKind::Retracted),
{
}

/// Where no reset is announced — the instant did not move by more than two
/// minutes, or is not published in both polls — there is one exactly when usage
/// collapsed: it fell by five hundredths or more, and to no more than the
/// ceiling. It is then unannounced, and when it was noticed does not matter.
pub proof fn an_unannounced_reset_is_told_by_usage(
    before: Option<Timestamp>,
    after: Option<Timestamp>,
    fall: Option<Fall>,
    observed_at: Timestamp,
)
    requires
        before is Some && after is Some ==> -120_000_000_000 <= (after->0).at() - (before->0).at()
            <= 120_000_000_000,
    ensures
        classified(before, after, fall, observed_at) == if fall is Some && (Amount {
            bits: 0x3fa9_9999_9999_999a,
        }).le((fall->0).drop) && (fall->0).new.le((fall->0).ceiling) {
            Some(RolloverKind::Unannounced)
        } else {
            None
        },
{
}

/// The same change is read the same way however the two polls are shifted in
/// time together.
pub proof fn a_change_reads_the_same_at_any_time(
    before: Timestamp,
    after: Timestamp,
    fall: Option<Fall>,
    observed_at: Timestamp,
    later_before: Timestamp,
    later_after: Timestamp,
    later_observed: Timestamp,
)
    requires
        later_before.at() - before.at() == later_after.at() - after.at(),
        later_before.at() - before.at() == later_observed.at() - observed_at.at(),
    ensures
        classified(Some(before), Some(after), fall, observed_at) == classified(
            Some(later_before),
            Some(later_after),
            fall,
            later_observed,
        ),
{
}

/// A window of the later poll is reported exactly when the earlier poll listed
/// it and the two readings differ by a reset: the last listing under its id is
/// the one it is compared with. What is reported is the kind of that reset.
pub proof fn a_window_is_compared_with_its_last_listing(
    prev: Seq<QuotaWindow>,
    next: Seq<QuotaWindow>,
    falls: Seq<Option<Fall>>,
    observed_at: Timestamp,
    i: int,
    k: int,
)
    requires
        0 <= i < next.len(),
        0 <= k < prev.len(),
        prev[k].id@ == next[i].id@,
        forall|j: int| k < j < prev.len() ==> (#[trigger] prev[j]).id@ != next[i].id@,
    ensures
        change_of(prev, next[i], falls[i], observed_at) == classified(
            prev[k].reset_at,
            next[i].reset_at,
            falls[i],
            observed_at,
        ),
        rolled(prev, next, falls, observed_at, next.len()).contains(i) <==> classified(
            prev[k].reset_at,
            next[i].reset_at,
            falls[i],
            observed_at,
        ) is Some,
{
    position_holds_the_window(prev, next[i].id@);
    let at = rolled(prev, next, falls, observed_at, next.len());
    let found = position_of(prev, next[i].id@);
    match found {
        Some(p) => {
            if p < k {
                assert(prev[k].id@ != next[i].id@);
            } else if p > k {
                assert(prev[p].id@ != next[i].id@);
            }
        },
        None => {
            assert(prev[k].id@ != next[i].id@);
        },
    }
    if change_of(prev, next[i], falls[i], observed_at) is Some {
        every_rolled_window_is_reported(prev, next, falls, observed_at, next.len(), i);
    }
    if at.contains(i) {
        only_changes_are_reported(prev, next, falls, observed_at, next.len(), i);
    }
}

proof fn only_changes_are_reported(
    prev: Seq<QuotaWindow>,
    next: Seq<QuotaWindow>,
    falls: Seq<Option<Fall>>,
    observed_at: Timestamp,
    n: nat,
    i: int,
)
    requires
        n <= next.len(),
        rolled(prev, next, falls, observed_at, n).contains(i),
    ensures
        change_of(prev, next[i], falls[i], observed_at) is Some,
    decreases n,
{
    if n > 0 {
        let rest = rolled(prev, next, falls, observed_at, (n - 1) as nat);
        let at = rolled(prev, next, falls, observed_at, n);
        let k = choose|k: int| 0 <= k < at.len() && at[k] == i;
        if k < rest.len() {
            assert(rest[k] == i);
            only_changes_are_reported(prev, next, falls, observed_at, (n - 1) as nat, i);
        }
    }
}

/// A window that the earlier poll did not list is never reported.
pub proof fn a_new_window_did_not_roll_over(
    prev: Seq<QuotaWindow>,
    next: Seq<QuotaWindow>,
    falls: Seq<Option<Fall>>,
    observed_at: Timestamp,
    i: int,
)
    requires
        0 <= i < next.len(),
        forall|j: int| 0 <= j < prev.len() ==> (#[trigger] prev[j]).id@ != next[i].id@,
    ensures
        change_of(prev, next[i], falls[i], observed_at) is None,
        !rolled(prev, next, falls, observed_at, next.len()).contains(i),
{
    position_holds_the_window(prev, next[i].id@);
    if rolled(prev, next, falls, observed_at, next.len()).contains(i) {
        only_changes_are_reported(prev, next, falls, observed_at, next.len(), i);
    }
}

/// The words a rollover's kind is stored under.
pub proof fn kinds_are_stored_by_name()
    ensures
        RolloverKind::Scheduled.column() == "scheduled"@,
        RolloverKind::Early.column() == "early"@,
        RolloverKind::Retracted.column() == "retracted"@,
        RolloverKind::Unannounced.column() == "unannounced"@,
{
}

/// A bracket is as wide as its ends are apart, and its estimate is halfway
/// between them.
pub proof fn the_estimate_is_halfway(start: ObservedStart)
    ensures
        start.width() == start.not_after.at() - start.not_before.at(),
        2 * start.midpoint() <= start.not_before.at() + start.not_after.at() <= 2
            * start.midpoint() + 1,
{
}

} // verus!
