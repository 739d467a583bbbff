//! Core domain model: accounts, quota windows, and poll events.

use vstd::prelude::*;

use crate::amount::Amount;
use crate::ids::{AccountId, PollId, ProviderId, WindowId};
use crate::order::Timed;
use crate::time;
use crate::time::{Duration, Timestamp};

verus! {

/// One provider account, e.g. a personal and a work login.
#[derive(Debug, PartialEq, Eq)]
pub struct Account {
    /// Stable provider-derived id.
    pub id: AccountId,
    /// Owning provider.
    pub provider: ProviderId,
    /// Human label, e.g. `"personal"`, `"work"`.
    pub label: String,
}

impl Clone for Account {
    fn clone(&self) -> (r: Self)
        ensures
            r == *self,
    {
        Account {
            id: self.id.clone(),
            provider: self.provider.clone(),
            label: self.label.clone(),
        }
    }
}

/// What a quota window applies to.
#[derive(Debug, PartialEq, Eq)]
pub enum WindowScope {
    /// Applies to the whole account.
    AccountWide,
    /// Applies to a single model, e.g. `Model("opus")`.
    Model(String),
}

impl Clone for WindowScope {
    fn clone(&self) -> (r: Self)
        ensures
            r == *self,
    {
        match self {
            WindowScope::AccountWide => WindowScope::AccountWide,
            WindowScope::Model(m) => WindowScope::Model(m.clone()),
        }
    }
}

/// How a quota window resets.
#[derive(Debug, Clone, Copy, PartialEq, Eq, Structural)]
pub enum ResetKind {
    /// Anchored rolling window of the given length (e.g. 5 hours, 7 days).
    Rolling(Duration),
}

/// Unit the provider reports usage in.
#[derive(Debug, Clone, Copy, PartialEq, Eq, Structural)]
pub enum QuotaUnit {
    /// Usage as a percentage of an unpublished limit.
    Percent,
    /// Message counts.
    Messages,
    /// Token counts.
    Tokens,
    /// Hours of usage.
    Hours,
}

/// One quota window for one account, as reported by a single poll.
#[derive(Debug, PartialEq, Eq)]
pub struct QuotaWindow {
    /// Provider-defined window id.
    pub id: WindowId,
    /// Adapter-supplied display label, e.g. `"Opus — 5 hour"`.
    pub label: String,
    /// What the window applies to.
    pub scope: WindowScope,
    /// How the window resets.
    pub reset_kind: ResetKind,
    /// Reporting unit.
    pub unit: QuotaUnit,
    /// Amount used, in `unit`.
    pub used: Amount,
    /// Limit in `unit`; `None` where the provider only exposes % remaining.
    pub limit: Option<Amount>,
    /// When the window resets, if known.
    pub reset_at: Option<Timestamp>,
}

impl Clone for QuotaWindow {
    fn clone(&self) -> (r: Self)
        ensures
            r == *self,
    {
        QuotaWindow {
            id: self.id.clone(),
            label: self.label.clone(),
            scope: self.scope.clone(),
            reset_kind: self.reset_kind,
            unit: self.unit,
            used: self.used,
            limit: self.limit,
            reset_at: self.reset_at,
        }
    }
}

/// What a quota window says, with its texts as characters.
pub struct WindowData {
    /// Provider-defined window id.
    pub id: Seq<char>,
    /// Display label.
    pub label: Seq<char>,
    /// The model the window applies to; `None` for the whole account.
    pub model: Option<Seq<char>>,
    /// How the window resets.
    pub reset_kind: ResetKind,
    /// Reporting unit.
    pub unit: QuotaUnit,
    /// Amount used, in `unit`.
    pub used: Amount,
    /// Limit in `unit`.
    pub limit: Option<Amount>,
    /// When the window resets, if known.
    pub reset_at: Option<Timestamp>,
}

impl View for QuotaWindow {
    type V = WindowData;

    open spec fn view(&self) -> WindowData {
        WindowData {
            id: self.id@,
            label: self.label@,
            model: match self.scope {
                WindowScope::AccountWide => None,
                WindowScope::Model(m) => Some(m@),
            },
            reset_kind: self.reset_kind,
            unit: self.unit,
            used: self.used,
            limit: self.limit,
            reset_at: self.reset_at,
        }
    }
}

/// What each of a list of windows says.
pub open spec fn said(windows: Seq<QuotaWindow>) -> Seq<WindowData> {
    windows.map_values(|w: QuotaWindow| w@)
}

/// Bit pattern of the figure 1.
pub const ONE: u64 = 0x3ff0_0000_0000_0000;

/// Bit pattern of the figure 100.
pub const HUNDRED: u64 = 0x4059_0000_0000_0000;

/// What a reading has to be divided by to become a fraction of its window:
/// a hundred for a percentage, the limit for a count with a positive one.
/// `None` when there is no scale to measure the reading against.
pub open spec fn utilization_divisor(unit: QuotaUnit, limit: Option<Amount>) -> Option<Amount> {
    match unit {
        QuotaUnit::Percent => Some(Amount { bits: HUNDRED }),
        _ => match limit {
            Some(l) => if (Amount { bits: 0 }).lt(l) {
                Some(l)
            } else {
                None
            },
            None => None,
        },
    }
}

/// A quotient brought into `0..=1`: what lies outside takes the nearer end,
/// and what is no number stays what it is.
pub open spec fn clamped(q: Amount) -> Amount {
    if q.lt(Amount { bits: 0 }) {
        Amount { bits: 0 }
    } else if (Amount { bits: ONE }).lt(q) {
        Amount { bits: ONE }
    } else {
        q
    }
}

/// The utilization a reading has once `used / divisor` is known.
pub open spec fn utilization_of(
    unit: QuotaUnit,
    limit: Option<Amount>,
    quotient: Amount,
) -> Option<Amount> {
    match utilization_divisor(unit, limit) {
        Some(_) => Some(clamped(quotient)),
        None => None,
    }
}

fn divisor_of(unit: QuotaUnit, limit: Option<Amount>) -> (r: Option<Amount>)
    ensures
        r == utilization_divisor(unit, limit),
{
    match unit {
        QuotaUnit::Percent => Some(Amount { bits: HUNDRED }),
        _ => match limit {
            Some(l) => if (Amount { bits: 0 }).below(l) {
                Some(l)
            } else {
                None
            },
            None => None,
        },
    }
}

fn clamp(q: Amount) -> (r: Amount)
    ensures
        r == clamped(q),
{
    if q.below(Amount { bits: 0 }) {
        Amount { bits: 0 }
    } else if (Amount { bits: ONE }).below(q) {
        Amount { bits: ONE }
    } else {
        q
    }
}

/// The length of a window, if it is one that instants can be moved by.
pub open spec fn span_of(kind: ResetKind) -> Option<int> {
    match kind {
        ResetKind::Rolling(d) => if d.len() <= time::MAX_LENGTH {
            Some(d.len())
        } else {
            None
        },
    }
}

impl QuotaWindow {
    /// What `used` is to be divided by for the window's utilization.
    pub fn divisor(&self) -> (r: Option<Amount>)
        ensures
            r == utilization_divisor(self.unit, self.limit),
    {
        divisor_of(self.unit, self.limit)
    }

    /// Utilization ratio in `0..=1`, when computable from the window's own
    /// fields. `quotient` is `used` over [`QuotaWindow::divisor`].
    pub fn utilization(&self, quotient: Amount) -> (r: Option<Amount>)
        ensures
            r == utilization_of(self.unit, self.limit, quotient),
    {
        match self.divisor() {
            Some(_) => Some(clamp(quotient)),
            None => None,
        }
    }

    /// How long the window rolls over, in nanoseconds.
    pub fn span(&self) -> (r: Option<i128>)
        ensures
            r is Some <==> span_of(self.reset_kind) is Some,
            r is Some ==> r->0 == span_of(self.reset_kind)->0,
            r is Some ==> 0 <= r->0 <= time::MAX_LENGTH,
    {
        match self.reset_kind {
            ResetKind::Rolling(d) => {
                let n: i128 = d.as_nanos();
                if n <= time::MAX_LENGTH {
                    Some(n)
                } else {
                    None
                }
            },
        }
    }

    /// When the current window began, in nanoseconds since the epoch.
    pub open spec fn start(self) -> Option<int> {
        match (self.reset_at, span_of(self.reset_kind)) {
            (Some(reset), Some(span)) => Some(reset.at() - span),
            _ => None,
        }
    }

    /// When the current window began: `reset_at` less its own length. `None`
    /// when the provider did not publish `reset_at`, since without it the
    /// window's start is unknowable.
    pub fn started_at(&self) -> (r: Option<Timestamp>)
        requires
            self.start() is Some ==> time::representable(self.start()->0),
        ensures
            r is Some <==> self.start() is Some,
            r is Some ==> (r->0).at() == self.start()->0,
            r is Some ==> r->0 == Timestamp::instant(self.start()->0),
    {
        match (self.reset_at, self.span()) {
            (Some(reset), Some(span)) => Some(
                Timestamp::from_nanos(reset.nanos_since_epoch() - span),
            ),
            _ => None,
        }
    }
}

/// What caused a poll.
#[derive(Debug, PartialEq, Eq)]
pub enum PollTrigger {
    /// The scheduler's interval fired.
    Scheduled,
    /// A client requested it via `PollNow`.
    Manual {
        /// The client that asked.
        client: ClientKind,
    },
    /// Initial poll on daemon startup.
    Startup,
}

/// Kind of client that triggered a manual poll.
#[derive(Debug, PartialEq, Eq)]
pub enum ClientKind {
    /// The `teiryo` TUI.
    Tui,
    /// A future non-TUI caller, e.g. a CLI or HTTP shim.
    Other(String),
}

/// Result of one poll of one account.
#[derive(Debug, PartialEq, Eq)]
pub enum PollOutcome {
    /// Probe and parse succeeded; all windows the account reported.
    Success {
        /// Windows returned by this poll (usually several).
        windows: Vec<QuotaWindow>,
    },
    /// Credentials missing, invalid, or expired.
    AuthError(String),
    /// Transport-level failure.
    NetworkError(String),
    /// Response arrived but no longer matches the expected schema.
    SchemaDrift(String),
    /// Provider rate-limited the probe itself.
    RateLimited {
        /// Provider-suggested retry delay, if any.
        retry_after: Option<Duration>,
    },
}

impl PollOutcome {
    /// Error message, if this outcome is a failure.
    pub open spec fn message(self) -> Option<Seq<char>> {
        match self {
            PollOutcome::Success { .. } => None,
            PollOutcome::AuthError(m) => Some(m@),
            PollOutcome::NetworkError(m) => Some(m@),
            PollOutcome::SchemaDrift(m) => Some(m@),
            PollOutcome::RateLimited { .. } => Some("rate limited"@),
        }
    }

    /// Error message, if this outcome is a failure.
    pub fn error_message(&self) -> (r: Option<&str>)
        ensures
            r is Some <==> self.message() is Some,
            r is Some ==> (r->0)@ == self.message()->0,
    {
        match self {
            PollOutcome::Success { .. } => None,
            PollOutcome::AuthError(m) => Some(m.as_str()),
            PollOutcome::NetworkError(m) => Some(m.as_str()),
            PollOutcome::SchemaDrift(m) => Some(m.as_str()),
            PollOutcome::RateLimited { .. } => Some("rate limited"),
        }
    }
}

/// One completed poll: trigger, outcome, and timing, for one account.
#[derive(Debug, PartialEq, Eq)]
pub struct PollEvent {
    /// Sortable poll id.
    pub id: PollId,
    /// When the poll completed.
    pub ts: Timestamp,
    /// Provider polled.
    pub provider: ProviderId,
    /// Account polled.
    pub account: AccountId,
    /// What caused the poll.
    pub trigger: PollTrigger,
    /// What happened.
    pub outcome: PollOutcome,
    /// Wall-clock probe latency in milliseconds.
    pub latency_ms: u32,
}

/// One historical quota reading: a `QuotaWindow` measurement tied to the poll
/// that produced it. Scope/reset kind are not persisted — history is about
/// `used`/`limit` over time.
#[derive(Debug, PartialEq, Eq)]
pub struct QuotaSnapshot {
    /// Poll that produced this reading.
    pub poll_id: PollId,
    /// When the poll completed.
    pub ts: Timestamp,
    /// Window measured.
    pub window: WindowId,
    /// Display label at the time of the poll.
    pub label: String,
    /// Reporting unit.
    pub unit: QuotaUnit,
    /// Amount used, in `unit`.
    pub used: Amount,
    /// Limit in `unit`, if the provider publishes one.
    pub limit: Option<Amount>,
    /// When the window resets, if known.
    pub reset_at: Option<Timestamp>,
}

impl Clone for QuotaSnapshot {
    fn clone(&self) -> (r: Self)
        ensures
            r == *self,
    {
        QuotaSnapshot {
            poll_id: self.poll_id,
            ts: self.ts,
            window: self.window.clone(),
            label: self.label.clone(),
            unit: self.unit,
            used: self.used,
            limit: self.limit,
            reset_at: self.reset_at,
        }
    }
}

impl QuotaSnapshot {
    /// What `used` is to be divided by for the reading's utilization.
    pub fn divisor(&self) -> (r: Option<Amount>)
        ensures
            r == utilization_divisor(self.unit, self.limit),
    {
        divisor_of(self.unit, self.limit)
    }

    /// Utilization ratio in `0..=1` at the moment of this reading, when
    /// computable from the fields the snapshot carries. `quotient` is `used`
    /// over [`QuotaSnapshot::divisor`].
    pub fn utilization(&self, quotient: Amount) -> (r: Option<Amount>)
        ensures
            r == utilization_of(self.unit, self.limit, quotient),
    {
        match self.divisor() {
            Some(_) => Some(clamp(quotient)),
            None => None,
        }
    }
}

impl Timed for QuotaSnapshot {
    open spec fn when(&self) -> int {
        self.ts.at()
    }

    fn when_nanos(&self) -> (r: i128) {
        self.ts.nanos_since_epoch()
    }
}

/// Whether a reading is of a given window.
pub open spec fn of_window(window: Seq<char>) -> spec_fn(QuotaSnapshot) -> bool {
    |s: QuotaSnapshot| s.window@ == window
}

/// The readings of one window among mixed ones, in their own order.
pub open spec fn readings_of(snapshots: Seq<QuotaSnapshot>, window: Seq<char>) -> Seq<
    QuotaSnapshot,
> {
    snapshots.filter(of_window(window))
}

/// One more reading joins the readings of its own window only.
pub proof fn readings_of_push(snapshots: Seq<QuotaSnapshot>, s: QuotaSnapshot, window: Seq<char>)
    ensures
        readings_of(snapshots.push(s), window) == if s.window@ == window {
            readings_of(snapshots, window).push(s)
        } else {
            readings_of(snapshots, window)
        },
{
    reveal(Seq::filter);
    assert(snapshots.push(s).drop_last() =~= snapshots);
}

/// Nothing has no readings of any window.
pub proof fn readings_of_nothing(window: Seq<char>)
    ensures
        readings_of(Seq::empty(), window) == Seq::<QuotaSnapshot>::empty(),
{
    reveal(Seq::filter);
}

/// A live reading and a snapshot of it are divided by the same figure, and so
/// mean the same utilization.
pub proof fn snapshot_reads_like_its_window(
    window: QuotaWindow,
    snapshot: QuotaSnapshot,
    quotient: Amount,
)
    requires
        window.unit == snapshot.unit,
        window.limit == snapshot.limit,
    ensures
        utilization_divisor(window.unit, window.limit) == utilization_divisor(
            snapshot.unit,
            snapshot.limit,
        ),
        utilization_of(window.unit, window.limit, quotient) == utilization_of(
            snapshot.unit,
            snapshot.limit,
            quotient,
        ),
{
}

/// A utilization lies between nothing and the whole window, whenever the
/// quotient was a number.
pub proof fn utilization_is_a_fraction(unit: QuotaUnit, limit: Option<Amount>, quotient: Amount)
    requires
        !quotient.nan(),
    ensures
        utilization_of(unit, limit, quotient) matches Some(u) ==> {
            &&& (Amount { bits: 0 }).le(u)
            &&& u.le(Amount { bits: ONE })
        },
{
}

/// A percentage is measured against a hundred, whatever limit is published with
/// it; a count against its limit, where that is a number above zero, and
/// against nothing otherwise.
pub proof fn readings_are_measured_against_their_scale(unit: QuotaUnit, limit: Option<Amount>)
    ensures
        unit == QuotaUnit::Percent ==> utilization_divisor(unit, limit) == Some(
            Amount { bits: 0x4059_0000_0000_0000 },
        ),
        unit != QuotaUnit::Percent ==> (utilization_divisor(unit, limit) is Some <==> limit is Some
            && 0 < (limit->0).bits <= 0x7ff0_0000_0000_0000),
        unit != QuotaUnit::Percent && utilization_divisor(unit, limit) is Some
            ==> utilization_divisor(unit, limit) == limit,
{
}

/// A utilization is the quotient itself where that lies between nothing and one,
/// and the nearer of the two where it does not; a reading without a scale has
/// none, whatever the quotient.
pub proof fn a_utilization_is_its_quotient_in_range(
    unit: QuotaUnit,
    limit: Option<Amount>,
    quotient: Amount,
)
    ensures
        utilization_of(unit, limit, quotient) is Some <==> utilization_divisor(unit, limit) is Some,
        utilization_of(unit, limit, quotient) matches Some(u) ==> {
            &&& (quotient.bits <= 0x3ff0_0000_0000_0000 ==> u == quotient)
            &&& (0x3ff0_0000_0000_0000 < quotient.bits <= 0x7ff0_0000_0000_0000 ==> u.bits
                == 0x3ff0_0000_0000_0000)
            &&& (0x8000_0000_0000_0000 < quotient.bits <= 0xfff0_0000_0000_0000 ==> u.bits == 0)
            &&& (quotient.bits == 0x8000_0000_0000_0000 || quotient.nan() ==> u == quotient)
        },
{
}

/// A window began its own length before its reset, and no window without a
/// reset instant has a beginning.
pub proof fn a_window_begins_its_length_before_its_reset(window: QuotaWindow, length: Duration)
    requires
        window.reset_kind == ResetKind::Rolling(length),
        length.secs * 1_000_000_000 + length.nanos <= 9_223_372_036_854_775_807_000_000,
    ensures
        window.reset_at matches Some(reset) ==> window.start() == Some(
            reset.at() - (length.secs * 1_000_000_000 + length.nanos),
        ),
        window.reset_at is None ==> window.start() is None,
{
}

/// Every failed poll says what failed, in its own words where it has any, and
/// no successful one does.
pub proof fn failures_say_what_failed(outcome: PollOutcome)
    ensures
        outcome.message() is None <==> outcome is Success,
        outcome matches PollOutcome::AuthError(m) ==> outcome.message() == Some(m@),
        outcome matches PollOutcome::NetworkError(m) ==> outcome.message() == Some(m@),
        outcome matches PollOutcome::SchemaDrift(m) ==> outcome.message() == Some(m@),
        outcome is RateLimited ==> outcome.message() == Some("rate limited"@),
{
}

/// The readings of a window are those that name it, all of them, in the order
/// they came in.
pub proof fn readings_are_picked_by_window(
    snapshots: Seq<QuotaSnapshot>,
    s: QuotaSnapshot,
    window: Seq<char>,
)
    ensures
        readings_of(snapshots, window).contains(s) <==> snapshots.contains(s) && s.window@
            == window,
        s.window@ == window ==> readings_of(snapshots.push(s), window) == readings_of(
            snapshots,
            window,
        ).push(s),
        s.window@ != window ==> readings_of(snapshots.push(s), window) == readings_of(
            snapshots,
            window,
        ),
{
    let own = of_window(window);
    let picked = snapshots.filter(own);
    readings_of_push(snapshots, s, window);
    if picked.contains(s) {
        let i = choose|i: int| 0 <= i < picked.len() && picked[i] == s;
        snapshots.lemma_filter_pred(own, i);
        snapshots.lemma_filter_contains_rev(own, s);
    }
    if snapshots.contains(s) && s.window@ == window {
        let i = choose|i: int| 0 <= i < snapshots.len() && snapshots[i] == s;
        snapshots.lemma_filter_contains(own, i);
    }
}

} // verus!
