//! Rows as they are written and read.

use vstd::prelude::*;

use crate::amount::Amount;
use crate::domain::{PollEvent, PollOutcome, PollTrigger, QuotaSnapshot, QuotaUnit, QuotaWindow};
use crate::ids;
use crate::ids::{AccountId, PollId, WindowId};
use crate::num;
use crate::rollover;
use crate::rollover::{RolloverKind, WindowRollover};
use crate::text;
use crate::time;
use crate::time::Timestamp;

verus! {

/// Storage failure.
#[derive(Debug, PartialEq, Eq)]
pub enum StorageError {
    /// A stored value was structurally invalid (e.g. unparseable ULID).
    Corrupt(String),
}

/// A text in quotes with what needs it escaped, as `{:?}` formats one.
pub uninterp spec fn quoted_text(s: Seq<char>) -> Seq<char>;

/// `format!` with `{:?}` quotes a text and escapes what needs it; what it
/// writes depends on the text alone.
#[verifier::external_body]
fn quoted(s: &str) -> (r: String)
    ensures
        r@ == quoted_text(s@),
{
    format!("{s:?}")
}

// ---------------------------------------------------------------------------
// Instants
// ---------------------------------------------------------------------------

/// Where an instant stored as milliseconds stands, in nanoseconds since the
/// epoch. A number that no instant has reads as the epoch.
pub open spec fn stored_at(ms: i64) -> int {
    if time::representable(ms * time::NANOS_PER_MILLI) {
        ms * time::NANOS_PER_MILLI
    } else {
        0
    }
}

/// `chrono::DateTime::from_timestamp_millis` gives the instant so many
/// milliseconds from the epoch: whole seconds rounded down and the rest in
/// nanoseconds, or nothing where there is no such instant.
#[verifier::external_body]
fn from_timestamp_millis(ms: i64) -> (r: Option<(i64, u32)>)
    ensures
        r is Some <==> time::representable(ms * time::NANOS_PER_MILLI),
        r matches Some((secs, nanos)) ==> secs * time::NANOS_PER_SEC + nanos == ms
            * time::NANOS_PER_MILLI,
{
    let at = chrono::DateTime::<chrono::Utc>::from_timestamp_millis(ms)?;
    Some((at.timestamp(), at.timestamp_subsec_nanos()))
}

/// An instant as it is stored.
pub fn ts_to_millis(ts: Timestamp) -> (r: i64)
    ensures
        r == ts.at() / (time::NANOS_PER_MILLI as int),
{
    num::floor_div(ts.nanos_since_epoch(), time::NANOS_PER_MILLI) as i64
}

/// An instant as it was stored.
pub fn millis_to_ts(ms: i64) -> (r: Timestamp)
    ensures
        r.at() == stored_at(ms),
{
    match from_timestamp_millis(ms) {
        Some((secs, nanos)) => Timestamp::from_nanos(
            secs as i128 * time::NANOS_PER_SEC + nanos as i128,
        ),
        None => Timestamp::from_nanos(0),
    }
}

/// An instant with its fraction of a millisecond dropped.
pub open spec fn to_the_milli(at: int) -> int {
    at - at % (time::NANOS_PER_MILLI as int)
}

/// An instant reads back as it was written, to the millisecond.
pub proof fn instants_round_trip(at: int, ms: i64)
    requires
        time::representable(at),
        ms == at / (time::NANOS_PER_MILLI as int),
    ensures
        stored_at(ms) == to_the_milli(at),
{
}

/// An optional instant as it is stored.
fn opt_to_millis(ts: Option<Timestamp>) -> (r: Option<i64>)
    ensures
        match (ts, r) {
            (Some(t), Some(ms)) => ms == t.at() / (time::NANOS_PER_MILLI as int),
            (None, None) => true,
            _ => false,
        },
{
    match ts {
        Some(t) => Some(ts_to_millis(t)),
        None => None,
    }
}

/// An optional instant as it was stored.
fn opt_to_ts(ms: Option<i64>) -> (r: Option<Timestamp>)
    ensures
        instant_read(ms, r),
{
    match ms {
        Some(ms) => Some(millis_to_ts(ms)),
        None => None,
    }
}

/// Whether an optional instant is what a stored one reads as.
pub open spec fn instant_read(ms: Option<i64>, ts: Option<Timestamp>) -> bool {
    match (ms, ts) {
        (Some(ms), Some(t)) => t.at() == stored_at(ms),
        (None, None) => true,
        _ => false,
    }
}

/// Whether a stored instant is what an optional one is written as.
pub open spec fn instant_written(ts: Option<Timestamp>, ms: Option<i64>) -> bool {
    match (ts, ms) {
        (Some(t), Some(ms)) => ms == t.at() / (time::NANOS_PER_MILLI as int),
        (None, None) => true,
        _ => false,
    }
}

/// Whether two optional instants are the same to the millisecond.
pub open spec fn same_to_the_milli(a: Option<Timestamp>, b: Option<Timestamp>) -> bool {
    match (a, b) {
        (Some(x), Some(y)) => y.at() == to_the_milli(x.at()),
        (None, None) => true,
        _ => false,
    }
}

// ---------------------------------------------------------------------------
// Units and poll ids
// ---------------------------------------------------------------------------

/// A unit's column text.
pub open spec fn unit_text(unit: QuotaUnit) -> Seq<char> {
    match unit {
        QuotaUnit::Percent => "percent"@,
        QuotaUnit::Messages => "messages"@,
        QuotaUnit::Tokens => "tokens"@,
        QuotaUnit::Hours => "hours"@,
    }
}

/// A unit's column text.
pub fn unit_to_str(unit: QuotaUnit) -> (r: &'static str)
    ensures
        r@ == unit_text(unit),
{
    match unit {
        QuotaUnit::Percent => "percent",
        QuotaUnit::Messages => "messages",
        QuotaUnit::Tokens => "tokens",
        QuotaUnit::Hours => "hours",
    }
}

/// Whether a text is some unit's.
pub open spec fn is_unit(s: Seq<char>) -> bool {
    exists|unit: QuotaUnit| #[trigger] unit_text(unit) == s
}

/// The unit a column text stands for.
pub fn unit_from_str(s: &str) -> (r: Result<QuotaUnit, StorageError>)
    ensures
        match r {
            Ok(unit) => unit_text(unit) == s@,
            Err(StorageError::Corrupt(m)) => !is_unit(s@) && m@ == "unknown unit "@ + quoted_text(
                s@,
            ),
        },
{
    if text::same(s, "percent") {
        Ok(QuotaUnit::Percent)
    } else if text::same(s, "messages") {
        Ok(QuotaUnit::Messages)
    } else if text::same(s, "tokens") {
        Ok(QuotaUnit::Tokens)
    } else if text::same(s, "hours") {
        Ok(QuotaUnit::Hours)
    } else {
        Err(
            StorageError::Corrupt("unknown unit ".to_owned().concat(quoted(s).as_str())),
        )
    }
}

/// No two units share a column text, so what was stored reads back as what it
/// was.
pub proof fn unit_texts_are_distinct(a: QuotaUnit, b: QuotaUnit)
    requires
        unit_text(a) == unit_text(b),
    ensures
        a == b,
{
    reveal_strlit("percent");
    reveal_strlit("messages");
    reveal_strlit("tokens");
    reveal_strlit("hours");
    assert("percent"@[0] == 'p' && "messages"@[0] == 'm');
    assert("tokens"@[0] == 't' && "hours"@[0] == 'h');
}

/// The poll id a column text spells.
pub fn parse_poll_id(s: &str) -> (r: Result<PollId, StorageError>)
    ensures
        match r {
            Ok(id) => ids::poll_id_parsed(s@) == Some(id.0 as int),
            Err(e) => ids::poll_id_parsed(s@) is None && bad_poll_id(s@, e),
        },
{
    match PollId::parse(s) {
        Ok(id) => Ok(id),
        Err(fault) => Err(
            StorageError::Corrupt(
                "bad poll id ".to_owned().concat(quoted(s).as_str()).concat(": ").concat(
                    fault.as_str(),
                ),
            ),
        ),
    }
}

/// Whether an error is the one for a text that spells no poll id.
pub open spec fn bad_poll_id(s: Seq<char>, e: StorageError) -> bool {
    e matches StorageError::Corrupt(m) && m@ == "bad poll id "@ + quoted_text(s) + ": "@
        + ids::poll_id_fault(s)
}

// ---------------------------------------------------------------------------
// Snapshots
// ---------------------------------------------------------------------------

/// One `quota_snapshot` row joined with its poll's timestamp.
#[derive(Debug, PartialEq, Eq)]
pub struct SnapshotRow {
    /// Poll that produced the reading.
    pub poll_id: String,
    /// When the poll completed.
    pub ts: i64,
    /// Window measured.
    pub window_id: String,
    /// Display label at the time of the poll.
    pub label: String,
    /// Reporting unit.
    pub unit: String,
    /// Amount used.
    pub used: Amount,
    /// Limit, if the provider publishes one.
    pub limit: Option<Amount>,
    /// When the window resets, if known.
    pub reset_at: Option<i64>,
}

/// Whether a row is the one a window of a poll is written as.
pub open spec fn snapshot_written(
    poll: PollId,
    ts: Timestamp,
    window: QuotaWindow,
    row: SnapshotRow,
) -> bool {
    &&& row.poll_id@ == ids::poll_id_text(poll.0)
    &&& row.ts == ts.at() / (time::NANOS_PER_MILLI as int)
    &&& row.window_id@ == window.id@
    &&& row.label@ == window.label@
    &&& row.unit@ == unit_text(window.unit)
    &&& row.used == window.used
    &&& row.limit == window.limit
    &&& instant_written(window.reset_at, row.reset_at)
}

/// Whether a row can be read.
pub open spec fn snapshot_readable(row: SnapshotRow) -> bool {
    ids::poll_id_parsed(row.poll_id@) is Some && is_unit(row.unit@)
}

/// Whether a snapshot is what a row reads as.
pub open spec fn snapshot_read(row: SnapshotRow, s: QuotaSnapshot) -> bool {
    &&& ids::poll_id_parsed(row.poll_id@) == Some(s.poll_id.0 as int)
    &&& s.ts.at() == stored_at(row.ts)
    &&& s.window@ == row.window_id@
    &&& s.label@ == row.label@
    &&& unit_text(s.unit) == row.unit@
    &&& s.used == row.used
    &&& s.limit == row.limit
    &&& instant_read(row.reset_at, s.reset_at)
}

/// Whether an error is the one for a row that cannot be read.
pub open spec fn snapshot_fault(row: SnapshotRow, e: StorageError) -> bool {
    if ids::poll_id_parsed(row.poll_id@) is None {
        bad_poll_id(row.poll_id@, e)
    } else {
        !is_unit(row.unit@) && (e matches StorageError::Corrupt(m) && m@ == "unknown unit "@
            + quoted_text(row.unit@))
    }
}

/// How many rows at the front can be read.
pub open spec fn readable_snapshots(rows: Seq<SnapshotRow>) -> int
    decreases rows.len(),
{
    if rows.len() == 0 || !snapshot_readable(rows[0]) {
        0
    } else {
        1 + readable_snapshots(rows.drop_first())
    }
}

proof fn readable_snapshots_stop(rows: Seq<SnapshotRow>, n: int)
    requires
        0 <= n < rows.len(),
        forall|i: int| 0 <= i < n ==> snapshot_readable(#[trigger] rows[i]),
        !snapshot_readable(rows[n]),
    ensures
        readable_snapshots(rows) == n,
    decreases rows.len(),
{
    if n > 0 {
        let rest = rows.drop_first();
        assert forall|i: int| 0 <= i < n - 1 implies snapshot_readable(#[trigger] rest[i]) by {
            assert(rest[i] == rows[i + 1]);
        }
        assert(snapshot_readable(rows[0]));
        readable_snapshots_stop(rest, n - 1);
    }
}

/// The row a window of a poll is written as.
pub fn snapshot_to_row(poll: PollId, ts: Timestamp, window: &QuotaWindow) -> (r: SnapshotRow)
    ensures
        snapshot_written(poll, ts, *window, r),
{
    SnapshotRow {
        poll_id: poll.text(),
        ts: ts_to_millis(ts),
        window_id: window.id.0.clone(),
        label: window.label.clone(),
        unit: unit_to_str(window.unit).to_owned(),
        used: window.used,
        limit: window.limit,
        reset_at: opt_to_millis(window.reset_at),
    }
}

/// The snapshot a row reads as.
pub fn row_to_snapshot(row: SnapshotRow) -> (r: Result<QuotaSnapshot, StorageError>)
    ensures
        match r {
            Ok(s) => snapshot_readable(row) && snapshot_read(row, s),
            Err(e) => !snapshot_readable(row) && snapshot_fault(row, e),
        },
{
    let poll_id = match parse_poll_id(row.poll_id.as_str()) {
        Ok(id) => id,
        Err(e) => {
            return Err(e);
        },
    };
    let unit = match unit_from_str(row.unit.as_str()) {
        Ok(unit) => unit,
        Err(e) => {
            return Err(e);
        },
    };
    Ok(
        QuotaSnapshot {
            poll_id,
            ts: millis_to_ts(row.ts),
            window: WindowId(row.window_id),
            label: row.label,
            unit,
            used: row.used,
            limit: row.limit,
            reset_at: opt_to_ts(row.reset_at),
        },
    )
}

/// The snapshots rows read as, or what is wrong with the first bad one.
pub fn rows_to_snapshots(rows: Vec<SnapshotRow>) -> (r: Result<Vec<QuotaSnapshot>, StorageError>)
    ensures
        r matches Ok(v) ==> {
            &&& v@.len() == rows@.len()
            &&& forall|i: int|
                0 <= i < rows@.len() ==> snapshot_readable(#[trigger] rows@[i]) && snapshot_read(
                    rows@[i],
                    v@[i],
                )
        },
        r matches Err(e) ==> {
            &&& readable_snapshots(rows@) < rows@.len()
            &&& snapshot_fault(rows@[readable_snapshots(rows@)], e)
        },
{
    let ghost all = rows@;
    let mut left = rows;
    let mut queue: Vec<SnapshotRow> = Vec::new();
    while left.len() > 0
        invariant
            left@.len() <= all.len(),
            left@ == all.take(left@.len() as int),
            queue@.len() == all.len() - left@.len(),
            forall|k: int| 0 <= k < queue@.len() ==> #[trigger] queue@[k] == all[all.len() - 1 - k],
        decreases left@.len(),
    {
        let last = left.pop();
        if let Some(row) = last {
            queue.push(row);
        }
    }
    let mut out: Vec<QuotaSnapshot> = Vec::new();
    while queue.len() > 0
        invariant
            out@.len() + queue@.len() == all.len(),
            all == rows@,
            forall|k: int| 0 <= k < queue@.len() ==> #[trigger] queue@[k] == all[all.len() - 1 - k],
            forall|i: int|
                0 <= i < out@.len() ==> snapshot_readable(#[trigger] all[i]) && snapshot_read(
                    all[i],
                    out@[i],
                ),
        decreases queue@.len(),
    {
        let next = queue.pop();
        if let Some(row) = next {
            let ghost at = out@.len() as int;
            assert(row == all[at]);
            match row_to_snapshot(row) {
                Ok(s) => out.push(s),
                Err(e) => {
                    proof {
                        readable_snapshots_stop(rows@, at);
                    }
                    return Err(e);
                },
            }
        }
    }
    Ok(out)
}

/// Every reading written reads back: the poll, the window, its label and unit
/// and figures exactly, and its instants to the millisecond.
pub proof fn snapshots_round_trip(
    poll: PollId,
    ts: Timestamp,
    window: QuotaWindow,
    row: SnapshotRow,
    s: QuotaSnapshot,
)
    requires
        snapshot_written(poll, ts, window, row),
        snapshot_read(row, s),
        time::representable(ts.at()),
        window.reset_at matches Some(t) ==> time::representable(t.at()),
    ensures
        snapshot_readable(row),
        s.poll_id == poll,
        s.ts.at() == to_the_milli(ts.at()),
        s.window@ == window.id@,
        s.label@ == window.label@,
        s.unit == window.unit,
        s.used == window.used,
        s.limit == window.limit,
        same_to_the_milli(window.reset_at, s.reset_at),
{
    ids::poll_id_round_trips(poll.0);
    unit_texts_are_distinct(s.unit, window.unit);
    instants_round_trip(ts.at(), row.ts);
    if let Some(t) = window.reset_at {
        instants_round_trip(t.at(), (row.reset_at)->0);
    }
}

// ---------------------------------------------------------------------------
// Rollovers
// ---------------------------------------------------------------------------

/// One `window_rollover` row.
#[derive(Debug, PartialEq, Eq)]
pub struct RolloverRow {
    /// Poll that revealed the rollover.
    pub poll_id: String,
    /// Window that rolled over.
    pub window_id: String,
    /// When the poll completed.
    pub observed_at: i64,
    /// What kind of rollover.
    pub kind: String,
    /// `reset_at` before.
    pub prev_reset_at: Option<i64>,
    /// `reset_at` after.
    pub new_reset_at: Option<i64>,
    /// `used` before.
    pub prev_used: Amount,
    /// `used` after.
    pub new_used: Amount,
    /// When the poll before completed; `None` on rows written before the
    /// column existed.
    pub prev_observed_at: Option<i64>,
}

/// Whether a text is some kind's column.
pub open spec fn is_kind(s: Seq<char>) -> bool {
    exists|kind: RolloverKind| #[trigger] kind.column() == s
}

/// Whether a row is the one a rollover is written as.
pub open spec fn rollover_written(rollover: WindowRollover, row: RolloverRow) -> bool {
    &&& row.poll_id@ == ids::poll_id_text(rollover.poll.0)
    &&& row.window_id@ == rollover.window@
    &&& row.observed_at == rollover.observed_at.at() / (time::NANOS_PER_MILLI as int)
    &&& row.kind@ == rollover.kind.column()
    &&& instant_written(rollover.prev_reset_at, row.prev_reset_at)
    &&& instant_written(rollover.new_reset_at, row.new_reset_at)
    &&& row.prev_used == rollover.prev_used
    &&& row.new_used == rollover.new_used
    &&& instant_written(rollover.prev_observed_at, row.prev_observed_at)
}

/// Whether a row can be read.
pub open spec fn rollover_readable(row: RolloverRow) -> bool {
    ids::poll_id_parsed(row.poll_id@) is Some && is_kind(row.kind@)
}

/// Whether a rollover is what an account's row reads as.
pub open spec fn rollover_read(account: Seq<char>, row: RolloverRow, r: WindowRollover) -> bool {
    &&& r.account@ == account
    &&& r.window@ == row.window_id@
    &&& ids::poll_id_parsed(row.poll_id@) == Some(r.poll.0 as int)
    &&& r.observed_at.at() == stored_at(row.observed_at)
    &&& r.kind.column() == row.kind@
    &&& instant_read(row.prev_reset_at, r.prev_reset_at)
    &&& instant_read(row.new_reset_at, r.new_reset_at)
    &&& r.prev_used == row.prev_used
    &&& r.new_used == row.new_used
    &&& instant_read(row.prev_observed_at, r.prev_observed_at)
}

/// Whether an error is the one for a row that cannot be read.
pub open spec fn rollover_fault(row: RolloverRow, e: StorageError) -> bool {
    if ids::poll_id_parsed(row.poll_id@) is None {
        bad_poll_id(row.poll_id@, e)
    } else {
        !is_kind(row.kind@) && (e matches StorageError::Corrupt(m) && m@
            == "unknown rollover kind "@ + quoted_text(row.kind@))
    }
}

/// How many rows at the front can be read.
pub open spec fn readable_rollovers(rows: Seq<RolloverRow>) -> int
    decreases rows.len(),
{
    if rows.len() == 0 || !rollover_readable(rows[0]) {
        0
    } else {
        1 + readable_rollovers(rows.drop_first())
    }
}

proof fn readable_rollovers_stop(rows: Seq<RolloverRow>, n: int)
    requires
        0 <= n < rows.len(),
        forall|i: int| 0 <= i < n ==> rollover_readable(#[trigger] rows[i]),
        !rollover_readable(rows[n]),
    ensures
        readable_rollovers(rows) == n,
    decreases rows.len(),
{
    if n > 0 {
        let rest = rows.drop_first();
        assert forall|i: int| 0 <= i < n - 1 implies rollover_readable(#[trigger] rest[i]) by {
            assert(rest[i] == rows[i + 1]);
        }
        assert(rollover_readable(rows[0]));
        readable_rollovers_stop(rest, n - 1);
    }
}

/// The row a rollover is written as.
pub fn rollover_to_row(rollover: &WindowRollover) -> (r: RolloverRow)
    ensures
        rollover_written(*rollover, r),
{
    RolloverRow {
        poll_id: rollover.poll.text(),
        window_id: rollover.window.0.clone(),
        observed_at: ts_to_millis(rollover.observed_at),
        kind: rollover.kind.as_str().to_owned(),
        prev_reset_at: opt_to_millis(rollover.prev_reset_at),
        new_reset_at: opt_to_millis(rollover.new_reset_at),
        prev_used: rollover.prev_used,
        new_used: rollover.new_used,
        prev_observed_at: opt_to_millis(rollover.prev_observed_at),
    }
}

/// The rollover an account's row reads as.
pub fn row_to_rollover(account: &AccountId, row: RolloverRow) -> (r: Result<
    WindowRollover,
    StorageError,
>)
    ensures
        match r {
            Ok(w) => rollover_readable(row) && rollover_read(account@, row, w),
            Err(e) => !rollover_readable(row) && rollover_fault(row, e),
        },
{
    let poll = match parse_poll_id(row.poll_id.as_str()) {
        Ok(id) => id,
        Err(e) => {
            return Err(e);
        },
    };
    let kind = match RolloverKind::from_column(row.kind.as_str()) {
        Some(kind) => kind,
        None => {
            return Err(
                StorageError::Corrupt(
                    "unknown rollover kind ".to_owned().concat(quoted(row.kind.as_str()).as_str()),
                ),
            );
        },
    };
    Ok(
        WindowRollover {
            account: account.clone(),
            window: WindowId(row.window_id),
            poll,
            observed_at: millis_to_ts(row.observed_at),
            kind,
            prev_reset_at: opt_to_ts(row.prev_reset_at),
            new_reset_at: opt_to_ts(row.new_reset_at),
            prev_used: row.prev_used,
            new_used: row.new_used,
            prev_observed_at: opt_to_ts(row.prev_observed_at),
        },
    )
}

/// The rollovers an account's rows read as, or what is wrong with the first
/// bad one.
pub fn rollovers(account: &AccountId, rows: Vec<RolloverRow>) -> (r: Result<
    Vec<WindowRollover>,
    StorageError,
>)
    ensures
        r matches Ok(v) ==> {
            &&& v@.len() == rows@.len()
            &&& forall|i: int|
                0 <= i < rows@.len() ==> rollover_readable(#[trigger] rows@[i]) && rollover_read(
                    account@,
                    rows@[i],
                    v@[i],
                )
        },
        r matches Err(e) ==> {
            &&& readable_rollovers(rows@) < rows@.len()
            &&& rollover_fault(rows@[readable_rollovers(rows@)], e)
        },
{
    let ghost all = rows@;
    let mut left = rows;
    let mut queue: Vec<RolloverRow> = Vec::new();
    while left.len() > 0
        invariant
            left@.len() <= all.len(),
            left@ == all.take(left@.len() as int),
            queue@.len() == all.len() - left@.len(),
            forall|k: int| 0 <= k < queue@.len() ==> #[trigger] queue@[k] == all[all.len() - 1 - k],
        decreases left@.len(),
    {
        let last = left.pop();
        if let Some(row) = last {
            queue.push(row);
        }
    }
    let mut out: Vec<WindowRollover> = Vec::new();
    while queue.len() > 0
        invariant
            out@.len() + queue@.len() == all.len(),
            all == rows@,
            forall|k: int| 0 <= k < queue@.len() ==> #[trigger] queue@[k] == all[all.len() - 1 - k],
            forall|i: int|
                0 <= i < out@.len() ==> rollover_readable(#[trigger] all[i]) && rollover_read(
                    account@,
                    all[i],
                    out@[i],
                ),
        decreases queue@.len(),
    {
        let next = queue.pop();
        if let Some(row) = next {
            let ghost at = out@.len() as int;
            assert(row == all[at]);
            match row_to_rollover(account, row) {
                Ok(w) => out.push(w),
                Err(e) => {
                    proof {
                        readable_rollovers_stop(rows@, at);
                    }
                    return Err(e);
                },
            }
        }
    }
    Ok(out)
}

/// Every rollover written reads back: kind, poll, window and figures exactly,
/// and its instants to the millisecond.
pub proof fn rollovers_round_trip(
    rollover: WindowRollover,
    row: RolloverRow,
    back: WindowRollover,
)
    requires
        rollover_written(rollover, row),
        rollover_read(rollover.account@, row, back),
        time::representable(rollover.observed_at.at()),
        rollover.prev_reset_at matches Some(t) ==> time::representable(t.at()),
        rollover.new_reset_at matches Some(t) ==> time::representable(t.at()),
        rollover.prev_observed_at matches Some(t) ==> time::representable(t.at()),
    ensures
        rollover_readable(row),
        back.account@ == rollover.account@,
        back.window@ == rollover.window@,
        back.poll == rollover.poll,
        back.observed_at.at() == to_the_milli(rollover.observed_at.at()),
        back.kind == rollover.kind,
        same_to_the_milli(rollover.prev_reset_at, back.prev_reset_at),
        same_to_the_milli(rollover.new_reset_at, back.new_reset_at),
        back.prev_used == rollover.prev_used,
        back.new_used == rollover.new_used,
        same_to_the_milli(rollover.prev_observed_at, back.prev_observed_at),
{
    ids::poll_id_round_trips(rollover.poll.0);
    rollover::kind_columns_are_distinct(back.kind, rollover.kind);
    instants_round_trip(rollover.observed_at.at(), row.observed_at);
    if let Some(t) = rollover.prev_reset_at {
        instants_round_trip(t.at(), (row.prev_reset_at)->0);
    }
    if let Some(t) = rollover.new_reset_at {
        instants_round_trip(t.at(), (row.new_reset_at)->0);
    }
    if let Some(t) = rollover.prev_observed_at {
        instants_round_trip(t.at(), (row.prev_observed_at)->0);
    }
}

// ---------------------------------------------------------------------------
// Polls
// ---------------------------------------------------------------------------

/// One `poll_event` row, without the trigger and outcome, which are stored in
/// an encoding of their own.
#[derive(Debug, PartialEq, Eq)]
pub struct EventRow {
    /// The poll.
    pub id: String,
    /// When it completed.
    pub ts: i64,
    /// Provider polled.
    pub provider: String,
    /// Account polled.
    pub account_id: String,
    /// Probe latency in milliseconds.
    pub latency_ms: u32,
    /// Error message, if the poll failed.
    pub error: Option<String>,
}

/// Whether a row is the one a poll is written as.
pub open spec fn event_written(event: PollEvent, row: EventRow) -> bool {
    &&& row.id@ == ids::poll_id_text(event.id.0)
    &&& row.ts == event.ts.at() / (time::NANOS_PER_MILLI as int)
    &&& row.provider@ == event.provider@
    &&& row.account_id@ == event.account@
    &&& row.latency_ms == event.latency_ms
    &&& match (row.error, event.outcome.message()) {
        (Some(e), Some(m)) => e@ == m,
        (None, None) => true,
        _ => false,
    }
}

/// The row a poll is written as.
pub fn event_to_row(event: &PollEvent) -> (r: EventRow)
    ensures
        event_written(*event, r),
{
    EventRow {
        id: event.id.text(),
        ts: ts_to_millis(event.ts),
        provider: event.provider.clone(),
        account_id: event.account.0.clone(),
        latency_ms: event.latency_ms,
        error: match event.outcome.error_message() {
            Some(m) => Some(m.to_owned()),
            None => None,
        },
    }
}

/// The poll a row reads as, with its decoded trigger and outcome.
pub fn row_to_event(row: EventRow, trigger: PollTrigger, outcome: PollOutcome) -> (r: Result<
    PollEvent,
    StorageError,
>)
    ensures
        match r {
            Ok(event) => {
                &&& ids::poll_id_parsed(row.id@) == Some(event.id.0 as int)
                &&& event.ts.at() == stored_at(row.ts)
                &&& event.provider@ == row.provider@
                &&& event.account@ == row.account_id@
                &&& event.trigger == trigger
                &&& event.outcome == outcome
                &&& event.latency_ms == row.latency_ms
            },
            Err(e) => ids::poll_id_parsed(row.id@) is None && bad_poll_id(row.id@, e),
        },
{
    let id = match parse_poll_id(row.id.as_str()) {
        Ok(id) => id,
        Err(e) => {
            return Err(e);
        },
    };
    Ok(
        PollEvent {
            id,
            ts: millis_to_ts(row.ts),
            provider: row.provider,
            account: AccountId(row.account_id),
            trigger,
            outcome,
            latency_ms: row.latency_ms,
        },
    )
}

/// A stored poll reads back as it was written, its instant to the millisecond.
pub proof fn polls_round_trip(event: PollEvent, row: EventRow)
    requires
        event_written(event, row),
        time::representable(event.ts.at()),
    ensures
        ids::poll_id_parsed(row.id@) == Some(event.id.0 as int),
        stored_at(row.ts) == to_the_milli(event.ts.at()),
        row.provider@ == event.provider@,
        row.account_id@ == event.account@,
        row.latency_ms == event.latency_ms,
{
    ids::poll_id_round_trips(event.id.0);
    instants_round_trip(event.ts.at(), row.ts);
}

/// An instant is stored as the whole milliseconds since the epoch, rounded down,
/// and none as none.
pub proof fn instants_are_stored_in_milliseconds(ts: Timestamp, ms: i64)
    ensures
        instant_written(Some(ts), Some(ms)) <==> ms * 1_000_000 <= ts.at() < (ms + 1) * 1_000_000,
        !instant_written(Some(ts), None) && !instant_written(None, Some(ms)),
        instant_written(None, None) && instant_read(None, None),
        !instant_read(Some(ms), None) && !instant_read(None, Some(ts)),
        instant_read(Some(ms), Some(ts)) <==> ts.at() == if time::FIRST <= ms * 1_000_000
            <= time::LAST {
            ms * 1_000_000
        } else {
            0
        },
        to_the_milli(ts.at()) % 1_000_000 == 0,
        0 <= ts.at() - to_the_milli(ts.at()) < 1_000_000,
{
}

/// Units are stored by name, and no other text is a unit.
pub proof fn units_are_stored_by_name(s: Seq<char>)
    ensures
        unit_text(QuotaUnit::Percent) == "percent"@,
        unit_text(QuotaUnit::Messages) == "messages"@,
        unit_text(QuotaUnit::Tokens) == "tokens"@,
        unit_text(QuotaUnit::Hours) == "hours"@,
        is_unit(s) <==> s == "percent"@ || s == "messages"@ || s == "tokens"@ || s == "hours"@,
{
    assert(unit_text(QuotaUnit::Percent) == "percent"@);
    assert(unit_text(QuotaUnit::Messages) == "messages"@);
    assert(unit_text(QuotaUnit::Tokens) == "tokens"@);
    assert(unit_text(QuotaUnit::Hours) == "hours"@);
}

/// Each column of a stored reading holds what it is named for.
pub proof fn each_column_holds_its_own(
    poll: PollId,
    ts: Timestamp,
    window: QuotaWindow,
    row: SnapshotRow,
)
    requires
        snapshot_written(poll, ts, window, row),
    ensures
        row.poll_id@ == ids::poll_id_text(poll.0),
        row.ts * 1_000_000 <= ts.at() < (row.ts + 1) * 1_000_000,
        row.window_id@ == window.id@,
        row.label@ == window.label@,
        row.used == window.used,
        row.limit == window.limit,
{
}

/// Each column of a stored rollover holds what it is named for.
pub proof fn each_rollover_column_holds_its_own(rollover: WindowRollover, row: RolloverRow)
    requires
        rollover_written(rollover, row),
    ensures
        row.poll_id@ == ids::poll_id_text(rollover.poll.0),
        row.window_id@ == rollover.window@,
        row.observed_at * 1_000_000 <= rollover.observed_at.at() < (row.observed_at + 1)
            * 1_000_000,
        row.prev_used == rollover.prev_used,
        row.new_used == rollover.new_used,
        instant_written(rollover.prev_reset_at, row.prev_reset_at),
        instant_written(rollover.new_reset_at, row.new_reset_at),
        instant_written(rollover.prev_observed_at, row.prev_observed_at),
{
}

/// Rows are read up to the first that cannot be, which is one whose poll
/// identifier or unit is not one.
pub proof fn rows_are_read_up_to_the_first_bad_one(rows: Seq<SnapshotRow>)
    ensures
        0 <= readable_snapshots(rows) <= rows.len(),
        forall|i: int|
            0 <= i < readable_snapshots(rows) ==> ids::poll_id_parsed(
                (#[trigger] rows[i]).poll_id@,
            ) is Some && is_unit(rows[i].unit@),
        readable_snapshots(rows) < rows.len() ==> {
            let bad = rows[readable_snapshots(rows)];
            ids::poll_id_parsed(bad.poll_id@) is None || !is_unit(bad.unit@)
        },
    decreases rows.len(),
{
    if rows.len() > 0 && snapshot_readable(rows[0]) {
        let rest = rows.drop_first();
        rows_are_read_up_to_the_first_bad_one(rest);
        assert forall|i: int| 0 <= i < readable_snapshots(rows) implies ids::poll_id_parsed(
            (#[trigger] rows[i]).poll_id@,
        ) is Some && is_unit(rows[i].unit@) by {
            if i > 0 {
                assert(rows[i] == rest[i - 1]);
            }
        }
        if readable_snapshots(rows) < rows.len() {
            assert(rows[readable_snapshots(rows)] == rest[readable_snapshots(rest)]);
        }
    }
}

/// Rollovers are read up to the first that cannot be, which is one whose poll
/// identifier or kind is not one.
pub proof fn rollovers_are_read_up_to_the_first_bad_one(rows: Seq<RolloverRow>)
    ensures
        0 <= readable_rollovers(rows) <= rows.len(),
        forall|i: int|
            0 <= i < readable_rollovers(rows) ==> ids::poll_id_parsed(
                (#[trigger] rows[i]).poll_id@,
            ) is Some && is_kind(rows[i].kind@),
        readable_rollovers(rows) < rows.len() ==> {
            let bad = rows[readable_rollovers(rows)];
            ids::poll_id_parsed(bad.poll_id@) is None || !is_kind(bad.kind@)
        },
    decreases rows.len(),
{
    if rows.len() > 0 && rollover_readable(rows[0]) {
        let rest = rows.drop_first();
        rollovers_are_read_up_to_the_first_bad_one(rest);
        assert forall|i: int| 0 <= i < readable_rollovers(rows) implies ids::poll_id_parsed(
            (#[trigger] rows[i]).poll_id@,
        ) is Some && is_kind(rows[i].kind@) by {
            if i > 0 {
                assert(rows[i] == rest[i - 1]);
            }
        }
        if readable_rollovers(rows) < rows.len() {
            assert(rows[readable_rollovers(rows)] == rest[readable_rollovers(rest)]);
        }
    }
}

/// What is said of a row that cannot be read.
pub proof fn a_bad_row_says_why(row: SnapshotRow, other: RolloverRow, e: StorageError)
    ensures
        ids::poll_id_parsed(row.poll_id@) is None && snapshot_fault(row, e) ==> (
        e matches StorageError::Corrupt(m) && m@ == "bad poll id "@ + quoted_text(row.poll_id@)
            + ": "@ + ids::poll_id_fault(row.poll_id@)),
        ids::poll_id_parsed(row.poll_id@) is Some && snapshot_fault(row, e) ==> (
        e matches StorageError::Corrupt(m) && m@ == "unknown unit "@ + quoted_text(row.unit@)),
        ids::poll_id_parsed(other.poll_id@) is None && rollover_fault(other, e) ==> (
        e matches StorageError::Corrupt(m) && m@ == "bad poll id "@ + quoted_text(other.poll_id@)
            + ": "@ + ids::poll_id_fault(other.poll_id@)),
        ids::poll_id_parsed(other.poll_id@) is Some && rollover_fault(other, e) ==> (
        e matches StorageError::Corrupt(m) && m@ == "unknown rollover kind "@ + quoted_text(
            other.kind@,
        )),
{
}

/// Each column of a stored poll holds what it is named for; the error is there
/// exactly when the poll failed.
pub proof fn each_poll_column_holds_its_own(event: PollEvent, row: EventRow)
    requires
        event_written(event, row),
    ensures
        row.id@ == ids::poll_id_text(event.id.0),
        row.ts * 1_000_000 <= event.ts.at() < (row.ts + 1) * 1_000_000,
        row.provider@ == event.provider@,
        row.account_id@ == event.account@,
        row.latency_ms == event.latency_ms,
        row.error is Some <==> event.outcome.message() is Some,
        row.error is Some ==> (row.error->0)@ == event.outcome.message()->0,
{
}

} // verus!
