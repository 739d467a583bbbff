//! What is asked of the database, and what one poll writes to it.

use vstd::prelude::*;

use crate::domain::{PollEvent, QuotaWindow};
use crate::ids::{AccountId, WindowId};
use crate::rollover::WindowRollover;
use crate::storage::rows;
use crate::storage::rows::{EventRow, RolloverRow, SnapshotRow};
use crate::text;
use crate::time;
use crate::time::Timestamp;

verus! {

/// The tables, made where they are missing. Rollovers are keyed like snapshots,
/// and written in the same transaction as the poll that revealed them, so a
/// boundary can never outlive its evidence. Every history query filters on the
/// account alone, which is what the second index serves.
pub const SCHEMA: &'static str = "
CREATE TABLE IF NOT EXISTS account (
    id TEXT PRIMARY KEY, provider TEXT NOT NULL, label TEXT NOT NULL
);
CREATE TABLE IF NOT EXISTS poll_event (
    id TEXT PRIMARY KEY,
    ts INTEGER NOT NULL, provider TEXT NOT NULL,
    account_id TEXT NOT NULL REFERENCES account(id),
    trigger TEXT NOT NULL,
    outcome TEXT NOT NULL, latency_ms INTEGER, error TEXT
);
CREATE TABLE IF NOT EXISTS quota_snapshot (
    poll_id TEXT NOT NULL REFERENCES poll_event(id),
    window_id TEXT NOT NULL, label TEXT NOT NULL, unit TEXT NOT NULL,
    used REAL NOT NULL, limit_val REAL, reset_at INTEGER,
    PRIMARY KEY (poll_id, window_id)
);
CREATE TABLE IF NOT EXISTS window_rollover (
    poll_id TEXT NOT NULL REFERENCES poll_event(id),
    window_id TEXT NOT NULL,
    account_id TEXT NOT NULL REFERENCES account(id),
    observed_at INTEGER NOT NULL,
    prev_observed_at INTEGER,
    kind TEXT NOT NULL,
    prev_reset_at INTEGER, new_reset_at INTEGER,
    prev_used REAL NOT NULL, new_used REAL NOT NULL,
    PRIMARY KEY (poll_id, window_id)
);
CREATE INDEX IF NOT EXISTS idx_poll_lookup ON poll_event(provider, account_id, ts);
CREATE INDEX IF NOT EXISTS idx_poll_account_ts ON poll_event(account_id, ts);
CREATE INDEX IF NOT EXISTS idx_rollover_lookup
    ON window_rollover(account_id, window_id, observed_at);
";

/// Insert or update an account. `?1` is its id, `?2` its provider and `?3` its
/// label.
pub const UPSERT_ACCOUNT: &'static str = "INSERT INTO account (id, provider, label) VALUES (?1, ?2, ?3) ON CONFLICT(id) DO UPDATE SET provider = ?2, label = ?3";

/// All known accounts.
pub const ACCOUNTS: &'static str = "SELECT id, provider, label FROM account ORDER BY provider, id";

/// Write a poll.
pub const INSERT_POLL: &'static str = "INSERT INTO poll_event (id, ts, provider, account_id, trigger, outcome, latency_ms, error) VALUES (?1, ?2, ?3, ?4, ?5, ?6, ?7, ?8)";

/// Write a reading of a poll.
pub const INSERT_SNAPSHOT: &'static str = "INSERT INTO quota_snapshot (poll_id, window_id, label, unit, used, limit_val, reset_at) VALUES (?1, ?2, ?3, ?4, ?5, ?6, ?7)";

/// Write a rollover a poll revealed.
pub const INSERT_ROLLOVER: &'static str = "INSERT INTO window_rollover (poll_id, window_id, account_id, observed_at, prev_observed_at, kind, prev_reset_at, new_reset_at, prev_used, new_used) VALUES (?1, ?2, ?3, ?4, ?5, ?6, ?7, ?8, ?9, ?10)";

/// The snapshots of an account over an interval. `?1` is the account, `?2` and
/// `?3` the ends of the interval.
pub const HISTORY: &'static str = "SELECT s.poll_id, e.ts, s.window_id, s.label, s.unit, s.used, s.limit_val, s.reset_at FROM quota_snapshot s JOIN poll_event e ON e.id = s.poll_id WHERE e.account_id = ?1 AND e.ts >= ?2 AND e.ts <= ?3";

/// The rollovers of an account over an interval. `?1` is the account, `?2` and
/// `?3` the ends of the interval.
pub const ROLLOVERS: &'static str = "SELECT poll_id, window_id, observed_at, prev_observed_at, kind, prev_reset_at, new_reset_at, prev_used, new_used FROM window_rollover WHERE account_id = ?1 AND observed_at >= ?2 AND observed_at <= ?3";

/// When an account's oldest snapshot was taken. `?1` is the account.
pub const EARLIEST: &'static str = "SELECT MIN(e.ts) FROM quota_snapshot s JOIN poll_event e ON e.id = s.poll_id WHERE e.account_id = ?1";

/// The most recent polls, newest first. `?1` is how many.
pub const RECENT_POLLS: &'static str = "SELECT id, ts, provider, account_id, trigger, outcome, latency_ms FROM poll_event ORDER BY id DESC LIMIT ?1";

/// The most recent poll of an account. `?1` is the account.
pub const LATEST_POLL: &'static str = "SELECT id, ts, provider, account_id, trigger, outcome, latency_ms FROM poll_event WHERE account_id = ?1 ORDER BY id DESC LIMIT 1";

/// A query over one account's rows, oldest first: the statement, and what it
/// is asked with.
#[derive(Debug, PartialEq, Eq)]
pub struct Query {
    /// The statement.
    pub sql: String,
    /// The account asked about.
    pub account: String,
    /// The first millisecond asked about.
    pub from: i64,
    /// The last millisecond asked about.
    pub to: i64,
    /// The window asked about; all of them without one.
    pub window: Option<String>,
}

/// Whether a query asks for an account's rows over an interval: with `only`
/// appended for one window, and `last` in any case.
pub open spec fn asks(
    query: Query,
    sql: Seq<char>,
    only: Seq<char>,
    last: Seq<char>,
    account: Seq<char>,
    window: Option<Seq<char>>,
    since: Timestamp,
    until: Timestamp,
) -> bool {
    &&& query.sql@ == match window {
        Some(_) => sql + only + last,
        None => sql + last,
    }
    &&& query.account@ == account
    &&& query.from == since.at() / (time::NANOS_PER_MILLI as int)
    &&& query.to == until.at() / (time::NANOS_PER_MILLI as int)
    &&& match (query.window, window) {
        (Some(q), Some(w)) => q@ == w,
        (None, None) => true,
        _ => false,
    }
}

fn ask(
    sql: &str,
    only: &str,
    last: &str,
    account: &AccountId,
    window: Option<&WindowId>,
    since: Timestamp,
    until: Timestamp,
) -> (r: Query)
    ensures
        asks(
            r,
            sql@,
            only@,
            last@,
            account@,
            match window {
                Some(w) => Some(w@),
                None => None,
            },
            since,
            until,
        ),
{
    let (sql, window) = match window {
        Some(w) => (sql.to_owned().concat(only).concat(last), Some(w.0.clone())),
        None => (sql.to_owned().concat(last), None),
    };
    Query {
        sql,
        account: account.0.clone(),
        from: rows::ts_to_millis(since),
        to: rows::ts_to_millis(until),
        window,
    }
}

/// The query for the snapshots of one account (optionally one window) within
/// `since..=until`, oldest first.
pub fn history_query(
    account: &AccountId,
    window: Option<&WindowId>,
    since: Timestamp,
    until: Timestamp,
) -> (r: Query)
    ensures
        asks(
            r,
            HISTORY@,
            " AND s.window_id = ?4"@,
            " ORDER BY e.ts ASC"@,
            account@,
            match window {
                Some(w) => Some(w@),
                None => None,
            },
            since,
            until,
        ),
{
    ask(
        HISTORY,
        " AND s.window_id = ?4",
        " ORDER BY e.ts ASC",
        account,
        window,
        since,
        until,
    )
}

/// The query for the rollovers observed for one account (optionally one
/// window) within `since..=until`, oldest first.
pub fn rollovers_query(
    account: &AccountId,
    window: Option<&WindowId>,
    since: Timestamp,
    until: Timestamp,
) -> (r: Query)
    ensures
        asks(
            r,
            ROLLOVERS@,
            " AND window_id = ?4"@,
            " ORDER BY observed_at ASC"@,
            account@,
            match window {
                Some(w) => Some(w@),
                None => None,
            },
            since,
            until,
        ),
{
    ask(
        ROLLOVERS,
        " AND window_id = ?4",
        " ORDER BY observed_at ASC",
        account,
        window,
        since,
        until,
    )
}

/// The statement that finds when the oldest snapshot of an account, or of one
/// of its windows (`?2`), was taken.
pub fn earliest_sql(windowed: bool) -> (r: String)
    ensures
        r@ == if windowed {
            EARLIEST@ + " AND s.window_id = ?2"@
        } else {
            EARLIEST@
        },
{
    if windowed {
        EARLIEST.to_owned().concat(" AND s.window_id = ?2")
    } else {
        EARLIEST.to_owned()
    }
}

/// What one poll writes, all of it or none.
#[derive(Debug, PartialEq, Eq)]
pub struct Batch {
    /// The poll.
    pub event: EventRow,
    /// The readings it took.
    pub snapshots: Vec<SnapshotRow>,
    /// The rollovers it revealed.
    pub rollovers: Vec<RolloverRow>,
    /// Whose window each of those is.
    pub owners: Vec<String>,
}

/// What is written for one poll event, its snapshot batch, and any rollovers
/// the poll revealed, atomically. All three are keyed to the event so trigger,
/// timestamp, and latency are never separated from the data they produced —
/// and so a recorded boundary always has the reading that justifies it.
pub fn record_poll(
    event: &PollEvent,
    windows: &[QuotaWindow],
    rollovers: &[WindowRollover],
) -> (r: Batch)
    ensures
        rows::event_written(*event, r.event),
        r.snapshots@.len() == windows@.len(),
        forall|i: int|
            0 <= i < windows@.len() ==> rows::snapshot_written(
                event.id,
                event.ts,
                windows@[i],
                #[trigger] r.snapshots@[i],
            ),
        r.rollovers@.len() == rollovers@.len(),
        forall|i: int|
            0 <= i < rollovers@.len() ==> rows::rollover_written(
                rollovers@[i],
                #[trigger] r.rollovers@[i],
            ),
        r.owners@.len() == rollovers@.len(),
        forall|i: int|
            0 <= i < rollovers@.len() ==> (#[trigger] r.owners@[i])@ == rollovers@[i].account@,
{
    let mut snapshots: Vec<SnapshotRow> = Vec::new();
    let mut i: usize = 0;
    while i < windows.len()
        invariant
            i <= windows@.len(),
            snapshots@.len() == i,
            forall|k: int|
                0 <= k < i ==> rows::snapshot_written(
                    event.id,
                    event.ts,
                    windows@[k],
                    #[trigger] snapshots@[k],
                ),
        decreases windows@.len() - i,
    {
        snapshots.push(rows::snapshot_to_row(event.id, event.ts, &windows[i]));
        i += 1;
    }
    let mut written: Vec<RolloverRow> = Vec::new();
    let mut owners: Vec<String> = Vec::new();
    let mut k: usize = 0;
    while k < rollovers.len()
        invariant
            k <= rollovers@.len(),
            written@.len() == k,
            owners@.len() == k,
            forall|j: int|
                0 <= j < k ==> (#[trigger] owners@[j])@ == rollovers@[j].account@,
            forall|j: int|
                0 <= j < k ==> rows::rollover_written(rollovers@[j], #[trigger] written@[j]),
        decreases rollovers@.len() - k,
    {
        written.push(rows::rollover_to_row(&rollovers[k]));
        owners.push(rollovers[k].account.0.clone());
        k += 1;
    }
    Batch { event: rows::event_to_row(event), snapshots, rollovers: written, owners }
}

/// A query asks about the account it is given, from the millisecond that holds
/// the first instant to the one that holds the last, and about one window if it
/// is given one and about all of them otherwise.
pub proof fn a_query_asks_what_it_is_given(
    query: Query,
    sql: Seq<char>,
    only: Seq<char>,
    last: Seq<char>,
    account: Seq<char>,
    window: Option<Seq<char>>,
    since: Timestamp,
    until: Timestamp,
)
    requires
        asks(query, sql, only, last, account, window, since, until),
    ensures
        query.account@ == account,
        query.from * 1_000_000 <= since.at() < (query.from + 1) * 1_000_000,
        query.to * 1_000_000 <= until.at() < (query.to + 1) * 1_000_000,
        window matches Some(w) ==> query.window is Some && (query.window->0)@ == w && query.sql@
            == sql + only + last,
        window is None ==> query.window is None && query.sql@ == sql + last,
{
}

/// The history of an account is asked for by its id, both ends of the interval
/// included; and polls are asked for newest first.
pub proof fn both_ends_of_an_interval_are_asked_for()
    ensures
        text::occurs_at(
            HISTORY@,
            " WHERE e.account_id = ?1 AND e.ts >= ?2 AND e.ts <= ?3"@,
            HISTORY@.len() - " WHERE e.account_id = ?1 AND e.ts >= ?2 AND e.ts <= ?3"@.len(),
        ),
        text::occurs_at(
            ROLLOVERS@,
            " WHERE account_id = ?1 AND observed_at >= ?2 AND observed_at <= ?3"@,
            ROLLOVERS@.len()
                - " WHERE account_id = ?1 AND observed_at >= ?2 AND observed_at <= ?3"@.len(),
        ),
        text::occurs_at(
            RECENT_POLLS@,
            " ORDER BY id DESC LIMIT ?1"@,
            RECENT_POLLS@.len() - " ORDER BY id DESC LIMIT ?1"@.len(),
        ),
        text::occurs_at(
            LATEST_POLL@,
            " WHERE account_id = ?1 ORDER BY id DESC LIMIT 1"@,
            LATEST_POLL@.len() - " WHERE account_id = ?1 ORDER BY id DESC LIMIT 1"@.len(),
        ),
        text::occurs_at(EARLIEST@, "SELECT MIN(e.ts) FROM quota_snapshot s"@, 0),
{
    reveal_strlit(" WHERE e.account_id = ?1 AND e.ts >= ?2 AND e.ts <= ?3");
    reveal_strlit(" WHERE account_id = ?1 AND observed_at >= ?2 AND observed_at <= ?3");
    reveal_strlit(" ORDER BY id DESC LIMIT ?1");
    reveal_strlit(" WHERE account_id = ?1 ORDER BY id DESC LIMIT 1");
    reveal_strlit("SELECT MIN(e.ts) FROM quota_snapshot s");
    reveal_strlit("SELECT s.poll_id, e.ts, s.window_id, s.label, s.unit, s.used, s.limit_val, s.reset_at FROM quota_snapshot s JOIN poll_event e ON e.id = s.poll_id WHERE e.account_id = ?1 AND e.ts >= ?2 AND e.ts <= ?3");
    assert(HISTORY@.subrange(HISTORY@.len() - " WHERE e.account_id = ?1 AND e.ts >= ?2 AND e.ts <= ?3"@.len(), HISTORY@.len() - " WHERE e.account_id = ?1 AND e.ts >= ?2 AND e.ts <= ?3"@.len() + " WHERE e.account_id = ?1 AND e.ts >= ?2 AND e.ts <= ?3"@.len()) =~= " WHERE e.account_id = ?1 AND e.ts >= ?2 AND e.ts <= ?3"@);
    reveal_strlit("SELECT poll_id, window_id, observed_at, prev_observed_at, kind, prev_reset_at, new_reset_at, prev_used, new_used FROM window_rollover WHERE account_id = ?1 AND observed_at >= ?2 AND observed_at <= ?3");
    assert(ROLLOVERS@.subrange(ROLLOVERS@.len() - " WHERE account_id = ?1 AND observed_at >= ?2 AND observed_at <= ?3"@.len(), ROLLOVERS@.len() - " WHERE account_id = ?1 AND observed_at >= ?2 AND observed_at <= ?3"@.len() + " WHERE account_id = ?1 AND observed_at >= ?2 AND observed_at <= ?3"@.len()) =~= " WHERE account_id = ?1 AND observed_at >= ?2 AND observed_at <= ?3"@);
    reveal_strlit("SELECT id, ts, provider, account_id, trigger, outcome, latency_ms FROM poll_event ORDER BY id DESC LIMIT ?1");
    assert(RECENT_POLLS@.subrange(RECENT_POLLS@.len() - " ORDER BY id DESC LIMIT ?1"@.len(), RECENT_POLLS@.len() - " ORDER BY id DESC LIMIT ?1"@.len() + " ORDER BY id DESC LIMIT ?1"@.len()) =~= " ORDER BY id DESC LIMIT ?1"@);
    reveal_strlit("SELECT id, ts, provider, account_id, trigger, outcome, latency_ms FROM poll_event WHERE account_id = ?1 ORDER BY id DESC LIMIT 1");
    assert(LATEST_POLL@.subrange(LATEST_POLL@.len() - " WHERE account_id = ?1 ORDER BY id DESC LIMIT 1"@.len(), LATEST_POLL@.len() - " WHERE account_id = ?1 ORDER BY id DESC LIMIT 1"@.len() + " WHERE account_id = ?1 ORDER BY id DESC LIMIT 1"@.len()) =~= " WHERE account_id = ?1 ORDER BY id DESC LIMIT 1"@);
    reveal_strlit("SELECT MIN(e.ts) FROM quota_snapshot s JOIN poll_event e ON e.id = s.poll_id WHERE e.account_id = ?1");
    assert(EARLIEST@.subrange(0, 0 + "SELECT MIN(e.ts) FROM quota_snapshot s"@.len() as int) =~= "SELECT MIN(e.ts) FROM quota_snapshot s"@);
}

} // verus!
