//! What is written to the database, and what is made of it when it is read —
//! through a real one.

use rusqlite::Connection;

use teiryo::amount::Amount;
use teiryo::domain::{
    Account, ClientKind, PollEvent, PollOutcome, PollTrigger, QuotaSnapshot, QuotaUnit,
    QuotaWindow, ResetKind, WindowScope,
};
use teiryo::ids::{AccountId, PollId, WindowId};
use teiryo::rollover::{RolloverKind, WindowRollover};
use teiryo::storage::downsample::{downsample, history, MAX_HISTORY_POINTS};
use teiryo::storage::queries::{
    earliest_sql, history_query, record_poll, rollovers_query, ACCOUNTS, INSERT_POLL,
    INSERT_ROLLOVER, INSERT_SNAPSHOT, LATEST_POLL, RECENT_POLLS, SCHEMA, UPSERT_ACCOUNT,
};
use teiryo::storage::rows::{
    millis_to_ts, parse_poll_id, rollovers, row_to_event, row_to_snapshot, rows_to_snapshots,
    ts_to_millis, unit_from_str, unit_to_str, EventRow, RolloverRow, SnapshotRow, StorageError,
};
use teiryo::time::{Duration, Timestamp};

const SEC: i128 = 1_000_000_000;
const MINUTE: i128 = 60 * SEC;
const HOUR: i128 = 3600 * SEC;

/// 2026-08-21 12:00:00 UTC.
fn noon() -> Timestamp {
    Timestamp::from_nanos(1_787_313_600 * SEC)
}

fn plus(ts: Timestamp, nanos: i128) -> Timestamp {
    Timestamp::from_nanos(ts.nanos_since_epoch() + nanos)
}

/// Wait for the next few milliseconds, so that two ids differ in their time.
fn pause() {
    let start = std::time::Instant::now();
    while start.elapsed() < std::time::Duration::from_millis(3) {}
}

fn amount(value: f64) -> Amount {
    Amount {
        bits: value.to_bits(),
    }
}

fn value(amount: Amount) -> f64 {
    f64::from_bits(amount.bits)
}

fn account() -> Account {
    Account {
        id: AccountId::from("acme:personal"),
        provider: "acme".to_owned(),
        label: "personal".to_owned(),
    }
}

fn window(id: &str, used: f64) -> QuotaWindow {
    QuotaWindow {
        id: WindowId::from(id),
        label: format!("window {id}"),
        scope: WindowScope::AccountWide,
        reset_kind: ResetKind::Rolling(Duration {
            secs: 5 * 3600,
            nanos: 0,
        }),
        unit: QuotaUnit::Percent,
        used: amount(used),
        limit: Some(amount(100.0)),
        reset_at: Some(noon()),
    }
}

fn event(ts: Timestamp, outcome: PollOutcome) -> PollEvent {
    PollEvent {
        id: PollId::generate(),
        ts,
        provider: "acme".to_owned(),
        account: AccountId::from("acme:personal"),
        trigger: PollTrigger::Manual {
            client: ClientKind::Tui,
        },
        outcome,
        latency_ms: 42,
    }
}

fn success(windows: Vec<QuotaWindow>) -> PollOutcome {
    PollOutcome::Success { windows }
}

/// A database in memory.
struct Store {
    db: Connection,
}

impl Store {
    fn new() -> Store {
        let db = Connection::open_in_memory().expect("a database");
        db.execute_batch("PRAGMA foreign_keys = ON;").expect("keys");
        db.execute_batch(SCHEMA).expect("the schema");
        let store = Store { db };
        store.upsert(&account());
        store
    }

    fn upsert(&self, account: &Account) {
        self.db
            .execute(
                UPSERT_ACCOUNT,
                (
                    account.id.as_str(),
                    account.provider.as_str(),
                    account.label.as_str(),
                ),
            )
            .expect("an account");
    }

    fn accounts(&self) -> Vec<Account> {
        let mut stmt = self.db.prepare(ACCOUNTS).expect("the statement");
        let found: Result<Vec<Account>, rusqlite::Error> = stmt
            .query_map([], |row| {
                Ok(Account {
                    id: AccountId(row.get(0)?),
                    provider: row.get(1)?,
                    label: row.get(2)?,
                })
            })
            .expect("rows")
            .collect();
        found.expect("rows")
    }

    /// Write one poll, all of it or none.
    fn record(
        &mut self,
        event: &PollEvent,
        windows: &[QuotaWindow],
        rollovers: &[WindowRollover],
    ) -> Result<(), rusqlite::Error> {
        let batch = record_poll(event, windows, rollovers);
        let tx = self.db.transaction()?;
        let e = &batch.event;
        tx.execute(
            INSERT_POLL,
            (
                &e.id,
                e.ts,
                &e.provider,
                &e.account_id,
                "t",
                "o",
                e.latency_ms,
                &e.error,
            ),
        )?;
        for s in &batch.snapshots {
            tx.execute(
                INSERT_SNAPSHOT,
                (
                    &s.poll_id,
                    &s.window_id,
                    &s.label,
                    &s.unit,
                    value(s.used),
                    s.limit.map(value),
                    s.reset_at,
                ),
            )?;
        }
        for (r, owner) in batch.rollovers.iter().zip(&batch.owners) {
            tx.execute(
                INSERT_ROLLOVER,
                (
                    &r.poll_id,
                    &r.window_id,
                    owner,
                    r.observed_at,
                    r.prev_observed_at,
                    &r.kind,
                    r.prev_reset_at,
                    r.new_reset_at,
                    value(r.prev_used),
                    value(r.new_used),
                ),
            )?;
        }
        tx.commit()
    }

    fn history(
        &self,
        account: &AccountId,
        window: Option<&WindowId>,
        since: Timestamp,
        until: Timestamp,
        max_points: Option<u32>,
    ) -> Vec<QuotaSnapshot> {
        let q = history_query(account, window, since, until);
        let mut stmt = self.db.prepare(&q.sql).expect("the statement");
        let read = |row: &rusqlite::Row<'_>| {
            Ok(SnapshotRow {
                poll_id: row.get(0)?,
                ts: row.get(1)?,
                window_id: row.get(2)?,
                label: row.get(3)?,
                unit: row.get(4)?,
                used: amount(row.get(5)?),
                limit: row.get::<_, Option<f64>>(6)?.map(amount),
                reset_at: row.get(7)?,
            })
        };
        let rows: Result<Vec<SnapshotRow>, rusqlite::Error> = match &q.window {
            Some(w) => stmt
                .query_map((&q.account, q.from, q.to, w), read)
                .expect("rows")
                .collect(),
            None => stmt
                .query_map((&q.account, q.from, q.to), read)
                .expect("rows")
                .collect(),
        };
        let snapshots = rows_to_snapshots(rows.expect("rows")).expect("readable rows");
        history(snapshots, since, until, max_points)
    }

    fn rollovers(
        &self,
        account: &AccountId,
        window: Option<&WindowId>,
        since: Timestamp,
        until: Timestamp,
    ) -> Vec<WindowRollover> {
        let q = rollovers_query(account, window, since, until);
        let mut stmt = self.db.prepare(&q.sql).expect("the statement");
        let read = |row: &rusqlite::Row<'_>| {
            Ok(RolloverRow {
                poll_id: row.get(0)?,
                window_id: row.get(1)?,
                observed_at: row.get(2)?,
                prev_observed_at: row.get(3)?,
                kind: row.get(4)?,
                prev_reset_at: row.get(5)?,
                new_reset_at: row.get(6)?,
                prev_used: amount(row.get(7)?),
                new_used: amount(row.get(8)?),
            })
        };
        let rows: Result<Vec<RolloverRow>, rusqlite::Error> = match &q.window {
            Some(w) => stmt
                .query_map((&q.account, q.from, q.to, w), read)
                .expect("rows")
                .collect(),
            None => stmt
                .query_map((&q.account, q.from, q.to), read)
                .expect("rows")
                .collect(),
        };
        rollovers(account, rows.expect("rows")).expect("readable rows")
    }

    fn earliest(&self, account: &AccountId, window: Option<&WindowId>) -> Option<Timestamp> {
        let sql = earliest_sql(window.is_some());
        let mut stmt = self.db.prepare(&sql).expect("the statement");
        let millis: Option<i64> = match window {
            Some(w) => stmt
                .query_row((account.as_str(), w.as_str()), |row| row.get(0))
                .expect("one row"),
            None => stmt
                .query_row((account.as_str(),), |row| row.get(0))
                .expect("one row"),
        };
        millis.map(millis_to_ts)
    }

    fn events(&self, sql: &str, parameter: &dyn rusqlite::ToSql) -> Vec<EventRow> {
        let mut stmt = self.db.prepare(sql).expect("the statement");
        let rows: Result<Vec<EventRow>, rusqlite::Error> = stmt
            .query_map([parameter], |row| {
                Ok(EventRow {
                    id: row.get(0)?,
                    ts: row.get(1)?,
                    provider: row.get(2)?,
                    account_id: row.get(3)?,
                    latency_ms: row.get(6)?,
                    error: None,
                })
            })
            .expect("rows")
            .collect();
        rows.expect("rows")
    }
}

fn same_rollover(a: &WindowRollover, b: &WindowRollover) -> bool {
    a == b
}

#[test]
fn rollovers_roundtrip_and_honor_their_interval() {
    let mut storage = Store::new();
    let now = noon();
    let windows = vec![window("session_5h", 3.0)];
    let poll = event(now, success(vec![window("session_5h", 3.0)]));

    let rollover = |window_id: &str, kind, minutes_ago: i128| WindowRollover {
        account: account().id,
        window: WindowId::from(window_id),
        poll: poll.id,
        observed_at: plus(now, -minutes_ago * MINUTE),
        kind,
        prev_reset_at: Some(plus(now, -minutes_ago * MINUTE)),
        new_reset_at: Some(plus(now, 5 * HOUR)),
        prev_used: amount(91.5),
        new_used: amount(3.0),
        prev_observed_at: Some(plus(now, -(minutes_ago + 3) * MINUTE)),
    };
    // Two windows on one poll — the composite key must keep both.
    let written = vec![
        rollover("session_5h", RolloverKind::Early, 30),
        rollover("weekly", RolloverKind::Scheduled, 90),
    ];
    storage.record(&poll, &windows, &written).unwrap();

    let id = account().id;
    let all = storage.rollovers(&id, None, plus(now, -2 * HOUR), now);
    assert_eq!(all.len(), 2);
    // Oldest first, and every field survives the trip.
    assert_eq!(all[0].window, WindowId::from("weekly"));
    assert!(same_rollover(&all[1], &written[0]));

    // Filtered to one window.
    let one = storage.rollovers(
        &id,
        Some(&WindowId::from("session_5h")),
        plus(now, -2 * HOUR),
        now,
    );
    assert_eq!(one.len(), 1);
    assert!(same_rollover(&one[0], &written[0]));

    // The interval is inclusive of neither end beyond its bounds: a 1-hour
    // window excludes the 90-minute-old row.
    let recent = storage.rollovers(&id, None, plus(now, -HOUR), now);
    assert_eq!(recent.len(), 1);
    assert_eq!(recent[0].kind, RolloverKind::Early);

    // Another account's history is never mixed in.
    assert!(storage
        .rollovers(&AccountId::from("nope"), None, plus(now, -2 * HOUR), now)
        .is_empty());
}

/// A rollover is only meaningful next to the reading that justified it, so it
/// must never outlive a poll insert that failed.
#[test]
fn a_failed_poll_insert_takes_its_rollovers_with_it() {
    let mut storage = Store::new();
    let now = noon();
    let windows = vec![window("session_5h", 3.0)];
    let poll = event(now, success(vec![window("session_5h", 3.0)]));
    let rollovers = vec![WindowRollover {
        account: account().id,
        window: WindowId::from("session_5h"),
        poll: poll.id,
        observed_at: now,
        kind: RolloverKind::Early,
        prev_reset_at: None,
        new_reset_at: None,
        prev_used: amount(90.0),
        new_used: amount(1.0),
        prev_observed_at: None,
    }];
    storage.record(&poll, &windows, &rollovers).unwrap();
    // Re-recording the same poll violates the primary key and rolls back.
    assert!(storage.record(&poll, &windows, &rollovers).is_err());

    let stored = storage.rollovers(&account().id, None, plus(now, -HOUR), now);
    assert_eq!(stored.len(), 1, "the retry must not have added a duplicate");
}

#[test]
fn record_and_query_roundtrip() {
    let mut storage = Store::new();
    assert_eq!(storage.accounts(), vec![account()]);

    let now = noon();
    let windows = || vec![window("session_5h", 40.0), window("weekly", 12.5)];
    let ok = event(now, success(windows()));
    storage.record(&ok, &windows(), &[]).unwrap();

    // Id order is only guaranteed across distinct milliseconds.
    pause();
    let failed = event(plus(now, SEC), PollOutcome::AuthError("expired".to_owned()));
    storage.record(&failed, &[], &[]).unwrap();

    // History: both windows, then filtered to one.
    let since = plus(now, -HOUR);
    let until = plus(now, HOUR);
    let all = storage.history(&account().id, None, since, until, None);
    assert_eq!(all.len(), 2);
    let one = storage.history(
        &account().id,
        Some(&WindowId::from("weekly")),
        since,
        until,
        None,
    );
    assert_eq!(one.len(), 1);
    assert_eq!(value(one[0].used), 12.5);
    assert_eq!(one[0].poll_id, ok.id);
    assert_eq!(one[0].unit, QuotaUnit::Percent);
    assert_eq!(one[0].reset_at, Some(noon()));

    // Recent polls come back newest first.
    let recent = storage.events(RECENT_POLLS, &10u32);
    assert_eq!(recent.len(), 2);
    let back: Vec<PollEvent> = recent
        .into_iter()
        .zip([
            PollOutcome::AuthError("expired".to_owned()),
            success(windows()),
        ])
        .map(|(row, outcome)| {
            let trigger = PollTrigger::Manual {
                client: ClientKind::Tui,
            };
            row_to_event(row, trigger, outcome).unwrap()
        })
        .collect();
    assert_eq!(back[0].id, failed.id);
    assert_eq!(back[0].outcome, failed.outcome);
    assert_eq!(back[0].ts, failed.ts);
    assert_eq!(back[0].latency_ms, 42);
    assert_eq!(back[1].id, ok.id);
    assert_eq!(back[1].account, ok.account);
    assert_eq!(back[1].outcome, ok.outcome);
    assert_eq!(back[1].trigger, ok.trigger);

    // Latest per account.
    let latest = storage.events(LATEST_POLL, &account().id.as_str());
    assert_eq!(latest.len(), 1);
    assert_eq!(latest[0].id, failed.id.text());
    assert!(storage.events(LATEST_POLL, &"nope").is_empty());

    // The error column holds the failure.
    assert_eq!(
        record_poll(&failed, &[], &[]).event.error.as_deref(),
        Some("expired")
    );
    assert_eq!(record_poll(&ok, &[], &[]).event.error, None);
}

/// Build a synthetic series for `window` at one-minute spacing.
fn snapshots(window: &str, start: Timestamp, used: &[f64]) -> Vec<QuotaSnapshot> {
    used.iter()
        .enumerate()
        .map(|(i, &used)| QuotaSnapshot {
            poll_id: PollId::generate(),
            ts: plus(start, i as i128 * MINUTE),
            window: WindowId::from(window),
            label: window.to_owned(),
            unit: QuotaUnit::Percent,
            used: amount(used),
            limit: Some(amount(100.0)),
            reset_at: None,
        })
        .collect()
}

#[test]
fn downsample_keeps_peaks_and_the_newest_point() {
    let start = plus(noon(), -60 * MINUTE);
    let until = plus(start, 59 * MINUTE);
    let mut used: Vec<f64> = (0..60).map(|i| f64::from(i % 10)).collect();
    used[17] = 99.0; // a spike an averaging reducer would erase
    let series = snapshots("w", start, &used);
    let (newest_ts, newest_used) = {
        let newest = series.last().unwrap();
        (newest.ts, newest.used)
    };

    let out = downsample(series, start, until, 6);

    assert!(out.len() <= 6, "budget exceeded: {}", out.len());
    assert!(out.iter().any(|s| value(s.used) == 99.0), "peak was lost");
    let last = out.last().unwrap();
    assert_eq!(last.ts, newest_ts, "series must end on the current reading");
    assert_eq!(last.used, newest_used);
    assert!(
        out.windows(2).all(|w| !w[1].ts.before(w[0].ts)),
        "not oldest-first"
    );
}

#[test]
fn downsample_reduces_each_window_independently() {
    let start = plus(noon(), -40 * MINUTE);
    let until = plus(start, 39 * MINUTE);
    let mut series = snapshots("session_5h", start, &[10.0; 40]);
    series.extend(snapshots("weekly", start, &[20.0; 40]));

    let out = downsample(series, start, until, 4);

    for id in ["session_5h", "weekly"] {
        let kept = out.iter().filter(|s| s.window.0 == id).count();
        assert!(kept > 0 && kept <= 4, "{id} kept {kept}");
    }
}

#[test]
fn short_series_pass_through_untouched() {
    let start = plus(noon(), -3 * MINUTE);
    let series = snapshots("w", start, &[1.0, 2.0, 3.0]);
    let out = downsample(series, start, noon(), 100);
    assert_eq!(out.len(), 3);
    assert_eq!(
        out.iter().map(|s| value(s.used)).collect::<Vec<_>>(),
        [1.0, 2.0, 3.0]
    );
}

#[test]
fn an_interval_of_no_length_keeps_the_budget_too() {
    let mut readings = snapshots("w", noon(), &[1.0, 2.0, 3.0]);
    readings.extend(snapshots("v", noon(), &[9.0]));
    for s in &mut readings {
        s.ts = noon();
    }
    let kept = downsample(readings.clone(), noon(), noon(), 1);
    let used: Vec<f64> = kept.iter().map(|s| value(s.used)).collect();
    assert_eq!(used, [3.0, 9.0]);
    // What is within the budget is left as it is.
    assert_eq!(downsample(readings.clone(), noon(), noon(), 3), readings);
    assert_eq!(history(readings.clone(), noon(), noon(), None), readings);
}

#[test]
fn a_budget_is_between_one_point_and_the_cap() {
    let start = plus(noon(), -3000 * MINUTE);
    let used: Vec<f64> = (0..3000).map(f64::from).collect();
    let cut = |max| history(snapshots("w", start, &used), start, noon(), max).len();
    assert_eq!(cut(Some(0)), 1);
    assert_eq!(cut(Some(1)), 1);
    assert!(cut(None) <= MAX_HISTORY_POINTS as usize);
    assert!(cut(Some(u32::MAX)) <= MAX_HISTORY_POINTS as usize);
}

#[test]
fn history_honors_until_and_max_points() {
    let mut storage = Store::new();
    let now = noon();
    for (i, used) in [10.0, 20.0, 30.0].into_iter().enumerate() {
        let windows = vec![window("session_5h", used)];
        let outcome = success(vec![window("session_5h", used)]);
        let e = event(plus(now, (i as i128 - 3) * SEC), outcome);
        storage.record(&e, &windows, &[]).unwrap();
    }
    let since = plus(now, -HOUR);

    // `until` in the past excludes everything recorded just now.
    let excluded = storage.history(&account().id, None, since, plus(now, -30 * MINUTE), None);
    assert!(excluded.is_empty());

    // A max_points of 1 still returns the newest reading.
    let capped = storage.history(&account().id, None, since, now, Some(1));
    assert_eq!(capped.len(), 1);
    assert_eq!(value(capped[0].used), 30.0);
}

/// The extent is a property of the stored series, not of any query.
#[test]
fn earliest_snapshot_reports_the_start_of_each_series() {
    let mut storage = Store::new();
    assert_eq!(
        storage.earliest(&account().id, None),
        None,
        "nothing recorded has no beginning"
    );

    // The 5h window starts first; the weekly one appears a poll later.
    let now = noon();
    let first = vec![window("session_5h", 10.0)];
    let outcome = success(vec![window("session_5h", 10.0)]);
    storage.record(&event(now, outcome), &first, &[]).unwrap();
    let both = || vec![window("session_5h", 20.0), window("weekly", 5.0)];
    let later = event(plus(now, 5_000_000), success(both()));
    storage.record(&later, &both(), &[]).unwrap();

    let account_start = storage
        .earliest(&account().id, None)
        .expect("two polls recorded");
    let weekly_start = storage
        .earliest(&account().id, Some(&WindowId::from("weekly")))
        .expect("the weekly window was recorded once");
    assert!(
        account_start.before(weekly_start),
        "a window that started later has its own, later start"
    );

    // A window that was never recorded, and an account that does not exist,
    // both simply have no history rather than erroring.
    assert_eq!(
        storage.earliest(&account().id, Some(&WindowId::from("nope"))),
        None
    );
    assert_eq!(storage.earliest(&AccountId::from("acme:other"), None), None);
}

#[test]
fn instants_are_stored_to_the_millisecond() {
    let ts = Timestamp::from_nanos(1_787_313_600_123_456_789);
    assert_eq!(ts_to_millis(ts), 1_787_313_600_123);
    assert_eq!(
        millis_to_ts(ts_to_millis(ts)),
        Timestamp::from_nanos(1_787_313_600_123_000_000)
    );
    // Before the epoch too, and rounded down.
    assert_eq!(ts_to_millis(Timestamp::from_nanos(-1)), -1);
    // A number of milliseconds that is no instant reads as the epoch.
    assert_eq!(millis_to_ts(i64::MAX), Timestamp::from_nanos(0));
    assert_eq!(millis_to_ts(i64::MIN), Timestamp::from_nanos(0));
}

#[test]
fn units_read_back_and_others_are_corrupt() {
    for unit in [
        QuotaUnit::Percent,
        QuotaUnit::Messages,
        QuotaUnit::Tokens,
        QuotaUnit::Hours,
    ] {
        assert_eq!(unit_from_str(unit_to_str(unit)), Ok(unit));
    }
    assert_eq!(
        unit_from_str("fur\"longs"),
        Err(StorageError::Corrupt(
            "unknown unit \"fur\\\"longs\"".to_owned()
        ))
    );
}

#[test]
fn a_corrupt_row_says_what_is_wrong_with_it() {
    assert_eq!(
        parse_poll_id("x"),
        Err(StorageError::Corrupt(
            "bad poll id \"x\": invalid length".to_owned()
        ))
    );
    let row = |poll_id: &str, unit: &str| SnapshotRow {
        poll_id: poll_id.to_owned(),
        ts: 0,
        window_id: "w".to_owned(),
        label: "w".to_owned(),
        unit: unit.to_owned(),
        used: amount(1.0),
        limit: None,
        reset_at: None,
    };
    let good = PollId(7).text();
    assert!(row_to_snapshot(row(&good, "percent")).is_ok());
    assert_eq!(
        row_to_snapshot(row(&good, "ells")).err(),
        Some(StorageError::Corrupt("unknown unit \"ells\"".to_owned()))
    );
    // The first row that cannot be read decides.
    let rows = vec![row(&good, "percent"), row("y", "percent"), row(&good, "ells")];
    assert_eq!(
        rows_to_snapshots(rows).err(),
        Some(StorageError::Corrupt(
            "bad poll id \"y\": invalid length".to_owned()
        ))
    );
    let rolled = RolloverRow {
        poll_id: good,
        window_id: "w".to_owned(),
        observed_at: 0,
        prev_observed_at: None,
        kind: "sideways".to_owned(),
        prev_reset_at: None,
        new_reset_at: None,
        prev_used: amount(1.0),
        new_used: amount(0.0),
    };
    assert_eq!(
        rollovers(&AccountId::from("a"), vec![rolled]).err(),
        Some(StorageError::Corrupt(
            "unknown rollover kind \"sideways\"".to_owned()
        ))
    );
}

#[test]
fn upsert_account_updates_label() {
    let storage = Store::new();
    storage.upsert(&account());
    let mut renamed = account();
    renamed.label = "work".into();
    storage.upsert(&renamed);
    let accounts = storage.accounts();
    assert_eq!(accounts.len(), 1);
    assert_eq!(accounts[0].label, "work");
}
