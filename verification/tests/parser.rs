//! Reading the usage endpoint's response, from its JSON on.

use std::collections::BTreeMap;

use serde_json::value::RawValue;
use serde_json::Value;

use teiryo::amount::Amount;
use teiryo::claude::parser::{
    group_order, limit_rows, parse as parse_usage, Bucket, LimitEntry, LimitModel, LimitRow,
    LimitRows, LimitScope, Limits, Note, UsageBucket, UsageResponse, SEVEN_DAYS,
};
use teiryo::claude::slug::model_slug;
use teiryo::domain::{QuotaUnit, QuotaWindow, ResetKind, WindowScope};
use teiryo::error::ParseError;
use teiryo::ids::WindowId;
use teiryo::time::{Duration, Timestamp};

fn amount(value: f64) -> Amount {
    Amount {
        bits: value.to_bits(),
    }
}

fn instant(text: &str) -> Option<Timestamp> {
    let read = chrono::DateTime::parse_from_rfc3339(text).ok()?;
    let nanos = i128::from(read.timestamp()) * 1_000_000_000;
    Some(Timestamp::from_nanos(
        nanos + i128::from(read.timestamp_subsec_nanos()),
    ))
}

/// A field that may be absent or `null`, but not of another type.
fn field<T>(
    object: &Value,
    name: &str,
    read: impl Fn(&Value) -> Option<T>,
) -> Result<Option<T>, String> {
    match object.get(name) {
        None | Some(Value::Null) => Ok(None),
        Some(v) => match read(v) {
            Some(t) => Ok(Some(t)),
            None => Err(format!("bad `{name}`")),
        },
    }
}

fn text(v: &Value) -> Option<String> {
    v.as_str().map(str::to_owned)
}

fn object(v: &Value) -> Option<Value> {
    v.is_object().then_some(v).cloned()
}

/// One fixed bucket. Anything in it that cannot be read counts as absent.
fn bucket(outer: &BTreeMap<String, Box<RawValue>>, name: &str) -> Option<UsageBucket> {
    let read: Value = serde_json::from_str(outer.get(name)?.get()).ok()?;
    if read.is_null() {
        return None;
    }
    Some(UsageBucket {
        utilization: read.get("utilization").and_then(Value::as_f64).map(amount),
        resets_at: read
            .get("resets_at")
            .and_then(Value::as_str)
            .and_then(instant),
    })
}

fn entry(raw: &str) -> Result<LimitEntry, String> {
    let row: Value = serde_json::from_str(raw).map_err(|e| e.to_string())?;
    let row = object(&row).ok_or("not an object")?;
    let scope = match field(&row, "scope", object)? {
        None => None,
        Some(scope) => Some(LimitScope {
            model: match field(&scope, "model", object)? {
                None => None,
                Some(model) => Some(LimitModel {
                    id: field(&model, "id", text)?,
                    display_name: field(&model, "display_name", text)?,
                }),
            },
        }),
    };
    Ok(LimitEntry {
        kind: field(&row, "kind", text)?,
        percent: field(&row, "percent", |v| v.as_f64().map(amount))?,
        // Anything unreadable counts as absent.
        resets_at: row
            .get("resets_at")
            .and_then(Value::as_str)
            .and_then(instant),
        scope,
    })
}

fn decode(body: &str) -> Result<UsageResponse, String> {
    let outer: BTreeMap<String, Box<RawValue>> =
        serde_json::from_str(body).map_err(|e| e.to_string())?;
    let limits = match limit_rows(outer.get("limits").map(|raw| raw.get())) {
        LimitRows::Absent => Limits::Absent,
        LimitRows::NotAnArray => Limits::NotAnArray,
        LimitRows::Elements(rows) => Limits::Rows(
            rows.iter()
                .map(|row| match entry(row) {
                    Ok(e) => LimitRow::Entry(e),
                    Err(_) => LimitRow::Unreadable,
                })
                .collect(),
        ),
    };
    Ok(UsageResponse {
        five_hour: bucket(&outer, "five_hour"),
        seven_day: bucket(&outer, "seven_day"),
        seven_day_opus: bucket(&outer, "seven_day_opus"),
        seven_day_sonnet: bucket(&outer, "seven_day_sonnet"),
        limits,
    })
}

struct Response {
    status: u16,
    body: String,
}

fn raw(status: u16, body: &str) -> Response {
    Response {
        status,
        body: body.to_owned(),
    }
}

fn parse(response: &Response) -> Result<Vec<QuotaWindow>, ParseError> {
    parse_usage(response.status, &decode(&response.body)).outcome
}

fn notes(response: &Response) -> Vec<Note> {
    parse_usage(response.status, &decode(&response.body)).notes
}

fn used(window: &QuotaWindow) -> f64 {
    f64::from_bits(window.used.bits)
}

#[test]
fn parses_pro_plan_shared_pool() {
    let windows = parse(&raw(
        200,
        r#"{"five_hour":{"utilization":34.5,"resets_at":"2026-08-21T12:00:00Z"},
            "seven_day":{"utilization":61.0,"resets_at":"2026-08-25T00:00:00Z"}}"#,
    ))
    .unwrap();
    assert_eq!(windows.len(), 2);
    assert_eq!(windows[0].id, WindowId::from("session_5h"));
    assert_eq!(used(&windows[0]), 34.5);
    assert_eq!(windows[0].limit, Some(amount(100.0)));
    assert_eq!(windows[0].unit, QuotaUnit::Percent);
    assert_eq!(windows[0].scope, WindowScope::AccountWide);
    assert!(windows[0].reset_at.is_some());
    assert_eq!(windows[1].id, WindowId::from("weekly"));
}

#[test]
fn parses_max_plan_per_model_buckets() {
    let windows = parse(&raw(
        200,
        r#"{"five_hour":{"utilization":10},
            "seven_day":{"utilization":20},
            "seven_day_opus":{"utilization":30},
            "seven_day_sonnet":{"utilization":40}}"#,
    ))
    .unwrap();
    assert_eq!(windows.len(), 4);
    assert_eq!(windows[2].scope, WindowScope::Model("opus".to_owned()));
    assert_eq!(windows[3].scope, WindowScope::Model("sonnet".to_owned()));
}

#[test]
fn ignores_unknown_fields() {
    let windows = parse(&raw(
        200,
        r#"{"five_hour":{"utilization":5,"extra":true},"future_bucket":{"utilization":1},"plan":"max"}"#,
    ))
    .unwrap();
    assert_eq!(windows.len(), 1);
}

/// A perfectly readable per-model cap is not thrown away over an unrelated
/// bucket.
#[test]
fn a_bucket_with_no_utilization_is_skipped_keeping_everything_else() {
    let windows = parse(&raw(
        200,
        r#"{"five_hour":{"resets_at":null},
            "seven_day":{"utilization":41},
            "limits":[
                {"kind":"weekly_scoped","percent":48,
                 "scope":{"model":{"display_name":"Fable"}}}
            ]}"#,
    ))
    .unwrap();
    let ids: Vec<_> = windows.iter().map(|w| w.id.0.as_str()).collect();
    assert_eq!(ids, ["weekly", "weekly_fable"]);
}

/// The floor under that leniency: skipping every bucket is still drift.
#[test]
fn a_payload_with_no_readable_window_at_all_is_still_schema_drift() {
    let err = parse(&raw(200, r#"{"five_hour":{"resets_at":null}}"#)).unwrap_err();
    let ParseError::SchemaDrift(msg) = err;
    assert!(msg.contains("no recognized usage windows"), "got: {msg}");
}

#[test]
fn no_recognized_windows_is_schema_drift() {
    let err = parse(&raw(200, r#"{"totally":"different"}"#)).unwrap_err();
    let ParseError::SchemaDrift(msg) = err;
    assert!(msg.contains("no recognized usage windows"), "got: {msg}");
}

#[test]
fn non_json_body_is_schema_drift() {
    let err = parse(&raw(200, "<html>maintenance</html>")).unwrap_err();
    let ParseError::SchemaDrift(msg) = err;
    assert!(msg.contains("not the expected JSON"), "got: {msg}");
}

#[test]
fn non_200_status_is_schema_drift() {
    let err = parse(&raw(500, "{}")).unwrap_err();
    let ParseError::SchemaDrift(msg) = err;
    assert!(msg.contains("500"), "got: {msg}");
}

/// The shape a Max account returns when Fable's weekly allowance is
/// included with the plan: no `seven_day_opus`/`seven_day_sonnet`, and
/// the Fable cap only as a `weekly_scoped` row.
const MAX_WITH_FABLE: &str = r#"{
    "five_hour": {"utilization": 27.0, "resets_at": "2026-09-06T18:50:00.313970+00:00",
                  "limit_dollars": null, "locked_reason": null},
    "seven_day": {"utilization": 41.0, "resets_at": "2026-09-12T13:00:00.313996+00:00"},
    "seven_day_oauth_apps": null,
    "seven_day_opus": null,
    "seven_day_sonnet": null,
    "extra_usage": {"is_enabled": false, "utilization": 0.0},
    "limits": [
        {"kind": "session", "group": "session", "percent": 27, "severity": "normal",
         "resets_at": "2026-09-06T18:50:00.313970+00:00", "scope": null, "is_active": false},
        {"kind": "weekly_all", "group": "weekly", "percent": 41, "severity": "normal",
         "resets_at": "2026-09-12T13:00:00.313996+00:00", "scope": null, "is_active": false},
        {"kind": "weekly_scoped", "group": "weekly", "percent": 48, "severity": "normal",
         "resets_at": "2026-09-12T13:00:00.314237+00:00",
         "scope": {"model": {"id": null, "display_name": "Fable"}, "surface": null},
         "is_active": true}
    ]
}"#;

/// An out-of-range number in `limits[]` — in a row the parser skips
/// (`kind: session`) and a field it never reads (`cost`) — does not fail the
/// poll and discard the good `five_hour` bucket with it.
#[test]
fn an_out_of_range_number_in_limits_does_not_cost_the_poll() {
    let windows = parse(&raw(
        200,
        r#"{"five_hour":{"utilization":5},
            "limits":[{"kind":"session","percent":27,"cost":1e400}]}"#,
    ))
    .expect("the fixed bucket survives a row this parser never reads");
    let ids: Vec<_> = windows.iter().map(|w| w.id.0.as_str()).collect();
    assert_eq!(ids, ["session_5h"]);
}

/// And the same magnitude inside a row the parser *does* read costs that
/// row alone, with a line saying so.
#[test]
fn an_out_of_range_number_in_a_scoped_row_costs_only_that_row() {
    let response = raw(
        200,
        r#"{"five_hour":{"utilization":5},
            "limits":[
                {"kind":"weekly_scoped","percent":1e400,
                 "scope":{"model":{"display_name":"Fable"}}},
                {"kind":"weekly_scoped","percent":48,
                 "scope":{"model":{"display_name":"Opus"}}}
            ]}"#,
    );
    let windows = parse(&response).unwrap();
    let notes = notes(&response);
    let ids: Vec<_> = windows.iter().map(|w| w.id.0.as_str()).collect();
    assert_eq!(ids, ["session_5h", "weekly_opus"]);
    assert_eq!(notes, [Note::UnreadableRow(0)]);
}

#[test]
fn an_unreadable_resets_at_costs_the_instant_not_the_window() {
    let windows = parse(&raw(
        200,
        r#"{"five_hour":{"utilization":5},
            "limits":[{"kind":"weekly_scoped","percent":48,"resets_at":"soon",
                       "scope":{"model":{"display_name":"Fable"}}}]}"#,
    ))
    .unwrap();
    // A window with no reset instant is a shape the rest of the codebase
    // already handles; losing the whole cap is stricter than it needs to be.
    assert_eq!(windows[1].id.0, "weekly_fable");
    assert_eq!(used(&windows[1]), 48.0);
    assert_eq!(windows[1].reset_at, None);
}

#[test]
fn a_reading_outside_the_percent_range_is_kept_and_reported() {
    let response = raw(
        200,
        r#"{"five_hour":{"utilization":140},
            "limits":[{"kind":"weekly_scoped","percent":-3,
                       "scope":{"model":{"display_name":"Fable"}}}]}"#,
    );
    let windows = parse(&response).unwrap();
    let notes = notes(&response);
    // Kept: it is the provider's number and may be a real overage, and
    // `utilization()` clamps for display anyway. Reported: it is equally a
    // sign the field stopped meaning percent. Both shapes alike — the
    // fixed buckets never clamped either.
    assert_eq!(used(&windows[0]), 140.0);
    assert_eq!(used(&windows[1]), -3.0);
    assert_eq!(
        notes,
        [Note::BucketOutOfRange(Bucket::FiveHour), Note::RowOutOfRange(0)]
    );
}

#[test]
fn a_model_name_that_yields_no_id_is_skipped_with_a_reason() {
    let response = raw(
        200,
        r#"{"five_hour":{"utilization":5},
            "limits":[{"kind":"weekly_scoped","percent":48,
                       "scope":{"model":{"display_name":"オーパス"}}}]}"#,
    );
    let windows = parse(&response).unwrap();
    let notes = notes(&response);
    // `model_slug` keeps ASCII alphanumerics only, so this name slugs to
    // nothing. The cap cannot be tracked, but it is not invisible.
    assert_eq!(windows.len(), 1);
    assert_eq!(notes, [Note::NoId(0)]);
}

#[test]
fn a_scoped_row_with_no_model_is_skipped_with_a_reason() {
    let response = raw(
        200,
        r#"{"five_hour":{"utilization":5},
            "limits":[
                {"kind":"weekly_scoped","percent":48,"scope":null},
                {"kind":"weekly_scoped","percent":49}
            ]}"#,
    );
    let windows = parse(&response).unwrap();
    let notes = notes(&response);
    assert_eq!(windows.len(), 1);
    assert_eq!(notes, [Note::NoModel(0), Note::NoModel(1)]);
}

#[test]
fn the_servers_own_model_id_is_preferred_over_its_label() {
    let windows = parse(&raw(
        200,
        r#"{"five_hour":{"utilization":5},
            "limits":[{"kind":"weekly_scoped","percent":48,
                       "scope":{"model":{"id":"acme-fable-5-1","display_name":"Fable 5.1"}}}]}"#,
    ))
    .unwrap();
    // The id keys stored history and the label does not, so the label may
    // change freely from here without orphaning the series.
    assert_eq!(windows[1].id.0, "weekly_acme_fable_5_1");
    assert_eq!(
        windows[1].scope,
        WindowScope::Model("acme_fable_5_1".to_owned())
    );
    // The caption still reads as the server writes it.
    assert_eq!(windows[1].label, "Weekly — Fable 5.1");
}

#[test]
fn a_null_model_id_falls_back_to_the_label() {
    let windows = parse(&raw(
        200,
        r#"{"five_hour":{"utilization":5},
            "limits":[{"kind":"weekly_scoped","percent":48,
                       "scope":{"model":{"id":null,"display_name":"Fable"}}}]}"#,
    ))
    .unwrap();
    assert_eq!(windows[1].id.0, "weekly_fable");
}

#[test]
fn a_fixed_bucket_suppresses_the_same_cap_under_any_label() {
    let windows = parse(&raw(
        200,
        r#"{"five_hour":{"utilization":10},
            "seven_day":{"utilization":20},
            "seven_day_opus":{"utilization":30},
            "seven_day_sonnet":{"utilization":40},
            "limits":[
                {"kind":"weekly_scoped","percent":30,
                 "scope":{"model":{"display_name":"Acme Opus 4.5"}}},
                {"kind":"weekly_scoped","percent":40,
                 "scope":{"model":{"display_name":"Sonnet 4.5"}}}
            ]}"#,
    ))
    .unwrap();
    let ids: Vec<_> = windows.iter().map(|w| w.id.0.as_str()).collect();
    // Not `weekly_acme_opus_4_5` and `weekly_sonnet_4_5` beside them: that
    // would list one cap twice under two confusable labels.
    assert_eq!(
        ids,
        ["session_5h", "weekly", "weekly_opus", "weekly_sonnet"]
    );
}

#[test]
fn rows_of_other_kinds_are_skipped_even_when_they_name_a_model() {
    let windows = parse(&raw(
        200,
        r#"{"five_hour":{"utilization":10},
            "limits":[
                {"kind":"session","percent":10,
                 "scope":{"model":{"display_name":"Fable"}}},
                {"kind":"weekly_all","percent":20,
                 "scope":{"model":{"display_name":"Fable"}}}
            ]}"#,
    ))
    .unwrap();
    let ids: Vec<_> = windows.iter().map(|w| w.id.0.as_str()).collect();
    assert_eq!(ids, ["session_5h"]);
}

/// Fixed buckets first, then `limits[]` windows in server order.
#[test]
fn derived_windows_follow_the_fixed_buckets_in_server_order() {
    let windows = parse(&raw(
        200,
        r#"{"five_hour":{"utilization":10},
            "limits":[
                {"kind":"weekly_scoped","percent":1,
                 "scope":{"model":{"display_name":"Zeta"}}},
                {"kind":"weekly_scoped","percent":2,
                 "scope":{"model":{"display_name":"Alpha"}}}
            ]}"#,
    ))
    .unwrap();
    let ids: Vec<_> = windows.iter().map(|w| w.id.0.as_str()).collect();
    assert_eq!(ids, ["session_5h", "weekly_zeta", "weekly_alpha"]);
}

#[test]
fn an_empty_limits_array_leaves_the_fixed_buckets_alone() {
    let windows = parse(&raw(200, r#"{"five_hour":{"utilization":5},"limits":[]}"#)).unwrap();
    assert_eq!(windows.len(), 1);
}

#[test]
fn a_limits_field_that_is_not_an_array_is_reported() {
    let response = raw(
        200,
        r#"{"five_hour":{"utilization":5},"limits":{"kind":"session"}}"#,
    );
    let windows = parse(&response).unwrap();
    let notes = notes(&response);
    assert_eq!(windows.len(), 1);
    assert_eq!(notes, [Note::LimitsNotAnArray]);
}

#[test]
fn limits_present_but_wholly_unusable_with_no_buckets_is_schema_drift() {
    let err = parse(&raw(
        200,
        r#"{"limits":[{"kind":"weekly_scoped","percent":48,"scope":null}]}"#,
    ))
    .unwrap_err();
    let ParseError::SchemaDrift(msg) = err;
    assert!(msg.contains("no recognized usage windows"), "got: {msg}");
}

#[test]
fn model_slug_keeps_ascii_alphanumerics_and_collapses_the_rest() {
    assert_eq!(model_slug("Opus"), "opus");
    // Runs of separators collapse to one underscore.
    assert_eq!(model_slug("Acme Opus 4.5"), "acme_opus_4_5");
    assert_eq!(model_slug("Opus---4"), "opus_4");
    // No leading separator: the guard is `!slug.is_empty()`.
    assert_eq!(model_slug("  Opus"), "opus");
    assert_eq!(model_slug("...Opus"), "opus");
    // No trailing one either.
    assert_eq!(model_slug("Opus 4.5!"), "opus_4_5");
    assert_eq!(model_slug("Opus   "), "opus");
    // ASCII only, so a wholly non-ASCII name yields nothing at all.
    assert_eq!(model_slug("オーパス"), "");
    assert_eq!(model_slug("Opus 東京"), "opus");
    assert_eq!(model_slug(""), "");
}

#[test]
fn parses_model_scoped_weekly_window_from_limits() {
    let windows = parse(&raw(200, MAX_WITH_FABLE)).unwrap();
    let ids: Vec<_> = windows.iter().map(|w| w.id.0.as_str()).collect();
    assert_eq!(ids, ["session_5h", "weekly", "weekly_fable"]);
    let fable = &windows[2];
    assert_eq!(fable.label, "Weekly — Fable");
    assert_eq!(fable.scope, WindowScope::Model("fable".to_owned()));
    assert_eq!(fable.reset_kind, ResetKind::Rolling(Duration { secs: SEVEN_DAYS, nanos: 0 }));
    assert_eq!(fable.unit, QuotaUnit::Percent);
    assert_eq!(used(fable), 48.0);
    assert_eq!(fable.limit, Some(amount(100.0)));
    assert_eq!(
        fable.reset_at,
        instant("2026-09-12T13:00:00.314237+00:00")
    );
}

#[test]
fn limits_rows_that_restate_fixed_buckets_are_skipped() {
    // `seven_day_opus` and a `weekly_scoped` "Opus" row describe one cap;
    // the fixed bucket keeps the `weekly_opus` id and the row adds nothing.
    let windows = parse(&raw(
        200,
        r#"{"five_hour":{"utilization":10},
            "seven_day":{"utilization":20},
            "seven_day_opus":{"utilization":30},
            "limits":[
                {"kind":"session","percent":10,"scope":null},
                {"kind":"weekly_all","percent":20,"scope":null},
                {"kind":"weekly_scoped","percent":30,
                 "scope":{"model":{"display_name":"Opus"}}}
            ]}"#,
    ))
    .unwrap();
    let ids: Vec<_> = windows.iter().map(|w| w.id.0.as_str()).collect();
    assert_eq!(ids, ["session_5h", "weekly", "weekly_opus"]);
    assert_eq!(used(&windows[2]), 30.0);
}

#[test]
fn malformed_limits_rows_are_ignored() {
    let windows = parse(&raw(
        200,
        r#"{"five_hour":{"utilization":5},
            "limits":[
                "not an object",
                {"kind":"weekly_scoped","percent":"48","scope":{"model":{"display_name":"Fable"}}},
                {"kind":"weekly_scoped","percent":1,"scope":"Fable"},
                {"kind":"weekly_scoped","percent":2,"scope":{"model":null}},
                {"kind":"weekly_scoped","percent":3,"scope":{"model":{"display_name":"  "}}},
                {"kind":"future_kind","percent":4,"scope":{"model":{"display_name":"Fable"}}},
                {"kind":"weekly_scoped","percent":6,
                 "scope":{"model":{"display_name":"Fable 5.1"}}}
            ]}"#,
    ))
    .unwrap();
    let ids: Vec<_> = windows.iter().map(|w| w.id.0.as_str()).collect();
    assert_eq!(ids, ["session_5h", "weekly_fable_5_1"]);
    assert_eq!(windows[1].scope, WindowScope::Model("fable_5_1".to_owned()));
    assert_eq!(windows[1].label, "Weekly — Fable 5.1");
}

#[test]
fn weekly_scoped_row_without_percent_is_skipped_keeping_fixed_buckets() {
    let windows = parse(&raw(
        200,
        r#"{"five_hour":{"utilization":27},"seven_day":{"utilization":41},
            "limits":[{"kind":"weekly_scoped","resets_at":null,
                       "scope":{"model":{"display_name":"Fable"}}}]}"#,
    ))
    .unwrap();
    let ids: Vec<&str> = windows.iter().map(|w| w.id.0.as_str()).collect();
    assert_eq!(ids, ["session_5h", "weekly"]);
}

#[test]
fn null_or_non_array_limits_leave_fixed_buckets_alone() {
    for limits in ["null", "{}", "\"weekly_scoped\"", "7"] {
        let body = format!(r#"{{"five_hour":{{"utilization":5}},"limits":{limits}}}"#);
        let windows = parse(&raw(200, &body)).unwrap_or_else(|e| panic!("{limits}: {e:?}"));
        assert_eq!(windows.len(), 1, "limits = {limits}");
    }
}

#[test]
fn repeated_scoped_rows_for_one_model_keep_the_first() {
    let windows = parse(&raw(
        200,
        r#"{"limits":[
            {"kind":"weekly_scoped","percent":48,"scope":{"model":{"display_name":"Fable"}}},
            {"kind":"weekly_scoped","percent":99,"scope":{"model":{"display_name":"fable"}}}
        ]}"#,
    ))
    .unwrap();
    assert_eq!(windows.len(), 1);
    assert_eq!(used(&windows[0]), 48.0);
}

#[test]
fn limits_alone_still_yield_windows() {
    let windows = parse(&raw(
        200,
        r#"{"limits":[{"kind":"weekly_scoped","percent":48,
                       "scope":{"model":{"display_name":"Fable"}}}]}"#,
    ))
    .unwrap();
    assert_eq!(windows.len(), 1);
    assert_eq!(windows[0].id, WindowId::from("weekly_fable"));
    assert!(windows[0].reset_at.is_none());
}

#[test]
fn a_bucket_without_a_reading_is_noted() {
    let response = raw(200, r#"{"five_hour":{},"seven_day":{"utilization":41}}"#);
    assert_eq!(notes(&response), [Note::NoUtilization(Bucket::FiveHour)]);
    let response = raw(
        200,
        r#"{"seven_day":{"utilization":41},
            "limits":[{"kind":"weekly_scoped","scope":{"model":{"display_name":"Fable"}}}]}"#,
    );
    assert_eq!(notes(&response), [Note::NoPercent(0)]);
}

#[test]
fn the_windows_are_listed_session_first() {
    let ids: Vec<String> = group_order().into_iter().map(|id| id.0).collect();
    assert_eq!(ids, ["session_5h", "weekly", "weekly_opus", "weekly_sonnet"]);
}

/// A slug is a slug already.
#[test]
fn slugging_twice_is_slugging_once() {
    for name in ["Opus", "  Acme -- 4.5! ", "オーパス", "a_b", "__x__"] {
        let once = model_slug(name);
        assert_eq!(model_slug(&once), once);
        assert!(!once.starts_with('_') && !once.ends_with('_') && !once.contains("__"));
    }
}

#[test]
fn the_elements_of_limits_keep_their_text() {
    assert_eq!(limit_rows(None), LimitRows::Absent);
    assert_eq!(limit_rows(Some("null")), LimitRows::Absent);
    for other in ["{}", "17", "\"[]\"", "[1, 2", "[1] x"] {
        assert_eq!(limit_rows(Some(other)), LimitRows::NotAnArray, "{other}");
    }
    assert_eq!(limit_rows(Some("[]")), LimitRows::Elements(vec![]));
    // A number no machine can hold is still just text.
    assert_eq!(
        limit_rows(Some("[ 1e999 , {\"a\" : [1, 2]},null]")),
        LimitRows::Elements(vec![
            "1e999".to_owned(),
            "{\"a\" : [1, 2]}".to_owned(),
            "null".to_owned(),
        ])
    );
}

#[test]
fn an_unreadable_bucket_costs_only_itself() {
    let response = raw(
        200,
        r#"{"five_hour":{"utilization":"a lot"},"seven_day":[],
            "seven_day_opus":{"utilization":12.0,"resets_at":17}}"#,
    );
    let parsed = parse_usage(response.status, &decode(&response.body));
    assert_eq!(
        parsed.notes,
        [
            Note::NoUtilization(Bucket::FiveHour),
            Note::NoUtilization(Bucket::SevenDay)
        ]
    );
    let windows = parsed.outcome.unwrap();
    assert_eq!(windows.len(), 1);
    assert_eq!(windows[0].id, WindowId::from("weekly_opus"));
    assert_eq!(windows[0].used, amount(12.0));
    assert_eq!(windows[0].reset_at, None);
}

#[test]
fn renaming_a_model_changes_only_its_label() {
    let named = |name: &str| {
        let body = format!(
            r#"{{"five_hour":{{"utilization":1.0}},"limits":[
                {{"kind":"weekly_scoped","percent":48,
                  "scope":{{"model":{{"id":"fable-5","display_name":"{name}"}}}}}}]}}"#
        );
        parse(&raw(200, &body)).unwrap()
    };
    let (old, mut new) = (named("Fable"), named("Saga"));
    assert_eq!(old[1].id, WindowId::from("weekly_fable_5"));
    assert_eq!(old[1].label, "Weekly — Fable");
    assert_eq!(new[1].label, "Weekly — Saga");
    new[1].label = old[1].label.clone();
    assert_eq!(old, new);
}
