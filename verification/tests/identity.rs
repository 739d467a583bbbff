//! Ids, accounts, outcomes, errors and adapters.

use teiryo::adapter::{registry, BarStyle, CredentialKind, ProviderAdapter};
use teiryo::amount::Amount;
use teiryo::claude::adapter::ClaudeAdapter;
use teiryo::claude::credentials::{
    credential_for, load, ClaudeCredentials, OauthSection, Product, StoredFile,
};
use teiryo::domain::{PollOutcome, QuotaSnapshot, QuotaUnit, QuotaWindow, ResetKind, WindowScope};
use teiryo::error::{AuthError, ProbeError};
use teiryo::ids::{AccountId, PollId, WindowId};
use teiryo::time::{Duration, Timestamp};

/// Wait for the next few milliseconds, so that two ids differ in their time.
fn pause() {
    let start = std::time::Instant::now();
    while start.elapsed() < std::time::Duration::from_millis(3) {}
}

fn amount(value: f64) -> Amount {
    Amount {
        bits: value.to_bits(),
    }
}

fn value(amount: Amount) -> f64 {
    f64::from_bits(amount.bits)
}

#[test]
fn poll_ids_are_time_ordered() {
    let a = PollId::generate();
    pause();
    let b = PollId::generate();
    assert!(PollId::zero() < a);
    assert!(a <= b);
}

#[test]
fn a_poll_id_reads_back_from_its_text() {
    let id = PollId(0x0191_7f3a_1234_5678_9abc_def0_1122_3344);
    assert_eq!(id.text().len(), 26);
    assert_eq!(PollId::parse(&id.text()), Ok(id));
    assert_eq!(PollId::zero().text(), "00000000000000000000000000");
    assert_eq!(
        PollId(u128::MAX).text(),
        "7ZZZZZZZZZZZZZZZZZZZZZZZZZ"
    );
    assert_eq!(PollId::parse("7ZZZZZZZZZZZZZZZZZZZZZZZZZ"), Ok(PollId(u128::MAX)));
    for id in [0u128, 1, 31, 32, u128::MAX - 1] {
        assert_eq!(PollId::parse(&PollId(id).text()), Ok(PollId(id)));
    }
    // Lower case reads the same.
    assert_eq!(PollId::parse(&id.text().to_lowercase()), Ok(id));
    assert_eq!(PollId::parse("short"), Err("invalid length".to_owned()));
    assert_eq!(
        PollId::parse("0000000000000000000000000U"),
        Err("invalid character".to_owned())
    );
}

#[test]
fn outcome_error_messages() {
    let ok = PollOutcome::Success { windows: vec![] };
    assert_eq!(ok.error_message(), None);
    let bad = PollOutcome::AuthError("expired".to_owned());
    assert_eq!(bad.error_message(), Some("expired"));
    assert_eq!(
        PollOutcome::NetworkError("no route".to_owned()).error_message(),
        Some("no route")
    );
    assert_eq!(
        PollOutcome::SchemaDrift("drift".to_owned()).error_message(),
        Some("drift")
    );
    assert_eq!(
        PollOutcome::RateLimited { retry_after: None }.error_message(),
        Some("rate limited")
    );
}

/// A snapshot and the window it was taken of share one rule for what a reading
/// is a fraction of.
#[test]
fn a_snapshot_reads_its_utilization_the_way_its_window_does() {
    let at = Timestamp::from_nanos(1_787_313_600_000_000_000);
    for (unit, used, limit, expected) in [
        (QuotaUnit::Percent, 42.0, Some(100.0), Some(0.42)),
        (QuotaUnit::Percent, 42.0, None, Some(0.42)),
        (QuotaUnit::Messages, 30.0, Some(60.0), Some(0.5)),
        (QuotaUnit::Messages, 30.0, None, None),
        (QuotaUnit::Tokens, 30.0, None, None),
        (QuotaUnit::Tokens, 30.0, Some(0.0), None),
        (QuotaUnit::Percent, 150.0, None, Some(1.0)),
        (QuotaUnit::Percent, -5.0, None, Some(0.0)),
    ] {
        let window = QuotaWindow {
            id: WindowId::from("w"),
            label: "w".to_owned(),
            scope: WindowScope::AccountWide,
            reset_kind: ResetKind::Rolling(Duration {
                secs: 3600,
                nanos: 0,
            }),
            unit,
            used: amount(used),
            limit: limit.map(amount),
            reset_at: None,
        };
        let snapshot = QuotaSnapshot {
            poll_id: PollId::zero(),
            ts: at,
            window: WindowId::from("w"),
            label: "w".to_owned(),
            unit,
            used: amount(used),
            limit: limit.map(amount),
            reset_at: None,
        };
        assert_eq!(window.divisor(), snapshot.divisor());
        let quotient = amount(window.divisor().map_or(0.0, |d| used / value(d)));
        assert_eq!(window.utilization(quotient).map(value), expected);
        assert_eq!(
            window.utilization(quotient),
            snapshot.utilization(quotient)
        );
    }
}

#[test]
fn figures_compare_as_numbers() {
    let sorted = [f64::NEG_INFINITY, -2.0, -0.5, 0.0, 5e-324, 1.0, 1.5, f64::INFINITY];
    for (i, a) in sorted.iter().enumerate() {
        for (j, b) in sorted.iter().enumerate() {
            assert_eq!(amount(*a).below(amount(*b)), i < j, "{a} < {b}");
            assert_eq!(amount(*a).at_most(amount(*b)), i <= j, "{a} <= {b}");
            assert_eq!(amount(*a).totally_below(amount(*b)), i < j);
        }
        assert!(!amount(*a).below(amount(f64::NAN)));
        assert!(!amount(f64::NAN).at_most(amount(*a)));
        assert_eq!(amount(*a).is_finite(), a.is_finite());
    }
    assert!(amount(f64::NAN).is_nan());
    assert!(!amount(f64::NAN).is_finite());
    // The two zeroes are one number, and two places in the total order.
    assert!(amount(-0.0).at_most(amount(0.0)) && amount(0.0).at_most(amount(-0.0)));
    assert!(amount(-0.0).totally_below(amount(0.0)));
}

#[test]
fn credential_debug_never_leaks_secret() {
    // A message holds the kind of a credential, and never the credential.
    for (kind, shown) in [
        (CredentialKind::OAuthToken, "Credential::OAuthToken([REDACTED])"),
        (CredentialKind::ApiKey, "Credential::ApiKey([REDACTED])"),
        (CredentialKind::CookieJar, "Credential::CookieJar([REDACTED])"),
    ] {
        assert_eq!(kind.redacted(), shown);
        assert!(!kind.redacted().contains("super-secret"));
        assert!(kind.redacted().contains("REDACTED"));
    }
}

fn adapter() -> ClaudeAdapter {
    ClaudeAdapter::new("acme".to_owned())
}

fn test_window() -> QuotaWindow {
    QuotaWindow {
        id: WindowId::from("session_5h"),
        label: "Session — 5 hour".to_owned(),
        scope: WindowScope::AccountWide,
        reset_kind: ResetKind::Rolling(Duration {
            secs: 18_000,
            nanos: 0,
        }),
        unit: QuotaUnit::Percent,
        used: amount(50.0),
        limit: Some(amount(100.0)),
        reset_at: None,
    }
}

#[test]
fn render_hint_flags_hard_block() {
    let hint = adapter().render_hint(&test_window());
    assert_eq!(hint.style, BarStyle::Percent);
    assert!(hint.note.as_deref().unwrap().contains("Blocks entirely"));
    assert_eq!(value(hint.warn_threshold), f64::from(0.8f32));
    assert_eq!(value(hint.critical_threshold), f64::from(0.95f32));
}

#[test]
fn group_order_lists_session_before_weekly() {
    let adapter = adapter();
    let order = adapter.group_order();
    assert_eq!(order[0], WindowId::from("session_5h"));
    assert_eq!(order[1], WindowId::from("weekly"));
    assert_eq!(
        order.iter().map(WindowId::as_str).collect::<Vec<_>>(),
        ["session_5h", "weekly", "weekly_opus", "weekly_sonnet"]
    );
}

#[test]
fn registry_contains_claude() {
    let adapters = registry("acme".to_owned());
    assert!(adapters.iter().any(|a| a.id() == "acme"));
    assert_eq!(adapters.len(), 1);
}

#[test]
fn a_login_is_one_default_account() {
    let accounts = adapter().accounts();
    assert_eq!(accounts.len(), 1);
    assert_eq!(accounts[0].id, AccountId::from("acme:default"));
    assert_eq!(accounts[0].provider, "acme");
    assert_eq!(accounts[0].label, "default");
}

#[test]
fn only_an_oauth_token_is_accepted() {
    assert_eq!(adapter().accepts(CredentialKind::OAuthToken), Ok(()));
    assert_eq!(
        adapter().accepts(CredentialKind::ApiKey),
        Err(ProbeError::Auth(
            "acme adapter needs an OAuth token, got Credential::ApiKey([REDACTED])".to_owned()
        ))
    );
}

fn product() -> Product {
    Product {
        name: "Acme Code".to_owned(),
        command: "acme".to_owned(),
    }
}

/// What reading a file that holds `body` comes to.
fn stored(body: &str) -> StoredFile {
    match serde_json::from_str::<serde_json::Value>(body) {
        Err(e) => StoredFile::Malformed(e.to_string()),
        Ok(file) => StoredFile::Read(file.get("claudeAiOauth").map(|oauth| OauthSection {
            access_token: oauth
                .get("accessToken")
                .and_then(serde_json::Value::as_str)
                .map(str::to_owned),
            expires_at: oauth.get("expiresAt").and_then(serde_json::Value::as_i64),
        })),
    }
}

fn now_ms() -> i64 {
    std::time::SystemTime::now()
        .duration_since(std::time::UNIX_EPOCH)
        .expect("a clock past the epoch")
        .as_millis() as i64
}

fn accepted(body: &str) -> ClaudeCredentials {
    match load(&product(), "/c.json", stored(body)) {
        Ok(credentials) => credentials,
        Err(e) => panic!("refused: {e:?}"),
    }
}

fn refusal(r: Result<ClaudeCredentials, AuthError>) -> AuthError {
    match r {
        Ok(_) => panic!("the credentials were accepted"),
        Err(e) => e,
    }
}

#[test]
fn loads_valid_credentials() {
    let body = r#"{"claudeAiOauth":{"accessToken":"fake-token-for-test","refreshToken":"fake-refresh","expiresAt":99999999999999,"scopes":["user:inference"],"subscriptionType":"max"}}"#;
    let creds = accepted(body);
    assert_eq!(creds.access_token, "fake-token-for-test");
    assert_eq!(creds.expires_at_ms, 99_999_999_999_999);
    assert!(!creds.is_expired(now_ms()));
    assert_eq!(
        credential_for(&product(), creds, now_ms()),
        Ok("fake-token-for-test".to_owned())
    );
}

#[test]
fn expired_timestamp_is_detected() {
    let creds = accepted(r#"{"claudeAiOauth":{"accessToken":"fake-token-for-test","expiresAt":1}}"#);
    assert!(creds.is_expired(now_ms()));
    assert!(creds.is_expired(1), "the expiry itself is past");
    assert!(!creds.is_expired(0));
    assert_eq!(
        credential_for(&product(), creds, now_ms()),
        Err(AuthError::Expired(
            "Acme Code access token is past its expiry; run `acme` to refresh".to_owned()
        ))
    );
    // No recorded expiry counts as expired.
    let creds = accepted(r#"{"claudeAiOauth":{"accessToken":"fake-token-for-test"}}"#);
    assert_eq!(creds.expires_at_ms, 0);
    assert!(creds.is_expired(now_ms()));
}

#[test]
fn missing_file_is_not_logged_in() {
    assert_eq!(
        refusal(load(&product(), "/tmp/nope.json", StoredFile::Missing)),
        AuthError::NotLoggedIn(
            "no Acme Code credentials at /tmp/nope.json; run `acme` and log in".to_owned()
        )
    );
    assert_eq!(
        refusal(load(&product(), "/c.json", StoredFile::Elsewhere)),
        AuthError::Store(
            "Acme Code stores credentials in the macOS Keychain, which is not supported yet"
                .to_owned()
        )
    );
}

#[test]
fn missing_oauth_section_is_not_logged_in() {
    assert_eq!(
        refusal(load(&product(), "/c.json", stored(r#"{"somethingElse":{}}"#))),
        AuthError::NotLoggedIn("credentials file has no claudeAiOauth section".to_owned())
    );
    for body in [
        r#"{"claudeAiOauth":{"expiresAt":1}}"#,
        r#"{"claudeAiOauth":{"accessToken":"","expiresAt":1}}"#,
    ] {
        assert_eq!(
            refusal(load(&product(), "/c.json", stored(body))),
            AuthError::NotLoggedIn("credentials file has no access token".to_owned())
        );
    }
}

#[test]
fn malformed_json_is_store_error() {
    let err = refusal(load(&product(), "/c.json", stored("not json")));
    assert!(
        matches!(&err, AuthError::Store(m) if m.starts_with("parsing /c.json: ")),
        "got {err:?}"
    );
    assert_eq!(
        refusal(load(
            &product(),
            "/c.json",
            StoredFile::Unreadable("permission denied".to_owned())
        )),
        AuthError::Store("reading /c.json: permission denied".to_owned())
    );
}
