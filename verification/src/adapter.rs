//! What a provider adapter supplies, so the TUI never needs provider
//! internals.

use vstd::prelude::*;

use crate::amount::Amount;
use crate::claude::adapter::ClaudeAdapter;
use crate::claude::parser;
use crate::domain::QuotaWindow;
use crate::ids::{ProviderId, WindowId};

verus! {

/// What kind of credential one is. Secrets themselves never come near a
/// message; this does.
#[derive(Debug, Clone, Copy, PartialEq, Eq, Structural)]
pub enum CredentialKind {
    /// OAuth access token.
    OAuthToken,
    /// Plain API key.
    ApiKey,
    /// Serialized cookie jar (e.g. a browser session).
    CookieJar,
}

impl CredentialKind {
    /// The kind's name.
    pub open spec fn name(self) -> Seq<char> {
        match self {
            CredentialKind::OAuthToken => "OAuthToken"@,
            CredentialKind::ApiKey => "ApiKey"@,
            CredentialKind::CookieJar => "CookieJar"@,
        }
    }

    /// What is shown in place of a credential of this kind.
    pub open spec fn redaction(self) -> Seq<char> {
        "Credential::"@ + self.name() + "([REDACTED])"@
    }

    /// What is shown in place of a credential of this kind: the kind, and
    /// nothing of the secret.
    pub fn redacted(self) -> (r: String)
        ensures
            r@ == self.redaction(),
    {
        let name = match self {
            CredentialKind::OAuthToken => "OAuthToken",
            CredentialKind::ApiKey => "ApiKey",
            CredentialKind::CookieJar => "CookieJar",
        };
        "Credential::".to_owned().concat(name).concat("([REDACTED])")
    }
}

/// A provider: a stable id, and rendering rules, so the TUI stays
/// provider-agnostic.
pub trait ProviderAdapter {
    /// Stable provider id.
    spec fn name(&self) -> Seq<char>;

    /// Display grouping/order of the provider's windows.
    spec fn order(&self) -> Seq<WindowId>;

    /// Stable provider id.
    fn id(&self) -> (r: ProviderId)
        ensures
            r@ == self.name(),
    ;

    /// How one window should be rendered.
    fn render_hint(&self, window: &QuotaWindow) -> RenderHint;

    /// Display grouping/order of the provider's windows.
    fn group_order(&self) -> (r: &[WindowId])
        ensures
            r@ == self.order(),
    ;
}

/// All compiled-in provider adapters, of which there is one, known by the id
/// `provider`. The daemon builds its registry from this at startup.
pub fn registry(provider: ProviderId) -> (r: Vec<ClaudeAdapter>)
    ensures
        r@.len() == 1,
        r@[0].name() == provider@,
        r@[0].order().len() == 4,
        forall|i: int|
            0 <= i < 4 ==> (#[trigger] r@[0].order()[i])@ == parser::buckets()[i].id(),
{
    let mut out: Vec<ClaudeAdapter> = Vec::new();
    out.push(ClaudeAdapter::new(provider));
    out
}

/// How the TUI should draw a quota window.
#[derive(Debug, PartialEq, Eq)]
pub struct RenderHint {
    /// Gauge style.
    pub style: BarStyle,
    /// Fraction (0–1) at which to warn.
    pub warn_threshold: Amount,
    /// Fraction (0–1) at which to alarm.
    pub critical_threshold: Amount,
    /// Provider UX quirk surfaced to the user, e.g. "blocks entirely at cap".
    pub note: Option<String>,
}

/// Gauge style for a quota window.
#[derive(Debug, Clone, Copy, PartialEq, Eq, Structural)]
pub enum BarStyle {
    /// Percentage bar (limit unpublished).
    Percent,
    /// `used / limit` fraction bar.
    FractionOfLimit,
    /// Plain count, no bar.
    CountOnly,
}

/// A credential is shown by its kind alone.
pub proof fn a_credential_is_shown_by_its_kind(kind: CredentialKind)
    ensures
        kind is OAuthToken ==> kind.redaction() == "Credential::"@ + "OAuthToken"@
            + "([REDACTED])"@,
        kind is ApiKey ==> kind.redaction() == "Credential::"@ + "ApiKey"@ + "([REDACTED])"@,
        kind is CookieJar ==> kind.redaction() == "Credential::"@ + "CookieJar"@ + "([REDACTED])"@,
{
}

} // verus!
