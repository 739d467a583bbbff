//! The adapter's identity and presentation.

use vstd::prelude::*;

use crate::adapter::{BarStyle, CredentialKind, ProviderAdapter, RenderHint};
use crate::amount::Amount;
use crate::claude::parser;
use crate::domain::{Account, QuotaWindow};
use crate::error::ProbeError;
use crate::ids::{AccountId, ProviderId, WindowId};

verus! {

/// Default API base URL (the host the provider's own program talks to).
pub const DEFAULT_BASE_URL: &'static str = "https://api.anthropic.com";

/// Usage endpoint path, relative to the base URL.
pub const USAGE_PATH: &'static str = "/api/oauth/usage";

/// Env var overriding the credentials file path (mainly for tests/config).
pub const ENV_CREDENTIALS_PATH: &'static str = "TEIRYO_CLAUDE_CREDENTIALS";

/// Env var overriding the API base URL (mainly for tests/config).
pub const ENV_BASE_URL: &'static str = "TEIRYO_CLAUDE_BASE_URL";

/// Bit pattern of the fraction at which a window warns: 0.8 as a single
/// precision number.
pub const WARN_THRESHOLD: u64 = 0x3fe9_9999_a000_0000;

/// Bit pattern of the fraction at which a window alarms: 0.95 as a single
/// precision number.
pub const CRITICAL_THRESHOLD: u64 = 0x3fee_6666_6000_0000;

/// Subscription adapter: what the dashboard needs to know of the provider.
#[derive(Debug)]
pub struct ClaudeAdapter {
    provider: ProviderId,
    order: Vec<WindowId>,
}

impl ClaudeAdapter {
    /// The adapter, for a provider known by the id `provider`.
    pub fn new(provider: ProviderId) -> (r: Self)
        ensures
            r.name() == provider@,
            r.order().len() == 4,
            forall|i: int| 0 <= i < 4 ==> (#[trigger] r.order()[i])@ == parser::buckets()[i].id(),
            r.order()[0]@ == "session_5h"@ && r.order()[1]@ == "weekly"@ && r.order()[2]@
                == "weekly_opus"@ && r.order()[3]@ == "weekly_sonnet"@,
    {
        ClaudeAdapter { provider, order: parser::group_order() }
    }

    /// The accounts found once a login has been read: the one the provider's
    /// own program is logged in as.
    pub fn accounts(&self) -> (r: Vec<Account>)
        ensures
            r@.len() == 1,
            r@[0].id@ == self.name() + ":default"@,
            r@[0].provider@ == self.name(),
            r@[0].label@ == "default"@,
    {
        let mut out: Vec<Account> = Vec::new();
        out.push(
            Account {
                id: AccountId(self.provider.clone().concat(":default")),
                provider: self.provider.clone(),
                label: "default".to_owned(),
            },
        );
        out
    }

    /// Whether a credential is one the usage endpoint takes.
    pub fn accepts(&self, kind: CredentialKind) -> (r: Result<(), ProbeError>)
        ensures
            match r {
                Ok(()) => kind == CredentialKind::OAuthToken,
                Err(e) => {
                    &&& kind != CredentialKind::OAuthToken
                    &&& e matches ProbeError::Auth(m) && m@ == self.name()
                        + " adapter needs an OAuth token, got "@ + kind.redaction()
                },
            },
    {
        match kind {
            CredentialKind::OAuthToken => Ok(()),
            _ => Err(
                ProbeError::Auth(
                    self.provider.clone().concat(" adapter needs an OAuth token, got ").concat(
                        kind.redacted().as_str(),
                    ),
                ),
            ),
        }
    }
}

impl ProviderAdapter for ClaudeAdapter {
    closed spec fn name(&self) -> Seq<char> {
        self.provider@
    }

    closed spec fn order(&self) -> Seq<WindowId> {
        self.order@
    }

    fn id(&self) -> (r: ProviderId) {
        self.provider.clone()
    }

    fn render_hint(&self, window: &QuotaWindow) -> (r: RenderHint)
        ensures
            r.style == BarStyle::Percent,
            r.warn_threshold.bits == WARN_THRESHOLD,
            r.critical_threshold.bits == CRITICAL_THRESHOLD,
            r.note matches Some(n) && n@ == "Blocks entirely at cap"@,
            r.warn_threshold.bits == 0x3fe9_9999_a000_0000,
            r.critical_threshold.bits == 0x3fee_6666_6000_0000,
    {
        RenderHint {
            style: BarStyle::Percent,
            warn_threshold: Amount { bits: WARN_THRESHOLD },
            critical_threshold: Amount { bits: CRITICAL_THRESHOLD },
            note: Some("Blocks entirely at cap".to_owned()),
        }
    }

    fn group_order(&self) -> (r: &[WindowId]) {
        self.order.as_slice()
    }
}

} // verus!
