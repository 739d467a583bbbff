//! The settings overlay: its rows, its cursor, and the edits it sends.

use vstd::prelude::*;

use crate::app::settings;
use crate::app::settings::SettingsRow;
use crate::app::state::{Action, App};
use crate::num;
use crate::protocol::wire::{ConfigEdit, ConfigState};

verus! {

/// The overlay's editable lines: the global interval, then two for each
/// provider.
pub open spec fn rows_for(config: Option<ConfigState>) -> Seq<SettingsRow> {
    match config {
        Some(c) => Seq::new(
            (1 + 2 * c.effective.providers@.len()) as nat,
            |i: int|
                if i == 0 {
                    SettingsRow::GlobalInterval
                } else if i % 2 == 1 {
                    SettingsRow::ProviderEnabled(((i - 1) / 2) as usize)
                } else {
                    SettingsRow::ProviderInterval(((i - 1) / 2) as usize)
                },
        ),
        None => Seq::empty(),
    }
}

impl App {
    /// The row under the settings cursor, which counts as the last row when it
    /// has been left past the end.
    pub open spec fn settings_at(self) -> Option<SettingsRow> {
        let rows = rows_for(self.config);
        if rows.len() == 0 {
            None
        } else if self.settings_cursor < rows.len() {
            Some(rows[self.settings_cursor as int])
        } else {
            Some(rows.last())
        }
    }

    /// The settings cursor moved by `delta`, within the rows.
    pub open spec fn cursor_moved(self, delta: int) -> App {
        let len = rows_for(self.config).len();
        if len == 0 {
            self
        } else {
            App {
                settings_cursor: num::limited(self.settings_cursor + delta, 0, len - 1) as usize,
                ..self
            }
        }
    }

    /// What changing the setting under the cursor by `delta` asks for: the
    /// next rung for an interval, the other value for a switch.
    pub open spec fn edit(self, delta: int) -> Action {
        match (self.config, self.settings_at()) {
            (Some(c), Some(row)) => {
                let view = c.effective;
                match row {
                    SettingsRow::GlobalInterval => Action::EditConfig(
                        ConfigEdit::GlobalPollInterval(
                            Some(
                                settings::stepped(
                                    match view.poll_interval_secs {
                                        Some(secs) => secs,
                                        None => view.default_poll_interval_secs,
                                    },
                                    delta,
                                ),
                            ),
                        ),
                    ),
                    SettingsRow::ProviderEnabled(i) => Action::EditConfig(
                        ConfigEdit::ProviderEnabled {
                            provider: view.providers@[i as int].provider,
                            enabled: !view.providers@[i as int].enabled,
                        },
                    ),
                    SettingsRow::ProviderInterval(i) => Action::EditConfig(
                        ConfigEdit::ProviderPollInterval {
                            provider: view.providers@[i as int].provider,
                            secs: Some(
                                settings::stepped(
                                    view.providers@[i as int].effective_poll_interval_secs,
                                    delta,
                                ),
                            ),
                        },
                    ),
                }
            },
            _ => Action::Nothing,
        }
    }

    /// What dropping the override under the cursor asks for.
    pub open spec fn clearing(self) -> Action {
        match (self.config, self.settings_at()) {
            (Some(c), Some(SettingsRow::GlobalInterval)) => Action::EditConfig(
                ConfigEdit::GlobalPollInterval(None),
            ),
            (Some(c), Some(SettingsRow::ProviderInterval(i))) => Action::EditConfig(
                ConfigEdit::ProviderPollInterval {
                    provider: c.effective.providers@[i as int].provider,
                    secs: None,
                },
            ),
            _ => Action::Nothing,
        }
    }

    /// The settings overlay's editable lines, in display order. Empty until
    /// the daemon's config has arrived.
    pub fn settings_rows(&self) -> (r: Vec<SettingsRow>)
        ensures
            r@ == rows_for(self.config),
    {
        let mut rows: Vec<SettingsRow> = Vec::new();
        match &self.config {
            None => {
                assert(rows@ =~= rows_for(self.config));
            },
            Some(config) => {
                rows.push(SettingsRow::GlobalInterval);
                let mut i: usize = 0;
                while i < config.effective.providers.len()
                    invariant
                        self.config == Some(*config),
                        i <= config.effective.providers@.len(),
                        rows@ == rows_for(self.config).take(1 + 2 * i as int),
                    decreases config.effective.providers@.len() - i,
                {
                    rows.push(SettingsRow::ProviderEnabled(i));
                    rows.push(SettingsRow::ProviderInterval(i));
                    i += 1;
                    assert(rows@ =~= rows_for(self.config).take(1 + 2 * i as int));
                }
                assert(rows@ =~= rows_for(self.config));
            },
        }
        rows
    }

    /// The row under the cursor, if any.
    pub fn settings_row(&self) -> (r: Option<SettingsRow>)
        ensures
            r == self.settings_at(),
    {
        let rows = self.settings_rows();
        if rows.len() == 0 {
            None
        } else if self.settings_cursor < rows.len() {
            Some(rows[self.settings_cursor])
        } else {
            Some(rows[rows.len() - 1])
        }
    }

    /// Whether the daemon last rejected `config.toml`. Surfaced on the
    /// dashboard too, so a bad hand edit is visible without opening Settings —
    /// otherwise the daemon would look like it was simply ignoring the file.
    pub fn config_error(&self) -> (r: Option<&str>)
        ensures
            match r {
                Some(e) => self.config matches Some(c) && c.error matches Some(m) && e@ == m@,
                None => self.config matches Some(c) ==> c.error is None,
            },
    {
        match &self.config {
            Some(config) => match &config.error {
                Some(e) => Some(e.as_str()),
                None => None,
            },
            None => None,
        }
    }

    /// Move the settings cursor by `delta`, clamped to the rows.
    pub(crate) fn move_settings_cursor(&mut self, delta: isize)
        ensures
            *final(self) == old(self).cursor_moved(delta as int),
    {
        let rows = self.settings_rows();
        if rows.len() == 0 {
            return;
        }
        let last: i128 = rows.len() as i128 - 1;
        self.settings_cursor = num::limit(
            self.settings_cursor as i128 + delta as i128,
            0,
            last,
        ) as usize;
    }

    /// Step the interval under the cursor by one rung, or toggle the boolean.
    pub(crate) fn edit_settings(&self, delta: isize) -> (r: Action)
        ensures
            r == self.edit(delta as int),
    {
        match &self.config {
            None => Action::Nothing,
            Some(config) => match self.settings_row() {
                None => Action::Nothing,
                Some(row) => {
                    let view = &config.effective;
                    proof {
                        row_refers(self.config, self.settings_cursor as int);
                    }
                    match row {
                        SettingsRow::GlobalInterval => {
                            let current: u32 = match view.poll_interval_secs {
                                Some(secs) => secs,
                                None => view.default_poll_interval_secs,
                            };
                            Action::EditConfig(
                                ConfigEdit::GlobalPollInterval(
                                    Some(settings::step_interval(current, delta)),
                                ),
                            )
                        },
                        SettingsRow::ProviderEnabled(i) => {
                            let provider = &view.providers[i];
                            Action::EditConfig(
                                ConfigEdit::ProviderEnabled {
                                    provider: provider.provider.clone(),
                                    enabled: !provider.enabled,
                                },
                            )
                        },
                        SettingsRow::ProviderInterval(i) => {
                            let provider = &view.providers[i];
                            Action::EditConfig(
                                ConfigEdit::ProviderPollInterval {
                                    provider: provider.provider.clone(),
                                    secs: Some(
                                        settings::step_interval(
                                            provider.effective_poll_interval_secs,
                                            delta,
                                        ),
                                    ),
                                },
                            )
                        },
                    }
                },
            },
        }
    }

    /// Drop the override under the cursor, falling back to the inherited
    /// value. Has no meaning for the enabled flag, which always has a value.
    pub(crate) fn clear_setting(&self) -> (r: Action)
        ensures
            r == self.clearing(),
    {
        match &self.config {
            None => Action::Nothing,
            Some(config) => {
                proof {
                    row_refers(self.config, self.settings_cursor as int);
                }
                match self.settings_row() {
                    Some(SettingsRow::GlobalInterval) => Action::EditConfig(
                        ConfigEdit::GlobalPollInterval(None),
                    ),
                    Some(SettingsRow::ProviderInterval(i)) => Action::EditConfig(
                        ConfigEdit::ProviderPollInterval {
                            provider: config.effective.providers[i].provider.clone(),
                            secs: None,
                        },
                    ),
                    _ => Action::Nothing,
                }
            },
        }
    }
}

proof fn row_refers(config: Option<ConfigState>, cursor: int)
    requires
        config is Some,
        0 <= cursor,
    ensures
        ({
            let rows = rows_for(config);
            let row = if cursor < rows.len() {
                rows[cursor]
            } else {
                rows.last()
            };
            match row {
                SettingsRow::GlobalInterval => true,
                SettingsRow::ProviderEnabled(i) => i < (config->0).effective.providers@.len(),
                SettingsRow::ProviderInterval(i) => i < (config->0).effective.providers@.len(),
            }
        }),
{
    let providers = (config->0).effective.providers;
    assert(providers@.len() == providers.len());
}

/// However short the config has become, the cursor is on one of its rows.
pub proof fn the_cursor_is_never_stranded(app: App)
    requires
        app.config is Some,
    ensures
        app.settings_at() is Some,
        rows_for(app.config).contains((app.settings_at())->0),
{
    let rows = rows_for(app.config);
    if app.settings_cursor < rows.len() {
        assert(rows[app.settings_cursor as int] == (app.settings_at())->0);
    } else {
        assert(rows[rows.len() - 1] == (app.settings_at())->0);
    }
}

/// The settings are the global cadence, then for each provider in turn whether
/// it is on and its cadence; without a configuration there are none.
pub proof fn the_settings_there_are(config: Option<ConfigState>, k: int)
    ensures
        config is None ==> rows_for(config).len() == 0,
        config matches Some(c) ==> {
            let n = c.effective.providers@.len();
            &&& rows_for(config).len() == 2 * n + 1
            &&& rows_for(config)[0] is GlobalInterval
            &&& 0 <= k < n <= usize::MAX ==> {
                &&& rows_for(config)[2 * k + 1] == SettingsRow::ProviderEnabled(k as usize)
                &&& rows_for(config)[2 * k + 2] == SettingsRow::ProviderInterval(k as usize)
            }
        },
{
    if config is Some && 0 <= k < (config->0).effective.providers@.len() {
        assert((2 * k + 1) % 2 == 1 && (2 * k + 2) % 2 == 0);
        assert((2 * k + 1 - 1) / 2 == k && (2 * k + 2 - 1) / 2 == k);
    }
}

/// The cursor moves as far as it is told, up to the first setting and down to
/// the last, and moves nothing else.
pub proof fn the_cursor_moves_as_far_as_told(app: App, delta: int)
    requires
        app.config is Some,
        rows_for(app.config).len() <= usize::MAX,
    ensures
        ({
            let last = rows_for(app.config).len() - 1;
            let to = app.settings_cursor + delta;
            let next = app.cursor_moved(delta);
            &&& next == (App { settings_cursor: next.settings_cursor, ..app })
            &&& 0 <= to <= last ==> next.settings_cursor == to
            &&& to < 0 ==> next.settings_cursor == 0
            &&& to > last ==> next.settings_cursor == last
        }),
{
}

/// An edit is of the setting under the cursor: a switch is turned over, and a
/// cadence is stepped from what is in force.
pub proof fn an_edit_is_of_the_setting_under_the_cursor(app: App, delta: int, k: int)
    requires
        app.config is Some,
        0 <= k < app.config->0.effective.providers@.len(),
        2 * k + 2 <= usize::MAX,
    ensures
        ({
            let view = app.config->0.effective;
            let provider = view.providers@[k];
            &&& app.settings_cursor == 0 ==> {
                &&& app.edit(delta) == Action::EditConfig(
                    ConfigEdit::GlobalPollInterval(
                        Some(
                            settings::stepped(
                                if view.poll_interval_secs is Some {
                                    view.poll_interval_secs->0
                                } else {
                                    view.default_poll_interval_secs
                                },
                                delta,
                            ),
                        ),
                    ),
                )
                &&& app.clearing() == Action::EditConfig(ConfigEdit::GlobalPollInterval(None))
            }
            &&& app.settings_cursor == 2 * k + 1 ==> {
                &&& app.edit(delta) == Action::EditConfig(
                    ConfigEdit::ProviderEnabled {
                        provider: provider.provider,
                        enabled: !provider.enabled,
                    },
                )
                &&& app.clearing() == Action::Nothing
            }
            &&& app.settings_cursor == 2 * k + 2 ==> {
                &&& app.edit(delta) == Action::EditConfig(
                    ConfigEdit::ProviderPollInterval {
                        provider: provider.provider,
                        secs: Some(settings::stepped(provider.effective_poll_interval_secs, delta)),
                    },
                )
                &&& app.clearing() == Action::EditConfig(
                    ConfigEdit::ProviderPollInterval { provider: provider.provider, secs: None },
                )
            }
        }),
{
    the_settings_there_are(app.config, k);
}

/// Without a configuration there is nothing to edit.
pub proof fn nothing_to_edit_without_a_configuration(app: App, delta: int)
    requires
        app.config is None,
    ensures
        app.settings_at() is None,
        app.edit(delta) == Action::Nothing,
        app.clearing() == Action::Nothing,
        app.cursor_moved(delta) == app,
{
}

} // verus!
