//! What the modals drawn over the dashboard say.

use vstd::prelude::*;

use crate::app::config;
use crate::app::settings::SettingsRow;
use crate::app::state::App;
use crate::protocol::wire::{ConfigState, ConfigView};
use crate::text;
use crate::ui::formats;
use crate::ui::spans;
use crate::ui::spans::{Line, Page, SpanData};
use crate::ui::theme;
use crate::ui::theme::Style;

verus! {

/// Rows of a box that holds so many lines between its borders.
pub fn box_height(lines: usize) -> (r: u16)
    ensures
        r == if lines + 2 <= u16::MAX {
            lines + 2
        } else {
            u16::MAX as int
        },
{
    if lines <= 65_533 {
        lines as u16 + 2
    } else {
        u16::MAX
    }
}

// ---------------------------------------------------------------------------
// Help
// ---------------------------------------------------------------------------

/// Columns of the help overlay.
pub const HELP_WIDTH: u16 = 72;

/// Characters of the column before a description.
pub const KEY_COLUMN: usize = 22;

/// The keys, and what they do.
pub const KEYS: [(&'static str, &'static str); 20] = [
    ("h / l · ← / →", "cursor to the quota list / the detail pane"),
    ("j / k · ↓ / ↑", "in the list: move selection"),
    ("", "in the detail pane: scroll it sideways"),
    ("", "(Trend pans through time, g returns to now)"),
    ("g / G · Home / End", "first / last row, or both ends of the pane"),
    ("Tab / Shift-Tab", "cycle detail tab"),
    ("1 / 2 / 3", "Trend / Activity / Health"),
    ("[ / ]", "trend range (1h · 6h · 24h · 7d)"),
    ("PgUp / PgDn", "scroll the detail pane's rows"),
    ("wheel", "scrolls the pane under the pointer, one line"),
    ("", "(on Trend: nudges time by a column, stopping"),
    ("", "at the present and at the oldest point)"),
    ("d", "show or hide the detail pane"),
    ("r · Enter", "poll the selected account now"),
    ("R", "poll every account now"),
    ("s", "daemon settings (poll intervals, providers)"),
    ("?", "this help"),
    ("Esc", "close overlay / collapse pane"),
    ("q · Ctrl-C", "quit (the daemon keeps running)"),
    ("Q", "stop the daemon (confirmation required)"),
];

/// What each derived number on a quota row means. Five numbers per row are
/// worth having only if there is somewhere that says what they are.
///
/// Every description has to fit the overlay's description column unwrapped:
/// the box sizes itself from the line count, so a wrapped line pushes the last
/// entries out through the bottom border.
pub const NUMBERS: [(&'static str, &'static str); 7] = [
    ("⟳ 1h 59m", "when the window rolls over"),
    ("1.03× pace", "burn rate since the window opened"),
    ("3.00× now", "the same rate over the recent stretch"),
    ("cap in 1h 50m", "how long the headroom lasts at that pace"),
    ("afford 0.95×", "the pace that spends the rest exactly by then"),
    ("→103% at reset", "where the current pace lands"),
    ("▲ ▼ =", "above, below, or level with what it affords"),
];

/// A term and its description.
pub open spec fn entry(entry: (&str, &str), style: Style) -> Seq<SpanData> {
    seq![
        spans::span("  "@ + text::padded_right(entry.0@, KEY_COLUMN as nat), style),
        spans::span(entry.1@, theme::plain()),
    ]
}

/// Terms and their descriptions, line by line.
pub open spec fn entries(all: Seq<(&'static str, &'static str)>, style: Style) -> Seq<
    Seq<SpanData>,
> {
    Seq::new(all.len(), |i: int| entry(all[i], style))
}

fn push_entries(page: &mut Page, all: &[(&'static str, &'static str)], style: Style)
    ensures
        final(page)@ == old(page)@ + entries(all@, style),
{
    let ghost start = page@;
    let mut i: usize = 0;
    assert(start + entries(all@, style).take(0) =~= start);
    while i < all.len()
        invariant
            i <= all.len(),
            page@ == start + entries(all@, style).take(i as int),
        decreases all.len() - i,
    {
        let (term, description) = all[i];
        let mut line = Line::new();
        line.push(
            "  ".to_owned().concat(text::pad_right(term, KEY_COLUMN).as_str()),
            style,
        );
        line.say(description, theme::plain());
        assert(line@ =~= entry(all@[i as int], style));
        page.push(line);
        i += 1;
        assert(page@ =~= start + entries(all@, style).take(i as int));
    }
    assert(entries(all@, style).take(i as int) =~= entries(all@, style));
}

/// The help overlay.
pub open spec fn help() -> Seq<Seq<SpanData>> {
    let opened = seq![
        seq![
            spans::span(
                "Every key works from the one dashboard — there are no other screens."@,
                theme::dim(),
            ),
        ],
        seq![],
    ];
    let keys = opened + entries(KEYS@, theme::bold(theme::fg(theme::ACCENT)));
    let turned = keys.push(seq![]).push(
        seq![spans::span("What the numbers on a row mean."@, theme::dim())],
    ).push(seq![]);
    let numbers = turned + entries(NUMBERS@, theme::fg(theme::ACCENT));
    numbers.push(seq![]).push(seq![spans::span("  press any key to close"@, theme::dim())])
}

/// The help overlay: every key, and what the numbers on a row mean.
pub fn help_page() -> (r: Page)
    ensures
        r@ == help(),
{
    let keys = KEYS;
    let numbers = NUMBERS;
    let mut page = Page::new();
    page.say(
        "Every key works from the one dashboard — there are no other screens.",
        theme::dim(),
    );
    page.skip_line();
    push_entries(&mut page, &keys, theme::bold(theme::fg(theme::ACCENT)));
    page.skip_line();
    page.say("What the numbers on a row mean.", theme::dim());
    page.skip_line();
    push_entries(&mut page, &numbers, theme::fg(theme::ACCENT));
    page.skip_line();
    page.say("  press any key to close", theme::dim());
    page
}

// ---------------------------------------------------------------------------
// Settings
// ---------------------------------------------------------------------------

/// Columns of the settings overlay.
pub const SETTINGS_WIDTH: u16 = 78;

/// Characters of the label column inside it, so values line up into one
/// scannable column.
pub const SETTING_LABEL: usize = 26;

/// Characters of the value column.
pub const SETTING_VALUE: usize = 10;

/// Characters of a row, so the selected one reverses across its whole width.
pub const SETTING_ROW: usize = 74;

/// A setting's label.
pub open spec fn setting_label(view: ConfigView, row: SettingsRow) -> Seq<char> {
    match row {
        SettingsRow::GlobalInterval => "Poll interval"@,
        SettingsRow::ProviderEnabled(i) => view.providers@[i as int].provider@ + " · polling"@,
        SettingsRow::ProviderInterval(i) => view.providers@[i as int].provider@ + " · interval"@,
    }
}

/// A setting's value.
pub open spec fn setting_value(view: ConfigView, row: SettingsRow) -> Seq<char> {
    match row {
        SettingsRow::GlobalInterval => formats::interval(
            match view.poll_interval_secs {
                Some(secs) => secs as int,
                None => view.default_poll_interval_secs as int,
            },
        ),
        SettingsRow::ProviderEnabled(i) => if view.providers@[i as int].enabled {
            "on"@
        } else {
            "off"@
        },
        SettingsRow::ProviderInterval(i) => formats::interval(
            view.providers@[i as int].effective_poll_interval_secs as int,
        ),
    }
}

/// Where a setting's value comes from.
pub open spec fn setting_origin(view: ConfigView, row: SettingsRow) -> Seq<char> {
    match row {
        SettingsRow::GlobalInterval => if view.poll_interval_secs is Some {
            "set here"@
        } else {
            "default"@
        },
        SettingsRow::ProviderEnabled(_) => ""@,
        SettingsRow::ProviderInterval(i) => if view.providers@[i as int].poll_interval_secs is Some {
            "override"@
        } else {
            "inherited"@
        },
    }
}

/// A row of the settings overlay.
pub open spec fn setting_row(view: ConfigView, row: SettingsRow, selected: bool) -> Seq<SpanData> {
    let pointer = if selected {
        "▸ "@
    } else {
        "  "@
    };
    seq![
        spans::span(
            text::padded_right(
                "  "@ + pointer + text::padded_right(
                    setting_label(view, row),
                    SETTING_LABEL as nat,
                ) + text::padded_right(setting_value(view, row), SETTING_VALUE as nat)
                    + setting_origin(view, row),
                SETTING_ROW as nat,
            ),
            if selected {
                theme::selected()
            } else {
                theme::plain()
            },
        ),
    ]
}

/// Whether a row is about a setting that is there.
pub open spec fn has_setting(view: ConfigView, row: SettingsRow) -> bool {
    match row {
        SettingsRow::GlobalInterval => true,
        SettingsRow::ProviderEnabled(i) => i < view.providers@.len(),
        SettingsRow::ProviderInterval(i) => i < view.providers@.len(),
    }
}

fn setting_line(view: &ConfigView, row: SettingsRow, selected: bool) -> (r: Line)
    requires
        has_setting(*view, row),
    ensures
        r@ == setting_row(*view, row, selected),
{
    let (label, value, origin) = match row {
        SettingsRow::GlobalInterval => {
            let (secs, origin): (u32, &'static str) = match view.poll_interval_secs {
                Some(secs) => (secs, "set here"),
                None => (view.default_poll_interval_secs, "default"),
            };
            ("Poll interval".to_owned(), formats::format_interval(secs), origin)
        },
        SettingsRow::ProviderEnabled(i) => {
            let provider = &view.providers[i];
            let value = if provider.enabled {
                "on"
            } else {
                "off"
            };
            (provider.provider.clone().concat(" · polling"), value.to_owned(), "")
        },
        SettingsRow::ProviderInterval(i) => {
            let provider = &view.providers[i];
            let origin = if provider.poll_interval_secs.is_some() {
                "override"
            } else {
                "inherited"
            };
            (
                provider.provider.clone().concat(" · interval"),
                formats::format_interval(provider.effective_poll_interval_secs),
                origin,
            )
        },
    };
    let pointer = if selected {
        "▸ "
    } else {
        "  "
    };
    let words = "  ".to_owned().concat(pointer).concat(
        text::pad_right(label.as_str(), SETTING_LABEL).as_str(),
    ).concat(text::pad_right(value.as_str(), SETTING_VALUE).as_str()).concat(origin);
    let style = if selected {
        theme::selected()
    } else {
        theme::plain()
    };
    Line::of(text::pad_right(words.as_str(), SETTING_ROW), style)
}

/// The row the settings cursor is on.
pub open spec fn cursor_on(cursor: usize, rows: nat) -> int {
    if rows == 0 {
        0
    } else if cursor < rows {
        cursor as int
    } else {
        rows - 1
    }
}

/// The rows of the settings overlay.
pub open spec fn setting_rows(view: ConfigView, rows: Seq<SettingsRow>, cursor: usize) -> Seq<
    Seq<SpanData>,
> {
    Seq::new(
        rows.len(),
        |i: int| setting_row(view, rows[i], i == cursor_on(cursor, rows.len())),
    )
}

/// What the overlay says of a rejected load.
pub open spec fn rejection(error: Option<String>) -> Seq<Seq<SpanData>> {
    match error {
        Some(error) => seq![
            seq![],
            seq![spans::span("  ✗ not applied: "@ + error@, theme::fg(theme::CRIT))],
            seq![
                spans::span(
                    "    the settings above are still what is running"@,
                    theme::dim(),
                ),
            ],
        ],
        None => seq![],
    }
}

/// What the overlay says of the load's warnings.
pub open spec fn warned(warnings: Seq<String>) -> Seq<Seq<SpanData>> {
    Seq::new(
        warnings.len(),
        |i: int| seq![spans::span("  ⚠ "@ + warnings[i]@, theme::fg(theme::WARN))],
    )
}

/// The settings overlay, for settings that have arrived.
pub open spec fn settings_for(config: ConfigState, cursor: usize) -> Seq<Seq<SpanData>> {
    let opened = seq![seq![spans::span("  "@ + config.path@, theme::dim())], seq![]];
    let listed = opened + setting_rows(
        config.effective,
        config::rows_for(Some(config)),
        cursor,
    );
    let said = listed + rejection(config.error) + warned(config.warnings@);
    said.push(seq![]).push(
        seq![
            spans::span(
                "  j/k move · +/- adjust · Enter toggle · Backspace inherit · Esc close"@,
                theme::dim(),
            ),
        ],
    )
}

/// The settings overlay: what the daemon is actually configured to do, where
/// that came from, and an editor for it. `None` until its settings arrive.
///
/// Every value carries its provenance — `default`, `set here`, `override`,
/// `inherited` — because the same "60s" means something different depending on
/// whether the user set it, a provider override set it, or nothing did. That
/// ambiguity is the thing this overlay exists to remove.
pub fn settings_page(app: &App) -> (r: Option<Page>)
    ensures
        match (r, app.config) {
            (None, None) => true,
            (Some(page), Some(config)) => page@ == settings_for(config, app.settings_cursor),
            _ => false,
        },
{
    let config = match &app.config {
        Some(config) => config,
        None => return None,
    };
    let view = &config.effective;
    let rows = app.settings_rows();
    let cursor: usize = if app.settings_cursor < rows.len() || rows.len() == 0 {
        app.settings_cursor
    } else {
        rows.len() - 1
    };
    let mut page = Page::new();
    page.push(Line::of("  ".to_owned().concat(config.path.as_str()), theme::dim()));
    page.skip_line();
    let ghost opened = page@;
    let ghost listing = setting_rows(*view, rows@, app.settings_cursor);
    assert(opened + listing.take(0) =~= opened);
    let mut i: usize = 0;
    while i < rows.len()
        invariant
            i <= rows.len(),
            app.config == Some(*config),
            *view == config.effective,
            rows@ == config::rows_for(app.config),
            cursor == app.settings_cursor || cursor == rows.len() - 1 && app.settings_cursor
                >= rows.len(),
            rows.len() > 0 ==> cursor < rows.len(),
            listing == setting_rows(*view, rows@, app.settings_cursor),
            page@ == opened + listing.take(i as int),
        decreases rows.len() - i,
    {
        page.push(setting_line(view, rows[i], i == cursor));
        i += 1;
        assert(page@ =~= opened + listing.take(i as int));
    }
    assert(listing.take(i as int) =~= listing);
    let ghost listed = page@;
    if let Some(error) = &config.error {
        page.skip_line();
        page.push(
            Line::of(
                "  ✗ not applied: ".to_owned().concat(error.as_str()),
                theme::fg(theme::CRIT),
            ),
        );
        page.say("    the settings above are still what is running", theme::dim());
    }
    assert(page@ =~= listed + rejection(config.error));
    let ghost applied = page@;
    let ghost warnings = warned(config.warnings@);
    assert(applied + warnings.take(0) =~= applied);
    let mut k: usize = 0;
    while k < config.warnings.len()
        invariant
            k <= config.warnings.len(),
            warnings == warned(config.warnings@),
            page@ == applied + warnings.take(k as int),
        decreases config.warnings.len() - k,
    {
        page.push(
            Line::of(
                "  ⚠ ".to_owned().concat(config.warnings[k].as_str()),
                theme::fg(theme::WARN),
            ),
        );
        k += 1;
        assert(page@ =~= applied + warnings.take(k as int));
    }
    assert(warnings.take(k as int) =~= warnings);
    page.skip_line();
    page.say(
        "  j/k move · +/- adjust · Enter toggle · Backspace inherit · Esc close",
        theme::dim(),
    );
    Some(page)
}

/// What the settings overlay says before the settings arrive.
pub fn settings_awaited() -> (r: Page)
    ensures
        r@ == seq![seq![spans::span("  waiting for the daemon's settings…"@, theme::dim())]],
{
    let mut page = Page::new();
    page.say("  waiting for the daemon's settings…", theme::dim());
    page
}

// ---------------------------------------------------------------------------
// Stopping the daemon
// ---------------------------------------------------------------------------

/// The confirmation asked before the daemon is stopped.
pub open spec fn confirmation() -> Seq<Seq<SpanData>> {
    seq![
        seq![spans::span("Stop the daemon?"@, theme::plain())],
        seq![
            spans::span(
                "Quota polling halts until the next launch, and history stops accumulating."@,
                theme::dim(),
            ),
        ],
        seq![],
        seq![
            spans::span("y"@, theme::bold(theme::fg(theme::CRIT))),
            spans::span(" to confirm · any other key to cancel"@, theme::plain()),
        ],
    ]
}

/// The confirmation asked before the daemon is stopped.
pub fn confirm_page() -> (r: Page)
    ensures
        r@ == confirmation(),
{
    let mut page = Page::new();
    page.say("Stop the daemon?", theme::plain());
    page.say(
        "Quota polling halts until the next launch, and history stops accumulating.",
        theme::dim(),
    );
    page.skip_line();
    let mut line = Line::new();
    line.say("y", theme::bold(theme::fg(theme::CRIT)));
    line.say(" to confirm · any other key to cancel", theme::plain());
    assert(line@ =~= confirmation()[3]);
    page.push(line);
    assert(page@ =~= confirmation());
    page
}

/// A setting is shown by name, with what is in force and where that comes from.
pub proof fn a_setting_shows_what_is_in_force(view: ConfigView, i: usize)
    ensures
        ({
            let global = SettingsRow::GlobalInterval;
            let (label, value, origin) = (
                setting_label(view, global),
                setting_value(view, global),
                setting_origin(view, global),
            );
            &&& label == "Poll interval"@
            &&& view.poll_interval_secs matches Some(secs) ==> value == formats::interval(
                secs as int,
            ) && origin == "set here"@
            &&& view.poll_interval_secs is None ==> value == formats::interval(
                view.default_poll_interval_secs as int,
            ) && origin == "default"@
        }),
        ({
            let (row, provider) = (
                SettingsRow::ProviderEnabled(i),
                view.providers@[i as int],
            );
            &&& setting_label(view, row) == provider.provider@ + " · polling"@
            &&& provider.enabled ==> setting_value(view, row) == "on"@
            &&& !provider.enabled ==> setting_value(view, row) == "off"@
            &&& setting_origin(view, row) == ""@
        }),
        ({
            let (row, provider) = (
                SettingsRow::ProviderInterval(i),
                view.providers@[i as int],
            );
            &&& setting_label(view, row) == provider.provider@ + " · interval"@
            &&& setting_value(view, row) == formats::interval(
                provider.effective_poll_interval_secs as int,
            )
            &&& provider.poll_interval_secs is Some ==> setting_origin(view, row) == "override"@
            &&& provider.poll_interval_secs is None ==> setting_origin(view, row) == "inherited"@
        }),
{
}

/// A setting takes one row of seventy-four columns: a pointer where the cursor
/// is, the name in twenty-six, the value in ten, and where it comes from.
pub proof fn a_setting_takes_one_row(view: ConfigView, row: SettingsRow, selected: bool)
    ensures
        ({
            let said = setting_row(view, row, selected);
            &&& said.len() == 1
            &&& said[0].style.reversed <==> selected
            &&& said[0].text == text::padded_right(
                "  "@ + (if selected {
                    "▸ "@
                } else {
                    "  "@
                }) + text::padded_right(setting_label(view, row), 26) + text::padded_right(
                    setting_value(view, row),
                    10,
                ) + setting_origin(view, row),
                74,
            )
        }),
{
}

/// Every setting is listed in order, and exactly one of them is under the cursor,
/// the last if the cursor is beyond them.
pub proof fn one_setting_is_under_the_cursor(
    view: ConfigView,
    rows: Seq<SettingsRow>,
    cursor: usize,
    i: int,
)
    requires
        0 <= i < rows.len(),
    ensures
        setting_rows(view, rows, cursor).len() == rows.len(),
        setting_rows(view, rows, cursor)[i] == setting_row(
            view,
            rows[i],
            i == cursor || cursor >= rows.len() && i == rows.len() - 1,
        ),
{
}

/// What the settings overlay shows: the file, the settings, what was not applied
/// and why, each warning, and the keys.
pub proof fn the_settings_show_what_is_wrong(config: ConfigState, cursor: usize, i: int)
    ensures
        ({
            let said = settings_for(config, cursor);
            let rows = config::rows_for(Some(config));
            let listed = setting_rows(config.effective, rows, cursor);
            let wrong = if config.error is Some {
                3int
            } else {
                0
            };
            let at = 2 + rows.len() as int;
            &&& said.len() == at + wrong + config.warnings@.len() + 2
            &&& said[0][0].text == "  "@ + config.path@
            &&& 0 <= i < rows.len() ==> said[2 + i] == listed[i]
            &&& config.error matches Some(e) ==> said[at + 1][0].text == "  ✗ not applied: "@ + e@
                && said[at + 1][0].style.fg == Some(theme::Color::Red)
            &&& 0 <= i < config.warnings@.len() ==> said[at + wrong + i][0].text == "  ⚠ "@
                + config.warnings@[i]@
        }),
{
}

/// Help lists every key in its column and what it does, then every figure and
/// what it means.
pub proof fn help_lists_every_key(i: int)
    ensures
        help().len() == 34,
        0 <= i < 20 ==> {
            let said = help()[2 + i];
            said.len() == 2 && said[0].text == "  "@ + text::padded_right(KEYS@[i].0@, 22)
                && said[1].text == KEYS@[i].1@
        },
        0 <= i < 7 ==> {
            let said = help()[25 + i];
            said.len() == 2 && said[0].text == "  "@ + text::padded_right(NUMBERS@[i].0@, 22)
                && said[1].text == NUMBERS@[i].1@
        },
{
}

/// Stopping the daemon is asked about before it is done.
pub proof fn the_question_about_stopping()
    ensures
        confirmation().len() == 4,
        confirmation()[0][0].text == "Stop the daemon?"@,
        confirmation()[3][0].text == "y"@ && confirmation()[3][0].style.fg == Some(
            theme::Color::Red,
        ),
        confirmation()[3][1].text == " to confirm · any other key to cancel"@,
        help().last()[0].text == "  press any key to close"@,
{
}

} // verus!
