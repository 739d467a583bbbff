//! The plain listing: every account, window, poll and provider on one line.

use vstd::prelude::*;

use crate::amount::Amount;
use crate::app::roster;
use crate::app::state::App;
use crate::domain::{PollEvent, QuotaSnapshot, QuotaWindow};
use crate::protocol::wire::{AccountStatus, ProviderHealth};
use crate::text;
use crate::time::Timestamp;
use crate::ui::formats;
use crate::ui::formats::Printed;
use crate::ui::header;
use crate::ui::header::Figures;
use crate::ui::spans;
use crate::ui::spans::{Line, SpanData};
use crate::ui::theme;
use crate::ui::theme::Color;

verus! {

/// A utilization of 0.95, and above, is critical.
pub const RATIO_CRITICAL: u64 = 0x3fee_6666_6666_6666;

/// A utilization of 0.8, and above, is worth a warning.
pub const RATIO_WARN: u64 = 0x3fe9_9999_9999_999a;

/// Cells of a bar.
pub const BAR: usize = 20;

/// Color for a utilization.
pub open spec fn color_of(ratio: Amount) -> Color {
    if (Amount { bits: RATIO_CRITICAL }).le(ratio) {
        Color::Red
    } else if (Amount { bits: RATIO_WARN }).le(ratio) {
        Color::Yellow
    } else {
        Color::Green
    }
}

/// Color for a utilization.
pub fn ratio_color(ratio: Amount) -> (r: Color)
    ensures
        r == color_of(ratio),
{
    if (Amount { bits: RATIO_CRITICAL }).at_most(ratio) {
        Color::Red
    } else if (Amount { bits: RATIO_WARN }).at_most(ratio) {
        Color::Yellow
    } else {
        Color::Green
    }
}

/// Color for a poll's outcome.
pub open spec fn outcome_color(event: PollEvent) -> Color {
    if event.outcome is Success {
        Color::Green
    } else {
        Color::Red
    }
}

fn colored_outcome(event: &PollEvent) -> (r: (String, Color))
    ensures
        r.0@ == formats::outcome_words(event.outcome),
        r.1 == outcome_color(*event),
{
    let (words, failed) = formats::outcome_text(event);
    if failed {
        (words, Color::Red)
    } else {
        (words, Color::Green)
    }
}

/// An account on one line.
pub open spec fn account_listed(status: AccountStatus, now: int) -> Seq<SpanData> {
    let named = seq![
        spans::span(
            status.account.provider@ + " / "@ + status.account.label@,
            theme::bold(theme::plain()),
        ),
    ];
    match status.last_poll {
        Some(event) => named.push(spans::span("  — last poll "@, theme::plain())).push(
            spans::span(
                formats::outcome_words(event.outcome),
                theme::fg(outcome_color(event)),
            ),
        ).push(
            spans::span(
                " ("@ + formats::elapsed(event.ts.at(), now) + ")"@,
                theme::plain(),
            ),
        ),
        None => named.push(spans::span("  — not polled yet"@, theme::fg(Color::DarkGray))),
    }
}

/// An account on one line.
pub fn list_account(status: &AccountStatus, now: Timestamp) -> (r: Line)
    ensures
        r@ == account_listed(*status, now.at()),
{
    let mut line = Line::new();
    line.push(
        status.account.provider.clone().concat(" / ").concat(status.account.label.as_str()),
        theme::bold(theme::plain()),
    );
    match &status.last_poll {
        Some(event) => {
            let (words, color) = colored_outcome(event);
            line.say("  — last poll ", theme::plain());
            line.push(words, theme::fg(color));
            line.push(
                " (".to_owned().concat(formats::format_elapsed(event.ts, now).as_str()).concat(
                    ")",
                ),
                theme::plain(),
            );
        },
        None => line.say("  — not polled yet", theme::fg(Color::DarkGray)),
    }
    line
}

/// A window on one line; `filled` cells of its bar are.
pub open spec fn window_listed(
    window: QuotaWindow,
    quotient: Amount,
    printed: Printed,
    filled: int,
    now: int,
) -> Seq<SpanData> {
    let opened = seq![spans::span("  "@, theme::plain())];
    let barred = match crate::domain::utilization_of(window.unit, window.limit, quotient) {
        Some(ratio) => opened.push(
            spans::span(formats::bar(filled, BAR as nat), theme::fg(color_of(ratio))),
        ),
        None => opened.push(
            spans::span("····················"@, theme::fg(Color::DarkGray)),
        ),
    };
    let used = barred.push(
        spans::span(
            "  "@ + window.label@ + " — "@ + formats::usage_words(window, printed),
            theme::plain(),
        ),
    );
    match window.reset_at {
        Some(reset_at) => used.push(
            spans::span(
                "  resets in "@ + formats::countdown(reset_at.at(), now),
                theme::fg(Color::DarkGray),
            ),
        ),
        None => used,
    }
}

/// A window on one line; `filled` cells of its bar are.
pub fn list_window(
    window: &QuotaWindow,
    quotient: Amount,
    printed: &Printed,
    filled: usize,
    now: Timestamp,
) -> (r: Line)
    ensures
        r@ == window_listed(*window, quotient, *printed, filled as int, now.at()),
{
    let mut line = Line::new();
    line.say("  ", theme::plain());
    match window.utilization(quotient) {
        Some(ratio) => line.push(
            formats::text_bar(filled, BAR),
            theme::fg(ratio_color(ratio)),
        ),
        None => line.say("····················", theme::fg(Color::DarkGray)),
    }
    line.push(
        "  ".to_owned().concat(window.label.as_str()).concat(" — ").concat(
            formats::usage_text(window, printed).as_str(),
        ),
        theme::plain(),
    );
    if let Some(reset_at) = window.reset_at {
        line.push(
            "  resets in ".to_owned().concat(
                formats::format_countdown(reset_at, now).as_str(),
            ),
            theme::fg(Color::DarkGray),
        );
    }
    line
}

/// One line of the listing, and whether it is the selected one.
#[derive(Debug, PartialEq, Eq)]
pub struct Listed {
    /// What it says.
    pub line: Line,
    /// Whether it is selected.
    pub selected: bool,
}

/// What the listing says of a row; `filled[a][w]` cells of the bar of window
/// `w` of account `a` are.
pub open spec fn row_listed(
    app: App,
    figures: Seq<Vec<Figures>>,
    filled: Seq<Vec<usize>>,
    i: int,
    now: int,
) -> Seq<SpanData> {
    let row = roster::rows_of(app.statuses@)[i];
    let status = app.statuses@[row.account as int];
    match row.window {
        None => account_listed(status, now),
        Some(w) => {
            let own = figures[row.account as int]@[w as int];
            window_listed(
                status.windows@[w as int].window,
                own.quotient,
                own.printed,
                filled[row.account as int]@[w as int] as int,
                now,
            )
        },
    }
}

/// Whether there is a number of filled cells for every window.
pub open spec fn counts(filled: Seq<Vec<usize>>, statuses: Seq<AccountStatus>) -> bool {
    &&& filled.len() == statuses.len()
    &&& forall|a: int|
        0 <= a < statuses.len() ==> (#[trigger] filled[a])@.len() == statuses[a].windows@.len()
}

/// The listing: every account and its windows, line by line, with the selected
/// row marked; or that there is none.
pub fn listing(
    app: &App,
    figures: &Vec<Vec<Figures>>,
    filled: &Vec<Vec<usize>>,
    now: Timestamp,
) -> (r: Vec<Listed>)
    requires
        header::covers(figures@, app.statuses@),
        counts(filled@, app.statuses@),
    ensures
        roster::rows_of(app.statuses@).len() == 0 ==> r@.len() == 1 && !r@[0].selected
            && r@[0].line@ == seq![
            spans::span(
                "no accounts discovered yet — waiting for the daemon"@,
                theme::fg(Color::DarkGray),
            ),
        ],
        roster::rows_of(app.statuses@).len() > 0 ==> r@.len() == roster::rows_of(
            app.statuses@,
        ).len(),
        forall|i: int|
            0 <= i < roster::rows_of(app.statuses@).len() ==> {
                &&& (#[trigger] r@[i]).line@ == row_listed(*app, figures@, filled@, i, now.at())
                &&& r@[i].selected == (app.index() == Some(i as usize))
            },
{
    let rows = app.rows();
    let selected = app.selected_index();
    let mut out: Vec<Listed> = Vec::new();
    if rows.len() == 0 {
        let line = Line::of(
            "no accounts discovered yet — waiting for the daemon".to_owned(),
            theme::fg(Color::DarkGray),
        );
        out.push(Listed { line, selected: false });
        return out;
    }
    let mut i: usize = 0;
    while i < rows.len()
        invariant
            i <= rows.len(),
            out@.len() == i,
            rows@ == roster::rows_of(app.statuses@),
            forall|k: int| 0 <= k < rows@.len() ==> roster::refers(app.statuses@, #[trigger] rows@[k]),
            header::covers(figures@, app.statuses@),
            counts(filled@, app.statuses@),
            selected == app.index(),
            forall|k: int|
                0 <= k < i ==> {
                    &&& (#[trigger] out@[k]).line@ == row_listed(
                        *app,
                        figures@,
                        filled@,
                        k,
                        now.at(),
                    )
                    &&& out@[k].selected == (app.index() == Some(k as usize))
                },
        decreases rows.len() - i,
    {
        let row = rows[i];
        assert(roster::refers(app.statuses@, rows@[i as int]));
        let status = &app.statuses[row.account];
        let line = match row.window {
            None => list_account(status, now),
            Some(w) => {
                assert(figures@[row.account as int]@.len() == status.windows@.len());
                assert(filled@[row.account as int]@.len() == status.windows@.len());
                let own = &figures[row.account][w];
                list_window(
                    &status.windows[w].window,
                    own.quotient,
                    &own.printed,
                    filled[row.account][w],
                    now,
                )
            },
        };
        let chosen = match selected {
            Some(s) => s == i,
            None => false,
        };
        out.push(Listed { line, selected: chosen });
        i += 1;
    }
    out
}

/// A reading without its unit, e.g. "37/80" or "42".
pub open spec fn reading_words(snapshot: QuotaSnapshot, printed: Printed) -> Seq<char> {
    match snapshot.limit {
        Some(_) => printed.used@ + "/"@ + printed.limit@,
        None => printed.used@,
    }
}

/// A reading without its unit, e.g. "37/80" or "42".
pub fn usage_text_snapshot(snapshot: &QuotaSnapshot, printed: &Printed) -> (r: String)
    ensures
        r@ == reading_words(*snapshot, *printed),
{
    match snapshot.limit {
        Some(_) => printed.used.clone().concat("/").concat(printed.limit.as_str()),
        None => printed.used.clone(),
    }
}

/// What stands under a sparkline of some readings: how many there are, the
/// latest one, whose numbers are `printed`, and the greatest. `None` when there
/// are none to draw.
pub fn history_caption(snapshots: &Vec<QuotaSnapshot>, printed: &Printed, greatest: &str) -> (r:
    Option<String>)
    ensures
        match r {
            Some(words) => snapshots@.len() > 0 && words@ == " "@ + text::decimal(snapshots@.len())
                + " points, latest "@ + reading_words(snapshots@.last(), *printed) + " max "@
                + greatest@ + " "@,
            None => snapshots@.len() == 0,
        },
{
    if snapshots.len() == 0 {
        return None;
    }
    let points: usize = snapshots.len();
    let latest = usage_text_snapshot(&snapshots[points - 1], printed);
    Some(
        " ".to_owned().concat(text::decimal_of(points as u64).as_str()).concat(
            " points, latest ",
        ).concat(latest.as_str()).concat(" max ").concat(greatest).concat(" "),
    )
}

/// A poll on one line.
pub fn list_poll(event: &PollEvent) -> (r: Line)
    ensures
        r@ == seq![
            spans::span(
                formats::time_of_day(event.ts.at()) + "  "@ + event.provider@ + "/"@
                    + event.account@ + "  "@,
                theme::plain(),
            ),
            spans::span(
                formats::outcome_words(event.outcome),
                theme::fg(outcome_color(*event)),
            ),
            spans::span(
                "  "@ + text::decimal(event.latency_ms as nat) + "ms"@,
                theme::fg(Color::DarkGray),
            ),
        ],
{
    let (words, color) = colored_outcome(event);
    let mut line = Line::new();
    line.push(
        formats::format_time_of_day(event.ts).concat("  ").concat(
            event.provider.as_str(),
        ).concat("/").concat(event.account.as_str()).concat("  "),
        theme::plain(),
    );
    line.push(words, theme::fg(color));
    line.push(
        "  ".to_owned().concat(text::decimal_of(event.latency_ms as u64).as_str()).concat("ms"),
        theme::fg(Color::DarkGray),
    );
    line
}

/// A provider on one line.
pub fn list_provider(health: &ProviderHealth) -> (r: Line)
    ensures
        ({
            let counted = health.provider@ + "  accounts: "@ + text::decimal(
                health.accounts@.len(),
            ) + "  consecutive failures: "@ + text::decimal(
                health.consecutive_failures as nat,
            );
            r@ == seq![
                spans::span(
                    match health.last_error {
                        Some(error) => counted + "  last error: "@ + error@,
                        None => counted,
                    },
                    theme::fg(
                        if health.consecutive_failures == 0 {
                            Color::Green
                        } else {
                            Color::Red
                        },
                    ),
                ),
            ]
        }),
{
    let color = if health.consecutive_failures == 0 {
        Color::Green
    } else {
        Color::Red
    };
    let accounts: usize = health.accounts.len();
    let counted = health.provider.clone().concat("  accounts: ").concat(
        text::decimal_of(accounts as u64).as_str(),
    ).concat("  consecutive failures: ").concat(
        text::decimal_of(health.consecutive_failures as u64).as_str(),
    );
    let words = match &health.last_error {
        Some(error) => counted.concat("  last error: ").concat(error.as_str()),
        None => counted,
    };
    Line::of(words, theme::fg(color))
}

/// The status line.
pub open spec fn status(app: App, now: int) -> Seq<SpanData> {
    match app.error {
        Some(error) => seq![spans::span(" "@ + error@, theme::fg(Color::Red))],
        None => if app.disconnected {
            seq![
                spans::span(" daemon unreachable — reconnecting…"@, theme::fg(Color::Yellow)),
            ]
        } else {
            let updated = match app.last_update {
                Some(ts) => "updated "@ + formats::elapsed(ts.at(), now),
                None => "no updates yet"@,
            };
            seq![
                spans::span(
                    " r poll  R poll all  h history  l log  p providers  q quit  Q stop daemon "@,
                    theme::fg(Color::DarkGray),
                ),
                spans::span("| "@ + updated, theme::fg(Color::DarkGray)),
            ]
        },
    }
}

/// The status line: an error, a lost connection, or the keys and how fresh the
/// listing is.
pub fn status_line(app: &App, now: Timestamp) -> (r: Line)
    ensures
        r@ == status(*app, now.at()),
{
    if let Some(error) = &app.error {
        return Line::of(" ".to_owned().concat(error.as_str()), theme::fg(Color::Red));
    }
    if app.disconnected {
        return Line::of(
            " daemon unreachable — reconnecting…".to_owned(),
            theme::fg(Color::Yellow),
        );
    }
    let updated = match app.last_update {
        Some(ts) => "updated ".to_owned().concat(formats::format_elapsed(ts, now).as_str()),
        None => "no updates yet".to_owned(),
    };
    let mut line = Line::new();
    line.say(
        " r poll  R poll all  h history  l log  p providers  q quit  Q stop daemon ",
        theme::fg(Color::DarkGray),
    );
    line.push("| ".to_owned().concat(updated.as_str()), theme::fg(Color::DarkGray));
    line
}

/// A ratio is critical from nineteen twentieths on, a warning from four fifths on
/// below that, and well under that.
pub proof fn a_ratio_is_judged_by_fixed_thresholds(ratio: Amount)
    ensures
        ({
            let critical = (Amount { bits: 0x3fee_6666_6666_6666 }).le(ratio);
            let warned = (Amount { bits: 0x3fe9_9999_9999_999a }).le(ratio);
            &&& color_of(ratio) is Red <==> critical
            &&& color_of(ratio) is Yellow <==> warned && !critical
            &&& color_of(ratio) is Green <==> !warned && !critical
        }),
{
}

/// An account is listed by provider and label, with how its last poll went and
/// when that was.
pub proof fn an_account_is_listed_with_its_last_poll(status: AccountStatus, now: int)
    ensures
        ({
            let said = account_listed(status, now);
            &&& said[0].text == status.account.provider@ + " / "@ + status.account.label@
            &&& status.last_poll is None ==> said.len() == 2 && said[1].text
                == "  — not polled yet"@
            &&& status.last_poll matches Some(event) ==> {
                &&& said.len() == 4
                &&& said[1].text == "  — last poll "@
                &&& said[2].text == formats::outcome_words(event.outcome)
                &&& event.outcome is Success ==> said[2].style.fg == Some(Color::Green)
                &&& event.outcome !is Success ==> said[2].style.fg == Some(Color::Red)
                &&& said[3].text == " ("@ + formats::elapsed(event.ts.at(), now) + ")"@
            }
        }),
{
}

/// A window is listed with a bar of twenty cells in its color, or dots where it
/// has no ratio, its use in words, and its reset if it has one.
pub proof fn a_window_is_listed_with_its_use(
    window: QuotaWindow,
    quotient: Amount,
    printed: Printed,
    filled: int,
    now: int,
)
    ensures
        ({
            let said = window_listed(window, quotient, printed, filled, now);
            let ratio = crate::domain::utilization_of(window.unit, window.limit, quotient);
            &&& ratio matches Some(r) ==> said[1].text == formats::bar(filled, 20)
                && said[1].style.fg == Some(color_of(r))
            &&& ratio is None ==> said[1].text == "····················"@
            &&& said[2].text == "  "@ + window.label@ + " — "@ + formats::usage_words(
                window,
                printed,
            )
            &&& window.reset_at is None ==> said.len() == 3
            &&& window.reset_at matches Some(at) ==> said.len() == 4 && said[3].text
                == "  resets in "@ + formats::countdown(at.at(), now)
        }),
{
}

/// Each row is listed as what it is of.
pub proof fn each_row_is_listed_as_what_it_is_of(
    app: App,
    figures: Seq<Vec<Figures>>,
    filled: Seq<Vec<usize>>,
    i: int,
    now: int,
)
    ensures
        ({
            let row = roster::rows_of(app.statuses@)[i];
            let status = app.statuses@[row.account as int];
            &&& row.window is None ==> row_listed(app, figures, filled, i, now) == account_listed(
                status,
                now,
            )
            &&& row.window matches Some(w) ==> row_listed(app, figures, filled, i, now)
                == window_listed(
                status.windows@[w as int].window,
                figures[row.account as int]@[w as int].quotient,
                figures[row.account as int]@[w as int].printed,
                filled[row.account as int]@[w as int] as int,
                now,
            )
        }),
{
}

/// A reading is told against its limit, if it has one.
pub proof fn a_stored_reading_is_told_against_its_limit(snapshot: QuotaSnapshot, printed: Printed)
    ensures
        snapshot.limit is Some ==> reading_words(snapshot, printed) == printed.used@ + "/"@
            + printed.limit@,
        snapshot.limit is None ==> reading_words(snapshot, printed) == printed.used@,
{
}

/// The status line shows an error before a lost connection, and that before the
/// keys and the last update.
pub proof fn an_error_comes_before_everything(app: App, now: int)
    ensures
        app.error matches Some(e) ==> status(app, now).len() == 1 && status(app, now)[0].text
            == " "@ + e@ && status(app, now)[0].style.fg == Some(Color::Red),
        app.error is None && app.disconnected ==> status(app, now).len() == 1 && status(
            app,
            now,
        )[0].text == " daemon unreachable — reconnecting…"@,
        app.error is None && !app.disconnected ==> status(app, now).len() == 2 && status(
            app,
            now,
        )[1].text == "| "@ + if app.last_update is Some {
            "updated "@ + formats::elapsed((app.last_update->0).at(), now)
        } else {
            "no updates yet"@
        },
{
}

} // verus!
