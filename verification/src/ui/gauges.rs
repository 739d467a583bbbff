//! The quota list: account headers, window gauges, and the numbers derived
//! from each window.

use vstd::prelude::*;

use crate::amount::Amount;
use crate::app::roster;
use crate::app::roster::RowRef;
use crate::app::state::App;
use crate::metrics;
use crate::metrics::window;
use crate::metrics::EffectiveWindow;
use crate::protocol::wire::{AccountStatus, WindowView};
use crate::text;
use crate::time;
use crate::time::Timestamp;
use crate::ui::cells;
use crate::ui::cells::{pad_to_cells, truncate};
use crate::ui::formats;
use crate::ui::header;
use crate::ui::header::Figures;
use crate::ui::spans;
use crate::ui::spans::{Line, Page, SpanData};
use crate::ui::theme;
use crate::ui::theme::Color;

verus! {

// ---------------------------------------------------------------------------
// Account headers
// ---------------------------------------------------------------------------

/// The account header row.
pub open spec fn account_header(status: AccountStatus, now: int) -> Seq<SpanData> {
    let named = seq![
        spans::span(header::account_name(status.account), theme::bold(theme::plain())),
    ];
    match status.last_poll {
        Some(event) => {
            let failed = !(event.outcome is Success);
            let polled = named.push(spans::span("  last poll "@, theme::dim())).push(
                spans::span(
                    cells::truncated(formats::outcome_words(event.outcome), 44),
                    theme::fg(
                        if failed {
                            theme::CRIT
                        } else {
                            theme::OK
                        },
                    ),
                ),
            ).push(
                spans::span("  "@ + formats::elapsed(event.ts.at(), now), theme::dim()),
            ).push(
                spans::span(
                    "  "@ + text::decimal(event.latency_ms as nat) + "ms"@,
                    theme::dim(),
                ),
            );
            match status.last_success {
                Some(ts) => if failed {
                    polled.push(
                        spans::span(
                            "  · showing data from "@ + formats::elapsed(ts.at(), now),
                            theme::fg(theme::WARN),
                        ),
                    )
                } else {
                    polled
                },
                None => polled,
            }
        },
        None => named.push(spans::span("  not polled yet"@, theme::dim())),
    }
}

/// Account header row: identity, last poll outcome, staleness of the data.
pub fn account_line(status: &AccountStatus, now: Timestamp) -> (r: Line)
    ensures
        r@ == account_header(*status, now.at()),
{
    let mut line = Line::new();
    line.push(header::name_of(&status.account), theme::bold(theme::plain()));
    match &status.last_poll {
        Some(event) => {
            let (words, failed) = formats::outcome_text(event);
            let color = if failed {
                theme::CRIT
            } else {
                theme::OK
            };
            line.say("  last poll ", theme::dim());
            line.push(truncate(words.as_str(), 44), theme::fg(color));
            line.push(
                "  ".to_owned().concat(formats::format_elapsed(event.ts, now).as_str()),
                theme::dim(),
            );
            line.push(
                "  ".to_owned().concat(text::decimal_of(event.latency_ms as u64).as_str()).concat(
                    "ms",
                ),
                theme::dim(),
            );
            // When the newest poll failed, the gauges below it are from an
            // older successful one — say so rather than showing them as live.
            if failed {
                if let Some(ts) = status.last_success {
                    line.push(
                        "  · showing data from ".to_owned().concat(
                            formats::format_elapsed(ts, now).as_str(),
                        ),
                        theme::fg(theme::WARN),
                    );
                }
            }
        },
        None => line.say("  not polled yet", theme::dim()),
    }
    line
}

// ---------------------------------------------------------------------------
// Gauges
// ---------------------------------------------------------------------------

/// Cells before the label.
pub const INDENT: usize = 2;

/// Cells of the label column.
pub const LABEL: usize = 24;

/// Characters of the usage column.
pub const USAGE: usize = 7;

/// Characters of the reset column.
pub const RESET: usize = 11;

/// Cells the pace column needs.
pub const PACE: usize = 15;

/// Narrowest bar still worth drawing.
pub const MIN_BAR: usize = 8;

/// Widest bar drawn.
pub const MAX_BAR: usize = 48;

/// How a gauge line of some width is divided.
#[derive(Debug, Clone, Copy, PartialEq, Eq, Structural)]
pub struct Columns {
    /// Cells of the bar.
    pub bar: usize,
    /// Whether there is a pace column.
    pub pace: bool,
}

/// How a gauge line of `width` cells is divided: the bar gets whatever the
/// fixed columns do not need, and the pace column goes entirely before the bar
/// may shrink into illegibility.
pub open spec fn columns(width: int, with_pace: bool) -> Columns {
    let fixed = INDENT + LABEL + USAGE + RESET;
    let pace = with_pace && width >= fixed + PACE + MIN_BAR;
    Columns {
        bar: crate::num::limited(
            width - fixed - (if pace {
                PACE as int
            } else {
                0
            }),
            MIN_BAR as int,
            MAX_BAR as int,
        ) as usize,
        pace,
    }
}

/// How a gauge line of `width` cells is divided.
pub fn gauge_columns(width: usize, with_pace: bool) -> (r: Columns)
    ensures
        r == columns(width as int, with_pace),
        MIN_BAR <= r.bar <= MAX_BAR,
{
    let fixed: usize = INDENT + LABEL + USAGE + RESET;
    let pace = with_pace && width >= fixed + PACE + MIN_BAR;
    let taken: usize = if pace {
        fixed + PACE
    } else {
        fixed
    };
    let left: usize = if width > taken {
        width - taken
    } else {
        0
    };
    let bar: usize = if left < MIN_BAR {
        MIN_BAR
    } else if left > MAX_BAR {
        MAX_BAR
    } else {
        left
    };
    Columns { bar, pace }
}

/// A burn rate of one and a half, and above, is critical.
pub const PACE_CRITICAL: u64 = 0x3ff8_0000_0000_0000;

/// A burn rate of 1.05, and above, is worth a warning.
pub const PACE_FAST: u64 = 0x3ff0_cccc_cccc_cccd;

/// A burn rate of 0.8, and below, is comfortable.
pub const PACE_SLOW: u64 = 0x3fe9_9999_9999_999a;

/// Color for a burn rate.
pub open spec fn pace_color(pace: Amount) -> Color {
    if (Amount { bits: PACE_CRITICAL }).le(pace) {
        theme::CRIT
    } else if (Amount { bits: PACE_FAST }).le(pace) {
        theme::WARN
    } else if pace.le(Amount { bits: PACE_SLOW }) {
        theme::OK
    } else {
        theme::DIM
    }
}

/// Glyph for a burn rate.
pub open spec fn pace_glyph(pace: Amount) -> Seq<char> {
    if (Amount { bits: PACE_FAST }).le(pace) || (Amount { bits: PACE_CRITICAL }).le(pace) {
        "▲"@
    } else if pace.le(Amount { bits: PACE_SLOW }) {
        "▼"@
    } else {
        "="@
    }
}

/// Glyph and colour for a burn rate, whether it is the average since the
/// window opened or a rate measured over a shorter stretch.
pub fn pace_style(pace: Amount) -> (r: (&'static str, Color))
    ensures
        r.0@ == pace_glyph(pace),
        r.1 == pace_color(pace),
{
    if (Amount { bits: PACE_CRITICAL }).at_most(pace) {
        ("▲", theme::CRIT)
    } else if (Amount { bits: PACE_FAST }).at_most(pace) {
        ("▲", theme::WARN)
    } else if pace.at_most(Amount { bits: PACE_SLOW }) {
        ("▼", theme::OK)
    } else {
        ("=", theme::DIM)
    }
}

/// Whether a view's window began, by the provider's arithmetic, at an instant
/// that can be written.
pub open spec fn placeable(view: WindowView) -> bool {
    view.window.start() is Some ==> time::representable(view.window.start()->0)
}

/// The pace column.
pub open spec fn pace_column(view: WindowView, figures: Figures, now: Timestamp) -> SpanData {
    match window::effective_of(view, figures.quotient, now) {
        Some(w) => if window::pace_of(w, now) is Some {
            spans::span(
                "  "@ + pace_glyph(figures.pace.rate) + " "@ + figures.pace.text@ + "× pace"@,
                theme::fg(pace_color(figures.pace.rate)),
            )
        } else {
            spans::span(""@, theme::plain())
        },
        None => spans::span(""@, theme::plain()),
    }
}

/// "▲ 1.3× pace" / "▼ 0.5× pace" — usage measured against the clock.
fn push_pace(line: &mut Line, view: &WindowView, figures: &Figures, now: Timestamp)
    requires
        placeable(*view),
    ensures
        final(line)@ == old(line)@.push(pace_column(*view, *figures, now)),
{
    if let Some(w) = metrics::effective_window(view, figures.quotient, now) {
        if metrics::pace(&w, now).is_some() {
            let (glyph, color) = pace_style(figures.pace.rate);
            line.push(
                "  ".to_owned().concat(glyph).concat(" ").concat(
                    figures.pace.text.as_str(),
                ).concat("× pace"),
                theme::fg(color),
            );
            return;
        }
    }
    line.say("", theme::plain());
}

/// `n` middle dots.
pub open spec fn dots(n: nat) -> Seq<char> {
    Seq::new(n, |i: int| '·')
}

/// A window's label in its column.
pub open spec fn label_column(label: Seq<char>) -> Seq<char> {
    let cut = cells::truncated(label, (LABEL - 1) as usize);
    if cells::cells_of(cut) < LABEL {
        cut + text::blanks((LABEL - cells::cells_of(cut)) as nat)
    } else {
        cut
    }
}

/// The gauge line.
pub open spec fn gauge(
    view: WindowView,
    figures: Figures,
    width: int,
    now: Timestamp,
    with_pace: bool,
) -> Seq<SpanData> {
    let laid = columns(width, with_pace);
    let used = text::padded_left(
        formats::usage_brief(view.window, figures.printed),
        USAGE as nat,
    );
    let named = seq![
        spans::span(text::blanks(INDENT as nat), theme::plain()),
        spans::span(label_column(view.window.label@), theme::plain()),
    ];
    let filled = match header::ratio_of(view, figures) {
        Some(ratio) => {
            let color = theme::severity_of(ratio, view.hint);
            named.push(
                spans::span(
                    formats::fine_bar(figures.eighths as int, laid.bar as nat),
                    theme::fg(color),
                ),
            ).push(spans::span(used, theme::bold(theme::fg(color))))
        },
        None => named.push(spans::span(dots(laid.bar as nat), theme::dim())).push(
            spans::span(used, theme::dim()),
        ),
    };
    let reset = filled.push(
        match view.window.reset_at {
            Some(reset_at) => spans::span(
                text::padded_left(
                    "⟳ "@ + formats::countdown(reset_at.at(), now.at()),
                    RESET as nat,
                ),
                theme::dim(),
            ),
            None => spans::span(text::blanks(RESET as nat), theme::plain()),
        },
    );
    if laid.pace {
        reset.push(pace_column(view, figures, now))
    } else {
        reset
    }
}

/// The gauge line: label, bar, usage, reset countdown, and — only when the
/// derived numbers have no line of their own — pace.
pub fn gauge_line(
    view: &WindowView,
    figures: &Figures,
    width: usize,
    now: Timestamp,
    with_pace: bool,
) -> (r: Line)
    requires
        placeable(*view),
    ensures
        r@ == gauge(*view, *figures, width as int, now, with_pace),
        cells::cells_of(r@[1].text) == LABEL,
{
    let window = &view.window;
    let laid = gauge_columns(width, with_pace);
    let mut line = Line::new();
    line.push(text::blank(INDENT), theme::plain());
    // Padded by cells, not by char count: a label carrying any wide glyph is
    // otherwise padded too little, and every column after it on the row shifts
    // right by the difference.
    let label = pad_to_cells(truncate(window.label.as_str(), LABEL - 1).as_str(), LABEL);
    assert(label@ =~= label_column(window.label@));
    line.push(label, theme::plain());
    let used = text::pad_left(
        formats::usage_short(window, &figures.printed).as_str(),
        USAGE,
    );
    match window.utilization(figures.quotient) {
        Some(ratio) => {
            let color = theme::severity(ratio, &view.hint);
            line.push(formats::text_bar_fine(figures.eighths, laid.bar), theme::fg(color));
            line.push(used, theme::bold(theme::fg(color)));
        },
        None => {
            // No limit published: there is no ratio to draw, only a count.
            let mut bar = String::new();
            text::push_copies(&mut bar, '·', laid.bar);
            assert(bar@ =~= dots(laid.bar as nat));
            line.push(bar, theme::dim());
            line.push(used, theme::dim());
        },
    }
    match window.reset_at {
        Some(reset_at) => line.push(
            text::pad_left(
                "⟳ ".to_owned().concat(
                    formats::format_countdown(reset_at, now).as_str(),
                ).as_str(),
                RESET,
            ),
            theme::dim(),
        ),
        None => line.push(text::blank(RESET), theme::plain()),
    }
    if laid.pace {
        push_pace(&mut line, view, figures, now);
    }
    line
}

// ---------------------------------------------------------------------------
// Derived numbers
// ---------------------------------------------------------------------------

/// Cells before the derived numbers.
pub const DERIVED_INDENT: usize = 4;

/// What stands between two derived numbers.
pub const SEPARATOR: &'static str = " · ";

/// What marks a number measured from a start that is only bracketed.
pub open spec fn mark(w: EffectiveWindow) -> Seq<char> {
    if w.span_secs() > 0 && window::secs_of(w.start_uncertainty as int)
        * window::TRUSTED_BRACKET_PARTS > w.span_secs() {
        "~"@
    } else {
        ""@
    }
}

/// The average burn rate.
pub open spec fn pace_field(w: EffectiveWindow, figures: Figures, now: Timestamp) -> Seq<
    SpanData,
> {
    if window::pace_of(w, now) is Some {
        seq![
            spans::span(
                pace_glyph(figures.pace.rate) + " "@ + mark(w) + figures.pace.text@ + "× pace"@,
                theme::fg(pace_color(figures.pace.rate)),
            ),
        ]
    } else {
        seq![]
    }
}

/// The recent burn rate.
pub open spec fn recent_field(figures: Figures) -> Seq<SpanData> {
    match figures.recent {
        Some(recent) => seq![
            spans::span(
                pace_glyph(recent.rate) + " "@ + recent.text@ + "× now"@,
                theme::fg(pace_color(recent.rate)),
            ),
        ],
        None => seq![],
    }
}

/// Seconds the headroom lasts at the window's pace.
pub open spec fn runway_of(w: EffectiveWindow, figures: Figures, now: Timestamp) -> Option<i64> {
    window::runway_of(w, figures.pace.rate, figures.projected, now)
}

/// How long the headroom lasts. It warns only when the cap is what actually
/// arrives first: a runway longer than the window has left is information, not
/// an alarm — the rollover gets there before the cap does.
pub open spec fn runway_field(w: EffectiveWindow, figures: Figures, now: Timestamp) -> Seq<
    SpanData,
> {
    match runway_of(w, figures, now) {
        Some(secs) => {
            let color = if now.at() + secs * time::NANOS_PER_SEC < w.reset_at.at() {
                theme::WARN
            } else {
                theme::DIM
            };
            let words = if secs <= 0 {
                "at cap"@
            } else {
                "cap in "@ + mark(w) + formats::humanized(secs as int)
            };
            seq![spans::span(words, theme::fg(color))]
        },
        None => seq![],
    }
}

/// The affordable pace.
pub open spec fn afford_field(w: EffectiveWindow, figures: Figures, now: Timestamp) -> Seq<
    SpanData,
> {
    if window::affordable_of(w, now) is Some {
        seq![spans::span("afford "@ + figures.afford@ + "×"@, theme::dim())]
    } else {
        seq![]
    }
}

/// Where the current pace lands.
pub open spec fn projection_field(w: EffectiveWindow, figures: Figures, now: Timestamp) -> Seq<
    SpanData,
> {
    if window::pace_of(w, now) is Some {
        seq![
            spans::span("→"@ + mark(w) + figures.pace.percent@ + "% at reset"@, theme::dim()),
        ]
    } else {
        seq![]
    }
}

/// The derived numbers, by how much each one adds: the two burn rates first
/// and together, since the whole point of the recent one is being read against
/// the average; then the runway that says what the pace costs; then the pace
/// still affordable; and last the projection — which is *numerically
/// identical* to pace and so is the field worth losing first.
pub open spec fn fields(w: EffectiveWindow, figures: Figures, now: Timestamp) -> Seq<SpanData> {
    pace_field(w, figures, now) + recent_field(figures) + runway_field(w, figures, now)
        + afford_field(w, figures, now) + projection_field(w, figures, now)
}

/// The derived numbers of a window.
///
/// Fields measured from the window's start are marked when that start is
/// itself only bracketed — a restart seen across an outage can be days wide.
/// Marked rather than withheld: the figure is still the best there is, and
/// hiding it would lose the signal a wide bracket is usually reporting.
/// `afford` and `now` carry no mark because neither is measured from the start.
pub fn derived_fields(w: &EffectiveWindow, figures: &Figures, now: Timestamp) -> (r: Line)
    requires
        w.start_uncertainty > i128::MIN,
    ensures
        r@ == fields(*w, *figures, now),
{
    let mark = if metrics::start_is_uncertain(w) {
        "~"
    } else {
        ""
    };
    let mut line = Line::new();
    let pace = metrics::pace(w, now).is_some();
    let (glyph, color) = pace_style(figures.pace.rate);
    if pace {
        line.push(
            glyph.to_owned().concat(" ").concat(mark).concat(figures.pace.text.as_str()).concat(
                "× pace",
            ),
            theme::fg(color),
        );
    }
    let ghost f1 = pace_field(*w, *figures, now);
    assert(line@ =~= f1);
    if let Some(recent) = &figures.recent {
        let (glyph, color) = pace_style(recent.rate);
        line.push(
            glyph.to_owned().concat(" ").concat(recent.text.as_str()).concat("× now"),
            theme::fg(color),
        );
    }
    let ghost f2 = f1 + recent_field(*figures);
    assert(line@ =~= f2);
    if let Some(secs) = metrics::runway(w, figures.pace.rate, figures.projected, now) {
        let words = if secs <= 0 {
            "at cap".to_owned()
        } else {
            "cap in ".to_owned().concat(mark).concat(formats::format_span(secs).as_str())
        };
        let color = if metrics::cap_binds(w, secs, now) {
            theme::WARN
        } else {
            theme::DIM
        };
        line.push(words, theme::fg(color));
    }
    let ghost f3 = f2 + runway_field(*w, *figures, now);
    assert(line@ =~= f3);
    if metrics::affordable_pace(w, now).is_some() {
        line.push(
            "afford ".to_owned().concat(figures.afford.as_str()).concat("×"),
            theme::dim(),
        );
    }
    let ghost f4 = f3 + afford_field(*w, *figures, now);
    assert(line@ =~= f4);
    if pace {
        line.push(
            "→".to_owned().concat(mark).concat(figures.pace.percent.as_str()).concat(
                "% at reset",
            ),
            theme::dim(),
        );
    }
    assert(line@ =~= f4 + projection_field(*w, *figures, now));
    line
}

/// Cells the first `n` fields take up, indent and separators included.
pub open spec fn cost(fields: Seq<SpanData>, n: nat) -> nat
    decreases n,
{
    if n == 0 {
        DERIVED_INDENT as nat
    } else {
        let before = cost(fields, (n - 1) as nat);
        before + cells::cells_of(fields[n - 1].text) + if before > DERIVED_INDENT {
            cells::cells_of(SEPARATOR@)
        } else {
            0
        }
    }
}

/// The first `n` fields, indented and separated.
pub open spec fn set_out(fields: Seq<SpanData>, n: nat) -> Seq<SpanData>
    decreases n,
{
    if n == 0 {
        seq![spans::span(text::blanks(DERIVED_INDENT as nat), theme::plain())]
    } else {
        let before = set_out(fields, (n - 1) as nat);
        let apart = if cost(fields, (n - 1) as nat) > DERIVED_INDENT {
            before.push(spans::span(SEPARATOR@, theme::dim()))
        } else {
            before
        };
        apart.push(fields[n - 1])
    }
}

/// How many of the first `n` fields fit into `width` cells: as many as stand
/// left of the first that does not.
pub open spec fn room_for(fields: Seq<SpanData>, n: nat, width: int) -> nat
    decreases n,
{
    if n == 0 || cost(fields, n) <= width {
        n
    } else {
        room_for(fields, (n - 1) as nat, width)
    }
}

/// The continuation line: the fields that fit, if any does.
pub open spec fn derived(
    view: WindowView,
    figures: Figures,
    width: int,
    now: Timestamp,
) -> Option<Seq<SpanData>> {
    match window::effective_of(view, figures.quotient, now) {
        None => None,
        Some(w) => {
            let all = fields(w, figures, now);
            let n = room_for(all, all.len(), width);
            if n == 0 {
                None
            } else {
                Some(set_out(all, n))
            }
        },
    }
}

/// Fields cost more the more of them there are.
proof fn cost_rises(fields: Seq<SpanData>, m: nat, n: nat)
    requires
        m <= n,
    ensures
        cost(fields, m) <= cost(fields, n),
    decreases n,
{
    if m < n {
        cost_rises(fields, m, (n - 1) as nat);
    }
}

/// Where the first field that does not fit stands is how many fit.
proof fn room_stops_at(fields: Seq<SpanData>, i: nat, n: nat, width: int)
    requires
        i < n,
        i == 0 || cost(fields, i) <= width,
        cost(fields, i + 1) > width,
    ensures
        room_for(fields, n, width) == i,
    decreases n,
{
    cost_rises(fields, i + 1, n);
    if n > i + 1 {
        room_stops_at(fields, i, (n - 1) as nat, width);
    } else if i > 0 {
        assert(room_for(fields, i, width) == i);
    }
}

/// The continuation line: what the gauge cannot say — how fast the window is
/// going, how long that lasts, and how fast it could afford to go.
///
/// Fields are appended left to right only while they fit, so a narrow terminal
/// sheds them from the right. `None` when the window publishes no `reset_at`:
/// every one of these is derived from the window's own start, so there is
/// nothing to say.
pub fn derived_line(
    view: &WindowView,
    figures: &Figures,
    width: usize,
    now: Timestamp,
) -> (r: Option<Line>)
    requires
        placeable(*view),
    ensures
        match (r, derived(*view, *figures, width as int, now)) {
            (None, None) => true,
            (Some(line), Some(said)) => line@ == said,
            _ => false,
        },
{
    let w = match metrics::effective_window(view, figures.quotient, now) {
        Some(w) => w,
        None => return None,
    };
    let all = derived_fields(&w, figures, now);
    let ghost said = all@;
    let separator: usize = cells::cells(SEPARATOR);
    let mut line = Line::new();
    line.push(text::blank(DERIVED_INDENT), theme::plain());
    let mut used: u128 = DERIVED_INDENT as u128;
    let mut i: usize = 0;
    while i < all.spans.len()
        invariant_except_break
            i <= all.spans.len(),
            said == all@,
            said == fields(w, *figures, now),
            separator == if cells::cells_of(SEPARATOR@) <= usize::MAX {
                cells::cells_of(SEPARATOR@)
            } else {
                usize::MAX as nat
            },
            line@ == set_out(said, i as nat),
            used == cost(said, i as nat),
            used >= DERIVED_INDENT,
            i == 0 || used <= width,
        ensures
            i <= all.spans.len(),
            line@ == set_out(said, i as nat),
            i == 0 || cost(said, i as nat) <= width,
            i < all.spans.len() ==> cost(said, (i + 1) as nat) > width,
        decreases all.spans.len() - i,
    {
        let field = &all.spans[i];
        let apart: usize = if used > DERIVED_INDENT as u128 {
            separator
        } else {
            0
        };
        let more: u128 = cells::cells(field.text.as_str()) as u128 + apart as u128;
        assert(said[i as int].text == field.text@);
        if used + more > width as u128 {
            break;
        }
        if used > DERIVED_INDENT as u128 {
            line.say(SEPARATOR, theme::dim());
        }
        used = used + more;
        line.push(field.text.clone(), field.style);
        i += 1;
    }
    proof {
        if i < all.spans.len() {
            room_stops_at(said, i as nat, said.len(), width as int);
        }
    }
    if i == 0 {
        None
    } else {
        Some(line)
    }
}

/// Cells of the spans after the first.
pub open spec fn cells_after_indent(line: Seq<SpanData>) -> nat
    decreases line.len(),
{
    if line.len() <= 1 {
        0
    } else {
        cells_after_indent(line.drop_last()) + cells::cells_of(line.last().text)
    }
}

proof fn set_out_costs(fields: Seq<SpanData>, n: nat)
    ensures
        set_out(fields, n).len() > n,
        DERIVED_INDENT + cells_after_indent(set_out(fields, n)) == cost(fields, n),
    decreases n,
{
    if n > 0 {
        set_out_costs(fields, (n - 1) as nat);
        let before = set_out(fields, (n - 1) as nat);
        if cost(fields, (n - 1) as nat) > DERIVED_INDENT {
            let apart = before.push(spans::span(SEPARATOR@, theme::dim()));
            assert(apart.drop_last() =~= before);
            assert(cells_after_indent(apart) == cells_after_indent(before) + cells::cells_of(
                SEPARATOR@,
            ));
            assert(apart.push(fields[n - 1]).drop_last() =~= apart);
        } else {
            assert(before.push(fields[n - 1]).drop_last() =~= before);
        }
    }
}

proof fn room_is_enough(fields: Seq<SpanData>, n: nat, width: int)
    ensures
        room_for(fields, n, width) <= n,
        room_for(fields, n, width) > 0 ==> cost(fields, room_for(fields, n, width)) <= width,
    decreases n,
{
    if n > 0 && cost(fields, n) > width {
        room_is_enough(fields, (n - 1) as nat, width);
    }
}

/// The continuation line never draws more cells than it was given, whatever
/// its fields are made of.
pub proof fn the_derived_line_stays_within_its_width(
    view: WindowView,
    figures: Figures,
    width: int,
    now: Timestamp,
)
    ensures
        derived(view, figures, width, now) matches Some(line) ==> DERIVED_INDENT
            + cells_after_indent(line) <= width,
{
    if let Some(w) = window::effective_of(view, figures.quotient, now) {
        let all = fields(w, figures, now);
        let n = room_for(all, all.len(), width);
        room_is_enough(all, all.len(), width);
        set_out_costs(all, n);
    }
}

// ---------------------------------------------------------------------------
// Rows
// ---------------------------------------------------------------------------

/// How many of the first `n` rows are windows.
pub open spec fn window_rows(rows: Seq<RowRef>, n: nat) -> nat
    decreases n,
{
    if n == 0 {
        0
    } else {
        window_rows(rows, (n - 1) as nat) + if rows[n - 1].window is Some {
            1nat
        } else {
            0
        }
    }
}

/// Whether the derived numbers get a line of their own: only while every row
/// can have one. Bars survive, continuation lines go first.
pub open spec fn has_room(rows: Seq<RowRef>, height: int) -> bool {
    rows.len() + window_rows(rows, rows.len()) <= height
}

/// Whether the derived numbers get a line of their own in a pane of `height`
/// rows.
pub fn two_line(rows: &Vec<RowRef>, height: usize) -> (r: bool)
    ensures
        r == has_room(rows@, height as int),
{
    let mut windows: u128 = 0;
    let mut i: usize = 0;
    while i < rows.len()
        invariant
            i <= rows.len(),
            windows == window_rows(rows@, i as nat),
            windows <= i,
        decreases rows.len() - i,
    {
        if rows[i].window.is_some() {
            windows = windows + 1;
        }
        i += 1;
    }
    rows.len() as u128 + windows <= height as u128
}

/// One window row: the gauge line, and under it — when the pane is tall enough
/// — the line of derived numbers.
pub open spec fn window_row(
    view: WindowView,
    figures: Figures,
    width: int,
    now: Timestamp,
    two_line: bool,
) -> Seq<Seq<SpanData>> {
    let bar = gauge(view, figures, width, now, !two_line);
    match derived(view, figures, width, now) {
        Some(line) => if two_line {
            seq![bar, line]
        } else {
            seq![bar]
        },
        None => seq![bar],
    }
}

/// One window row. With a line of its own for the derived numbers, the gauge
/// line has no pace column to reserve and the bar keeps those columns instead.
pub fn window_lines(
    view: &WindowView,
    figures: &Figures,
    width: usize,
    now: Timestamp,
    two_line: bool,
) -> (r: Page)
    requires
        placeable(*view),
    ensures
        r@ == window_row(*view, *figures, width as int, now, two_line),
{
    let mut page = Page::new();
    page.push(gauge_line(view, figures, width, now, !two_line));
    if two_line {
        if let Some(line) = derived_line(view, figures, width, now) {
            page.push(line);
        }
    }
    page
}

/// A row of the quota list.
pub open spec fn quota_row(
    statuses: Seq<AccountStatus>,
    figures: Seq<Vec<Figures>>,
    row: RowRef,
    width: int,
    now: Timestamp,
    two_line: bool,
) -> Seq<Seq<SpanData>> {
    let status = statuses[row.account as int];
    match row.window {
        None => seq![account_header(status, now.at())],
        Some(w) => window_row(
            status.windows@[w as int],
            figures[row.account as int]@[w as int],
            width,
            now,
            two_line,
        ),
    }
}

/// What the quota list says when no account is known.
pub open spec fn no_accounts() -> Seq<Seq<SpanData>> {
    seq![
        seq![
            spans::span(
                "  no accounts discovered yet — waiting for the daemon"@,
                theme::dim(),
            ),
        ],
    ]
}

/// The quota list, row by row, in a pane of `width` by `height`: account
/// headers and window gauges.
pub fn quota_rows(
    app: &App,
    figures: &Vec<Vec<Figures>>,
    width: usize,
    height: usize,
    now: Timestamp,
) -> (r: Vec<Page>)
    requires
        header::covers(figures@, app.statuses@),
        forall|a: int, w: int|
            0 <= a < app.statuses@.len() && 0 <= w < app.statuses@[a].windows@.len()
                ==> placeable(#[trigger] app.statuses@[a].windows@[w]),
    ensures
        roster::rows_of(app.statuses@).len() == 0 ==> r@.len() == 1 && r@[0]@ == no_accounts(),
        roster::rows_of(app.statuses@).len() > 0 ==> r@.len() == roster::rows_of(
            app.statuses@,
        ).len(),
        forall|i: int|
            0 <= i < roster::rows_of(app.statuses@).len() ==> (#[trigger] r@[i])@ == quota_row(
                app.statuses@,
                figures@,
                roster::rows_of(app.statuses@)[i],
                width as int,
                now,
                has_room(roster::rows_of(app.statuses@), height as int),
            ),
{
    let rows = app.rows();
    let two_line = two_line(&rows, height);
    let mut out: Vec<Page> = Vec::new();
    if rows.len() == 0 {
        let mut page = Page::new();
        page.say("  no accounts discovered yet — waiting for the daemon", theme::dim());
        assert(page@ =~= no_accounts());
        out.push(page);
        return out;
    }
    let mut i: usize = 0;
    while i < rows.len()
        invariant
            i <= rows.len(),
            out@.len() == i,
            rows@ == roster::rows_of(app.statuses@),
            forall|k: int| 0 <= k < rows@.len() ==> roster::refers(app.statuses@, #[trigger] rows@[k]),
            header::covers(figures@, app.statuses@),
            forall|a: int, w: int|
                0 <= a < app.statuses@.len() && 0 <= w < app.statuses@[a].windows@.len()
                    ==> placeable(#[trigger] app.statuses@[a].windows@[w]),
            two_line == has_room(rows@, height as int),
            forall|k: int|
                0 <= k < i ==> (#[trigger] out@[k])@ == quota_row(
                    app.statuses@,
                    figures@,
                    rows@[k],
                    width as int,
                    now,
                    two_line,
                ),
        decreases rows.len() - i,
    {
        let row = rows[i];
        assert(roster::refers(app.statuses@, rows@[i as int]));
        let status = &app.statuses[row.account];
        let page = match row.window {
            None => {
                let mut page = Page::new();
                page.push(account_line(status, now));
                page
            },
            Some(w) => {
                let view = &status.windows[w];
                assert(placeable(app.statuses@[row.account as int].windows@[w as int]));
                assert(figures@[row.account as int]@.len() == status.windows@.len());
                window_lines(view, &figures[row.account][w], width, now, two_line)
            },
        };
        assert(page@ =~= quota_row(app.statuses@, figures@, row, width as int, now, two_line));
        out.push(page);
        i += 1;
    }
    out
}

/// An account's header names it, and says how its last poll went, when it was and
/// how long it took; after a failure also how old the data on show is.
pub proof fn an_account_says_how_its_last_poll_went(status: AccountStatus, now: int)
    ensures
        ({
            let said = account_header(status, now);
            &&& said[0].text == status.account.provider@ + "/"@ + status.account.label@
                && said[0].style.bold
            &&& status.last_poll is None ==> said.len() == 2 && said[1].text == "  not polled yet"@
            &&& status.last_poll matches Some(event) ==> {
                let stale = !(event.outcome is Success) && status.last_success is Some;
                &&& said[2].text == cells::truncated(formats::outcome_words(event.outcome), 44)
                &&& said[2].style.fg == Some(
                    if event.outcome is Success {
                        Color::Green
                    } else {
                        Color::Red
                    },
                )
                &&& said[3].text == "  "@ + formats::elapsed(event.ts.at(), now)
                &&& said[4].text == "  "@ + text::decimal(event.latency_ms as nat) + "ms"@
                &&& !stale ==> said.len() == 5
                &&& stale ==> said.len() == 6 && said[5].text == "  · showing data from "@
                    + formats::elapsed((status.last_success->0).at(), now)
            }
        }),
{
}

/// The pace has a column where it is wanted and the bar keeps eight cells beside
/// it; the bar takes what the other columns leave, from eight to forty-eight
/// cells.
pub proof fn the_bar_takes_what_is_left(width: int, with_pace: bool)
    ensures
        columns(width, with_pace).pace <==> with_pace && width >= 67,
        8 <= columns(width, with_pace).bar <= 48,
        ({
            let left = width - 44 - if with_pace && width >= 67 {
                15int
            } else {
                0
            };
            8 <= left <= 48 ==> columns(width, with_pace).bar == left
        }),
        width >= 107 ==> columns(width, with_pace).bar == 48,
        width <= 52 ==> columns(width, with_pace).bar == 8,
{
}

/// A pace is critical from one and a half on, fast from one and a twentieth on,
/// slow up to four fifths, and even between; its sign points up, down or neither.
pub proof fn a_pace_is_judged_by_how_far_it_is_from_even(pace: Amount)
    ensures
        ({
            let critical = (Amount { bits: 0x3ff8_0000_0000_0000 }).le(pace);
            let fast = (Amount { bits: 0x3ff0_cccc_cccc_cccd }).le(pace);
            let slow = pace.le(Amount { bits: 0x3fe9_9999_9999_999a });
            &&& critical ==> pace_color(pace) is Red && pace_glyph(pace) == "▲"@
            &&& !critical && fast ==> pace_color(pace) is Yellow && pace_glyph(pace) == "▲"@
            &&& slow ==> pace_color(pace) is Green && pace_glyph(pace) == "▼"@
            &&& !critical && !fast && !slow ==> pace_color(pace) is DarkGray && pace_glyph(pace)
                == "="@
        }),
{
}

/// A pace is shown only where there is one, with its sign and in its color.
pub proof fn a_pace_is_shown_where_there_is_one(view: WindowView, figures: Figures, now: Timestamp)
    ensures
        ({
            let w = window::effective_of(view, figures.quotient, now);
            let shown = w is Some && window::pace_of(w->0, now) is Some;
            &&& !shown ==> pace_column(view, figures, now).text == ""@
            &&& shown ==> pace_column(view, figures, now).text == "  "@ + pace_glyph(
                figures.pace.rate,
            ) + " "@ + figures.pace.text@ + "× pace"@ && pace_column(view, figures, now).style.fg
                == Some(pace_color(figures.pace.rate))
        }),
{
}

/// A label takes twenty-four cells: cut to leave at least one blank, and filled
/// up with blanks.
pub proof fn a_label_takes_its_column(label: Seq<char>)
    ensures
        ({
            let cut = cells::truncated(label, 23);
            let rest = 24 - cells::cells_of(cut);
            &&& rest > 0 ==> label_column(label) == cut + Seq::new(rest as nat, |i: int| ' ')
            &&& rest <= 0 ==> label_column(label) == cut
        }),
{
    let cut = cells::truncated(label, 23);
    let rest = 24 - cells::cells_of(cut);
    if rest > 0 {
        assert(text::blanks(rest as nat) =~= Seq::new(rest as nat, |i: int| ' '));
    }
}

/// A gauge shows the label, the bar and the use in the color of its severity, or
/// dots where there is no ratio, then the reset, then the pace where it has a
/// column.
pub proof fn a_gauge_shows_the_window(
    view: WindowView,
    figures: Figures,
    width: int,
    now: Timestamp,
    with_pace: bool,
)
    ensures
        ({
            let said = gauge(view, figures, width, now, with_pace);
            let laid = columns(width, with_pace);
            let used = text::padded_left(formats::usage_brief(view.window, figures.printed), 7);
            let ratio = crate::domain::utilization_of(
                view.window.unit,
                view.window.limit,
                figures.quotient,
            );
            &&& said.len() == if laid.pace {
                6int
            } else {
                5
            }
            &&& said[0].text == text::blanks(2)
            &&& said[1].text == label_column(view.window.label@)
            &&& said[3].text == used
            &&& ratio matches Some(r) ==> {
                let color = theme::severity_of(r, view.hint);
                &&& said[2].text == formats::fine_bar(figures.eighths as int, laid.bar as nat)
                &&& said[2].style.fg == Some(color)
                &&& said[3].style.fg == Some(color) && said[3].style.bold
            }
            &&& ratio is None ==> said[2].text == dots(laid.bar as nat) && said[2].style
                == theme::dim() && said[3].style == theme::dim()
            &&& view.window.reset_at matches Some(at) ==> said[4].text == text::padded_left(
                "⟳ "@ + formats::countdown(at.at(), now.at()),
                11,
            )
            &&& view.window.reset_at is None ==> said[4].text == text::blanks(11)
            &&& laid.pace ==> said[5] == pace_column(view, figures, now)
        }),
{
}

/// What stands in for a bar where there is no ratio is as many dots.
pub proof fn dots_stand_in_for_a_bar(n: nat, i: int)
    ensures
        dots(n).len() == n,
        0 <= i < n ==> dots(n)[i] == '·',
{
}

/// Figures are marked as uncertain when the start is uncertain by more than a
/// twentieth of the window.
pub proof fn an_uncertain_start_is_marked(w: EffectiveWindow)
    requires
        w.start_uncertainty >= 0,
        w.reset_at.at() - w.start.at() >= 1_000_000_000,
    ensures
        ({
            let unsure = w.start_uncertainty as int / 1_000_000_000;
            let length = (w.reset_at.at() - w.start.at()) / 1_000_000_000;
            &&& unsure * 20 > length ==> mark(w) == "~"@
            &&& unsure * 20 <= length ==> mark(w) == ""@
        }),
{
}

/// What is worked out about a window, in this order: its pace and where that
/// lands, only while there is one; the recent rate, if there is one; how long the
/// headroom lasts, if that is known, as a warning if that is before the reset;
/// and what is affordable, while there is time left.
pub proof fn what_is_worked_out_about_a_window(
    w: EffectiveWindow,
    figures: Figures,
    now: Timestamp,
)
    ensures
        fields(w, figures, now) == pace_field(w, figures, now) + recent_field(figures)
            + runway_field(w, figures, now) + afford_field(w, figures, now) + projection_field(
            w,
            figures,
            now,
        ),
        window::pace_of(w, now) is None ==> pace_field(w, figures, now).len() == 0
            && projection_field(w, figures, now).len() == 0 && runway_field(
            w,
            figures,
            now,
        ).len() == 0,
        window::pace_of(w, now) is Some ==> {
            let (pace, landing) = (
                pace_field(w, figures, now),
                projection_field(w, figures, now),
            );
            &&& pace.len() == 1 && landing.len() == 1
            &&& pace[0].text == pace_glyph(figures.pace.rate) + " "@ + mark(w) + figures.pace.text@
                + "× pace"@
            &&& pace[0].style.fg == Some(pace_color(figures.pace.rate))
            &&& landing[0].text == "→"@ + mark(w) + figures.pace.percent@ + "% at reset"@
        },
        figures.recent is None ==> recent_field(figures).len() == 0,
        figures.recent matches Some(recent) ==> recent_field(figures).len() == 1 && recent_field(
            figures,
        )[0].text == pace_glyph(recent.rate) + " "@ + recent.text@ + "× now"@ && recent_field(
            figures,
        )[0].style.fg == Some(pace_color(recent.rate)),
        window::affordable_of(w, now) is None ==> afford_field(w, figures, now).len() == 0,
        window::affordable_of(w, now) is Some ==> afford_field(w, figures, now).len() == 1
            && afford_field(w, figures, now)[0].text == "afford "@ + figures.afford@ + "×"@,
        window::runway_of(w, figures.pace.rate, figures.projected, now) matches Some(secs) ==> {
            let runway = runway_field(w, figures, now);
            &&& runway.len() == 1
            &&& runway[0].style.fg == Some(
                if now.at() + secs * 1_000_000_000 < w.reset_at.at() {
                    Color::Yellow
                } else {
                    Color::DarkGray
                },
            )
            &&& secs <= 0 ==> runway[0].text == "at cap"@
            &&& secs > 0 ==> runway[0].text == "cap in "@ + mark(w) + formats::humanized(
                secs as int,
            )
        },
        window::runway_of(w, figures.pace.rate, figures.projected, now) is None ==> runway_field(
            w,
            figures,
            now,
        ).len() == 0,
{
}

/// The line of what is worked out holds as many of its fields, from the first on,
/// as there is room for, set apart by a dot.
pub proof fn as_many_fields_as_there_is_room_for(fields: Seq<SpanData>, n: nat, width: int)
    ensures
        cost(fields, 0) == 4,
        set_out(fields, 0).len() == 1 && set_out(fields, 0)[0].text == text::blanks(4),
        room_for(fields, n, width) <= n,
        room_for(fields, n, width) > 0 ==> cost(fields, room_for(fields, n, width)) <= width,
        room_for(fields, n, width) < n ==> cost(fields, room_for(fields, n, width) + 1) > width,
        n > 0 ==> {
            let before = cost(fields, (n - 1) as nat);
            let line = set_out(fields, (n - 1) as nat);
            &&& before <= 4 ==> cost(fields, n) == before + cells::cells_of(fields[n - 1].text)
                && set_out(fields, n) == line.push(fields[n - 1])
            &&& before > 4 ==> cost(fields, n) == before + cells::cells_of(" · "@)
                + cells::cells_of(fields[n - 1].text) && set_out(fields, n) == line.push(
                SpanData { text: " · "@, style: theme::dim() },
            ).push(fields[n - 1])
        },
    decreases n,
{
    if n > 0 {
        as_many_fields_as_there_is_room_for(fields, (n - 1) as nat, width);
    }
}

/// There is such a line exactly when the window has a start and at least one
/// field fits.
pub proof fn a_line_is_worked_out_where_it_fits(
    view: WindowView,
    figures: Figures,
    width: int,
    now: Timestamp,
)
    ensures
        window::effective_of(view, figures.quotient, now) is None ==> derived(
            view,
            figures,
            width,
            now,
        ) is None,
        window::effective_of(view, figures.quotient, now) matches Some(w) ==> {
            let all = fields(w, figures, now);
            let n = room_for(all, all.len(), width);
            &&& n == 0 ==> derived(view, figures, width, now) is None
            &&& n > 0 ==> derived(view, figures, width, now) == Some(set_out(all, n))
        },
{
}

/// A window takes two rows where there is room for two of each window and one of
/// each account, and one otherwise; and the pace is in the row itself only where
/// there is no second.
pub proof fn a_window_takes_two_rows_where_there_is_room(
    rows: Seq<RowRef>,
    n: nat,
    height: int,
    view: WindowView,
    figures: Figures,
    width: int,
    now: Timestamp,
)
    ensures
        window_rows(rows, 0) == 0,
        n < rows.len() ==> window_rows(rows, n + 1) == window_rows(rows, n) + if rows[
            n as int
        ].window is Some {
            1int
        } else {
            0
        },
        has_room(rows, height) <==> rows.len() + window_rows(rows, rows.len()) <= height,
        window_row(view, figures, width, now, false) == seq![
            gauge(view, figures, width, now, true),
        ],
        derived(view, figures, width, now) is None ==> window_row(view, figures, width, now, true)
            == seq![gauge(view, figures, width, now, false)],
        derived(view, figures, width, now) matches Some(line) ==> window_row(
            view,
            figures,
            width,
            now,
            true,
        ) == seq![gauge(view, figures, width, now, false), line],
{
}

/// A row of an account is its header, and a row of a window that window's own.
pub proof fn a_row_shows_what_it_is_of(
    statuses: Seq<AccountStatus>,
    figures: Seq<Vec<Figures>>,
    row: RowRef,
    width: int,
    now: Timestamp,
    two_line: bool,
)
    ensures
        row.window is None ==> quota_row(statuses, figures, row, width, now, two_line) == seq![
            account_header(statuses[row.account as int], now.at()),
        ],
        row.window matches Some(w) ==> quota_row(statuses, figures, row, width, now, two_line)
            == window_row(
            statuses[row.account as int].windows@[w as int],
            figures[row.account as int]@[w as int],
            width,
            now,
            two_line,
        ),
{
}

/// Before any account is known, that is said.
pub proof fn no_accounts_is_said()
    ensures
        no_accounts().len() == 1,
        no_accounts()[0].len() == 1,
        no_accounts()[0][0].text == "  no accounts discovered yet — waiting for the daemon"@,
{
}

} // verus!
