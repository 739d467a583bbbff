//! Semantic palette.
//!
//! Everything is a named ANSI color rather than an RGB literal, so the
//! dashboard inherits whatever palette the user's terminal is themed with and
//! stays legible on light and dark backgrounds alike. Selection reverses for
//! the same reason: a fixed highlight background is only ever right for one of
//! the two.

use vstd::prelude::*;

use crate::adapter::RenderHint;
use crate::amount::Amount;

verus! {

/// A color of the terminal's own palette.
#[derive(Debug, Clone, Copy, PartialEq, Eq, Structural)]
pub enum Color {
    /// Green.
    Green,
    /// Yellow.
    Yellow,
    /// Red.
    Red,
    /// Cyan.
    Cyan,
    /// Dark gray.
    DarkGray,
}

/// How a piece of text is drawn.
#[derive(Debug, Clone, Copy, PartialEq, Eq, Structural)]
pub struct Style {
    /// Its color; the terminal's own without one.
    pub fg: Option<Color>,
    /// Bold.
    pub bold: bool,
    /// Underlined.
    pub underlined: bool,
    /// Foreground and background exchanged.
    pub reversed: bool,
}

/// Comfortably below the warn threshold.
pub const OK: Color = Color::Green;

/// Past the provider's warn threshold.
pub const WARN: Color = Color::Yellow;

/// Past the provider's critical threshold.
pub const CRIT: Color = Color::Red;

/// Chart series, active tab, headings.
pub const ACCENT: Color = Color::Cyan;

/// Secondary text and the unfilled part of a bar.
pub const DIM: Color = Color::DarkGray;

/// Block borders.
pub const BORDER: Color = Color::DarkGray;

/// A window that expired on schedule. Several can share a chart, so they read
/// as a background grid rather than as something to look at.
pub const BOUNDARY: Color = DIM;

/// The edges of the window currently in progress — the same color as its own
/// series, because they bracket it.
pub const BOUNDARY_LIVE: Color = ACCENT;

/// A reset the provider never advertised.
pub const BOUNDARY_SURPRISE: Color = WARN;

/// The terminal's own style.
#[verifier::allow_in_spec]
pub fn plain() -> (r: Style)
    returns
        (Style { fg: None, bold: false, underlined: false, reversed: false }),
{
    Style { fg: None, bold: false, underlined: false, reversed: false }
}

/// A color, and nothing else.
#[verifier::allow_in_spec]
pub fn fg(color: Color) -> (r: Style)
    returns
        (Style { fg: Some(color), bold: false, underlined: false, reversed: false }),
{
    Style { fg: Some(color), bold: false, underlined: false, reversed: false }
}

/// A style made bold.
#[verifier::allow_in_spec]
pub fn bold(style: Style) -> (r: Style)
    returns
        (Style { bold: true, ..style }),
{
    Style { bold: true, ..style }
}

/// A style underlined.
#[verifier::allow_in_spec]
pub fn underlined(style: Style) -> (r: Style)
    returns
        (Style { underlined: true, ..style }),
{
    Style { underlined: true, ..style }
}

/// Color for a utilization ratio, using the provider's own thresholds rather
/// than a value baked into the TUI — "80% is fine" is a provider-specific
/// claim, which is exactly what [`RenderHint`] exists to carry.
pub open spec fn severity_of(ratio: Amount, hint: RenderHint) -> Color {
    if hint.critical_threshold.le(ratio) {
        CRIT
    } else if hint.warn_threshold.le(ratio) {
        WARN
    } else {
        OK
    }
}

/// Color for a utilization ratio, by the provider's own thresholds.
pub fn severity(ratio: Amount, hint: &RenderHint) -> (r: Color)
    ensures
        r == severity_of(ratio, *hint),
{
    if hint.critical_threshold.at_most(ratio) {
        CRIT
    } else if hint.warn_threshold.at_most(ratio) {
        WARN
    } else {
        OK
    }
}

/// Border style for a pane, brightened while it holds the cursor. `j`/`k`
/// change meaning with focus, so which pane has it cannot be invisible.
#[verifier::allow_in_spec]
pub fn border(focused: bool) -> (r: Style)
    returns
        (if focused {
            fg(ACCENT)
        } else {
            fg(BORDER)
        }),
{
    if focused {
        fg(ACCENT)
    } else {
        fg(BORDER)
    }
}

/// Style for the selected row.
#[verifier::allow_in_spec]
pub fn selected() -> (r: Style)
    returns
        (Style { fg: None, bold: false, underlined: false, reversed: true }),
{
    Style { fg: None, bold: false, underlined: false, reversed: true }
}

/// Style for secondary text.
#[verifier::allow_in_spec]
pub fn dim() -> (r: Style)
    returns
        fg(DIM),
{
    fg(DIM)
}

/// Style for headings and emphasis.
#[verifier::allow_in_spec]
pub fn heading() -> (r: Style)
    returns
        bold(fg(ACCENT)),
{
    bold(fg(ACCENT))
}

/// Frames of the activity spinner shown while a manual poll is in flight.
pub const SPINNER: [&'static str; 8] = ["⠋", "⠙", "⠹", "⠸", "⠼", "⠴", "⠦", "⠧"];

/// The spinner frame for a tick counter.
pub fn spinner_frame(tick: usize) -> (r: &'static str)
    ensures
        r == SPINNER@[tick as int % 8],
{
    let frames = SPINNER;
    frames[tick % 8]
}

/// A higher ratio is never drawn as less severe.
pub proof fn severity_rises_with_use(low: Amount, high: Amount, hint: RenderHint)
    requires
        low.le(high),
    ensures
        severity_of(low, hint) == CRIT ==> severity_of(high, hint) == CRIT,
        severity_of(low, hint) == WARN ==> severity_of(high, hint) != OK,
{
}

/// Use is critical from the critical threshold on, and a warning from the
/// warning threshold on below that; anything less is well.
pub proof fn use_is_judged_by_its_thresholds(ratio: Amount, hint: RenderHint)
    ensures
        severity_of(ratio, hint) is Red <==> hint.critical_threshold.le(ratio),
        severity_of(ratio, hint) is Yellow <==> hint.warn_threshold.le(ratio)
            && !hint.critical_threshold.le(ratio),
        severity_of(ratio, hint) is Green <==> !hint.warn_threshold.le(ratio)
            && !hint.critical_threshold.le(ratio),
{
}

/// The colors there are: what is well is green, what is to be warned of yellow,
/// what is critical red; what is in use is cyan, and what is in the background
/// gray. A boundary is in the background but for the window in progress and for
/// a surprise.
pub proof fn the_palette()
    ensures
        OK is Green && WARN is Yellow && CRIT is Red,
        ACCENT is Cyan && DIM is DarkGray,
        BOUNDARY is DarkGray && BOUNDARY_LIVE is Cyan && BOUNDARY_SURPRISE is Yellow,
        border(true).fg == Some(Color::Cyan) && border(false).fg == Some(Color::DarkGray),
        dim().fg == Some(Color::DarkGray) && !dim().bold && !dim().reversed,
        selected().reversed,
        plain() == (Style { fg: None, bold: false, underlined: false, reversed: false }),
{
}

} // verus!
