//! Text measured, cut and padded by terminal cells.

use teiryo::ui::cells::{cells, pad_to_cells, truncate, MAX_CHARS_PER_CELL};
use unicode_segmentation::UnicodeSegmentation;

#[test]
fn truncate_marks_elision() {
    assert_eq!(truncate("short", 10), "short");
    assert_eq!(truncate("truncate me", 5), "trun…");
    assert_eq!(truncate("abc", 1), "…");
}

/// The budget is cells. Counting `char`s lets a label of wide glyphs pass a
/// width check at up to twice its real size.
#[test]
fn truncate_budgets_display_cells_not_chars() {
    // Eight chars, sixteen cells.
    let wide = "東京東京東京東京";
    assert_eq!(cells(wide), 16);
    assert!(cells(&truncate(wide, 10)) <= 10);
    // Nothing is dropped when it already fits.
    assert_eq!(truncate(wide, 16), wide);
    // A two-cell glyph straddling the boundary is dropped whole rather than
    // half-drawn, so the result may come up a cell short.
    assert_eq!(truncate(wide, 6), "東京…");
    assert_eq!(cells(&truncate(wide, 6)), 5);
    // ASCII is unaffected, which is what keeps every existing budget sound.
    assert_eq!(cells("truncate me"), 11);
}

/// `U+FE0F` is the variation selector that renders `❤` as an emoji. On its own
/// it is zero cells, so a char-wise sum reads the pair as 1 while the grapheme
/// draws 2.
#[test]
fn truncate_charges_an_emoji_sequence_what_the_terminal_draws() {
    let heart = "\u{2764}\u{FE0F}";
    assert_eq!(cells(heart), 2, "one grapheme, two cells");
    assert_eq!(cells(&heart.repeat(5)), 10);
    assert!(cells(&truncate(&heart.repeat(5), 6)) <= 6);
    // The keycap sequence is the same shape: three chars, two cells.
    assert_eq!(cells("1\u{FE0F}\u{20E3}"), 2);
    // And the label column holds, which a per-char sum does not.
    let column = 24;
    let drawn = pad_to_cells(&truncate(&heart.repeat(13), column - 1), column);
    assert_eq!(cells(&drawn), column);
}

/// A control character is discarded rather than drawn, so it costs no cells.
#[test]
fn a_control_character_costs_no_cells() {
    assert_eq!(cells("\u{7}"), 0);
    assert_eq!(cells("ab\u{7}c"), 3);
    assert_eq!(truncate(&"\u{7}".repeat(10), 6), "\u{7}".repeat(10));
}

#[test]
fn truncate_to_no_width_yields_nothing() {
    // Even the ellipsis costs a cell, so there is nothing that fits.
    assert_eq!(truncate("abc", 0), "");
    assert_eq!(truncate("", 0), "");
    // Not even what takes up no cells.
    assert_eq!(truncate("\u{7}", 0), "");
    assert_eq!(truncate("\u{301}", 0), "");
}

/// A cell budget bounds how wide the result draws, not how long it is.
#[test]
fn truncate_bounds_the_length_of_what_it_returns() {
    const WIDTH: usize = 23;
    let cap = WIDTH * MAX_CHARS_PER_CELL;

    // One grapheme, one cell, a hundred thousand chars.
    let heavy = "a".to_owned() + &"\u{301}".repeat(100_000);
    assert_eq!(heavy.graphemes(true).count(), 1);
    assert_eq!(cells(&heavy), 1);
    let out = truncate(&heavy, WIDTH);
    assert!(cells(&out) <= WIDTH, "{} cells", cells(&out));
    assert!(
        out.chars().count() <= cap + 1,
        "returned {} chars for a {WIDTH}-cell column",
        out.chars().count()
    );

    // The other way past the cell budget: graphemes that cost nothing, so the
    // budget never fires however many of them arrive.
    let controls = "\u{7}".repeat(100_000);
    assert_eq!(cells(&controls), 0);
    let out = truncate(&controls, WIDTH);
    assert!(
        out.chars().count() <= cap + 1,
        "returned {} chars for a {WIDTH}-cell column",
        out.chars().count()
    );

    // Anything already inside both bounds is returned exactly as before.
    let ordinary = "Weekly — Opus 東京";
    assert_eq!(truncate(ordinary, WIDTH), ordinary);
    assert_eq!(truncate(&"x".repeat(cap), cap), "x".repeat(cap));
}

/// At the width the dashboard actually uses: a server-supplied model name.
#[test]
fn a_label_of_wide_glyphs_stays_inside_its_column() {
    let label = "Weekly — Opus 東京東京東京東京";
    let column = 24;
    let drawn = pad_to_cells(&truncate(label, column - 1), column);
    assert_eq!(cells(&drawn), column, "the column is exactly its budget");
}

#[test]
fn padding_counts_cells_and_never_shrinks_what_it_is_given() {
    assert_eq!(pad_to_cells("ab", 5), "ab   ");
    assert_eq!(cells(&pad_to_cells("東京", 6)), 6);
    // Already at or over budget: left alone rather than truncated, which is
    // `truncate`'s job and not this one's.
    assert_eq!(pad_to_cells("abcdef", 3), "abcdef");
}

/// The widths of a blank and of an ellipsis, wherever they stand, which every
/// budget here rests on — after a mark that draws nothing of its own but joins
/// what follows it, too.
#[test]
fn a_blank_and_an_ellipsis_cost_one_cell_after_anything() {
    for before in ["", "a", "東", "\u{2764}\u{FE0F}", "\u{600}", "\u{605}", "\u{110BD}", "\u{7}", "\r\n", "🇨🇭", "👩\u{200D}", "ل", "\u{17D2}", "e\u{301}"] {
        for tail in [" ", "…", "  ", " …", "… ", "…  …"] {
            let whole = format!("{before}{tail}");
            assert_eq!(
                cells(&whole),
                cells(before) + tail.chars().count(),
                "{before:?} then {tail:?}"
            );
        }
    }
}

/// A truncated text is never wider than its column, whatever it ends on.
#[test]
fn truncation_holds_for_marks_that_join_what_follows() {
    for text in ["\u{600}\u{600}\u{600}\u{600}", "ab\u{605}cd\u{605}ef", "🇨🇭🇨🇭🇨🇭", "a\u{600}b\u{600}c"] {
        for width in 0..8 {
            assert!(cells(&truncate(text, width)) <= width, "{text:?} at {width}");
        }
    }
}

#[test]
fn cutting_twice_changes_nothing_more() {
    for text in ["truncate me", "東京都庁第一", "❤\u{fe0f}❤\u{fe0f}❤\u{fe0f}", "a\u{7}b\u{7}c", "", "…"] {
        for width in 0..14 {
            let once = truncate(text, width);
            assert_eq!(truncate(&once, width), once, "{text:?} at {width}");
        }
    }
}
