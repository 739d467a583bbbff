//! Text measured in terminal cells, and cut or padded to a column of them.

use vstd::prelude::*;

use unicode_segmentation::UnicodeSegmentation;
use unicode_width::UnicodeWidthStr;

use crate::text;

verus! {

// ---------------------------------------------------------------------------
// Grapheme clusters and their widths
// ---------------------------------------------------------------------------

/// The extended grapheme clusters of a text, in order.
pub uninterp spec fn clusters(text: Seq<char>) -> Seq<Seq<char>>;

/// How many columns a text takes up, as `unicode_width` counts them.
pub uninterp spec fn display_width(text: Seq<char>) -> nat;

/// What some strings hold.
pub open spec fn texts(strings: Seq<String>) -> Seq<Seq<char>> {
    Seq::new(strings.len(), |i: int| strings[i]@)
}

/// Pieces of text, one after another.
pub open spec fn joined(pieces: Seq<Seq<char>>) -> Seq<char>
    decreases pieces.len(),
{
    if pieces.len() == 0 {
        Seq::empty()
    } else {
        joined(pieces.drop_last()) + pieces.last()
    }
}

/// Whether a text consists of blanks and ellipses alone.
pub open spec fn plain(run: Seq<char>) -> bool {
    forall|i: int| 0 <= i < run.len() ==> #[trigger] run[i] == ' ' || run[i] == '…'
}

/// Every character on its own.
pub open spec fn singles(run: Seq<char>) -> Seq<Seq<char>> {
    Seq::new(run.len(), |i: int| seq![run[i]])
}

/// Whether `whole` is how the clusters `before` go on when blanks and ellipses
/// follow them: each a cluster of its own, except that the first may join the
/// last cluster before it, if that holds no control character.
pub open spec fn continued(
    before: Seq<Seq<char>>,
    run: Seq<char>,
    whole: Seq<Seq<char>>,
) -> bool {
    ||| whole == before + singles(run)
    ||| {
        &&& before.len() > 0
        &&& run.len() > 0
        &&& !holds_control(before.last())
        &&& whole == before.drop_last().push(before.last().push(run[0])) + singles(
            run.drop_first(),
        )
    }
}

/// The extended grapheme clusters of `text`:
/// `UnicodeSegmentation::graphemes(text, true)`. They are nonempty and make up
/// the text; and since a boundary depends only on what stands before it and on
/// the one character after it, the clusters of a beginning of the text are the
/// beginning of its clusters, whatever blanks and ellipses follow.
#[verifier::external_body]
fn graphemes(text: &str) -> (r: Vec<String>)
    ensures
        texts(r@) == clusters(text@),
        joined(texts(r@)) == text@,
        forall|i: int| 0 <= i < r@.len() ==> (#[trigger] r@[i])@.len() > 0,
        forall|k: int, run: Seq<char>|
            0 <= k <= r@.len() && plain(run) ==> continued(
                texts(r@).take(k),
                run,
                #[trigger] clusters(joined(texts(r@).take(k)) + run),
            ),
{
    text.graphemes(true).map(String::from).collect()
}

/// The columns `text` takes up: `UnicodeWidthStr::width`. Nothing takes up
/// none, and a blank or an ellipsis at the end takes up one more than what
/// stands before it, whatever that is.
#[verifier::external_body]
pub(crate) fn width_of(text: &str) -> (r: usize)
    ensures
        r == display_width(text@),
        text@.len() == 0 ==> r == 0,
        forall|run: Seq<char>|
            plain(run) ==> #[trigger] display_width(text@ + run) == r + run.len(),
{
    UnicodeWidthStr::width(text)
}

/// Whether a character is a control character (of the general category `Cc`).
pub open spec fn is_control(c: char) -> bool {
    c <= '\u{1f}' || '\u{7f}' <= c <= '\u{9f}'
}

/// Whether a text holds a control character.
pub open spec fn holds_control(text: Seq<char>) -> bool {
    exists|i: int| 0 <= i < text.len() && is_control(#[trigger] text[i])
}

/// Cells one cluster is drawn at. One carrying a control character is charged
/// nothing, because it is discarded rather than drawn: charging it a cell
/// would shed a field that fits.
pub open spec fn drawn(cluster: Seq<char>) -> nat {
    if holds_control(cluster) {
        0
    } else {
        display_width(cluster)
    }
}

/// Cells some clusters are drawn at.
pub open spec fn drawn_at(clusters: Seq<Seq<char>>) -> nat
    decreases clusters.len(),
{
    if clusters.len() == 0 {
        0
    } else {
        drawn_at(clusters.drop_last()) + drawn(clusters.last())
    }
}

/// Width of a text in terminal cells.
pub open spec fn cells_of(text: Seq<char>) -> nat {
    drawn_at(clusters(text))
}

fn has_control(text: &str) -> (r: bool)
    ensures
        r == holds_control(text@),
{
    let chars = text::chars_of(text);
    let mut i: usize = 0;
    while i < chars.len()
        invariant
            i <= chars@.len(),
            chars@ == text@,
            forall|k: int| 0 <= k < i ==> !is_control(#[trigger] chars@[k]),
        decreases chars@.len() - i,
    {
        let c = chars[i];
        if c <= '\u{1f}' || ('\u{7f}' <= c && c <= '\u{9f}') {
            assert(is_control(text@[i as int]));
            return true;
        }
        i += 1;
    }
    false
}

fn drawn_width(cluster: &str) -> (r: usize)
    ensures
        r == drawn(cluster@),
        !holds_control(cluster@) ==> forall|run: Seq<char>|
            plain(run) ==> #[trigger] display_width(cluster@ + run) == r + run.len(),
{
    if has_control(cluster) {
        0
    } else {
        width_of(cluster)
    }
}

/// What is known of nothing at all: it has no clusters and takes up no cells,
/// and blanks and ellipses after it are clusters of one cell each.
fn nothing() -> (r: usize)
    ensures
        r == 0,
        clusters(Seq::empty()) == Seq::<Seq<char>>::empty(),
        forall|run: Seq<char>| plain(run) ==> #[trigger] clusters(run) == singles(run),
        forall|run: Seq<char>| plain(run) ==> #[trigger] display_width(run) == run.len(),
{
    let none = graphemes("");
    let r: usize = width_of("");
    proof {
        reveal_strlit("");
        let empty = Seq::<char>::empty();
        assert(""@ =~= empty);
        if none@.len() > 0 {
            joined_is_longer(texts(none@), 0);
            assert(none@[0]@.len() > 0);
            assert(false);
        }
        assert forall|run: Seq<char>| plain(run) implies #[trigger] clusters(run) == singles(
            run,
        ) by {
            assert(joined(texts(none@).take(0)) + run =~= run);
            assert(continued(texts(none@).take(0), run, clusters(run)));
            assert(texts(none@).take(0) + singles(run) =~= singles(run));
        }
        assert(plain(empty));
        assert(singles(empty) =~= Seq::<Seq<char>>::empty());
        assert forall|run: Seq<char>| plain(run) implies #[trigger] display_width(run)
            == run.len() by {
            assert(""@ + run =~= run);
        }
    }
    r
}

/// A text is at least as long as any of its pieces.
proof fn joined_is_longer(pieces: Seq<Seq<char>>, i: int)
    requires
        0 <= i < pieces.len(),
    ensures
        pieces[i].len() <= joined(pieces).len(),
    decreases pieces.len(),
{
    if i < pieces.len() - 1 {
        joined_is_longer(pieces.drop_last(), i);
    }
}

/// A text is longer than any beginning of it that leaves a piece out.
proof fn joined_grows(pieces: Seq<Seq<char>>, i: int)
    requires
        0 <= i < pieces.len(),
        forall|k: int| 0 <= k < pieces.len() ==> (#[trigger] pieces[k]).len() > 0,
    ensures
        joined(pieces.take(i)).len() < joined(pieces).len(),
    decreases pieces.len(),
{
    let fewer = pieces.drop_last();
    assert(fewer.take(i) =~= pieces.take(i));
    if i < fewer.len() {
        joined_grows(fewer, i);
    } else {
        assert(fewer.take(i) =~= fewer);
    }
    assert(pieces[pieces.len() - 1].len() > 0);
}

/// Single blanks and ellipses are drawn at one cell each.
proof fn singles_are_drawn_at(run: Seq<char>)
    requires
        plain(run),
        forall|run: Seq<char>| plain(run) ==> #[trigger] display_width(run) == run.len(),
    ensures
        drawn_at(singles(run)) == run.len(),
    decreases run.len(),
{
    if run.len() > 0 {
        assert(plain(run.drop_last()));
        singles_are_drawn_at(run.drop_last());
        assert(singles(run).drop_last() =~= singles(run.drop_last()));
        let one = seq![run.last()];
        assert(plain(one));
        assert(!holds_control(one));
        assert(singles(run).last() == one);
    }
}

/// Clusters side by side are drawn at what each side is.
proof fn drawn_side_by_side(a: Seq<Seq<char>>, b: Seq<Seq<char>>)
    ensures
        drawn_at(a + b) == drawn_at(a) + drawn_at(b),
    decreases b.len(),
{
    if b.len() == 0 {
        assert(a + b =~= a);
    } else {
        drawn_side_by_side(a, b.drop_last());
        assert((a + b).drop_last() =~= a + b.drop_last());
    }
}

/// Blanks and ellipses after some clusters are drawn at one cell each more.
proof fn continued_is_drawn_at(before: Seq<Seq<char>>, run: Seq<char>, whole: Seq<Seq<char>>)
    requires
        plain(run),
        continued(before, run, whole),
        forall|run: Seq<char>| plain(run) ==> #[trigger] display_width(run) == run.len(),
        before.len() > 0 && !holds_control(before.last()) ==> forall|run: Seq<char>|
            plain(run) ==> #[trigger] display_width(before.last() + run) == display_width(
                before.last(),
            ) + run.len(),
    ensures
        drawn_at(whole) == drawn_at(before) + run.len(),
{
    if whole == before + singles(run) {
        singles_are_drawn_at(run);
        drawn_side_by_side(before, singles(run));
    } else {
        let longer = before.last().push(run[0]);
        let one = seq![run[0]];
        assert(plain(one));
        assert(before.last() + one =~= longer);
        assert(!holds_control(longer)) by {
            assert forall|i: int| 0 <= i < longer.len() implies !is_control(
                #[trigger] longer[i],
            ) by {
                if i < before.last().len() {
                    assert(longer[i] == before.last()[i]);
                }
            }
        }
        let head = before.drop_last().push(longer);
        assert(head.drop_last() =~= before.drop_last());
        assert(plain(run.drop_first()));
        singles_are_drawn_at(run.drop_first());
        drawn_side_by_side(head, singles(run.drop_first()));
    }
}

/// Width of `text` in terminal cells.
///
/// Not its number of `char`s. A cell is what the terminal draws, and the two
/// part company exactly where provider-supplied text lives: CJK and most emoji
/// occupy two cells, combining marks none. Every span is charged its real
/// width against one shared row budget, so a label measured in chars pushes
/// each column after it to the right and clips the last one — with the data
/// still correct, which is what makes it hard to see.
///
/// Measured per *grapheme*. Summing per `char` gets emoji wrong in the
/// widening direction: `U+FE0F`, the variation selector that makes `❤` render
/// as an emoji, is zero cells on its own and makes the pair two — so a
/// char-wise sum reads 1 where the terminal draws 2, and a column of them
/// overruns by its own length again.
pub fn cells(text: &str) -> (r: usize)
    ensures
        r == if cells_of(text@) <= usize::MAX {
            cells_of(text@)
        } else {
            usize::MAX as nat
        },
{
    let total: u128 = measured(&graphemes(text));
    if total <= usize::MAX as u128 {
        total as usize
    } else {
        usize::MAX
    }
}

fn measured(clusters: &Vec<String>) -> (r: u128)
    ensures
        r == drawn_at(texts(clusters@)),
        clusters@.len() > 0 && !holds_control(clusters@.last()@) ==> forall|run: Seq<char>|
            plain(run) ==> #[trigger] display_width(clusters@.last()@ + run) == display_width(
                clusters@.last()@,
            ) + run.len(),
{
    let mut total: u128 = 0;
    let mut i: usize = 0;
    while i < clusters.len()
        invariant
            i <= clusters.len(),
            total == drawn_at(texts(clusters@).take(i as int)),
            total <= i * 0xffff_ffff_ffff_ffff,
            i > 0 && !holds_control(clusters@[i - 1]@) ==> forall|run: Seq<char>|
                plain(run) ==> #[trigger] display_width(clusters@[i - 1]@ + run)
                    == display_width(clusters@[i - 1]@) + run.len(),
        decreases clusters@.len() - i,
    {
        let w: usize = drawn_width(clusters[i].as_str());
        proof {
            let next = texts(clusters@).take(i + 1);
            assert(next.drop_last() =~= texts(clusters@).take(i as int));
        }
        total = total + w as u128;
        i += 1;
    }
    assert(texts(clusters@).take(clusters@.len() as int) =~= texts(clusters@));
    total
}

// ---------------------------------------------------------------------------
// Columns
// ---------------------------------------------------------------------------

/// How many `char`s per cell of budget [`truncate`] will carry.
///
/// A cell budget bounds how wide the result draws but not how long it is: a
/// grapheme cluster is a base character plus any number of combining marks,
/// so a single one-cell cluster can be megabytes. The longest cluster real
/// text produces is a four-person family emoji with per-person skin tones —
/// eleven `char`s across at least two cells — and Indic clusters run to about
/// half that rate. Sixteen `char`s per cell is several times that worst case
/// at every width, so no input a provider could plausibly send is altered;
/// only text that is padding rather than glyphs reaches the cap.
pub const MAX_CHARS_PER_CELL: usize = 16;

/// How many `char`s [`truncate`] will carry into a column.
pub open spec fn char_cap(width: usize) -> nat {
    if MAX_CHARS_PER_CELL * width <= usize::MAX {
        (MAX_CHARS_PER_CELL * width) as nat
    } else {
        usize::MAX as nat
    }
}

/// Whether clusters are within a budget of cells and one of `char`s.
pub open spec fn fits(clusters: Seq<Seq<char>>, budget: int, cap: nat) -> bool {
    drawn_at(clusters) <= budget && joined(clusters).len() <= cap
}

/// How many clusters of the longest beginning that fits.
pub open spec fn kept(clusters: Seq<Seq<char>>, budget: int, cap: nat) -> nat
    decreases clusters.len(),
{
    if clusters.len() == 0 || fits(clusters, budget, cap) {
        clusters.len()
    } else {
        kept(clusters.drop_last(), budget, cap)
    }
}

/// A text cut to a column: nothing where there is no column, else itself if it
/// fits, else the longest beginning that leaves a cell for the ellipsis, and
/// the ellipsis.
pub open spec fn truncated(text: Seq<char>, width: usize) -> Seq<char> {
    if width == 0 {
        Seq::empty()
    } else if text.len() <= char_cap(width) && cells_of(text) <= width {
        text
    } else if width == 1 {
        seq!['…']
    } else {
        joined(clusters(text).take(kept(clusters(text), width - 1, char_cap(width)) as int)).push(
            '…',
        )
    }
}

/// What does not fit does not fit with more after it.
proof fn fitting_is_monotone(clusters: Seq<Seq<char>>, i: int, budget: int, cap: nat)
    requires
        0 <= i <= clusters.len(),
        fits(clusters, budget, cap),
    ensures
        fits(clusters.take(i), budget, cap),
    decreases clusters.len() - i,
{
    if i < clusters.len() {
        fitting_is_monotone(clusters, i + 1, budget, cap);
        let more = clusters.take(i + 1);
        assert(more.drop_last() =~= clusters.take(i));
    } else {
        assert(clusters.take(i) =~= clusters);
    }
}

/// The longest beginning that fits is the one that cannot be made longer.
proof fn kept_is(clusters: Seq<Seq<char>>, i: int, budget: int, cap: nat)
    requires
        0 <= i <= clusters.len(),
        budget >= 0,
        fits(clusters.take(i), budget, cap),
        i < clusters.len() ==> !fits(clusters.take(i + 1), budget, cap),
    ensures
        kept(clusters, budget, cap) == i,
    decreases clusters.len(),
{
    if i == clusters.len() {
        assert(clusters.take(i) =~= clusters);
    } else {
        if fits(clusters, budget, cap) {
            fitting_is_monotone(clusters, i + 1, budget, cap);
        }
        let fewer = clusters.drop_last();
        assert(fewer.take(i) =~= clusters.take(i));
        if i < fewer.len() {
            assert(fewer.take(i + 1) =~= clusters.take(i + 1));
        }
        kept_is(fewer, i, budget, cap);
    }
}

/// The beginnings that fit are those no longer than the one kept.
pub proof fn the_longest_beginning_that_fits_is_kept(
    clusters: Seq<Seq<char>>,
    budget: int,
    cap: nat,
    i: int,
)
    requires
        budget >= 0,
        0 <= i <= clusters.len(),
    ensures
        kept(clusters, budget, cap) <= clusters.len(),
        fits(clusters.take(i), budget, cap) <==> i <= kept(clusters, budget, cap),
    decreases clusters.len(),
{
    if fits(clusters, budget, cap) {
        fitting_is_monotone(clusters, i, budget, cap);
    } else if clusters.len() > 0 {
        let fewer = clusters.drop_last();
        if i < clusters.len() {
            assert(fewer.take(i) =~= clusters.take(i));
            the_longest_beginning_that_fits_is_kept(fewer, budget, cap, i);
        } else {
            assert(clusters.take(i) =~= clusters);
            the_longest_beginning_that_fits_is_kept(fewer, budget, cap, 0);
        }
    }
}

/// Truncate to `width` display cells, marking elision with an ellipsis.
///
/// The result is never wider than `width`, including when a two-cell glyph
/// straddles the boundary: that glyph is dropped rather than half-drawn, which
/// can leave the result one cell short of the budget. Short is safe; over is
/// the bug. A `width` of zero yields the empty string, since even the ellipsis
/// costs a cell.
///
/// Nor is it longer than [`MAX_CHARS_PER_CELL`] per cell of `width`, plus the
/// ellipsis. A window's label is server-supplied and the result is copied on
/// every frame, so a cell budget alone leaves an unbounded string being copied
/// sixty times a second to draw one cell.
///
/// Cutting what has been cut to the same width changes nothing more, unless the
/// text was so long that the ellipsis came on top of all the `char`s allowed.
///
/// What is kept is the longest beginning of whole clusters that fits, because a
/// beginning of them is as wide as they are together.
pub fn truncate(text: &str, width: usize) -> (r: String)
    ensures
        r@ == truncated(text@, width),
        cells_of(r@) <= width,
        r@.len() <= char_cap(width) + 1,
        width == 0 || text@.len() <= char_cap(width) ==> truncated(r@, width) == r@,
        forall|i: int|
            0 <= i <= clusters(text@).len() ==> cells_of(
                joined(#[trigger] clusters(text@).take(i)),
            ) == drawn_at(clusters(text@).take(i)),
{
    let mut used: u128 = nothing() as u128;
    let gs = graphemes(text);
    let ghost all = texts(gs@);
    proof {
        let none = Seq::<char>::empty();
        assert(plain(none));
        assert forall|i: int| 0 <= i <= all.len() implies cells_of(joined(#[trigger] all.take(i)))
            == drawn_at(all.take(i)) by {
            let beginning = joined(all.take(i));
            assert(beginning + none =~= beginning);
            assert(continued(all.take(i), none, clusters(beginning + none)));
            assert(all.take(i) + singles(none) =~= all.take(i));
        }
    }
    if width == 0 {
        return String::new();
    }
    let char_cap: usize = if width <= usize::MAX / MAX_CHARS_PER_CELL {
        MAX_CHARS_PER_CELL * width
    } else {
        usize::MAX
    };
    if text.unicode_len() <= char_cap && measured(&gs) <= width as u128 {
        return text.to_owned();
    }
    if width == 1 {
        let mut out = String::new();
        out.push('…');
        proof {
            assert(out@ =~= seq!['…']);
            assert(plain(out@));
            singles_are_drawn_at(out@);
        }
        return out;
    }
    // One cell reserved for the ellipsis, which is itself one cell wide.
    let budget: usize = width - 1;
    let mut out = String::new();
    let mut chars: u128 = 0;
    let mut i: usize = 0;
    assert(all.take(0) =~= Seq::<Seq<char>>::empty());
    while i < gs.len()
        invariant_except_break
            i <= gs.len(),
            budget == width - 1,
            char_cap == self::char_cap(width),
            all == texts(gs@),
            all == clusters(text@),
            out@ == joined(all.take(i as int)),
            used == drawn_at(all.take(i as int)),
            chars == joined(all.take(i as int)).len(),
            fits(all.take(i as int), budget as int, char_cap as nat),
            i > 0 && !holds_control(all[i - 1]) ==> forall|run: Seq<char>|
                plain(run) ==> #[trigger] display_width(all[i - 1] + run) == display_width(
                    all[i - 1],
                ) + run.len(),
        ensures
            i <= gs.len(),
            out@ == joined(all.take(i as int)),
            fits(all.take(i as int), budget as int, char_cap as nat),
            i < gs.len() ==> !fits(all.take(i + 1), budget as int, char_cap as nat),
            i > 0 && !holds_control(all[i - 1]) ==> forall|run: Seq<char>|
                plain(run) ==> #[trigger] display_width(all[i - 1] + run) == display_width(
                    all[i - 1],
                ) + run.len(),
        decreases gs@.len() - i,
    {
        let w: usize = drawn_width(gs[i].as_str());
        let len: usize = gs[i].as_str().unicode_len();
        proof {
            let next = all.take(i + 1);
            assert(next.drop_last() =~= all.take(i as int));
            assert(next.last() == gs@[i as int]@);
        }
        if used + w as u128 > budget as u128 || chars + len as u128 > char_cap as u128 {
            break;
        }
        out = out.concat(gs[i].as_str());
        used = used + w as u128;
        chars = chars + len as u128;
        i += 1;
    }
    proof {
        kept_is(all, i as int, budget as int, char_cap as nat);
        let run = seq!['…'];
        assert(plain(run));
        assert(out@ + run =~= out@.push('…'));
        assert(all.take(i as int).len() > 0 ==> all.take(i as int).last() == all[i - 1]);
        continued_is_drawn_at(all.take(i as int), run, clusters(out@ + run));
        if i < gs.len() {
            joined_grows(all, i as int);
        } else {
            assert(all.take(i as int) =~= all);
        }
    }
    out.push('…');
    out
}

/// Pad `text` on the right to `width` display cells.
///
/// The counterpart to [`truncate`], and needed for the same reason: padding by
/// `char` count gives a label holding any wide glyph too little, and the row's
/// later columns shift.
pub fn pad_to_cells(text: &str, width: usize) -> (r: String)
    ensures
        cells_of(text@) >= width ==> r@ == text@,
        cells_of(text@) < width ==> r@ == text@ + Seq::new(
            (width - cells_of(text@)) as nat,
            |i: int| ' ',
        ),
        cells_of(r@) == if cells_of(text@) >= width {
            cells_of(text@)
        } else {
            width as nat
        },
{
    nothing();
    let gs = graphemes(text);
    let cells: u128 = measured(&gs);
    let mut out = text.to_owned();
    if cells < width as u128 {
        let missing: usize = width - cells as usize;
        text::push_copies(&mut out, ' ', missing);
        proof {
            let run = Seq::new(missing as nat, |i: int| ' ');
            let all = texts(gs@);
            assert(plain(run));
            assert(all.take(all.len() as int) =~= all);
            assert(out@ =~= text@ + run);
            assert(all.len() > 0 ==> all.last() == gs@.last()@);
            assert(all.len() > 0 && !holds_control(all.last()) ==> forall|more: Seq<char>|
                plain(more) ==> #[trigger] display_width(all.last() + more) == display_width(
                    all.last(),
                ) + more.len());
            assert(continued(all, run, clusters(text@ + run)));
            continued_is_drawn_at(all, run, clusters(text@ + run));
        }
    }
    out
}

/// Pieces are joined end to end.
pub proof fn pieces_are_joined_end_to_end(pieces: Seq<Seq<char>>, piece: Seq<char>)
    ensures
        joined(Seq::empty()).len() == 0,
        joined(pieces.push(piece)) == joined(pieces) + piece,
        drawn_at(Seq::empty()) == 0,
        drawn_at(pieces.push(piece)) == drawn_at(pieces) + drawn(piece),
{
    assert(pieces.push(piece).drop_last() =~= pieces);
}

/// A cluster takes the cells it is shown in, but none if it holds a control
/// character: one of the first thirty-two, or one from delete to the end of the
/// second such row.
pub proof fn a_control_character_takes_no_cells(cluster: Seq<char>, i: int)
    ensures
        0 <= i < cluster.len() && (cluster[i] as int <= 0x1f || 0x7f <= cluster[i] as int <= 0x9f)
            ==> drawn(cluster) == 0,
        (forall|k: int|
            0 <= k < cluster.len() ==> 0x1f < #[trigger] cluster[k] as int && !(0x7f
                <= cluster[k] as int <= 0x9f)) ==> drawn(cluster) == display_width(cluster),
{
    if 0 <= i < cluster.len() && (cluster[i] as int <= 0x1f || 0x7f <= cluster[i] as int <= 0x9f) {
        assert(is_control(cluster[i]));
    }
    if forall|k: int|
        0 <= k < cluster.len() ==> 0x1f < #[trigger] cluster[k] as int && !(0x7f
            <= cluster[k] as int <= 0x9f) {
        assert forall|k: int| 0 <= k < cluster.len() implies !is_control(#[trigger] cluster[k]) by {
            assert(0x1f < cluster[k] as int);
        }
    }
}

/// A text that fits is left as it is: one that takes no more cells than there
/// are, and no more than sixteen characters for each. Any other is cut after the
/// last cluster that leaves a cell for the ellipsis; of one cell the ellipsis is
/// all there is, and of none nothing is shown.
pub proof fn a_text_is_cut_only_where_it_must_be(text: Seq<char>, width: usize, k: int)
    requires
        16 * width <= usize::MAX,
    ensures
        width == 0 ==> truncated(text, width).len() == 0,
        width > 0 && cells_of(text) <= width && text.len() <= 16 * width ==> truncated(text, width)
            == text,
        width == 1 && !(cells_of(text) <= 1 && text.len() <= 16) ==> truncated(text, width) == seq![
            '…',
        ],
        width > 1 && !(cells_of(text) <= width && text.len() <= 16 * width) && 0 <= k <= clusters(
            text,
        ).len() && drawn_at(clusters(text).take(k)) < width && joined(clusters(text).take(k)).len()
            <= 16 * width && (k == clusters(text).len() || drawn_at(clusters(text).take(k + 1))
            >= width || joined(clusters(text).take(k + 1)).len() > 16 * width) ==> truncated(
            text,
            width,
        ) == joined(clusters(text).take(k)).push('…'),
{
    let all = clusters(text);
    let cap = char_cap(width);
    if width > 1 && 0 <= k <= all.len() {
        the_longest_beginning_that_fits_is_kept(all, width - 1, cap, k);
        if k < all.len() {
            the_longest_beginning_that_fits_is_kept(all, width - 1, cap, k + 1);
        }
    }
}

} // verus!
