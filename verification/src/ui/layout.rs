//! Where things go: the panes of the one view, boxes centered over it, and the
//! key bar.

use vstd::prelude::*;

use ratatui::layout::{Constraint, Flex, Layout};

use crate::app::input::Rect;
use crate::app::state::App;
use crate::app::tabs::{DetailTab, Overlay, Pane};

verus! {

/// Smallest detail pane still worth drawing: a chart needs axes plus a few
/// rows of plot area to say anything.
pub const MIN_DETAIL_HEIGHT: u16 = 13;

/// Tallest the detail pane grows to; beyond this the quota list benefits more
/// from the rows than the chart does.
pub const MAX_DETAIL_HEIGHT: u16 = 22;

/// Terminal height below which the detail pane is suppressed, so the quota
/// list itself does not get squeezed to nothing.
pub const MIN_HEIGHT_FOR_DETAIL: u16 = 26;

/// Rows of the header.
pub const HEADER_HEIGHT: u16 = 4;

/// Rows the quota list keeps.
pub const MIN_QUOTAS_HEIGHT: u16 = 4;

/// Rows of the key bar.
pub const KEYS_HEIGHT: u16 = 1;

/// How much of an area one part of it asks for.
#[derive(Debug, Clone, Copy, PartialEq, Eq, Structural)]
pub enum Extent {
    /// So many cells.
    Length(u16),
    /// At least so many cells.
    Min(u16),
    /// So many percent of the whole.
    Percentage(u16),
}

/// How the parts of an area are arranged.
#[derive(Debug, Clone, Copy, PartialEq, Eq, Structural)]
pub enum Arrangement {
    /// One below the other.
    Stacked,
    /// Side by side.
    SideBySide,
    /// One below the other, around the middle.
    MiddleStacked,
    /// Side by side, around the middle.
    MiddleSideBySide,
}

/// Whether one rectangle lies inside another.
pub open spec fn lies_in(part: Rect, whole: Rect) -> bool {
    &&& whole.x <= part.x
    &&& whole.y <= part.y
    &&& part.x + part.width <= whole.x + whole.width
    &&& part.y + part.height <= whole.y + whole.height
}

/// Whether a rectangle ends on the screen's last column and row at most.
pub open spec fn on_screen(area: Rect) -> bool {
    area.x + area.width <= u16::MAX && area.y + area.height <= u16::MAX
}

/// Where a part of `len` cells begins in the middle of `size` cells from
/// `start`; an odd cell left over goes before it.
pub open spec fn middle(start: u16, size: u16, len: u16) -> int {
    start + (size - len + 1) / 2
}

/// Whether parts are arranged from the start of their area, with no room
/// between them.
pub open spec fn from_start(arrangement: Arrangement) -> bool {
    arrangement == Arrangement::Stacked || arrangement == Arrangement::SideBySide
}

/// Whether parts are arranged downwards.
pub open spec fn downwards(arrangement: Arrangement) -> bool {
    arrangement == Arrangement::Stacked || arrangement == Arrangement::MiddleStacked
}

/// Where a rectangle begins in the direction of an arrangement.
pub open spec fn start_of(area: Rect, arrangement: Arrangement) -> u16 {
    if downwards(arrangement) {
        area.y
    } else {
        area.x
    }
}

/// How long a rectangle is in the direction of an arrangement.
pub open spec fn length_of(area: Rect, arrangement: Arrangement) -> u16 {
    if downwards(arrangement) {
        area.height
    } else {
        area.width
    }
}

/// Whether one part begins at the start of the area, and every next one where
/// the one before it ends.
pub open spec fn abut(parts: Seq<Rect>, area: Rect, arrangement: Arrangement) -> bool {
    &&& parts.len() > 0 ==> start_of(parts[0], arrangement) == start_of(area, arrangement)
    &&& forall|i: int|
        0 < i < parts.len() ==> start_of(#[trigger] parts[i], arrangement) == start_of(
            parts[i - 1],
            arrangement,
        ) + length_of(parts[i - 1], arrangement)
}

/// Whether no extent is a part of the whole.
pub open spec fn in_cells(extents: Seq<Extent>) -> bool {
    forall|i: int| 0 <= i < extents.len() ==> !(#[trigger] extents[i] is Percentage)
}

/// How many cells are asked for.
pub open spec fn asked(extents: Seq<Extent>) -> nat
    decreases extents.len(),
{
    if extents.len() == 0 {
        0
    } else {
        asked(extents.drop_last()) + match extents.last() {
            Extent::Length(n) => n as nat,
            Extent::Min(n) => n as nat,
            Extent::Percentage(_) => 0,
        }
    }
}

/// Whether one extent is a minimum, the others are lengths, and there are cells
/// for them all.
pub open spec fn one_grows(extents: Seq<Extent>, size: u16) -> bool {
    &&& asked(extents) <= size
    &&& exists|m: int|
        {
            &&& 0 <= m < extents.len()
            &&& #[trigger] extents[m] is Min
            &&& forall|i: int|
                0 <= i < extents.len() && i != m ==> #[trigger] extents[i] is Length
        }
}

/// What the part at `i` gets of `size` cells when one extent grows: a length
/// what it asks for, the minimum what is left.
pub open spec fn share(extents: Seq<Extent>, size: u16, i: int) -> int {
    match extents[i] {
        Extent::Length(n) => n as int,
        Extent::Min(n) => size - asked(extents) + n,
        Extent::Percentage(_) => 0,
    }
}

/// So many percent of `size` cells, rounded to the nearest, a half upwards.
pub open spec fn percent_of(size: u16, percent: u16) -> int {
    (percent * size + 50) / 100
}

/// An area divided: `ratatui::layout::Layout::split`. There is a part for each
/// extent, all of them inside the area, and they span it across the direction
/// they are arranged in. Along it:
///
/// - Arranged from the start, parts asked for in cells abut: room between them
///   costs the solver more than any extent left unmet, and where one ends and
///   the next begins is rounded alike. That is said of fewer than two hundred
///   parts, too few to share cells out in pieces that rounding could tell apart.
/// - Where all but one are lengths, and the other a minimum, and all of them
///   fit, the lengths are met exactly and the minimum grows to what is left.
/// - Two percentages that make up the whole meet at the nearest cell.
/// - A single length that fits, arranged around the middle, is met exactly:
///   equal room on either side leaves one place for it, rounded up to a whole
///   cell.
///
/// How much the parts get otherwise is for the solver to weigh, and nothing is
/// said of it.
#[verifier::external_body]
fn split(area: Rect, arrangement: Arrangement, extents: &[Extent]) -> (r: Vec<Rect>)
    requires
        on_screen(area),
    ensures
        r@.len() == extents@.len(),
        forall|i: int| 0 <= i < r@.len() ==> lies_in(#[trigger] r@[i], area),
        downwards(arrangement) ==> (forall|i: int|
            0 <= i < r@.len() ==> (#[trigger] r@[i]).x == area.x && r@[i].width == area.width),
        !downwards(arrangement) ==> (forall|i: int|
            0 <= i < r@.len() ==> (#[trigger] r@[i]).y == area.y && r@[i].height == area.height),
        from_start(arrangement) && in_cells(extents@) && extents@.len() < 200 ==> abut(
            r@,
            area,
            arrangement,
        ),
        from_start(arrangement) && one_grows(extents@, length_of(area, arrangement)) ==> (forall|
            i: int,
        |
            0 <= i < r@.len() ==> length_of(#[trigger] r@[i], arrangement) == share(
                extents@,
                length_of(area, arrangement),
                i,
            )),
        from_start(arrangement) && extents@.len() == 2 ==> (extents@[0] matches Extent::Percentage(
            p,
        ) ==> extents@[1] matches Extent::Percentage(q) ==> p + q == 100 ==> {
            &&& abut(r@, area, arrangement)
            &&& length_of(r@[0], arrangement) == percent_of(length_of(area, arrangement), p)
            &&& length_of(r@[1], arrangement) == length_of(area, arrangement) - length_of(
                r@[0],
                arrangement,
            )
        }),
        arrangement == Arrangement::MiddleStacked && extents@.len() == 1 ==> (
        extents@[0] matches Extent::Length(len) ==> len <= area.height ==> r@[0].height == len
            && r@[0].y == middle(area.y, area.height, len)),
        arrangement == Arrangement::MiddleSideBySide && extents@.len() == 1 ==> (
        extents@[0] matches Extent::Length(len) ==> len <= area.width ==> r@[0].width == len
            && r@[0].x == middle(area.x, area.width, len)),
{
    let kinds = extents.iter().map(|e| match *e {
        Extent::Length(n) => Constraint::Length(n),
        Extent::Min(n) => Constraint::Min(n),
        Extent::Percentage(n) => Constraint::Percentage(n),
    });
    let layout = match arrangement {
        Arrangement::Stacked => Layout::vertical(kinds),
        Arrangement::SideBySide => Layout::horizontal(kinds),
        Arrangement::MiddleStacked => Layout::vertical(kinds).flex(Flex::Center),
        Arrangement::MiddleSideBySide => Layout::horizontal(kinds).flex(Flex::Center),
    };
    let whole = ratatui::layout::Rect::new(area.x, area.y, area.width, area.height);
    layout.split(whole).iter().map(|p| Rect::new(p.x, p.y, p.width, p.height)).collect()
}

/// Rows of the detail pane on a terminal of `height` rows; none when it is
/// hidden or the terminal too short for it.
pub open spec fn detail_rows(visible: bool, height: u16) -> u16 {
    if !visible || height < MIN_HEIGHT_FOR_DETAIL {
        0
    } else {
        crate::num::limited(
            height as int / 3,
            MIN_DETAIL_HEIGHT as int,
            MAX_DETAIL_HEIGHT as int,
        ) as u16
    }
}

/// Rows of the detail pane on a terminal of `height` rows.
pub fn detail_height(visible: bool, height: u16) -> (r: u16)
    ensures
        r == detail_rows(visible, height),
        r <= MAX_DETAIL_HEIGHT,
{
    if visible && height >= MIN_HEIGHT_FOR_DETAIL {
        let third: u16 = height / 3;
        if third < MIN_DETAIL_HEIGHT {
            MIN_DETAIL_HEIGHT
        } else if third > MAX_DETAIL_HEIGHT {
            MAX_DETAIL_HEIGHT
        } else {
            third
        }
    } else {
        0
    }
}

/// A terminal tall enough for the detail pane leaves the header, the key bar
/// and the quota list their rows.
pub proof fn the_quota_list_is_never_squeezed_out(height: u16)
    requires
        detail_rows(true, height) > 0,
    ensures
        HEADER_HEIGHT + MIN_QUOTAS_HEIGHT + detail_rows(true, height) + KEYS_HEIGHT <= height,
{
}

/// Where each pane of the view goes.
#[derive(Debug, Clone, Copy, PartialEq, Eq, Structural)]
pub struct Panes {
    /// The header strip.
    pub header: Rect,
    /// The quota list.
    pub quotas: Rect,
    /// The detail pane.
    pub detail: Rect,
    /// The key bar.
    pub keys: Rect,
}

/// The panes of the view in `area`, with so many rows for the detail pane.
/// Each is as wide as the area and lies inside it, one below the other from the
/// top: the header, the quota list, the detail pane, the key bar. Where there
/// is room for them all the quota list gets what the others leave.
pub fn panes(area: Rect, detail_height: u16) -> (r: Panes)
    requires
        on_screen(area),
    ensures
        lies_in(r.header, area) && r.header.x == area.x && r.header.width == area.width,
        lies_in(r.quotas, area) && r.quotas.x == area.x && r.quotas.width == area.width,
        lies_in(r.detail, area) && r.detail.x == area.x && r.detail.width == area.width,
        lies_in(r.keys, area) && r.keys.x == area.x && r.keys.width == area.width,
        r.header.y == area.y,
        r.quotas.y == r.header.y + r.header.height,
        r.detail.y == r.quotas.y + r.quotas.height,
        r.keys.y == r.detail.y + r.detail.height,
        HEADER_HEIGHT + MIN_QUOTAS_HEIGHT + detail_height + KEYS_HEIGHT <= area.height ==> {
            &&& r.header.height == HEADER_HEIGHT
            &&& r.quotas.height == area.height - HEADER_HEIGHT - detail_height - KEYS_HEIGHT
            &&& r.detail.height == detail_height
            &&& r.keys.height == KEYS_HEIGHT
        },
        detail_height + 9 <= area.height ==> r.header.height == 4 && r.keys.height == 1
            && r.detail.height == detail_height && r.quotas.height == area.height - detail_height
            - 5,
{
    let extents = [
        Extent::Length(HEADER_HEIGHT),
        Extent::Min(MIN_QUOTAS_HEIGHT),
        Extent::Length(detail_height),
        Extent::Length(KEYS_HEIGHT),
    ];
    let parts = split(area, Arrangement::Stacked, &extents);
    proof {
        let wanted = extents@;
        reveal_with_fuel(asked, 5);
        assert(asked(wanted) == HEADER_HEIGHT + MIN_QUOTAS_HEIGHT + detail_height + KEYS_HEIGHT);
        assert(abut(parts@, area, Arrangement::Stacked));
        if asked(wanted) <= area.height {
            assert(wanted[1] is Min);
            assert(one_grows(wanted, area.height));
            assert(length_of(parts@[0], Arrangement::Stacked) == share(wanted, area.height, 0));
        }
    }
    Panes { header: parts[0], quotas: parts[1], detail: parts[2], keys: parts[3] }
}

/// Percent of the header's columns for who is polled.
pub const IDENTITY_PERCENT: u16 = 55;

/// Percent of the header's columns for the headroom.
pub const HEADROOM_PERCENT: u16 = 45;

/// The two halves of the header, side by side: a little over half for who is
/// polled, the rest for the headroom.
pub fn header_halves(area: Rect) -> (r: (Rect, Rect))
    requires
        on_screen(area),
    ensures
        lies_in(r.0, area) && r.0.y == area.y && r.0.height == area.height,
        lies_in(r.1, area) && r.1.y == area.y && r.1.height == area.height,
        r.0.x == area.x,
        r.0.width == percent_of(area.width, IDENTITY_PERCENT),
        r.0.width == (55 * area.width + 50) / 100,
        r.1.x == r.0.x + r.0.width,
        r.1.x + r.1.width == area.x + area.width,
{
    let extents = [Extent::Percentage(IDENTITY_PERCENT), Extent::Percentage(HEADROOM_PERCENT)];
    let parts = split(area, Arrangement::SideBySide, &extents);
    assert(abut(parts@, area, Arrangement::SideBySide));
    assert(start_of(parts@[1], Arrangement::SideBySide) == parts@[1].x);
    (parts[0], parts[1])
}

/// The lesser of two lengths.
pub open spec fn lesser(a: u16, b: u16) -> u16 {
    if a < b {
        a
    } else {
        b
    }
}

fn at_most(a: u16, b: u16) -> (r: u16)
    ensures
        r == lesser(a, b),
{
    if a < b {
        a
    } else {
        b
    }
}

/// A centered rectangle of at most `width` × `height`, shrinking to fit: it
/// lies inside `area`, with the same room on either side, to the cell.
pub fn centered(area: Rect, width: u16, height: u16) -> (r: Rect)
    requires
        on_screen(area),
    ensures
        lies_in(r, area),
        r.width == lesser(width, area.width),
        r.height == lesser(height, area.height),
        r.x == middle(area.x, area.width, r.width),
        r.y == middle(area.y, area.height, r.height),
{
    let rows = split(
        area,
        Arrangement::MiddleStacked,
        &[Extent::Length(at_most(height, area.height))],
    );
    let row = rows[0];
    assert(lies_in(rows@[0], area));
    let cells = split(
        row,
        Arrangement::MiddleSideBySide,
        &[Extent::Length(at_most(width, area.width))],
    );
    assert(lies_in(cells@[0], row));
    cells[0]
}

impl App {
    /// Remember where the panes were drawn, so the pointer can be hit-tested
    /// against the same geometry the user is looking at. A detail pane of no
    /// height is nowhere, and cannot hold the cursor, or `j`/`k` would scroll
    /// something invisible.
    pub fn place_panes(&mut self, detail_height: u16, quotas: Rect, detail: Rect)
        ensures
            *final(self) == (App {
                focus: if detail_height == 0 {
                    Pane::List
                } else {
                    old(self).focus
                },
                quotas_area: quotas,
                detail_area: if detail_height == 0 {
                    (Rect { x: 0, y: 0, width: 0, height: 0 })
                } else {
                    detail
                },
                ..*old(self)
            }),
            old(self).wf() ==> final(self).wf(),
    {
        self.quotas_area = quotas;
        if detail_height == 0 {
            self.focus = Pane::List;
            self.detail_area = Rect { x: 0, y: 0, width: 0, height: 0 };
        } else {
            self.detail_area = detail;
        }
    }
}

/// The keys bound in a context.
pub open spec fn keys_for(
    overlay: Option<Overlay>,
    detail_visible: bool,
    focus: Pane,
    detail: DetailTab,
) -> Seq<char> {
    match overlay {
        Some(Overlay::Settings)
            => "j/k move  +/- adjust  Enter toggle  Backspace inherit  r reload  Esc close"@,
        Some(_) => "any key closes  ·  y confirms a shutdown"@,
        None => if !detail_visible {
            "j/k move  r poll  R all  d show detail  s settings  ? help  q quit"@
        } else if focus == Pane::List {
            "j/k move  l detail  r poll  R all  Tab tab  [ ] range  d hide  s settings  ? help  q quit"@
        } else if detail == DetailTab::Trend {
            "j/k pan time  wheel nudges  g now  h list  Tab tab  [ ] range  d hide  ? help  q quit"@
        } else {
            "j/k scroll across  g/G ends  PgUp/PgDn · wheel rows  h list  Tab tab  ? help  q quit"@
        },
    }
}

/// The bottom key bar, listing only what is bound in the current context —
/// which includes where the cursor is, since `j`/`k` change axis with it.
pub fn key_bar(app: &App) -> (r: &'static str)
    ensures
        r@ == keys_for(app.overlay, app.detail_visible, app.focus, app.detail),
{
    match (app.overlay, app.detail_visible, app.focus, app.detail) {
        (Some(Overlay::Settings), _, _, _)
            => "j/k move  +/- adjust  Enter toggle  Backspace inherit  r reload  Esc close",
        (Some(Overlay::Help), _, _, _) => "any key closes  ·  y confirms a shutdown",
        (Some(Overlay::ConfirmShutdown), _, _, _) => "any key closes  ·  y confirms a shutdown",
        (None, false, _, _)
            => "j/k move  r poll  R all  d show detail  s settings  ? help  q quit",
        (None, true, Pane::List, _)
            => "j/k move  l detail  r poll  R all  Tab tab  [ ] range  d hide  s settings  ? help  q quit",
        (None, true, Pane::Detail, DetailTab::Trend)
            => "j/k pan time  wheel nudges  g now  h list  Tab tab  [ ] range  d hide  ? help  q quit",
        (None, true, Pane::Detail, _)
            => "j/k scroll across  g/G ends  PgUp/PgDn · wheel rows  h list  Tab tab  ? help  q quit",
    }
}

/// The detail pane takes a third of the screen, from thirteen to twenty-two
/// rows; none when it is hidden, and none on a screen of less than twenty-six.
pub proof fn the_detail_pane_takes_a_third(visible: bool, height: u16)
    ensures
        detail_rows(visible, height) == 0 <==> !visible || height < 26,
        visible && 26 <= height < 39 ==> detail_rows(visible, height) == 13,
        visible && 39 <= height < 69 ==> detail_rows(visible, height) == height / 3,
        visible && 69 <= height ==> detail_rows(visible, height) == 22,
{
}

/// A percentage of a length is rounded to the nearest cell, halves up.
pub proof fn a_percentage_is_rounded_to_the_nearest(size: u16, percent: u16)
    ensures
        -50 <= 100 * percent_of(size, percent) - percent * size <= 50,
        100 * percent_of(size, percent) - percent * size != -50,
{
    let n = percent * size;
    assert(n >= 0) by (nonlinear_arith)
        requires
            n == percent * size,
    ;
}

/// What is centred leaves as much before it as behind, and an odd cell before.
pub proof fn what_is_centred_is_in_the_middle(start: u16, size: u16, len: u16)
    requires
        len <= size,
    ensures
        ({
            let before = middle(start, size, len) - start;
            let behind = start + size - (middle(start, size, len) + len);
            before == behind || before == behind + 1
        }),
{
}

/// What is asked for in cells is added up, and where one part grows it is given
/// what the others leave.
pub proof fn one_part_takes_what_the_others_leave(
    extents: Seq<Extent>,
    extent: Extent,
    size: u16,
    i: int,
)
    requires
        0 <= i < extents.len(),
    ensures
        asked(Seq::empty()) == 0,
        extent matches Extent::Length(n) ==> asked(extents.push(extent)) == asked(extents) + n,
        extent matches Extent::Min(n) ==> asked(extents.push(extent)) == asked(extents) + n,
        extent is Percentage ==> asked(extents.push(extent)) == asked(extents),
        extents[i] matches Extent::Length(n) ==> share(extents, size, i) == n,
        extents[i] matches Extent::Min(n) ==> share(extents, size, i) == n + (size - asked(
            extents,
        )),
{
    assert(extents.push(extent).drop_last() =~= extents);
}

/// Every cell of a rectangle that lies in another is a cell of that other.
pub proof fn a_part_lies_in_the_whole(part: Rect, whole: Rect, column: int, row: int)
    requires
        lies_in(part, whole),
        part.x <= column < part.x + part.width,
        part.y <= row < part.y + part.height,
    ensures
        whole.x <= column < whole.x + whole.width,
        whole.y <= row < whole.y + whole.height,
{
}

/// The keys on show are those that mean something: those of the overlay that is
/// open, or those of the pane that has the cursor.
pub proof fn the_keys_on_show_are_those_that_count(visible: bool, focus: Pane, detail: DetailTab)
    ensures
        keys_for(Some(Overlay::Settings), visible, focus, detail)
            == "j/k move  +/- adjust  Enter toggle  Backspace inherit  r reload  Esc close"@,
        keys_for(Some(Overlay::Help), visible, focus, detail)
            == "any key closes  ·  y confirms a shutdown"@,
        keys_for(Some(Overlay::ConfirmShutdown), visible, focus, detail)
            == "any key closes  ·  y confirms a shutdown"@,
        !visible ==> keys_for(None, visible, focus, detail)
            == "j/k move  r poll  R all  d show detail  s settings  ? help  q quit"@,
        visible && focus is List ==> keys_for(None, visible, focus, detail)
            == "j/k move  l detail  r poll  R all  Tab tab  [ ] range  d hide  s settings  ? help  q quit"@,
        visible && focus is Detail && detail is Trend ==> keys_for(None, visible, focus, detail)
            == "j/k pan time  wheel nudges  g now  h list  Tab tab  [ ] range  d hide  ? help  q quit"@,
        visible && focus is Detail && detail !is Trend ==> keys_for(None, visible, focus, detail)
            == "j/k scroll across  g/G ends  PgUp/PgDn · wheel rows  h list  Tab tab  ? help  q quit"@,
{
}

} // verus!
