//! The detail pane: panning the trend chart, scrolling the text tabs, and the
//! wheel.

use vstd::prelude::*;

use crate::app::input::{MouseEvent, MouseEventKind};
use crate::app::recent;
use crate::app::state::{
    Action, App, DetailQuery, Trend, DETAIL_HSCROLL_STEP, RECENT_POLL_LIMIT, TREND_AXIS_COLUMNS,
    TREND_KEY_STEPS_PER_RANGE,
};
use crate::app::tabs::{DetailTab, Pane};
use crate::domain;
use crate::domain::QuotaSnapshot;
use crate::ids::{AccountId, WindowId};
use crate::num;
use crate::protocol::wire::Request;
use crate::time;
use crate::time::Timestamp;

verus! {

impl App {
    /// Right edge of the charted interval: `now`, less however far the user
    /// has panned back.
    pub fn trend_until(&self, now: Timestamp) -> (r: Timestamp)
        requires
            time::representable(now.at() - self.trend_pan_secs * time::NANOS_PER_SEC),
        ensures
            r.at() == now.at() - self.trend_pan_secs * time::NANOS_PER_SEC,
    {
        let back: i128 = self.trend_pan_secs as i128 * time::NANOS_PER_SEC;
        Timestamp::from_nanos(now.nanos_since_epoch() - back)
    }

    /// Whether the chart's right edge is the present rather than a point the
    /// user has panned back to. Only then does the window's *upcoming* reset
    /// belong just off that edge.
    pub fn trend_is_live(&self) -> (r: bool)
        ensures
            r == (self.trend_pan_secs == 0),
    {
        self.trend_pan_secs == 0
    }

    /// Seconds one `j`/`k` press moves the chart: a fixed fraction of the
    /// visible range, so a press covers the same visible distance at every
    /// zoom level.
    fn trend_key_step_secs(&self) -> (r: i64)
        ensures
            r == self.key_step(),
            0 < r <= 604_800,
    {
        self.range.duration() / TREND_KEY_STEPS_PER_RANGE
    }

    /// Seconds one wheel notch moves the chart: one column of the plot. A
    /// notch is a nudge, not a jump — a wheel gesture arrives as a stream of
    /// them, and a keypress-sized step per notch overshoots the whole range in
    /// one flick of the finger.
    fn trend_wheel_step_secs(&self) -> (r: i64)
        ensures
            r == self.wheel_step(),
            0 < r <= 604_800,
    {
        let width: i64 = self.detail_area.width as i64;
        let columns: i64 = if width > TREND_AXIS_COLUMNS {
            width - TREND_AXIS_COLUMNS
        } else {
            1
        };
        let step: i64 = self.range.duration() / columns;
        proof {
            let secs = self.range.secs();
            assert(0 <= secs / (columns as int) <= secs) by (nonlinear_arith)
                requires
                    secs >= 0,
                    columns >= 1,
            ;
        }
        if step > 1 {
            step
        } else {
            1
        }
    }

    /// The loaded series, but only when it belongs to the row the cursor is
    /// on. A reload is in flight while the selection moves, and the previous
    /// window's history is not an answer about this one — neither for drawing
    /// it, nor for deciding how far back it can be scrolled.
    pub fn charted_trend(&self) -> (r: Option<&Trend>)
        ensures
            match r {
                Some(t) => self.charted() == Some(*t),
                None => self.charted() is None,
            },
    {
        match self.selected_window() {
            Some((status, view)) => match &self.trend {
                Some(trend) => if trend.account.same(&status.account.id) && trend.window.same(
                    &view.window.id,
                ) {
                    Some(trend)
                } else {
                    None
                },
                None => None,
            },
            None => None,
        }
    }

    /// Furthest the chart may pan back, in seconds: far enough to bring the
    /// oldest stored point to the left edge of the plot, and no further.
    ///
    /// Zero whenever the stored history is narrower than the range — including
    /// before the first page has landed. The chart then stays pinned to the
    /// right edge, following the clock as new points arrive, instead of
    /// sliding off into time that nothing was ever recorded in.
    fn max_trend_pan_secs(&self) -> (r: i64)
        ensures
            r == self.max_pan(),
            0 <= r <= crate::app::state::MAX_PAN,
    {
        match self.charted_trend() {
            Some(trend) => match trend.earliest {
                Some(earliest) => {
                    let history: i128 = time::whole_secs(trend.fetched_at.since(earliest));
                    let spare: i128 = history - self.range.duration() as i128;
                    if spare > 0 {
                        spare as i64
                    } else {
                        0
                    }
                },
                None => 0,
            },
            None => 0,
        }
    }

    /// Install a freshly fetched series, re-clamping the pan to the history it
    /// reports. Between the request and the reply the extent may have changed
    /// — a different window, a shorter history — and the view must not be left
    /// stranded past the end of it.
    ///
    /// A view already at the left stop is re-pinned there rather than merely
    /// clamped: the pan is measured back from *now*, so holding the number
    /// still would walk the oldest point off the left edge by however long the
    /// refresh took. Pan zero pins the view to the present in exactly the same
    /// way, at the other end.
    pub fn set_trend(&mut self, trend: Trend)
        ensures
            ({
                let loaded = App { trend: Some(trend), ..*old(self) };
                *final(self) == (App {
                    trend_pan_secs: if old(self).at_oldest() {
                        loaded.max_pan() as i64
                    } else {
                        num::limited(
                            old(self).trend_pan_secs as int,
                            0,
                            loaded.max_pan(),
                        ) as i64
                    },
                    ..loaded
                })
            }),
            old(self).wf() ==> final(self).wf(),
            0 <= final(self).trend_pan_secs <= final(self).max_pan(),
    {
        let pinned = self.trend_at_oldest();
        self.trend = Some(trend);
        let ghost loaded = *self;
        let max: i64 = self.max_trend_pan_secs();
        self.trend_pan_secs = if pinned {
            max
        } else {
            num::limit(self.trend_pan_secs as i128, 0, max as i128) as i64
        };
        assert(self.max_pan() == loaded.max_pan());
    }

    /// Install one account's recent history, bucketed per window.
    ///
    /// Replaces everything held for that account, so a window the daemon has
    /// stopped reporting leaves with its series rather than freezing a rate
    /// that no longer has data behind it.
    pub fn set_recent(&mut self, account: &AccountId, snapshots: Vec<QuotaSnapshot>)
        requires
            old(self).wf(),
        ensures
            final(self).wf(),
            *final(self) == (App { recent: final(self).recent, ..*old(self) }),
            forall|a: Seq<char>, w: Seq<char>| #[trigger]
                recent::held(final(self).recent@, a, w) == if a == account@ {
                    domain::readings_of(snapshots@, w)
                } else {
                    recent::held(old(self).recent@, a, w)
                },
    {
        recent::install(&mut self.recent, account, snapshots);
    }

    /// One window's recent readings, oldest first; empty until the first
    /// history reply for its account lands.
    pub fn recent_points(&self, account: &AccountId, window: &WindowId) -> (r: &[QuotaSnapshot])
        requires
            self.wf(),
        ensures
            r@ == recent::held(self.recent@, account@, window@),
    {
        recent::points(&self.recent, account, window)
    }

    /// Pan the chart by `secs`, positive being *later*, clipped at both ends:
    /// the present on the right, the oldest stored point on the left.
    fn pan_trend(&mut self, secs: i64) -> (r: Action)
        ensures
            *final(self) == old(self).panned(secs as int),
            r == old(self).pan_action(secs as int),
            old(self).wf() ==> final(self).wf(),
    {
        let max: i64 = self.max_trend_pan_secs();
        let panned: i128 = num::limit(
            self.trend_pan_secs as i128 - secs as i128,
            0,
            max as i128,
        );
        if panned == self.trend_pan_secs as i128 {
            return Action::Nothing;
        }
        self.trend_pan_secs = panned as i64;
        // The visible interval moved, so the series must be refetched.
        Action::ReloadDetail
    }

    /// Whether the chart is showing the oldest history there is, and so cannot
    /// be scrolled back any further.
    pub fn trend_at_oldest(&self) -> (r: bool)
        ensures
            r == self.at_oldest(),
    {
        let max: i64 = self.max_trend_pan_secs();
        max > 0 && self.trend_pan_secs >= max
    }

    /// Move the cursor to `pane`, revealing the detail pane if that is where it
    /// is going. Returns whatever the move needs fetched.
    pub(crate) fn focus_pane(&mut self, pane: Pane) -> (r: Action)
        ensures
            *final(self) == old(self).focusing(pane),
            r == if pane == Pane::Detail && !old(self).detail_visible {
                Action::ReloadDetail
            } else {
                Action::Nothing
            },
    {
        if pane == Pane::Detail && !self.detail_visible {
            self.detail_visible = true;
            self.focus = pane;
            return Action::ReloadDetail;
        }
        self.focus = pane;
        Action::Nothing
    }

    /// Scroll the detail pane along its own axis in response to `j`/`k`:
    /// later/earlier for the trend chart, right/left for the Activity and
    /// Health columns. Positive `delta` moves the view towards the right —
    /// later in time, further along a row.
    pub(crate) fn scroll_detail(&mut self, delta: isize) -> (r: Action)
        requires
            -1 <= delta <= 1,
        ensures
            *final(self) == old(self).detail_scrolled(delta as int),
            r == old(self).detail_scroll_action(delta as int),
            old(self).wf() ==> final(self).wf(),
    {
        match self.detail {
            DetailTab::Trend => {
                let step: i64 = self.trend_key_step_secs();
                let secs: i64 = if delta == 0 {
                    0
                } else if delta > 0 {
                    step
                } else {
                    -step
                };
                assert(secs == delta * step) by (nonlinear_arith)
                    requires
                        -1 <= delta <= 1,
                        delta == 0 ==> secs == 0,
                        delta > 0 ==> secs == step,
                        delta < 0 ==> secs == -step,
                ;
                self.pan_trend(secs)
            },
            _ => {
                self.scroll_detail_columns(delta * DETAIL_HSCROLL_STEP);
                Action::Nothing
            },
        }
    }

    /// Move the text tabs sideways, bounded by what the renderer last measured
    /// as overflowing — scrolling into blank columns is not reading anything,
    /// and every one of them has to be scrolled back through.
    fn scroll_detail_columns(&mut self, delta: isize)
        ensures
            *final(self) == old(self).columns_scrolled(delta as int),
            old(self).wf() ==> final(self).wf(),
    {
        self.detail_hscroll = num::limit(
            self.detail_hscroll as i128 + delta as i128,
            0,
            self.detail_hscroll_max as i128,
        ) as usize;
    }

    /// Move the text tabs up or down, bounded the same way.
    pub(crate) fn scroll_detail_rows(&mut self, delta: isize)
        ensures
            *final(self) == old(self).rows_scrolled(delta as int),
            old(self).wf() ==> final(self).wf(),
    {
        self.detail_scroll = num::limit(
            self.detail_scroll as i128 + delta as i128,
            0,
            self.detail_scroll_max as i128,
        ) as usize;
    }

    /// Put the detail pane's horizontal view back at its origin: the left edge
    /// of a row, the present moment on the chart.
    pub(crate) fn reset_detail_scroll(&mut self) -> (r: Action)
        ensures
            *final(self) == old(self).scroll_reset(),
            r == old(self).scroll_reset_action(),
            old(self).wf() ==> final(self).wf(),
    {
        let panned = self.trend_pan_secs > 0;
        self.trend_pan_secs = 0;
        self.detail_hscroll = 0;
        if panned {
            Action::ReloadDetail
        } else {
            Action::Nothing
        }
    }

    /// Record how far the detail pane's content overruns its viewport, in
    /// columns and in rows. Called by the renderer, which is the only place
    /// that knows both the content and the viewport it is drawn into.
    pub fn set_detail_bounds(&mut self, columns: usize, rows: usize)
        ensures
            *final(self) == (App {
                detail_hscroll_max: columns,
                detail_scroll_max: rows,
                detail_hscroll: if old(self).detail_hscroll < columns {
                    old(self).detail_hscroll
                } else {
                    columns
                },
                detail_scroll: if old(self).detail_scroll < rows {
                    old(self).detail_scroll
                } else {
                    rows
                },
                ..*old(self)
            }),
            old(self).wf() ==> final(self).wf(),
    {
        self.detail_hscroll_max = columns;
        self.detail_scroll_max = rows;
        if self.detail_hscroll > columns {
            self.detail_hscroll = columns;
        }
        if self.detail_scroll > rows {
            self.detail_scroll = rows;
        }
    }

    /// How many rows and columns a wheel notch asks to move by; `None` for
    /// anything the wheel did not do.
    pub open spec fn notch(kind: MouseEventKind) -> Option<(int, int)> {
        match kind {
            MouseEventKind::ScrollDown => Some((1, 0)),
            MouseEventKind::ScrollUp => Some((-1, 0)),
            MouseEventKind::ScrollRight => Some((0, 1)),
            MouseEventKind::ScrollLeft => Some((0, -1)),
            MouseEventKind::Elsewise => None,
        }
    }

    /// The detail pane after one wheel notch: the chart moves along time
    /// whichever way the wheel turned, the text tabs down or across.
    pub open spec fn detail_wheeled(self, rows: int, columns: int) -> App {
        if self.detail == DetailTab::Trend {
            self.panned(
                (if columns != 0 {
                    columns
                } else {
                    rows
                }) * self.wheel_step(),
            )
        } else {
            self.rows_scrolled(rows).columns_scrolled(columns)
        }
    }

    /// What one wheel notch over the detail pane needs fetched.
    pub open spec fn detail_wheel_action(self, rows: int, columns: int) -> Action {
        if self.detail == DetailTab::Trend {
            self.pan_action(
                (if columns != 0 {
                    columns
                } else {
                    rows
                }) * self.wheel_step(),
            )
        } else {
            Action::Nothing
        }
    }

    /// The state after a mouse event.
    pub open spec fn moused(self, mouse: MouseEvent) -> App {
        match (self.overlay, App::notch(mouse.kind)) {
            (None, Some((rows, columns))) => if self.detail_area.covers(mouse.column, mouse.row) {
                (App { focus: Pane::Detail, ..self }).detail_wheeled(rows, columns)
            } else if self.quotas_area.covers(mouse.column, mouse.row) {
                let listed = App { focus: Pane::List, ..self };
                if rows == 0 {
                    listed
                } else {
                    listed.moved(rows)
                }
            } else {
                self
            },
            _ => self,
        }
    }

    /// What a mouse event needs fetched.
    pub open spec fn mouse_action(self, mouse: MouseEvent) -> Action {
        match (self.overlay, App::notch(mouse.kind)) {
            (None, Some((rows, columns))) => if self.detail_area.covers(mouse.column, mouse.row) {
                (App { focus: Pane::Detail, ..self }).detail_wheel_action(rows, columns)
            } else if self.quotas_area.covers(mouse.column, mouse.row) && rows != 0 {
                Action::ReloadDetail
            } else {
                Action::Nothing
            },
            _ => Action::Nothing,
        }
    }

    /// Route a mouse event by the pane the pointer is over, which also moves
    /// the cursor there — the wheel and `j`/`k` should never disagree about
    /// which pane they are scrolling.
    pub fn handle_mouse(&mut self, mouse: MouseEvent) -> (r: Action)
        ensures
            *final(self) == old(self).moused(mouse),
            r == old(self).mouse_action(mouse),
            old(self).wf() ==> final(self).wf(),
    {
        // Overlays cover the panes below them; scrolling what cannot be seen
        // would be action at a distance.
        if self.overlay.is_some() {
            return Action::Nothing;
        }
        // One notch, one line. A wheel gesture arrives as a stream of these
        // events, so anything coarser turns a flick of the finger into a jump
        // across the whole pane.
        let rows: isize;
        let columns: isize;
        match mouse.kind {
            MouseEventKind::ScrollDown => {
                rows = 1;
                columns = 0;
            },
            MouseEventKind::ScrollUp => {
                rows = -1;
                columns = 0;
            },
            MouseEventKind::ScrollRight => {
                rows = 0;
                columns = 1;
            },
            MouseEventKind::ScrollLeft => {
                rows = 0;
                columns = -1;
            },
            MouseEventKind::Elsewise => {
                return Action::Nothing;
            },
        }
        if self.detail_area.contains(mouse.column, mouse.row) {
            self.focus = Pane::Detail;
            self.wheel_detail(rows, columns)
        } else if self.quotas_area.contains(mouse.column, mouse.row) {
            self.focus = Pane::List;
            // The list is one column of rows; a sideways gesture has nowhere
            // to go in it.
            if rows == 0 {
                return Action::Nothing;
            }
            self.move_selection(rows);
            Action::ReloadDetail
        } else {
            Action::Nothing
        }
    }

    /// Wheel handling for the detail pane, where each tab has its own axes:
    /// the chart has only time, the text tabs have rows down and columns
    /// across. Unlike `j`/`k`, which must pick one axis per pane, the wheel
    /// reports which one the user asked for.
    fn wheel_detail(&mut self, rows: isize, columns: isize) -> (r: Action)
        requires
            -1 <= rows <= 1,
            -1 <= columns <= 1,
        ensures
            *final(self) == old(self).detail_wheeled(rows as int, columns as int),
            r == old(self).detail_wheel_action(rows as int, columns as int),
            old(self).wf() ==> final(self).wf(),
    {
        match self.detail {
            DetailTab::Trend => {
                // Time is the chart's only axis, so both gestures travel along
                // it — one plot column per notch.
                let delta: isize = if columns != 0 {
                    columns
                } else {
                    rows
                };
                let step: i64 = self.trend_wheel_step_secs();
                let secs: i64 = if delta == 0 {
                    0
                } else if delta > 0 {
                    step
                } else {
                    -step
                };
                assert(secs == delta * step) by (nonlinear_arith)
                    requires
                        -1 <= delta <= 1,
                        delta == 0 ==> secs == 0,
                        delta > 0 ==> secs == step,
                        delta < 0 ==> secs == -step,
                ;
                self.pan_trend(secs)
            },
            _ => {
                self.scroll_detail_rows(rows);
                self.scroll_detail_columns(columns);
                Action::Nothing
            },
        }
    }

    /// What the detail pane needs fetched right now, if anything.
    ///
    /// Called both on the key presses that change the pane and on every
    /// daemon update, which is what keeps the pane live instead of frozen at
    /// whatever it held when it was opened.
    pub fn detail_query(&self, now: Timestamp) -> (r: Option<DetailQuery>)
        requires
            self.wf(),
            self.detail == DetailTab::Trend && self.window() is Some ==> time::representable(
                now.at() - (self.trend_pan_secs + self.range.secs()) * time::NANOS_PER_SEC,
            ),
        ensures
            match self.detail {
                DetailTab::Trend => match (self.window(), r) {
                    (Some((status, view)), Some(DetailQuery::Trend {
                        account,
                        window,
                        title,
                        range,
                        until,
                        request: Request::History {
                            account: asked,
                            window: asked_window,
                            since,
                            until: asked_until,
                            max_points,
                        },
                    })) => {
                        &&& account == status.account.id
                        &&& window == view.window.id
                        &&& title@ == status.account.label@ + " — "@ + view.window.label@
                        &&& range == self.range
                        &&& until.at() == now.at() - self.trend_pan_secs * time::NANOS_PER_SEC
                        &&& asked == status.account.id
                        &&& asked_window == Some(view.window.id)
                        &&& since.at() == until.at() - self.range.secs() * time::NANOS_PER_SEC
                        &&& asked_until == if self.trend_pan_secs > 0 {
                            Some(until)
                        } else {
                            None
                        }
                        &&& max_points == Some(480u32)
                    },
                    (None, None) => true,
                    _ => false,
                },
                DetailTab::Activity => r == Some(
                    DetailQuery::Activity(Request::RecentPolls { limit: RECENT_POLL_LIMIT }),
                ),
                DetailTab::Health => r == Some(DetailQuery::Health(Request::Providers)),
            },
            self.detail is Activity ==> r == Some(
                DetailQuery::Activity(Request::RecentPolls { limit: 100 }),
            ),
    {
        match self.detail {
            DetailTab::Trend => match self.selected_window() {
                Some((status, view)) => {
                    let at: i128 = now.nanos_since_epoch();
                    let back: i128 = (self.trend_pan_secs + self.range.duration()) as i128
                        * time::NANOS_PER_SEC;
                    let since = Timestamp::from_nanos(at - back);
                    let until = self.trend_until(now);
                    let title = status.account.label.clone().concat(" — ").concat(
                        view.window.label.as_str(),
                    );
                    Some(
                        DetailQuery::Trend {
                            account: status.account.id.clone(),
                            window: view.window.id.clone(),
                            title,
                            range: self.range,
                            until,
                            request: Request::History {
                                account: status.account.id.clone(),
                                window: Some(view.window.id.clone()),
                                since,
                                // `None` means "now" to the daemon, which is
                                // what an unpanned chart wants: it keeps
                                // following the clock.
                                until: if self.trend_pan_secs > 0 {
                                    Some(until)
                                } else {
                                    None
                                },
                                max_points: Some(self.range.max_points()),
                            },
                        },
                    )
                },
                None => None,
            },
            DetailTab::Activity => Some(
                DetailQuery::Activity(Request::RecentPolls { limit: RECENT_POLL_LIMIT }),
            ),
            DetailTab::Health => Some(DetailQuery::Health(Request::Providers)),
        }
    }
}

} // verus!
