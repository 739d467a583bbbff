//! Application state and what each input does to it.

use vstd::prelude::*;

use crate::app::accounts::AccountSet;
use crate::app::input::Rect;
use crate::app::recent;
use crate::app::recent::Series;
use crate::app::roster;
use crate::app::roster::{RowRef, Selection};
use crate::app::tabs::{DetailTab, Overlay, Pane, TimeRange};
use crate::domain::{PollEvent, QuotaSnapshot};
use crate::ids::{AccountId, WindowId};
use crate::num;
use crate::protocol::wire::{
    AccountStatus, ConfigEdit, ConfigState, ProviderHealth, Request, WindowView,
};
use crate::rollover::WindowRollover;
use crate::time;
use crate::time::Timestamp;

verus! {

/// Poll events fetched for the Activity tab.
pub const RECENT_POLL_LIMIT: u32 = 100;

/// Rows PageUp/PageDown move the detail pane by.
pub const DETAIL_PAGE: isize = 5;

/// Columns one `j`/`k` press moves the Activity and Health tabs by. Wide
/// enough that a press visibly advances, narrow enough to stop inside a column
/// rather than skipping past it. The wheel moves by one column instead — a
/// notch is a nudge, a keypress is a stride.
pub const DETAIL_HSCROLL_STEP: isize = 6;

/// Pan steps that make up one full trend range for a keypress, so a press
/// always moves the same visible distance regardless of the zoom level.
pub const TREND_KEY_STEPS_PER_RANGE: i64 = 8;

/// Columns of the detail pane the trend chart does *not* plot into: its two
/// borders and the y-axis labels. An estimate — the axis is as wide as its
/// widest label — but it only sizes a wheel notch, where being a column out is
/// imperceptible.
pub const TREND_AXIS_COLUMNS: i64 = 8;

/// Further back than this no chart can be panned, in seconds: the distance
/// between the first instant and the last.
pub const MAX_PAN: i64 = 16_544_868_105_599;

/// Loaded history for one window.
#[derive(Debug, PartialEq, Eq)]
pub struct Trend {
    /// Account the series belongs to.
    pub account: AccountId,
    /// Window the series belongs to.
    pub window: WindowId,
    /// Display title, "account — window".
    pub title: String,
    /// Snapshots, oldest first.
    pub snapshots: Vec<QuotaSnapshot>,
    /// Rollovers observed over the same interval, oldest first. Recorded at
    /// poll time rather than inferred from `snapshots`, which the daemon
    /// downsamples — a boundary read off a peak-preserving bucket would be
    /// placed up to a bucket's width away from where it happened.
    pub rollovers: Vec<WindowRollover>,
    /// Range the series was fetched for, so the axis can be labeled.
    pub range: TimeRange,
    /// Right edge of the charted interval — `now` unless the view is panned
    /// into the past.
    pub until: Timestamp,
    /// When the daemon's oldest snapshot for this window was taken, whatever
    /// interval was fetched — `None` when it holds none. This is where the
    /// chart stops when it is scrolled backwards.
    pub earliest: Option<Timestamp>,
    /// The clock reading this page was fetched against. With `earliest` it
    /// says how much history exists, so the app can bound a pan without
    /// reading the clock itself.
    pub fetched_at: Timestamp,
}

/// What the detail pane needs fetched for its current tab.
#[derive(Debug, PartialEq, Eq)]
pub enum DetailQuery {
    /// History for the selected window.
    Trend {
        /// Account to query.
        account: AccountId,
        /// Window to chart.
        window: WindowId,
        /// Display title for the pane.
        title: String,
        /// Range being charted.
        range: TimeRange,
        /// Right edge of the charted interval.
        until: Timestamp,
        /// The request to send.
        request: Request,
    },
    /// Recent poll log.
    Activity(Request),
    /// Provider health.
    Health(Request),
}

/// What the event loop should do after a key press.
#[derive(Debug, PartialEq, Eq)]
pub enum Action {
    /// Nothing.
    Nothing,
    /// Leave the TUI (daemon keeps running).
    Quit,
    /// Send requests whose replies only matter as acks/errors.
    Send(Vec<Request>),
    /// Refetch whatever the detail pane is currently showing.
    ReloadDetail,
    /// Fetch the daemon's current settings into [`App::config`].
    LoadConfig,
    /// Ask the daemon to make one settings change. Distinct from
    /// [`Action::Send`] because the reply carries the resulting settings, and
    /// a rejection is the only way the user learns the edit did not take.
    EditConfig(ConfigEdit),
    /// Confirmed: stop the daemon, then quit.
    ShutdownDaemon,
}

/// Application state.
#[derive(Debug)]
pub struct App {
    /// Latest account statuses, sorted by (provider, label).
    pub statuses: Vec<AccountStatus>,
    /// Selected row, by stable identity.
    pub selection: Option<Selection>,
    /// Whether the user has moved the selection themselves. Until they have,
    /// the selection is re-derived on every refresh.
    pub user_moved: bool,
    /// The highlighted row of the quota list.
    pub list_selected: Option<usize>,
    /// Which pane the cursor is in, and so which axis a scroll moves along.
    pub focus: Pane,
    /// Active detail tab.
    pub detail: DetailTab,
    /// Whether the detail pane is shown (also suppressed on short terminals).
    pub detail_visible: bool,
    /// Range for the trend chart.
    pub range: TimeRange,
    /// Vertical scroll offset, in rows, within the Activity/Health tabs.
    pub detail_scroll: usize,
    /// Horizontal scroll offset, in columns, for Activity and Health — their
    /// rows are wider than most terminals and would otherwise be cut off with
    /// no way to read the rest.
    pub detail_hscroll: usize,
    /// Largest useful [`App::detail_hscroll`], recorded by the renderer, which
    /// is the only place that knows both the content width and the viewport.
    pub detail_hscroll_max: usize,
    /// Largest useful [`App::detail_scroll`], recorded by the same pass and
    /// for the same reason.
    pub detail_scroll_max: usize,
    /// How far the trend chart is panned into the past, in seconds. Zero means
    /// the chart ends at "now" and keeps following it. Kept in seconds rather
    /// than in steps so the wheel and the keyboard can move by different
    /// amounts along one axis, and so the clamp can land exactly on the oldest
    /// stored point rather than on the nearest step to it.
    pub trend_pan_secs: i64,
    /// Where the quota list was drawn, for hit-testing the pointer.
    pub quotas_area: Rect,
    /// Where the detail pane was drawn; empty while it is hidden.
    pub detail_area: Rect,
    /// Loaded trend series, if any.
    pub trend: Option<Trend>,
    /// Recent history per window, for the burn rates the rows draw.
    pub recent: Vec<Series>,
    /// Loaded poll log.
    pub activity: Vec<PollEvent>,
    /// Loaded provider health.
    pub health: Vec<ProviderHealth>,
    /// Modal drawn over the dashboard, if any.
    pub overlay: Option<Overlay>,
    /// The daemon's settings and how its last read of `config.toml` went.
    /// `None` until the first `GetConfig` reply lands.
    pub config: Option<ConfigState>,
    /// Cursor into [`App::settings_rows`], clamped on every use.
    pub settings_cursor: usize,
    /// Accounts with a manual poll in flight, for the spinner.
    pub polling: AccountSet,
    /// Spinner frame counter, advanced once per tick.
    pub spinner: usize,
    /// Status-line error, if any.
    pub error: Option<String>,
    /// True when the daemon connection is lost and reconnection is pending.
    pub disconnected: bool,
    /// Time of the most recent update, for the header.
    pub last_update: Option<Timestamp>,
}

// ---------------------------------------------------------------------------
// What the state means
// ---------------------------------------------------------------------------

impl App {
    /// What holds of every state: offsets within their bounds, and no account
    /// or series listed twice.
    pub open spec fn wf(self) -> bool {
        &&& 0 <= self.trend_pan_secs <= MAX_PAN
        &&& self.detail_scroll <= self.detail_scroll_max
        &&& self.detail_hscroll <= self.detail_hscroll_max
        &&& self.polling.wf()
        &&& recent::unique(self.recent@)
    }

    /// Row index of the current selection, if it still resolves.
    pub open spec fn index(self) -> Option<usize> {
        roster::index_of(self.statuses@, self.selection)
    }

    /// The currently selected row.
    pub open spec fn row(self) -> Option<RowRef> {
        match self.index() {
            Some(i) => Some(roster::rows_of(self.statuses@)[i as int]),
            None => None,
        }
    }

    /// The selected window and its owning account, when a window row is
    /// selected.
    pub open spec fn window(self) -> Option<(AccountStatus, WindowView)> {
        match self.row() {
            Some(row) => match row.window {
                Some(w) => Some(
                    (
                        self.statuses@[row.account as int],
                        self.statuses@[row.account as int].windows@[w as int],
                    ),
                ),
                None => None,
            },
            None => None,
        }
    }

    /// The loaded series, when it belongs to the selected window.
    pub open spec fn charted(self) -> Option<Trend> {
        match (self.window(), self.trend) {
            (Some((status, view)), Some(trend)) => if trend.account@ == status.account.id@
                && trend.window@ == view.window.id@ {
                Some(trend)
            } else {
                None
            },
            _ => None,
        }
    }

    /// Furthest the chart may pan back, in seconds.
    pub open spec fn max_pan(self) -> int {
        match self.charted() {
            Some(trend) => match trend.earliest {
                Some(earliest) => {
                    let spare = num::truncated(
                        trend.fetched_at.at() - earliest.at(),
                        time::NANOS_PER_SEC as int,
                    ) - self.range.secs();
                    if spare > 0 {
                        spare
                    } else {
                        0
                    }
                },
                None => 0,
            },
            None => 0,
        }
    }

    /// Whether the chart is showing the oldest history there is.
    pub open spec fn at_oldest(self) -> bool {
        self.max_pan() > 0 && self.trend_pan_secs >= self.max_pan()
    }

    /// The chart panned by `secs`, positive being later, between the present
    /// and the oldest stored point.
    pub open spec fn panned(self, secs: int) -> App {
        App {
            trend_pan_secs: num::limited(self.trend_pan_secs - secs, 0, self.max_pan()) as i64,
            ..self
        }
    }

    /// Whether panning by `secs` moves the chart, so that its series has to be
    /// fetched again.
    pub open spec fn pan_action(self, secs: int) -> Action {
        if self.panned(secs).trend_pan_secs == self.trend_pan_secs {
            Action::Nothing
        } else {
            Action::ReloadDetail
        }
    }

    /// Seconds one `j`/`k` press moves the chart.
    pub open spec fn key_step(self) -> int {
        self.range.secs() / (TREND_KEY_STEPS_PER_RANGE as int)
    }

    /// Seconds one wheel notch moves the chart: one column of the plot.
    pub open spec fn wheel_step(self) -> int {
        let columns = if self.detail_area.width > TREND_AXIS_COLUMNS {
            self.detail_area.width - TREND_AXIS_COLUMNS
        } else {
            1
        };
        if self.range.secs() / columns > 1 {
            self.range.secs() / columns
        } else {
            1
        }
    }

    /// The text tabs moved sideways, within what overflows.
    pub open spec fn columns_scrolled(self, delta: int) -> App {
        App {
            detail_hscroll: num::limited(
                self.detail_hscroll + delta,
                0,
                self.detail_hscroll_max as int,
            ) as usize,
            ..self
        }
    }

    /// The text tabs moved up or down, within what overflows.
    pub open spec fn rows_scrolled(self, delta: int) -> App {
        App {
            detail_scroll: num::limited(
                self.detail_scroll + delta,
                0,
                self.detail_scroll_max as int,
            ) as usize,
            ..self
        }
    }

    /// The row at `index` selected by the user. A pan belongs to the series it
    /// was made on, so choosing another row returns the chart to the present.
    pub open spec fn selecting(self, index: int) -> App {
        let target = roster::selection_at(self.statuses@, index);
        App {
            selection: target,
            user_moved: true,
            trend_pan_secs: if roster::same_selection(target, self.selection) {
                self.trend_pan_secs
            } else {
                0
            },
            list_selected: roster::index_of(self.statuses@, target),
            ..self
        }
    }

    /// The selection moved by `delta` rows, within the list.
    pub open spec fn moved(self, delta: int) -> App {
        let len = roster::rows_of(self.statuses@).len();
        if len == 0 {
            self
        } else {
            let current = match self.index() {
                Some(i) => i as int,
                None => 0,
            };
            self.selecting(num::limited(current + delta, 0, len - 1))
        }
    }

    /// Whether the cursor is in a detail pane that is actually on screen.
    pub open spec fn in_detail(self) -> bool {
        self.focus == Pane::Detail && self.detail_visible
    }

    /// The cursor moved to `pane`, revealing the detail pane if it goes there.
    pub open spec fn focusing(self, pane: Pane) -> App {
        App {
            focus: pane,
            detail_visible: self.detail_visible || pane == Pane::Detail,
            ..self
        }
    }

    /// The detail pane scrolled by `delta` key presses along its own axis.
    pub open spec fn detail_scrolled(self, delta: int) -> App {
        if self.detail == DetailTab::Trend {
            self.panned(delta * self.key_step())
        } else {
            self.columns_scrolled(delta * DETAIL_HSCROLL_STEP)
        }
    }

    /// What scrolling the detail pane needs fetched.
    pub open spec fn detail_scroll_action(self, delta: int) -> Action {
        if self.detail == DetailTab::Trend {
            self.pan_action(delta * self.key_step())
        } else {
            Action::Nothing
        }
    }

    /// The detail pane's horizontal view back at its origin.
    pub open spec fn scroll_reset(self) -> App {
        App { trend_pan_secs: 0, detail_hscroll: 0, ..self }
    }

    /// What going back to the origin needs fetched.
    pub open spec fn scroll_reset_action(self) -> Action {
        if self.trend_pan_secs > 0 {
            Action::ReloadDetail
        } else {
            Action::Nothing
        }
    }

    /// A tab opened: at its own top left, on screen.
    pub open spec fn tabbed(self, tab: DetailTab) -> App {
        App {
            detail: tab,
            detail_scroll: 0,
            detail_hscroll: 0,
            detail_hscroll_max: 0,
            detail_scroll_max: 0,
            detail_visible: true,
            ..self
        }
    }

    /// Another range charted, from the present.
    pub open spec fn ranged(self, range: TimeRange) -> App {
        App { range, trend_pan_secs: 0, ..self }
    }

    /// What is selected once `sorted` has replaced the accounts: what was, if
    /// the user chose it and it is still there; the row nearest its old place,
    /// if it is not; and the first window, for as long as the user has chosen
    /// nothing.
    pub open spec fn reselected(self, sorted: Seq<AccountStatus>) -> Option<Selection> {
        let rows = roster::rows_of(sorted);
        if self.user_moved {
            if roster::index_of(sorted, self.selection) is Some {
                self.selection
            } else {
                let old_place = match self.index() {
                    Some(i) => i as int,
                    None => 0,
                };
                roster::selection_at(
                    sorted,
                    if old_place < rows.len() {
                        old_place
                    } else {
                        rows.len() - 1
                    },
                )
            }
        } else {
            roster::selection_at(
                sorted,
                match roster::first_window(rows) {
                    Some(i) => i,
                    None => 0,
                },
            )
        }
    }
}

// ---------------------------------------------------------------------------
// The list
// ---------------------------------------------------------------------------

impl App {
    /// Fresh app with no data yet.
    pub fn new() -> (r: Self)
        ensures
            r.wf(),
            r.statuses@.len() == 0,
            r.selection is None,
            !r.user_moved,
            r.list_selected is None,
            r.focus == Pane::List,
            r.detail == DetailTab::Trend,
            r.detail_visible,
            r.range == TimeRange::H24,
            r.detail_scroll == 0,
            r.detail_hscroll == 0,
            r.detail_hscroll_max == 0,
            r.detail_scroll_max == 0,
            r.trend_pan_secs == 0,
            r.quotas_area == (Rect { x: 0, y: 0, width: 0, height: 0 }),
            r.detail_area == (Rect { x: 0, y: 0, width: 0, height: 0 }),
            r.trend is None,
            r.recent@.len() == 0,
            r.activity@.len() == 0,
            r.health@.len() == 0,
            r.overlay is None,
            r.config is None,
            r.settings_cursor == 0,
            r.polling@ == Set::<Seq<char>>::empty(),
            r.spinner == 0,
            r.error is None,
            !r.disconnected,
            r.last_update is None,
    {
        App {
            statuses: Vec::new(),
            selection: None,
            user_moved: false,
            list_selected: None,
            focus: Pane::List,
            detail: DetailTab::Trend,
            detail_visible: true,
            range: TimeRange::H24,
            detail_scroll: 0,
            detail_hscroll: 0,
            detail_hscroll_max: 0,
            detail_scroll_max: 0,
            trend_pan_secs: 0,
            quotas_area: Rect { x: 0, y: 0, width: 0, height: 0 },
            detail_area: Rect { x: 0, y: 0, width: 0, height: 0 },
            trend: None,
            recent: Vec::new(),
            activity: Vec::new(),
            health: Vec::new(),
            overlay: None,
            config: None,
            settings_cursor: 0,
            polling: AccountSet::new(),
            spinner: 0,
            error: None,
            disconnected: false,
            last_update: None,
        }
    }

    /// Replace statuses (sorted for stable display), keeping the selection
    /// pinned to the same account/window where it still exists.
    pub fn set_statuses(&mut self, statuses: Vec<AccountStatus>)
        ensures
            final(self).statuses@ == roster::arranged(statuses@),
            *final(self) == (App {
                statuses: final(self).statuses,
                selection: old(self).reselected(roster::arranged(statuses@)),
                list_selected: roster::index_of(
                    roster::arranged(statuses@),
                    old(self).reselected(roster::arranged(statuses@)),
                ),
                ..*old(self)
            }),
            old(self).wf() ==> final(self).wf(),
    {
        let sorted = roster::arrange(statuses);
        let previous_index = self.selected_index();
        self.statuses = sorted;
        let rows = self.rows();
        if self.user_moved {
            if roster::find_selection(&self.statuses, &self.selection).is_none() {
                // The selected row is gone: fall back to the nearest row at
                // the old position rather than jumping to the top.
                let place: usize = match previous_index {
                    Some(i) => i,
                    None => 0,
                };
                self.selection = if place < rows.len() {
                    roster::select_at(&self.statuses, place)
                } else if rows.len() > 0 {
                    roster::select_at(&self.statuses, rows.len() - 1)
                } else {
                    None
                };
            }
        } else {
            // Until the user navigates, keep re-deriving the default: land on
            // a window rather than an account header so the trend pane has
            // something to chart. This must be re-evaluated on every refresh,
            // not just the first — the TUI usually connects before the
            // daemon's startup poll lands, so the initial `Status` has an
            // account with *no* windows yet.
            let place: usize = match roster::find_window(&rows) {
                Some(i) => i,
                None => 0,
            };
            self.selection = roster::select_at(&self.statuses, place);
        }
        self.list_selected = roster::find_selection(&self.statuses, &self.selection);
    }

    /// Flattened selectable rows: each account header followed by its windows.
    pub fn rows(&self) -> (r: Vec<RowRef>)
        ensures
            r@ == roster::rows_of(self.statuses@),
            forall|i: int| 0 <= i < r@.len() ==> roster::refers(self.statuses@, #[trigger] r@[i]),
    {
        roster::rows(&self.statuses)
    }

    /// Row index of the current selection, if it still resolves.
    pub fn selected_index(&self) -> (r: Option<usize>)
        ensures
            r == self.index(),
            r is Some ==> r->0 < roster::rows_of(self.statuses@).len(),
    {
        roster::find_selection(&self.statuses, &self.selection)
    }

    /// The currently selected row, if any rows exist.
    pub fn selected_row(&self) -> (r: Option<RowRef>)
        ensures
            r == self.row(),
            r is Some ==> roster::refers(self.statuses@, r->0),
    {
        match self.selected_index() {
            Some(i) => {
                let rows = self.rows();
                Some(rows[i])
            },
            None => None,
        }
    }

    /// The selected window and its owning account, when a window row (not an
    /// account header) is selected.
    pub fn selected_window(&self) -> (r: Option<(&AccountStatus, &WindowView)>)
        ensures
            match r {
                Some((status, view)) => self.window() == Some((*status, *view)),
                None => self.window() is None,
            },
    {
        match self.selected_row() {
            Some(row) => match row.window {
                Some(w) => {
                    let status = &self.statuses[row.account];
                    Some((status, &status.windows[w]))
                },
                None => None,
            },
            None => None,
        }
    }

    /// Move the selection in response to a key press, which also stops
    /// [`App::set_statuses`] from re-deriving its default.
    pub(crate) fn select(&mut self, index: usize)
        ensures
            *final(self) == old(self).selecting(index as int),
            old(self).wf() ==> final(self).wf(),
    {
        let target = roster::select_at(&self.statuses, index);
        if !roster::is_same_selection(&target, &self.selection) {
            self.trend_pan_secs = 0;
        }
        self.selection = target;
        self.user_moved = true;
        self.list_selected = roster::find_selection(&self.statuses, &self.selection);
    }

    /// Move the selection by `delta` rows, clamped to the list.
    pub(crate) fn move_selection(&mut self, delta: isize)
        ensures
            *final(self) == old(self).moved(delta as int),
            old(self).wf() ==> final(self).wf(),
    {
        let rows = self.rows();
        if rows.len() == 0 {
            return;
        }
        let current: usize = match self.selected_index() {
            Some(i) => i,
            None => 0,
        };
        let last: i128 = rows.len() as i128 - 1;
        let target: i128 = num::limit(current as i128 + delta as i128, 0, last);
        self.select(target as usize);
    }
}

} // verus!
