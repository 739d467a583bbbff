//! What holds of the dashboard across inputs.

use vstd::prelude::*;

use crate::app::input::{KeyCode, KeyEvent, KeyEventKind, MouseEvent};
use crate::app::keys;
use crate::app::roster;
use crate::app::roster::Selection;
use crate::app::state::{Action, App, Trend};
use crate::app::tabs::{DetailTab, Overlay, Pane};
use crate::protocol::wire::{AccountStatus, Request};
use crate::text;
use crate::time::Timestamp;

verus! {

/// Stopping the daemon takes a confirmation: no key asks for it unless the
/// confirmation is on screen, and there only `y` does.
pub proof fn shutdown_needs_confirmation(app: App, key: KeyEvent, next: App)
    requires
        app.key_step_to(key, next, Action::ShutdownDaemon),
    ensures
        app.overlay == Some(Overlay::ConfirmShutdown),
        key.code == KeyCode::Char('y') || key.code == KeyCode::Char('Y'),
{
}

/// Ctrl-C quits, whatever is on screen, and changes nothing.
pub proof fn control_c_quits_from_anywhere(app: App, key: KeyEvent, next: App, action: Action)
    requires
        key.kind == KeyEventKind::Press,
        key.control,
        key.code == KeyCode::Char('c'),
        app.key_step_to(key, next, action),
    ensures
        action == Action::Quit,
        next == app,
{
}

/// Any key closes the help overlay, and does nothing else.
pub proof fn any_key_closes_help(app: App, key: KeyEvent, next: App, action: Action)
    requires
        key.kind == KeyEventKind::Press,
        !(key.control && key.code == KeyCode::Char('c')),
        app.overlay == Some(Overlay::Help),
        app.key_step_to(key, next, action),
    ensures
        next == (App { overlay: None, ..app }),
        action == Action::Nothing,
{
}

/// No key on the dashboard leaves the cursor in a hidden detail pane.
pub proof fn the_dashboard_never_hides_the_cursor(
    app: App,
    code: KeyCode,
    next: App,
    action: Action,
)
    requires
        app.focus == Pane::Detail ==> app.detail_visible,
        app.dashboard_step(code, next, action),
    ensures
        next.focus == Pane::Detail ==> next.detail_visible,
{
}

/// A hidden detail pane never holds the cursor: hiding the pane takes the cursor
/// out of it, and moving the cursor into it shows it. That holds of any key,
/// whatever is on screen.
pub proof fn a_hidden_pane_never_holds_the_cursor(
    app: App,
    key: KeyEvent,
    next: App,
    action: Action,
)
    requires
        app.focus == Pane::Detail ==> app.detail_visible,
        app.key_step_to(key, next, action),
    ensures
        next.focus == Pane::Detail ==> next.detail_visible,
{
}

/// The wheel does nothing to panes an overlay covers.
pub proof fn overlays_shield_the_panes(app: App, mouse: MouseEvent)
    requires
        app.overlay is Some,
    ensures
        app.moused(mouse) == app,
        app.mouse_action(mouse) == Action::Nothing,
{
}

/// However the chart is panned, it ends between the present and the oldest
/// stored point.
pub proof fn panning_stays_within_the_history(app: App, secs: int)
    requires
        app.max_pan() <= i64::MAX,
    ensures
        0 <= app.panned(secs).trend_pan_secs <= app.max_pan(),
        app.panned(secs).max_pan() == app.max_pan(),
{
    let next = app.panned(secs);
    assert(next.charted() == app.charted());
}

/// A history that does not outlast the range pins the chart to the present.
pub proof fn a_short_history_pins_the_chart(app: App, secs: int)
    requires
        app.max_pan() == 0,
        app.trend_pan_secs == 0,
    ensures
        app.panned(secs) == app,
        app.pan_action(secs) == Action::Nothing,
{
}

/// Panning one way and back again returns to the same view, unless an end was
/// reached.
pub proof fn panning_back_undoes_panning(app: App, secs: int)
    requires
        0 <= app.trend_pan_secs <= app.max_pan() <= i64::MAX,
        0 <= app.trend_pan_secs - secs <= app.max_pan(),
    ensures
        app.panned(secs).panned(-secs) == app,
{
    panning_stays_within_the_history(app, secs);
}

/// Scrolling never leaves what overflows the pane.
pub proof fn scrolling_stays_within_the_content(app: App, delta: int)
    ensures
        app.rows_scrolled(delta).detail_scroll <= app.detail_scroll_max,
        app.columns_scrolled(delta).detail_hscroll <= app.detail_hscroll_max,
{
}

/// Choosing another row returns the chart to the present; staying on the same
/// one keeps its pan.
pub proof fn another_row_starts_at_the_present(app: App, index: int)
    ensures
        ({
            let next = app.selecting(index);
            if roster::same_selection(next.selection, app.selection) {
                next.trend_pan_secs == app.trend_pan_secs
            } else {
                next.trend_pan_secs == 0
            }
        }),
{
}

/// A row the user chose stays chosen through a refresh for as long as it is
/// listed, wherever it has moved to.
pub proof fn a_chosen_row_survives_a_refresh(
    app: App,
    sorted: Seq<AccountStatus>,
    selection: Selection,
    at: int,
)
    requires
        app.user_moved,
        app.selection == Some(selection),
        0 <= at < roster::rows_of(sorted).len() <= usize::MAX,
        roster::names(sorted, roster::rows_of(sorted)[at], selection),
    ensures
        app.reselected(sorted) == app.selection,
        match roster::index_of(sorted, app.reselected(sorted)) {
            Some(i) => roster::names(sorted, roster::rows_of(sorted)[i as int], selection),
            None => false,
        },
{
    roster::index_is_the_first_named_row(sorted, selection);
}

/// A row that is gone gives way to the one nearest its old place.
pub proof fn a_lost_row_gives_way_to_its_neighbour(app: App, sorted: Seq<AccountStatus>)
    requires
        app.user_moved,
        roster::index_of(sorted, app.selection) is None,
        roster::rows_of(sorted).len() > 0,
        app.index() is Some,
    ensures
        app.reselected(sorted) == roster::selection_at(
            sorted,
            if (app.index())->0 < roster::rows_of(sorted).len() {
                (app.index())->0 as int
            } else {
                roster::rows_of(sorted).len() - 1
            },
        ),
        app.reselected(sorted) is Some,
{
}

/// Until the user moves the selection it lands on a window, as soon as any
/// account has one.
pub proof fn the_default_selection_is_a_window(app: App, sorted: Seq<AccountStatus>, at: int)
    requires
        !app.user_moved,
        0 <= at < roster::rows_of(sorted).len(),
        roster::rows_of(sorted)[at].window is Some,
    ensures
        app.reselected(sorted) matches Some(s) && s.window is Some,
{
    first_window_exists(roster::rows_of(sorted), at);
}

proof fn first_window_exists(rows: Seq<roster::RowRef>, at: int)
    requires
        0 <= at < rows.len(),
        rows[at].window is Some,
    ensures
        match roster::first_window(rows) {
            Some(i) => 0 <= i <= at && rows[i].window is Some,
            None => false,
        },
    decreases rows.len(),
{
    if at < rows.len() - 1 {
        first_window_exists(rows.drop_last(), at);
    } else {
        first_window_found(rows.drop_last());
    }
}

proof fn first_window_found(rows: Seq<roster::RowRef>)
    ensures
        roster::first_window(rows) matches Some(i) ==> 0 <= i < rows.len()
            && rows[i].window is Some,
    decreases rows.len(),
{
    if rows.len() > 0 {
        first_window_found(rows.drop_last());
    }
}

/// Opening a tab starts at its top left, and keeps the interval the chart is
/// panned to.
pub proof fn opening_a_tab_keeps_the_pan(app: App, tab: DetailTab)
    ensures
        app.tabbed(tab).detail_scroll == 0,
        app.tabbed(tab).detail_hscroll == 0,
        app.tabbed(tab).trend_pan_secs == app.trend_pan_secs,
{
}

/// How far the chart can be panned back: as many whole seconds as the window's
/// history outlasts the range on display, and not at all where another window's
/// history is held, or none.
pub proof fn the_chart_pans_as_far_as_the_history(app: App, trend: Trend, earliest: Timestamp)
    requires
        app.trend == Some(trend),
        trend.earliest == Some(earliest),
        earliest.at() <= trend.fetched_at.at(),
    ensures
        app.window() matches Some((status, view)) && trend.account@ == status.account.id@
            && trend.window@ == view.window.id@ ==> {
            let held = trend.fetched_at.at() - earliest.at();
            let span = app.range.secs() * 1_000_000_000;
            &&& held <= span ==> app.max_pan() == 0
            &&& held >= span ==> app.max_pan() * 1_000_000_000 <= held - span < (app.max_pan() + 1)
                * 1_000_000_000
        },
        !(app.window() matches Some((status, view)) && trend.account@ == status.account.id@
            && trend.window@ == view.window.id@) ==> app.max_pan() == 0,
        app.at_oldest() <==> app.max_pan() > 0 && app.trend_pan_secs >= app.max_pan(),
{
}

/// With no history, or none that says where it begins, the chart does not pan.
pub proof fn without_a_history_the_chart_does_not_pan(app: App)
    ensures
        app.trend is None ==> app.max_pan() == 0,
        app.trend matches Some(trend) && trend.earliest is None ==> app.max_pan() == 0,
        app.window() is None ==> app.max_pan() == 0,
{
}

/// Panning goes to the present for positive seconds and to the past for negative
/// ones, by exactly as many, until an end is reached; it changes nothing else,
/// and the history is asked for again exactly when the view has moved.
pub proof fn panning_moves_by_what_it_is_told(app: App, secs: int)
    requires
        0 <= app.trend_pan_secs <= app.max_pan() <= i64::MAX,
    ensures
        ({
            let next = app.panned(secs);
            let to = app.trend_pan_secs - secs;
            &&& next == (App { trend_pan_secs: next.trend_pan_secs, ..app })
            &&& 0 <= to <= app.max_pan() ==> next.trend_pan_secs == to
            &&& to < 0 ==> next.trend_pan_secs == 0
            &&& to > app.max_pan() ==> next.trend_pan_secs == app.max_pan()
            &&& app.pan_action(secs) is Nothing <==> next.trend_pan_secs == app.trend_pan_secs
            &&& app.pan_action(secs) is Nothing || app.pan_action(secs) is ReloadDetail
        }),
{
}

/// A key pans by an eighth of the range; a notch of the wheel by what a column of
/// the plot stands for, and by a second at least.
pub proof fn a_step_is_a_share_of_the_range(app: App)
    ensures
        app.key_step() * 8 == app.range.secs(),
        app.wheel_step() >= 1,
        app.detail_area.width > 8 ==> {
            let columns = app.detail_area.width - 8;
            app.wheel_step() == 1 && app.range.secs() < 2 * columns || app.wheel_step() * columns
                <= app.range.secs() < (app.wheel_step() + 1) * columns
        },
        app.detail_area.width <= 8 ==> app.wheel_step() == app.range.secs(),
{
    let columns = app.detail_area.width - 8;
    if columns > 0 {
        let (n, q) = (app.range.secs(), app.range.secs() / columns);
        vstd::arithmetic::div_mod::lemma_fundamental_div_mod(n, columns);
        vstd::arithmetic::div_mod::lemma_mod_bound(n, columns);
        assert(columns * q == q * columns) by (nonlinear_arith);
        assert((q + 1) * columns == q * columns + columns) by (nonlinear_arith);
    }
}

/// Scrolling goes by exactly as many rows or columns as it is told, until an end
/// of what overflows is reached, and moves nothing else.
pub proof fn scrolling_moves_by_what_it_is_told(app: App, delta: int)
    ensures
        ({
            let (to, next) = (app.detail_scroll + delta, app.rows_scrolled(delta));
            &&& next == (App { detail_scroll: next.detail_scroll, ..app })
            &&& 0 <= to <= app.detail_scroll_max ==> next.detail_scroll == to
            &&& to < 0 ==> next.detail_scroll == 0
            &&& to > app.detail_scroll_max ==> next.detail_scroll == app.detail_scroll_max
        }),
        ({
            let (to, next) = (app.detail_hscroll + delta, app.columns_scrolled(delta));
            &&& next == (App { detail_hscroll: next.detail_hscroll, ..app })
            &&& 0 <= to <= app.detail_hscroll_max ==> next.detail_hscroll == to
            &&& to < 0 ==> next.detail_hscroll == 0
            &&& to > app.detail_hscroll_max ==> next.detail_hscroll == app.detail_hscroll_max
        }),
{
}

/// Choosing a row selects what the row stands for, and marks the selection as the
/// user's; nothing else changes but the chart's pan.
pub proof fn choosing_a_row_selects_it(app: App, index: int)
    requires
        0 <= index < roster::rows_of(app.statuses@).len(),
    ensures
        ({
            let next = app.selecting(index);
            &&& next.selection is Some && roster::names(
                app.statuses@,
                roster::rows_of(app.statuses@)[index],
                next.selection->0,
            )
            &&& next.user_moved
            &&& next.list_selected == roster::index_of(app.statuses@, next.selection)
            &&& next == (App {
                selection: next.selection,
                user_moved: true,
                trend_pan_secs: next.trend_pan_secs,
                list_selected: next.list_selected,
                ..app
            })
        }),
{
}

/// Moving goes by exactly as many rows as it is told, from the row that is
/// selected or else the first, and stops at either end of the list.
pub proof fn moving_goes_by_what_it_is_told(app: App, delta: int)
    ensures
        ({
            let rows = roster::rows_of(app.statuses@).len();
            let from = if app.index() is Some {
                app.index()->0 as int
            } else {
                0
            };
            &&& rows == 0 ==> app.moved(delta) == app
            &&& rows > 0 && 0 <= from + delta < rows ==> app.moved(delta) == app.selecting(
                from + delta,
            )
            &&& rows > 0 && from + delta < 0 ==> app.moved(delta) == app.selecting(0)
            &&& rows > 0 && from + delta >= rows ==> app.moved(delta) == app.selecting(rows - 1)
        }),
{
}

/// The selected window is the one the selected row is of, and there is none while
/// an account's own row is selected; the chart on hand is shown only for the
/// window it was asked for.
pub proof fn the_chart_is_of_the_selected_window(app: App)
    ensures
        app.window() is Some ==> app.row() is Some && (app.row()->0).window is Some,
        app.row() is None || (app.row()->0).window is None ==> app.window() is None
            && app.charted() is None,
        app.row() is Some && (app.row()->0).window is Some ==> {
            let row = app.row()->0;
            let status = app.statuses@[row.account as int];
            app.window() == Some((status, status.windows@[row.window->0 as int]))
        },
        app.charted() matches Some(trend) ==> app.trend == Some(trend) && app.window() is Some
            && trend.account@ == (app.window()->0).0.account.id@ && trend.window@ == (
        app.window()->0).1.window.id@,
        app.window() is Some && app.trend is Some && (app.trend->0).account@ == (
        app.window()->0).0.account.id@ && (app.trend->0).window@ == (
        app.window()->0).1.window.id@ ==> app.charted() == app.trend,
{
}

/// What the wheel does depends on what it is over: over the detail pane it pans
/// the chart or scrolls the tab, over the list it moves the selection a row, and
/// elsewhere it does nothing. The pane it is over takes the focus.
pub proof fn the_wheel_goes_to_the_pane_it_is_over(app: App, mouse: MouseEvent)
    requires
        app.overlay is None,
    ensures
        ({
            let over = app.detail_area.covers(mouse.column, mouse.row);
            let listed = !over && app.quotas_area.covers(mouse.column, mouse.row);
            let focused = App { focus: Pane::Detail, ..app };
            let inside = App { focus: Pane::List, ..app };
            let next = app.moused(mouse);
            let action = app.mouse_action(mouse);
            &&& mouse.kind is Elsewise || !over && !listed ==> next == app && action is Nothing
            &&& over && app.detail is Trend && (mouse.kind is ScrollDown
                || mouse.kind is ScrollRight) ==> next == focused.panned(app.wheel_step())
                && action == focused.pan_action(app.wheel_step())
            &&& over && app.detail is Trend && (mouse.kind is ScrollUp || mouse.kind is ScrollLeft)
                ==> next == focused.panned(-app.wheel_step()) && action == focused.pan_action(
                -app.wheel_step(),
            )
            &&& over && app.detail !is Trend && mouse.kind is ScrollDown ==> next
                == focused.rows_scrolled(1).columns_scrolled(0) && action is Nothing
            &&& over && app.detail !is Trend && mouse.kind is ScrollUp ==> next
                == focused.rows_scrolled(-1).columns_scrolled(0) && action is Nothing
            &&& over && app.detail !is Trend && mouse.kind is ScrollRight ==> next
                == focused.rows_scrolled(0).columns_scrolled(1) && action is Nothing
            &&& over && app.detail !is Trend && mouse.kind is ScrollLeft ==> next
                == focused.rows_scrolled(0).columns_scrolled(-1) && action is Nothing
            &&& listed && mouse.kind is ScrollDown ==> next == inside.moved(1)
                && action is ReloadDetail
            &&& listed && mouse.kind is ScrollUp ==> next == inside.moved(-1)
                && action is ReloadDetail
            &&& listed && (mouse.kind is ScrollLeft || mouse.kind is ScrollRight) ==> next == inside
                && action is Nothing
        }),
{
    let step = app.wheel_step();
    assert(1 * step == step) by (nonlinear_arith);
    assert((-1) * step == -step) by (nonlinear_arith);
}

/// The keys that move: in the list by a row and to its ends, in the detail pane
/// by a step of the chart or six columns of a tab and to its ends.
pub proof fn moving_keys_move(app: App, code: KeyCode, next: App, action: Action)
    requires
        app.dashboard_step(code, next, action),
    ensures
        ({
            let inside = app.focus is Detail && app.detail_visible;
            let rows = roster::rows_of(app.statuses@).len();
            let down = code == KeyCode::Char('j') || code is Down;
            let up = code == KeyCode::Char('k') || code is Up;
            let first = code == KeyCode::Char('g') || code is Home;
            let last = code == KeyCode::Char('G') || code is End;
            &&& !inside && down ==> next == app.moved(1) && action is ReloadDetail
            &&& !inside && up ==> next == app.moved(-1) && action is ReloadDetail
            &&& !inside && first ==> next == app.selecting(0) && action is ReloadDetail
            &&& !inside && last && rows > 0 ==> next == app.selecting(rows - 1)
                && action is ReloadDetail
            &&& inside && app.detail is Trend && down ==> next == app.panned(app.key_step())
                && action == app.pan_action(app.key_step())
            &&& inside && app.detail is Trend && up ==> next == app.panned(-app.key_step())
                && action == app.pan_action(-app.key_step())
            &&& inside && app.detail !is Trend && down ==> next == app.columns_scrolled(6)
                && action is Nothing
            &&& inside && app.detail !is Trend && up ==> next == app.columns_scrolled(-6)
                && action is Nothing
            &&& inside && (first || last && app.detail is Trend) ==> next == (App {
                trend_pan_secs: 0,
                detail_hscroll: 0,
                ..app
            }) && (action is ReloadDetail <==> app.trend_pan_secs > 0) && (action is ReloadDetail
                || action is Nothing)
            &&& inside && last && app.detail !is Trend ==> next == (App {
                detail_hscroll: app.detail_hscroll_max,
                ..app
            }) && action is Nothing
            &&& code is PageDown ==> next == app.rows_scrolled(5) && action is Nothing
            &&& code is PageUp ==> next == app.rows_scrolled(-5) && action is Nothing
        }),
{
    let step = app.key_step();
    assert(1 * step == step) by (nonlinear_arith);
    assert((-1) * step == -step) by (nonlinear_arith);
}

/// The keys that open and close: the overlays, the detail pane, its tabs and the
/// range of its chart.
pub proof fn opening_keys_open(app: App, code: KeyCode, next: App, action: Action)
    requires
        app.dashboard_step(code, next, action),
    ensures
        code == KeyCode::Char('q') ==> next == app && action is Quit,
        code == KeyCode::Char('Q') ==> next == (App {
            overlay: Some(Overlay::ConfirmShutdown),
            ..app
        }) && action is Nothing,
        code == KeyCode::Char('?') ==> next == (App { overlay: Some(Overlay::Help), ..app })
            && action is Nothing,
        code == KeyCode::Char('s') ==> next == (App {
            overlay: Some(Overlay::Settings),
            settings_cursor: 0,
            ..app
        }) && action is LoadConfig,
        code is Esc && app.focus is Detail ==> next == (App { focus: Pane::List, ..app })
            && action is Nothing,
        code is Esc && app.focus is List ==> next == (App { detail_visible: false, ..app })
            && action is Nothing,
        code == KeyCode::Char('h') || code is Left ==> next == (App { focus: Pane::List, ..app })
            && action is Nothing,
        code == KeyCode::Char('l') || code is Right ==> next == (App {
            focus: Pane::Detail,
            detail_visible: true,
            ..app
        }) && (action is ReloadDetail <==> !app.detail_visible) && (action is ReloadDetail
            || action is Nothing),
        code == KeyCode::Char('d') && app.detail_visible ==> next == (App {
            detail_visible: false,
            focus: Pane::List,
            ..app
        }) && action is Nothing,
        code == KeyCode::Char('d') && !app.detail_visible ==> next == (App {
            detail_visible: true,
            ..app
        }) && action is ReloadDetail,
        code is Tab || code is BackTab || code == KeyCode::Char('1') || code == KeyCode::Char('2')
            || code == KeyCode::Char('3') ==> action is ReloadDetail && next == (App {
            detail: next.detail,
            detail_scroll: 0,
            detail_hscroll: 0,
            detail_hscroll_max: 0,
            detail_scroll_max: 0,
            detail_visible: true,
            ..app
        }),
        code == KeyCode::Char('1') ==> next.detail is Trend,
        code == KeyCode::Char('2') ==> next.detail is Activity,
        code == KeyCode::Char('3') ==> next.detail is Health,
        code is Tab ==> next.detail == app.detail.shifted(1),
        code is BackTab ==> next.detail == app.detail.shifted(-1),
        code == KeyCode::Char('[') ==> next == (App {
            range: app.range.shifted(-1),
            trend_pan_secs: 0,
            ..app
        }) && action is ReloadDetail,
        code == KeyCode::Char(']') ==> next == (App {
            range: app.range.shifted(1),
            trend_pan_secs: 0,
            ..app
        }) && action is ReloadDetail,
{
}

/// The keys that poll: one account, that of the selected row, or every account
/// of every provider there is, each provider once. Whatever is asked for is
/// shown as being polled.
pub proof fn polling_keys_poll(app: App, code: KeyCode, next: App, action: Action, k: int)
    requires
        app.dashboard_step(code, next, action),
        0 <= k < app.statuses@.len(),
    ensures
        (code == KeyCode::Char('r') || code is Enter) && app.row() is None ==> next == app
            && action is Nothing,
        (code == KeyCode::Char('r') || code is Enter) && app.row() is Some ==> {
            let account = app.statuses@[(app.row()->0).account as int].account;
            &&& action matches Action::Send(requests) && requests@.len() == 1 && requests@[0]
                == (Request::PollNow { provider: account.provider, account: Some(account.id) })
            &&& next == (App { polling: next.polling, ..app })
            &&& forall|id: Seq<char>| #[trigger]
                next.polling@.contains(id) <==> id == account.id@ || app.polling@.contains(id)
        },
        code == KeyCode::Char('R') ==> {
            &&& next == (App { polling: next.polling, ..app })
            &&& next.polling@.contains(app.statuses@[k].account.id@)
            &&& forall|id: Seq<char>|
                #![trigger next.polling@.contains(id)]
                app.polling@.contains(id) ==> next.polling@.contains(id)
            &&& action matches Action::Send(requests) && exists|i: int|
                0 <= i < requests@.len() && (#[trigger] requests@[i] matches Request::PollNow {
                    provider,
                    account,
                } && provider@ == app.statuses@[k].account.provider@ && account is None)
        },
{
    if code == KeyCode::Char('R') {
        let ids = app.statuses@.map_values(|s: AccountStatus| s.account.id@);
        assert(ids[k] == app.statuses@[k].account.id@);
        assert(ids.to_set().contains(ids[k]));
        let requests = (action->Send_0)@;
        let names = choose|names: Seq<Seq<char>>| #[trigger]
            keys::lists_providers(names, app.statuses@) && keys::polls_each(requests, names);
        let providers = app.statuses@.map_values(|s: AccountStatus| s.account.provider@);
        assert(providers[k] == app.statuses@[k].account.provider@);
        assert(providers.to_set().contains(providers[k]));
        assert(names.to_set().contains(providers[k]));
        let i = choose|i: int| 0 <= i < names.len() && names[i] == providers[k];
        assert(requests[i] is PollNow);
    }
}

/// The keys of the settings: they close it, move its cursor, step or turn over or
/// clear what is under the cursor, and load it again.
pub proof fn settings_keys_edit(app: App, code: KeyCode, next: App, action: Action)
    requires
        app.settings_step(code, next, action),
    ensures
        code is Esc || code == KeyCode::Char('q') || code == KeyCode::Char('s') ==> next == (App {
            overlay: None,
            ..app
        }) && action is Nothing,
        code == KeyCode::Char('j') || code is Down ==> next == app.cursor_moved(1)
            && action is Nothing,
        code == KeyCode::Char('k') || code is Up ==> next == app.cursor_moved(-1)
            && action is Nothing,
        code == KeyCode::Char('+') || code == KeyCode::Char('=') || code == KeyCode::Char('l')
            || code is Right ==> next == app && action == app.edit(1),
        code == KeyCode::Char('-') || code == KeyCode::Char('_') || code == KeyCode::Char('h')
            || code is Left ==> next == app && action == app.edit(-1),
        code is Enter || code == KeyCode::Char(' ') ==> next == app && if (
        app.settings_at() is Some && app.settings_at()->0 is ProviderEnabled) {
            action == app.edit(1)
        } else {
            action is Nothing
        },
        code is Backspace || code is Delete ==> next == app && action == app.clearing(),
        code == KeyCode::Char('r') ==> next == app && action is LoadConfig,
{
}

/// A key means what the overlay on screen makes of it, and only when pressed: a
/// release or a repeat means nothing. Whatever else was pressed, a question
/// about stopping the daemon is put away.
pub proof fn keys_go_to_what_is_on_screen(app: App, key: KeyEvent, next: App, action: Action)
    requires
        app.key_step_to(key, next, action),
    ensures
        key.kind !is Press ==> next == app && action is Nothing,
        key.kind is Press && !(key.control && key.code == KeyCode::Char('c')) ==> {
            &&& app.overlay is None ==> app.dashboard_step(key.code, next, action)
            &&& app.overlay == Some(Overlay::Settings) ==> app.settings_step(key.code, next, action)
            &&& app.overlay == Some(Overlay::ConfirmShutdown) ==> if key.code == KeyCode::Char('y')
                || key.code == KeyCode::Char('Y') {
                next == app && action is ShutdownDaemon
            } else {
                next == (App { overlay: None, ..app }) && action is Nothing
            }
        },
{
}

/// A refresh does not take a selection the user has not made from the first
/// window there is, nor, where there is none, from the first row.
pub proof fn the_default_selection_is_the_first_window(app: App, sorted: Seq<AccountStatus>, k: int)
    requires
        !app.user_moved,
        roster::rows_of(sorted).len() > 0,
    ensures
        ({
            let rows = roster::rows_of(sorted);
            &&& 0 <= k < rows.len() && rows[k].window is Some && (forall|j: int|
                0 <= j < k ==> (#[trigger] rows[j]).window is None) ==> app.reselected(sorted)
                == roster::selection_at(sorted, k)
            &&& (forall|j: int| 0 <= j < rows.len() ==> (#[trigger] rows[j]).window is None)
                ==> app.reselected(sorted) == roster::selection_at(sorted, 0)
        }),
{
    roster::the_first_window_is_found(roster::rows_of(sorted));
}

/// Who is polled by a request: the accounts shown of that provider, and of those
/// only the one it names if it names one.
pub proof fn a_poll_is_of_the_accounts_it_names(
    statuses: Seq<AccountStatus>,
    provider: Seq<char>,
    account: Option<Seq<char>>,
    k: int,
    id: Seq<char>,
)
    ensures
        0 <= k < statuses.len() && statuses[k].account.provider@ == provider && (account is None
            || account->0 == statuses[k].account.id@) ==> keys::targeted(
            statuses,
            provider,
            account,
            statuses[k].account.id@,
        ),
        keys::targeted(statuses, provider, account, id) ==> (account is None || account->0 == id)
            && exists|j: int|
            0 <= j < statuses.len() && (#[trigger] statuses[j]).account.provider@ == provider
                && statuses[j].account.id@ == id,
{
    if keys::targeted(statuses, provider, account, id) {
        let j = choose|j: int|
            0 <= j < statuses.len() && #[trigger] statuses[j].account.provider@ == provider
                && statuses[j].account.id@ == id;
        assert(statuses[j].account.id@ == id);
    }
}

/// Polling everything asks each provider there is, once, in order, and no other;
/// and marks the accounts on show, and no other.
pub proof fn polling_everything_asks_each_provider_once(
    app: App,
    next: App,
    requests: Vec<Request>,
    i: int,
    j: int,
    id: Seq<char>,
)
    requires
        app.dashboard_step(KeyCode::Char('R'), next, Action::Send(requests)),
        0 <= i < requests@.len(),
    ensures
        requests@[i] matches Request::PollNow { provider, account } && account is None && exists|k:
            int|
            0 <= k < app.statuses@.len() && (#[trigger] app.statuses@[k]).account.provider@
                == provider@,
        i < j < requests@.len() ==> text::precedes(
            requests@[i]->PollNow_provider@,
            requests@[j]->PollNow_provider@,
        ),
        next.polling@.contains(id) && !app.polling@.contains(id) ==> exists|k: int|
            0 <= k < app.statuses@.len() && (#[trigger] app.statuses@[k]).account.id@ == id,
{
    let names = choose|names: Seq<Seq<char>>| #[trigger]
        keys::lists_providers(names, app.statuses@) && keys::polls_each(requests@, names);
    let providers = app.statuses@.map_values(|s: AccountStatus| s.account.provider@);
    assert(requests@[i] is PollNow);
    assert(names.to_set().contains(names[i]));
    assert(providers.to_set().contains(names[i]));
    let k = choose|k: int| 0 <= k < providers.len() && providers[k] == names[i];
    assert(app.statuses@[k].account.provider@ == names[i]);
    if i < j < requests@.len() {
        assert(requests@[j] is PollNow);
        assert(text::precedes(names[i], names[j]));
    }
    if next.polling@.contains(id) && !app.polling@.contains(id) {
        let ids = app.statuses@.map_values(|s: AccountStatus| s.account.id@);
        assert(ids.to_set().contains(id));
        let m = choose|m: int| 0 <= m < ids.len() && ids[m] == id;
        assert(app.statuses@[m].account.id@ == id);
    }
}

} // verus!
