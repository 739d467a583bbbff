//! What each key does.

use vstd::prelude::*;

use crate::app::input::{KeyCode, KeyEvent, KeyEventKind};
use crate::app::roster;
use crate::app::settings::SettingsRow;
use crate::app::state::{Action, App, DETAIL_PAGE};
use crate::app::tabs::{DetailTab, Overlay, Pane};
use crate::ids::{AccountId, ProviderId};
use crate::protocol::wire::{AccountStatus, Request};
use crate::text;

verus! {

/// The texts of a list of providers.
pub open spec fn texts(providers: Seq<ProviderId>) -> Seq<Seq<char>> {
    providers.map_values(|p: ProviderId| p@)
}

/// The providers displayed.
pub open spec fn providers_of(statuses: Seq<AccountStatus>) -> Set<Seq<char>> {
    statuses.map_values(|s: AccountStatus| s.account.provider@).to_set()
}

/// Whether `names` is strictly ascending, and so lists nothing twice.
pub open spec fn ascends(names: Seq<Seq<char>>) -> bool {
    forall|i: int, j: int|
        0 <= i < j < names.len() ==> text::precedes(#[trigger] names[i], #[trigger] names[j])
}

/// Whether `names` lists every provider displayed, each once, in order.
pub open spec fn lists_providers(names: Seq<Seq<char>>, statuses: Seq<AccountStatus>) -> bool {
    &&& ascends(names)
    &&& names.to_set() == providers_of(statuses)
}

/// Whether `reqs` asks each provider in `names` for a poll of all its accounts.
pub open spec fn polls_each(reqs: Seq<Request>, names: Seq<Seq<char>>) -> bool {
    &&& reqs.len() == names.len()
    &&& forall|i: int|
        0 <= i < names.len() ==> match #[trigger] reqs[i] {
            Request::PollNow { provider, account } => provider@ == names[i] && account is None,
            _ => false,
        }
}

/// Identifiers of all accounts displayed.
pub open spec fn shown(statuses: Seq<AccountStatus>) -> Set<Seq<char>> {
    statuses.map_values(|s: AccountStatus| s.account.id@).to_set()
}

/// Whether a refused poll of `provider`, or of one account of it, was for the
/// account `id`.
pub open spec fn targeted(
    statuses: Seq<AccountStatus>,
    provider: Seq<char>,
    account: Option<Seq<char>>,
    id: Seq<char>,
) -> bool {
    &&& account matches Some(a) ==> a == id
    &&& exists|k: int|
        0 <= k < statuses.len() && #[trigger] statuses[k].account.provider@ == provider
            && statuses[k].account.id@ == id
}

impl App {
    /// Whether a key pressed on the dashboard takes `self` to `next` and asks
    /// for `action`.
    pub open spec fn dashboard_step(self, code: KeyCode, next: App, action: Action) -> bool {
        match code {
            KeyCode::Char('q') => next == self && action == Action::Quit,
            KeyCode::Char('Q') => {
                &&& next == (App { overlay: Some(Overlay::ConfirmShutdown), ..self })
                &&& action == Action::Nothing
            },
            KeyCode::Char('?') => {
                &&& next == (App { overlay: Some(Overlay::Help), ..self })
                &&& action == Action::Nothing
            },
            KeyCode::Char('s') => {
                &&& next == (App { overlay: Some(Overlay::Settings), settings_cursor: 0, ..self })
                &&& action == Action::LoadConfig
            },
            KeyCode::Esc => {
                &&& next == if self.focus == Pane::Detail {
                    App { focus: Pane::List, ..self }
                } else {
                    App { detail_visible: false, ..self }
                }
                &&& action == Action::Nothing
            },
            KeyCode::Char('j') | KeyCode::Down => self.scroll_step(1, next, action),
            KeyCode::Char('k') | KeyCode::Up => self.scroll_step(-1, next, action),
            KeyCode::Char('h') | KeyCode::Left => {
                &&& next == self.focusing(Pane::List)
                &&& action == Action::Nothing
            },
            KeyCode::Char('l') | KeyCode::Right => {
                &&& next == self.focusing(Pane::Detail)
                &&& action == if self.detail_visible {
                    Action::Nothing
                } else {
                    Action::ReloadDetail
                }
            },
            KeyCode::Char('g') | KeyCode::Home => if self.in_detail() {
                next == self.scroll_reset() && action == self.scroll_reset_action()
            } else {
                next == self.selecting(0) && action == Action::ReloadDetail
            },
            KeyCode::Char('G') | KeyCode::End => if self.in_detail() {
                if self.detail == DetailTab::Trend {
                    next == self.scroll_reset() && action == self.scroll_reset_action()
                } else {
                    &&& next == (App { detail_hscroll: self.detail_hscroll_max, ..self })
                    &&& action == Action::Nothing
                }
            } else {
                let len = roster::rows_of(self.statuses@).len();
                &&& next == if len > 0 {
                    self.selecting(len - 1)
                } else {
                    self
                }
                &&& action == Action::ReloadDetail
            },
            KeyCode::PageDown => {
                &&& next == self.rows_scrolled(DETAIL_PAGE as int)
                &&& action == Action::Nothing
            },
            KeyCode::PageUp => {
                &&& next == self.rows_scrolled(-DETAIL_PAGE)
                &&& action == Action::Nothing
            },
            KeyCode::Tab => {
                &&& next == self.tabbed(self.detail.shifted(1))
                &&& action == Action::ReloadDetail
            },
            KeyCode::BackTab => {
                &&& next == self.tabbed(self.detail.shifted(-1))
                &&& action == Action::ReloadDetail
            },
            KeyCode::Char('1') => {
                &&& next == self.tabbed(DetailTab::Trend)
                &&& action == Action::ReloadDetail
            },
            KeyCode::Char('2') => {
                &&& next == self.tabbed(DetailTab::Activity)
                &&& action == Action::ReloadDetail
            },
            KeyCode::Char('3') => {
                &&& next == self.tabbed(DetailTab::Health)
                &&& action == Action::ReloadDetail
            },
            KeyCode::Char('[') => {
                &&& next == self.ranged(self.range.shifted(-1))
                &&& action == Action::ReloadDetail
            },
            KeyCode::Char(']') => {
                &&& next == self.ranged(self.range.shifted(1))
                &&& action == Action::ReloadDetail
            },
            KeyCode::Char('d') => if self.detail_visible {
                &&& next == (App { detail_visible: false, focus: Pane::List, ..self })
                &&& action == Action::Nothing
            } else {
                &&& next == (App { detail_visible: true, ..self })
                &&& action == Action::ReloadDetail
            },
            KeyCode::Char('r') | KeyCode::Enter => match self.row() {
                Some(row) => {
                    let account = self.statuses@[row.account as int].account;
                    &&& next == (App { polling: next.polling, ..self })
                    &&& next.polling@ == self.polling@.insert(account.id@)
                    &&& action matches Action::Send(reqs) && reqs@ == seq![
                        Request::PollNow { provider: account.provider, account: Some(account.id) },
                    ]
                },
                None => next == self && action == Action::Nothing,
            },
            KeyCode::Char('R') => {
                &&& next == (App { polling: next.polling, ..self })
                &&& next.polling@ == self.polling@.union(shown(self.statuses@))
                &&& action matches Action::Send(reqs) && exists|names: Seq<Seq<char>>|
                    #[trigger] lists_providers(names, self.statuses@) && polls_each(reqs@, names)
            },
            _ => next == self && action == Action::Nothing,
        }
    }

    /// What `j` and `k` do: along the detail pane if the cursor is in it, else
    /// down or up the list.
    pub open spec fn scroll_step(self, delta: int, next: App, action: Action) -> bool {
        if self.in_detail() {
            &&& next == self.detail_scrolled(delta)
            &&& action == self.detail_scroll_action(delta)
        } else {
            &&& next == self.moved(delta)
            &&& action == Action::ReloadDetail
        }
    }

    /// Whether a key pressed in the settings overlay takes `self` to `next`
    /// and asks for `action`.
    pub open spec fn settings_step(self, code: KeyCode, next: App, action: Action) -> bool {
        match code {
            KeyCode::Esc | KeyCode::Char('q') | KeyCode::Char('s') => {
                &&& next == (App { overlay: None, ..self })
                &&& action == Action::Nothing
            },
            KeyCode::Char('j') | KeyCode::Down => {
                &&& next == self.cursor_moved(1)
                &&& action == Action::Nothing
            },
            KeyCode::Char('k') | KeyCode::Up => {
                &&& next == self.cursor_moved(-1)
                &&& action == Action::Nothing
            },
            KeyCode::Char('+') | KeyCode::Char('=') | KeyCode::Char('l') | KeyCode::Right => {
                next == self && action == self.edit(1)
            },
            KeyCode::Char('-') | KeyCode::Char('_') | KeyCode::Char('h') | KeyCode::Left => {
                next == self && action == self.edit(-1)
            },
            KeyCode::Enter | KeyCode::Char(' ') => {
                &&& next == self
                &&& action == match self.settings_at() {
                    Some(SettingsRow::ProviderEnabled(_)) => self.edit(1),
                    _ => Action::Nothing,
                }
            },
            KeyCode::Backspace | KeyCode::Delete => next == self && action == self.clearing(),
            KeyCode::Char('r') => next == self && action == Action::LoadConfig,
            _ => next == self && action == Action::Nothing,
        }
    }

    /// Whether a key event takes `self` to `next` and asks for `action`.
    pub open spec fn key_step_to(self, key: KeyEvent, next: App, action: Action) -> bool {
        if key.kind != KeyEventKind::Press {
            next == self && action == Action::Nothing
        } else if key.control && key.code == KeyCode::Char('c') {
            next == self && action == Action::Quit
        } else {
            match self.overlay {
                Some(Overlay::ConfirmShutdown) => match key.code {
                    KeyCode::Char('y') | KeyCode::Char('Y') => {
                        next == self && action == Action::ShutdownDaemon
                    },
                    _ => next == (App { overlay: None, ..self }) && action == Action::Nothing,
                },
                Some(Overlay::Help) => {
                    next == (App { overlay: None, ..self }) && action == Action::Nothing
                },
                Some(Overlay::Settings) => self.settings_step(key.code, next, action),
                None => self.dashboard_step(key.code, next, action),
            }
        }
    }

    /// Whether the cursor is in a detail pane that is actually on screen.
    fn detail_focused(&self) -> (r: bool)
        ensures
            r == self.in_detail(),
    {
        self.focus == Pane::Detail && self.detail_visible
    }

    /// Open a detail tab.
    fn set_tab(&mut self, tab: DetailTab) -> (r: Action)
        ensures
            *final(self) == old(self).tabbed(tab),
            r == Action::ReloadDetail,
            old(self).wf() ==> final(self).wf(),
    {
        self.detail = tab;
        self.detail_scroll = 0;
        // Columns are a different thing per tab; carrying the offset across
        // would land the new tab mid-word. The trend's pan is a viewport onto
        // time and survives, so switching away and back does not lose the
        // interval the user navigated to.
        self.detail_hscroll = 0;
        self.detail_hscroll_max = 0;
        self.detail_scroll_max = 0;
        self.detail_visible = true;
        Action::ReloadDetail
    }

    /// Distinct providers currently displayed, in order.
    fn providers(&self) -> (r: Vec<ProviderId>)
        ensures
            lists_providers(texts(r@), self.statuses@),
    {
        let mut out: Vec<ProviderId> = Vec::new();
        let mut k: usize = 0;
        let ghost all = self.statuses@.map_values(|s: AccountStatus| s.account.provider@);
        assert(texts(out@).to_set() =~= all.take(0).to_set());
        while k < self.statuses.len()
            invariant
                k <= self.statuses@.len(),
                all == self.statuses@.map_values(|s: AccountStatus| s.account.provider@),
                ascends(texts(out@)),
                texts(out@).to_set() == all.take(k as int).to_set(),
            decreases self.statuses@.len() - k,
        {
            insert_provider(&mut out, &self.statuses[k].account.provider);
            proof {
                assert(all.take(k + 1) =~= all.take(k as int).push(all[k as int]));
                all.take(k as int).lemma_push_to_set_commute(all[k as int]);
            }
            k += 1;
        }
        assert(all.take(k as int) =~= all);
        out
    }

    /// Clear the spinner for an account whose poll has landed.
    pub fn poll_settled(&mut self, account: &AccountId)
        requires
            old(self).wf(),
        ensures
            final(self).wf(),
            *final(self) == (App { polling: final(self).polling, ..*old(self) }),
            final(self).polling@ == old(self).polling@.remove(account@),
    {
        self.polling.remove(account);
    }

    /// Clear the spinner for every account a refused `PollNow` targeted.
    ///
    /// Without this the spinner runs forever: it is normally stopped by the
    /// poll arriving, and a poll the daemon refused — a disabled provider, say
    /// — never arrives.
    pub fn poll_refused(&mut self, provider: &ProviderId, account: Option<&AccountId>)
        requires
            old(self).wf(),
        ensures
            final(self).wf(),
            *final(self) == (App { polling: final(self).polling, ..*old(self) }),
            forall|id: Seq<char>| #[trigger]
                final(self).polling@.contains(id) <==> old(self).polling@.contains(id)
                    && !targeted(
                    old(self).statuses@,
                    provider@,
                    match account {
                        Some(a) => Some(a@),
                        None => None,
                    },
                    id,
                ),
    {
        let ghost wanted = match account {
            Some(a) => Some(a@),
            None => None,
        };
        let mut k: usize = 0;
        while k < self.statuses.len()
            invariant
                self.wf(),
                k <= self.statuses@.len(),
                self.statuses@ == old(self).statuses@,
                *self == (App { polling: self.polling, ..*old(self) }),
                wanted == match account {
                    Some(a) => Some(a@),
                    None => None,
                },
                forall|id: Seq<char>| #[trigger]
                    self.polling@.contains(id) <==> old(self).polling@.contains(id) && !targeted(
                        self.statuses@.take(k as int),
                        provider@,
                        wanted,
                        id,
                    ),
            decreases self.statuses@.len() - k,
        {
            let ghost before = self.polling@;
            let ghost upto = self.statuses@.take(k + 1);
            let ghost below = self.statuses@.take(k as int);
            let ghost this = self.statuses@[k as int].account;
            let ghost hit = this.provider@ == provider@ && (wanted matches Some(a) ==> a
                == this.id@);
            let of_provider = text::same(
                self.statuses[k].account.provider.as_str(),
                provider.as_str(),
            );
            let named = match account {
                Some(a) => self.statuses[k].account.id.same(a),
                None => true,
            };
            if of_provider && named {
                let id = self.statuses[k].account.id.clone();
                self.polling.remove(&id);
            }
            proof {
                assert forall|id: Seq<char>| #[trigger] targeted(upto, provider@, wanted, id)
                    == (targeted(below, provider@, wanted, id) || (hit && id == this.id@)) by {
                    if targeted(upto, provider@, wanted, id) {
                        let j = choose|j: int|
                            0 <= j < upto.len() && #[trigger] upto[j].account.provider@
                                == provider@ && upto[j].account.id@ == id;
                        if j < k {
                            assert(below[j].account.provider@ == provider@);
                        }
                    }
                    if targeted(below, provider@, wanted, id) {
                        let j = choose|j: int|
                            0 <= j < below.len() && #[trigger] below[j].account.provider@
                                == provider@ && below[j].account.id@ == id;
                        assert(upto[j].account.provider@ == provider@);
                    }
                    if hit && id == this.id@ {
                        assert(upto[k as int].account.provider@ == provider@);
                    }
                }
            }
            k += 1;
        }
        assert(self.statuses@.take(k as int) =~= self.statuses@);
    }

    /// Handle a key press in the settings overlay.
    fn handle_settings_key(&mut self, key: KeyEvent) -> (r: Action)
        ensures
            old(self).settings_step(key.code, *final(self), r),
            old(self).wf() ==> final(self).wf(),
    {
        match key.code {
            KeyCode::Esc | KeyCode::Char('q') | KeyCode::Char('s') => {
                self.overlay = None;
                Action::Nothing
            },
            KeyCode::Char('j') | KeyCode::Down => {
                self.move_settings_cursor(1);
                Action::Nothing
            },
            KeyCode::Char('k') | KeyCode::Up => {
                self.move_settings_cursor(-1);
                Action::Nothing
            },
            KeyCode::Char('+') | KeyCode::Char('=') | KeyCode::Char('l') | KeyCode::Right => {
                self.edit_settings(1)
            },
            KeyCode::Char('-') | KeyCode::Char('_') | KeyCode::Char('h') | KeyCode::Left => {
                self.edit_settings(-1)
            },
            // Only meaningful on a boolean row; on an interval it would have to
            // pick a direction arbitrarily.
            KeyCode::Enter | KeyCode::Char(' ') => match self.settings_row() {
                Some(SettingsRow::ProviderEnabled(_)) => self.edit_settings(1),
                _ => Action::Nothing,
            },
            KeyCode::Backspace | KeyCode::Delete => self.clear_setting(),
            // Recover from a rejected external edit without leaving the overlay.
            KeyCode::Char('r') => Action::LoadConfig,
            _ => Action::Nothing,
        }
    }

    /// Translate a key press into an [`Action`], mutating view state.
    pub fn handle_key(&mut self, key: KeyEvent) -> (r: Action)
        requires
            old(self).wf(),
        ensures
            old(self).key_step_to(key, *final(self), r),
            final(self).wf(),
            (old(self).focus == Pane::Detail ==> old(self).detail_visible) ==> (final(self).focus
                == Pane::Detail ==> final(self).detail_visible),
    {
        if key.kind != KeyEventKind::Press {
            return Action::Nothing;
        }
        // Raw mode delivers Ctrl-C as an ordinary key event; without this it
        // would be swallowed and the TUI would feel stuck.
        if key.control && key.code == KeyCode::Char('c') {
            return Action::Quit;
        }
        match self.overlay {
            Some(Overlay::ConfirmShutdown) => match key.code {
                KeyCode::Char('y') | KeyCode::Char('Y') => Action::ShutdownDaemon,
                _ => {
                    self.overlay = None;
                    Action::Nothing
                },
            },
            Some(Overlay::Help) => {
                self.overlay = None;
                Action::Nothing
            },
            Some(Overlay::Settings) => self.handle_settings_key(key),
            None => self.handle_dashboard_key(key),
        }
    }

    /// Handle a key press on the dashboard.
    fn handle_dashboard_key(&mut self, key: KeyEvent) -> (r: Action)
        requires
            old(self).wf(),
        ensures
            old(self).dashboard_step(key.code, *final(self), r),
            final(self).wf(),
            (old(self).focus == Pane::Detail ==> old(self).detail_visible) ==> (final(self).focus
                == Pane::Detail ==> final(self).detail_visible),
    {
        match key.code {
            KeyCode::Char('q') => Action::Quit,
            KeyCode::Char('Q') => {
                self.overlay = Some(Overlay::ConfirmShutdown);
                Action::Nothing
            },
            KeyCode::Char('?') => {
                self.overlay = Some(Overlay::Help);
                Action::Nothing
            },
            KeyCode::Char('s') => {
                self.overlay = Some(Overlay::Settings);
                self.settings_cursor = 0;
                // Refetch rather than trusting the cached copy: the file may
                // have changed while a previous TUI session held it.
                Action::LoadConfig
            },
            KeyCode::Esc => {
                // Step back out of the detail pane first; only once the cursor
                // is already in the list does Esc mean "get out of the way".
                if self.focus == Pane::Detail {
                    self.focus = Pane::List;
                } else {
                    self.detail_visible = false;
                }
                Action::Nothing
            },
            // The scroll keys keep their gesture and change their axis: down
            // the list of windows, or along the detail pane.
            KeyCode::Char('j') | KeyCode::Down => {
                if self.detail_focused() {
                    return self.scroll_detail(1);
                }
                self.move_selection(1);
                Action::ReloadDetail
            },
            KeyCode::Char('k') | KeyCode::Up => {
                if self.detail_focused() {
                    return self.scroll_detail(-1);
                }
                self.move_selection(-1);
                Action::ReloadDetail
            },
            KeyCode::Char('h') | KeyCode::Left => self.focus_pane(Pane::List),
            KeyCode::Char('l') | KeyCode::Right => self.focus_pane(Pane::Detail),
            KeyCode::Char('g') | KeyCode::Home => {
                if self.detail_focused() {
                    return self.reset_detail_scroll();
                }
                self.select(0);
                Action::ReloadDetail
            },
            KeyCode::Char('G') | KeyCode::End => {
                if self.detail_focused() {
                    // A row has a last column to jump to; the chart's far end
                    // is simply the present, which is where `g` lands too —
                    // history has no known far edge to offer instead.
                    if self.detail == DetailTab::Trend {
                        return self.reset_detail_scroll();
                    }
                    self.detail_hscroll = self.detail_hscroll_max;
                    return Action::Nothing;
                }
                let rows = self.rows();
                if rows.len() > 0 {
                    self.select(rows.len() - 1);
                }
                Action::ReloadDetail
            },
            KeyCode::PageDown => {
                self.scroll_detail_rows(DETAIL_PAGE);
                Action::Nothing
            },
            KeyCode::PageUp => {
                self.scroll_detail_rows(-DETAIL_PAGE);
                Action::Nothing
            },
            KeyCode::Tab => {
                let tab = self.detail.shift(1);
                self.set_tab(tab)
            },
            KeyCode::BackTab => {
                let tab = self.detail.shift(-1);
                self.set_tab(tab)
            },
            KeyCode::Char('1') => self.set_tab(DetailTab::Trend),
            KeyCode::Char('2') => self.set_tab(DetailTab::Activity),
            KeyCode::Char('3') => self.set_tab(DetailTab::Health),
            // A pan is measured in fractions of the range, so it means
            // something different either side of a zoom; start from the
            // present rather than from a distance that no longer applies.
            KeyCode::Char('[') => {
                self.range = self.range.shift(-1);
                self.trend_pan_secs = 0;
                Action::ReloadDetail
            },
            KeyCode::Char(']') => {
                self.range = self.range.shift(1);
                self.trend_pan_secs = 0;
                Action::ReloadDetail
            },
            KeyCode::Char('d') => {
                self.detail_visible = !self.detail_visible;
                if self.detail_visible {
                    Action::ReloadDetail
                } else {
                    // Nothing to point at any more.
                    self.focus = Pane::List;
                    Action::Nothing
                }
            },
            KeyCode::Char('r') | KeyCode::Enter => self.poll_selected(),
            KeyCode::Char('R') => self.poll_all(),
            _ => Action::Nothing,
        }
    }

    /// Ask for a poll of the account the cursor is on.
    fn poll_selected(&mut self) -> (r: Action)
        requires
            old(self).wf(),
        ensures
            old(self).dashboard_step(KeyCode::Enter, *final(self), r),
            final(self).wf(),
    {
        match self.selected_row() {
            Some(row) => {
                let account = self.statuses[row.account].account.clone();
                self.polling.insert(account.id.clone());
                let mut requests: Vec<Request> = Vec::new();
                requests.push(
                    Request::PollNow { provider: account.provider, account: Some(account.id) },
                );
                Action::Send(requests)
            },
            None => Action::Nothing,
        }
    }

    /// Ask for a poll of every account displayed, once per provider.
    fn poll_all(&mut self) -> (r: Action)
        requires
            old(self).wf(),
        ensures
            old(self).dashboard_step(KeyCode::Char('R'), *final(self), r),
            final(self).wf(),
    {
        let mut k: usize = 0;
        let ghost ids = self.statuses@.map_values(|s: AccountStatus| s.account.id@);
        assert(old(self).polling@.union(ids.take(0).to_set()) =~= old(self).polling@);
        while k < self.statuses.len()
            invariant
                self.wf(),
                k <= self.statuses@.len(),
                *self == (App { polling: self.polling, ..*old(self) }),
                ids == self.statuses@.map_values(|s: AccountStatus| s.account.id@),
                self.polling@ == old(self).polling@.union(ids.take(k as int).to_set()),
            decreases self.statuses@.len() - k,
        {
            let id = self.statuses[k].account.id.clone();
            self.polling.insert(id);
            proof {
                let (a, b) = (ids.take(k as int), ids.take(k + 1));
                assert(b =~= a.push(ids[k as int]));
                assert forall|s: Seq<char>| b.to_set().contains(s) == (a.to_set().contains(s) || s
                    == ids[k as int]) by {
                    if b.contains(s) {
                        let j = choose|j: int| 0 <= j < b.len() && b[j] == s;
                        if j < k {
                            assert(a[j] == s);
                        }
                    }
                    if a.contains(s) {
                        let j = choose|j: int| 0 <= j < a.len() && a[j] == s;
                        assert(b[j] == s);
                    }
                    assert(b[k as int] == ids[k as int]);
                }
                assert(self.polling@ =~= old(self).polling@.union(b.to_set()));
            }
            k += 1;
        }
        assert(ids.take(k as int) =~= ids);
        let providers = self.providers();
        let ghost names = texts(providers@);
        let mut requests: Vec<Request> = Vec::new();
        let mut i: usize = 0;
        while i < providers.len()
            invariant
                i <= providers@.len(),
                names == texts(providers@),
                polls_each(requests@, names.take(i as int)),
            decreases providers@.len() - i,
        {
            requests.push(Request::PollNow { provider: providers[i].clone(), account: None });
            i += 1;
        }
        assert(names.take(i as int) =~= names);
        assert(lists_providers(names, self.statuses@) && polls_each(requests@, names));
        Action::Send(requests)
    }
}

/// Put a provider into an ordered list of distinct ones, unless it is there.
fn insert_provider(out: &mut Vec<ProviderId>, provider: &ProviderId)
    requires
        ascends(texts(old(out)@)),
    ensures
        ascends(texts(final(out)@)),
        texts(final(out)@).to_set() == texts(old(out)@).to_set().insert(provider@),
{
    let ghost before = texts(out@);
    let mut at: usize = 0;
    while at < out.len() && text::comes_before(out[at].as_str(), provider.as_str())
        invariant
            at <= out@.len(),
            before == texts(out@),
            out@ == old(out)@,
            forall|i: int| 0 <= i < at ==> text::precedes(#[trigger] before[i], provider@),
        decreases out@.len() - at,
    {
        assert(before[at as int] == out@[at as int]@);
        at += 1;
    }
    if at < out.len() && text::same(out[at].as_str(), provider.as_str()) {
        proof {
            assert(before[at as int] == provider@);
            assert(before.to_set() =~= before.to_set().insert(provider@));
        }
        return;
    }
    out.insert(at, provider.clone());
    proof {
        let after = texts(out@);
        assert(after =~= before.insert(at as int, provider@));
        insert_adds_one(before, at as int, provider@);
        assert forall|i: int| at <= i < before.len() implies text::precedes(
            provider@,
            #[trigger] before[i],
        ) by {
            text::precedes_total(provider@, before[at as int]);
            if i > at {
                text::precedes_transitive(provider@, before[at as int], before[i]);
            }
        }
        assert forall|i: int, j: int| 0 <= i < j < after.len() implies text::precedes(
            #[trigger] after[i],
            #[trigger] after[j],
        ) by {
            let x = if i < at {
                i
            } else {
                i - 1
            };
            let y = if j < at {
                j
            } else {
                j - 1
            };
            if i != at && j != at {
                assert(text::precedes(before[x], before[y]));
            }
        }
    }
}

proof fn insert_adds_one(s: Seq<Seq<char>>, at: int, x: Seq<char>)
    requires
        0 <= at <= s.len(),
    ensures
        s.insert(at, x).to_set() == s.to_set().insert(x),
{
    let t = s.insert(at, x);
    assert forall|y: Seq<char>| t.to_set().contains(y) == s.to_set().insert(x).contains(y) by {
        if t.contains(y) {
            let i = choose|i: int| 0 <= i < t.len() && t[i] == y;
            if i < at {
                assert(s[i] == y);
            } else if i > at {
                assert(s[i - 1] == y);
            }
        }
        if s.contains(y) {
            let i = choose|i: int| 0 <= i < s.len() && s[i] == y;
            if i < at {
                assert(t[i] == y);
            } else {
                assert(t[i + 1] == y);
            }
        }
        assert(t[at] == x);
    }
    assert(t.to_set() =~= s.to_set().insert(x));
}

} // verus!
