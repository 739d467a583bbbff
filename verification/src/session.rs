//! What the event loop does: what each key, daemon event, tick and reply asks
//! for next.

use vstd::prelude::*;

use crate::app::input::{KeyEvent, MouseEvent};
use crate::app::state::{Action, App, DetailQuery, Trend};
use crate::client::{ClientError, NetEvent};
use crate::error::ErrorKind;
use crate::ids::AccountId;
use crate::protocol::wire::{ConfigEdit, Request, Response};
use crate::time;
use crate::time::Timestamp;

verus! {

/// How far back the rows' burn rates may look, in seconds. Twelve hours covers
/// the longest lookback a recent pace uses, and at the default cadence it is a
/// few hundred readings per window — inside [`RECENT_MAX_POINTS`], so the
/// daemon returns them undownsampled and a rate is measured from real
/// endpoints.
pub const RECENT_SPAN_SECS: i128 = 43_200;

/// Point budget for one window's slice of that history.
pub const RECENT_MAX_POINTS: u32 = 512;

/// Something to fetch from the daemon, or set going.
#[derive(Debug, Clone, Copy, PartialEq, Eq, Structural)]
pub enum Fetch {
    /// The full status.
    Status,
    /// The recent history of every account.
    Recent,
    /// What the detail pane's current tab needs.
    Detail,
    /// The daemon's settings.
    Config,
    /// The long-poll loop, on a connection of its own.
    UpdateLoop,
}

/// What the event loop does next.
#[derive(Debug, PartialEq, Eq)]
pub enum Step {
    /// Leave.
    Stop,
    /// Send requests of which only errors matter.
    Send(Vec<Request>),
    /// Send one settings change.
    Edit(ConfigEdit),
    /// Tell the daemon to stop, then leave.
    Shutdown,
    /// Fetch these, in order; nothing if there are none.
    Fetch(Vec<Fetch>),
    /// Connect again.
    Reconnect,
}

/// An error category as the status line words it.
pub open spec fn kind_words(kind: ErrorKind) -> Seq<char> {
    match kind {
        ErrorKind::UnknownProvider => "unknown provider"@,
        ErrorKind::UnknownAccount => "unknown account"@,
        ErrorKind::BadRequest => "bad request"@,
        ErrorKind::Storage => "storage error"@,
        ErrorKind::Internal => "daemon error"@,
    }
}

/// An error category as the status line words it.
pub fn error_kind_text(kind: ErrorKind) -> (r: &'static str)
    ensures
        r@ == kind_words(kind),
{
    match kind {
        ErrorKind::UnknownProvider => "unknown provider",
        ErrorKind::UnknownAccount => "unknown account",
        ErrorKind::BadRequest => "bad request",
        ErrorKind::Storage => "storage error",
        ErrorKind::Internal => "daemon error",
    }
}

fn kind_and_message(kind: ErrorKind, message: &str) -> (r: String)
    ensures
        r@ == kind_words(kind) + ": "@ + message@,
{
    error_kind_text(kind).to_owned().concat(": ").concat(message)
}

fn one(fetch: Fetch) -> (r: Vec<Fetch>)
    ensures
        r@ == seq![fetch],
{
    let mut out: Vec<Fetch> = Vec::new();
    out.push(fetch);
    out
}

/// Whether a step is the one an action asks for.
pub open spec fn step_for(action: Action, step: Step) -> bool {
    match action {
        Action::Nothing => step matches Step::Fetch(f) && f@.len() == 0,
        Action::Quit => step == Step::Stop,
        Action::Send(requests) => step == Step::Send(requests),
        Action::ReloadDetail => step matches Step::Fetch(f) && f@ == seq![Fetch::Detail],
        Action::LoadConfig => step matches Step::Fetch(f) && f@ == seq![Fetch::Config],
        Action::EditConfig(edit) => step == Step::Edit(edit),
        Action::ShutdownDaemon => step == Step::Shutdown,
    }
}

/// Whether what a reply left on the status line is what a reply that was not
/// the one hoped for leaves there. `shown` is the reply as a message would
/// show it.
pub open spec fn noted(
    before: App,
    reply: Result<Response, ClientError>,
    shown: Seq<char>,
    after: App,
) -> bool {
    match reply {
        Ok(Response::Failed(kind, message)) => {
            &&& after == (App { error: after.error, ..before })
            &&& after.error matches Some(e) && e@ == kind_words(kind) + ": "@ + message@
        },
        Ok(_) => {
            &&& after == (App { error: after.error, ..before })
            &&& after.error matches Some(e) && e@ == "unexpected daemon reply: "@ + shown
        },
        Err(failure) => {
            &&& after == (App { error: after.error, disconnected: true, ..before })
            &&& after.error matches Some(e) && e@ == failure.words()
        },
    }
}

impl App {
    /// What the event loop does for an action. Requests and edits start with a
    /// clear status line.
    pub fn perform(&mut self, action: Action) -> (r: Step)
        ensures
            step_for(action, r),
            *final(self) == match action {
                Action::Send(_) => App { error: None, ..*old(self) },
                Action::EditConfig(_) => App { error: None, ..*old(self) },
                _ => *old(self),
            },
    {
        match action {
            Action::Nothing => Step::Fetch(Vec::new()),
            Action::Quit => Step::Stop,
            Action::Send(requests) => {
                self.error = None;
                Step::Send(requests)
            },
            Action::ReloadDetail => Step::Fetch(one(Fetch::Detail)),
            Action::LoadConfig => Step::Fetch(one(Fetch::Config)),
            Action::EditConfig(edit) => {
                self.error = None;
                Step::Edit(edit)
            },
            Action::ShutdownDaemon => Step::Shutdown,
        }
    }

    /// What the event loop does for a key.
    pub fn on_key(&mut self, key: KeyEvent) -> (r: Step)
        requires
            old(self).wf(),
        ensures
            exists|next: App, action: Action| #[trigger]
                old(self).key_step_to(key, next, action) && step_for(action, r) && *final(self)
                    == if action is Send || action is EditConfig {
                    App { error: None, ..next }
                } else {
                    next
                },
            final(self).wf(),
    {
        let action = self.handle_key(key);
        let ghost next = *self;
        assert(old(self).key_step_to(key, next, action));
        self.perform(action)
    }

    /// What the event loop does for a mouse event.
    pub fn on_mouse(&mut self, mouse: MouseEvent) -> (r: Step)
        requires
            old(self).wf(),
        ensures
            *final(self) == old(self).moused(mouse),
            step_for(old(self).mouse_action(mouse), r),
            final(self).wf(),
    {
        let action = self.handle_mouse(mouse);
        self.perform(action)
    }

    /// What the event loop does for an event from the update connection.
    pub fn on_net_event(&mut self, event: NetEvent) -> (r: Step)
        requires
            old(self).wf(),
        ensures
            final(self).wf(),
            match event {
                // The detail pane tracks the same data, so it refreshes with
                // the dashboard rather than freezing at whatever it held when
                // the tab was opened.
                NetEvent::Update(e) => {
                    &&& *final(self) == (App {
                        last_update: Some(e.ts),
                        disconnected: false,
                        polling: final(self).polling,
                        ..*old(self)
                    })
                    &&& final(self).polling@ == old(self).polling@.remove(e.account@)
                    &&& r matches Step::Fetch(f) && f@ == seq![
                        Fetch::Status,
                        Fetch::Recent,
                        Fetch::Detail,
                    ]
                },
                // Cadences just changed, and `Status` is what carries them.
                NetEvent::Config(state) => {
                    &&& *final(self) == (App {
                        disconnected: false,
                        config: Some(*state),
                        ..*old(self)
                    })
                    &&& r matches Step::Fetch(f) && f@ == seq![Fetch::Status, Fetch::Recent]
                },
                NetEvent::Disconnected(message) => {
                    &&& *final(self) == (App {
                        disconnected: true,
                        error: Some(message),
                        ..*old(self)
                    })
                    &&& r matches Step::Fetch(f) && f@.len() == 0
                },
            },
    {
        match event {
            NetEvent::Update(event) => {
                self.last_update = Some(event.ts);
                self.disconnected = false;
                self.poll_settled(&event.account);
                let mut plan = one(Fetch::Status);
                plan.push(Fetch::Recent);
                plan.push(Fetch::Detail);
                assert(plan@ =~= seq![Fetch::Status, Fetch::Recent, Fetch::Detail]);
                Step::Fetch(plan)
            },
            NetEvent::Config(state) => {
                self.disconnected = false;
                self.config = Some(*state);
                let mut plan = one(Fetch::Status);
                plan.push(Fetch::Recent);
                assert(plan@ =~= seq![Fetch::Status, Fetch::Recent]);
                Step::Fetch(plan)
            },
            NetEvent::Disconnected(message) => {
                self.disconnected = true;
                self.error = Some(message);
                Step::Fetch(Vec::new())
            },
        }
    }

    /// What the event loop does each second: turn the spinner, and connect
    /// again if the connection is lost. Otherwise the tick just redraws.
    pub fn on_tick(&mut self) -> (r: Step)
        ensures
            *final(self) == (App {
                spinner: if old(self).spinner == usize::MAX {
                    0
                } else {
                    (old(self).spinner + 1) as usize
                },
                ..*old(self)
            }),
            if old(self).disconnected {
                r == Step::Reconnect
            } else {
                r matches Step::Fetch(f) && f@.len() == 0
            },
    {
        if self.spinner == usize::MAX {
            self.spinner = 0;
        } else {
            self.spinner = self.spinner + 1;
        }
        if self.disconnected {
            Step::Reconnect
        } else {
            Step::Fetch(Vec::new())
        }
    }

    /// What the event loop does once it is connected again. The daemon may
    /// have restarted onto a different config; a stale generation would also
    /// make the new long-poll miss the next reload.
    pub fn on_reconnected(&mut self) -> (r: Step)
        ensures
            *final(self) == (App { disconnected: false, error: None, ..*old(self) }),
            r matches Step::Fetch(f) && f@ == seq![
                Fetch::Status,
                Fetch::Recent,
                Fetch::Detail,
                Fetch::Config,
                Fetch::UpdateLoop,
            ],
    {
        self.disconnected = false;
        self.error = None;
        let mut plan = one(Fetch::Status);
        plan.push(Fetch::Recent);
        plan.push(Fetch::Detail);
        plan.push(Fetch::Config);
        plan.push(Fetch::UpdateLoop);
        assert(plan@ =~= seq![
            Fetch::Status,
            Fetch::Recent,
            Fetch::Detail,
            Fetch::Config,
            Fetch::UpdateLoop,
        ]);
        Step::Fetch(plan)
    }

    /// The config generation the long-poll loop starts from.
    pub fn config_generation(&self) -> (r: u64)
        ensures
            r == match self.config {
                Some(c) => c.generation,
                None => 0,
            },
    {
        match &self.config {
            Some(c) => c.generation,
            None => 0,
        }
    }

    // -----------------------------------------------------------------------
    // Replies
    // -----------------------------------------------------------------------

    /// Put a reply that was not the one hoped for on the status line; a lost
    /// connection is flagged rather than crashed on.
    pub fn note_unexpected(&mut self, reply: Result<Response, ClientError>, shown: &str)
        ensures
            noted(*old(self), reply, shown@, *final(self)),
            old(self).wf() ==> final(self).wf(),
    {
        match reply {
            Ok(Response::Failed(kind, message)) => {
                self.error = Some(kind_and_message(kind, message.as_str()));
            },
            Ok(_) => {
                self.error = Some("unexpected daemon reply: ".to_owned().concat(shown));
            },
            Err(e) => {
                self.disconnected = true;
                self.error = Some(e.message());
            },
        }
    }

    /// Install the reply to a full `Status` request.
    pub fn take_status(&mut self, reply: Result<Response, ClientError>, shown: &str)
        ensures
            match reply {
                Ok(Response::Status(statuses)) => {
                    let sorted = crate::app::roster::arranged(statuses@);
                    &&& final(self).statuses@ == sorted
                    &&& *final(self) == (App {
                        statuses: final(self).statuses,
                        selection: old(self).reselected(sorted),
                        list_selected: crate::app::roster::index_of(
                            sorted,
                            old(self).reselected(sorted),
                        ),
                        ..*old(self)
                    })
                },
                _ => noted(*old(self), reply, shown@, *final(self)),
            },
            old(self).wf() ==> final(self).wf(),
    {
        match reply {
            Ok(Response::Status(statuses)) => self.set_statuses(statuses),
            other => self.note_unexpected(other, shown),
        }
    }

    /// Install the reply to one account's recent-history request. False when
    /// it was not a history: one unreachable account means the socket is gone,
    /// and the rest would fail the same way.
    pub fn take_recent(
        &mut self,
        account: &AccountId,
        reply: Result<Response, ClientError>,
        shown: &str,
    ) -> (r: bool)
        requires
            old(self).wf(),
        ensures
            final(self).wf(),
            match reply {
                Ok(Response::History(page)) => {
                    &&& r
                    &&& *final(self) == (App { recent: final(self).recent, ..*old(self) })
                    &&& forall|a: Seq<char>, w: Seq<char>| #[trigger]
                        crate::app::recent::held(final(self).recent@, a, w) == if a == account@ {
                            crate::domain::readings_of(page.snapshots@, w)
                        } else {
                            crate::app::recent::held(old(self).recent@, a, w)
                        }
                },
                _ => !r && noted(*old(self), reply, shown@, *final(self)),
            },
    {
        match reply {
            Ok(Response::History(page)) => {
                self.set_recent(account, page.snapshots);
                true
            },
            other => {
                self.note_unexpected(other, shown);
                false
            },
        }
    }

    /// Drop any charted series: nothing is selected to chart, and the pane is
    /// to say so rather than show the previous window's history.
    pub fn clear_trend(&mut self)
        ensures
            *final(self) == (App { trend: None, ..*old(self) }),
            old(self).wf() ==> final(self).wf(),
    {
        self.trend = None;
    }

    /// Install the reply to the detail pane's query, asked at `now`.
    pub fn take_detail(
        &mut self,
        query: DetailQuery,
        reply: Result<Response, ClientError>,
        shown: &str,
        now: Timestamp,
    )
        ensures
            match (query, reply) {
                (DetailQuery::Trend { account, window, title, range, until, request }, Ok(
                    Response::History(page),
                )) => {
                    let loaded = App {
                        trend: Some(
                            Trend {
                                account,
                                window,
                                title,
                                snapshots: page.snapshots,
                                rollovers: page.rollovers,
                                range,
                                until,
                                earliest: page.earliest,
                                fetched_at: now,
                            },
                        ),
                        ..*old(self)
                    };
                    *final(self) == (App {
                        trend_pan_secs: if old(self).at_oldest() {
                            loaded.max_pan() as i64
                        } else {
                            crate::num::limited(
                                old(self).trend_pan_secs as int,
                                0,
                                loaded.max_pan(),
                            ) as i64
                        },
                        ..loaded
                    })
                },
                (DetailQuery::Activity(_), Ok(Response::RecentPolls(events))) => *final(self) == (
                App { activity: events, ..*old(self) }),
                (DetailQuery::Health(_), Ok(Response::Providers(health))) => *final(self) == (App {
                    health,
                    ..*old(self)
                }),
                _ => noted(*old(self), reply, shown@, *final(self)),
            },
            old(self).wf() ==> final(self).wf(),
    {
        match query {
            DetailQuery::Trend { account, window, title, range, until, request: _ } => match reply {
                Ok(Response::History(page)) => {
                    self.set_trend(
                        Trend {
                            account,
                            window,
                            title,
                            snapshots: page.snapshots,
                            rollovers: page.rollovers,
                            range,
                            until,
                            earliest: page.earliest,
                            fetched_at: now,
                        },
                    );
                },
                other => self.note_unexpected(other, shown),
            },
            DetailQuery::Activity(_) => match reply {
                Ok(Response::RecentPolls(events)) => {
                    self.activity = events;
                },
                other => self.note_unexpected(other, shown),
            },
            DetailQuery::Health(_) => match reply {
                Ok(Response::Providers(health)) => {
                    self.health = health;
                },
                other => self.note_unexpected(other, shown),
            },
        }
    }

    /// Install the reply to a settings request or change. True when it carried
    /// the settings; after a change the status is then due, since the cadence
    /// shown on the dashboard comes from it.
    pub fn take_config(&mut self, reply: Result<Response, ClientError>, shown: &str) -> (r: bool)
        ensures
            match reply {
                Ok(Response::Config(state)) => r && *final(self) == (App {
                    config: Some(state),
                    ..*old(self)
                }),
                _ => !r && noted(*old(self), reply, shown@, *final(self)),
            },
            old(self).wf() ==> final(self).wf(),
    {
        match reply {
            Ok(Response::Config(state)) => {
                self.config = Some(state);
                true
            },
            other => {
                self.note_unexpected(other, shown);
                false
            },
        }
    }

    /// Install the reply to a request where only errors are interesting. A
    /// refused poll never lands, so nothing else would stop its spinner.
    pub fn take_sent(&mut self, request: &Request, reply: Result<Response, ClientError>)
        requires
            old(self).wf(),
        ensures
            final(self).wf(),
            match reply {
                Ok(Response::Failed(kind, message)) => {
                    &&& *final(self) == (App {
                        error: final(self).error,
                        polling: final(self).polling,
                        ..*old(self)
                    })
                    &&& final(self).error matches Some(e) && e@ == kind_words(kind) + ": "@
                        + message@
                    &&& match *request {
                        Request::PollNow { provider, account } => forall|id: Seq<char>| #[trigger]
                            final(self).polling@.contains(id) <==> old(self).polling@.contains(id)
                                && !crate::app::keys::targeted(
                                old(self).statuses@,
                                provider@,
                                match account {
                                    Some(a) => Some(a@),
                                    None => None,
                                },
                                id,
                            ),
                        _ => final(self).polling == old(self).polling,
                    }
                },
                Ok(_) => *final(self) == *old(self),
                Err(e) => {
                    &&& *final(self) == (App {
                        error: final(self).error,
                        disconnected: true,
                        ..*old(self)
                    })
                    &&& final(self).error matches Some(m) && m@ == e.words()
                },
            },
    {
        match reply {
            Ok(Response::Failed(kind, message)) => {
                self.error = Some(kind_and_message(kind, message.as_str()));
                if let Request::PollNow { provider, account } = request {
                    self.poll_refused(provider, account.as_ref());
                }
            },
            Ok(_) => {},
            Err(e) => {
                self.disconnected = true;
                self.error = Some(e.message());
            },
        }
    }

    /// The recent-history requests to make at `now`: one per account rather
    /// than per window, since a history request without a window means all of
    /// them.
    pub fn recent_requests(&self, now: Timestamp) -> (r: Vec<(AccountId, Request)>)
        requires
            time::representable(now.at() - RECENT_SPAN_SECS * time::NANOS_PER_SEC),
        ensures
            r@.len() == self.statuses@.len(),
            forall|i: int|
                0 <= i < r@.len() ==> match #[trigger] r@[i] {
                    (id, Request::History { account, window, since, until, max_points }) => {
                        &&& id == self.statuses@[i].account.id
                        &&& account == id
                        &&& window is None
                        &&& since.at() == now.at() - RECENT_SPAN_SECS * time::NANOS_PER_SEC
                        &&& until is None
                        &&& max_points == Some(RECENT_MAX_POINTS)
                    },
                    _ => false,
                },
    {
        let since = Timestamp::from_nanos(
            now.nanos_since_epoch() - RECENT_SPAN_SECS * time::NANOS_PER_SEC,
        );
        let mut out: Vec<(AccountId, Request)> = Vec::new();
        let mut i: usize = 0;
        while i < self.statuses.len()
            invariant
                i <= self.statuses@.len(),
                out@.len() == i,
                since.at() == now.at() - RECENT_SPAN_SECS * time::NANOS_PER_SEC,
                forall|k: int|
                    0 <= k < i ==> match #[trigger] out@[k] {
                        (id, Request::History { account, window, since, until, max_points }) => {
                            &&& id == self.statuses@[k].account.id
                            &&& account == id
                            &&& window is None
                            &&& since.at() == now.at() - RECENT_SPAN_SECS * time::NANOS_PER_SEC
                            &&& until is None
                            &&& max_points == Some(RECENT_MAX_POINTS)
                        },
                        _ => false,
                    },
            decreases self.statuses@.len() - i,
        {
            let id = self.statuses[i].account.id.clone();
            let request = Request::History {
                account: id.clone(),
                window: None,
                since,
                until: None,
                max_points: Some(RECENT_MAX_POINTS),
            };
            out.push((id, request));
            i += 1;
        }
        out
    }
}

/// What an action asks for is what is done next, and nothing is done for none.
pub proof fn an_action_is_carried_out(action: Action, step: Step)
    requires
        step_for(action, step),
    ensures
        action is Quit <==> step is Stop,
        action is ShutdownDaemon <==> step is Shutdown,
        action matches Action::Send(requests) ==> step == Step::Send(requests),
        action matches Action::EditConfig(edit) ==> step == Step::Edit(edit),
        action is Nothing ==> (step matches Step::Fetch(f) && f@.len() == 0),
        action is ReloadDetail ==> (step matches Step::Fetch(f) && f@ == seq![Fetch::Detail]),
        action is LoadConfig ==> (step matches Step::Fetch(f) && f@ == seq![Fetch::Config]),
        !(step is Reconnect),
{
}

/// A reply that was not hoped for changes the status line and nothing else, but
/// that a lost connection is marked as lost.
pub proof fn a_bad_reply_only_shows(
    before: App,
    reply: Result<Response, ClientError>,
    shown: Seq<char>,
    after: App,
)
    requires
        noted(before, reply, shown, after),
    ensures
        after == (App {
            error: after.error,
            disconnected: before.disconnected || reply is Err,
            ..before
        }),
        after.error is Some,
        reply matches Err(e) ==> (after.error->0)@ == e.words(),
        reply matches Ok(Response::Failed(kind, message)) ==> (after.error->0)@ == kind_words(kind)
            + ": "@ + message@,
        reply is Ok && !(reply->Ok_0 is Failed) ==> (after.error->0)@
            == "unexpected daemon reply: "@ + shown,
{
}

/// The status line calls the daemon's own errors by their names, but an internal
/// one the daemon's.
pub proof fn the_status_line_names_the_error(kind: ErrorKind)
    ensures
        kind is Internal ==> kind_words(kind) == "daemon error"@,
        kind !is Internal ==> kind_words(kind) == kind.words(),
        RECENT_SPAN_SECS == 12 * 3_600,
        RECENT_MAX_POINTS == 512,
{
}

} // verus!
