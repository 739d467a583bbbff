//! The header strip: who is polled, how live the connection is, and the one
//! number worth seeing without reading the list.

use vstd::prelude::*;

use crate::amount::Amount;
use crate::app::state::App;
use crate::domain;
use crate::domain::Account;
use crate::protocol::wire::{AccountStatus, WindowView};
use crate::text;
use crate::time;
use crate::time::Timestamp;
use crate::ui::cells;
use crate::ui::cells::truncate;
use crate::ui::formats;
use crate::ui::formats::Printed;
use crate::ui::spans;
use crate::ui::spans::{Line, SpanData};
use crate::ui::theme;

verus! {

/// A burn rate, and how it is printed: with two decimals, and in whole
/// percent.
#[derive(Debug, PartialEq, Eq)]
pub struct Rated {
    /// The rate.
    pub rate: Amount,
    /// The rate, with two decimals.
    pub text: String,
    /// A hundred times the rate, with none.
    pub percent: String,
}

/// The quotients behind one window's row, and how they are printed.
#[derive(Debug, PartialEq, Eq)]
pub struct Figures {
    /// What is used over the window's divisor, if it has one.
    pub quotient: Amount,
    /// The window's numbers, printed whole.
    pub printed: Printed,
    /// How many eighths of a cell of the row's bar are filled.
    pub eighths: usize,
    /// The window's pace, if it has one.
    pub pace: Rated,
    /// The pace over the recent stretch, where there is one.
    pub recent: Option<Rated>,
    /// Seconds the headroom lasts at the window's pace, if that is a number.
    pub projected: Option<i64>,
    /// The affordable pace, if there is one, with two decimals.
    pub afford: String,
}

/// Figures for every window of every account, in the statuses' order.
pub open spec fn covers(figures: Seq<Vec<Figures>>, statuses: Seq<AccountStatus>) -> bool {
    &&& figures.len() == statuses.len()
    &&& forall|a: int|
        0 <= a < statuses.len() ==> (#[trigger] figures[a])@.len() == statuses[a].windows@.len()
}

/// An account as the header names it.
pub open spec fn account_name(account: Account) -> Seq<char> {
    account.provider@ + "/"@ + account.label@
}

/// An account as the header names it: "provider/label".
pub fn name_of(account: &Account) -> (r: String)
    ensures
        r@ == account_name(*account),
{
    account.provider.clone().concat("/").concat(account.label.as_str())
}

/// The names of the first `n` accounts, separated by commas.
pub open spec fn name_list(statuses: Seq<AccountStatus>, n: nat) -> Seq<char>
    decreases n,
{
    if n == 0 {
        Seq::empty()
    } else if n == 1 {
        account_name(statuses[0].account)
    } else {
        name_list(statuses, (n - 1) as nat) + ", "@ + account_name(statuses[n - 1].account)
    }
}

/// How many windows the first `n` accounts have.
pub open spec fn windows_of(statuses: Seq<AccountStatus>, n: nat) -> nat
    decreases n,
{
    if n == 0 {
        0
    } else {
        windows_of(statuses, (n - 1) as nat) + statuses[n - 1].windows@.len()
    }
}

/// What makes a word plural, for `n` of them.
pub open spec fn plural(n: nat) -> Seq<char> {
    if n == 1 {
        ""@
    } else {
        "s"@
    }
}

/// The identity line.
pub open spec fn identity(statuses: Seq<AccountStatus>) -> Seq<SpanData> {
    if statuses.len() == 0 {
        seq![
            spans::span("Teiryō"@, theme::heading()),
            spans::span("  waiting for the daemon"@, theme::dim()),
        ]
    } else {
        let windows = windows_of(statuses, statuses.len());
        seq![
            spans::span("Teiryō"@, theme::heading()),
            spans::span("  "@, theme::plain()),
            spans::span(
                cells::truncated(name_list(statuses, statuses.len()), 40),
                theme::bold(theme::plain()),
            ),
            spans::span(
                "  "@ + text::decimal(windows) + " window"@ + plural(windows),
                theme::dim(),
            ),
        ]
    }
}

/// The name, the accounts, and how many windows they have:
/// "Teiryō  acme/default  4 windows".
pub fn identity_line(statuses: &Vec<AccountStatus>) -> (r: Line)
    ensures
        r@ == identity(statuses@),
{
    let mut line = Line::new();
    line.say("Teiryō", theme::heading());
    if statuses.len() == 0 {
        line.say("  waiting for the daemon", theme::dim());
        return line;
    }
    let mut names = name_of(&statuses[0].account);
    let mut windows: u128 = statuses[0].windows.len() as u128;
    let mut i: usize = 1;
    assert(windows_of(statuses@, 1) == windows_of(statuses@, 0) + statuses@[0].windows@.len());
    while i < statuses.len()
        invariant
            1 <= i <= statuses.len(),
            names@ == name_list(statuses@, i as nat),
            windows == windows_of(statuses@, i as nat),
            windows <= i * 0xffff_ffff_ffff_ffff,
        decreases statuses.len() - i,
    {
        names = names.concat(", ").concat(name_of(&statuses[i].account).as_str());
        windows = windows + statuses[i].windows.len() as u128;
        i += 1;
    }
    line.say("  ", theme::plain());
    line.push(truncate(names.as_str(), 40), theme::bold(theme::plain()));
    let plural = if windows == 1 {
        ""
    } else {
        "s"
    };
    let count = "  ".to_owned().concat(text::decimal_wide(windows).as_str()).concat(
        " window",
    ).concat(plural);
    line.push(count, theme::dim());
    line
}

/// When an account is next due, if it is scheduled and has been polled.
pub open spec fn due_at(status: AccountStatus) -> Option<int> {
    match status.last_poll {
        Some(event) => if status.poll_interval_secs > 0 {
            Some(event.ts.at() + status.poll_interval_secs * time::NANOS_PER_SEC)
        } else {
            None
        },
        None => None,
    }
}

/// The soonest expected next poll of the first `n` accounts, if one lies
/// ahead.
pub open spec fn next_poll(statuses: Seq<AccountStatus>, n: nat, now: int) -> Option<int>
    decreases n,
{
    if n == 0 {
        None
    } else {
        let rest = next_poll(statuses, (n - 1) as nat, now);
        match due_at(statuses[n - 1]) {
            Some(at) => if at > now && (rest is None || at < rest->0) {
                Some(at)
            } else {
                rest
            },
            None => rest,
        }
    }
}

/// The soonest expected next poll across all accounts, in nanoseconds since
/// the epoch. Approximate: the scheduler jitters each cycle by ±10%, so this
/// is a hint, not a promise.
pub fn next_poll_at(statuses: &Vec<AccountStatus>, now: Timestamp) -> (r: Option<i128>)
    ensures
        match next_poll(statuses@, statuses@.len(), now.at()) {
            Some(at) => r == Some(at as i128) && r->0 == at && at > now.at(),
            None => r is None,
        },
        r matches Some(at) ==> time::FIRST <= at <= time::LAST + 0x1_0000_0000
            * time::NANOS_PER_SEC,
{
    let from: i128 = now.nanos_since_epoch();
    let mut soonest: Option<i128> = None;
    let mut i: usize = 0;
    while i < statuses.len()
        invariant
            i <= statuses.len(),
            from == now.at(),
            match next_poll(statuses@, i as nat, now.at()) {
                Some(at) => soonest == Some(at as i128) && soonest->0 == at && at > now.at(),
                None => soonest is None,
            },
            soonest matches Some(at) ==> time::FIRST <= at <= time::LAST + 0x1_0000_0000
                * time::NANOS_PER_SEC,
        decreases statuses.len() - i,
    {
        let status = &statuses[i];
        if let Some(event) = &status.last_poll {
            if status.poll_interval_secs > 0 {
                let at: i128 = event.ts.nanos_since_epoch() + status.poll_interval_secs as i128
                    * time::NANOS_PER_SEC;
                if at > from {
                    match soonest {
                        Some(s) => {
                            if at < s {
                                soonest = Some(at);
                            }
                        },
                        None => {
                            soonest = Some(at);
                        },
                    }
                }
            }
        }
        i += 1;
    }
    soonest
}

/// No account that is due later than now is due before the soonest next poll,
/// and that is when one of them is due.
pub proof fn the_next_poll_is_the_soonest(statuses: Seq<AccountStatus>, n: nat, now: int)
    requires
        n <= statuses.len(),
    ensures
        forall|i: int|
            0 <= i < n ==> (due_at(#[trigger] statuses[i]) matches Some(at) ==> at > now ==> (
            next_poll(statuses, n, now) matches Some(next) && next <= at)),
        next_poll(statuses, n, now) matches Some(next) ==> next > now && exists|i: int|
            0 <= i < n && due_at(#[trigger] statuses[i]) == Some(next),
    decreases n,
{
    if n > 0 {
        the_next_poll_is_the_soonest(statuses, (n - 1) as nat, now);
        if let Some(next) = next_poll(statuses, n, now) {
            if due_at(statuses[n - 1]) == Some(next) {
            } else {
                let i = choose|i: int| 0 <= i < n - 1 && due_at(#[trigger] statuses[i]) == Some(next);
                assert(due_at(statuses[i]) == Some(next));
            }
        }
    }
}

/// The connection line.
pub open spec fn connection(app: App, now: int) -> Seq<SpanData> {
    if app.disconnected {
        seq![spans::span("◌ daemon unreachable — reconnecting…"@, theme::fg(theme::WARN))]
    } else {
        let live = seq![
            spans::span("● "@, theme::fg(theme::OK)),
            spans::span("live"@, theme::dim()),
        ];
        let polling = if app.polling@ == Set::<Seq<char>>::empty() {
            live
        } else {
            live.push(spans::span("  "@, theme::plain())).push(
                spans::span(
                    theme::SPINNER@[app.spinner as int % 8]@ + " polling"@,
                    theme::fg(theme::ACCENT),
                ),
            )
        };
        let updated = polling.push(
            match app.last_update {
                Some(ts) => spans::span(
                    "  updated "@ + formats::elapsed(ts.at(), now),
                    theme::dim(),
                ),
                None => spans::span("  no updates yet"@, theme::dim()),
            },
        );
        match next_poll(app.statuses@, app.statuses@.len(), now) {
            Some(next) => updated.push(
                spans::span("  next ~"@ + formats::countdown(next, now), theme::dim()),
            ),
            None => updated,
        }
    }
}

/// Connection dot, staleness, and the next scheduled poll.
pub fn connection_line(app: &App, now: Timestamp) -> (r: Line)
    ensures
        r@ == connection(*app, now.at()),
{
    let mut line = Line::new();
    if app.disconnected {
        line.say("◌ daemon unreachable — reconnecting…", theme::fg(theme::WARN));
        return line;
    }
    line.say("● ", theme::fg(theme::OK));
    line.say("live", theme::dim());
    if !app.polling.is_empty() {
        line.say("  ", theme::plain());
        line.push(
            theme::spinner_frame(app.spinner).to_owned().concat(" polling"),
            theme::fg(theme::ACCENT),
        );
    }
    match app.last_update {
        Some(ts) => line.push(
            "  updated ".to_owned().concat(formats::format_elapsed(ts, now).as_str()),
            theme::dim(),
        ),
        None => line.say("  no updates yet", theme::dim()),
    }
    if let Some(next) = next_poll_at(&app.statuses, now) {
        let left: i128 = next - now.nanos_since_epoch();
        assert(formats::countdown(left as int, 0) == formats::countdown(next as int, now.at()));
        line.push(
            "  next ~".to_owned().concat(formats::countdown_of(left).as_str()),
            theme::dim(),
        );
    }
    line
}

// ---------------------------------------------------------------------------
// Headroom
// ---------------------------------------------------------------------------

/// A window, by its account's place and its own, and its utilization.
#[derive(Debug, Clone, Copy, PartialEq, Eq, Structural)]
pub struct Worst {
    /// The account's place.
    pub account: usize,
    /// The window's place in it.
    pub window: usize,
    /// Its utilization.
    pub ratio: Amount,
}

/// A window's utilization, if it has one.
pub open spec fn ratio_of(view: WindowView, figures: Figures) -> Option<Amount> {
    domain::utilization_of(view.window.unit, view.window.limit, figures.quotient)
}

/// The highest-utilization window of the accounts before place `a`, and of the
/// first `w` windows at it; the last of several that are equally high.
pub open spec fn worst_of(
    statuses: Seq<AccountStatus>,
    figures: Seq<Vec<Figures>>,
    a: nat,
    w: nat,
) -> Option<Worst>
    decreases a, w,
{
    if w > 0 {
        let rest = worst_of(statuses, figures, a, (w - 1) as nat);
        match ratio_of(statuses[a as int].windows@[w - 1], figures[a as int]@[w - 1]) {
            Some(ratio) => if rest is Some && ratio.total_rank() < rest->0.ratio.total_rank() {
                rest
            } else {
                Some(Worst { account: a as usize, window: (w - 1) as usize, ratio })
            },
            None => rest,
        }
    } else if a > 0 {
        worst_of(statuses, figures, (a - 1) as nat, statuses[a - 1].windows@.len())
    } else {
        None
    }
}

/// Highest-utilization window across every account.
pub fn worst_window(statuses: &Vec<AccountStatus>, figures: &Vec<Vec<Figures>>) -> (r: Option<
    Worst,
>)
    requires
        covers(figures@, statuses@),
    ensures
        r == worst_of(statuses@, figures@, statuses@.len(), 0),
        r matches Some(worst) ==> worst.account < statuses@.len() && worst.window
            < statuses@[worst.account as int].windows@.len(),
{
    let mut worst: Option<Worst> = None;
    let mut a: usize = 0;
    while a < statuses.len()
        invariant
            a <= statuses.len(),
            covers(figures@, statuses@),
            worst == worst_of(statuses@, figures@, a as nat, 0),
            worst matches Some(it) ==> it.account < statuses@.len() && it.window
                < statuses@[it.account as int].windows@.len(),
        decreases statuses.len() - a,
    {
        let windows = &statuses[a].windows;
        let mut w: usize = 0;
        assert(figures@[a as int]@.len() == windows@.len());
        while w < windows.len()
            invariant
                a < statuses.len(),
                w <= windows.len(),
                *windows == statuses@[a as int].windows,
                figures@.len() == statuses@.len(),
                figures@[a as int]@.len() == windows@.len(),
                worst == worst_of(statuses@, figures@, a as nat, w as nat),
                worst matches Some(it) ==> it.account < statuses@.len() && it.window
                    < statuses@[it.account as int].windows@.len(),
            decreases windows.len() - w,
        {
            if let Some(ratio) = windows[w].window.utilization(figures[a][w].quotient) {
                let higher = match worst {
                    Some(it) => !ratio.totally_below(it.ratio),
                    None => true,
                };
                if higher {
                    worst = Some(Worst { account: a, window: w, ratio });
                }
            }
            w += 1;
        }
        a += 1;
        assert(worst_of(statuses@, figures@, a as nat, 0) == worst_of(
            statuses@,
            figures@,
            (a - 1) as nat,
            windows@.len(),
        ));
    }
    worst
}

/// No window that has a utilization has a higher one than the worst.
pub proof fn the_worst_window_is_the_highest(
    statuses: Seq<AccountStatus>,
    figures: Seq<Vec<Figures>>,
    a: nat,
    w: nat,
    account: int,
    window: int,
)
    requires
        0 <= account < statuses.len(),
        0 <= window < statuses[account].windows@.len(),
        account < a || account == a && window < w,
        ratio_of(statuses[account].windows@[window], figures[account]@[window]) is Some,
    ensures
        ({
            let ratio = ratio_of(statuses[account].windows@[window], figures[account]@[window])->0;
            worst_of(statuses, figures, a, w) matches Some(worst) && ratio.total_rank()
                <= worst.ratio.total_rank()
        }),
    decreases a, w,
{
    if w > 0 {
        if !(account == a && window == w - 1) {
            the_worst_window_is_the_highest(
                statuses,
                figures,
                a,
                (w - 1) as nat,
                account,
                window,
            );
        }
    } else {
        the_worst_window_is_the_highest(
            statuses,
            figures,
            (a - 1) as nat,
            statuses[a - 1].windows@.len(),
            account,
            window,
        );
    }
}

/// The headroom line; `eighths` of a cell of its bar are filled.
pub open spec fn headroom(
    statuses: Seq<AccountStatus>,
    figures: Seq<Vec<Figures>>,
    eighths: usize,
) -> Seq<SpanData> {
    match worst_of(statuses, figures, statuses.len(), 0) {
        None => seq![spans::span("no quota data yet"@, theme::dim())],
        Some(worst) => {
            let view = statuses[worst.account as int].windows@[worst.window as int];
            let printed = figures[worst.account as int]@[worst.window as int].printed;
            let color = theme::severity_of(worst.ratio, view.hint);
            seq![
                spans::span(cells::truncated(view.window.label@, 22) + " "@, theme::dim()),
                spans::span(formats::fine_bar(eighths as int, 12), theme::fg(color)),
                spans::span(
                    " "@ + text::padded_left(formats::usage_brief(view.window, printed), 4),
                    theme::bold(theme::fg(color)),
                ),
            ]
        },
    }
}

/// The account-wide worst window, as a compact gauge — the one number worth
/// seeing without reading the list.
pub fn headroom_line(
    statuses: &Vec<AccountStatus>,
    figures: &Vec<Vec<Figures>>,
    eighths: usize,
) -> (r: Line)
    requires
        covers(figures@, statuses@),
    ensures
        r@ == headroom(statuses@, figures@, eighths),
{
    let mut line = Line::new();
    match worst_window(statuses, figures) {
        None => line.say("no quota data yet", theme::dim()),
        Some(worst) => {
            let view = &statuses[worst.account].windows[worst.window];
            assert(figures@[worst.account as int]@.len() == statuses@[worst.account as int].windows@.len());
            let printed = &figures[worst.account][worst.window].printed;
            let color = theme::severity(worst.ratio, &view.hint);
            line.push(truncate(view.window.label.as_str(), 22).concat(" "), theme::dim());
            line.push(formats::text_bar_fine(eighths, 12), theme::fg(color));
            let used = formats::usage_short(&view.window, printed);
            line.push(
                " ".to_owned().concat(text::pad_left(used.as_str(), 4).as_str()),
                theme::bold(theme::fg(color)),
            );
        },
    }
    line
}

/// The notice line.
pub open spec fn notice(app: App) -> SpanData {
    match app.error {
        Some(error) => spans::span(cells::truncated(error@, 60), theme::fg(theme::CRIT)),
        None => match app.config {
            Some(config) => match config.error {
                Some(error) => spans::span(
                    cells::truncated("✗ config not applied: "@ + error@ + " — press s"@, 60),
                    theme::fg(theme::CRIT),
                ),
                None => caveat(app),
            },
            None => caveat(app),
        },
    }
}

/// The selected window's provider caveat, if any.
pub open spec fn caveat(app: App) -> SpanData {
    match app.window() {
        Some((_, view)) => match view.hint.note {
            Some(note) => spans::span(cells::truncated(note@, 60), theme::dim()),
            None => spans::span(""@, theme::plain()),
        },
        None => spans::span(""@, theme::plain()),
    }
}

/// Error text, else the selected window's provider caveat.
///
/// A rejected config.toml has to be visible here, not only inside the Settings
/// overlay: otherwise the daemon looks like it is quietly ignoring the file the
/// user just edited.
pub fn notice_line(app: &App) -> (r: Line)
    ensures
        r@ == seq![notice(*app)],
{
    if let Some(error) = &app.error {
        return Line::of(truncate(error.as_str(), 60), theme::fg(theme::CRIT));
    }
    if let Some(error) = app.config_error() {
        let words = "✗ config not applied: ".to_owned().concat(error).concat(" — press s");
        return Line::of(truncate(words.as_str(), 60), theme::fg(theme::CRIT));
    }
    if let Some((_, view)) = app.selected_window() {
        if let Some(note) = &view.hint.note {
            return Line::of(truncate(note.as_str(), 60), theme::dim());
        }
    }
    Line::of("".to_owned(), theme::plain())
}

/// The accounts are named with their providers, in order, a comma between them,
/// and their windows counted.
pub proof fn the_accounts_are_named_in_order(statuses: Seq<AccountStatus>, n: nat)
    requires
        n < statuses.len(),
    ensures
        name_list(statuses, 0).len() == 0,
        n == 0 ==> name_list(statuses, n + 1) == statuses[0].account.provider@ + "/"@
            + statuses[0].account.label@,
        n > 0 ==> name_list(statuses, n + 1) == name_list(statuses, n) + ", "@ + (statuses[
            n as int
        ].account.provider@ + "/"@ + statuses[n as int].account.label@),
        windows_of(statuses, 0) == 0,
        windows_of(statuses, n + 1) == windows_of(statuses, n) + statuses[n as int].windows@.len(),
{
}

/// Only one is singular; none takes an `s` too.
pub proof fn only_one_is_singular(n: nat)
    ensures
        n == 1 ==> plural(n) == ""@,
        n != 1 ==> plural(n) == "s"@,
{
}

/// The left of the header names the accounts, in no more than forty cells, and
/// counts their windows; before any account is known it says it is waiting.
pub proof fn the_header_says_whose_quotas_these_are(statuses: Seq<AccountStatus>)
    ensures
        statuses.len() == 0 ==> identity(statuses) == seq![
            SpanData {
                text: "Teiryō"@,
                style: theme::heading(),
            },
            SpanData { text: "  waiting for the daemon"@, style: theme::dim() },
        ],
        statuses.len() > 0 ==> {
            let n = windows_of(statuses, statuses.len());
            let said = identity(statuses);
            &&& said.len() == 4
            &&& said[0].text == "Teiryō"@
            &&& said[2].text == cells::truncated(name_list(statuses, statuses.len()), 40)
            &&& said[3].text == "  "@ + text::decimal(n) + " window"@ + plural(n)
        },
{
}

/// An account is due again its interval after its last poll, if it has had one
/// and has an interval.
pub proof fn an_account_is_due_its_interval_after_its_last_poll(status: AccountStatus)
    ensures
        status.last_poll is None || status.poll_interval_secs == 0 ==> due_at(status) is None,
        status.last_poll is Some && status.poll_interval_secs > 0 ==> due_at(status) == Some(
            (status.last_poll->0).ts.at() + status.poll_interval_secs * 1_000_000_000,
        ),
{
}

/// The right of the header says whether the daemon can be reached; if so, whether
/// it is polling, when it last updated and when it will next.
pub proof fn the_header_says_how_the_daemon_is(app: App, now: int)
    ensures
        app.disconnected ==> connection(app, now) == seq![
            SpanData {
                text: "◌ daemon unreachable — reconnecting…"@,
                style: theme::fg(theme::Color::Yellow),
            },
        ],
        !app.disconnected ==> {
            let said = connection(app, now);
            let busy = app.polling@ != Set::<Seq<char>>::empty();
            let at = if busy {
                4int
            } else {
                2
            };
            let next = next_poll(app.statuses@, app.statuses@.len(), now);
            &&& said[0] == (SpanData { text: "● "@, style: theme::fg(theme::Color::Green) })
            &&& said[1].text == "live"@
            &&& busy ==> said[3].text == theme::SPINNER@[app.spinner as int % 8]@ + " polling"@
            &&& app.last_update is None ==> said[at].text == "  no updates yet"@
            &&& app.last_update matches Some(ts) ==> said[at].text == "  updated "@
                + formats::elapsed(ts.at(), now)
            &&& next is None ==> said.len() == at + 1
            &&& next matches Some(due) ==> said.len() == at + 2 && said[at + 1].text == "  next ~"@
                + formats::countdown(due, now)
        },
{
}

/// The worst window is one that has a ratio, told at that ratio; and of those as
/// bad, the last.
pub proof fn the_worst_window_is_told_at_its_ratio(
    statuses: Seq<AccountStatus>,
    figures: Seq<Vec<Figures>>,
    a: nat,
    w: nat,
)
    requires
        a <= statuses.len() <= usize::MAX,
        a < statuses.len() ==> w <= statuses[a as int].windows@.len(),
        a == statuses.len() ==> w == 0,
        forall|i: int|
            0 <= i < statuses.len() ==> (#[trigger] statuses[i]).windows@.len() <= usize::MAX,
    ensures
        worst_of(statuses, figures, a, w) matches Some(worst) ==> {
            &&& worst.account < a || worst.account == a && worst.window < w
            &&& worst.account < statuses.len()
            &&& worst.window < statuses[worst.account as int].windows@.len()
            &&& ratio_of(
                statuses[worst.account as int].windows@[worst.window as int],
                figures[worst.account as int]@[worst.window as int],
            ) == Some(worst.ratio)
        },
        w > 0 ==> ({
            let ratio = ratio_of(statuses[a as int].windows@[w - 1], figures[a as int]@[w - 1]);
            let rest = worst_of(statuses, figures, a, (w - 1) as nat);
            ratio matches Some(r) ==> rest is None || rest->0.ratio.total_rank() <= r.total_rank()
                ==> worst_of(statuses, figures, a, w) == Some(
                Worst { account: a as usize, window: (w - 1) as usize, ratio: ratio->0 },
            )
        }),
    decreases a, w,
{
    if w > 0 {
        the_worst_window_is_told_at_its_ratio(statuses, figures, a, (w - 1) as nat);
    } else if a > 0 {
        the_worst_window_is_told_at_its_ratio(
            statuses,
            figures,
            (a - 1) as nat,
            statuses[a - 1].windows@.len(),
        );
    }
}

/// The header shows the worst window's label, its use as a bar of twelve cells
/// and in words, in the color of its severity.
pub proof fn the_header_shows_the_worst_window(
    statuses: Seq<AccountStatus>,
    figures: Seq<Vec<Figures>>,
    eighths: usize,
)
    ensures
        worst_of(statuses, figures, statuses.len(), 0) is None ==> headroom(
            statuses,
            figures,
            eighths,
        ) == seq![SpanData { text: "no quota data yet"@, style: theme::dim() }],
        worst_of(statuses, figures, statuses.len(), 0) matches Some(worst) ==> {
            let view = statuses[worst.account as int].windows@[worst.window as int];
            let own = figures[worst.account as int]@[worst.window as int];
            let said = headroom(statuses, figures, eighths);
            let color = theme::severity_of(worst.ratio, view.hint);
            &&& said.len() == 3
            &&& said[0].text == cells::truncated(view.window.label@, 22) + " "@
            &&& said[1].text == formats::fine_bar(eighths as int, 12)
            &&& said[1].style.fg == Some(color)
            &&& said[2].text == " "@ + text::padded_left(
                formats::usage_brief(view.window, own.printed),
                4,
            )
            &&& said[2].style.fg == Some(color) && said[2].style.bold
        },
{
}

/// An error is shown first; then that the configuration was not applied; then the
/// selected window's caveat. Each in no more than sixty cells.
pub proof fn the_first_thing_wrong_is_noticed(app: App)
    ensures
        app.error matches Some(e) ==> notice(app).text == cells::truncated(e@, 60)
            && notice(app).style.fg == Some(theme::Color::Red),
        app.error is None && app.config is Some && (app.config->0).error is Some ==> notice(
            app,
        ).text == cells::truncated(
            "✗ config not applied: "@ + ((app.config->0).error->0)@ + " — press s"@,
            60,
        ) && notice(app).style.fg == Some(theme::Color::Red),
        app.error is None && (app.config is None || (app.config->0).error is None) ==> {
            &&& app.window() is Some && (app.window()->0).1.hint.note is Some ==> notice(app).text
                == cells::truncated(((app.window()->0).1.hint.note->0)@, 60)
            &&& app.window() is None || (app.window()->0).1.hint.note is None ==> notice(app).text
                == ""@
        },
{
}

} // verus!
