//! The fixed vocabulary of the dashboard: tabs, panes, ranges and overlays.

use vstd::prelude::*;

use crate::num;

verus! {

/// Which detail-pane tab is showing.
#[derive(Debug, Clone, Copy, PartialEq, Eq, Structural)]
pub enum DetailTab {
    /// Usage history for the selected window.
    Trend,
    /// Recent poll log across all accounts.
    Activity,
    /// Provider and per-account health.
    Health,
}

/// Number of detail tabs.
pub const DETAIL_TABS: i128 = 3;

impl DetailTab {
    /// The tab's place in display order.
    pub open spec fn place(self) -> int {
        match self {
            DetailTab::Trend => 0,
            DetailTab::Activity => 1,
            DetailTab::Health => 2,
        }
    }

    /// The tab at a place in display order.
    pub open spec fn placed(place: int) -> DetailTab {
        if place == 0 {
            DetailTab::Trend
        } else if place == 1 {
            DetailTab::Activity
        } else {
            DetailTab::Health
        }
    }

    /// Tab label for the pane header.
    pub fn label(self) -> (r: &'static str)
        ensures
            r@ == match self {
                DetailTab::Trend => "Trend"@,
                DetailTab::Activity => "Activity"@,
                DetailTab::Health => "Health"@,
            },
    {
        match self {
            DetailTab::Trend => "Trend",
            DetailTab::Activity => "Activity",
            DetailTab::Health => "Health",
        }
    }

    /// The tab `delta` places along, going round at both ends.
    pub open spec fn shifted(self, delta: int) -> DetailTab {
        DetailTab::placed((self.place() + delta) % (DETAIL_TABS as int))
    }

    /// The tab `delta` places along, going round at both ends.
    pub fn shift(self, delta: isize) -> (r: Self)
        ensures
            r == self.shifted(delta as int),
    {
        let place: i128 = match self {
            DetailTab::Trend => 0,
            DetailTab::Activity => 1,
            DetailTab::Health => 2,
        };
        let moved: i128 = place + delta as i128;
        let at: i128 = moved - num::floor_div(moved, DETAIL_TABS) * DETAIL_TABS;
        if at == 0 {
            DetailTab::Trend
        } else if at == 1 {
            DetailTab::Activity
        } else {
            DetailTab::Health
        }
    }
}

/// Going back as many tabs as one went forward returns to the same tab.
pub proof fn tabs_shift_back(tab: DetailTab, delta: int)
    ensures
        tab.shifted(delta).shifted(-delta) == tab,
        tab.shifted(delta + DETAIL_TABS) == tab.shifted(delta),
{
    vstd::arithmetic::div_mod::lemma_mod_add_multiples_vanish(tab.place() + delta, 3);
}

/// Which pane the cursor is in.
///
/// The two panes scroll along different axes — the quota list is a tall column
/// of rows, the detail pane is a wide strip of time or of columns too wide for
/// the terminal — so one keypress means "next row" in one and "further along"
/// in the other. Focus is what disambiguates `j`/`k` between them, and the
/// wheel sets it from whichever pane the pointer is over so the two can never
/// end up scrolling different things.
#[derive(Debug, Clone, Copy, PartialEq, Eq, Structural)]
pub enum Pane {
    /// The account/window list.
    List,
    /// The tabbed detail pane.
    Detail,
}

/// How far back the trend chart looks.
#[derive(Debug, Clone, Copy, PartialEq, Eq, Structural)]
pub enum TimeRange {
    /// Last hour.
    H1,
    /// Last six hours.
    H6,
    /// Last day.
    H24,
    /// Last week.
    D7,
}

impl TimeRange {
    /// The range's place in ascending order.
    pub open spec fn place(self) -> int {
        match self {
            TimeRange::H1 => 0,
            TimeRange::H6 => 1,
            TimeRange::H24 => 2,
            TimeRange::D7 => 3,
        }
    }

    /// The range at a place in ascending order.
    pub open spec fn placed(place: int) -> TimeRange {
        if place == 0 {
            TimeRange::H1
        } else if place == 1 {
            TimeRange::H6
        } else if place == 2 {
            TimeRange::H24
        } else {
            TimeRange::D7
        }
    }

    /// Short label for the range selector.
    pub fn label(self) -> (r: &'static str)
        ensures
            r@ == match self {
                TimeRange::H1 => "1h"@,
                TimeRange::H6 => "6h"@,
                TimeRange::H24 => "24h"@,
                TimeRange::D7 => "7d"@,
            },
    {
        match self {
            TimeRange::H1 => "1h",
            TimeRange::H6 => "6h",
            TimeRange::H24 => "24h",
            TimeRange::D7 => "7d",
        }
    }

    /// How far back the range reaches, in seconds.
    pub open spec fn secs(self) -> int {
        match self {
            TimeRange::H1 => 3600,
            TimeRange::H6 => 21_600,
            TimeRange::H24 => 86_400,
            TimeRange::D7 => 604_800,
        }
    }

    /// How far back the range reaches, in seconds.
    pub fn duration(self) -> (r: i64)
        ensures
            r == self.secs(),
    {
        match self {
            TimeRange::H1 => 3600,
            TimeRange::H6 => 21_600,
            TimeRange::H24 => 86_400,
            TimeRange::D7 => 604_800,
        }
    }

    /// Points to ask the daemon for. A chart is at most a few hundred columns
    /// wide even on a large terminal, so requesting more only inflates the
    /// frame — the daemon downsamples to this, preserving peaks.
    pub fn max_points(self) -> (r: u32)
        ensures
            r == 480,
    {
        480
    }

    /// The range `delta` places along, stopping at both ends.
    pub open spec fn shifted(self, delta: int) -> TimeRange {
        TimeRange::placed(num::limited(self.place() + delta, 0, 3))
    }

    /// The range `delta` places along, stopping at both ends.
    pub fn shift(self, delta: isize) -> (r: Self)
        ensures
            r == self.shifted(delta as int),
    {
        let place: i128 = match self {
            TimeRange::H1 => 0,
            TimeRange::H6 => 1,
            TimeRange::H24 => 2,
            TimeRange::D7 => 3,
        };
        let at: i128 = num::limit(place + delta as i128, 0, 3);
        if at == 0 {
            TimeRange::H1
        } else if at == 1 {
            TimeRange::H6
        } else if at == 2 {
            TimeRange::H24
        } else {
            TimeRange::D7
        }
    }
}

/// A longer range never reaches less far back.
pub proof fn ranges_ascend(a: TimeRange, delta: int)
    requires
        delta >= 0,
    ensures
        a.secs() <= a.shifted(delta).secs(),
{
}

/// A modal drawn over the dashboard.
#[derive(Debug, Clone, Copy, PartialEq, Eq, Structural)]
pub enum Overlay {
    /// Full keymap.
    Help,
    /// Two-step daemon shutdown confirmation.
    ConfirmShutdown,
    /// Daemon settings: what `config.toml` currently says, and an editor for
    /// it.
    Settings,
}

/// The tabs stand in a ring: trend, activity, health, and trend again.
pub proof fn the_tabs_stand_in_a_ring()
    ensures
        DetailTab::Trend.shifted(1) == DetailTab::Activity,
        DetailTab::Activity.shifted(1) == DetailTab::Health,
        DetailTab::Health.shifted(1) == DetailTab::Trend,
        DetailTab::Trend.shifted(-1) == DetailTab::Health,
        DetailTab::Activity.shifted(-1) == DetailTab::Trend,
        DetailTab::Health.shifted(-1) == DetailTab::Activity,
{
}

/// The ranges stand in a row, from an hour to seven days, and it has two ends.
pub proof fn the_ranges_stand_in_a_row(range: TimeRange)
    ensures
        range is H1 ==> range.secs() == 3_600 && range.shifted(1) is H6 && range.shifted(-1) is H1,
        range is H6 ==> range.secs() == 6 * 3_600 && range.shifted(1) is H24 && range.shifted(
            -1,
        ) is H1,
        range is H24 ==> range.secs() == 24 * 3_600 && range.shifted(1) is D7 && range.shifted(
            -1,
        ) is H6,
        range is D7 ==> range.secs() == 7 * 24 * 3_600 && range.shifted(1) is D7 && range.shifted(
            -1,
        ) is H24,
{
}

} // verus!
