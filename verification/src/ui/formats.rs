//! Pure formatting helpers. No widgets, no state — everything here is a
//! value-in, string-out function so it can be tested directly.

use vstd::prelude::*;

use crate::domain::{PollEvent, PollOutcome, PollTrigger, QuotaUnit, QuotaWindow};
use crate::num;
use crate::text;
use crate::time;
use crate::time::Timestamp;

verus! {

/// Whole seconds of a length in nanoseconds, rounded towards zero.
pub open spec fn secs_of(length: int) -> int {
    num::truncated(length, time::NANOS_PER_SEC as int)
}

/// A number below a hundred in two digits.
pub open spec fn two_digits(n: int) -> Seq<char> {
    seq![text::digit(n / 10), text::digit(n % 10)]
}

/// A number in decimal.
pub open spec fn digits(n: int) -> Seq<char> {
    text::decimal(n as nat)
}

fn two_digits_of(n: u64) -> (r: String)
    requires
        n < 100,
    ensures
        r@ == two_digits(n as int),
{
    let mut out = String::new();
    out.push((48u8 + (n / 10) as u8) as char);
    out.push((48u8 + (n % 10) as u8) as char);
    assert(out@ =~= two_digits(n as int));
    out
}

/// Coarse, human-scaled duration: "3d 4h", "2h 05m", "2m 05s", "41s".
pub open spec fn humanized(secs: int) -> Seq<char> {
    if secs >= 86_400 {
        digits(secs / 86_400) + "d "@ + digits((secs / 3_600) % 24) + "h"@
    } else if secs >= 3_600 {
        digits(secs / 3_600) + "h "@ + two_digits((secs / 60) % 60) + "m"@
    } else if secs >= 60 {
        digits(secs / 60) + "m "@ + two_digits(secs % 60) + "s"@
    } else {
        digits(secs) + "s"@
    }
}

/// Coarse, human-scaled duration of `secs` seconds.
pub fn humanize(secs: u64) -> (r: String)
    ensures
        r@ == humanized(secs as int),
{
    let d: u64 = secs / 86_400;
    let h: u64 = (secs / 3_600) % 24;
    let m: u64 = (secs / 60) % 60;
    let s: u64 = secs % 60;
    if d > 0 {
        text::decimal_of(d).concat("d ").concat(text::decimal_of(h).as_str()).concat("h")
    } else if h > 0 {
        text::decimal_of(h).concat("h ").concat(two_digits_of(m).as_str()).concat("m")
    } else if m > 0 {
        text::decimal_of(m).concat("m ").concat(two_digits_of(s).as_str()).concat("s")
    } else {
        text::decimal_of(s).concat("s")
    }
}

fn secs_between(later: Timestamp, earlier: Timestamp) -> (r: i64)
    ensures
        r == secs_of(later.at() - earlier.at()),
{
    time::whole_secs(later.since(earlier)) as i64
}

/// Humanized countdown to a reset instant.
pub open spec fn countdown(reset_at: int, now: int) -> Seq<char> {
    if secs_of(reset_at - now) <= 0 {
        "due"@
    } else {
        humanized(secs_of(reset_at - now))
    }
}

/// Humanized countdown to a reset instant: "2h 05m", "3d 4h", "41s", "due".
pub fn format_countdown(reset_at: Timestamp, now: Timestamp) -> (r: String)
    ensures
        r@ == countdown(reset_at.at(), now.at()),
{
    countdown_of(reset_at.since(now))
}

/// Humanized countdown over a length in nanoseconds.
pub fn countdown_of(length: i128) -> (r: String)
    requires
        -20_000_000_000_000_000_000_000 <= length <= 20_000_000_000_000_000_000_000,
    ensures
        r@ == countdown(length as int, 0),
{
    let secs: i128 = time::whole_secs(length);
    if secs <= 0 {
        return "due".to_owned();
    }
    humanize(secs as u64)
}

/// Humanized length of a duration of `secs` seconds: "3d 4h", "2h 05m", "41s",
/// "0s".
///
/// The same ladder [`format_countdown`] uses, for a span that is not anchored
/// to an instant — how long something lasts rather than when it lands. Note it
/// is coarse above a day: 36 hours reads "1d 12h".
pub fn format_span(secs: i64) -> (r: String)
    ensures
        r@ == humanized(
            if secs < 0 {
                0
            } else {
                secs as int
            },
        ),
{
    if secs < 0 {
        humanize(0)
    } else {
        humanize(secs as u64)
    }
}

/// Humanized time since an instant.
pub open spec fn elapsed(then: int, now: int) -> Seq<char> {
    if secs_of(now - then) < 1 {
        "just now"@
    } else {
        humanized(secs_of(now - then)) + " ago"@
    }
}

/// Humanized time since an instant: "2h 05m ago", "41s ago", "just now".
///
/// Deliberately a separate function rather than calling [`format_countdown`]
/// with swapped arguments: that idiom rendered anything within the current
/// second as "due ago".
pub fn format_elapsed(then: Timestamp, now: Timestamp) -> (r: String)
    ensures
        r@ == elapsed(then.at(), now.at()),
{
    let secs: i64 = secs_between(now, then);
    if secs < 1 {
        return "just now".to_owned();
    }
    humanize(secs as u64).concat(" ago")
}

/// A number and its unit, unless the number is zero.
pub open spec fn part(n: int, unit: Seq<char>) -> Seq<Seq<char>> {
    if n > 0 {
        seq![digits(n) + unit]
    } else {
        seq![]
    }
}

/// Texts with a blank between each two.
pub open spec fn spaced(parts: Seq<Seq<char>>) -> Seq<char>
    decreases parts.len(),
{
    if parts.len() == 0 {
        Seq::empty()
    } else if parts.len() == 1 {
        parts[0]
    } else {
        spaced(parts.drop_last()) + " "@ + parts.last()
    }
}

/// A poll cadence in the shortest exact form.
pub open spec fn interval(secs: int) -> Seq<char> {
    if secs == 0 {
        "0s"@
    } else {
        spaced(
            part(secs / 3_600, "h"@) + part((secs / 60) % 60, "m"@) + part(secs % 60, "s"@),
        )
    }
}

/// Add a part to what is said so far.
fn add_part(so_far: String, n: u64, unit: &str, Ghost(parts): Ghost<Seq<Seq<char>>>) -> (r: String)
    requires
        so_far@ == spaced(parts),
        parts.len() > 0 ==> so_far@.len() > 0,
        parts.len() == 0 ==> so_far@.len() == 0,
        unit@.len() > 0,
    ensures
        r@ == spaced(parts + part(n as int, unit@)),
        parts.len() + part(n as int, unit@).len() > 0 ==> r@.len() > 0,
        parts.len() + part(n as int, unit@).len() == 0 ==> r@.len() == 0,
{
    let ghost all = parts + part(n as int, unit@);
    if n == 0 {
        assert(all =~= parts);
        return so_far;
    }
    let said = text::decimal_of(n).concat(unit);
    assert(all.drop_last() =~= parts);
    assert(all.last() == said@);
    if so_far.as_str().is_empty() {
        said
    } else {
        so_far.concat(" ").concat(said.as_str())
    }
}

/// A poll cadence in the shortest exact form: "30s", "5m", "1h", "1h 30m".
///
/// Exact rather than coarse, unlike [`format_countdown`]: this is a value the
/// user sets, so rounding "90s" to "1m" would show them something they did not
/// choose and could not reproduce.
pub fn format_interval(secs: u32) -> (r: String)
    ensures
        r@ == interval(secs as int),
{
    if secs == 0 {
        return "0s".to_owned();
    }
    proof {
        reveal_strlit("h");
        reveal_strlit("m");
        reveal_strlit("s");
    }
    let h: u64 = (secs / 3_600) as u64;
    let m: u64 = ((secs / 60) % 60) as u64;
    let s: u64 = (secs % 60) as u64;
    let ghost none = Seq::<Seq<char>>::empty();
    let hours = add_part(String::new(), h, "h", Ghost(none));
    assert(none + part(h as int, "h"@) =~= part(h as int, "h"@));
    let minutes = add_part(hours, m, "m", Ghost(part(h as int, "h"@)));
    add_part(minutes, s, "s", Ghost(part(h as int, "h"@) + part(m as int, "m"@)))
}

/// Read as a cadence: the seconds of what is counted so far, and the number
/// being spelled.
pub open spec fn cadence_read(said: Seq<char>) -> (int, int)
    decreases said.len(),
{
    if said.len() == 0 {
        (0, 0)
    } else {
        let (secs, n) = cadence_read(said.drop_last());
        let c = said.last();
        if text::is_digit(c) {
            (secs, n * 10 + (c as int - '0' as int))
        } else if c == 'h' {
            (secs + n * 3_600, 0)
        } else if c == 'm' {
            (secs + n * 60, 0)
        } else if c == 's' {
            (secs + n, 0)
        } else {
            (secs, n)
        }
    }
}

/// A cadence's text says it exactly: its hours, minutes and seconds add up to
/// it.
pub proof fn an_interval_says_its_seconds(secs: int)
    requires
        0 <= secs,
    ensures
        cadence_read(interval(secs)) == (secs, 0int),
{
    reveal_strlit("h");
    reveal_strlit("m");
    reveal_strlit("s");
    reveal_strlit("0s");
    reveal_strlit(" ");
    if secs == 0 {
        reveal_with_fuel(cadence_read, 3);
        assert("0s"@.drop_last() =~= seq!['0']);
        assert(seq!['0'].drop_last() =~= Seq::<char>::empty());
    } else {
        let (h, m, s) = (secs / 3_600, (secs / 60) % 60, secs % 60);
        let none = Seq::<Seq<char>>::empty();
        let hours = part(h, "h"@);
        assert(none + hours =~= hours);
        one_more_part_is_read(none, h, "h"@, 3_600);
        one_more_part_is_read(hours, m, "m"@, 60);
        one_more_part_is_read(hours + part(m, "m"@), s, "s"@, 1);
        assert(h * 3_600 + m * 60 + s == secs);
    }
}

proof fn one_more_part_is_read(parts: Seq<Seq<char>>, n: int, unit: Seq<char>, worth: int)
    requires
        0 <= n,
        unit.len() == 1,
        (unit[0] == 'h' && worth == 3_600) || (unit[0] == 'm' && worth == 60) || (unit[0] == 's'
            && worth == 1),
        cadence_read(spaced(parts)).1 == 0,
    ensures
        cadence_read(spaced(parts + part(n, unit))) == (
            cadence_read(spaced(parts)).0 + n * worth,
            0int,
        ),
{
    let all = parts + part(n, unit);
    if n == 0 {
        assert(all =~= parts);
    } else {
        reveal_strlit(" ");
        assert(all.drop_last() =~= parts);
        let before = if parts.len() == 0 {
            Seq::<char>::empty()
        } else {
            spaced(parts) + " "@
        };
        if parts.len() > 0 {
            assert(before.drop_last() =~= spaced(parts));
        }
        a_number_is_read(before, n as nat);
        let said = before + digits(n);
        assert(spaced(all) =~= said + unit);
        assert((said + unit).drop_last() =~= said);
    }
}

proof fn a_number_is_read(before: Seq<char>, n: nat)
    requires
        cadence_read(before).1 == 0,
    ensures
        cadence_read(before + text::decimal(n)) == (cadence_read(before).0, n as int),
    decreases n,
{
    let said = before + text::decimal(n);
    if n < 10 {
        assert(said.drop_last() =~= before);
    } else {
        a_number_is_read(before, n / 10);
        assert(said.drop_last() =~= before + text::decimal(n / 10));
    }
}

/// Two cadences never share a text, so what the user sees is what they chose.
pub proof fn cadences_have_their_own_texts(a: int, b: int)
    requires
        0 <= a,
        0 <= b,
        a != b,
    ensures
        interval(a) != interval(b),
{
    an_interval_says_its_seconds(a);
    an_interval_says_its_seconds(b);
}

/// The glyph for so many eighths of a cell.
pub const EIGHTHS: [char; 7] = ['▏', '▎', '▍', '▌', '▋', '▊', '▉'];

/// A bar of `width` cells, so many eighths of a cell of it filled.
pub open spec fn fine_bar(eighths: int, width: nat) -> Seq<char> {
    Seq::new(
        width,
        |i: int|
            if i < eighths / 8 {
                '█'
            } else if i == eighths / 8 && eighths % 8 > 0 {
                EIGHTHS@[eighths % 8 - 1]
            } else {
                '░'
            },
    )
}

/// Fixed-width bar: whole cells `█`, an eighth-block glyph for the partial
/// cell, the rest `░`.
///
/// Sub-cell resolution matters at dashboard widths, where one cell is several
/// percent of a quota: a whole-cell bar visibly quantizes, and a barely-used
/// window reads as completely empty rather than showing a sliver.
pub fn text_bar_fine(eighths: usize, width: usize) -> (r: String)
    ensures
        r@ == fine_bar(eighths as int, width as nat),
{
    let full: usize = if eighths / 8 < width {
        eighths / 8
    } else {
        width
    };
    let remainder: usize = eighths % 8;
    let glyphs = EIGHTHS;
    let mut bar = String::new();
    text::push_copies(&mut bar, '█', full);
    let mut drawn: usize = full;
    if full < width && remainder > 0 {
        bar.push(glyphs[remainder - 1]);
        drawn = drawn + 1;
    }
    text::push_copies(&mut bar, '░', width - drawn);
    assert(bar@ =~= fine_bar(eighths as int, width as nat));
    bar
}

/// A bar of `width` cells, so many of them filled.
pub open spec fn bar(filled: int, width: nat) -> Seq<char> {
    Seq::new(
        width,
        |i: int|
            if i < filled {
                '█'
            } else {
                '░'
            },
    )
}

/// Fixed-width text bar: `filled` cells of `█`, the rest `░`.
pub fn text_bar(filled: usize, width: usize) -> (r: String)
    ensures
        r@ == bar(filled as int, width as nat),
{
    let full: usize = if filled < width {
        filled
    } else {
        width
    };
    let mut drawn = String::new();
    text::push_copies(&mut drawn, '█', full);
    text::push_copies(&mut drawn, '░', width - full);
    assert(drawn@ =~= bar(filled as int, width as nat));
    drawn
}

/// A window's numbers as they are printed: whole, without a fraction.
#[derive(Debug, PartialEq, Eq)]
pub struct Printed {
    /// What is used.
    pub used: String,
    /// The limit, where there is one.
    pub limit: String,
}

/// What follows a count of a unit.
pub open spec fn unit_words(unit: QuotaUnit) -> Seq<char> {
    match unit {
        QuotaUnit::Percent => "%"@,
        QuotaUnit::Messages => " messages"@,
        QuotaUnit::Tokens => " tokens"@,
        QuotaUnit::Hours => " hours"@,
    }
}

/// Usage text for a window.
pub open spec fn usage_words(window: QuotaWindow, printed: Printed) -> Seq<char> {
    match (window.unit, window.limit) {
        (QuotaUnit::Percent, _) => printed.used@ + "% used"@,
        (unit, Some(_)) => printed.used@ + "/"@ + printed.limit@ + unit_words(unit),
        (unit, None) => printed.used@ + unit_words(unit) + " used"@,
    }
}

fn unit_text(unit: QuotaUnit) -> (r: &'static str)
    ensures
        r@ == unit_words(unit),
{
    match unit {
        QuotaUnit::Percent => "%",
        QuotaUnit::Messages => " messages",
        QuotaUnit::Tokens => " tokens",
        QuotaUnit::Hours => " hours",
    }
}

/// Usage text for a window, e.g. "42% used", "37/80 messages".
pub fn usage_text(window: &QuotaWindow, printed: &Printed) -> (r: String)
    ensures
        r@ == usage_words(*window, *printed),
{
    match (window.unit, window.limit) {
        (QuotaUnit::Percent, _) => printed.used.clone().concat("% used"),
        (unit, Some(_)) => printed.used.clone().concat("/").concat(printed.limit.as_str()).concat(
            unit_text(unit),
        ),
        (unit, None) => printed.used.clone().concat(unit_text(unit)).concat(" used"),
    }
}

/// Compact usage for a window.
pub open spec fn usage_brief(window: QuotaWindow, printed: Printed) -> Seq<char> {
    match (window.unit, window.limit) {
        (QuotaUnit::Percent, _) => printed.used@ + "%"@,
        (_, Some(_)) => printed.used@ + "/"@ + printed.limit@,
        (_, None) => printed.used@,
    }
}

/// Compact usage for a window, e.g. "62%" or "37/80".
pub fn usage_short(window: &QuotaWindow, printed: &Printed) -> (r: String)
    ensures
        r@ == usage_brief(*window, *printed),
{
    match (window.unit, window.limit) {
        (QuotaUnit::Percent, _) => printed.used.clone().concat("%"),
        (_, Some(_)) => printed.used.clone().concat("/").concat(printed.limit.as_str()),
        (_, None) => printed.used.clone(),
    }
}

/// How a poll was triggered, as a single glyph.
pub open spec fn glyph_of(trigger: PollTrigger) -> Seq<char> {
    match trigger {
        PollTrigger::Scheduled => "⏱"@,
        PollTrigger::Manual { .. } => "▶"@,
        PollTrigger::Startup => "⏻"@,
    }
}

/// How a poll was triggered, as a single glyph.
pub fn trigger_glyph(trigger: &PollTrigger) -> (r: &'static str)
    ensures
        r@ == glyph_of(*trigger),
{
    match trigger {
        PollTrigger::Scheduled => "⏱",
        PollTrigger::Manual { .. } => "▶",
        PollTrigger::Startup => "⏻",
    }
}

/// A poll's outcome in a word, or the words of its failure.
pub open spec fn outcome_words(outcome: PollOutcome) -> Seq<char> {
    match outcome.message() {
        Some(message) => message,
        None => "ok"@,
    }
}

/// One-word outcome for a poll event, plus whether it was a failure.
pub fn outcome_text(event: &PollEvent) -> (r: (String, bool))
    ensures
        r.0@ == outcome_words(event.outcome),
        r.1 == !(event.outcome is Success),
{
    match event.outcome.error_message() {
        Some(message) => (message.to_owned(), true),
        None => ("ok".to_owned(), false),
    }
}

/// The time of day an instant falls on, as `HH:MM:SS` in UTC.
pub open spec fn time_of_day(at: int) -> Seq<char> {
    let secs = (at / time::NANOS_PER_SEC as int) % 86_400;
    two_digits(secs / 3_600) + ":"@ + two_digits((secs / 60) % 60) + ":"@ + two_digits(secs % 60)
}

/// The time of day an instant falls on, as `HH:MM:SS` in UTC.
pub fn format_time_of_day(ts: Timestamp) -> (r: String)
    ensures
        r@ == time_of_day(ts.at()),
{
    let secs: i128 = num::floor_div(ts.nanos_since_epoch(), time::NANOS_PER_SEC);
    let days: i128 = num::floor_div(secs, 86_400);
    let rest: u64 = (secs - days * 86_400) as u64;
    two_digits_of(rest / 3_600).concat(":").concat(
        two_digits_of((rest / 60) % 60).as_str(),
    ).concat(":").concat(two_digits_of(rest % 60).as_str())
}

/// A countdown never runs backwards: with less time left, "due" stays "due".
pub proof fn due_stays_due(reset_at: int, earlier: int, later: int)
    requires
        earlier <= later,
        countdown(reset_at, earlier) == "due"@,
    ensures
        countdown(reset_at, later) == "due"@,
{
    reveal_strlit("due");
    if secs_of(reset_at - earlier) > 0 {
        humanized_ends_in_a_unit(secs_of(reset_at - earlier));
    }
}

/// A humanized duration ends in one of the four units.
pub proof fn humanized_ends_in_a_unit(secs: int)
    requires
        secs >= 0,
    ensures
        humanized(secs).len() > 0,
        humanized(secs).last() == 'h' || humanized(secs).last() == 'm' || humanized(secs).last()
            == 's',
{
    reveal_strlit("h");
    reveal_strlit("m");
    reveal_strlit("s");
}

/// Two digits spell their number, the tens first.
pub proof fn two_digits_spell_their_number(n: int)
    requires
        0 <= n < 100,
    ensures
        two_digits(n).len() == 2,
        '0' <= two_digits(n)[0] <= '9' && '0' <= two_digits(n)[1] <= '9',
        10 * (two_digits(n)[0] as int - 48) + (two_digits(n)[1] as int - 48) == n,
{
}

/// A length of time is told in its two greatest units, days and hours, hours and
/// minutes or minutes and seconds, with minutes and seconds behind a greater
/// unit in two digits; under a minute it is told in seconds.
pub proof fn a_length_is_told_in_two_units(greater: int, lesser: int, rest: int)
    requires
        greater >= 1,
    ensures
        0 <= lesser < 24 && 0 <= rest < 3_600 ==> humanized(
            86_400 * greater + 3_600 * lesser + rest,
        ) == text::decimal(greater as nat) + "d "@ + text::decimal(lesser as nat) + "h"@,
        greater < 24 && 0 <= lesser < 60 && 0 <= rest < 60 ==> humanized(
            3_600 * greater + 60 * lesser + rest,
        ) == text::decimal(greater as nat) + "h "@ + two_digits(lesser) + "m"@,
        greater < 60 && 0 <= lesser < 60 ==> humanized(60 * greater + lesser) == text::decimal(
            greater as nat,
        ) + "m "@ + two_digits(lesser) + "s"@,
        0 <= lesser < 60 ==> humanized(lesser) == text::decimal(lesser as nat) + "s"@,
{
    if 0 <= lesser < 24 && 0 <= rest < 3_600 {
        let secs = 86_400 * greater + 3_600 * lesser + rest;
        assert(secs / 86_400 == greater);
        assert(secs / 3_600 == 24 * greater + lesser);
        assert((24 * greater + lesser) % 24 == lesser);
    }
    if greater < 24 && 0 <= lesser < 60 && 0 <= rest < 60 {
        let secs = 3_600 * greater + 60 * lesser + rest;
        assert(secs / 3_600 == greater);
        assert(secs / 60 == 60 * greater + lesser);
        assert((60 * greater + lesser) % 60 == lesser);
    }
    if greater < 60 && 0 <= lesser < 60 {
        let secs = 60 * greater + lesser;
        assert(secs / 60 == greater && secs % 60 == lesser);
    }
}

/// A reset is due from a second before it on, and told by the whole seconds that
/// are left until then; a moment ago is just now up to a second, and told by the
/// whole seconds gone from then on.
pub proof fn instants_are_told_by_whole_seconds(at: int, now: int, secs: int)
    ensures
        at - now < 1_000_000_000 ==> countdown(at, now) == "due"@,
        secs >= 1 && secs * 1_000_000_000 <= at - now < (secs + 1) * 1_000_000_000 ==> countdown(
            at,
            now,
        ) == humanized(secs),
        now - at < 1_000_000_000 ==> elapsed(at, now) == "just now"@,
        secs >= 1 && secs * 1_000_000_000 <= now - at < (secs + 1) * 1_000_000_000 ==> elapsed(
            at,
            now,
        ) == humanized(secs) + " ago"@,
{
}

/// A cadence is told in hours, minutes and seconds, those that are nothing left
/// out, with a blank between them.
pub proof fn a_cadence_leaves_out_what_is_nothing(h: int, m: int, s: int)
    requires
        0 <= h,
        0 <= m < 60,
        0 <= s < 60,
    ensures
        ({
            let said = interval(3_600 * h + 60 * m + s);
            let (hours, minutes, seconds) = (
                text::decimal(h as nat) + "h"@,
                text::decimal(m as nat) + "m"@,
                text::decimal(s as nat) + "s"@,
            );
            &&& h > 0 && m > 0 && s > 0 ==> said == hours + " "@ + minutes + " "@ + seconds
            &&& h > 0 && m > 0 && s == 0 ==> said == hours + " "@ + minutes
            &&& h > 0 && m == 0 && s > 0 ==> said == hours + " "@ + seconds
            &&& h > 0 && m == 0 && s == 0 ==> said == hours
            &&& h == 0 && m > 0 && s > 0 ==> said == minutes + " "@ + seconds
            &&& h == 0 && m > 0 && s == 0 ==> said == minutes
            &&& h == 0 && m == 0 && s > 0 ==> said == seconds
            &&& h == 0 && m == 0 && s == 0 ==> said == "0s"@
        }),
{
    reveal_with_fuel(spaced, 4);
    let secs = 3_600 * h + 60 * m + s;
    assert(secs / 3_600 == h);
    assert(secs / 60 == 60 * h + m);
    assert((60 * h + m) % 60 == m);
    assert(secs % 60 == s);
    let parts = part(h, "h"@) + part(m, "m"@) + part(s, "s"@);
    if parts.len() > 0 {
        let front = parts.drop_last();
        if parts.len() == 2 {
            assert(front.len() == 1);
        }
        if parts.len() == 3 {
            assert(front.drop_last().len() == 1);
        }
    }
}

/// Each cell of a fine bar stands for eight eighths, from the left: it is full,
/// empty, or shows by its glyph how many of them there are.
pub proof fn a_fine_bar_counts_in_eighths(eighths: int, width: nat, i: int)
    requires
        0 <= i < width,
        0 <= eighths,
    ensures
        fine_bar(eighths, width).len() == width,
        eighths <= 8 * i ==> fine_bar(eighths, width)[i] == '░',
        eighths >= 8 * i + 8 ==> fine_bar(eighths, width)[i] == '█',
        8 * i < eighths < 8 * i + 8 ==> fine_bar(eighths, width)[i] as int == 0x2590 - (eighths - 8
            * i),
        '█' as int == 0x2588,
{
    if 8 * i < eighths < 8 * i + 8 {
        assert(eighths / 8 == i && eighths % 8 == eighths - 8 * i);
    }
}

/// A bar is full from the left, as many cells as it is told.
pub proof fn a_bar_fills_from_the_left(filled: int, width: nat, i: int)
    requires
        0 <= i < width,
    ensures
        bar(filled, width).len() == width,
        bar(filled, width)[i] == if i < filled {
            '█'
        } else {
            '░'
        },
{
}

/// A reading is told in its unit: a share as such, an amount against its limit if
/// it has one.
pub proof fn a_reading_is_told_in_its_unit(window: QuotaWindow, printed: Printed)
    ensures
        window.unit is Percent ==> usage_words(window, printed) == printed.used@ + "% used"@
            && usage_brief(window, printed) == printed.used@ + "%"@,
        window.unit !is Percent && window.limit is None ==> usage_brief(window, printed)
            == printed.used@,
        window.unit !is Percent && window.limit is Some ==> usage_brief(window, printed)
            == printed.used@ + "/"@ + printed.limit@,
        window.unit is Messages && window.limit is Some ==> usage_words(window, printed)
            == printed.used@ + "/"@ + printed.limit@ + " messages"@,
        window.unit is Tokens && window.limit is Some ==> usage_words(window, printed)
            == printed.used@ + "/"@ + printed.limit@ + " tokens"@,
        window.unit is Hours && window.limit is Some ==> usage_words(window, printed)
            == printed.used@ + "/"@ + printed.limit@ + " hours"@,
        window.unit is Messages && window.limit is None ==> usage_words(window, printed)
            == printed.used@ + " messages"@ + " used"@,
        window.unit is Tokens && window.limit is None ==> usage_words(window, printed)
            == printed.used@ + " tokens"@ + " used"@,
        window.unit is Hours && window.limit is None ==> usage_words(window, printed)
            == printed.used@ + " hours"@ + " used"@,
{
}

/// What started a poll has a sign of its own, and what came of it is said, or
/// that it went well.
pub proof fn polls_are_told_by_sign_and_words(trigger: PollTrigger, outcome: PollOutcome)
    ensures
        trigger is Scheduled ==> glyph_of(trigger) == "⏱"@,
        trigger is Manual ==> glyph_of(trigger) == "▶"@,
        trigger is Startup ==> glyph_of(trigger) == "⏻"@,
        outcome.message() is None ==> outcome_words(outcome) == "ok"@,
        outcome.message() matches Some(m) ==> outcome_words(outcome) == m,
{
}

/// The time of day is the hours, minutes and seconds since midnight, whatever the
/// day and whatever is left of the second.
pub proof fn the_time_of_day_is_since_midnight(day: int, h: int, m: int, s: int, nanos: int)
    requires
        0 <= h < 24,
        0 <= m < 60,
        0 <= s < 60,
        0 <= nanos < 1_000_000_000,
    ensures
        time_of_day((86_400 * day + 3_600 * h + 60 * m + s) * 1_000_000_000 + nanos) == two_digits(
            h,
        ) + ":"@ + two_digits(m) + ":"@ + two_digits(s),
{
    let n = 3_600 * h + 60 * m + s;
    let whole = 86_400 * day + n;
    let at = whole * 1_000_000_000 + nanos;
    assert(at / 1_000_000_000 == whole);
    assert(whole % 86_400 == n);
    assert(n / 3_600 == h);
    assert(n / 60 == 60 * h + m);
    assert((60 * h + m) % 60 == m);
    assert(n % 60 == s);
}

} // verus!
