//! Reading the OAuth usage endpoint's response.
//!
//! The exact response schema is an acknowledged open item, so parsing is
//! defensive: anything unreadable costs at most what it describes. A bucket or
//! row with no usable reading is dropped with a note; only a payload with *no*
//! recognized window left at all is reported as [`ParseError::SchemaDrift`].
//!
//! Two shapes carry windows. The fixed top-level buckets (`five_hour`,
//! `seven_day`, `seven_day_opus`, `seven_day_sonnet`) are the long-standing
//! ones. The `limits[]` array is newer and is the only place some per-model
//! weekly caps appear: the server emits a `weekly_scoped` row naming the model
//! instead of a dedicated top-level bucket. Rows of other kinds (`session`,
//! `weekly_all`) restate the fixed buckets and are skipped.
//!
//! A derived window's id comes from `scope.model.id` where the server sends
//! one, and from the display name's slug otherwise. The id is a durable
//! storage key rather than a caption.

use vstd::prelude::*;

use serde_json::value::RawValue;

use crate::amount::Amount;
use crate::claude::slug;
use crate::domain;
use crate::domain::{QuotaUnit, QuotaWindow, ResetKind, WindowData, WindowScope, HUNDRED};
use crate::error::ParseError;
use crate::ids::WindowId;
use crate::text;
use crate::time::{Duration, Timestamp};

verus! {

/// The response shape this parser assumes for `GET /api/oauth/usage`
/// (utilization is percent used, 0–100).
pub const ASSUMED_SCHEMA: &'static str = "five_hour/seven_day[/seven_day_opus/seven_day_sonnet] objects with utilization (percent used) and optional resets_at, plus limits[] rows of kind weekly_scoped with percent, resets_at and scope.model.display_name";

/// Seconds in the session window.
pub const FIVE_HOURS: u64 = 18_000;

/// Seconds in a weekly window.
pub const SEVEN_DAYS: u64 = 604_800;

/// One top-level bucket of the response.
#[derive(Debug, Clone, Copy, PartialEq, Eq)]
pub struct UsageBucket {
    /// Percent used.
    pub utilization: Option<Amount>,
    /// When the bucket resets.
    pub resets_at: Option<Timestamp>,
}

/// The model a `limits[]` row is about.
#[derive(Debug, PartialEq, Eq)]
pub struct LimitModel {
    /// The server's own identifier for the model, when it sends one.
    ///
    /// Preferred over `display_name` for the window id: an id derived from a
    /// label the provider may rewrite orphans a window's whole series the day
    /// it renames the model.
    pub id: Option<String>,
    /// The model's label.
    pub display_name: Option<String>,
}

/// What a `limits[]` row applies to.
#[derive(Debug, PartialEq, Eq)]
pub struct LimitScope {
    /// The model, if the row is about one.
    pub model: Option<LimitModel>,
}

/// One row of `limits[]`. Only `weekly_scoped` rows are mapped; the rest are
/// restatements of the fixed buckets.
#[derive(Debug, PartialEq, Eq)]
pub struct LimitEntry {
    /// What kind of limit this is.
    pub kind: Option<String>,
    /// Percent used.
    pub percent: Option<Amount>,
    /// When the limit resets, where that could be read.
    pub resets_at: Option<Timestamp>,
    /// What the limit applies to.
    pub scope: Option<LimitScope>,
}

/// One element of `limits[]`, read on its own so that a bad one costs only
/// itself.
#[derive(Debug, PartialEq, Eq)]
pub enum LimitRow {
    /// Not a row at all.
    Unreadable,
    /// A row.
    Entry(LimitEntry),
}

/// The `limits` field.
#[derive(Debug, PartialEq, Eq)]
pub enum Limits {
    /// Absent or `null`, the ordinary case for a plan with no per-model caps.
    Absent,
    /// Present but not an array: the provider changed the field's shape.
    NotAnArray,
    /// Its elements, in server order.
    Rows(Vec<LimitRow>),
}

/// What the `limits` field's text holds, its elements still undecoded.
#[derive(Debug, PartialEq, Eq)]
pub enum LimitRows {
    /// Nothing: the field is absent or `null`.
    Absent,
    /// Something other than an array.
    NotAnArray,
    /// The text of each element, in server order.
    Elements(Vec<String>),
}

/// A decoded usage response.
#[derive(Debug, PartialEq, Eq)]
pub struct UsageResponse {
    /// The session bucket.
    pub five_hour: Option<UsageBucket>,
    /// The weekly bucket.
    pub seven_day: Option<UsageBucket>,
    /// The weekly Opus bucket.
    pub seven_day_opus: Option<UsageBucket>,
    /// The weekly Sonnet bucket.
    pub seven_day_sonnet: Option<UsageBucket>,
    /// The per-model rows.
    pub limits: Limits,
}

/// The fixed buckets.
#[derive(Debug, Clone, Copy, PartialEq, Eq, Structural)]
pub enum Bucket {
    /// `five_hour`.
    FiveHour,
    /// `seven_day`.
    SevenDay,
    /// `seven_day_opus`.
    SevenDayOpus,
    /// `seven_day_sonnet`.
    SevenDaySonnet,
}

/// Something the response held that an operator should hear of. Rows are named
/// by their place in `limits[]`.
#[derive(Debug, Clone, Copy, PartialEq, Eq, Structural)]
pub enum Note {
    /// A fixed bucket came without a reading and was skipped.
    NoUtilization(Bucket),
    /// The `limits` field was not an array and was ignored.
    LimitsNotAnArray,
    /// A row could not be read and was skipped.
    UnreadableRow(usize),
    /// A per-model row named no model and was skipped.
    NoModel(usize),
    /// A per-model row's model name yields no id, so it was skipped.
    NoId(usize),
    /// A per-model row came without a reading and was skipped.
    NoPercent(usize),
    /// A fixed bucket's reading lies outside 0–100. It was kept.
    BucketOutOfRange(Bucket),
    /// A row's reading lies outside 0–100. It was kept.
    RowOutOfRange(usize),
}

// ---------------------------------------------------------------------------
// The elements of an array
// ---------------------------------------------------------------------------

/// The texts of a JSON array's elements, in their order, where `text` is a JSON
/// array.
pub uninterp spec fn json_elements(text: Seq<char>) -> Option<Seq<Seq<char>>>;

/// Whether texts are the ones a sequence lists.
pub open spec fn lists(texts: Seq<String>, said: Seq<Seq<char>>) -> bool {
    &&& texts.len() == said.len()
    &&& forall|i: int| 0 <= i < texts.len() ==> (#[trigger] texts[i])@ == said[i]
}

/// `serde_json::from_str` into a vector of `RawValue`s reads a JSON array and
/// keeps the text of each element, converting none of them. It fails on
/// everything that is not an array, and what it gives depends on the text
/// alone.
#[verifier::external_body]
fn elements_of(text: &str) -> (r: Option<Vec<String>>)
    ensures
        match (r, json_elements(text@)) {
            (Some(texts), Some(said)) => lists(texts@, said),
            (None, None) => true,
            _ => false,
        },
{
    let rows: Vec<&RawValue> = serde_json::from_str(text).ok()?;
    Some(rows.iter().map(|row| row.get().to_owned()).collect())
}

/// The rows of `limits[]`, still undecoded, so that one in an unexpected shape
/// costs only itself. `limits` is the field's text, without space around it.
///
/// Absent or `null` is the ordinary case for a plan with no per-model caps.
/// Present but not an array is the provider having changed the field's shape,
/// which is worth a note.
pub fn limit_rows(limits: Option<&str>) -> (r: LimitRows)
    ensures
        match limits {
            None => r == LimitRows::Absent,
            Some(text) => if text@ == "null"@ {
                r == LimitRows::Absent
            } else {
                match json_elements(text@) {
                    None => r == LimitRows::NotAnArray,
                    Some(said) => r matches LimitRows::Elements(texts) && lists(texts@, said),
                }
            },
        },
{
    let text = match limits {
        None => return LimitRows::Absent,
        Some(text) => text,
    };
    if text::same(text, "null") {
        return LimitRows::Absent;
    }
    match elements_of(text) {
        Some(texts) => LimitRows::Elements(texts),
        None => LimitRows::NotAnArray,
    }
}

// ---------------------------------------------------------------------------
// What a response means
// ---------------------------------------------------------------------------

/// Whether a reading is a percentage.
pub open spec fn is_percent(used: Amount) -> bool {
    (Amount { bits: 0 }).le(used) && used.le(Amount { bits: HUNDRED })
}

impl Bucket {
    /// The window's id.
    pub open spec fn id(self) -> Seq<char> {
        match self {
            Bucket::FiveHour => "session_5h"@,
            Bucket::SevenDay => "weekly"@,
            Bucket::SevenDayOpus => "weekly_opus"@,
            Bucket::SevenDaySonnet => "weekly_sonnet"@,
        }
    }

    /// The window's label.
    pub open spec fn label(self) -> Seq<char> {
        match self {
            Bucket::FiveHour => "Session — 5 hour"@,
            Bucket::SevenDay => "Weekly — all models"@,
            Bucket::SevenDayOpus => "Weekly — Opus"@,
            Bucket::SevenDaySonnet => "Weekly — Sonnet"@,
        }
    }

    /// The model the window applies to.
    pub open spec fn model(self) -> Option<Seq<char>> {
        match self {
            Bucket::FiveHour => None,
            Bucket::SevenDay => None,
            Bucket::SevenDayOpus => Some("opus"@),
            Bucket::SevenDaySonnet => Some("sonnet"@),
        }
    }

    /// The window's length in seconds.
    pub open spec fn secs(self) -> u64 {
        match self {
            Bucket::FiveHour => FIVE_HOURS,
            _ => SEVEN_DAYS,
        }
    }

    /// Where the response holds it.
    pub open spec fn of(self, usage: UsageResponse) -> Option<UsageBucket> {
        match self {
            Bucket::FiveHour => usage.five_hour,
            Bucket::SevenDay => usage.seven_day,
            Bucket::SevenDayOpus => usage.seven_day_opus,
            Bucket::SevenDaySonnet => usage.seven_day_sonnet,
        }
    }
}

/// The fixed buckets in display order: session first, then weekly.
pub open spec fn buckets() -> Seq<Bucket> {
    seq![Bucket::FiveHour, Bucket::SevenDay, Bucket::SevenDayOpus, Bucket::SevenDaySonnet]
}

/// The windows of the first `n` fixed buckets: those that came with a reading.
pub open spec fn fixed_windows(usage: UsageResponse, n: nat) -> Seq<WindowData>
    decreases n,
{
    if n == 0 {
        Seq::empty()
    } else {
        let rest = fixed_windows(usage, (n - 1) as nat);
        let bucket = buckets()[n - 1];
        match bucket.of(usage) {
            Some(b) => match b.utilization {
                Some(used) => rest.push(
                    WindowData {
                        id: bucket.id(),
                        label: bucket.label(),
                        model: bucket.model(),
                        reset_kind: ResetKind::Rolling(Duration { secs: bucket.secs(), nanos: 0 }),
                        unit: QuotaUnit::Percent,
                        used,
                        limit: Some(Amount { bits: HUNDRED }),
                        reset_at: b.resets_at,
                    },
                ),
                None => rest,
            },
            None => rest,
        }
    }
}

/// The notes on the first `n` fixed buckets.
pub open spec fn fixed_notes(usage: UsageResponse, n: nat) -> Seq<Note>
    decreases n,
{
    if n == 0 {
        Seq::empty()
    } else {
        let rest = fixed_notes(usage, (n - 1) as nat);
        let bucket = buckets()[n - 1];
        match bucket.of(usage) {
            Some(b) => match b.utilization {
                Some(used) => if is_percent(used) {
                    rest
                } else {
                    rest.push(Note::BucketOutOfRange(bucket))
                },
                None => rest.push(Note::NoUtilization(bucket)),
            },
            None => rest,
        }
    }
}

/// The model a row is about, if it is a per-model weekly row that names one.
pub open spec fn row_model(entry: LimitEntry) -> Option<LimitModel> {
    match entry.scope {
        Some(scope) => scope.model,
        None => None,
    }
}

/// Whether a row is of the per-model weekly kind.
pub open spec fn is_scoped(entry: LimitEntry) -> bool {
    entry.kind matches Some(kind) && kind@ == "weekly_scoped"@
}

/// A model's label.
pub open spec fn name_of(model: LimitModel) -> Seq<char> {
    match model.display_name {
        Some(name) => name@,
        None => Seq::empty(),
    }
}

/// A model's identifier: the slug of the server's own id when that yields one,
/// of its label otherwise.
pub open spec fn key_of(model: LimitModel) -> Seq<char> {
    let own = match model.id {
        Some(id) => slug::slug_of(id@),
        None => Seq::empty(),
    };
    if own.len() > 0 {
        own
    } else {
        slug::slug_of(name_of(model))
    }
}

/// Whether an already-mapped window is the same model cap as `key`: its model
/// is the whole of `key`, or stands in it as a run of whole words.
pub open spec fn covers(mapped: WindowData, key: Seq<char>) -> bool {
    match mapped.model {
        Some(model) => {
            &&& text::occurs_at(mapped.id, "weekly_"@, 0)
            &&& {
                ||| key == model
                ||| text::occurs_at(key, model + "_"@, 0)
                ||| text::occurs_at(key, "_"@ + model, key.len() - (model.len() + 1))
                ||| text::occurs(key, "_"@ + model + "_"@)
            }
        },
        None => false,
    }
}

/// Whether some window already maps the cap called `key`.
pub open spec fn is_mapped(windows: Seq<WindowData>, key: Seq<char>) -> bool {
    exists|i: int|
        0 <= i < windows.len() && ((#[trigger] windows[i]).id == "weekly_"@ + key || covers(
            windows[i],
            key,
        ))
}

/// The window a row adds to those already mapped, if it adds one.
pub open spec fn row_window(windows: Seq<WindowData>, row: LimitRow) -> Option<WindowData> {
    match row {
        LimitRow::Unreadable => None,
        LimitRow::Entry(entry) => match (is_scoped(entry), row_model(entry), entry.percent) {
            (true, Some(model), Some(used)) => {
                let key = key_of(model);
                let name = name_of(model);
                if key.len() == 0 || is_mapped(windows, key) {
                    None
                } else {
                    Some(
                        WindowData {
                            id: "weekly_"@ + key,
                            label: "Weekly — "@ + if name.len() == 0 {
                                key
                            } else {
                                name
                            },
                            model: Some(key),
                            reset_kind: ResetKind::Rolling(Duration { secs: SEVEN_DAYS, nanos: 0 }),
                            unit: QuotaUnit::Percent,
                            used,
                            limit: Some(Amount { bits: HUNDRED }),
                            reset_at: entry.resets_at,
                        },
                    )
                }
            },
            _ => None,
        },
    }
}

/// The note on a row, if there is one. Rows of other kinds, and rows for a cap
/// that is already mapped, are expected and get none.
pub open spec fn row_note(windows: Seq<WindowData>, row: LimitRow, at: usize) -> Option<Note> {
    match row {
        LimitRow::Unreadable => Some(Note::UnreadableRow(at)),
        LimitRow::Entry(entry) => if !is_scoped(entry) {
            None
        } else {
            match row_model(entry) {
                None => Some(Note::NoModel(at)),
                Some(model) => {
                    let key = key_of(model);
                    if key.len() == 0 {
                        Some(Note::NoId(at))
                    } else if is_mapped(windows, key) {
                        None
                    } else {
                        match entry.percent {
                            None => Some(Note::NoPercent(at)),
                            Some(used) => if is_percent(used) {
                                None
                            } else {
                                Some(Note::RowOutOfRange(at))
                            },
                        }
                    }
                },
            }
        },
    }
}

/// The windows mapped once the first `n` rows have been read after `fixed`.
pub open spec fn mapped_windows(fixed: Seq<WindowData>, rows: Seq<LimitRow>, n: nat) -> Seq<
    WindowData,
>
    decreases n,
{
    if n == 0 {
        fixed
    } else {
        let rest = mapped_windows(fixed, rows, (n - 1) as nat);
        match row_window(rest, rows[n - 1]) {
            Some(w) => rest.push(w),
            None => rest,
        }
    }
}

/// The notes on the first `n` rows.
pub open spec fn row_notes(fixed: Seq<WindowData>, rows: Seq<LimitRow>, n: nat) -> Seq<Note>
    decreases n,
{
    if n == 0 {
        Seq::empty()
    } else {
        let rest = row_notes(fixed, rows, (n - 1) as nat);
        match row_note(
            mapped_windows(fixed, rows, (n - 1) as nat),
            rows[n - 1],
            (n - 1) as usize,
        ) {
            Some(note) => rest.push(note),
            None => rest,
        }
    }
}

/// The rows of a response; none unless its `limits` is an array.
pub open spec fn rows_of(usage: UsageResponse) -> Seq<LimitRow> {
    match usage.limits {
        Limits::Rows(rows) => rows@,
        _ => Seq::empty(),
    }
}

/// Every window a response reports: the fixed buckets first, then what
/// `limits[]` adds, in server order.
pub open spec fn windows_of(usage: UsageResponse) -> Seq<WindowData> {
    mapped_windows(fixed_windows(usage, 4), rows_of(usage), rows_of(usage).len())
}

/// Every note on a response.
pub open spec fn notes_of(usage: UsageResponse) -> Seq<Note> {
    fixed_notes(usage, 4) + (if usage.limits is NotAnArray {
        seq![Note::LimitsNotAnArray]
    } else {
        Seq::empty()
    }) + row_notes(fixed_windows(usage, 4), rows_of(usage), rows_of(usage).len())
}

// ---------------------------------------------------------------------------
// Reading one
// ---------------------------------------------------------------------------

impl Bucket {
    fn all() -> (r: [Bucket; 4])
        ensures
            r@ == buckets(),
    {
        [Bucket::FiveHour, Bucket::SevenDay, Bucket::SevenDayOpus, Bucket::SevenDaySonnet]
    }

    /// The id of the window the bucket becomes.
    pub fn window_id(self) -> (r: &'static str)
        ensures
            r@ == self.id(),
    {
        match self {
            Bucket::FiveHour => "session_5h",
            Bucket::SevenDay => "weekly",
            Bucket::SevenDayOpus => "weekly_opus",
            Bucket::SevenDaySonnet => "weekly_sonnet",
        }
    }

    fn window_label(self) -> (r: &'static str)
        ensures
            r@ == self.label(),
    {
        match self {
            Bucket::FiveHour => "Session — 5 hour",
            Bucket::SevenDay => "Weekly — all models",
            Bucket::SevenDayOpus => "Weekly — Opus",
            Bucket::SevenDaySonnet => "Weekly — Sonnet",
        }
    }

    fn scope(self) -> (r: WindowScope)
        ensures
            match (r, self.model()) {
                (WindowScope::AccountWide, None) => true,
                (WindowScope::Model(m), Some(model)) => m@ == model,
                _ => false,
            },
    {
        match self {
            Bucket::FiveHour => WindowScope::AccountWide,
            Bucket::SevenDay => WindowScope::AccountWide,
            Bucket::SevenDayOpus => WindowScope::Model("opus".to_owned()),
            Bucket::SevenDaySonnet => WindowScope::Model("sonnet".to_owned()),
        }
    }

    fn length(self) -> (r: Duration)
        ensures
            r == (Duration { secs: self.secs(), nanos: 0 }),
    {
        match self {
            Bucket::FiveHour => Duration { secs: FIVE_HOURS, nanos: 0 },
            _ => Duration { secs: SEVEN_DAYS, nanos: 0 },
        }
    }

    fn reading(self, usage: &UsageResponse) -> (r: Option<UsageBucket>)
        ensures
            r == self.of(*usage),
    {
        match self {
            Bucket::FiveHour => usage.five_hour,
            Bucket::SevenDay => usage.seven_day,
            Bucket::SevenDayOpus => usage.seven_day_opus,
            Bucket::SevenDaySonnet => usage.seven_day_sonnet,
        }
    }
}

/// Display order for the windows: session first, then weekly buckets.
/// Only the fixed buckets have a fixed place; [`parse`] emits the windows it
/// derives from `limits[]` after them, in server order.
pub fn group_order() -> (r: Vec<WindowId>)
    ensures
        r@.len() == 4,
        forall|i: int| 0 <= i < 4 ==> (#[trigger] r@[i])@ == buckets()[i].id(),
{
    let all = Bucket::all();
    let mut out: Vec<WindowId> = Vec::new();
    let mut i: usize = 0;
    while i < 4
        invariant
            i <= 4,
            all@ == buckets(),
            out@.len() == i,
            forall|k: int| 0 <= k < i ==> (#[trigger] out@[k])@ == buckets()[k].id(),
        decreases 4 - i,
    {
        out.push(WindowId::new(all[i].window_id()));
        i += 1;
    }
    out
}

/// Whether a reading is a percentage. One that is not is kept, because it is
/// the provider's number and may be a genuine overage, but noted, because it
/// is equally a sign the field stopped meaning percent.
fn checked_percent(used: Amount) -> (r: bool)
    ensures
        r == is_percent(used),
{
    (Amount { bits: 0 }).at_most(used) && used.at_most(Amount { bits: HUNDRED })
}

/// Whether an already-mapped window is the same model cap as `key`.
///
/// The fixed buckets are `weekly_opus` and `weekly_sonnet`, and the server
/// names those same caps in `limits[]` with whatever label it currently uses —
/// "Opus", "Opus 4.5". Matching on the fixed bucket's model name
/// appearing in the candidate slug catches the family without needing to know
/// the naming scheme.
fn covers_same_model(mapped: &QuotaWindow, key: &str) -> (r: bool)
    ensures
        r == covers(mapped@, key@),
{
    match &mapped.scope {
        WindowScope::AccountWide => false,
        WindowScope::Model(model) => {
            let before = model.clone().concat("_");
            let after = "_".to_owned().concat(model.as_str());
            let within = after.clone().concat("_");
            assert(after@.len() == model@.len() + 1) by {
                reveal_strlit("_");
            }
            text::starts_with(mapped.id.as_str(), "weekly_") && (text::same(key, model.as_str())
                || text::starts_with(key, before.as_str()) || text::ends_with(
                key,
                after.as_str(),
            ) || text::contains(key, within.as_str()))
        },
    }
}

fn already_mapped(windows: &Vec<QuotaWindow>, key: &str) -> (r: bool)
    ensures
        r == is_mapped(domain::said(windows@), key@),
{
    let id = "weekly_".to_owned().concat(key);
    let mut i: usize = 0;
    while i < windows.len()
        invariant
            i <= windows@.len(),
            id@ == "weekly_"@ + key@,
            forall|k: int|
                0 <= k < i ==> (#[trigger] domain::said(windows@)[k]).id != id@ && !covers(
                    domain::said(windows@)[k],
                    key@,
                ),
        decreases windows@.len() - i,
    {
        assert(domain::said(windows@)[i as int] == windows@[i as int]@);
        if text::same(windows[i].id.as_str(), id.as_str()) || covers_same_model(
            &windows[i],
            key,
        ) {
            return true;
        }
        i += 1;
    }
    false
}

fn model_key(model: &LimitModel) -> (r: String)
    ensures
        r@ == key_of(*model),
{
    if let Some(id) = &model.id {
        let own = slug::model_slug(id.as_str());
        if !own.as_str().is_empty() {
            return own;
        }
    }
    match &model.display_name {
        Some(name) => slug::model_slug(name.as_str()),
        None => {
            proof {
                reveal_strlit("");
                assert(""@ =~= Seq::empty());
            }
            slug::model_slug("")
        },
    }
}

fn read_buckets(usage: &UsageResponse) -> (r: (Vec<QuotaWindow>, Vec<Note>))
    ensures
        domain::said(r.0@) == fixed_windows(*usage, 4),
        r.1@ == fixed_notes(*usage, 4),
{
    let all = Bucket::all();
    let mut windows: Vec<QuotaWindow> = Vec::new();
    let mut notes: Vec<Note> = Vec::new();
    let mut i: usize = 0;
    assert(domain::said(windows@) =~= fixed_windows(*usage, 0));
    while i < 4
        invariant
            i <= 4,
            all@ == buckets(),
            domain::said(windows@) == fixed_windows(*usage, i as nat),
            notes@ == fixed_notes(*usage, i as nat),
        decreases 4 - i,
    {
        let bucket = all[i];
        let ghost before = windows@;
        if let Some(b) = bucket.reading(usage) {
            match b.utilization {
                None => notes.push(Note::NoUtilization(bucket)),
                Some(used) => {
                    if !checked_percent(used) {
                        notes.push(Note::BucketOutOfRange(bucket));
                    }
                    windows.push(
                        QuotaWindow {
                            id: WindowId::new(bucket.window_id()),
                            label: bucket.window_label().to_owned(),
                            scope: bucket.scope(),
                            reset_kind: ResetKind::Rolling(bucket.length()),
                            unit: QuotaUnit::Percent,
                            used,
                            limit: Some(Amount { bits: HUNDRED }),
                            reset_at: b.resets_at,
                        },
                    );
                    assert(domain::said(windows@) =~= domain::said(before).push(
                        windows@.last()@,
                    ));
                },
            }
        }
        i += 1;
        assert(domain::said(windows@) =~= fixed_windows(*usage, i as nat));
    }
    (windows, notes)
}

/// Add one row's window to those already mapped, and the note on it.
fn read_row(windows: &mut Vec<QuotaWindow>, row: &LimitRow, at: usize) -> (r: Option<Note>)
    ensures
        domain::said(final(windows)@) == match row_window(domain::said(old(windows)@), *row) {
            Some(w) => domain::said(old(windows)@).push(w),
            None => domain::said(old(windows)@),
        },
        r == row_note(domain::said(old(windows)@), *row, at),
{
    let entry = match row {
        LimitRow::Unreadable => {
            // Dropping the row loses at most that one window for this poll;
            // failing the poll would lose the fixed buckets too.
            return Some(Note::UnreadableRow(at));
        },
        LimitRow::Entry(entry) => entry,
    };
    // Rows of other kinds restate the fixed buckets: they are expected, and
    // every payload carries them.
    let scoped = match &entry.kind {
        Some(kind) => text::same(kind.as_str(), "weekly_scoped"),
        None => false,
    };
    if !scoped {
        return None;
    }
    let model = match &entry.scope {
        Some(scope) => match &scope.model {
            Some(model) => model,
            None => {
                return Some(Note::NoModel(at));
            },
        },
        None => {
            return Some(Note::NoModel(at));
        },
    };
    let key = model_key(model);
    if key.as_str().is_empty() {
        return Some(Note::NoId(at));
    }
    // A fixed bucket for the same model (e.g. `seven_day_opus`) wins: the id
    // keys stored history, so one cap must not appear twice.
    if already_mapped(windows, key.as_str()) {
        return None;
    }
    let used = match entry.percent {
        Some(used) => used,
        None => {
            return Some(Note::NoPercent(at));
        },
    };
    let label = match &model.display_name {
        Some(name) => if name.as_str().is_empty() {
            "Weekly — ".to_owned().concat(key.as_str())
        } else {
            "Weekly — ".to_owned().concat(name.as_str())
        },
        None => "Weekly — ".to_owned().concat(key.as_str()),
    };
    let ghost before = windows@;
    windows.push(
        QuotaWindow {
            id: WindowId("weekly_".to_owned().concat(key.as_str())),
            label,
            scope: WindowScope::Model(key),
            reset_kind: ResetKind::Rolling(Duration { secs: SEVEN_DAYS, nanos: 0 }),
            unit: QuotaUnit::Percent,
            used,
            limit: Some(Amount { bits: HUNDRED }),
            reset_at: entry.resets_at,
        },
    );
    assert(domain::said(windows@) =~= domain::said(before).push(windows@.last()@));
    if checked_percent(used) {
        None
    } else {
        Some(Note::RowOutOfRange(at))
    }
}

/// What a usage response came to: its windows or why there are none, and what
/// an operator should hear of it.
#[derive(Debug, PartialEq, Eq)]
pub struct Parsed {
    /// The windows, or why the poll has none.
    pub outcome: Result<Vec<QuotaWindow>, ParseError>,
    /// What was skipped or looked wrong.
    pub notes: Vec<Note>,
}

/// Parse one usage response into quota windows. `body` is the decoded payload,
/// or what the decoder said of one that is not the expected JSON.
pub fn parse(status: u16, body: &Result<UsageResponse, String>) -> (r: Parsed)
    ensures
        if status != 200 {
            &&& r.outcome matches Err(ParseError::SchemaDrift(m)) && m@
                == "expected HTTP 200 from usage endpoint, got "@ + text::decimal(status as nat)
            &&& r.notes@.len() == 0
        } else {
            match *body {
                Err(e) => {
                    &&& r.outcome matches Err(ParseError::SchemaDrift(m)) && m@
                        == "usage payload is not the expected JSON: "@ + e@
                    &&& r.notes@.len() == 0
                },
                Ok(usage) => {
                    &&& r.notes@ == notes_of(usage)
                    &&& if windows_of(usage).len() == 0 {
                        r.outcome matches Err(ParseError::SchemaDrift(m)) && m@
                            == "no recognized usage windows in payload; assumed schema: "@
                            + ASSUMED_SCHEMA@
                    } else {
                        r.outcome matches Ok(windows) && domain::said(windows@) == windows_of(
                            usage,
                        )
                    }
                },
            }
        },
{
    if status != 200 {
        let m = "expected HTTP 200 from usage endpoint, got ".to_owned().concat(
            text::decimal_of(status as u64).as_str(),
        );
        return Parsed { outcome: Err(ParseError::SchemaDrift(m)), notes: Vec::new() };
    }
    let usage = match body {
        Err(e) => {
            let m = "usage payload is not the expected JSON: ".to_owned().concat(e.as_str());
            return Parsed { outcome: Err(ParseError::SchemaDrift(m)), notes: Vec::new() };
        },
        Ok(usage) => usage,
    };
    let (mut windows, mut notes) = read_buckets(usage);
    let ghost fixed = fixed_windows(*usage, 4);
    match &usage.limits {
        Limits::Absent => {},
        Limits::NotAnArray => notes.push(Note::LimitsNotAnArray),
        Limits::Rows(rows) => {
            let mut i: usize = 0;
            let ghost first = notes@;
            assert(notes@ =~= first + row_notes(fixed, rows@, 0));
            while i < rows.len()
                invariant
                    i <= rows@.len(),
                    fixed == fixed_windows(*usage, 4),
                    domain::said(windows@) == mapped_windows(fixed, rows@, i as nat),
                    notes@ == first + row_notes(fixed, rows@, i as nat),
                decreases rows@.len() - i,
            {
                let note = read_row(&mut windows, &rows[i], i);
                let ghost before = row_notes(fixed, rows@, i as nat);
                i += 1;
                if let Some(n) = note {
                    notes.push(n);
                    assert(notes@ =~= first + before.push(n));
                }
            }
        },
    }
    assert(notes@ =~= notes_of(*usage));
    assert(domain::said(windows@).len() == windows@.len());
    if windows.len() == 0 {
        let m = "no recognized usage windows in payload; assumed schema: ".to_owned().concat(
            ASSUMED_SCHEMA,
        );
        return Parsed { outcome: Err(ParseError::SchemaDrift(m)), notes };
    }
    Parsed { outcome: Ok(windows), notes }
}

// ---------------------------------------------------------------------------
// What holds of every response
// ---------------------------------------------------------------------------

/// The windows mapped begin with those of the fixed buckets.
pub proof fn fixed_buckets_come_first(fixed: Seq<WindowData>, rows: Seq<LimitRow>, n: nat)
    ensures
        fixed.len() <= mapped_windows(fixed, rows, n).len(),
        mapped_windows(fixed, rows, n).take(fixed.len() as int) == fixed,
    decreases n,
{
    if n > 0 {
        fixed_buckets_come_first(fixed, rows, (n - 1) as nat);
        let rest = mapped_windows(fixed, rows, (n - 1) as nat);
        assert(mapped_windows(fixed, rows, n).take(fixed.len() as int) =~= rest.take(
            fixed.len() as int,
        ));
    } else {
        assert(fixed.take(fixed.len() as int) =~= fixed);
    }
}

/// Whether no two windows share an id.
pub open spec fn ids_are_distinct(windows: Seq<WindowData>) -> bool {
    forall|i: int, j: int|
        0 <= i < j < windows.len() ==> (#[trigger] windows[i]).id != (#[trigger] windows[j]).id
}

proof fn bucket_ids_are_distinct(a: Bucket, b: Bucket)
    requires
        a.id() == b.id(),
    ensures
        a == b,
{
    reveal_strlit("session_5h");
    reveal_strlit("weekly");
    reveal_strlit("weekly_opus");
    reveal_strlit("weekly_sonnet");
    assert("session_5h"@.len() == 10 && "weekly"@.len() == 6);
    assert("weekly_opus"@.len() == 11 && "weekly_sonnet"@.len() == 13);
}

proof fn fixed_ids_are_distinct(usage: UsageResponse, n: nat)
    requires
        n <= 4,
    ensures
        ids_are_distinct(fixed_windows(usage, n)),
        forall|i: int|
            0 <= i < fixed_windows(usage, n).len() ==> exists|k: int|
                0 <= k < n && (#[trigger] fixed_windows(usage, n)[i]).id == (
                #[trigger] buckets()[k]).id(),
    decreases n,
{
    if n > 0 {
        fixed_ids_are_distinct(usage, (n - 1) as nat);
        let rest = fixed_windows(usage, (n - 1) as nat);
        let all = fixed_windows(usage, n);
        let last = buckets()[n - 1];
        assert forall|i: int| 0 <= i < rest.len() implies (#[trigger] rest[i]).id
            != last.id() by {
            let k = choose|k: int|
                0 <= k < n - 1 && rest[i].id == (#[trigger] buckets()[k]).id();
            if rest[i].id == last.id() {
                bucket_ids_are_distinct(buckets()[k], last);
            }
        }
        assert forall|i: int| 0 <= i < all.len() implies exists|k: int|
            0 <= k < n && (#[trigger] all[i]).id == (#[trigger] buckets()[k]).id() by {
            if i < rest.len() {
                let k = choose|k: int|
                    0 <= k < n - 1 && rest[i].id == (#[trigger] buckets()[k]).id();
                assert(all[i].id == buckets()[k].id());
            } else {
                assert(all[i].id == buckets()[n - 1].id());
            }
        }
        assert forall|i: int, j: int| 0 <= i < j < all.len() implies (#[trigger] all[i]).id != (
        #[trigger] all[j]).id by {
            assert(all[i] == rest[i]);
        }
    }
}

proof fn mapped_ids_are_distinct(fixed: Seq<WindowData>, rows: Seq<LimitRow>, n: nat)
    requires
        ids_are_distinct(fixed),
    ensures
        ids_are_distinct(mapped_windows(fixed, rows, n)),
    decreases n,
{
    if n > 0 {
        mapped_ids_are_distinct(fixed, rows, (n - 1) as nat);
    }
}

/// No response lists one id twice, whatever its rows are called.
pub proof fn no_id_appears_twice(usage: UsageResponse)
    ensures
        ids_are_distinct(windows_of(usage)),
{
    fixed_ids_are_distinct(usage, 4);
    mapped_ids_are_distinct(fixed_windows(usage, 4), rows_of(usage), rows_of(usage).len());
}

/// A row that can be neither read nor used costs only itself: the windows are
/// those of the response without it.
pub proof fn a_bad_row_costs_only_itself(
    fixed: Seq<WindowData>,
    rows: Seq<LimitRow>,
    k: int,
    n: nat,
)
    requires
        0 <= k < n <= rows.len(),
        forall|windows: Seq<WindowData>| #[trigger] row_window(windows, rows[k]) is None,
    ensures
        mapped_windows(fixed, rows, n) == mapped_windows(fixed, rows.remove(k), (n - 1) as nat),
    decreases n,
{
    if n - 1 > k {
        a_bad_row_costs_only_itself(fixed, rows, k, (n - 1) as nat);
        assert(rows.remove(k)[n - 2] == rows[n - 1]);
    } else {
        untouched_rows_agree(fixed, rows, rows.remove(k), k as nat);
        assert(row_window(mapped_windows(fixed, rows, (n - 1) as nat), rows[k]) is None);
    }
}

proof fn untouched_rows_agree(
    fixed: Seq<WindowData>,
    a: Seq<LimitRow>,
    b: Seq<LimitRow>,
    n: nat,
)
    requires
        n <= a.len(),
        n <= b.len(),
        forall|i: int| 0 <= i < n ==> a[i] == b[i],
    ensures
        mapped_windows(fixed, a, n) == mapped_windows(fixed, b, n),
    decreases n,
{
    if n > 0 {
        untouched_rows_agree(fixed, a, b, (n - 1) as nat);
    }
}

/// Whether two windows differ in nothing but their labels.
pub open spec fn same_but_label(a: WindowData, b: WindowData) -> bool {
    a == WindowData { label: a.label, ..b }
}

/// Whether two rows are alike but for the name of the model they are about,
/// which has an id that yields a slug.
pub open spec fn renamed(a: LimitRow, b: LimitRow) -> bool {
    match (a, b) {
        (LimitRow::Entry(x), LimitRow::Entry(y)) => match (row_model(x), row_model(y)) {
            (Some(m), Some(n)) => {
                &&& m.id matches Some(id) && slug::slug_of(id@).len() > 0 && (
                n.id matches Some(same) && same@ == id@)
                &&& is_scoped(x) == is_scoped(y)
                &&& x.percent == y.percent
                &&& x.resets_at == y.resets_at
            },
            _ => false,
        },
        _ => false,
    }
}

/// Renaming a model never changes its storage key: where the server sends an id
/// that yields one, a response that differs in the model's name alone has the
/// same windows, in the same order, and only a label may differ.
pub proof fn a_renamed_model_keeps_its_key(a: UsageResponse, b: UsageResponse, k: int)
    requires
        fixed_windows(a, 4) == fixed_windows(b, 4),
        rows_of(a).len() == rows_of(b).len(),
        0 <= k < rows_of(a).len(),
        renamed(rows_of(a)[k], rows_of(b)[k]),
        forall|i: int|
            0 <= i < rows_of(a).len() && i != k ==> #[trigger] rows_of(a)[i] == rows_of(b)[i],
    ensures
        windows_of(a).len() == windows_of(b).len(),
        forall|i: int|
            0 <= i < windows_of(a).len() ==> same_but_label(
                #[trigger] windows_of(a)[i],
                windows_of(b)[i],
            ),
{
    renaming_keeps_keys(
        fixed_windows(a, 4),
        rows_of(a),
        rows_of(b),
        k,
        rows_of(a).len(),
    );
}

proof fn renaming_keeps_keys(
    fixed: Seq<WindowData>,
    a: Seq<LimitRow>,
    b: Seq<LimitRow>,
    k: int,
    n: nat,
)
    requires
        n <= a.len() == b.len(),
        0 <= k < a.len(),
        renamed(a[k], b[k]),
        forall|i: int| 0 <= i < a.len() && i != k ==> #[trigger] a[i] == b[i],
    ensures
        mapped_windows(fixed, a, n).len() == mapped_windows(fixed, b, n).len(),
        forall|i: int|
            0 <= i < mapped_windows(fixed, a, n).len() ==> same_but_label(
                #[trigger] mapped_windows(fixed, a, n)[i],
                mapped_windows(fixed, b, n)[i],
            ),
    decreases n,
{
    if n > 0 {
        renaming_keeps_keys(fixed, a, b, k, (n - 1) as nat);
        let x = mapped_windows(fixed, a, (n - 1) as nat);
        let y = mapped_windows(fixed, b, (n - 1) as nat);
        assert forall|key: Seq<char>| #[trigger] is_mapped(x, key) == is_mapped(y, key) by {
            if is_mapped(x, key) {
                let i = choose|i: int|
                    0 <= i < x.len() && ((#[trigger] x[i]).id == "weekly_"@ + key || covers(
                        x[i],
                        key,
                    ));
                assert(same_but_label(x[i], y[i]));
                assert(y[i].id == "weekly_"@ + key || covers(y[i], key));
            }
            if is_mapped(y, key) {
                let i = choose|i: int|
                    0 <= i < y.len() && ((#[trigger] y[i]).id == "weekly_"@ + key || covers(
                        y[i],
                        key,
                    ));
                assert(same_but_label(x[i], y[i]));
                assert(x[i].id == "weekly_"@ + key || covers(x[i], key));
            }
        }
        if n - 1 != k {
            assert(a[n - 1] == b[n - 1]);
        }
    }
}

/// Once a cap is mapped, no later row maps it again.
pub proof fn a_mapped_cap_stays_mapped_once(
    windows: Seq<WindowData>,
    row: LimitRow,
    key: Seq<char>,
)
    requires
        is_mapped(windows, key),
        row matches LimitRow::Entry(entry) && (row_model(entry) matches Some(model) && key_of(model)
            == key),
    ensures
        row_window(windows, row) is None,
{
}

/// A fixed bucket with a reading is always listed: nothing else in the payload
/// can cost it.
pub proof fn a_read_bucket_is_never_lost(usage: UsageResponse, k: int)
    requires
        0 <= k < 4,
        buckets()[k].of(usage) matches Some(b) && b.utilization is Some,
    ensures
        exists|i: int|
            0 <= i < windows_of(usage).len() && (#[trigger] windows_of(usage)[i]).id
                == buckets()[k].id(),
{
    fixed_lists(usage, k, 4);
    let fixed = fixed_windows(usage, 4);
    let i = choose|i: int| 0 <= i < fixed.len() && (#[trigger] fixed[i]).id == buckets()[k].id();
    fixed_buckets_come_first(fixed, rows_of(usage), rows_of(usage).len());
    assert(windows_of(usage).take(fixed.len() as int)[i] == windows_of(usage)[i]);
}

proof fn fixed_lists(usage: UsageResponse, k: int, n: nat)
    requires
        0 <= k < n <= 4,
        buckets()[k].of(usage) matches Some(b) && b.utilization is Some,
    ensures
        exists|i: int|
            0 <= i < fixed_windows(usage, n).len() && (#[trigger] fixed_windows(usage, n)[i]).id
                == buckets()[k].id(),
    decreases n,
{
    let all = fixed_windows(usage, n);
    if k < n - 1 {
        fixed_lists(usage, k, (n - 1) as nat);
        let rest = fixed_windows(usage, (n - 1) as nat);
        let i = choose|i: int|
            0 <= i < rest.len() && (#[trigger] rest[i]).id == buckets()[k].id();
        assert(all[i] == rest[i]);
    } else {
        assert(all.last().id == buckets()[k].id());
        assert(all[all.len() - 1].id == buckets()[k].id());
    }
}

} // verus!
