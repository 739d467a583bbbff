//! What holds of every usage response, in the response's own terms.

use vstd::prelude::*;

use crate::amount::Amount;
use crate::claude::parser::{
    buckets, covers, fixed_notes, fixed_windows, is_mapped, is_percent, key_of, mapped_windows,
    notes_of, row_note, row_notes, row_window, windows_of, Bucket, LimitModel, LimitRow, Limits,
    Note, UsageBucket, UsageResponse,
};
use crate::claude::slug;
use crate::domain::{QuotaUnit, ResetKind, WindowData};
use crate::text;
use crate::time::{Duration, Timestamp};

verus! {

/// A weekly cap on one model, as it is listed.
pub open spec fn weekly_cap(
    key: Seq<char>,
    name: Seq<char>,
    used: Amount,
    resets_at: Option<Timestamp>,
) -> WindowData {
    WindowData {
        id: "weekly_"@ + key,
        label: "Weekly — "@ + if name.len() == 0 {
            key
        } else {
            name
        },
        model: Some(key),
        reset_kind: ResetKind::Rolling(Duration { secs: 604_800, nanos: 0 }),
        unit: QuotaUnit::Percent,
        used,
        limit: Some(Amount { bits: 0x4059_0000_0000_0000 }),
        reset_at: resets_at,
    }
}

/// A model is known by the slug of the id the server sends for it; by the slug
/// of its name where there is no id, or none that yields a slug.
pub proof fn a_model_is_known_by_its_id(model: LimitModel)
    ensures
        model.id matches Some(id) && slug::slug_of(id@).len() > 0 ==> key_of(model) == slug::slug_of(
            (model.id->0)@,
        ),
        !(model.id matches Some(id) && slug::slug_of(id@).len() > 0) ==> (
        model.display_name matches Some(name) ==> key_of(model) == slug::slug_of(name@)),
        !(model.id matches Some(id) && slug::slug_of(id@).len() > 0) && model.display_name is None
            ==> key_of(model).len() == 0,
{
    slug::a_slug_grows_with_its_name(Seq::empty(), ' ');
}

/// Every row of the per-model weekly kind that names a model and carries a
/// reading, whatever it is, is listed, unless the cap is listed already: it adds
/// one window, with the model's id, that reading and the row's reset instant.
/// A cap is listed already if a window has its id, or is a weekly one that
/// covers the model.
pub proof fn every_cap_with_a_reading_is_listed(
    fixed: Seq<WindowData>,
    rows: Seq<LimitRow>,
    n: nat,
    model: LimitModel,
    used: Amount,
)
    requires
        n < rows.len(),
        rows[n as int] matches LimitRow::Entry(entry) && {
            &&& entry.kind matches Some(kind) && kind@ == "weekly_scoped"@
            &&& entry.scope matches Some(scope) && scope.model == Some(model)
            &&& entry.percent == Some(used)
        },
        key_of(model).len() > 0,
    ensures
        ({
            let before = mapped_windows(fixed, rows, n);
            let after = mapped_windows(fixed, rows, n + 1);
            let key = key_of(model);
            let listed = exists|i: int|
                0 <= i < before.len() && ((#[trigger] before[i]).id == "weekly_"@ + key || covers(
                    before[i],
                    key,
                ));
            let name = match model.display_name {
                Some(name) => name@,
                None => Seq::empty(),
            };
            let resets_at = (rows[n as int]->Entry_0).resets_at;
            &&& listed ==> after == before
            &&& !listed ==> after == before.push(weekly_cap(key, name, used, resets_at))
        }),
{
    let before = mapped_windows(fixed, rows, n);
    let key = key_of(model);
    let rest = mapped_windows(fixed, rows, n);
    assert(is_mapped(rest, key) <==> exists|i: int|
        0 <= i < before.len() && ((#[trigger] before[i]).id == "weekly_"@ + key || covers(
            before[i],
            key,
        )));
}

/// After a row of that kind has been read, some window stands for its cap,
/// however many rows follow.
pub proof fn a_cap_with_a_reading_stays_listed(
    fixed: Seq<WindowData>,
    rows: Seq<LimitRow>,
    n: nat,
    m: nat,
    model: LimitModel,
    used: Amount,
)
    requires
        n < m <= rows.len(),
        rows[n as int] matches LimitRow::Entry(entry) && {
            &&& entry.kind matches Some(kind) && kind@ == "weekly_scoped"@
            &&& entry.scope matches Some(scope) && scope.model == Some(model)
            &&& entry.percent == Some(used)
        },
        key_of(model).len() > 0,
    ensures
        exists|i: int|
            0 <= i < mapped_windows(fixed, rows, m).len() && ((#[trigger] mapped_windows(
                fixed,
                rows,
                m,
            )[i]).id == "weekly_"@ + key_of(model) || covers(
                mapped_windows(fixed, rows, m)[i],
                key_of(model),
            )),
    decreases m,
{
    let key = key_of(model);
    let after = mapped_windows(fixed, rows, m);
    if m == n + 1 {
        every_cap_with_a_reading_is_listed(fixed, rows, n, model, used);
        let before = mapped_windows(fixed, rows, n);
        if exists|i: int|
            0 <= i < before.len() && ((#[trigger] before[i]).id == "weekly_"@ + key || covers(
                before[i],
                key,
            )) {
            let i = choose|i: int|
                0 <= i < before.len() && ((#[trigger] before[i]).id == "weekly_"@ + key || covers(
                    before[i],
                    key,
                ));
            assert(after[i] == before[i]);
        } else {
            assert(after[before.len() as int].id == "weekly_"@ + key);
        }
    } else {
        let k = (m - 1) as nat;
        a_cap_with_a_reading_stays_listed(fixed, rows, n, k, model, used);
        let rest = mapped_windows(fixed, rows, k);
        let i = choose|i: int|
            0 <= i < rest.len() && ((#[trigger] rest[i]).id == "weekly_"@ + key || covers(
                rest[i],
                key,
            ));
        assert(after[i] == rest[i]);
    }
}

/// Every cap of a response that came with a reading is in what the response is
/// read as: under its own id, or under that of a window that covers its model.
pub proof fn every_cap_of_a_response_is_listed(
    usage: UsageResponse,
    rows: Seq<LimitRow>,
    n: nat,
    model: LimitModel,
    used: Amount,
)
    requires
        usage.limits matches Limits::Rows(given) && given@ == rows,
        n < rows.len(),
        rows[n as int] matches LimitRow::Entry(entry) && {
            &&& entry.kind matches Some(kind) && kind@ == "weekly_scoped"@
            &&& entry.scope matches Some(scope) && scope.model == Some(model)
            &&& entry.percent == Some(used)
        },
        key_of(model).len() > 0,
    ensures
        exists|i: int|
            0 <= i < windows_of(usage).len() && ((#[trigger] windows_of(usage)[i]).id == "weekly_"@
                + key_of(model) || covers(windows_of(usage)[i], key_of(model))),
{
    let fixed = fixed_windows(usage, 4);
    a_cap_with_a_reading_stays_listed(fixed, rows, n, rows.len(), model, used);
    let all = mapped_windows(fixed, rows, rows.len());
    assert(windows_of(usage) == all);
    let i = choose|i: int|
        0 <= i < all.len() && ((#[trigger] all[i]).id == "weekly_"@ + key_of(model) || covers(
            all[i],
            key_of(model),
        ));
    assert(windows_of(usage)[i] == all[i]);
}

/// A row adds nothing if it cannot be read, is of another kind, names no model,
/// yields no id or comes without a reading.
pub proof fn other_rows_add_nothing(fixed: Seq<WindowData>, rows: Seq<LimitRow>, n: nat)
    requires
        n < rows.len(),
        match rows[n as int] {
            LimitRow::Unreadable => true,
            LimitRow::Entry(entry) => {
                ||| entry.kind is None
                ||| (entry.kind->0)@ != "weekly_scoped"@
                ||| entry.scope is None
                ||| (entry.scope->0).model is None
                ||| key_of((entry.scope->0).model->0).len() == 0
                ||| entry.percent is None
            },
        },
    ensures
        mapped_windows(fixed, rows, n + 1) == mapped_windows(fixed, rows, n),
{
}

/// Before any row has been read, the windows are those of the fixed buckets; and
/// a response's windows are those once all its rows have been.
pub proof fn windows_are_read_to_the_end(usage: UsageResponse, rows: Seq<LimitRow>)
    ensures
        mapped_windows(fixed_windows(usage, 4), rows, 0) == fixed_windows(usage, 4),
        usage.limits matches Limits::Rows(given) ==> windows_of(usage) == mapped_windows(
            fixed_windows(usage, 4),
            given@,
            given@.len(),
        ),
        !(usage.limits is Rows) ==> windows_of(usage) == fixed_windows(usage, 4),
{
}

/// A weekly window covers a model exactly when the model it is for stands in the
/// other's name as whole words: from its beginning or after an underscore, to
/// its end or to an underscore.
pub proof fn a_window_covers_whole_words(mapped: WindowData, key: Seq<char>)
    ensures
        covers(mapped, key) <==> {
            &&& mapped.id.len() >= 7 && mapped.id.subrange(0, 7) == "weekly_"@
            &&& mapped.model matches Some(model) && exists|i: int|
                {
                    &&& 0 <= i
                    &&& i + model.len() <= key.len()
                    &&& #[trigger] key.subrange(i, i + model.len()) == model
                    &&& i == 0 || key[i - 1] == '_'
                    &&& i + model.len() == key.len() || key[i + model.len()] == '_'
                }
        },
{
    reveal_strlit("weekly_");
    reveal_strlit("_");
    assert("weekly_"@.len() == 7);
    if let Some(model) = mapped.model {
        let n = model.len() as int;
        let (l, f, b) = (model + "_"@, "_"@ + model, "_"@ + model + "_"@);
        if covers(mapped, key) {
            if key == model {
                assert(key.subrange(0, 0 + n) =~= model);
            } else if text::occurs_at(key, l, 0) {
                assert(key.subrange(0, n + 1) == l);
                assert(key.subrange(0, 0 + n) =~= l.subrange(0, n));
                assert(l.subrange(0, n) =~= model);
                assert(key[n] == l[n]);
            } else if text::occurs_at(key, f, key.len() - (n + 1)) {
                let i = key.len() - n;
                assert(key.subrange(i - 1, i + n) == f);
                assert(key.subrange(i, i + n) =~= f.subrange(1, n + 1));
                assert(f.subrange(1, n + 1) =~= model);
                assert(key[i - 1] == f[0]);
            } else {
                let at = choose|at: int| #[trigger] text::occurs_at(key, b, at);
                let i = at + 1;
                assert(key.subrange(at, at + n + 2) == b);
                assert(key.subrange(i, i + n) =~= b.subrange(1, n + 1));
                assert(b.subrange(1, n + 1) =~= model);
                assert(key[i - 1] == b[0]);
                assert(key[i + n] == b[n + 1]);
            }
        }
        if exists|i: int|
            {
                &&& 0 <= i
                &&& i + model.len() <= key.len()
                &&& #[trigger] key.subrange(i, i + model.len()) == model
                &&& i == 0 || key[i - 1] == '_'
                &&& i + model.len() == key.len() || key[i + model.len()] == '_'
            } {
            let i = choose|i: int|
                {
                    &&& 0 <= i
                    &&& i + model.len() <= key.len()
                    &&& #[trigger] key.subrange(i, i + model.len()) == model
                    &&& i == 0 || key[i - 1] == '_'
                    &&& i + model.len() == key.len() || key[i + model.len()] == '_'
                };
            assert forall|j: int| 0 <= j < n implies #[trigger] key[i + j] == model[j] by {
                assert(key.subrange(i, i + n)[j] == model[j]);
            }
            if i == 0 && n == key.len() {
                assert(key =~= model) by {
                    assert forall|j: int| 0 <= j < n implies key[j] == model[j] by {
                        assert(key[0 + j] == model[j]);
                    }
                }
            } else if i == 0 {
                assert(key.subrange(0, n + 1) =~= l) by {
                    assert forall|j: int| 0 <= j < n implies key[j] == model[j] by {
                        assert(key[0 + j] == model[j]);
                    }
                }
                assert(text::occurs_at(key, l, 0));
            } else if i + n == key.len() {
                assert(key.subrange(i - 1, i + n) =~= f) by {
                    assert forall|j: int| 0 <= j < n + 1 implies key[i - 1 + j] == f[j] by {
                        if j > 0 {
                            assert(key[i + (j - 1)] == model[j - 1]);
                        }
                    }
                }
                assert(text::occurs_at(key, f, key.len() - (n + 1)));
            } else {
                assert(key.subrange(i - 1, i + n + 1) =~= b) by {
                    assert forall|j: int| 0 <= j < n + 2 implies key[i - 1 + j] == b[j] by {
                        if 0 < j < n + 1 {
                            assert(key[i + (j - 1)] == model[j - 1]);
                        }
                    }
                }
                assert(text::occurs_at(key, b, i - 1));
            }
        }
        assert(mapped.id.len() >= 7 && mapped.id.subrange(0, 7) == "weekly_"@ <==> text::occurs_at(
            mapped.id,
            "weekly_"@,
            0,
        ));
    }
}

/// What a fixed bucket is listed as: nothing without a reading.
pub open spec fn listed(
    bucket: Option<UsageBucket>,
    id: Seq<char>,
    label: Seq<char>,
    model: Option<Seq<char>>,
    secs: u64,
) -> Seq<WindowData> {
    match bucket {
        Some(b) => match b.utilization {
            Some(used) => seq![
                WindowData {
                    id,
                    label,
                    model,
                    reset_kind: ResetKind::Rolling(Duration { secs, nanos: 0 }),
                    unit: QuotaUnit::Percent,
                    used,
                    limit: Some(Amount { bits: 0x4059_0000_0000_0000 }),
                    reset_at: b.resets_at,
                },
            ],
            None => seq![],
        },
        None => seq![],
    }
}

/// The fixed buckets that came with a reading are listed, each under its own id
/// with its own reading and reset instant: the session of five hours, the week,
/// and the weeks of the two models that have one.
pub proof fn fixed_buckets_are_listed_as_read(usage: UsageResponse)
    ensures
        fixed_windows(usage, 4) == listed(
            usage.five_hour,
            "session_5h"@,
            "Session — 5 hour"@,
            None,
            18_000,
        ) + listed(usage.seven_day, "weekly"@, "Weekly — all models"@, None, 604_800) + listed(
            usage.seven_day_opus,
            "weekly_opus"@,
            "Weekly — Opus"@,
            Some("opus"@),
            604_800,
        ) + listed(
            usage.seven_day_sonnet,
            "weekly_sonnet"@,
            "Weekly — Sonnet"@,
            Some("sonnet"@),
            604_800,
        ),
{
    reveal_with_fuel(fixed_windows, 5);
    let a = listed(usage.five_hour, "session_5h"@, "Session — 5 hour"@, None, 18_000);
    let b = listed(usage.seven_day, "weekly"@, "Weekly — all models"@, None, 604_800);
    let c = listed(
        usage.seven_day_opus,
        "weekly_opus"@,
        "Weekly — Opus"@,
        Some("opus"@),
        604_800,
    );
    let d = listed(
        usage.seven_day_sonnet,
        "weekly_sonnet"@,
        "Weekly — Sonnet"@,
        Some("sonnet"@),
        604_800,
    );
    assert(fixed_windows(usage, 1) =~= a);
    assert(fixed_windows(usage, 2) =~= a + b);
    assert(fixed_windows(usage, 3) =~= a + b + c);
    assert(fixed_windows(usage, 4) =~= a + b + c + d);
}

/// A reading is a percentage from nothing to a hundred, both included.
pub proof fn a_percentage_is_from_nothing_to_a_hundred(used: Amount)
    ensures
        is_percent(used) <==> used.bits <= 0x4059_0000_0000_0000 || used.bits
            == 0x8000_0000_0000_0000,
{
}

/// What is said of a fixed bucket: that it came without a reading, or with one
/// that is no percentage; and nothing of one that did not come.
pub open spec fn remarked(bucket: Option<UsageBucket>, which: Bucket) -> Seq<Note> {
    match bucket {
        Some(b) => match b.utilization {
            Some(used) => if used.bits <= 0x4059_0000_0000_0000 || used.bits
                == 0x8000_0000_0000_0000 {
                seq![]
            } else {
                seq![Note::BucketOutOfRange(which)]
            },
            None => seq![Note::NoUtilization(which)],
        },
        None => seq![],
    }
}

/// What is said of the fixed buckets.
pub proof fn fixed_buckets_are_remarked_on(usage: UsageResponse)
    ensures
        fixed_notes(usage, 4) == remarked(usage.five_hour, Bucket::FiveHour) + remarked(
            usage.seven_day,
            Bucket::SevenDay,
        ) + remarked(usage.seven_day_opus, Bucket::SevenDayOpus) + remarked(
            usage.seven_day_sonnet,
            Bucket::SevenDaySonnet,
        ),
{
    reveal_with_fuel(fixed_notes, 5);
    let a = remarked(usage.five_hour, Bucket::FiveHour);
    let b = remarked(usage.seven_day, Bucket::SevenDay);
    let c = remarked(usage.seven_day_opus, Bucket::SevenDayOpus);
    let d = remarked(usage.seven_day_sonnet, Bucket::SevenDaySonnet);
    assert(fixed_notes(usage, 1) =~= a);
    assert(fixed_notes(usage, 2) =~= a + b);
    assert(fixed_notes(usage, 3) =~= a + b + c);
    assert(fixed_notes(usage, 4) =~= a + b + c + d);
}

/// Nothing is dropped without a word but what is expected: a row that adds no
/// window is noted, unless it is of another kind or its cap is listed already;
/// one that adds a window is noted exactly when its reading is no percentage.
pub proof fn what_is_dropped_is_noted(windows: Seq<WindowData>, row: LimitRow, at: usize)
    ensures
        row is Unreadable ==> row_note(windows, row, at) == Some(Note::UnreadableRow(at)),
        row matches LimitRow::Entry(entry) ==> {
            let scoped = entry.kind is Some && (entry.kind->0)@ == "weekly_scoped"@;
            let named = entry.scope is Some && (entry.scope->0).model is Some;
            let key = key_of((entry.scope->0).model->0);
            let listed = exists|i: int|
                0 <= i < windows.len() && ((#[trigger] windows[i]).id == "weekly_"@ + key || covers(
                    windows[i],
                    key,
                ));
            &&& !scoped ==> row_note(windows, row, at) is None
            &&& scoped && !named ==> row_note(windows, row, at) == Some(Note::NoModel(at))
            &&& scoped && named && key.len() == 0 ==> row_note(windows, row, at) == Some(
                Note::NoId(at),
            )
            &&& scoped && named && key.len() > 0 && listed ==> row_note(windows, row, at) is None
            &&& scoped && named && key.len() > 0 && !listed && entry.percent is None ==> row_note(
                windows,
                row,
                at,
            ) == Some(Note::NoPercent(at))
            &&& scoped && named && key.len() > 0 && !listed && entry.percent is Some ==> (row_note(
                windows,
                row,
                at,
            ) is None <==> (entry.percent->0).bits <= 0x4059_0000_0000_0000 || (
            entry.percent->0).bits == 0x8000_0000_0000_0000) && row_window(windows, row) is Some
            &&& scoped && named && key.len() > 0 && !listed && entry.percent is Some && row_note(
                windows,
                row,
                at,
            ) is Some ==> row_note(windows, row, at) == Some(Note::RowOutOfRange(at))
        },
{
    if let LimitRow::Entry(entry) = row {
        let key = key_of((entry.scope->0).model->0);
        assert(is_mapped(windows, key) <==> exists|i: int|
            0 <= i < windows.len() && ((#[trigger] windows[i]).id == "weekly_"@ + key || covers(
                windows[i],
                key,
            )));
    }
}

/// The notes on a response are those on its fixed buckets, one on its `limits`
/// where that is no array, and those on its rows, each as it was when the rows
/// before it had been read.
pub proof fn every_note_is_kept(usage: UsageResponse, n: nat)
    ensures
        notes_of(usage) == fixed_notes(usage, 4) + match usage.limits {
            Limits::Absent => seq![],
            Limits::NotAnArray => seq![Note::LimitsNotAnArray],
            Limits::Rows(rows) => row_notes(fixed_windows(usage, 4), rows@, rows@.len()),
        },
        usage.limits matches Limits::Rows(rows) && n < rows@.len() <= usize::MAX ==> {
            let rows = (usage.limits->Rows_0)@;
            let fixed = fixed_windows(usage, 4);
            row_notes(fixed, rows, n + 1) == row_notes(fixed, rows, n) + match row_note(
                mapped_windows(fixed, rows, n),
                rows[n as int],
                n as usize,
            ) {
                Some(note) => seq![note],
                None => seq![],
            }
        },
        row_notes(fixed_windows(usage, 4), seq![], 0) == Seq::<Note>::empty(),
{
    assert(notes_of(usage) =~= fixed_notes(usage, 4) + match usage.limits {
        Limits::Absent => seq![],
        Limits::NotAnArray => seq![Note::LimitsNotAnArray],
        Limits::Rows(rows) => row_notes(fixed_windows(usage, 4), rows@, rows@.len()),
    });
    if let Limits::Rows(given) = usage.limits {
        if n < given@.len() <= usize::MAX {
            let rows = given@;
            let fixed = fixed_windows(usage, 4);
            let rest = row_notes(fixed, rows, n);
            assert(row_notes(fixed, rows, n + 1) =~= rest + match row_note(
                mapped_windows(fixed, rows, n),
                rows[n as int],
                n as usize,
            ) {
                Some(note) => seq![note],
                None => seq![],
            });
        }
    }
}

/// The order windows are grouped in for display: the session first, then the
/// week, then the two models.
pub proof fn the_session_comes_before_the_weeks()
    ensures
        buckets().len() == 4,
        buckets()[0].id() == "session_5h"@,
        buckets()[1].id() == "weekly"@,
        buckets()[2].id() == "weekly_opus"@,
        buckets()[3].id() == "weekly_sonnet"@,
{
}

} // verus!
