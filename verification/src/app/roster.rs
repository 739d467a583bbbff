//! The rows of the dashboard: accounts in display order, each followed by its
//! windows, and which of them is selected.

use vstd::prelude::*;

use crate::ids::{AccountId, WindowId};
use crate::protocol::wire::AccountStatus;
use crate::text;

verus! {

/// One selectable dashboard row: an account header or one of its windows.
#[derive(Debug, Clone, Copy, PartialEq, Eq, Structural)]
pub struct RowRef {
    /// Index into the accounts.
    pub account: usize,
    /// Window index within the account, `None` for the account header row.
    pub window: Option<usize>,
}

/// What is selected, by stable identity rather than row index.
///
/// The daemon may reorder accounts or grow an account's window list between
/// refreshes; an index would silently point at a different row when that
/// happens, so selection is resolved from ids on every frame instead.
#[derive(Debug, PartialEq, Eq)]
pub struct Selection {
    /// Account owning the selected row.
    pub account: AccountId,
    /// Selected window, or `None` for the account's header row.
    pub window: Option<WindowId>,
}

// ---------------------------------------------------------------------------
// Display order
// ---------------------------------------------------------------------------

/// Whether one account is listed strictly before another: by provider, then by
/// label.
pub open spec fn listed_before(a: AccountStatus, b: AccountStatus) -> bool {
    if a.account.provider@ != b.account.provider@ {
        text::precedes(a.account.provider@, b.account.provider@)
    } else {
        text::precedes(a.account.label@, b.account.label@)
    }
}

/// How many accounts at the front of `sorted` are listed strictly before `a`.
pub open spec fn slot(sorted: Seq<AccountStatus>, a: AccountStatus) -> int
    decreases sorted.len(),
{
    if sorted.len() == 0 || !listed_before(sorted[0], a) {
        0
    } else {
        1 + slot(sorted.drop_first(), a)
    }
}

/// Accounts in display order; accounts that neither comes before the other
/// keep the order they were given in.
pub open spec fn arranged(statuses: Seq<AccountStatus>) -> Seq<AccountStatus>
    decreases statuses.len(),
{
    if statuses.len() == 0 {
        Seq::empty()
    } else {
        let rest = arranged(statuses.drop_first());
        rest.insert(slot(rest, statuses[0]), statuses[0])
    }
}

fn is_listed_before(a: &AccountStatus, b: &AccountStatus) -> (r: bool)
    ensures
        r == listed_before(*a, *b),
{
    if text::same(a.account.provider.as_str(), b.account.provider.as_str()) {
        text::comes_before(a.account.label.as_str(), b.account.label.as_str())
    } else {
        text::comes_before(a.account.provider.as_str(), b.account.provider.as_str())
    }
}

proof fn slot_in_range(sorted: Seq<AccountStatus>, a: AccountStatus)
    ensures
        0 <= slot(sorted, a) <= sorted.len(),
        forall|i: int| 0 <= i < slot(sorted, a) ==> listed_before(#[trigger] sorted[i], a),
        slot(sorted, a) < sorted.len() ==> !listed_before(sorted[slot(sorted, a)], a),
    decreases sorted.len(),
{
    if sorted.len() > 0 && listed_before(sorted[0], a) {
        let rest = sorted.drop_first();
        slot_in_range(rest, a);
        assert forall|i: int| 0 <= i < slot(sorted, a) implies listed_before(
            #[trigger] sorted[i],
            a,
        ) by {
            if i > 0 {
                assert(sorted[i] == rest[i - 1]);
            }
        }
    }
}

/// Accounts in display order.
pub fn arrange(statuses: Vec<AccountStatus>) -> (r: Vec<AccountStatus>)
    ensures
        r@ == arranged(statuses@),
{
    let ghost all = statuses@;
    let mut left = statuses;
    let mut out: Vec<AccountStatus> = Vec::new();
    assert(all.skip(all.len() as int) =~= Seq::empty());
    while left.len() > 0
        invariant
            left@.len() <= all.len(),
            left@ == all.take(left@.len() as int),
            out@ == arranged(all.skip(left@.len() as int)),
        decreases left@.len(),
    {
        let ghost n = left@.len();
        let last = left.pop();
        if let Some(status) = last {
            let mut i: usize = 0;
            assert(out@.skip(0) =~= out@);
            while i < out.len() && is_listed_before(&out[i], &status)
                invariant
                    i <= out@.len(),
                    slot(out@, status) == i + slot(out@.skip(i as int), status),
                decreases out@.len() - i,
            {
                assert(out@.skip(i as int).drop_first() =~= out@.skip(i + 1));
                i += 1;
            }
            let ghost before = out@;
            out.insert(i, status);
            proof {
                let rest = all.skip(n - 1);
                assert(rest.drop_first() =~= all.skip(n as int));
                assert(rest[0] == status);
                assert(out@ =~= before.insert(i as int, status));
                assert(left@ =~= all.take(n - 1));
            }
        }
    }
    assert(all.skip(0) =~= all);
    out
}

proof fn listed_before_transitive(a: AccountStatus, b: AccountStatus, c: AccountStatus)
    requires
        !listed_before(b, a),
        !listed_before(c, b),
    ensures
        !listed_before(c, a),
{
    if listed_before(c, a) {
        let (pa, pb, pc) = (a.account.provider@, b.account.provider@, c.account.provider@);
        let (la, lb, lc) = (a.account.label@, b.account.label@, c.account.label@);
        text::precedes_total(pa, pb);
        text::precedes_total(pb, pc);
        text::precedes_total(la, lb);
        text::precedes_total(lb, lc);
        text::precedes_irreflexive(pa);
        text::precedes_irreflexive(la);
        if pa != pb && pb != pc {
            text::precedes_transitive(pa, pb, pc);
            if pc != pa {
                text::precedes_transitive(pa, pc, pa);
            }
        } else if pa != pb {
            text::precedes_transitive(pa, pb, pa);
        } else if pb != pc {
            text::precedes_transitive(pa, pc, pa);
        } else if la == lb {
            if lb != lc {
                text::precedes_transitive(la, lc, la);
            }
        } else if lb == lc {
            text::precedes_transitive(la, lb, la);
        } else {
            text::precedes_transitive(la, lb, lc);
            text::precedes_transitive(la, lc, la);
        }
    }
}

/// Arranging loses and invents no account.
pub proof fn arranging_keeps_the_accounts(statuses: Seq<AccountStatus>)
    ensures
        arranged(statuses).to_multiset() == statuses.to_multiset(),
        arranged(statuses).len() == statuses.len(),
    decreases statuses.len(),
{
    if statuses.len() > 0 {
        let rest = statuses.drop_first();
        let sorted = arranged(rest);
        arranging_keeps_the_accounts(rest);
        slot_in_range(sorted, statuses[0]);
        let at = slot(sorted, statuses[0]);
        sorted.to_multiset_ensures();
        vstd::seq_lib::to_multiset_insert(sorted, at, statuses[0]);
        assert(statuses =~= rest.insert(0, statuses[0]));
        vstd::seq_lib::to_multiset_insert(rest, 0, statuses[0]);
    } else {
        assert(statuses =~= arranged(statuses));
    }
}

/// Arranged accounts are in display order: none is listed before one that
/// stands ahead of it.
pub proof fn arranged_is_in_order(statuses: Seq<AccountStatus>)
    ensures
        forall|i: int, j: int|
            0 <= i < j < arranged(statuses).len() ==> !listed_before(
                #[trigger] arranged(statuses)[j],
                #[trigger] arranged(statuses)[i],
            ),
    decreases statuses.len(),
{
    if statuses.len() > 0 {
        let x = statuses[0];
        let sorted = arranged(statuses.drop_first());
        arranged_is_in_order(statuses.drop_first());
        slot_in_range(sorted, x);
        let at = slot(sorted, x);
        let out = sorted.insert(at, x);
        assert forall|i: int, j: int| 0 <= i < j < out.len() implies !listed_before(
            #[trigger] out[j],
            #[trigger] out[i],
        ) by {
            if i < at && j < at {
                assert(!listed_before(sorted[j], sorted[i]));
            } else if i < at && j == at {
                listed_before_asymmetric(sorted[i], x);
            } else if i < at && j > at {
                assert(!listed_before(sorted[j - 1], sorted[i]));
            } else if i == at {
                if j - 1 > at {
                    assert(!listed_before(sorted[j - 1], sorted[at]));
                    listed_before_transitive(x, sorted[at], sorted[j - 1]);
                }
            } else {
                assert(!listed_before(sorted[j - 1], sorted[i - 1]));
            }
        }
    }
}

proof fn listed_before_asymmetric(a: AccountStatus, b: AccountStatus)
    requires
        listed_before(a, b),
    ensures
        !listed_before(b, a),
{
    let (pa, pb) = (a.account.provider@, b.account.provider@);
    let (la, lb) = (a.account.label@, b.account.label@);
    if listed_before(b, a) {
        text::precedes_irreflexive(pa);
        text::precedes_irreflexive(la);
        if pa != pb {
            text::precedes_transitive(pa, pb, pa);
        } else {
            text::precedes_transitive(la, lb, la);
        }
    }
}

/// Whether neither account is listed before the other.
pub open spec fn tied(a: AccountStatus, b: AccountStatus) -> bool {
    a.account.provider@ == b.account.provider@ && a.account.label@ == b.account.label@
}

/// Accounts that display order does not tell apart keep the order they came
/// in.
pub proof fn arranging_is_stable(statuses: Seq<AccountStatus>, a: AccountStatus)
    ensures
        arranged(statuses).filter(|b: AccountStatus| tied(a, b)) == statuses.filter(
            |b: AccountStatus| tied(a, b),
        ),
    decreases statuses.len(),
{
    let same = |b: AccountStatus| tied(a, b);
    if statuses.len() > 0 {
        let x = statuses[0];
        let rest = statuses.drop_first();
        let sorted = arranged(rest);
        arranging_is_stable(rest, a);
        slot_in_range(sorted, x);
        let at = slot(sorted, x);
        let (front, back) = (sorted.take(at), sorted.skip(at));
        assert(sorted =~= front + back);
        assert(arranged(statuses) =~= (front + seq![x]) + back);
        assert(statuses =~= seq![x] + rest);
        Seq::filter_distributes_over_add(front, back, same);
        Seq::filter_distributes_over_add(front + seq![x], back, same);
        Seq::filter_distributes_over_add(front, seq![x], same);
        Seq::filter_distributes_over_add(seq![x], rest, same);
        if same(x) {
            assert forall|i: int| 0 <= i < front.len() implies !same(#[trigger] front[i]) by {
                text::precedes_irreflexive(x.account.label@);
            }
            filter_drops_all(front, same);
            assert(front.filter(same) + seq![x].filter(same) =~= seq![x].filter(same));
        } else {
            filter_drops_all(seq![x], same);
        }
        assert(arranged(statuses).filter(same) =~= statuses.filter(same));
    } else {
        assert(statuses =~= arranged(statuses));
    }
}

proof fn filter_drops_all(s: Seq<AccountStatus>, pred: spec_fn(AccountStatus) -> bool)
    requires
        forall|i: int| 0 <= i < s.len() ==> !pred(#[trigger] s[i]),
    ensures
        s.filter(pred) == Seq::<AccountStatus>::empty(),
    decreases s.len(),
{
    reveal(Seq::filter);
    if s.len() > 0 {
        filter_drops_all(s.drop_last(), pred);
    }
}

// ---------------------------------------------------------------------------
// Rows
// ---------------------------------------------------------------------------

/// One account's rows: its header, then its first `windows` windows.
pub open spec fn block(account: int, windows: nat) -> Seq<RowRef> {
    Seq::new(
        windows + 1,
        |i: int|
            RowRef {
                account: account as usize,
                window: if i == 0 {
                    None
                } else {
                    Some((i - 1) as usize)
                },
            },
    )
}

/// Flattened selectable rows: each account header followed by its windows.
pub open spec fn rows_of(statuses: Seq<AccountStatus>) -> Seq<RowRef>
    decreases statuses.len(),
{
    if statuses.len() == 0 {
        Seq::empty()
    } else {
        rows_of(statuses.drop_last()) + block(
            statuses.len() - 1,
            statuses.last().windows@.len(),
        )
    }
}

/// Whether a row refers to an account, and to a window of it or its header.
pub open spec fn refers(statuses: Seq<AccountStatus>, row: RowRef) -> bool {
    &&& row.account < statuses.len()
    &&& row.window matches Some(w) ==> w < statuses[row.account as int].windows@.len()
}

/// Every row refers to something that is there.
pub proof fn rows_refer(statuses: Seq<AccountStatus>)
    requires
        statuses.len() <= usize::MAX,
        forall|i: int|
            0 <= i < statuses.len() ==> (#[trigger] statuses[i]).windows@.len() <= usize::MAX,
    ensures
        forall|i: int|
            0 <= i < rows_of(statuses).len() ==> refers(statuses, #[trigger] rows_of(statuses)[i]),
    decreases statuses.len(),
{
    if statuses.len() > 0 {
        let init = statuses.drop_last();
        rows_refer(init);
        let head = rows_of(init);
        assert forall|i: int| 0 <= i < rows_of(statuses).len() implies refers(
            statuses,
            #[trigger] rows_of(statuses)[i],
        ) by {
            if i < head.len() {
                assert(rows_of(statuses)[i] == head[i]);
                assert(refers(init, head[i]));
            } else {
                assert(rows_of(statuses)[i] == block(
                    statuses.len() - 1,
                    statuses.last().windows@.len(),
                )[i - head.len()]);
            }
        }
    }
}

/// Flattened selectable rows: each account header followed by its windows.
pub fn rows(statuses: &Vec<AccountStatus>) -> (r: Vec<RowRef>)
    ensures
        r@ == rows_of(statuses@),
        forall|i: int| 0 <= i < r@.len() ==> refers(statuses@, #[trigger] r@[i]),
{
    let mut out: Vec<RowRef> = Vec::new();
    let mut a: usize = 0;
    assert(statuses@.take(0) =~= Seq::empty());
    while a < statuses.len()
        invariant
            a <= statuses@.len(),
            out@ == rows_of(statuses@.take(a as int)),
            forall|i: int| 0 <= i < out@.len() ==> refers(statuses@, #[trigger] out@[i]),
        decreases statuses@.len() - a,
    {
        let ghost before = out@;
        let n: usize = statuses[a].windows.len();
        out.push(RowRef { account: a, window: None });
        let mut w: usize = 0;
        assert(out@ =~= before + block(a as int, 0));
        while w < n
            invariant
                w <= n,
                a < statuses@.len(),
                n == statuses@[a as int].windows@.len(),
                out@ == before + block(a as int, w as nat),
                forall|i: int| 0 <= i < out@.len() ==> refers(statuses@, #[trigger] out@[i]),
            decreases n - w,
        {
            out.push(RowRef { account: a, window: Some(w) });
            w += 1;
            assert(out@ =~= before + block(a as int, w as nat));
        }
        proof {
            let upto = statuses@.take(a + 1);
            assert(upto.drop_last() =~= statuses@.take(a as int));
            assert(upto.last() == statuses@[a as int]);
        }
        a += 1;
    }
    assert(statuses@.take(a as int) =~= statuses@);
    out
}

// ---------------------------------------------------------------------------
// Selection
// ---------------------------------------------------------------------------

/// Whether a selection names a row.
pub open spec fn names(statuses: Seq<AccountStatus>, row: RowRef, selection: Selection) -> bool {
    let status = statuses[row.account as int];
    &&& status.account.id@ == selection.account@
    &&& match (row.window, selection.window) {
        (Some(w), Some(id)) => status.windows@[w as int].window.id@ == id@,
        (None, None) => true,
        _ => false,
    }
}

/// The first of `rows` that a selection names.
pub open spec fn first_named(
    statuses: Seq<AccountStatus>,
    rows: Seq<RowRef>,
    selection: Selection,
) -> Option<usize>
    decreases rows.len(),
{
    if rows.len() == 0 {
        None
    } else {
        match first_named(statuses, rows.drop_last(), selection) {
            Some(i) => Some(i),
            None => if names(statuses, rows.last(), selection) {
                Some((rows.len() - 1) as usize)
            } else {
                None
            },
        }
    }
}

/// Row index of a selection, if it still resolves.
pub open spec fn index_of(
    statuses: Seq<AccountStatus>,
    selection: Option<Selection>,
) -> Option<usize> {
    match selection {
        Some(s) => first_named(statuses, rows_of(statuses), s),
        None => None,
    }
}

/// What selecting the row at `index` means: the identity of that row.
pub open spec fn selection_at(statuses: Seq<AccountStatus>, index: int) -> Option<Selection> {
    let rows = rows_of(statuses);
    if 0 <= index < rows.len() {
        let status = statuses[rows[index].account as int];
        Some(
            Selection {
                account: status.account.id,
                window: match rows[index].window {
                    Some(w) => Some(status.windows@[w as int].window.id),
                    None => None,
                },
            },
        )
    } else {
        None
    }
}

/// The first of `rows` that is a window's.
pub open spec fn first_window(rows: Seq<RowRef>) -> Option<int>
    decreases rows.len(),
{
    if rows.len() == 0 {
        None
    } else {
        match first_window(rows.drop_last()) {
            Some(i) => Some(i),
            None => if rows.last().window is Some {
                Some(rows.len() - 1)
            } else {
                None
            },
        }
    }
}

/// Whether two selections are of the same row.
pub open spec fn same_selection(a: Option<Selection>, b: Option<Selection>) -> bool {
    match (a, b) {
        (Some(a), Some(b)) => {
            &&& a.account@ == b.account@
            &&& match (a.window, b.window) {
                (Some(v), Some(w)) => v@ == w@,
                (None, None) => true,
                _ => false,
            }
        },
        (None, None) => true,
        _ => false,
    }
}

fn row_is_named(statuses: &Vec<AccountStatus>, row: RowRef, selection: &Selection) -> (r: bool)
    requires
        refers(statuses@, row),
    ensures
        r == names(statuses@, row, *selection),
{
    let status = &statuses[row.account];
    if !status.account.id.same(&selection.account) {
        return false;
    }
    match (row.window, &selection.window) {
        (Some(w), Some(id)) => status.windows[w].window.id.same(id),
        (None, None) => true,
        _ => false,
    }
}

/// Row index of a selection, if it still resolves.
pub fn find_selection(statuses: &Vec<AccountStatus>, selection: &Option<Selection>) -> (r: Option<
    usize,
>)
    ensures
        r == index_of(statuses@, *selection),
        r is Some ==> r->0 < rows_of(statuses@).len(),
{
    match selection {
        None => None,
        Some(s) => {
            let rows = rows(statuses);
            let mut i: usize = 0;
            assert(rows@.take(0) =~= Seq::empty());
            while i < rows.len()
                invariant
                    i <= rows@.len(),
                    *selection == Some(*s),
                    rows@ == rows_of(statuses@),
                    forall|k: int| 0 <= k < rows@.len() ==> refers(statuses@, #[trigger] rows@[k]),
                    first_named(statuses@, rows@.take(i as int), *s) is None,
                decreases rows@.len() - i,
            {
                proof {
                    assert(rows@.take(i + 1).drop_last() =~= rows@.take(i as int));
                    assert(rows@.take(i + 1).last() == rows@[i as int]);
                }
                if row_is_named(statuses, rows[i], s) {
                    proof {
                        first_named_stays(statuses@, rows@, *s, i + 1);
                    }
                    return Some(i);
                }
                i += 1;
            }
            assert(rows@.take(i as int) =~= rows@);
            None
        },
    }
}

proof fn first_named_stays(
    statuses: Seq<AccountStatus>,
    rows: Seq<RowRef>,
    selection: Selection,
    n: int,
)
    requires
        0 <= n <= rows.len(),
        first_named(statuses, rows.take(n), selection) is Some,
    ensures
        first_named(statuses, rows, selection) == first_named(statuses, rows.take(n), selection),
    decreases rows.len(),
{
    if n < rows.len() {
        assert(rows.drop_last().take(n) =~= rows.take(n));
        first_named_stays(statuses, rows.drop_last(), selection, n);
    } else {
        assert(rows.take(n) =~= rows);
    }
}

/// The identity of the row at `index`.
pub fn select_at(statuses: &Vec<AccountStatus>, index: usize) -> (r: Option<Selection>)
    ensures
        r == selection_at(statuses@, index as int),
{
    let rows = rows(statuses);
    if index >= rows.len() {
        return None;
    }
    let row = rows[index];
    assert(refers(statuses@, rows@[index as int]));
    let status = &statuses[row.account];
    Some(
        Selection {
            account: status.account.id.clone(),
            window: match row.window {
                Some(w) => Some(status.windows[w].window.id.clone()),
                None => None,
            },
        },
    )
}

/// The first row that is a window's.
pub fn find_window(rows: &Vec<RowRef>) -> (r: Option<usize>)
    ensures
        r is Some <==> first_window(rows@) is Some,
        r is Some ==> r->0 == first_window(rows@)->0 && r->0 < rows@.len(),
{
    let mut i: usize = 0;
    assert(rows@.take(0) =~= Seq::empty());
    while i < rows.len()
        invariant
            i <= rows@.len(),
            first_window(rows@.take(i as int)) is None,
        decreases rows@.len() - i,
    {
        proof {
            assert(rows@.take(i + 1).drop_last() =~= rows@.take(i as int));
            assert(rows@.take(i + 1).last() == rows@[i as int]);
        }
        if rows[i].window.is_some() {
            proof {
                first_window_stays(rows@, i + 1);
            }
            return Some(i);
        }
        i += 1;
    }
    assert(rows@.take(i as int) =~= rows@);
    None
}

proof fn first_window_stays(rows: Seq<RowRef>, n: int)
    requires
        0 <= n <= rows.len(),
        first_window(rows.take(n)) is Some,
    ensures
        first_window(rows) == first_window(rows.take(n)),
    decreases rows.len(),
{
    if n < rows.len() {
        assert(rows.drop_last().take(n) =~= rows.take(n));
        first_window_stays(rows.drop_last(), n);
    } else {
        assert(rows.take(n) =~= rows);
    }
}

/// Whether two selections are of the same row.
pub fn is_same_selection(a: &Option<Selection>, b: &Option<Selection>) -> (r: bool)
    ensures
        r == same_selection(*a, *b),
{
    match (a, b) {
        (Some(a), Some(b)) => a.account.same(&b.account) && match (&a.window, &b.window) {
            (Some(v), Some(w)) => v.same(w),
            (None, None) => true,
            _ => false,
        },
        (None, None) => true,
        _ => false,
    }
}

/// The index found is that of the first row the selection names; where none is
/// found it names no row.
pub proof fn index_is_the_first_named_row(statuses: Seq<AccountStatus>, selection: Selection)
    requires
        rows_of(statuses).len() <= usize::MAX,
    ensures
        match index_of(statuses, Some(selection)) {
            Some(i) => {
                &&& i < rows_of(statuses).len()
                &&& names(statuses, rows_of(statuses)[i as int], selection)
                &&& forall|j: int|
                    0 <= j < i ==> !names(statuses, #[trigger] rows_of(statuses)[j], selection)
            },
            None => forall|j: int|
                0 <= j < rows_of(statuses).len() ==> !names(
                    statuses,
                    #[trigger] rows_of(statuses)[j],
                    selection,
                ),
        },
{
    first_named_is_first(statuses, rows_of(statuses), selection);
}

proof fn first_named_is_first(
    statuses: Seq<AccountStatus>,
    rows: Seq<RowRef>,
    selection: Selection,
)
    requires
        rows.len() <= usize::MAX,
    ensures
        match first_named(statuses, rows, selection) {
            Some(i) => {
                &&& i < rows.len()
                &&& names(statuses, rows[i as int], selection)
                &&& forall|j: int| 0 <= j < i ==> !names(statuses, #[trigger] rows[j], selection)
            },
            None => forall|j: int|
                0 <= j < rows.len() ==> !names(statuses, #[trigger] rows[j], selection),
        },
    decreases rows.len(),
{
    if rows.len() > 0 {
        let init = rows.drop_last();
        first_named_is_first(statuses, init, selection);
        assert forall|j: int| 0 <= j < init.len() implies #[trigger] rows[j] == init[j] by {}
    }
}

/// Accounts are listed by provider, and those of one provider by label.
pub proof fn accounts_are_listed_by_provider_then_label(a: AccountStatus, b: AccountStatus)
    ensures
        text::precedes(a.account.provider@, b.account.provider@) ==> listed_before(a, b)
            && !listed_before(b, a),
        a.account.provider@ == b.account.provider@ ==> (listed_before(a, b) <==> text::precedes(
            a.account.label@,
            b.account.label@,
        )),
        a.account.provider@ == b.account.provider@ && a.account.label@ == b.account.label@ <==> (
        !listed_before(a, b) && !listed_before(b, a)),
        tied(a, b) <==> !listed_before(a, b) && !listed_before(b, a),
{
    let (p, q) = (a.account.provider@, b.account.provider@);
    let (s, t) = (a.account.label@, b.account.label@);
    text::precedes_total(p, q);
    text::precedes_total(s, t);
    text::precedes_irreflexive(p);
    text::precedes_irreflexive(s);
    if text::precedes(p, q) && text::precedes(q, p) {
        text::precedes_transitive(p, q, p);
    }
}

/// An account takes a row for itself and one for each of its windows, in their
/// order, below those of the accounts before it.
pub proof fn an_account_is_followed_by_its_windows(
    statuses: Seq<AccountStatus>,
    status: AccountStatus,
    w: int,
)
    requires
        statuses.len() <= usize::MAX,
        status.windows@.len() <= usize::MAX,
    ensures
        ({
            let before = rows_of(statuses);
            let after = rows_of(statuses.push(status));
            &&& after.len() == before.len() + 1 + status.windows@.len()
            &&& after.take(before.len() as int) == before
            &&& after[before.len() as int] == (RowRef {
                account: statuses.len() as usize,
                window: None,
            })
            &&& 0 <= w < status.windows@.len() ==> after[before.len() + 1 + w] == (RowRef {
                account: statuses.len() as usize,
                window: Some(w as usize),
            })
        }),
        rows_of(Seq::empty()).len() == 0,
{
    let all = statuses.push(status);
    assert(all.drop_last() =~= statuses);
    assert(rows_of(all).take(rows_of(statuses).len() as int) =~= rows_of(statuses));
}

/// A row stands for what it is of: the row of a window for that window, by its
/// account's id and its own, and the row of an account for the account alone.
pub proof fn a_row_stands_for_what_it_is_of(
    statuses: Seq<AccountStatus>,
    row: RowRef,
    selection: Selection,
    index: int,
)
    ensures
        names(statuses, row, selection) ==> selection.account@ == statuses[
            row.account as int
        ].account.id@ && (row.window is Some <==> selection.window is Some),
        row.window is Some && selection.window is Some ==> (names(
            statuses,
            row,
            selection,
        ) <==> selection.account@ == statuses[row.account as int].account.id@ && (
        selection.window->0)@ == statuses[row.account as int].windows@[row.window->0
            as int].window.id@),
        row.window is None && selection.window is None && selection.account@ == statuses[
            row.account as int
        ].account.id@ ==> names(statuses, row, selection),
        selection_at(statuses, index) is Some <==> 0 <= index < rows_of(statuses).len(),
        selection_at(statuses, index) matches Some(s) ==> names(
            statuses,
            rows_of(statuses)[index],
            s,
        ),
{
}

/// The first row of a window is found, if there is one.
pub proof fn the_first_window_is_found(rows: Seq<RowRef>)
    ensures
        match first_window(rows) {
            Some(i) => {
                &&& 0 <= i < rows.len()
                &&& rows[i].window is Some
                &&& forall|k: int| 0 <= k < i ==> (#[trigger] rows[k]).window is None
            },
            None => forall|k: int| 0 <= k < rows.len() ==> (#[trigger] rows[k]).window is None,
        },
    decreases rows.len(),
{
    if rows.len() > 0 {
        let front = rows.drop_last();
        the_first_window_is_found(front);
        assert forall|k: int| 0 <= k < front.len() implies front[k] == #[trigger] rows[k] by {}
    }
}

/// Two selections are the same if they are of the same account and the same
/// window, or both of the account alone.
pub proof fn a_selection_is_its_ids(a: Selection, b: Selection)
    ensures
        same_selection(None, None),
        !same_selection(Some(a), None) && !same_selection(None, Some(b)),
        same_selection(Some(a), Some(b)) <==> a.account@ == b.account@ && (a.window is Some
            <==> b.window is Some) && (a.window is Some && b.window is Some ==> (a.window->0)@ == (
        b.window->0)@),
        index_of(Seq::empty(), Some(a)) is None,
{
}

} // verus!
