//! Recent history per window.

use vstd::prelude::*;

use crate::domain;
use crate::domain::QuotaSnapshot;
use crate::ids::{AccountId, WindowId};

verus! {

/// One window's recent readings.
#[derive(Debug)]
pub struct Series {
    /// Account the window belongs to.
    pub account: AccountId,
    /// The window.
    pub window: WindowId,
    /// Its readings, oldest first.
    pub points: Vec<QuotaSnapshot>,
}

/// Whether a series is that of one window of one account.
pub open spec fn is_of(series: Series, account: Seq<char>, window: Seq<char>) -> bool {
    series.account@ == account && series.window@ == window
}

/// The readings held for one window of one account.
pub open spec fn held(all: Seq<Series>, account: Seq<char>, window: Seq<char>) -> Seq<
    QuotaSnapshot,
>
    decreases all.len(),
{
    if all.len() == 0 {
        Seq::empty()
    } else if is_of(all.last(), account, window) {
        all.last().points@
    } else {
        held(all.drop_last(), account, window)
    }
}

/// Whether no window has two series.
pub open spec fn unique(all: Seq<Series>) -> bool {
    forall|i: int, j: int|
        0 <= i < j < all.len() ==> !is_of(
            #[trigger] all[j],
            (#[trigger] all[i]).account@,
            all[i].window@,
        )
}

proof fn held_at(all: Seq<Series>, account: Seq<char>, window: Seq<char>, i: int)
    requires
        unique(all),
        0 <= i < all.len(),
        is_of(all[i], account, window),
    ensures
        held(all, account, window) == all[i].points@,
    decreases all.len(),
{
    if i < all.len() - 1 {
        assert(!is_of(all.last(), all[i].account@, all[i].window@));
        assert(unique(all.drop_last()));
        held_at(all.drop_last(), account, window, i);
    }
}

proof fn held_nowhere(all: Seq<Series>, account: Seq<char>, window: Seq<char>)
    requires
        forall|i: int| 0 <= i < all.len() ==> !is_of(#[trigger] all[i], account, window),
    ensures
        held(all, account, window) == Seq::<QuotaSnapshot>::empty(),
    decreases all.len(),
{
    if all.len() > 0 {
        held_nowhere(all.drop_last(), account, window);
    }
}

/// One window's readings.
pub fn points<'a>(all: &'a Vec<Series>, account: &AccountId, window: &WindowId) -> (r: &'a [QuotaSnapshot])
    requires
        unique(all@),
    ensures
        r@ == held(all@, account@, window@),
{
    let mut i: usize = 0;
    while i < all.len()
        invariant
            i <= all@.len(),
            unique(all@),
            forall|k: int| 0 <= k < i ==> !is_of(#[trigger] all@[k], account@, window@),
        decreases all@.len() - i,
    {
        if all[i].account.same(account) && all[i].window.same(window) {
            proof {
                held_at(all@, account@, window@, i as int);
            }
            return all[i].points.as_slice();
        }
        i += 1;
    }
    proof {
        held_nowhere(all@, account@, window@);
    }
    &[]
}

/// Add one reading to its window's series, starting one where there is none.
fn add_point(all: &mut Vec<Series>, account: &AccountId, snapshot: QuotaSnapshot)
    requires
        unique(old(all)@),
    ensures
        unique(final(all)@),
        forall|a: Seq<char>, w: Seq<char>| #[trigger]
            held(final(all)@, a, w) == if a == account@ && w == snapshot.window@ {
                held(old(all)@, a, w).push(snapshot)
            } else {
                held(old(all)@, a, w)
            },
{
    let ghost before = all@;
    let mut i: usize = 0;
    while i < all.len()
        invariant
            i <= all@.len(),
            all@ == before,
            before == old(all)@,
            unique(before),
            forall|k: int| 0 <= k < i ==> !is_of(#[trigger] all@[k], account@, snapshot.window@),
        decreases all@.len() - i,
    {
        if all[i].account.same(account) && all[i].window.same(&snapshot.window) {
            let ghost s = snapshot;
            let mut series = all.swap_remove(i);
            let ghost without = all@;
            let ghost old_series = series;
            series.points.push(snapshot);
            let ghost new_series = series;
            all.push(series);
            proof {
                let n = before.len() - 1;
                assert(without =~= before.update(i as int, before.last()).drop_last());
                assert forall|a: int, b: int| 0 <= a < b < all@.len() implies !is_of(
                    #[trigger] all@[b],
                    (#[trigger] all@[a]).account@,
                    all@[a].window@,
                ) by {
                    moved_from(before, without, i as int, a);
                    if b < n {
                        moved_from(before, without, i as int, b);
                    }
                }
                assert forall|a: Seq<char>, w: Seq<char>| #[trigger] held(all@, a, w) == if a
                    == account@ && w == s.window@ {
                    held(before, a, w).push(s)
                } else {
                    held(before, a, w)
                } by {
                    assert(all@.drop_last() =~= without);
                    if a == account@ && w == s.window@ {
                        held_at(before, a, w, i as int);
                        held_at(all@, a, w, n);
                    } else {
                        if exists|k: int| 0 <= k < before.len() && is_of(before[k], a, w) {
                            let k = choose|k: int| 0 <= k < before.len() && is_of(before[k], a, w);
                            held_at(before, a, w, k);
                            let at = if k == n {
                                i as int
                            } else {
                                k
                            };
                            assert(without[at] == before[k]);
                            assert(unique(without)) by {
                                assert forall|a: int, b: int|
                                    0 <= a < b < without.len() implies !is_of(
                                    #[trigger] without[b],
                                    (#[trigger] without[a]).account@,
                                    without[a].window@,
                                ) by {
                                    assert(without[a] == all@[a] && without[b] == all@[b]);
                                }
                            }
                            held_at(without, a, w, at);
                        } else {
                            held_nowhere(before, a, w);
                            assert forall|k: int| 0 <= k < without.len() implies !is_of(
                                #[trigger] without[k],
                                a,
                                w,
                            ) by {
                                moved_from(before, without, i as int, k);
                            }
                            held_nowhere(without, a, w);
                        }
                    }
                }
            }
            return;
        }
        i += 1;
    }
    let ghost s = snapshot;
    let window = snapshot.window.clone();
    let mut points: Vec<QuotaSnapshot> = Vec::new();
    points.push(snapshot);
    all.push(Series { account: account.clone(), window, points });
    proof {
        assert(all@.drop_last() =~= before);
        assert forall|a: Seq<char>, w: Seq<char>| #[trigger] held(all@, a, w) == if a == account@
            && w == s.window@ {
            held(before, a, w).push(s)
        } else {
            held(before, a, w)
        } by {
            if a == account@ && w == s.window@ {
                held_nowhere(before, a, w);
            }
        }
    }
}

proof fn moved_from(before: Seq<Series>, without: Seq<Series>, i: int, k: int)
    requires
        0 <= i < before.len(),
        without == before.update(i, before.last()).drop_last(),
        0 <= k < without.len(),
    ensures
        k == i ==> without[k] == before.last() && before.len() - 1 != i,
        k != i ==> without[k] == before[k],
{
}

/// Install one account's recent history, sorted into its windows.
///
/// Replaces everything held for that account, so a window the daemon has
/// stopped reporting leaves with its series rather than freezing a rate that
/// no longer has data behind it.
pub fn install(all: &mut Vec<Series>, account: &AccountId, snapshots: Vec<QuotaSnapshot>)
    requires
        unique(old(all)@),
    ensures
        unique(final(all)@),
        forall|a: Seq<char>, w: Seq<char>| #[trigger]
            held(final(all)@, a, w) == if a == account@ {
                domain::readings_of(snapshots@, w)
            } else {
                held(old(all)@, a, w)
            },
{
    forget(all, account);
    let ghost kept = all@;
    let ghost given = snapshots@;
    let mut left = snapshots;
    let mut queue: Vec<QuotaSnapshot> = Vec::new();
    while left.len() > 0
        invariant
            left@.len() <= given.len(),
            left@ == given.take(left@.len() as int),
            queue@.len() == given.len() - left@.len(),
            forall|k: int|
                0 <= k < queue@.len() ==> #[trigger] queue@[k] == given[given.len() - 1 - k],
        decreases left@.len(),
    {
        let last = left.pop();
        if let Some(s) = last {
            queue.push(s);
        }
    }
    let ghost mut done: int = 0;
    assert(given.take(0) =~= Seq::empty());
    assert forall|w: Seq<char>| #[trigger]
        domain::readings_of(given.take(0), w) == Seq::<QuotaSnapshot>::empty() by {
        domain::readings_of_nothing(w);
    }
    while queue.len() > 0
        invariant
            unique(all@),
            0 <= done,
            done + queue@.len() == given.len(),
            forall|k: int|
                0 <= k < queue@.len() ==> #[trigger] queue@[k] == given[given.len() - 1 - k],
            forall|w: Seq<char>| held(kept, account@, w) == Seq::<QuotaSnapshot>::empty(),
            forall|a: Seq<char>, w: Seq<char>| #[trigger]
                held(all@, a, w) == if a == account@ {
                    domain::readings_of(given.take(done), w)
                } else {
                    held(kept, a, w)
                },
        decreases queue@.len(),
    {
        let next = queue.pop();
        if let Some(s) = next {
            proof {
                assert(s == given[done]);
                assert(given.take(done + 1) =~= given.take(done).push(s));
                assert forall|w: Seq<char>| #[trigger]
                    domain::readings_of(given.take(done + 1), w) == if s.window@ == w {
                        domain::readings_of(given.take(done), w).push(s)
                    } else {
                        domain::readings_of(given.take(done), w)
                    } by {
                    domain::readings_of_push(given.take(done), s, w);
                }
                done = done + 1;
            }
            add_point(all, account, s);
        }
    }
    assert(given.take(done) =~= given);
}

/// Drop every series of one account.
fn forget(all: &mut Vec<Series>, account: &AccountId)
    requires
        unique(old(all)@),
    ensures
        unique(final(all)@),
        forall|a: Seq<char>, w: Seq<char>| #[trigger]
            held(final(all)@, a, w) == if a == account@ {
                Seq::<QuotaSnapshot>::empty()
            } else {
                held(old(all)@, a, w)
            },
{
    let ghost before = all@;
    let mut i: usize = 0;
    while i < all.len()
        invariant
            i <= all@.len(),
            unique(all@),
            before == old(all)@,
            forall|k: int| 0 <= k < i ==> (#[trigger] all@[k]).account@ != account@,
            forall|a: Seq<char>, w: Seq<char>|
                a != account@ ==> #[trigger] held(all@, a, w) == held(before, a, w),
        decreases all@.len() - i,
    {
        if all[i].account.same(account) {
            let ghost had = all@;
            let removed = all.remove(i);
            proof {
                assert forall|a: int, b: int| 0 <= a < b < all@.len() implies !is_of(
                    #[trigger] all@[b],
                    (#[trigger] all@[a]).account@,
                    all@[a].window@,
                ) by {
                    let x = if a < i {
                        a
                    } else {
                        a + 1
                    };
                    let y = if b < i {
                        b
                    } else {
                        b + 1
                    };
                    assert(!is_of(had[y], had[x].account@, had[x].window@));
                }
                assert forall|a: Seq<char>, w: Seq<char>| a != account@ implies #[trigger] held(
                    all@,
                    a,
                    w,
                ) == held(before, a, w) by {
                    if exists|k: int| 0 <= k < had.len() && is_of(had[k], a, w) {
                        let k = choose|k: int| 0 <= k < had.len() && is_of(had[k], a, w);
                        held_at(had, a, w, k);
                        let at = if k < i {
                            k
                        } else {
                            k - 1
                        };
                        assert(all@[at] == had[k]);
                        held_at(all@, a, w, at);
                    } else {
                        held_nowhere(had, a, w);
                        assert forall|k: int| 0 <= k < all@.len() implies !is_of(
                            #[trigger] all@[k],
                            a,
                            w,
                        ) by {
                            let at = if k < i {
                                k
                            } else {
                                k + 1
                            };
                            assert(all@[k] == had[at]);
                        }
                        held_nowhere(all@, a, w);
                    }
                    assert(held(had, a, w) == held(before, a, w));
                }
            }
        } else {
            i += 1;
        }
    }
    proof {
        assert forall|a: Seq<char>, w: Seq<char>| a == account@ implies #[trigger] held(
            all@,
            a,
            w,
        ) == Seq::<QuotaSnapshot>::empty() by {
            held_nowhere(all@, a, w);
        }
    }
}

/// What is held of a window is its own series: the points of the one series of
/// that account and window, or nothing if there is none.
pub proof fn what_is_held_is_the_windows_own(
    all: Seq<Series>,
    account: Seq<char>,
    window: Seq<char>,
    i: int,
)
    ensures
        unique(all) && 0 <= i < all.len() && all[i].account@ == account && all[i].window@ == window
            ==> held(all, account, window) == all[i].points@,
        (forall|k: int|
            0 <= k < all.len() ==> !((#[trigger] all[k]).account@ == account && all[k].window@
                == window)) ==> held(all, account, window).len() == 0,
    decreases all.len(),
{
    if all.len() > 0 {
        let rest = all.drop_last();
        what_is_held_is_the_windows_own(rest, account, window, i);
        if unique(all) {
            assert(unique(rest)) by {
                assert forall|a: int, b: int| 0 <= a < b < rest.len() implies !is_of(
                    #[trigger] rest[b],
                    (#[trigger] rest[a]).account@,
                    rest[a].window@,
                ) by {
                    assert(!is_of(all[b], all[a].account@, all[a].window@));
                }
            }
            if 0 <= i < rest.len() && all[i].account@ == account && all[i].window@ == window {
                assert(!is_of(all[all.len() - 1], all[i].account@, all[i].window@));
                assert(rest[i] == all[i]);
            }
        }
        if forall|k: int|
            0 <= k < all.len() ==> !((#[trigger] all[k]).account@ == account && all[k].window@
                == window) {
            assert forall|k: int| 0 <= k < rest.len() implies !((#[trigger] rest[k]).account@
                == account && rest[k].window@ == window) by {
                assert(rest[k] == all[k]);
            }
            assert(all[all.len() - 1] == all.last());
        }
    }
}

} // verus!
