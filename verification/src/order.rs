//! Putting things in time order.

use vstd::prelude::*;

verus! {

/// Something that happened at an instant.
pub trait Timed {
    /// When, in nanoseconds since the epoch.
    spec fn when(&self) -> int;

    /// When, in nanoseconds since the epoch.
    fn when_nanos(&self) -> (r: i128)
        ensures
            r == self.when(),
    ;
}

/// How many things at the front of `sorted` come strictly before `at`.
pub open spec fn place<T: Timed>(sorted: Seq<T>, at: int) -> int
    decreases sorted.len(),
{
    if sorted.len() == 0 || sorted[0].when() >= at {
        0
    } else {
        1 + place(sorted.drop_first(), at)
    }
}

/// Things in time order, oldest first; things of the same instant keep the
/// order they were given in.
pub open spec fn in_order<T: Timed>(s: Seq<T>) -> Seq<T>
    decreases s.len(),
{
    if s.len() == 0 {
        Seq::empty()
    } else {
        let rest = in_order(s.drop_first());
        rest.insert(place(rest, s[0].when()), s[0])
    }
}

/// Whether things are in time order, oldest first.
pub open spec fn is_ordered<T: Timed>(s: Seq<T>) -> bool {
    forall|i: int, j: int|
        0 <= i < j < s.len() ==> (#[trigger] s[i]).when() <= (#[trigger] s[j]).when()
}

proof fn place_splits<T: Timed>(sorted: Seq<T>, at: int)
    ensures
        0 <= place(sorted, at) <= sorted.len(),
        forall|i: int| 0 <= i < place(sorted, at) ==> (#[trigger] sorted[i]).when() < at,
        place(sorted, at) < sorted.len() ==> sorted[place(sorted, at)].when() >= at,
    decreases sorted.len(),
{
    if sorted.len() > 0 && sorted[0].when() < at {
        let rest = sorted.drop_first();
        place_splits(rest, at);
        assert forall|i: int| 0 <= i < place(sorted, at) implies (#[trigger] sorted[i]).when()
            < at by {
            if i > 0 {
                assert(sorted[i] == rest[i - 1]);
            }
        }
    }
}

/// Put things in time order, oldest first, keeping the order of things of the
/// same instant.
pub fn by_time<T: Timed>(items: Vec<T>) -> (r: Vec<T>)
    ensures
        r@ == in_order(items@),
{
    let ghost all = items@;
    let mut left = items;
    let mut out: Vec<T> = Vec::new();
    assert(all.skip(all.len() as int) =~= Seq::empty());
    while left.len() > 0
        invariant
            left@.len() <= all.len(),
            left@ == all.take(left@.len() as int),
            out@ == in_order(all.skip(left@.len() as int)),
        decreases left@.len(),
    {
        let ghost n = left@.len();
        let last = left.pop();
        if let Some(item) = last {
            let at: i128 = item.when_nanos();
            let mut i: usize = 0;
            assert(out@.skip(0) =~= out@);
            while i < out.len() && out[i].when_nanos() < at
                invariant
                    i <= out@.len(),
                    place(out@, at as int) == i + place(out@.skip(i as int), at as int),
                decreases out@.len() - i,
            {
                assert(out@.skip(i as int).drop_first() =~= out@.skip(i + 1));
                i += 1;
            }
            let ghost before = out@;
            out.insert(i, item);
            proof {
                let rest = all.skip(n - 1);
                assert(rest.drop_first() =~= all.skip(n as int));
                assert(rest[0] == item);
                assert(out@ =~= before.insert(i as int, item));
                assert(left@ =~= all.take(n - 1));
            }
        }
    }
    assert(all.skip(0) =~= all);
    out
}

/// Ordering loses and invents nothing.
pub proof fn ordering_keeps_everything<T: Timed>(s: Seq<T>)
    ensures
        in_order(s).to_multiset() == s.to_multiset(),
        in_order(s).len() == s.len(),
    decreases s.len(),
{
    if s.len() > 0 {
        let rest = s.drop_first();
        let sorted = in_order(rest);
        ordering_keeps_everything(rest);
        place_splits(sorted, s[0].when());
        vstd::seq_lib::to_multiset_insert(sorted, place(sorted, s[0].when()), s[0]);
        assert(s =~= rest.insert(0, s[0]));
        vstd::seq_lib::to_multiset_insert(rest, 0, s[0]);
    } else {
        assert(s =~= in_order(s));
    }
}

/// What has been put in order is in order.
pub proof fn ordered_once_put_in_order<T: Timed>(s: Seq<T>)
    ensures
        is_ordered(in_order(s)),
    decreases s.len(),
{
    if s.len() > 0 {
        let sorted = in_order(s.drop_first());
        ordered_once_put_in_order(s.drop_first());
        place_splits(sorted, s[0].when());
        let at = place(sorted, s[0].when());
        let out = in_order(s);
        assert forall|i: int, j: int| 0 <= i < j < out.len() implies (#[trigger] out[i]).when() <= (
        #[trigger] out[j]).when() by {
            let x = if i < at {
                i
            } else {
                i - 1
            };
            let y = if j < at {
                j
            } else {
                j - 1
            };
            if i == at {
                assert(sorted[at].when() <= sorted[y].when());
            } else if j == at {
                assert(sorted[i].when() < s[0].when());
            } else {
                assert(sorted[x].when() <= sorted[y].when());
            }
        }
    }
}

/// What is in order already stays as it is.
pub proof fn order_is_kept<T: Timed>(s: Seq<T>)
    requires
        is_ordered(s),
    ensures
        in_order(s) == s,
    decreases s.len(),
{
    if s.len() > 0 {
        let rest = s.drop_first();
        assert(is_ordered(rest)) by {
            assert forall|i: int, j: int| 0 <= i < j < rest.len() implies (#[trigger] rest[i]).when()
                <= (#[trigger] rest[j]).when() by {
                assert(s[i + 1].when() <= s[j + 1].when());
            }
        }
        order_is_kept(rest);
        if rest.len() > 0 {
            assert(s[0].when() <= s[1].when());
        }
        assert(in_order(s) =~= s);
    } else {
        assert(in_order(s) =~= s);
    }
}

/// Picking some things out of an ordered list gives what ordering those picked
/// gives.
pub proof fn picking_commutes_with_ordering<T: Timed>(s: Seq<T>, pick: spec_fn(T) -> bool)
    ensures
        in_order(s).filter(pick) == in_order(s.filter(pick)),
    decreases s.len(),
{
    if s.len() > 0 {
        let x = s[0];
        let rest = s.drop_first();
        let sorted = in_order(rest);
        picking_commutes_with_ordering(rest, pick);
        place_splits(sorted, x.when());
        let at = place(sorted, x.when());
        let (front, back) = (sorted.take(at), sorted.skip(at));
        assert(sorted =~= front + back);
        assert(in_order(s) =~= (front + seq![x]) + back);
        assert(s =~= seq![x] + rest);
        Seq::filter_distributes_over_add(front, back, pick);
        Seq::filter_distributes_over_add(front + seq![x], back, pick);
        Seq::filter_distributes_over_add(front, seq![x], pick);
        Seq::filter_distributes_over_add(seq![x], rest, pick);
        filter_one(x, pick);
        let picked = sorted.filter(pick);
        if pick(x) {
            let f = front.filter(pick);
            let b = back.filter(pick);
            assert(picked == f + b);
            assert(s.filter(pick) == seq![x] + rest.filter(pick));
            assert(s.filter(pick).drop_first() =~= rest.filter(pick));
            ordered_once_put_in_order(rest);
            place_after_filter(sorted, x.when(), pick);
            assert(place(picked, x.when()) == f.len());
            assert(in_order(s.filter(pick)) == picked.insert(f.len() as int, x));
            assert(in_order(s).filter(pick) =~= picked.insert(f.len() as int, x));
        } else {
            assert(s.filter(pick) =~= rest.filter(pick));
            assert(in_order(s).filter(pick) =~= picked);
        }
    } else {
        reveal(Seq::filter);
        assert(s.filter(pick) =~= s);
        assert(in_order(s).filter(pick) =~= in_order(s.filter(pick)));
    }
}

proof fn filter_one<T>(x: T, pick: spec_fn(T) -> bool)
    ensures
        seq![x].filter(pick) == if pick(x) {
            seq![x]
        } else {
            Seq::empty()
        },
{
    reveal(Seq::filter);
    assert(seq![x].drop_last() =~= Seq::empty());
    assert(Seq::<T>::empty().filter(pick) =~= Seq::empty());
    assert(Seq::<T>::empty().push(x) =~= seq![x]);
}

/// The place of an instant among picked things is after exactly the picked
/// ones that come before it.
proof fn place_after_filter<T: Timed>(sorted: Seq<T>, at: int, pick: spec_fn(T) -> bool)
    requires
        is_ordered(sorted),
    ensures
        place(sorted.filter(pick), at) == sorted.take(place(sorted, at)).filter(pick).len(),
{
    place_splits(sorted, at);
    let p = place(sorted, at);
    let (front, back) = (sorted.take(p), sorted.skip(p));
    assert(sorted =~= front + back);
    Seq::filter_distributes_over_add(front, back, pick);
    let (f, b) = (front.filter(pick), back.filter(pick));
    assert forall|i: int| 0 <= i < f.len() implies (#[trigger] f[i]).when() < at by {
        front.lemma_filter_contains_rev(pick, f[i]);
        let k = choose|k: int| 0 <= k < front.len() && front[k] == f[i];
        assert(sorted[k].when() < at);
    }
    assert forall|i: int| 0 <= i < b.len() implies (#[trigger] b[i]).when() >= at by {
        back.lemma_filter_contains_rev(pick, b[i]);
        let k = choose|k: int| 0 <= k < back.len() && back[k] == b[i];
        assert(sorted[p].when() <= sorted[p + k].when() || k == 0);
    }
    place_is(f + b, at, f.len() as int);
}

proof fn place_is<T: Timed>(s: Seq<T>, at: int, n: int)
    requires
        0 <= n <= s.len(),
        forall|i: int| 0 <= i < n ==> (#[trigger] s[i]).when() < at,
        forall|i: int| n <= i < s.len() ==> (#[trigger] s[i]).when() >= at,
    ensures
        place(s, at) == n,
{
    place_splits(s, at);
    let p = place(s, at);
    if p < n {
        assert(s[p].when() < at);
    }
    if p > n {
        assert(s[n].when() < at);
    }
}

/// The place of an instant among things in order is after exactly those that
/// came before it.
pub proof fn the_place_parts_earlier_from_later<T: Timed>(sorted: Seq<T>, at: int)
    ensures
        0 <= place(sorted, at) <= sorted.len(),
        forall|i: int| 0 <= i < place(sorted, at) ==> (#[trigger] sorted[i]).when() < at,
        is_ordered(sorted) ==> forall|i: int|
            place(sorted, at) <= i < sorted.len() ==> (#[trigger] sorted[i]).when() >= at,
{
    place_splits(sorted, at);
    let p = place(sorted, at);
    if is_ordered(sorted) {
        assert forall|i: int| p <= i < sorted.len() implies (#[trigger] sorted[i]).when() >= at by {
            if i > p {
                assert(sorted[p].when() <= sorted[i].when());
            }
        }
    }
}

} // verus!
