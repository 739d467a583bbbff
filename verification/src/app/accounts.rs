//! A set of accounts.

use vstd::prelude::*;

use crate::ids::AccountId;

verus! {

/// A set of accounts.
#[derive(Debug)]
pub struct AccountSet {
    ids: Vec<AccountId>,
}

impl View for AccountSet {
    type V = Set<Seq<char>>;

    closed spec fn view(&self) -> Set<Seq<char>> {
        self.names().to_set()
    }
}

impl AccountSet {
    spec fn names(self) -> Seq<Seq<char>> {
        self.ids@.map_values(|id: AccountId| id@)
    }

    /// Whether no account is listed twice.
    pub closed spec fn wf(self) -> bool {
        self.names().no_duplicates()
    }

    /// The empty set.
    pub fn new() -> (r: AccountSet)
        ensures
            r.wf(),
            r@ == Set::<Seq<char>>::empty(),
    {
        let r = AccountSet { ids: Vec::new() };
        assert(r@ =~= Set::<Seq<char>>::empty());
        r
    }

    /// How many accounts the set holds.
    pub fn len(&self) -> (r: usize)
        requires
            self.wf(),
        ensures
            r == self@.len(),
    {
        proof {
            self.names().unique_seq_to_set();
        }
        self.ids.len()
    }

    /// Whether the set holds no account.
    pub fn is_empty(&self) -> (r: bool)
        ensures
            r == (self@ == Set::<Seq<char>>::empty()),
    {
        let r = self.ids.len() == 0;
        proof {
            if r {
                assert(self@ =~= Set::<Seq<char>>::empty());
            } else {
                assert(self@.contains(self.names()[0]));
            }
        }
        r
    }

    /// Whether the set holds `id`.
    pub fn contains(&self, id: &AccountId) -> (r: bool)
        ensures
            r == self@.contains(id@),
    {
        let mut i: usize = 0;
        while i < self.ids.len()
            invariant
                i <= self.ids@.len(),
                forall|k: int| 0 <= k < i ==> #[trigger] self.ids@[k]@ != id@,
            decreases self.ids@.len() - i,
        {
            if self.ids[i].same(id) {
                assert(self.names()[i as int] == id@);
                return true;
            }
            i += 1;
        }
        proof {
            if self@.contains(id@) {
                let k = choose|k: int| 0 <= k < self.names().len() && self.names()[k] == id@;
                assert(self.ids@[k]@ == id@);
            }
        }
        false
    }

    /// Put `id` into the set.
    pub fn insert(&mut self, id: AccountId)
        requires
            old(self).wf(),
        ensures
            final(self).wf(),
            final(self)@ == old(self)@.insert(id@),
    {
        let ghost before = *self;
        if self.contains(&id) {
            assert(self@ =~= self@.insert(id@));
            return;
        }
        let ghost name = id@;
        self.ids.push(id);
        proof {
            assert(self.names() =~= before.names().push(name));
            assert forall|s: Seq<char>| self@.contains(s) <==> before@.insert(name).contains(
                s,
            ) by {
                if self@.contains(s) {
                    let k = choose|k: int| 0 <= k < self.names().len() && self.names()[k] == s;
                    if k < before.names().len() {
                        assert(before.names()[k] == s);
                    }
                }
                if before@.contains(s) {
                    let k = choose|k: int| 0 <= k < before.names().len() && before.names()[k] == s;
                    assert(self.names()[k] == s);
                }
                assert(self.names()[before.names().len() as int] == name);
            }
            assert(self@ =~= before@.insert(name));
            assert(self.wf()) by {
                assert forall|i: int, j: int|
                    0 <= i < j < self.names().len() implies self.names()[i] != self.names()[j] by {
                    if j == before.names().len() && self.names()[i] == name {
                        assert(before.names()[i] == name);
                        assert(before@.contains(name));
                    }
                }
            }
        }
    }

    /// Take `id` out of the set.
    pub fn remove(&mut self, id: &AccountId)
        requires
            old(self).wf(),
        ensures
            final(self).wf(),
            final(self)@ == old(self)@.remove(id@),
    {
        let ghost before = *self;
        let mut i: usize = 0;
        while i < self.ids.len()
            invariant
                i <= self.ids@.len(),
                *self == before,
                before.wf(),
                before == *old(self),
                forall|k: int| 0 <= k < i ==> #[trigger] self.ids@[k]@ != id@,
            decreases self.ids@.len() - i,
        {
            if self.ids[i].same(id) {
                self.ids.remove(i);
                proof {
                    let names = before.names();
                    assert(names[i as int] == id@);
                    assert(self.names() =~= names.remove(i as int));
                    assert forall|s: Seq<char>| self@.contains(s) <==> before@.remove(
                        id@,
                    ).contains(s) by {
                        if self@.contains(s) {
                            let k = choose|k: int|
                                0 <= k < self.names().len() && self.names()[k] == s;
                            let at = if k < i {
                                k
                            } else {
                                k + 1
                            };
                            assert(names[at] == s);
                        }
                        if before@.remove(id@).contains(s) {
                            let k = choose|k: int| 0 <= k < names.len() && names[k] == s;
                            let at = if k < i {
                                k
                            } else {
                                k - 1
                            };
                            assert(self.names()[at] == s);
                        }
                    }
                    assert(self@ =~= before@.remove(id@));
                }
                return;
            }
            i += 1;
        }
        proof {
            if self@.contains(id@) {
                let k = choose|k: int| 0 <= k < self.names().len() && self.names()[k] == id@;
                assert(self.ids@[k]@ == id@);
            }
            assert(self@ =~= before@.remove(id@));
        }
    }
}

} // verus!
