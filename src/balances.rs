use vstd::prelude::*;
use std::collections::HashMap;

use crate::AccountId;

verus! {

broadcast use vstd::std_specs::hash::group_hash_axioms;

/// Sum of the balances in `m` of the accounts listed in `holders`.
pub open spec fn sum_over(holders: Seq<AccountId>, m: Map<AccountId, u128>) -> int
    decreases holders.len(),
{
    if holders.len() == 0 {
        0
    } else {
        sum_over(holders.drop_last(), m) + m[holders.last()]
    }
}

proof fn lemma_sum_insert_absent(holders: Seq<AccountId>, m: Map<AccountId, u128>, a: AccountId, v: u128)
    requires
        !holders.contains(a),
    ensures
        sum_over(holders, m.insert(a, v)) == sum_over(holders, m),
    decreases holders.len(),
{
    if holders.len() > 0 {
        assert(!holders.drop_last().contains(a)) by {
            if holders.drop_last().contains(a) {
                let j = choose|j: int| 0 <= j < holders.drop_last().len() && holders.drop_last()[j] == a;
                assert(holders[j] == a);
            }
        }
        lemma_sum_insert_absent(holders.drop_last(), m, a, v);
        assert(holders.last() != a) by {
            assert(holders[holders.len() - 1] == holders.last());
        }
    }
}

proof fn lemma_sum_insert_present(holders: Seq<AccountId>, m: Map<AccountId, u128>, a: AccountId, v: u128)
    requires
        holders.contains(a),
        holders.no_duplicates(),
    ensures
        sum_over(holders, m.insert(a, v)) == sum_over(holders, m) - m[a] + v,
    decreases holders.len(),
{
    let init = holders.drop_last();
    assert(init.no_duplicates()) by {
        assert forall|i: int, j: int| 0 <= i < init.len() && 0 <= j < init.len() && i != j implies init[i]
            != init[j] by {
            assert(init[i] == holders[i] && init[j] == holders[j]);
        }
    }
    if holders.last() == a {
        assert(!init.contains(a)) by {
            if init.contains(a) {
                let j = choose|j: int| 0 <= j < init.len() && init[j] == a;
                assert(holders[j] == a && holders[holders.len() - 1] == a);
            }
        }
        lemma_sum_insert_absent(init, m, a, v);
    } else {
        assert(init.contains(a)) by {
            let j = choose|j: int| 0 <= j < holders.len() && holders[j] == a;
            assert(j != holders.len() - 1);
            assert(init[j] == a);
        }
        lemma_sum_insert_present(init, m, a, v);
    }
}

proof fn lemma_sum_bounds(holders: Seq<AccountId>, m: Map<AccountId, u128>, a: AccountId, b: AccountId)
    requires
        holders.contains(a),
        holders.no_duplicates(),
    ensures
        m[a] <= sum_over(holders, m),
        a != b && holders.contains(b) ==> m[a] + m[b] <= sum_over(holders, m),
{
    lemma_sum_insert_present(holders, m, a, 0);
    lemma_sum_nonneg(holders, m.insert(a, 0));
    if a != b && holders.contains(b) {
        let m0 = m.insert(a, 0);
        lemma_sum_insert_present(holders, m0, b, 0);
        lemma_sum_nonneg(holders, m0.insert(b, 0));
        assert(m0[b] == m[b]);
    }
}

proof fn lemma_sum_nonneg(holders: Seq<AccountId>, m: Map<AccountId, u128>)
    ensures
        sum_over(holders, m) >= 0,
    decreases holders.len(),
{
    if holders.len() > 0 {
        lemma_sum_nonneg(holders.drop_last(), m);
    }
}

/// Token balances, with the list of every account that ever held a balance.
#[derive(Clone)]
pub struct Balances {
    map: HashMap<AccountId, u128>,
    holders: Vec<AccountId>,
}

impl Balances {
    /// Balance of every account; an absent account holds nothing.
    pub closed spec fn view_map(&self) -> Map<AccountId, u128> {
        self.map@
    }

    pub open spec fn get_spec(&self, a: AccountId) -> u128 {
        if self.view_map().contains_key(a) {
            self.view_map()[a]
        } else {
            0
        }
    }

    /// Sum of all balances.
    pub closed spec fn sum(&self) -> int {
        sum_over(self.holders@, self.map@)
    }

    /// Every account with an entry is listed once.
    pub closed spec fn wf(&self) -> bool {
        &&& self.holders@.no_duplicates()
        &&& forall|a: AccountId| #[trigger] self.map@.contains_key(a) <==> self.holders@.contains(a)
    }

    pub fn new() -> (r: Self)
        ensures
            r.wf(),
            r.sum() == 0,
            r.view_map() == Map::<AccountId, u128>::empty(),
    {
        Balances { map: HashMap::new(), holders: Vec::new() }
    }

    pub fn get(&self, a: AccountId) -> (r: u128)
        ensures
            r == self.get_spec(a),
    {
        match self.map.get(&a) {
            Some(v) => *v,
            None => 0,
        }
    }

    /// No balance exceeds the sum, nor do two balances together.
    pub proof fn lemma_bounded(&self, a: AccountId, b: AccountId)
        requires
            self.wf(),
        ensures
            self.get_spec(a) <= self.sum(),
            a != b ==> self.get_spec(a) + self.get_spec(b) <= self.sum(),
            self.sum() >= 0,
    {
        lemma_sum_nonneg(self.holders@, self.map@);
        if self.map@.contains_key(a) {
            lemma_sum_bounds(self.holders@, self.map@, a, b);
            if a != b && self.map@.contains_key(b) {
            } else if a != b {
            }
        } else if self.map@.contains_key(b) {
            lemma_sum_bounds(self.holders@, self.map@, b, a);
        }
    }

    /// Sets the balance of `a` to `v`.
    pub fn set(&mut self, a: AccountId, v: u128)
        requires
            old(self).wf(),
        ensures
            final(self).wf(),
            final(self).view_map() == old(self).view_map().insert(a, v),
            final(self).sum() == old(self).sum() - old(self).get_spec(a) + v,
    {
        if !self.map.contains_key(&a) {
            proof {
                lemma_sum_insert_absent(self.holders@, self.map@, a, v);
                assert(!self.holders@.contains(a));
            }
            self.holders.push(a);
            self.map.insert(a, v);
            proof {
                let h = self.holders@;
                assert(h.drop_last() == old(self).holders@);
                assert(h.last() == a);
                assert(h.no_duplicates()) by {
                    assert forall|i: int, j: int| 0 <= i < h.len() && 0 <= j < h.len() && i != j implies h[i]
                        != h[j] by {
                        if i < h.len() - 1 && j < h.len() - 1 {
                            assert(old(self).holders@[i] == h[i] && old(self).holders@[j] == h[j]);
                        } else if i == h.len() - 1 {
                            assert(old(self).holders@[j] == h[j]);
                            assert(old(self).holders@.contains(h[j]));
                        } else {
                            assert(old(self).holders@[i] == h[i]);
                            assert(old(self).holders@.contains(h[i]));
                        }
                    }
                }
                assert forall|x: AccountId| #[trigger] self.map@.contains_key(x) <==> h.contains(x) by {
                    if x == a {
                        assert(h[h.len() - 1] == a);
                    } else if h.contains(x) {
                        let j = choose|j: int| 0 <= j < h.len() && h[j] == x;
                        assert(old(self).holders@[j] == x);
                    } else if old(self).holders@.contains(x) {
                        let j = choose|j: int| 0 <= j < old(self).holders@.len() && old(self).holders@[j] == x;
                        assert(h[j] == x);
                    }
                }
            }
        } else {
            proof {
                lemma_sum_insert_present(self.holders@, self.map@, a, v);
            }
            self.map.insert(a, v);
        }
    }
}

} // verus!
