//! The record store: a keyed, in-memory collection of bills.
//!
//! A store is a vector of bills whose names are pairwise distinct; its
//! abstract value is the finite map from each name to the stored amount.

use vstd::prelude::*;

verus! {

/// A named bill. The amount is an opaque 64-bit value (for example an
/// IEEE-754 bit pattern): the store never interprets it, and numeric
/// parsing and formatting happen outside the verified core.
#[derive(Debug, PartialEq)]
pub struct Bill {
    pub name: String,
    pub amount: u64,
}

/// The names of the bills in `s` are pairwise distinct.
pub open spec fn distinct_names(s: Seq<Bill>) -> bool {
    forall|i: int, j: int| 0 <= i < j < s.len() ==> s[i].name@ != s[j].name@
}

/// The mapping that a sequence of bills denotes: the bills are inserted in
/// order, so a later entry overrides an earlier one of the same name. This
/// is exactly the fold of the `insert` that `Bills::add` performs.
pub open spec fn map_of(s: Seq<Bill>) -> Map<Seq<char>, u64>
    decreases s.len(),
{
    if s.len() == 0 {
        Map::empty()
    } else {
        map_of(s.drop_last()).insert(s.last().name@, s.last().amount)
    }
}

/// With pairwise-distinct names, `map_of(s)` holds exactly the bills of `s`:
/// one entry per bill, each name mapped to that bill's amount.
proof fn lemma_map_of_exact(s: Seq<Bill>)
    requires
        distinct_names(s),
    ensures
        map_of(s).dom().finite(),
        map_of(s).dom().len() == s.len(),
        forall|k: Seq<char>|
            map_of(s).contains_key(k) <==> (exists|i: int| 0 <= i < s.len() && s[i].name@ == k),
        forall|i: int| 0 <= i < s.len() ==> map_of(s)[#[trigger] s[i].name@] == s[i].amount,
    decreases s.len(),
{
    if s.len() == 0 {
        assert(map_of(s).dom() =~= Set::<Seq<char>>::empty());
    } else {
        let t = s.drop_last();
        let last = s.last();
        assert(distinct_names(t)) by {
            assert(forall|i: int| 0 <= i < t.len() ==> t[i] == s[i]);
        }
        lemma_map_of_exact(t);
        assert(!map_of(t).contains_key(last.name@)) by {
            if map_of(t).contains_key(last.name@) {
                let i = choose|i: int| 0 <= i < t.len() && t[i].name@ == last.name@;
                assert(s[i].name@ == s[s.len() - 1].name@);
                assert(false);
            }
        }
        vstd::set::axiom_set_insert_len(map_of(t).dom(), last.name@);
        assert forall|k: Seq<char>| map_of(s).contains_key(k) implies (exists|i: int|
            0 <= i < s.len() && s[i].name@ == k) by {
            if k == last.name@ {
                assert(0 <= s.len() - 1 < s.len() && s[s.len() - 1].name@ == k);
            } else {
                assert(map_of(t).contains_key(k));
                let i = choose|i: int| 0 <= i < t.len() && t[i].name@ == k;
                assert(0 <= i < s.len() && s[i].name@ == k);
            }
        }
        assert forall|k: Seq<char>| (exists|i: int| 0 <= i < s.len() && s[i].name@ == k)
            implies map_of(s).contains_key(k) by {
            let i = choose|i: int| 0 <= i < s.len() && s[i].name@ == k;
            if i < s.len() - 1 {
                assert(0 <= i < t.len() && t[i].name@ == k);
            }
        }
        assert forall|i: int| 0 <= i < s.len() implies map_of(s)[#[trigger] s[i].name@]
            == s[i].amount by {
            if i < s.len() - 1 {
                assert(s[i].name@ != last.name@);
                assert(t[i].name@ == s[i].name@);
            }
        }
    }
}

/// Overwriting the one bill of a given name replaces that name's entry in
/// the denoted map and nothing else.
proof fn lemma_map_of_update(s: Seq<Bill>, i: int, b: Bill)
    requires
        distinct_names(s),
        0 <= i < s.len(),
        s[i].name@ == b.name@,
    ensures
        distinct_names(s.update(i, b)),
        map_of(s.update(i, b)) == map_of(s).insert(b.name@, b.amount),
{
    let u = s.update(i, b);
    assert(forall|p: int| 0 <= p < u.len() ==> #[trigger] u[p].name@ == s[p].name@);
    lemma_map_of_exact(s);
    lemma_map_of_exact(u);
    let m1 = map_of(u);
    let m2 = map_of(s).insert(b.name@, b.amount);
    assert forall|k: Seq<char>| m1.contains_key(k) implies m2.contains_key(k) by {
        let p = choose|p: int| 0 <= p < u.len() && u[p].name@ == k;
        if k != b.name@ {
            assert(0 <= p < s.len() && s[p].name@ == k);
        }
    }
    assert forall|k: Seq<char>| m2.contains_key(k) implies m1.contains_key(k) by {
        if k == b.name@ {
            assert(0 <= i < u.len() && u[i].name@ == k);
        } else {
            let p = choose|p: int| 0 <= p < s.len() && s[p].name@ == k;
            assert(0 <= p < u.len() && u[p].name@ == k);
        }
    }
    assert forall|k: Seq<char>| m1.contains_key(k) implies m1[k] == m2[k] by {
        let p = choose|p: int| 0 <= p < u.len() && u[p].name@ == k;
        if k == b.name@ {
            if p != i {
                assert(u[p].name@ == u[i].name@);
                assert(false);
            }
            assert(m1[u[i].name@] == u[i].amount);
        } else {
            assert(p != i);
            assert(m1[u[p].name@] == u[p].amount);
            assert(0 <= p < s.len() && s[p].name@ == k);
            assert(map_of(s)[s[p].name@] == s[p].amount);
        }
    }
    assert(m1.dom() =~= m2.dom());
    assert(m1 =~= m2);
}

/// Removing the one bill of a given name removes that name's entry from
/// the denoted map and nothing else.
proof fn lemma_map_of_remove(s: Seq<Bill>, i: int)
    requires
        distinct_names(s),
        0 <= i < s.len(),
    ensures
        distinct_names(s.remove(i)),
        map_of(s.remove(i)) == map_of(s).remove(s[i].name@),
{
    let u = s.remove(i);
    assert(forall|p: int| 0 <= p < u.len() ==> #[trigger] u[p] == (if p < i {
        s[p]
    } else {
        s[p + 1]
    }));
    assert(distinct_names(u)) by {
        assert forall|p: int, q: int| 0 <= p < q < u.len() implies u[p].name@ != u[q].name@ by {
            let sp = if p < i { p } else { p + 1 };
            let sq = if q < i { q } else { q + 1 };
            assert(u[p] == s[sp] && u[q] == s[sq] && 0 <= sp < sq < s.len());
        }
    }
    lemma_map_of_exact(s);
    lemma_map_of_exact(u);
    let m1 = map_of(u);
    let m2 = map_of(s).remove(s[i].name@);
    assert forall|k: Seq<char>| m1.contains_key(k) implies m2.contains_key(k) by {
        let p = choose|p: int| 0 <= p < u.len() && u[p].name@ == k;
        let sp = if p < i { p } else { p + 1 };
        assert(0 <= sp < s.len() && s[sp].name@ == k);
        assert(k != s[i].name@) by {
            if k == s[i].name@ {
                assert(s[sp].name@ == s[i].name@ && sp != i);
                assert(false);
            }
        }
    }
    assert forall|k: Seq<char>| m2.contains_key(k) implies m1.contains_key(k) by {
        let p = choose|p: int| 0 <= p < s.len() && s[p].name@ == k;
        assert(p != i);
        let up = if p < i { p } else { p - 1 };
        assert(0 <= up < u.len() && u[up].name@ == k);
    }
    assert forall|k: Seq<char>| m1.contains_key(k) implies m1[k] == m2[k] by {
        let p = choose|p: int| 0 <= p < u.len() && u[p].name@ == k;
        let sp = if p < i { p } else { p + 1 };
        assert(m1[u[p].name@] == u[p].amount);
        assert(0 <= sp < s.len() && s[sp].name@ == k);
        assert(map_of(s)[s[sp].name@] == s[sp].amount);
        assert(k != s[i].name@) by {
            if k == s[i].name@ {
                assert(s[sp].name@ == s[i].name@ && sp != i);
                assert(false);
            }
        }
    }
    assert(m1.dom() =~= m2.dom());
    assert(m1 =~= m2);
}

/// Appending a bill of a fresh name adds exactly that entry to the
/// denoted map.
proof fn lemma_map_of_push(s: Seq<Bill>, b: Bill)
    requires
        distinct_names(s),
        forall|i: int| 0 <= i < s.len() ==> s[i].name@ != b.name@,
    ensures
        distinct_names(s.push(b)),
        map_of(s.push(b)) == map_of(s).insert(b.name@, b.amount),
{
    let u = s.push(b);
    assert(u.drop_last() =~= s);
    assert(u.last() == b);
    assert(distinct_names(u)) by {
        assert forall|p: int, q: int| 0 <= p < q < u.len() implies u[p].name@ != u[q].name@ by {
            assert(u[p] == s[p]);
            if q < u.len() - 1 {
                assert(u[q] == s[q]);
            }
        }
    }
    assert(map_of(u) == map_of(u.drop_last()).insert(u.last().name@, u.last().amount));
}

/// The record store: at most one bill per distinct name.
pub struct Bills {
    inner: Vec<Bill>,
}

impl View for Bills {
    type V = Map<Seq<char>, u64>;

    closed spec fn view(&self) -> Map<Seq<char>, u64> {
        map_of(self.inner@)
    }
}

impl Bills {
    /// The representation invariant: stored names are pairwise distinct.
    /// `new` establishes it and every method preserves it.
    pub closed spec fn wf(&self) -> bool {
        distinct_names(self.inner@)
    }

    /// Creates an empty store.
    pub fn new() -> (r: Bills)
        ensures
            r.wf(),
            r@ == Map::<Seq<char>, u64>::empty(),
    {
        let r = Bills { inner: Vec::new() };
        proof {
            assert(r@ =~= Map::<Seq<char>, u64>::empty());
        }
        r
    }

    /// The index of the bill named `name`, if any.
    fn find(&self, name: &str) -> (r: Option<usize>)
        ensures
            match r {
                Option::Some(i) => i < self.inner@.len() && self.inner@[i as int].name@ == name@,
                Option::None => forall|j: int|
                    0 <= j < self.inner@.len() ==> self.inner@[j].name@ != name@,
            },
    {
        let key: String = name.to_owned();
        let n = self.inner.len();
        let mut i: usize = 0;
        while i < n
            invariant
                n == self.inner@.len(),
                i <= n,
                key@ == name@,
                forall|j: int| 0 <= j < i ==> self.inner@[j].name@ != name@,
            decreases n - i,
        {
            if self.inner[i].name == key {
                return Option::Some(i);
            }
            i = i + 1;
        }
        Option::None
    }

    /// Inserts `bill` under its name, replacing any entry of the same name.
    pub fn add(&mut self, bill: Bill)
        requires
            old(self).wf(),
        ensures
            final(self).wf(),
            final(self)@ == old(self)@.insert(bill.name@, bill.amount),
    {
        match self.find(bill.name.as_str()) {
            Option::Some(i) => {
                proof {
                    lemma_map_of_update(self.inner@, i as int, bill);
                }
                self.inner[i] = bill;
            },
            Option::None => {
                proof {
                    lemma_map_of_push(self.inner@, bill);
                }
                self.inner.push(bill);
            },
        }
    }

    /// Whether the store holds no bills.
    pub fn is_empty(&self) -> (r: bool)
        requires
            self.wf(),
        ensures
            r <==> self@.dom().len() == 0,
    {
        proof {
            lemma_map_of_exact(self.inner@);
        }
        self.inner.len() == 0
    }

    /// A snapshot of all stored bills: one per entry of the store's map,
    /// with pairwise-distinct names, in unspecified order.
    pub fn get_all(&self) -> (r: Vec<Bill>)
        requires
            self.wf(),
        ensures
            r@.len() == self@.dom().len(),
            forall|i: int|
                0 <= i < r@.len() ==> self@.contains_pair(#[trigger] r@[i].name@, r@[i].amount),
            forall|i: int, j: int| 0 <= i < j < r@.len() ==> r@[i].name@ != r@[j].name@,
            forall|k: Seq<char>|
                self@.contains_key(k) ==> exists|i: int| 0 <= i < r@.len() && r@[i].name@ == k,
    {
        let n = self.inner.len();
        let mut r: Vec<Bill> = Vec::new();
        let mut i: usize = 0;
        while i < n
            invariant
                n == self.inner@.len(),
                i <= n,
                r@.len() == i,
                forall|j: int|
                    0 <= j < i ==> #[trigger] r@[j].name@ == self.inner@[j].name@ && r@[j].amount
                        == self.inner@[j].amount,
            decreases n - i,
        {
            let nm = self.inner[i].name.clone();
            let am = self.inner[i].amount;
            r.push(Bill { name: nm, amount: am });
            i = i + 1;
        }
        proof {
            lemma_map_of_exact(self.inner@);
            assert forall|k: Seq<char>| self@.contains_key(k) implies (exists|i: int|
                0 <= i < r@.len() && r@[i].name@ == k) by {
                let i = choose|i: int| 0 <= i < self.inner@.len() && self.inner@[i].name@ == k;
                assert(0 <= i < r@.len() && r@[i].name@ == k);
            }
        }
        r
    }

    /// If a bill named `name` exists, sets its amount to `amount` and
    /// returns the updated bill; otherwise leaves the store unchanged and
    /// returns nothing.
    pub fn update(&mut self, name: &str, amount: u64) -> (r: Option<Bill>)
        requires
            old(self).wf(),
        ensures
            final(self).wf(),
            old(self)@.contains_key(name@) ==> final(self)@ == old(self)@.insert(name@, amount)
                && (r matches Option::Some(b) && b.name@ == name@ && b.amount == amount),
            !old(self)@.contains_key(name@) ==> final(self)@ == old(self)@ && r is None,
    {
        proof {
            lemma_map_of_exact(self.inner@);
        }
        match self.find(name) {
            Option::None => Option::None,
            Option::Some(i) => {
                let nm = self.inner[i].name.clone();
                let nm2 = nm.clone();
                let newb = Bill { name: nm, amount };
                proof {
                    lemma_map_of_update(self.inner@, i as int, newb);
                }
                self.inner[i] = newb;
                Option::Some(Bill { name: nm2, amount })
            },
        }
    }

    /// If a bill named `name` exists, deletes and returns it; otherwise
    /// leaves the store unchanged and returns nothing.
    pub fn remove(&mut self, name: &str) -> (r: Option<Bill>)
        requires
            old(self).wf(),
        ensures
            final(self).wf(),
            old(self)@.contains_key(name@) ==> final(self)@ == old(self)@.remove(name@)
                && (r matches Option::Some(b) && b.name@ == name@ && b.amount == old(
                self,
            )@[name@]),
            !old(self)@.contains_key(name@) ==> final(self)@ == old(self)@ && r is None,
    {
        proof {
            lemma_map_of_exact(self.inner@);
        }
        match self.find(name) {
            Option::None => Option::None,
            Option::Some(i) => {
                proof {
                    lemma_map_of_remove(self.inner@, i as int);
                }
                let b = self.inner.remove(i);
                Option::Some(b)
            },
        }
    }
}

/// Law: a store built by adding bills with pairwise-distinct names holds
/// exactly those bills. `map_of` is the fold of the `insert` that each
/// `add` performs on the abstract map, starting from the empty map of a
/// fresh store.
pub proof fn lemma_distinct_adds_exact(s: Seq<Bill>)
    requires
        distinct_names(s),
    ensures
        map_of(s).dom().finite(),
        map_of(s).dom().len() == s.len(),
        forall|i: int|
            0 <= i < s.len() ==> map_of(s).contains_pair(#[trigger] s[i].name@, s[i].amount),
        forall|k: Seq<char>|
            map_of(s).contains_key(k) ==> exists|i: int| 0 <= i < s.len() && s[i].name@ == k,
{
    lemma_map_of_exact(s);
}

/// Law: adding a bill under a name that is already present replaces that
/// entry — same key set, same size, new amount — and touches no other entry.
pub proof fn lemma_add_existing_replaces(m: Map<Seq<char>, u64>, name: Seq<char>, amount: u64)
    requires
        m.dom().finite(),
        m.contains_key(name),
    ensures
        m.insert(name, amount).contains_pair(name, amount),
        m.insert(name, amount).dom().len() == m.dom().len(),
        forall|k: Seq<char>| m.insert(name, amount).contains_key(k) <==> m.contains_key(k),
        forall|k: Seq<char>|
            k != name && m.contains_key(k) ==> m.insert(name, amount)[k] == m[k],
{
    vstd::set::axiom_set_insert_len(m.dom(), name);
    assert(m.dom().insert(name) =~= m.dom());
}

} // verus!
