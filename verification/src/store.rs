//! The order store: the authoritative mapping from order identifier to
//! `Order` record. It is modelled as a mathematical map from the
//! identifier's character sequence to the record's view; `insert` replaces
//! silently and `get` returns a full copy of the stored record or reports
//! that the key is absent.

use vstd::prelude::*;
use vstd::string::*;
use crate::order::{Order, OrderView};

verus! {

/// One stored record together with its key.
pub struct Entry {
    pub uid: String,
    pub order: Order,
}

/// The map denoted by a sequence of entries: later entries win, so the
/// sequence reads as an insertion log.
pub open spec fn map_of(s: Seq<Entry>) -> Map<Seq<char>, OrderView>
    decreases s.len(),
{
    if s.len() == 0 {
        Map::empty()
    } else {
        map_of(s.drop_last()).insert(s.last().uid@, s.last().order@)
    }
}

/// No two entries share a key.
pub open spec fn uids_distinct(s: Seq<Entry>) -> bool {
    forall|i: int, j: int| 0 <= i < j < s.len() ==> s[i].uid@ != s[j].uid@
}

/// The process-wide holder of order records, keyed by `order_uid`.
/// Its view is the map from identifier to record view.
pub struct OrderStore {
    entries: Vec<Entry>,
}

impl View for OrderStore {
    type V = Map<Seq<char>, OrderView>;

    closed spec fn view(&self) -> Map<Seq<char>, OrderView> {
        map_of(self.entries@)
    }
}

proof fn lemma_map_of_found(s: Seq<Entry>, i: int)
    requires
        uids_distinct(s),
        0 <= i < s.len(),
    ensures
        map_of(s).contains_key(s[i].uid@),
        map_of(s)[s[i].uid@] == s[i].order@,
    decreases s.len(),
{
    if i < s.len() - 1 {
        assert(uids_distinct(s.drop_last()));
        lemma_map_of_found(s.drop_last(), i);
        assert(s[i].uid@ != s.last().uid@);
    }
}

proof fn lemma_map_of_absent(s: Seq<Entry>, k: Seq<char>)
    requires
        forall|i: int| 0 <= i < s.len() ==> s[i].uid@ != k,
    ensures
        !map_of(s).contains_key(k),
    decreases s.len(),
{
    if s.len() > 0 {
        lemma_map_of_absent(s.drop_last(), k);
    }
}

proof fn lemma_map_of_update(s: Seq<Entry>, i: int, e: Entry)
    requires
        uids_distinct(s),
        0 <= i < s.len(),
        e.uid@ == s[i].uid@,
    ensures
        map_of(s.update(i, e)) == map_of(s).insert(e.uid@, e.order@),
    decreases s.len(),
{
    let t = s.update(i, e);
    if i == s.len() - 1 {
        assert(t.drop_last() =~= s.drop_last());
        assert(map_of(t) =~= map_of(s).insert(e.uid@, e.order@));
    } else {
        assert(t.drop_last() =~= s.drop_last().update(i, e));
        assert(uids_distinct(s.drop_last()));
        lemma_map_of_update(s.drop_last(), i, e);
        assert(s[i].uid@ != s.last().uid@);
        assert(t.last() == s.last());
        assert(map_of(t) =~= map_of(s).insert(e.uid@, e.order@));
    }
}

impl OrderStore {
    /// Internal well-formedness: no two entries share a key. Established
    /// by `new`, preserved by `insert`; callers only carry it along.
    pub closed spec fn well_formed(&self) -> bool {
        uids_distinct(self.entries@)
    }

    /// Creates an empty store: no identifier maps to anything.
    pub fn new() -> (res: Self)
        ensures
            res.well_formed(),
            res@ == Map::<Seq<char>, OrderView>::empty(),
    {
        let res = OrderStore { entries: Vec::new() };
        proof {
            assert(res@ =~= Map::<Seq<char>, OrderView>::empty());
        }
        res
    }

    /// Inserts or replaces the record for `uid`. Overwrites silently when
    /// the key already exists; always succeeds. The record becomes visible
    /// to every subsequent lookup.
    pub fn insert(&mut self, uid: String, order: Order)
        requires
            old(self).well_formed(),
            uid@.len() > 0,
        ensures
            final(self).well_formed(),
            final(self)@ == old(self)@.insert(uid@, order@),
    {
        let n = self.entries.len();
        let mut i: usize = 0;
        while i < n
            invariant
                self.entries@ == old(self).entries@,
                uids_distinct(self.entries@),
                n == self.entries@.len(),
                i <= n,
                forall|j: int| 0 <= j < i ==> self.entries@[j].uid@ != uid@,
            decreases n - i,
        {
            if self.entries[i].uid == uid {
                let ghost old_entries = self.entries@;
                let e = Entry { uid, order };
                self.entries.set(i, e);
                proof {
                    assert forall|p: int, q: int|
                        0 <= p < q < self.entries@.len() implies self.entries@[p].uid@
                        != self.entries@[q].uid@ by {
                        assert(old_entries[p].uid@ != old_entries[q].uid@);
                    }
                    lemma_map_of_update(old_entries, i as int, self.entries@[i as int]);
                }
                return ;
            }
            i = i + 1;
        }
        let ghost old_entries = self.entries@;
        self.entries.push(Entry { uid, order });
        proof {
            assert(self.entries@.drop_last() =~= old_entries);
            assert forall|p: int, q: int|
                0 <= p < q < self.entries@.len() implies self.entries@[p].uid@
                != self.entries@[q].uid@ by {
                if q < self.entries@.len() - 1 {
                    assert(old_entries[p].uid@ != old_entries[q].uid@);
                }
            }
        }
    }

    /// Looks the identifier up: a full copy of the stored record when the
    /// key is present, `None` when it is absent. Absence is a normal
    /// outcome, not an error.
    pub fn get(&self, uid: &str) -> (res: Option<Order>)
        requires
            self.well_formed(),
        ensures
            match res {
                Some(order) => self@.contains_key(uid@) && order@ == self@[uid@],
                None => !self@.contains_key(uid@),
            },
    {
        let key = String::from_str(uid);
        let n = self.entries.len();
        let mut i: usize = 0;
        while i < n
            invariant
                uids_distinct(self.entries@),
                self@ == map_of(self.entries@),
                n == self.entries@.len(),
                i <= n,
                key@ == uid@,
                forall|j: int| 0 <= j < i ==> self.entries@[j].uid@ != uid@,
            decreases n - i,
        {
            if self.entries[i].uid == key {
                proof {
                    lemma_map_of_found(self.entries@, i as int);
                }
                return Some(self.entries[i].order.clone());
            }
            i = i + 1;
        }
        proof {
            lemma_map_of_absent(self.entries@, uid@);
        }
        None
    }

    /// The number of records held.
    pub fn len(&self) -> (res: usize)
        requires
            self.well_formed(),
        ensures
            res == self@.len(),
    {
        proof {
            lemma_map_of_len(self.entries@);
        }
        self.entries.len()
    }
}

proof fn lemma_map_of_len(s: Seq<Entry>)
    requires
        uids_distinct(s),
    ensures
        map_of(s).len() == s.len(),
        map_of(s).dom().finite(),
    decreases s.len(),
{
    if s.len() > 0 {
        assert(uids_distinct(s.drop_last()));
        lemma_map_of_len(s.drop_last());
        lemma_map_of_absent(s.drop_last(), s.last().uid@);
    }
}

/// Law: a lookup after an insert under the same key yields exactly the
/// record inserted, in all fields, whichever task performs the lookup.
pub proof fn lemma_insert_then_get(
    m: Map<Seq<char>, OrderView>,
    k: Seq<char>,
    v: OrderView,
)
    ensures
        m.insert(k, v).contains_key(k),
        m.insert(k, v)[k] == v,
{
}

/// Law: two inserts under one key leave the second record; the first is
/// gone without trace (last write wins, no merge).
pub proof fn lemma_last_write_wins(
    m: Map<Seq<char>, OrderView>,
    k: Seq<char>,
    v1: OrderView,
    v2: OrderView,
)
    ensures
        m.insert(k, v1).insert(k, v2) == m.insert(k, v2),
{
    assert(m.insert(k, v1).insert(k, v2) =~= m.insert(k, v2));
}

/// Law: a key never inserted stays absent: a fresh store holds nothing,
/// and an insert under a different key cannot make a key present.
pub proof fn lemma_absent_key_stays_absent(
    m: Map<Seq<char>, OrderView>,
    k: Seq<char>,
    other: Seq<char>,
    v: OrderView,
)
    requires
        !m.contains_key(k),
        other != k,
    ensures
        !Map::<Seq<char>, OrderView>::empty().contains_key(k),
        !m.insert(other, v).contains_key(k),
{
}

} // verus!
