//! The string-keyed bag of protocol fields that the decoder fills and the
//! command builder reads.

use vstd::prelude::*;

use crate::text::str_eq;

verus! {

/// Value bound to `k` in a list of entries: the last entry with that key.
pub open spec fn lookup(entries: Seq<(Seq<char>, Seq<char>)>, k: Seq<char>) -> Option<Seq<char>>
    decreases entries.len(),
{
    if entries.len() == 0 {
        None
    } else if entries.last().0 == k {
        Some(entries.last().1)
    } else {
        lookup(entries.drop_last(), k)
    }
}

/// A map from field names to values. A later `insert` under a key replaces
/// the earlier value, as in a hash map.
#[derive(Clone, Debug)]
pub struct Fields {
    entries: Vec<(String, String)>,
}

impl Fields {
    /// The entries in insertion order.
    pub closed spec fn entries_view(&self) -> Seq<(Seq<char>, Seq<char>)> {
        self.entries@.map_values(|e: (String, String)| (e.0@, e.1@))
    }

    /// The value stored under `k`.
    pub open spec fn get_spec(&self, k: Seq<char>) -> Option<Seq<char>> {
        lookup(self.entries_view(), k)
    }

    pub fn new() -> (r: Fields)
        ensures
            forall|k: Seq<char>| #[trigger] r.get_spec(k) is None,
            r.entries_view() == Seq::<(Seq<char>, Seq<char>)>::empty(),
    {
        let r = Fields { entries: Vec::new() };
        assert(r.entries_view() =~= Seq::empty());
        r
    }

    pub fn insert(&mut self, k: String, v: String)
        ensures
            final(self).get_spec(k@) == Some(v@),
            final(self).entries_view() == old(self).entries_view().push((k@, v@)),
            forall|j: Seq<char>| j != k@ ==> #[trigger] final(self).get_spec(j) == old(self).get_spec(j),
    {
        let ghost kv = k@;
        let ghost vv = v@;
        self.entries.push((k, v));
        assert(self.entries_view().drop_last() =~= old(self).entries_view());
        assert(self.entries_view().last() == (kv, vv));
        assert(self.entries_view() =~= old(self).entries_view().push((kv, vv)));
    }

    /// The value stored under `k`, if any.
    pub fn get(&self, k: &str) -> (r: Option<&String>)
        ensures
            match r {
                Some(v) => self.get_spec(k@) == Some(v@),
                None => self.get_spec(k@) is None,
            },
    {
        let mut i: usize = self.entries.len();
        assert(self.entries_view().take(i as int) =~= self.entries_view());
        while i > 0
            invariant
                i <= self.entries.len(),
                lookup(self.entries_view(), k@) == lookup(self.entries_view().take(i as int), k@),
            decreases i,
        {
            let ghost t = self.entries_view().take(i as int);
            assert(t.drop_last() =~= self.entries_view().take(i - 1));
            assert(t.last() == (self.entries@[i - 1].0@, self.entries@[i - 1].1@));
            if str_eq(self.entries[i - 1].0.as_str(), k) {
                return Some(&self.entries[i - 1].1);
            }
            i = i - 1;
        }
        None
    }

    pub fn is_empty(&self) -> (r: bool)
        ensures
            r == forall|k: Seq<char>| #[trigger] self.get_spec(k) is None,
    {
        if self.entries.len() == 0 {
            assert forall|k: Seq<char>| #[trigger] self.get_spec(k) is None by {
                assert(self.entries_view().len() == 0);
            }
            true
        } else {
            let ghost e = self.entries_view();
            assert(e.len() > 0);
            assert(self.get_spec(e.last().0) is Some);
            false
        }
    }

    /// Whether entry `n` is the first with its key.
    pub open spec fn first_of_key(&self, n: int) -> bool {
        forall|j: int| 0 <= j < n ==> #[trigger] self.entries_view()[j].0 != self.entries_view()[n].0
    }

    /// The number of distinct keys among the first `n` entries.
    pub open spec fn keys_in(&self, n: int) -> nat
        decreases n,
    {
        if n <= 0 {
            0
        } else {
            self.keys_in(n - 1) + if self.first_of_key(n - 1) {
                1nat
            } else {
                0nat
            }
        }
    }

    /// The number of keys that have a value, as a hash map's `len` counts.
    pub fn len(&self) -> (r: usize)
        ensures
            r == self.keys_in(self.entries_view().len() as int),
    {
        let mut count: usize = 0;
        let mut i: usize = 0;
        while i < self.entries.len()
            invariant
                i <= self.entries.len(),
                count == self.keys_in(i as int),
                count <= i,
                self.entries_view().len() == self.entries@.len(),
            decreases self.entries.len() - i,
        {
            let mut j: usize = 0;
            let mut seen = false;
            while j < i
                invariant
                    j <= i,
                    i < self.entries.len(),
                    self.entries_view().len() == self.entries@.len(),
                    seen == exists|k: int| 0 <= k < j && #[trigger] self.entries_view()[k].0
                        == self.entries_view()[i as int].0,
                decreases i - j,
            {
                assert(self.entries_view()[j as int].0 == self.entries@[j as int].0@);
                assert(self.entries_view()[i as int].0 == self.entries@[i as int].0@);
                if str_eq(self.entries[j].0.as_str(), self.entries[i].0.as_str()) {
                    seen = true;
                }
                j = j + 1;
            }
            if !seen {
                count = count + 1;
            }
            i = i + 1;
        }
        count
    }

    /// The entries in insertion order, a replaced value included.
    pub fn entries(&self) -> (r: &Vec<(String, String)>)
        ensures
            r@.map_values(|e: (String, String)| (e.0@, e.1@)) == self.entries_view(),
    {
        &self.entries
    }
}

} // verus!
