//! The listings a pane has already fetched, by directory path.

use vstd::prelude::*;
use crate::text::copy_rows;

verus! {

/// A listing as sequences: rows of columns of characters.
pub type Rows = Seq<Seq<Seq<char>>>;

/// The map that a list of slots stands for: a later slot for a path
/// overrides an earlier one.
pub open spec fn slots_map(s: Seq<(Seq<char>, Rows)>) -> Map<Seq<char>, Rows>
    decreases s.len(),
{
    if s.len() == 0 {
        Map::empty()
    } else {
        slots_map(s.drop_last()).insert(s.last().0, s.last().1)
    }
}

/// The last slot for `k` is at `i`.
pub open spec fn last_slot(s: Seq<(Seq<char>, Rows)>, k: Seq<char>, i: int) -> bool {
    &&& 0 <= i < s.len()
    &&& s[i].0 == k
    &&& forall|j: int| i < j < s.len() ==> s[j].0 != k
}

proof fn lemma_slots_lookup(s: Seq<(Seq<char>, Rows)>, k: Seq<char>, i: int)
    requires
        last_slot(s, k, i),
    ensures
        slots_map(s).contains_key(k),
        slots_map(s)[k] == s[i].1,
    decreases s.len(),
{
    if i < s.len() - 1 {
        lemma_slots_lookup(s.drop_last(), k, i);
    }
}

proof fn lemma_slots_absent(s: Seq<(Seq<char>, Rows)>, k: Seq<char>)
    requires
        forall|j: int| 0 <= j < s.len() ==> s[j].0 != k,
    ensures
        !slots_map(s).contains_key(k),
    decreases s.len(),
{
    if s.len() > 0 {
        lemma_slots_absent(s.drop_last(), k);
    }
}

proof fn lemma_slots_update(s: Seq<(Seq<char>, Rows)>, k: Seq<char>, i: int, v: Rows)
    requires
        last_slot(s, k, i),
    ensures
        slots_map(s.update(i, (k, v))) == slots_map(s).insert(k, v),
    decreases s.len(),
{
    let t = s.update(i, (k, v));
    if i == s.len() - 1 {
        assert(t.drop_last() =~= s.drop_last());
        assert(slots_map(t) =~= slots_map(s).insert(k, v));
    } else {
        lemma_slots_update(s.drop_last(), k, i, v);
        assert(t.drop_last() =~= s.drop_last().update(i, (k, v)));
        assert(slots_map(t) =~= slots_map(s).insert(k, v));
    }
}

/// Listings by directory path.
///
/// The listings are kept as a list of slots, not in a `HashMap<String, _>`:
/// vstd describes a `HashMap`'s contents only for keys that satisfy its
/// `obeys_key_model`, which it grants to primitive types and not to
/// `String`, so a path-keyed `HashMap` would support no proof. The slots
/// stand for the map `slots_map` gives, a later slot for a path replacing
/// an earlier one; `insert` replaces the slot of a path already held.
pub struct DirectoryCache {
    slots: Vec<(String, Vec<Vec<String>>)>,
}

impl View for DirectoryCache {
    type V = Map<Seq<char>, Rows>;

    closed spec fn view(&self) -> Map<Seq<char>, Rows> {
        slots_map(self.slot_seq())
    }
}

impl DirectoryCache {
    spec fn slot_seq(&self) -> Seq<(Seq<char>, Rows)> {
        self.slots@.map_values(|p: (String, Vec<Vec<String>>)| (p.0@, p.1.deep_view()))
    }

    /// An empty cache.
    pub fn new() -> (r: DirectoryCache)
        ensures
            r@ == Map::<Seq<char>, Rows>::empty(),
    {
        let r = DirectoryCache { slots: Vec::new() };
        assert(r.slot_seq() =~= Seq::empty());
        r
    }

    fn find(&self, path: &String) -> (r: Option<usize>)
        ensures
            r matches Some(i) ==> last_slot(self.slot_seq(), path@, i as int),
            r is None ==> forall|j: int|
                0 <= j < self.slot_seq().len() ==> self.slot_seq()[j].0 != path@,
    {
        let mut i: usize = self.slots.len();
        while i > 0
            invariant
                i <= self.slots.len(),
                forall|j: int| i <= j < self.slot_seq().len() ==> self.slot_seq()[j].0 != path@,
            decreases i,
        {
            if self.slots[i - 1].0 == *path {
                return Some(i - 1);
            }
            i = i - 1;
        }
        None
    }

    /// Whether a listing of `path` is cached.
    pub fn contains(&self, path: &String) -> (r: bool)
        ensures
            r == self@.contains_key(path@),
    {
        match self.find(path) {
            Some(i) => {
                proof {
                    lemma_slots_lookup(self.slot_seq(), path@, i as int);
                }
                true
            },
            None => {
                proof {
                    lemma_slots_absent(self.slot_seq(), path@);
                }
                false
            },
        }
    }

    /// A copy of the cached listing of `path`, if there is one.
    pub fn get(&self, path: &String) -> (r: Option<Vec<Vec<String>>>)
        ensures
            r matches Some(rows) ==> self@.contains_key(path@) && rows.deep_view() == self@[path@],
            r is None ==> !self@.contains_key(path@),
    {
        match self.find(path) {
            Some(i) => {
                proof {
                    lemma_slots_lookup(self.slot_seq(), path@, i as int);
                }
                Some(copy_rows(&self.slots[i].1))
            },
            None => {
                proof {
                    lemma_slots_absent(self.slot_seq(), path@);
                }
                None
            },
        }
    }

    /// Stores the listing of `path`, in place of any earlier one.
    pub fn insert(&mut self, path: String, rows: Vec<Vec<String>>)
        ensures
            final(self)@ == old(self)@.insert(path@, rows.deep_view()),
    {
        let ghost k = path@;
        let ghost v = rows.deep_view();
        match self.find(&path) {
            Some(i) => {
                proof {
                    lemma_slots_update(self.slot_seq(), k, i as int, v);
                }
                self.slots.set(i, (path, rows));
                assert(self.slot_seq() =~= old(self).slot_seq().update(i as int, (k, v)));
            },
            None => {
                self.slots.push((path, rows));
                assert(self.slot_seq().drop_last() =~= old(self).slot_seq());
            },
        }
    }
}

} // verus!
