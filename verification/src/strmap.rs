//! A small map keyed by strings, kept as two parallel vectors so that the
//! order in which keys were first inserted is observable and stable.

use vstd::prelude::*;
use crate::text::{str_eq, string_of};

verus! {

/// A string-keyed map with unique keys in first-insertion order.
#[derive(Debug, Clone)]
pub struct StrMap<V> {
    keys: Vec<String>,
    vals: Vec<V>,
}

impl<V> StrMap<V> {
    /// The keys, in order.
    pub closed spec fn key_seq(self) -> Seq<Seq<char>> {
        self.keys@.map_values(|s: String| s@)
    }

    /// The values, in the order of their keys.
    pub closed spec fn val_seq(self) -> Seq<V> {
        self.vals@
    }

    /// Well-formed: one value per key and no key twice.
    pub open spec fn wf(self) -> bool {
        &&& self.key_seq().len() == self.val_seq().len()
        &&& self.key_seq().len() <= usize::MAX
        &&& self.key_seq().no_duplicates()
    }

    /// The mapping from each key to its value.
    pub open spec fn map_view(self) -> Map<Seq<char>, V> {
        Map::new(
            |k: Seq<char>| self.key_seq().contains(k),
            |k: Seq<char>| self.val_seq()[self.key_seq().index_of(k)],
        )
    }

    /// An empty map.
    pub fn new() -> (res: Self)
        ensures
            res.wf(),
            res.key_seq() == Seq::<Seq<char>>::empty(),
            res.val_seq() == Seq::<V>::empty(),
    {
        let res = StrMap { keys: Vec::new(), vals: Vec::new() };
        assert(res.key_seq() =~= Seq::<Seq<char>>::empty());
        res
    }

    /// Number of keys.
    pub fn len(&self) -> (n: usize)
        requires
            self.wf(),
        ensures
            n == self.key_seq().len(),
    {
        self.keys.len()
    }

    /// Position of a key, if present.
    pub fn find(&self, k: &str) -> (res: Option<usize>)
        requires
            self.wf(),
        ensures
            match res {
                Some(i) => i < self.key_seq().len() && self.key_seq()[i as int] == k@,
                None => !self.key_seq().contains(k@),
            },
    {
        let n = self.keys.len();
        let mut i: usize = 0;
        while i < n
            invariant
                n == self.keys@.len(),
                i <= n,
                self.key_seq().len() == n,
                forall|j: int| 0 <= j < i ==> self.key_seq()[j] != k@,
            decreases n - i,
        {
            if str_eq(self.keys[i].as_str(), k) {
                return Some(i);
            }
            i = i + 1;
        }
        None
    }

    /// The key at a position.
    pub fn key_at(&self, i: usize) -> (res: &String)
        requires
            self.wf(),
            i < self.key_seq().len(),
        ensures
            res@ == self.key_seq()[i as int],
    {
        &self.keys[i]
    }

    /// The value at a position.
    pub fn value_at(&self, i: usize) -> (res: &V)
        requires
            self.wf(),
            i < self.key_seq().len(),
        ensures
            *res == self.val_seq()[i as int],
    {
        &self.vals[i]
    }

    /// Replaces the value at a position.
    pub fn set_value(&mut self, i: usize, v: V)
        requires
            old(self).wf(),
            i < old(self).key_seq().len(),
        ensures
            final(self).wf(),
            final(self).key_seq() == old(self).key_seq(),
            final(self).val_seq() == old(self).val_seq().update(i as int, v),
            final(self).map_view() == old(self).map_view().insert(old(self).key_seq()[i as int], v),
    {
        let ghost k = self.key_seq()[i as int];
        proof { lemma_index_of_unique(self.key_seq(), i as int); }
        self.vals.set(i, v);
        assert(self.key_seq() =~= old(self).key_seq());
        assert forall|q: Seq<char>| #[trigger] self.key_seq().contains(q) && q != k
            implies self.key_seq().index_of(q) != i as int by {}
        assert(self.map_view() =~= old(self).map_view().insert(k, v));
    }

    /// Takes the value at a position out, leaving `placeholder` in its place.
    pub fn take_value(&mut self, i: usize, placeholder: V) -> (res: V)
        requires
            old(self).wf(),
            i < old(self).key_seq().len(),
        ensures
            final(self).wf(),
            final(self).key_seq() == old(self).key_seq(),
            final(self).val_seq() == old(self).val_seq().update(i as int, placeholder),
            res == old(self).val_seq()[i as int],
    {
        let res = self.vals.remove(i);
        self.vals.insert(i, placeholder);
        assert(self.vals@ =~= old(self).vals@.update(i as int, placeholder));
        assert(self.key_seq() =~= old(self).key_seq());
        res
    }

    /// The value of a key, if present.
    pub fn get(&self, k: &str) -> (res: Option<&V>)
        requires
            self.wf(),
        ensures
            res is Some <==> self.map_view().dom().contains(k@),
            res matches Some(v) ==> *v == self.map_view()[k@],
    {
        match self.find(k) {
            Some(i) => {
                proof { lemma_index_of_unique(self.key_seq(), i as int); }
                Some(&self.vals[i])
            }
            None => None,
        }
    }

    /// Appends a key that is not yet present.
    pub fn push_new(&mut self, k: &str, v: V)
        requires
            old(self).wf(),
            !old(self).key_seq().contains(k@),
        ensures
            final(self).wf(),
            final(self).key_seq() == old(self).key_seq().push(k@),
            final(self).val_seq() == old(self).val_seq().push(v),
    {
        let ks = string_of(k);
        self.keys.push(ks);
        self.vals.push(v);
        let _l = self.keys.len();
        assert(self.key_seq() =~= old(self).key_seq().push(k@));
        assert forall|a: int, b: int|
            0 <= a < self.key_seq().len() && 0 <= b < self.key_seq().len() && a != b
            implies self.key_seq()[a] != self.key_seq()[b] by {
            if a < old(self).key_seq().len() && b < old(self).key_seq().len() {
            } else if a < old(self).key_seq().len() {
                assert(old(self).key_seq()[a] == self.key_seq()[a]);
            } else {
                assert(old(self).key_seq()[b] == self.key_seq()[b]);
            }
        }
    }

    /// Sets the value of a key, adding the key at the end when absent.
    pub fn insert(&mut self, k: &str, v: V)
        requires
            old(self).wf(),
        ensures
            final(self).wf(),
            old(self).key_seq().contains(k@) ==> final(self).key_seq() == old(self).key_seq()
                && final(self).val_seq() == old(self).val_seq().update(
                    old(self).key_seq().index_of(k@), v),
            !old(self).key_seq().contains(k@) ==> final(self).key_seq() == old(self).key_seq().push(k@)
                && final(self).val_seq() == old(self).val_seq().push(v),
            final(self).map_view() == old(self).map_view().insert(k@, v),
    {
        let ghost old_map = old(self).map_view();
        match self.find(k) {
            Some(i) => {
                proof { lemma_index_of_unique(self.key_seq(), i as int); }
                self.set_value(i, v);
                assert forall|q: Seq<char>| #[trigger] self.key_seq().contains(q) && q != k@
                    implies self.key_seq().index_of(q) != i as int by {}
                assert(self.map_view() =~= old_map.insert(k@, v));
            }
            None => {
                self.push_new(k, v);
                let ghost n = self.key_seq().len() - 1;
                proof { lemma_index_of_unique(self.key_seq(), n); }
                assert forall|q: Seq<char>| #[trigger] old(self).key_seq().contains(q)
                    implies self.key_seq().index_of(q) == old(self).key_seq().index_of(q) by {
                    let j = old(self).key_seq().index_of(q);
                    assert(self.key_seq()[j] == q);
                    lemma_index_of_unique(self.key_seq(), j);
                }
                assert forall|q: Seq<char>| self.key_seq().contains(q)
                    implies #[trigger] old(self).key_seq().contains(q) || q == k@ by {
                    let j = self.key_seq().index_of(q);
                    if j < n {
                        assert(old(self).key_seq()[j] == q);
                    }
                }
                assert(self.key_seq()[n] == k@);
                assert(self.key_seq().contains(k@));
                assert forall|q: Seq<char>| #[trigger] old_map.insert(k@, v).dom().contains(q)
                    implies self.map_view().dom().contains(q) by {
                    if q != k@ {
                        let j = old(self).key_seq().index_of(q);
                        assert(self.key_seq()[j] == q);
                    }
                }
                assert forall|q: Seq<char>| #[trigger] self.map_view().dom().contains(q)
                    implies self.map_view()[q] == old_map.insert(k@, v)[q] by {
                    if q != k@ {
                        assert(old(self).key_seq().contains(q));
                        let j = old(self).key_seq().index_of(q);
                        assert(self.key_seq().index_of(q) == j);
                        assert(self.val_seq()[j] == old(self).val_seq()[j]);
                    }
                }
                assert(self.map_view() =~= old_map.insert(k@, v));
            }
        }
    }

    /// Removes every key.
    pub fn clear(&mut self)
        requires
            old(self).wf(),
        ensures
            final(self).wf(),
            final(self).key_seq() == Seq::<Seq<char>>::empty(),
            final(self).val_seq() == Seq::<V>::empty(),
    {
        self.keys.clear();
        self.vals.clear();
        assert(self.key_seq() =~= Seq::<Seq<char>>::empty());
    }
}

/// In a sequence without duplicates, `index_of` picks the one position of an element.
pub proof fn lemma_index_of_unique<A>(s: Seq<A>, i: int)
    requires
        s.no_duplicates(),
        0 <= i < s.len(),
    ensures
        s.contains(s[i]),
        s.index_of(s[i]) == i,
{
    assert(s[i] == s[i]);
    let j = s.index_of(s[i]);
    assert(0 <= j < s.len() && s[j] == s[i]);
}

impl<V: Copy> StrMap<V> {
    /// A copy with the same keys and values in the same order.
    pub fn copied(&self) -> (res: Self)
        requires
            self.wf(),
        ensures
            res.wf(),
            res.key_seq() == self.key_seq(),
            res.val_seq() == self.val_seq(),
    {
        let n = self.keys.len();
        let mut keys: Vec<String> = Vec::new();
        let mut vals: Vec<V> = Vec::new();
        let mut i: usize = 0;
        while i < n
            invariant
                n == self.keys@.len(),
                n == self.vals@.len(),
                i <= n,
                keys@ == self.keys@.take(i as int),
                vals@ == self.vals@.take(i as int),
            decreases n - i,
        {
            keys.push(self.keys[i].clone());
            vals.push(self.vals[i]);
            assert(self.keys@.take(i + 1) =~= self.keys@.take(i as int).push(self.keys@[i as int]));
            assert(self.vals@.take(i + 1) =~= self.vals@.take(i as int).push(self.vals@[i as int]));
            i = i + 1;
        }
        assert(self.keys@.take(n as int) =~= self.keys@);
        assert(self.vals@.take(n as int) =~= self.vals@);
        StrMap { keys, vals }
    }
}

impl StrMap<String> {
    /// A copy with the same keys and values in the same order.
    pub fn duplicate(&self) -> (res: Self)
        requires
            self.wf(),
        ensures
            res.wf(),
            res.key_seq() == self.key_seq(),
            res.val_seq() == self.val_seq(),
    {
        let n = self.keys.len();
        let mut keys: Vec<String> = Vec::new();
        let mut vals: Vec<String> = Vec::new();
        let mut i: usize = 0;
        while i < n
            invariant
                n == self.keys@.len(),
                n == self.vals@.len(),
                i <= n,
                keys@ == self.keys@.take(i as int),
                vals@ == self.vals@.take(i as int),
            decreases n - i,
        {
            keys.push(self.keys[i].clone());
            vals.push(self.vals[i].clone());
            assert(self.keys@.take(i + 1) =~= self.keys@.take(i as int).push(self.keys@[i as int]));
            assert(self.vals@.take(i + 1) =~= self.vals@.take(i as int).push(self.vals@[i as int]));
            i = i + 1;
        }
        assert(self.keys@.take(n as int) =~= self.keys@);
        assert(self.vals@.take(n as int) =~= self.vals@);
        StrMap { keys, vals }
    }
}

} // verus!
