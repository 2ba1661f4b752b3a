//! A small keyed store: a map whose keys are compared through their
//! views, so that `String` keys and tuples holding strings can be used.
//! A later insert of a key shadows every earlier one.

use vstd::prelude::*;

use crate::model::StorySortMode;

verus! {

/// Keys that can be compared at run time in agreement with a view.
pub trait StoreKey: Sized {
    type KeyView;

    spec fn key_view(&self) -> Self::KeyView;

    fn same_key(&self, other: &Self) -> (b: bool)
        ensures
            b == (self.key_view() == other.key_view()),
    ;
}

impl StoreKey for String {
    type KeyView = Seq<char>;

    open spec fn key_view(&self) -> Seq<char> {
        self@
    }

    fn same_key(&self, other: &Self) -> (b: bool) {
        *self == *other
    }
}

impl StoreKey for (String, StorySortMode, usize) {
    type KeyView = (Seq<char>, StorySortMode, usize);

    open spec fn key_view(&self) -> (Seq<char>, StorySortMode, usize) {
        (self.0@, self.1, self.2)
    }

    fn same_key(&self, other: &Self) -> (b: bool) {
        self.0 == other.0 && self.1 == other.1 && self.2 == other.2
    }
}

impl StoreKey for (String, bool, usize) {
    type KeyView = (Seq<char>, bool, usize);

    open spec fn key_view(&self) -> (Seq<char>, bool, usize) {
        (self.0@, self.1, self.2)
    }

    fn same_key(&self, other: &Self) -> (b: bool) {
        self.0 == other.0 && self.1 == other.1 && self.2 == other.2
    }
}

/// The value a key maps to in a list of entries: the last entry with
/// that key wins.
pub open spec fn lookup<K: StoreKey, V>(s: Seq<(K, V)>, k: K::KeyView) -> Option<V>
    decreases s.len(),
{
    if s.len() == 0 {
        None
    } else if s.last().0.key_view() == k {
        Some(s.last().1)
    } else {
        lookup(s.drop_last(), k)
    }
}

pub struct Store<K, V> {
    entries: Vec<(K, V)>,
}

impl<K: StoreKey, V> View for Store<K, V> {
    type V = Map<K::KeyView, V>;

    closed spec fn view(&self) -> Map<K::KeyView, V> {
        Map::new(|k: K::KeyView| lookup(self.entries@, k) is Some, |k: K::KeyView| lookup(self.entries@, k)->0)
    }
}

impl<K: StoreKey, V> Store<K, V> {
    pub fn new() -> (s: Self)
        ensures
            s@ == Map::<K::KeyView, V>::empty(),
    {
        let s = Store { entries: Vec::new() };
        assert(s@ =~= Map::<K::KeyView, V>::empty());
        s
    }

    pub fn insert(&mut self, k: K, v: V)
        ensures
            final(self)@ == old(self)@.insert(k.key_view(), v),
    {
        let ghost kv = k.key_view();
        self.entries.push((k, v));
        proof {
            assert forall|q: K::KeyView| lookup(self.entries@, q) == (if q == kv {
                Some(v)
            } else {
                lookup(old(self).entries@, q)
            }) by {
                assert(self.entries@.drop_last() =~= old(self).entries@);
            }
        }
        assert(self@ =~= old(self)@.insert(kv, v));
    }

    pub fn get(&self, k: &K) -> (r: Option<&V>)
        ensures
            match r {
                Some(v) => self@.contains_key(k.key_view()) && self@[k.key_view()] == *v,
                None => !self@.contains_key(k.key_view()),
            },
    {
        let ghost kv = k.key_view();
        let mut i = self.entries.len();
        assert(self.entries@.take(i as int) =~= self.entries@);
        while i > 0
            invariant
                i <= self.entries@.len(),
                kv == k.key_view(),
                lookup(self.entries@, kv) == lookup(self.entries@.take(i as int), kv),
            decreases i,
        {
            let ghost pre = self.entries@.take(i as int);
            assert(pre.drop_last() =~= self.entries@.take(i - 1));
            assert(pre.last() == self.entries@[i - 1]);
            if self.entries[i - 1].0.same_key(k) {
                return Some(&self.entries[i - 1].1);
            }
            i = i - 1;
        }
        None
    }
}

} // verus!
