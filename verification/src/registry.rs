//! A keyed collection: items stored in a vector, at most one per key, read
//! as a map from key to item.
use vstd::prelude::*;

use crate::text::str_eq;

verus! {

/// Items that carry a string key, determined by their view.
pub trait Keyed: View + Sized {
    /// The key of an item, as a function of its view.
    spec fn view_key(v: Self::V) -> Seq<char>;

    /// The key of this item.
    fn key(&self) -> (r: &String)
        ensures
            r@ == Self::view_key(self@),
    ;

    /// A copy of this item.
    fn duplicate(&self) -> (r: Self)
        ensures
            r@ == self@,
    ;
}

/// A collection holding at most one item per key.
pub struct Registry<T: Keyed> {
    items: Vec<T>,
    model: Ghost<Map<Seq<char>, T::V>>,
}

impl<T: Keyed> View for Registry<T> {
    type V = Map<Seq<char>, T::V>;

    closed spec fn view(&self) -> Map<Seq<char>, T::V> {
        self.model@
    }
}

impl<T: Keyed> Registry<T> {
    spec fn keys(&self) -> Seq<Seq<char>> {
        self.items@.map_values(|t: T| T::view_key(t@))
    }

    /// The internal invariant: the vector holds one item per key of the map,
    /// and each item is the map's value at its key.
    pub closed spec fn wf(&self) -> bool {
        &&& self.keys().no_duplicates()
        &&& self.model@.dom() == self.keys().to_set()
        &&& forall|i: int|
            0 <= i < self.items@.len() ==> self.model@[T::view_key(#[trigger] self.items@[i]@)]
                == self.items@[i]@
    }

    /// Every value of the map is stored under its own key, and the map is finite.
    pub proof fn lemma_wf(&self)
        requires
            self.wf(),
        ensures
            self@.dom().finite(),
            forall|k: Seq<char>| #[trigger] self@.contains_key(k) ==> T::view_key(self@[k]) == k,
    {
        assert forall|k: Seq<char>| #[trigger] self@.contains_key(k) implies T::view_key(self@[k])
            == k by {
            assert(self.keys().to_set().contains(k));
            let i = choose|i: int| 0 <= i < self.keys().len() && self.keys()[i] == k;
            assert(self.keys()[i] == T::view_key(self.items@[i]@));
        }
    }

    /// An empty collection.
    pub fn new() -> (r: Self)
        ensures
            r.wf(),
            r@ == Map::<Seq<char>, T::V>::empty(),
    {
        let r = Registry { items: Vec::new(), model: Ghost(Map::empty()) };
        assert(r.keys() =~= Seq::empty());
        assert(r.model@.dom() =~= r.keys().to_set());
        r
    }

    /// Index of the item with key `key`, if there is one.
    fn position(&self, key: &str) -> (r: Option<usize>)
        requires
            self.wf(),
        ensures
            r matches Some(i) ==> i < self.items@.len() && T::view_key(self.items@[i as int]@)
                == key@,
            r is None ==> !self@.contains_key(key@),
    {
        let mut i: usize = 0;
        while i < self.items.len()
            invariant
                i <= self.items@.len(),
                forall|j: int| 0 <= j < i ==> T::view_key(#[trigger] self.items@[j]@) != key@,
            decreases self.items.len() - i,
        {
            if str_eq(self.items[i].key().as_str(), key) {
                return Some(i);
            }
            i = i + 1;
        }
        proof {
            if self@.contains_key(key@) {
                assert(self.keys().to_set().contains(key@));
                let j = choose|j: int| 0 <= j < self.keys().len() && self.keys()[j] == key@;
                assert(T::view_key(self.items@[j]@) == key@);
            }
        }
        None
    }

    /// Stores `item` under its key, replacing any item already there.
    pub fn insert(&mut self, item: T)
        requires
            old(self).wf(),
        ensures
            final(self).wf(),
            final(self)@ == old(self)@.insert(T::view_key(item@), item@),
    {
        let ghost k = T::view_key(item@);
        let ghost old_keys = self.keys();
        match self.position(item.key().as_str()) {
            Some(i) => {
                self.items.set(i, item);
                self.model = Ghost(self.model@.insert(k, item@));
                proof {
                    assert(self.keys() =~= old_keys);
                    assert(old_keys[i as int] == k);
                    assert(old_keys.contains(k));
                    assert(self.model@.dom() =~= self.keys().to_set());
                    assert forall|j: int| 0 <= j < self.items@.len() implies self.model@[T::view_key(
                        #[trigger] self.items@[j]@,
                    )] == self.items@[j]@ by {
                        if j != i {
                            assert(old_keys[j] != old_keys[i as int]);
                        }
                    }
                }
            },
            None => {
                self.items.push(item);
                self.model = Ghost(self.model@.insert(k, item@));
                proof {
                    assert(self.keys() =~= old_keys.push(k));
                    assert(!old_keys.contains(k)) by {
                        if old_keys.contains(k) {
                            assert(old_keys.to_set().contains(k));
                        }
                    }
                    old_keys.lemma_push_to_set_commute(k);
                    assert(self.model@.dom() =~= self.keys().to_set());
                    assert forall|j: int| 0 <= j < self.items@.len() implies self.model@[T::view_key(
                        #[trigger] self.items@[j]@,
                    )] == self.items@[j]@ by {
                        if j < old_keys.len() {
                            assert(old_keys[j] != k);
                        }
                    }
                }
            },
        }
    }

    /// Removes the item stored under `key`, if any.
    pub fn remove(&mut self, key: &str)
        requires
            old(self).wf(),
        ensures
            final(self).wf(),
            final(self)@ == old(self)@.remove(key@),
    {
        let ghost old_keys = self.keys();
        let ghost old_items = self.items@;
        match self.position(key) {
            Some(i) => {
                self.items.remove(i);
                self.model = Ghost(self.model@.remove(key@));
                proof {
                    let ks = self.keys();
                    assert(ks =~= old_keys.remove(i as int));
                    assert forall|a: int, b: int| 0 <= a < b < ks.len() implies ks[a] != ks[b] by {
                        let oa = if a < i { a } else { a + 1 };
                        let ob = if b < i { b } else { b + 1 };
                        assert(ks[a] == old_keys[oa]);
                        assert(ks[b] == old_keys[ob]);
                    }
                    assert forall|x: Seq<char>| #[trigger] self.model@.dom().contains(x) implies ks.contains(x) by {
                        assert(old_keys.contains(x));
                        let j = choose|j: int| 0 <= j < old_keys.len() && old_keys[j] == x;
                        assert(j != i);
                        let t = if j < i { j } else { j - 1 };
                        assert(ks[t] == x);
                    }
                    assert forall|x: Seq<char>| #[trigger] ks.contains(x) implies self.model@.dom().contains(x) by {
                        let t = choose|t: int| 0 <= t < ks.len() && ks[t] == x;
                        let j = if t < i { t } else { t + 1 };
                        assert(old_keys[j] == x);
                        assert(j != i);
                        assert(old_keys[j] != old_keys[i as int]);
                        assert(old_keys[i as int] == key@);
                        assert(old_keys.contains(x));
                    }
                    assert(self.model@.dom() =~= ks.to_set());
                    assert forall|j: int| 0 <= j < self.items@.len() implies self.model@[T::view_key(
                        #[trigger] self.items@[j]@,
                    )] == self.items@[j]@ by {
                        let oj = if j < i { j } else { j + 1 };
                        assert(self.items@[j] == old_items[oj]);
                        assert(old_keys[oj] != old_keys[i as int]);
                    }
                }
            },
            None => {
                proof {
                    assert(self.model@.remove(key@) =~= self.model@);
                }
            },
        }
    }

    /// The number of items.
    pub fn len(&self) -> (r: usize)
        requires
            self.wf(),
        ensures
            r == self@.len(),
    {
        proof {
            self.keys().unique_seq_to_set();
        }
        self.items.len()
    }

    /// Whether the collection is empty.
    pub fn is_empty(&self) -> (r: bool)
        requires
            self.wf(),
        ensures
            r == (self@ == Map::<Seq<char>, T::V>::empty()),
    {
        proof {
            if self.items@.len() == 0 {
                assert(self.keys() =~= Seq::empty());
                assert(self@ =~= Map::<Seq<char>, T::V>::empty());
            } else {
                assert(self.keys().to_set().contains(self.keys()[0]));
                assert(self@.contains_key(self.keys()[0]));
            }
        }
        self.items.len() == 0
    }

    /// Copies of all items, one per key, in some order.
    pub fn values(&self) -> (r: Vec<T>)
        requires
            self.wf(),
        ensures
            r@.len() == self@.len(),
            forall|i: int|
                #![trigger r@[i]]
                0 <= i < r@.len() ==> self@.contains_key(T::view_key(r@[i]@))
                    && self@[T::view_key(r@[i]@)] == r@[i]@,
            forall|i: int, j: int|
                0 <= i < j < r@.len() ==> T::view_key(r@[i]@) != T::view_key(r@[j]@),
    {
        proof {
            self.keys().unique_seq_to_set();
        }
        let mut out: Vec<T> = Vec::new();
        let mut i: usize = 0;
        while i < self.items.len()
            invariant
                self.wf(),
                i <= self.items@.len(),
                out@.len() == i,
                forall|j: int| 0 <= j < i ==> (#[trigger] out@[j])@ == self.items@[j]@,
            decreases self.items.len() - i,
        {
            let c = self.items[i].duplicate();
            out.push(c);
            i = i + 1;
        }
        proof {
            assert forall|j: int| 0 <= j < out@.len() implies #[trigger] self@.contains_key(
                T::view_key(out@[j]@),
            ) && self@[T::view_key(out@[j]@)] == out@[j]@ by {
                assert(self.keys()[j] == T::view_key(self.items@[j]@));
                assert(self.keys().to_set().contains(self.keys()[j]));
            }
            assert forall|a: int, b: int| 0 <= a < b < out@.len() implies T::view_key(out@[a]@)
                != T::view_key(out@[b]@) by {
                assert(self.keys()[a] == T::view_key(self.items@[a]@));
                assert(self.keys()[b] == T::view_key(self.items@[b]@));
            }
        }
        out
    }
}

} // verus!
