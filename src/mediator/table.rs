//! A table of entries keyed by the key of a request type.

use vstd::prelude::*;

verus! {

/// Entries keyed by text, at most one per key. Its model is a map from keys
/// to entries.
pub struct Table<E> {
    slots: Vec<(String, E)>,
    model: Ghost<Map<Seq<char>, E>>,
}

impl<E> View for Table<E> {
    type V = Map<Seq<char>, E>;

    closed spec fn view(&self) -> Map<Seq<char>, E> {
        self.model@
    }
}

impl<E> Table<E> {
    /// Keys are distinct, and the model maps each key to the entry of its slot.
    pub closed spec fn wf(&self) -> bool {
        &&& forall|i: int, j: int|
            0 <= i < self.slots.len() && 0 <= j < self.slots.len() && i != j
                ==> #[trigger] self.slots@[i].0@ != #[trigger] self.slots@[j].0@
        &&& forall|i: int|
            0 <= i < self.slots.len() ==> {
                &&& self.model@.contains_key(#[trigger] self.slots@[i].0@)
                &&& self.model@[self.slots@[i].0@] == self.slots@[i].1
            }
        &&& forall|k: Seq<char>|
            #[trigger] self.model@.contains_key(k) ==> exists|i: int|
                0 <= i < self.slots.len() && #[trigger] self.slots@[i].0@ == k
    }

    pub fn new() -> (t: Self)
        ensures
            t.wf(),
            t@ == Map::<Seq<char>, E>::empty(),
    {
        Table { slots: Vec::new(), model: Ghost(Map::empty()) }
    }

    /// The slot that holds `key`, if any.
    fn position(&self, key: &String) -> (r: Option<usize>)
        requires
            self.wf(),
        ensures
            r is Some <==> self@.contains_key(key@),
            r matches Some(i) ==> i < self.slots.len() && self.slots@[i as int].0@ == key@,
    {
        let mut i: usize = 0;
        while i < self.slots.len()
            invariant
                self.wf(),
                i <= self.slots.len(),
                forall|j: int| 0 <= j < i ==> self.slots@[j].0@ != key@,
            decreases self.slots.len() - i,
        {
            if self.slots[i].0 == *key {
                return Some(i);
            }
            i = i + 1;
        }
        None
    }

    /// Binds `entry` to `key`, replacing what was bound to it.
    pub fn insert(&mut self, key: String, entry: E)
        requires
            old(self).wf(),
        ensures
            final(self).wf(),
            final(self)@ == old(self)@.insert(key@, entry),
    {
        let ghost k = key@;
        let ghost e = entry;
        let ghost model = self.model@.insert(k, e);
        match self.position(&key) {
            Some(i) => {
                let ghost old_slots = self.slots@;
                self.slots.set(i, (key, entry));
                self.model = Ghost(model);
                assert forall|j: int| 0 <= j < self.slots.len() && j != i implies #[trigger] self.slots@[j] == old_slots[j] by {}
                assert forall|q: Seq<char>| #[trigger] self.model@.contains_key(q) implies exists|j: int|
                    0 <= j < self.slots.len() && #[trigger] self.slots@[j].0@ == q by {
                    if q != k {
                        let j = choose|j: int| 0 <= j < old_slots.len() && #[trigger] old_slots[j].0@ == q;
                        assert(self.slots@[j].0@ == q);
                    } else {
                        assert(self.slots@[i as int].0@ == q);
                    }
                }
            },
            None => {
                let ghost old_slots = self.slots@;
                let ghost n = self.slots.len() as int;
                self.slots.push((key, entry));
                self.model = Ghost(model);
                assert forall|j: int| 0 <= j < n implies #[trigger] self.slots@[j] == old_slots[j] by {}
                assert forall|q: Seq<char>| #[trigger] self.model@.contains_key(q) implies exists|j: int|
                    0 <= j < self.slots.len() && #[trigger] self.slots@[j].0@ == q by {
                    if q != k {
                        let j = choose|j: int| 0 <= j < old_slots.len() && #[trigger] old_slots[j].0@ == q;
                        assert(self.slots@[j].0@ == q);
                    } else {
                        assert(self.slots@[n].0@ == q);
                    }
                }
            },
        }
    }

    /// The entry bound to `key`.
    pub fn get(&self, key: &String) -> (r: Option<&E>)
        requires
            self.wf(),
        ensures
            r is Some <==> self@.contains_key(key@),
            r matches Some(e) ==> *e == self@[key@],
    {
        match self.position(key) {
            Some(i) => Some(&self.slots[i].1),
            None => None,
        }
    }
}

} // verus!
