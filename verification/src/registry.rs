use vstd::prelude::*;
use crate::text::same_text;

verus! {

/// Values registered under distinct names, in the order of registration.
#[derive(Debug)]
pub struct Registry<V> {
    entries: Vec<(String, V)>,
}

impl<V> Registry<V> {
    /// No two entries share a name.
    #[verifier::type_invariant]
    spec fn names_distinct(self) -> bool {
        forall|i: int, j: int|
            0 <= i < j < self.entries.len() ==> self.entries[i].0@ != self.entries[j].0@
    }

    /// The registered names, in the order of registration.
    pub closed spec fn names(&self) -> Seq<Seq<char>> {
        Seq::new(self.entries.len() as nat, |i: int| self.entries[i].0@)
    }

    /// The registered values, in the same order.
    pub closed spec fn values(&self) -> Seq<V> {
        Seq::new(self.entries.len() as nat, |i: int| self.entries[i].1)
    }

    /// There are as many names as values.
    pub proof fn lemma_lengths(&self)
        ensures
            self.names().len() == self.values().len(),
    {
    }

    /// The registry as a map from name to value.
    pub open spec fn as_map(&self) -> Map<Seq<char>, V> {
        Map::new(
            |k: Seq<char>| self.names().contains(k),
            |k: Seq<char>| self.values()[self.names().index_of(k)],
        )
    }

    proof fn lemma_value_at(self, i: int)
        requires
            self.names_distinct(),
            0 <= i < self.entries.len(),
        ensures
            self.as_map().contains_key(self.names()[i]),
            self.as_map()[self.names()[i]] == self.values()[i],
    {
        let names = self.names();
        assert(names.contains(names[i]));
        let c: int = names.index_of(names[i]);
        assert(names[c] == names[i]);
        if c != i {
            if c < i {
                assert(self.entries[c].0@ != self.entries[i].0@);
            } else {
                assert(self.entries[i].0@ != self.entries[c].0@);
            }
        }
    }

    /// An empty registry.
    pub fn new() -> (r: Self)
        ensures
            r.names() == Seq::<Seq<char>>::empty(),
            r.values() == Seq::<V>::empty(),
            r.as_map() == Map::<Seq<char>, V>::empty(),
    {
        let r = Registry { entries: Vec::new() };
        assert(r.names() =~= Seq::<Seq<char>>::empty());
        assert(r.values() =~= Seq::<V>::empty());
        assert(r.as_map() =~= Map::<Seq<char>, V>::empty());
        r
    }

    /// The number of entries; no name occurs twice.
    pub fn len(&self) -> (n: usize)
        ensures
            n == self.names().len(),
            self.names().len() == self.values().len(),
            self.names().no_duplicates(),
            self.as_map().dom().finite(),
            self.as_map().len() == n,
    {
        proof {
            use_type_invariant(self);
            let names = self.names();
            assert(self.as_map().dom() =~= names.to_set());
            names.unique_seq_to_set();
        }
        self.entries.len()
    }

    /// The name of the `i`-th entry.
    pub fn name_at(&self, i: usize) -> (r: &String)
        requires
            i < self.names().len(),
        ensures
            r@ == self.names()[i as int],
    {
        &self.entries[i].0
    }

    /// The value of the `i`-th entry.
    pub fn value_at(&self, i: usize) -> (r: &V)
        requires
            i < self.values().len(),
        ensures
            *r == self.values()[i as int],
    {
        &self.entries[i].1
    }

    /// The name and value of the `i`-th entry, which the map holds under
    /// that name.
    pub fn entry_at(&self, i: usize) -> (r: (&String, &V))
        requires
            i < self.names().len(),
        ensures
            r.0@ == self.names()[i as int],
            *r.1 == self.values()[i as int],
            self.as_map().contains_key(self.names()[i as int]),
            self.as_map()[self.names()[i as int]] == self.values()[i as int],
    {
        proof {
            use_type_invariant(self);
            self.lemma_value_at(i as int);
        }
        (&self.entries[i].0, &self.entries[i].1)
    }

    /// The position of the entry named `name`, if there is one.
    pub fn find(&self, name: &str) -> (r: Option<usize>)
        ensures
            self.names().no_duplicates(),
            match r {
                Some(i) => i < self.names().len() && self.names()[i as int] == name@,
                None => !self.names().contains(name@),
            },
    {
        proof {
            use_type_invariant(self);
        }
        let mut i: usize = 0;
        while i < self.entries.len()
            invariant
                self.names().no_duplicates(),
                i <= self.entries.len(),
                forall|j: int| 0 <= j < i ==> self.entries[j].0@ != name@,
            decreases self.entries.len() - i,
        {
            if same_text(self.entries[i].0.as_str(), name) {
                return Some(i);
            }
            i = i + 1;
        }
        None
    }

    /// The value registered under `name`, if any.
    pub fn get(&self, name: &str) -> (r: Option<&V>)
        ensures
            match r {
                Some(v) => self.as_map().contains_key(name@) && *v == self.as_map()[name@],
                None => !self.as_map().contains_key(name@),
            },
    {
        proof {
            use_type_invariant(self);
        }
        match self.find(name) {
            Some(i) => {
                proof {
                    self.lemma_value_at(i as int);
                }
                Some(&self.entries[i].1)
            },
            None => None,
        }
    }

    /// Registers `value` under `name`; an entry already under that name keeps
    /// its place and takes the new value.
    pub fn insert(&mut self, name: String, value: V)
        ensures
            old(self).names().contains(name@) ==> {
                &&& final(self).names() == old(self).names()
                &&& final(self).values().len() == old(self).values().len()
                &&& forall|i: int| 0 <= i < old(self).values().len() ==>
                    #[trigger] final(self).values()[i] == if old(self).names()[i] == name@ {
                        value
                    } else {
                        old(self).values()[i]
                    }
            },
            !old(self).names().contains(name@) ==> {
                &&& final(self).names() == old(self).names().push(name@)
                &&& final(self).values() == old(self).values().push(value)
            },
            final(self).as_map() == old(self).as_map().insert(name@, value),
    {
        proof {
            use_type_invariant(&*self);
        }
        let ghost start = *self;
        let ghost before = self.names();
        let ghost before_v = self.values();
        let found = self.find(name.as_str());
        let mut entries: Vec<(String, V)> = Vec::new();
        std::mem::swap(&mut entries, &mut self.entries);
        let ghost old_entries = entries@;
        match found {
            Some(i) => {
                entries.set(i, (name, value));
                proof {
                    assert forall|j: int| 0 <= j < entries.len() && j != i implies
                        entries[j].0@ != name@ by {
                        assert(before[j] != before[i as int]);
                    }
                }
            },
            None => {
                entries.push((name, value));
                proof {
                    assert forall|j: int| 0 <= j < old_entries.len() implies
                        entries[j].0@ != name@ by {
                        assert(before[j] == entries[j].0@);
                    }
                }
            },
        }
        self.entries = entries;
        proof {
            match found {
                Some(i) => {
                    assert(self.names() =~= before);
                    assert forall|j: int| 0 <= j < before_v.len() implies
                        #[trigger] self.values()[j] == if before[j] == name@ {
                            value
                        } else {
                            before_v[j]
                        } by {
                        if j != i {
                            assert(before[j] != before[i as int]);
                        }
                    }
                },
                None => {
                    assert(self.names() =~= before.push(name@));
                    assert(self.values() =~= before_v.push(value));
                },
            }
            let after = *self;
            assert(after.names_distinct());
            assert forall|k: Seq<char>|
                #![trigger after.as_map().contains_key(k)]
                after.as_map().contains_key(k) == start.as_map().insert(name@, value).contains_key(k)
            by {
                if after.names().contains(k) && k != name@ {
                    let c: int = choose|c: int| 0 <= c < after.names().len() && after.names()[c] == k;
                    assert(start.names()[c] == k);
                }
                if start.names().contains(k) {
                    let c: int = choose|c: int| 0 <= c < start.names().len() && start.names()[c] == k;
                    assert(after.names()[c] == k);
                }
                if k == name@ {
                    let idx: int = match found {
                        Some(i) => i as int,
                        None => before.len() as int,
                    };
                    assert(after.names()[idx] == k);
                }
            }
            assert forall|k: Seq<char>| #[trigger] after.as_map().contains_key(k) implies
                after.as_map()[k] == start.as_map().insert(name@, value)[k]
            by {
                let c: int = choose|c: int| 0 <= c < after.names().len() && after.names()[c] == k;
                after.lemma_value_at(c);
                if k != name@ {
                    assert(c < before.len());
                    assert(start.names()[c] == k);
                    start.lemma_value_at(c);
                }
            }
            assert(after.as_map() =~= start.as_map().insert(name@, value));
        }
    }
}

} // verus!
