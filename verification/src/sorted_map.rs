//! A map from texts to values that hands its entries out in the order of their keys.
use crate::lists::ascending;
use crate::text::{before, lemma_before_irreflexive, lemma_before_total, lemma_before_transitive, precedes, same};
use vstd::prelude::*;

verus! {

broadcast use vstd::seq::group_seq_axioms;

/// A map from texts to values, kept in the order of its keys.
pub struct SortedMap<V> {
    pub(crate) items: Vec<(String, V)>,
}

/// Each key comes before every later one.
pub open spec fn in_order<V>(s: Seq<(String, V)>) -> bool {
    forall|i: int, j: int|
        #![trigger s[i], s[j]]
        0 <= i < j < s.len() ==> before(s[i].0@, s[j].0@)
}

/// What a run of entries maps, a later entry winning over an earlier one.
pub open spec fn entries_map<V>(s: Seq<(String, V)>) -> Map<Seq<char>, V>
    decreases s.len(),
{
    if s.len() == 0 {
        Map::empty()
    } else {
        entries_map(s.drop_last()).insert(s.last().0@, s.last().1)
    }
}

/// The keys of a run of entries.
pub open spec fn entry_keys<V>(s: Seq<(String, V)>) -> Seq<Seq<char>> {
    Seq::new(s.len(), |i: int| s[i].0@)
}

pub proof fn lemma_entries_map<V>(s: Seq<(String, V)>)
    requires
        in_order(s),
    ensures
        forall|i: int|
            #![trigger s[i]]
            0 <= i < s.len() ==> entries_map(s).contains_key(s[i].0@) && entries_map(s)[s[i].0@]
                == s[i].1,
        forall|k: Seq<char>| #[trigger]
            entries_map(s).contains_key(k) ==> exists|i: int|
                #![trigger s[i]]
                0 <= i < s.len() && s[i].0@ == k,
    decreases s.len(),
{
    if s.len() > 0 {
        let t = s.drop_last();
        assert forall|i: int, j: int| #![trigger t[i], t[j]] 0 <= i < j < t.len() implies before(
            t[i].0@,
            t[j].0@,
        ) by {
            assert(t[i] == s[i] && t[j] == s[j]);
        }
        lemma_entries_map(t);
        let last = s.last();
        assert forall|i: int| #![trigger s[i]] 0 <= i < s.len() implies entries_map(s).contains_key(
            s[i].0@,
        ) && entries_map(s)[s[i].0@] == s[i].1 by {
            if i < s.len() - 1 {
                assert(t[i] == s[i]);
                assert(before(s[i].0@, s[s.len() - 1].0@));
                lemma_before_irreflexive(last.0@);
            }
        }
        assert forall|k: Seq<char>| #[trigger] entries_map(s).contains_key(k) implies exists|i: int|
            #![trigger s[i]]
            0 <= i < s.len() && s[i].0@ == k by {
            if k == last.0@ {
                assert(s[s.len() - 1].0@ == k);
            } else {
                assert(entries_map(t).contains_key(k));
                let i = choose|i: int| #![trigger t[i]] 0 <= i < t.len() && t[i].0@ == k;
                assert(s[i].0@ == k);
            }
        }
    }
}

/// The keys in their order are those of the map, each once.
pub proof fn lemma_entry_keys<V>(s: Seq<(String, V)>)
    requires
        in_order(s),
    ensures
        ascending(entry_keys(s)),
        entry_keys(s).no_duplicates(),
        entry_keys(s).to_set() == entries_map(s).dom(),
        entry_keys(s).len() == entries_map(s).dom().len(),
{
    let keys = entry_keys(s);
    lemma_entries_map(s);
    assert forall|i: int, j: int| #![trigger keys[i], keys[j]] 0 <= i < j < keys.len() implies before(
        keys[i],
        keys[j],
    ) by {
        assert(before(s[i].0@, s[j].0@));
    }
    assert forall|i: int, j: int|
        0 <= i < keys.len() && 0 <= j < keys.len() && i != j implies keys[i] != keys[j] by {
        lemma_before_irreflexive(keys[i]);
        if i < j {
            assert(before(keys[i], keys[j]));
        } else {
            assert(before(keys[j], keys[i]));
        }
    }
    assert forall|k: Seq<char>|
        keys.to_set().contains(k) <==> #[trigger] entries_map(s).dom().contains(k) by {
        if entries_map(s).contains_key(k) {
            let i = choose|i: int| #![trigger s[i]] 0 <= i < s.len() && s[i].0@ == k;
            assert(keys[i] == k);
        }
        if keys.contains(k) {
            let i = choose|i: int| 0 <= i < keys.len() && keys[i] == k;
            assert(s[i].0@ == k);
        }
    }
    assert(keys.to_set() =~= entries_map(s).dom());
    keys.unique_seq_to_set();
}

impl<V> SortedMap<V> {
    #[verifier::type_invariant]
    spec fn ordered(self) -> bool {
        in_order(self.items@)
    }

    /// The entries in the order of their keys.
    pub closed spec fn entries(self) -> Seq<(String, V)> {
        self.items@
    }

    /// What the map maps.
    pub open spec fn view(self) -> Map<Seq<char>, V> {
        entries_map(self.entries())
    }

    /// The keys in their order.
    pub open spec fn keys(self) -> Seq<Seq<char>> {
        entry_keys(self.entries())
    }

    /// A map is larger than its entries.
    pub proof fn lemma_entries_smaller(self)
        ensures
            decreases_to!(self => self.entries()),
    {
    }

    /// The map without entries.
    pub fn new() -> (r: Self)
        ensures
            r@ == Map::<Seq<char>, V>::empty(),
            r.keys() == Seq::<Seq<char>>::empty(),
    {
        let r = SortedMap { items: Vec::new() };
        assert(r.keys() =~= Seq::<Seq<char>>::empty());
        r
    }

    /// The number of entries: one for each key, in the order of the keys.
    pub fn len(&self) -> (r: usize)
        ensures
            r == self.keys().len(),
            r == self.entries().len(),
            in_order(self.entries()),
            forall|k: Seq<char>| #[trigger]
                self@.contains_key(k) ==> exists|i: int|
                    #![trigger self.keys()[i]]
                    0 <= i < self.keys().len() && self.keys()[i] == k,
    {
        proof {
            use_type_invariant(self);
            lemma_entries_map(self.items@);
            assert forall|k: Seq<char>| #[trigger] self@.contains_key(k) implies exists|i: int|
                #![trigger self.keys()[i]]
                0 <= i < self.keys().len() && self.keys()[i] == k by {
                let i = choose|i: int|
                    #![trigger self.items@[i]]
                    0 <= i < self.items@.len() && self.items@[i].0@ == k;
                assert(self.keys()[i] == k);
            }
        }
        self.items.len()
    }

    /// An entry by its place in the order.
    pub fn entry(&self, i: usize) -> (r: (&String, &V))
        requires
            i < self.keys().len(),
        ensures
            r.0@ == self.keys()[i as int],
            *r.1 == self.entries()[i as int].1,
            self@.contains_key(r.0@),
            self@[r.0@] == *r.1,
            in_order(self.entries()),
    {
        proof {
            use_type_invariant(self);
            lemma_entries_map(self.items@);
        }
        let e = &self.items[i];
        (&e.0, &e.1)
    }

    /// The place of a key: its entry, or where the entry would stand.
    fn place(&self, key: &str) -> (r: (usize, bool))
        ensures
            r.0 <= self.items@.len(),
            forall|i: int|
                #![trigger self.items@[i]]
                0 <= i < r.0 ==> before(self.items@[i].0@, key@),
            r.1 ==> r.0 < self.items@.len() && self.items@[r.0 as int].0@ == key@,
            forall|i: int|
                #![trigger self.items@[i]]
                r.0 + (if r.1 {
                    1int
                } else {
                    0
                }) <= i < self.items@.len() ==> before(key@, self.items@[i].0@),
    {
        proof {
            use_type_invariant(self);
        }
        let mut i: usize = 0;
        while i < self.items.len()
            invariant
                i <= self.items@.len(),
                in_order(self.items@),
                forall|k: int|
                    #![trigger self.items@[k]]
                    0 <= k < i ==> before(self.items@[k].0@, key@),
            decreases self.items@.len() - i,
        {
            if same(self.items[i].0.as_str(), key) {
                return (i, true);
            }
            if precedes(key, self.items[i].0.as_str()) {
                assert forall|k: int| #![trigger self.items@[k]] i <= k < self.items@.len() implies before(
                    key@,
                    self.items@[k].0@,
                ) by {
                    if k > i {
                        assert(before(self.items@[i as int].0@, self.items@[k].0@));
                        lemma_before_transitive(
                            key@,
                            self.items@[i as int].0@,
                            self.items@[k].0@,
                        );
                    }
                }
                return (i, false);
            }
            proof {
                lemma_before_total(key@, self.items@[i as int].0@);
            }
            i = i + 1;
        }
        (i, false)
    }

    /// The value under a key.
    pub fn get(&self, key: &str) -> (r: Option<&V>)
        ensures
            match r {
                Some(v) => self@.contains_key(key@) && *v == self@[key@],
                None => !self@.contains_key(key@),
            },
    {
        proof {
            use_type_invariant(self);
            lemma_entries_map(self.items@);
            lemma_before_irreflexive(key@);
        }
        let (at, found) = self.place(key);
        if found {
            Some(&self.items[at].1)
        } else {
            None
        }
    }

    /// Whether there is a value under a key.
    pub fn contains_key(&self, key: &str) -> (r: bool)
        ensures
            r == self@.contains_key(key@),
    {
        self.get(key).is_some()
    }

    /// Puts a value under a key, in place of any other there.
    pub fn insert(&mut self, key: String, value: V)
        ensures
            final(self)@ == old(self)@.insert(key@, value),
    {
        proof {
            use_type_invariant(&*self);
            lemma_entries_map(self.items@);
            lemma_before_irreflexive(key@);
        }
        let ghost before_items = self.items@;
        let (at, found) = self.place(key.as_str());
        let ghost k = key@;
        let ghost entry = (key, value);
        let mut rest: Vec<(String, V)> = Vec::new();
        core::mem::swap(&mut rest, &mut self.items);
        let mut tail = rest.split_off(at);
        if found {
            let _ = tail.remove(0);
        }
        rest.push((key, value));
        rest.append(&mut tail);
        let ghost d: int = if found {
            1
        } else {
            0
        };
        proof {
            assert(rest@ =~= before_items.take(at as int).push(entry) + before_items.skip(at + d));
            assert forall|i: int, j: int| #![trigger rest@[i], rest@[j]] 0 <= i < j < rest@.len() implies before(
                rest@[i].0@,
                rest@[j].0@,
            ) by {
                if i < at && j > at {
                    assert(rest@[i] == before_items[i]);
                    assert(rest@[j] == before_items[j - 1 + d]);
                    lemma_before_transitive(before_items[i].0@, k, before_items[j - 1 + d].0@);
                } else if j < at {
                    assert(rest@[i] == before_items[i] && rest@[j] == before_items[j]);
                } else if i > at {
                    assert(rest@[i] == before_items[i - 1 + d]);
                    assert(rest@[j] == before_items[j - 1 + d]);
                } else if i < at {
                    assert(rest@[i] == before_items[i]);
                    assert(rest@[j] == entry);
                } else {
                    assert(rest@[i] == entry);
                    assert(rest@[j] == before_items[j - 1 + d]);
                }
            }
            lemma_entries_map(rest@);
            let old_map = entries_map(before_items);
            let new_map = entries_map(rest@);
            assert(new_map =~= old_map.insert(k, value)) by {
                assert forall|q: Seq<char>| new_map.contains_key(q) implies old_map.insert(k, value).contains_key(q) && new_map[q]
                    == old_map.insert(k, value)[q] by {
                    let i = choose|i: int| #![trigger rest@[i]] 0 <= i < rest@.len() && rest@[i].0@ == q;
                    if i == at {
                        assert(rest@[i] == entry);
                    } else if i < at {
                        assert(rest@[i] == before_items[i]);
                    } else {
                        assert(rest@[i] == before_items[i - 1 + d]);
                    }
                }
                assert forall|q: Seq<char>| old_map.insert(k, value).contains_key(q) implies new_map.contains_key(q) by {
                    if q == k {
                        assert(rest@[at as int] == entry);
                    } else {
                        let i = choose|i: int| #![trigger before_items[i]] 0 <= i < before_items.len() && before_items[i].0@ == q;
                        if i < at {
                            assert(rest@[i] == before_items[i]);
                        } else {
                            assert(i >= at + d);
                            assert(rest@[i + 1 - d] == before_items[i]);
                        }
                    }
                }
            }
        }
        self.items = rest;
    }

    /// Takes the value under a key out.
    pub fn remove(&mut self, key: &str) -> (r: Option<V>)
        ensures
            final(self)@ == old(self)@.remove(key@),
            match r {
                Some(v) => old(self)@.contains_key(key@) && v == old(self)@[key@],
                None => !old(self)@.contains_key(key@),
            },
    {
        proof {
            use_type_invariant(&*self);
            lemma_entries_map(self.items@);
            lemma_before_irreflexive(key@);
        }
        let ghost before_items = self.items@;
        let (at, found) = self.place(key);
        if !found {
            assert(entries_map(before_items).remove(key@) =~= entries_map(before_items));
            return None;
        }
        let mut rest: Vec<(String, V)> = Vec::new();
        core::mem::swap(&mut rest, &mut self.items);
        let gone = rest.remove(at);
        proof {
            assert forall|i: int, j: int| #![trigger rest@[i], rest@[j]] 0 <= i < j < rest@.len() implies before(
                rest@[i].0@,
                rest@[j].0@,
            ) by {
                let a = if i < at { i } else { i + 1 };
                let b = if j < at { j } else { j + 1 };
                assert(rest@[i] == before_items[a] && rest@[j] == before_items[b]);
            }
            lemma_entries_map(rest@);
            let old_map = entries_map(before_items);
            let new_map = entries_map(rest@);
            assert(new_map =~= old_map.remove(key@)) by {
                assert forall|q: Seq<char>| new_map.contains_key(q) implies old_map.remove(key@).contains_key(q) && new_map[q]
                    == old_map[q] by {
                    let i = choose|i: int| #![trigger rest@[i]] 0 <= i < rest@.len() && rest@[i].0@ == q;
                    let a = if i < at { i } else { i + 1 };
                    assert(rest@[i] == before_items[a]);
                }
                assert forall|q: Seq<char>| old_map.remove(key@).contains_key(q) implies new_map.contains_key(q) by {
                    let i = choose|i: int| #![trigger before_items[i]] 0 <= i < before_items.len() && before_items[i].0@ == q;
                    let a = if i < at { i } else { i - 1 };
                    assert(i != at);
                    assert(rest@[a] == before_items[i]);
                }
            }
        }
        self.items = rest;
        Some(gone.1)
    }
}

} // verus!
