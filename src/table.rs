//! A small map keyed by text, kept as a list of distinct keys.

use vstd::prelude::*;
use crate::text::same_text;

verus! {

/// The map that a list of entries stands for: a later entry overrides an
/// earlier one with the same key.
pub open spec fn entries_map<V>(es: Seq<(String, V)>) -> Map<Seq<char>, V>
    decreases es.len(),
{
    if es.len() == 0 {
        Map::empty()
    } else {
        entries_map(es.drop_last()).insert(es.last().0@, es.last().1)
    }
}

/// No key appears twice.
pub open spec fn keys_distinct<V>(es: Seq<(String, V)>) -> bool {
    forall|i: int, j: int| 0 <= i < j < es.len() ==> es[i].0@ != es[j].0@
}

proof fn lemma_entries_map_index<V>(es: Seq<(String, V)>)
    requires
        keys_distinct(es),
    ensures
        forall|i: int| 0 <= i < es.len() ==> #[trigger] entries_map(es).contains_key(es[i].0@)
            && entries_map(es)[es[i].0@] == es[i].1,
        forall|k: Seq<char>| #[trigger] entries_map(es).contains_key(k) ==> exists|i: int|
            0 <= i < es.len() && es[i].0@ == k,
    decreases es.len(),
{
    if es.len() > 0 {
        let init = es.drop_last();
        assert(keys_distinct(init));
        lemma_entries_map_index(init);
        assert forall|i: int| 0 <= i < es.len() implies #[trigger] entries_map(es).contains_key(es[i].0@)
            && entries_map(es)[es[i].0@] == es[i].1 by {
            if i < es.len() - 1 {
                assert(init.len() == es.len() - 1);
                assert(init[i] == es[i]);
                assert(entries_map(init).contains_key(init[i].0@));
                assert(es[i].0@ != es[es.len() - 1].0@);
            }
        }
        assert forall|k: Seq<char>| #[trigger] entries_map(es).contains_key(k) implies exists|i: int|
            0 <= i < es.len() && es[i].0@ == k by {
            if k != es.last().0@ {
                assert(entries_map(init).contains_key(k));
                let i = choose|i: int| 0 <= i < init.len() && init[i].0@ == k;
                assert(es[i] == init[i]);
            }
        }
    }
}

pub struct Table<V> {
    entries: Vec<(String, V)>,
}

impl<V> View for Table<V> {
    type V = Map<Seq<char>, V>;

    closed spec fn view(&self) -> Map<Seq<char>, V> {
        entries_map(self.entries@)
    }
}

impl<V> Table<V> {
    /// Whether the entries have distinct keys.
    pub closed spec fn wf(&self) -> bool {
        keys_distinct(self.entries@)
    }

    pub fn new() -> (r: Self)
        ensures
            r.wf(),
            r@ == Map::<Seq<char>, V>::empty(),
    {
        Table { entries: Vec::new() }
    }

    fn find(&self, key: &str) -> (r: Option<usize>)
        requires
            self.wf(),
        ensures
            match r {
                Some(i) => i < self.entries@.len() && self.entries@[i as int].0@ == key@,
                None => !self@.contains_key(key@),
            },
    {
        proof {
            lemma_entries_map_index(self.entries@);
        }
        let mut i: usize = 0;
        while i < self.entries.len()
            invariant
                i <= self.entries@.len(),
                forall|j: int| 0 <= j < i ==> self.entries@[j].0@ != key@,
            decreases self.entries@.len() - i,
        {
            if same_text(self.entries[i].0.as_str(), key) {
                return Some(i);
            }
            i = i + 1;
        }
        None
    }

    /// The value under `key`, if any.
    pub fn get(&self, key: &str) -> (r: Option<&V>)
        requires
            self.wf(),
        ensures
            match r {
                Some(v) => self@.contains_key(key@) && self@[key@] == *v,
                None => !self@.contains_key(key@),
            },
    {
        match self.find(key) {
            Some(i) => {
                proof {
                    lemma_entries_map_index(self.entries@);
                    assert(entries_map(self.entries@).contains_key(self.entries@[i as int].0@));
                }
                Some(&self.entries[i].1)
            },
            None => None,
        }
    }

    /// Sets the value under `key`, replacing any earlier one.
    pub fn insert(&mut self, key: String, value: V)
        requires
            old(self).wf(),
        ensures
            final(self).wf(),
            final(self)@ == old(self)@.insert(key@, value),
    {
        match self.find(key.as_str()) {
            Some(i) => {
                let ghost old_es = self.entries@;
                let ghost k = key@;
                proof {
                    lemma_entries_map_index(old_es);
                }
                self.entries.set(i, (key, value));
                let ghost new_es = self.entries@;
                assert(keys_distinct(new_es)) by {
                    assert forall|a: int, b: int| 0 <= a < b < new_es.len() implies new_es[a].0@ != new_es[b].0@ by {
                        assert(old_es[a].0@ != old_es[b].0@);
                    }
                }
                proof {
                    lemma_entries_map_index(new_es);
                }
                assert(entries_map(new_es) =~= entries_map(old_es).insert(k, value)) by {
                    assert forall|q: Seq<char>| #[trigger] entries_map(new_es).contains_key(q)
                        <==> entries_map(old_es).insert(k, value).contains_key(q) by {
                        if entries_map(new_es).contains_key(q) {
                            let j = choose|j: int| 0 <= j < new_es.len() && new_es[j].0@ == q;
                            if j != i {
                                assert(new_es[j] == old_es[j]);
                            }
                        }
                        if entries_map(old_es).contains_key(q) {
                            let j = choose|j: int| 0 <= j < old_es.len() && old_es[j].0@ == q;
                            if j != i {
                                assert(new_es[j] == old_es[j]);
                            } else {
                                assert(new_es[j].0@ == q);
                            }
                        }
                        if q == k {
                            assert(new_es[i as int].0@ == q);
                        }
                    }
                    assert forall|q: Seq<char>| #[trigger] entries_map(new_es).contains_key(q) implies
                        entries_map(new_es)[q] == entries_map(old_es).insert(k, value)[q] by {
                        let j = choose|j: int| 0 <= j < new_es.len() && new_es[j].0@ == q;
                        if j != i {
                            assert(new_es[j] == old_es[j]);
                        }
                    }
                }
            },
            None => {
                let ghost old_es = self.entries@;
                self.entries.push((key, value));
                proof {
                    lemma_entries_map_index(old_es);
                    let new_es = self.entries@;
                    assert(new_es.drop_last() =~= old_es);
                    assert forall|a: int, b: int| 0 <= a < b < new_es.len() implies new_es[a].0@ != new_es[b].0@ by {
                        if b == new_es.len() - 1 {
                            assert(old_es[a] == new_es[a]);
                            assert(entries_map(old_es).contains_key(old_es[a].0@));
                        } else {
                            assert(old_es[a] == new_es[a]);
                            assert(old_es[b] == new_es[b]);
                        }
                    }
                }
            },
        }
    }

    /// The number of keys.
    pub fn len(&self) -> (r: usize)
        requires
            self.wf(),
        ensures
            r == self@.dom().len(),
    {
        proof {
            lemma_entries_map_len(self.entries@);
        }
        self.entries.len()
    }
}

proof fn lemma_entries_map_len<V>(es: Seq<(String, V)>)
    requires
        keys_distinct(es),
    ensures
        entries_map(es).dom().finite(),
        entries_map(es).dom().len() == es.len(),
    decreases es.len(),
{
    if es.len() > 0 {
        let init = es.drop_last();
        assert(keys_distinct(init));
        lemma_entries_map_len(init);
        lemma_entries_map_index(init);
        if entries_map(init).contains_key(es.last().0@) {
            let i = choose|i: int| 0 <= i < init.len() && init[i].0@ == es.last().0@;
            assert(es[i] == init[i]);
        }
    }
}

} // verus!
