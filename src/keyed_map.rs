//! A map from string keys to values, kept as a list of entries in the order in
//! which their keys were first written.
use vstd::prelude::*;

verus! {

/// The map that a list of entries denotes: a later entry for a key overrides an
/// earlier one.
pub open spec fn map_of<V>(s: Seq<(Seq<char>, V)>) -> Map<Seq<char>, V>
    decreases s.len(),
{
    if s.len() == 0 {
        Map::empty()
    } else {
        map_of(s.drop_last()).insert(s.last().0, s.last().1)
    }
}

/// No key occurs twice in the list.
pub open spec fn keys_unique<V>(s: Seq<(Seq<char>, V)>) -> bool {
    forall|i: int, j: int| 0 <= i < s.len() && 0 <= j < s.len() && i != j ==> s[i].0 != s[j].0
}

proof fn lemma_map_of_dom<V>(s: Seq<(Seq<char>, V)>, k: Seq<char>)
    ensures
        map_of(s).contains_key(k) <==> exists|i: int| 0 <= i < s.len() && s[i].0 == k,
    decreases s.len(),
{
    if s.len() > 0 {
        lemma_map_of_dom(s.drop_last(), k);
        if map_of(s.drop_last()).contains_key(k) {
            let i = choose|i: int| 0 <= i < s.len() - 1 && s.drop_last()[i].0 == k;
            assert(s[i].0 == k);
        }
        if exists|i: int| 0 <= i < s.len() && s[i].0 == k {
            let i = choose|i: int| 0 <= i < s.len() && s[i].0 == k;
            if i < s.len() - 1 {
                assert(s.drop_last()[i].0 == k);
            }
        }
    }
}

proof fn lemma_map_of_index<V>(s: Seq<(Seq<char>, V)>, i: int)
    requires
        keys_unique(s),
        0 <= i < s.len(),
    ensures
        map_of(s).contains_key(s[i].0),
        map_of(s)[s[i].0] == s[i].1,
    decreases s.len(),
{
    if i < s.len() - 1 {
        let t = s.drop_last();
        assert(t[i] == s[i]);
        lemma_map_of_index(t, i);
        assert(s[i].0 != s.last().0);
    }
}

proof fn lemma_map_of_update<V>(s: Seq<(Seq<char>, V)>, i: int, v: V)
    requires
        keys_unique(s),
        0 <= i < s.len(),
    ensures
        map_of(s.update(i, (s[i].0, v))) == map_of(s).insert(s[i].0, v),
    decreases s.len(),
{
    let k = s[i].0;
    let u = s.update(i, (k, v));
    if i == s.len() - 1 {
        assert(u.drop_last() == s.drop_last());
        assert(map_of(u) =~= map_of(s).insert(k, v));
    } else {
        let t = s.drop_last();
        assert(u.drop_last() == t.update(i, (k, v)));
        lemma_map_of_update(t, i, v);
        assert(s.last().0 != k);
        assert(map_of(u) =~= map_of(s).insert(k, v));
    }
}

/// A string-keyed map whose entries keep the order in which their keys were
/// first written.
pub struct KeyedMap<V> {
    entries: Vec<(String, V)>,
}

impl<V> KeyedMap<V> {
    /// The entries, keys as character sequences, in order.
    pub closed spec fn entries_view(&self) -> Seq<(Seq<char>, V)> {
        self.entries@.map_values(|e: (String, V)| (e.0@, e.1))
    }

    /// The values of the entries, in order.
    pub open spec fn values_view(&self) -> Seq<V> {
        self.entries_view().map_values(|e: (Seq<char>, V)| e.1)
    }

    /// The key-to-value map.
    pub open spec fn view(&self) -> Map<Seq<char>, V> {
        map_of(self.entries_view())
    }

    /// Well-formed: no key occurs in two entries.
    pub open spec fn wf(&self) -> bool {
        keys_unique(self.entries_view())
    }

    /// An empty map.
    pub fn new() -> (r: Self)
        ensures
            r.wf(),
            r@ == Map::<Seq<char>, V>::empty(),
            r.entries_view().len() == 0,
    {
        let r = KeyedMap { entries: Vec::new() };
        assert(r.entries_view() =~= Seq::empty());
        r
    }

    /// The number of entries.
    pub fn len(&self) -> (r: usize)
        ensures
            r == self.entries_view().len(),
    {
        self.entries.len()
    }

    /// The position of the entry for `key`, if there is one.
    fn find(&self, key: &String) -> (r: Option<usize>)
        requires
            self.wf(),
        ensures
            match r {
                Some(i) => i < self.entries_view().len() && self.entries_view()[i as int].0 == key@,
                None => !self@.contains_key(key@),
            },
    {
        proof {
            lemma_map_of_dom(self.entries_view(), key@);
        }
        let mut i: usize = 0;
        while i < self.entries.len()
            invariant
                i <= self.entries.len(),
                forall|j: int| 0 <= j < i ==> self.entries_view()[j].0 != key@,
            decreases self.entries.len() - i,
        {
            assert(self.entries_view()[i as int] == (self.entries@[i as int].0@, self.entries@[i as int].1));
            if self.entries[i].0 == *key {
                return Some(i);
            }
            i = i + 1;
        }
        None
    }

    /// The value stored under `key`, if any.
    pub fn get(&self, key: &String) -> (r: Option<&V>)
        requires
            self.wf(),
        ensures
            r is Some <==> self@.contains_key(key@),
            r is Some ==> *r->Some_0 == self@[key@],
    {
        match self.find(key) {
            Some(i) => {
                proof {
                    lemma_map_of_index(self.entries_view(), i as int);
                }
                Some(&self.entries[i].1)
            },
            None => None,
        }
    }

    /// The value of the entry at `index`.
    pub fn value_at(&self, index: usize) -> (r: &V)
        requires
            index < self.entries_view().len(),
        ensures
            *r == self.values_view()[index as int],
    {
        &self.entries[index].1
    }

    /// Writes `value` under `key`, replacing the value that was there. A new key
    /// goes after every existing entry.
    pub fn put(&mut self, key: String, value: V)
        requires
            old(self).wf(),
        ensures
            final(self).wf(),
            final(self)@ == old(self)@.insert(key@, value),
            old(self)@.contains_key(key@) ==> final(self).entries_view().len()
                == old(self).entries_view().len(),
            !old(self)@.contains_key(key@) ==> final(self).entries_view()
                == old(self).entries_view().push((key@, value)),
    {
        match self.find(&key) {
            Some(i) => {
                let ghost s = self.entries_view();
                proof {
                    lemma_map_of_index(s, i as int);
                }
                self.entries.set(i, (key, value));
                proof {
                    assert(self.entries_view() =~= s.update(i as int, (s[i as int].0, value)));
                    lemma_map_of_update(s, i as int, value);
                }
            },
            None => {
                let ghost s = self.entries_view();
                proof {
                    lemma_map_of_dom(s, key@);
                }
                self.entries.push((key, value));
                assert(self.entries_view() =~= s.push((key@, value)));
                assert(self.entries_view().drop_last() =~= s);
            },
        }
    }

    /// Removes the entry for `key`; removing an absent key changes nothing.
    pub fn delete(&mut self, key: &String)
        requires
            old(self).wf(),
        ensures
            final(self).wf(),
            final(self)@ == old(self)@.remove(key@),
    {
        match self.find(key) {
            Some(i) => {
                let ghost s = self.entries_view();
                self.entries.remove(i);
                proof {
                    let t = self.entries_view();
                    assert(t =~= s.remove(i as int));
                    assert forall|a: int, b: int| 0 <= a < t.len() && 0 <= b < t.len() && a != b
                        implies t[a].0 != t[b].0 by {
                        let a2 = if a < i { a } else { a + 1 };
                        let b2 = if b < i { b } else { b + 1 };
                        assert(t[a] == s[a2] && t[b] == s[b2]);
                    }
                    assert forall|k: Seq<char>| #![auto] map_of(t).contains_key(k)
                        <==> map_of(s).remove(key@).contains_key(k) by {
                        lemma_map_of_dom(t, k);
                        lemma_map_of_dom(s, k);
                        if exists|j: int| 0 <= j < s.len() && s[j].0 == k && k != key@ {
                            let j = choose|j: int| 0 <= j < s.len() && s[j].0 == k && k != key@;
                            let j2 = if j < i { j } else { j - 1 };
                            assert(t[j2] == s[j]);
                        }
                        if exists|j: int| 0 <= j < t.len() && t[j].0 == k {
                            let j = choose|j: int| 0 <= j < t.len() && t[j].0 == k;
                            let j2 = if j < i { j } else { j + 1 };
                            assert(t[j] == s[j2]);
                        }
                    }
                    assert forall|k: Seq<char>| #![auto] map_of(t).contains_key(k)
                        implies map_of(t)[k] == map_of(s)[k] by {
                        lemma_map_of_dom(t, k);
                        let j = choose|j: int| 0 <= j < t.len() && t[j].0 == k;
                        let j2 = if j < i { j } else { j + 1 };
                        assert(t[j] == s[j2]);
                        lemma_map_of_index(t, j);
                        lemma_map_of_index(s, j2);
                    }
                    assert(map_of(t) =~= map_of(s).remove(key@));
                }
            },
            None => {
                assert(self@ =~= old(self)@.remove(key@));
            },
        }
    }
}

} // verus!
