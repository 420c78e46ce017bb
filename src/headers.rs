//! An insertion-ordered map of header names to values.

use vstd::prelude::*;

verus! {

/// The map that a list of distinct-keyed entries stands for.
pub open spec fn map_of(s: Seq<(Seq<char>, Seq<char>)>) -> Map<Seq<char>, Seq<char>>
    decreases s.len(),
{
    if s.len() == 0 {
        Map::empty()
    } else {
        map_of(s.drop_last()).insert(s.last().0, s.last().1)
    }
}

/// No two entries share a key.
pub open spec fn keys_distinct(s: Seq<(Seq<char>, Seq<char>)>) -> bool {
    forall|i: int, j: int| 0 <= i < j < s.len() ==> s[i].0 != s[j].0
}

/// The views of a list of owned entries.
pub open spec fn entry_views(v: Seq<(String, String)>) -> Seq<(Seq<char>, Seq<char>)> {
    v.map_values(|e: (String, String)| (e.0@, e.1@))
}

pub proof fn lemma_map_of_lookup(s: Seq<(Seq<char>, Seq<char>)>, i: int)
    requires
        keys_distinct(s),
        0 <= i < s.len(),
    ensures
        map_of(s).contains_key(s[i].0),
        map_of(s)[s[i].0] == s[i].1,
    decreases s.len(),
{
    if i < s.len() - 1 {
        let init = s.drop_last();
        assert(keys_distinct(init));
        assert(init[i] == s[i]);
        lemma_map_of_lookup(init, i);
    }
}

pub proof fn lemma_map_of_absent(s: Seq<(Seq<char>, Seq<char>)>, k: Seq<char>)
    requires
        forall|j: int| 0 <= j < s.len() ==> s[j].0 != k,
    ensures
        !map_of(s).contains_key(k),
    decreases s.len(),
{
    if s.len() > 0 {
        lemma_map_of_absent(s.drop_last(), k);
    }
}

pub proof fn lemma_map_of_update(s: Seq<(Seq<char>, Seq<char>)>, i: int, v: Seq<char>)
    requires
        keys_distinct(s),
        0 <= i < s.len(),
    ensures
        map_of(s.update(i, (s[i].0, v))) == map_of(s).insert(s[i].0, v),
    decreases s.len(),
{
    let k = s[i].0;
    let t = s.update(i, (k, v));
    if i == s.len() - 1 {
        assert(t.drop_last() =~= s.drop_last());
        assert(map_of(t) =~= map_of(s).insert(k, v));
    } else {
        let init = s.drop_last();
        assert(keys_distinct(init));
        assert(init[i] == s[i]);
        assert(t.drop_last() =~= init.update(i, (k, v)));
        lemma_map_of_update(init, i, v);
        assert(s.last().0 != k);
        assert(map_of(t) =~= map_of(s).insert(k, v));
    }
}

/// Header names mapped to values; an insert under a present name replaces its value in place.
#[derive(Clone, Debug, PartialEq, Eq)]
pub struct HeaderMap {
    entries: Vec<(String, String)>,
}

impl View for HeaderMap {
    type V = Map<Seq<char>, Seq<char>>;

    closed spec fn view(&self) -> Map<Seq<char>, Seq<char>> {
        map_of(entry_views(self.entries@))
    }
}

impl HeaderMap {
    /// No two entries share a name.
    pub closed spec fn wf(&self) -> bool {
        keys_distinct(entry_views(self.entries@))
    }

    /// The empty map.
    pub fn new() -> (r: Self)
        ensures
            r.wf(),
            r@ == Map::<Seq<char>, Seq<char>>::empty(),
    {
        let r = HeaderMap { entries: Vec::new() };
        assert(entry_views(r.entries@) =~= Seq::empty());
        r
    }

    /// The position of `key` among the entries.
    fn position(&self, key: &str) -> (r: Option<usize>)
        ensures
            match r {
                Some(i) => i < self.entries@.len() && self.entries@[i as int].0@ == key@,
                None => forall|j: int|
                    0 <= j < self.entries@.len() ==> self.entries@[j].0@ != key@,
            },
    {
        let mut i: usize = 0;
        while i < self.entries.len()
            invariant
                i <= self.entries@.len(),
                forall|j: int| 0 <= j < i ==> self.entries@[j].0@ != key@,
            decreases self.entries@.len() - i,
        {
            if crate::text::text_eq(self.entries[i].0.as_str(), key) {
                return Some(i);
            }
            i = i + 1;
        }
        None
    }

    /// Sets `key` to `value`.
    pub fn insert(&mut self, key: String, value: String)
        requires
            old(self).wf(),
        ensures
            final(self).wf(),
            final(self)@ == old(self)@.insert(key@, value@),
    {
        let ghost before = entry_views(self.entries@);
        match self.position(key.as_str()) {
            Some(i) => {
                let ghost vk = self.entries@[i as int].0@;
                self.entries.set(i, (key, value));
                proof {
                    assert(before[i as int].0 == key@);
                    assert(entry_views(self.entries@) =~= before.update(i as int, (key@, value@)));
                    lemma_map_of_update(before, i as int, value@);
                }
            },
            None => {
                let ghost kv = key@;
                let ghost vv = value@;
                self.entries.push((key, value));
                proof {
                    assert(entry_views(self.entries@) =~= before.push((kv, vv)));
                    assert(entry_views(self.entries@).drop_last() =~= before);
                    assert forall|a: int, b: int|
                        0 <= a < b < entry_views(self.entries@).len() implies entry_views(
                        self.entries@,
                    )[a].0 != entry_views(self.entries@)[b].0 by {
                        if b == before.len() {
                            assert(before[a].0 == self.entries@[a].0@);
                        }
                    }
                }
            },
        }
    }

    /// The value under `key`, if any.
    pub fn get(&self, key: &str) -> (r: Option<&String>)
        requires
            self.wf(),
        ensures
            match r {
                Some(v) => self@.contains_key(key@) && self@[key@] == v@,
                None => !self@.contains_key(key@),
            },
    {
        match self.position(key) {
            Some(i) => {
                proof {
                    lemma_map_of_lookup(entry_views(self.entries@), i as int);
                }
                Some(&self.entries[i].1)
            },
            None => {
                proof {
                    let s = entry_views(self.entries@);
                    assert forall|j: int| 0 <= j < s.len() implies s[j].0 != key@ by {
                        assert(s[j].0 == self.entries@[j].0@);
                    }
                    lemma_map_of_absent(s, key@);
                }
                None
            },
        }
    }

    /// The number of entries.
    pub fn len(&self) -> (r: usize)
        requires
            self.wf(),
        ensures
            r == self@.dom().len(),
    {
        proof {
            lemma_map_of_len(entry_views(self.entries@));
        }
        self.entries.len()
    }

    /// Whether there are no entries.
    pub fn is_empty(&self) -> (r: bool)
        requires
            self.wf(),
        ensures
            r == (self@.dom().len() == 0),
    {
        self.len() == 0
    }

    /// The entries, in the order their names were first inserted.
    pub fn entries(&self) -> (r: &Vec<(String, String)>)
        requires
            self.wf(),
        ensures
            keys_distinct(entry_views(r@)),
            map_of(entry_views(r@)) == self@,
    {
        &self.entries
    }
}

pub proof fn lemma_map_of_len(s: Seq<(Seq<char>, Seq<char>)>)
    requires
        keys_distinct(s),
    ensures
        map_of(s).dom().finite(),
        map_of(s).dom().len() == s.len(),
    decreases s.len(),
{
    if s.len() > 0 {
        let init = s.drop_last();
        assert(keys_distinct(init));
        lemma_map_of_len(init);
        assert forall|j: int| 0 <= j < init.len() implies init[j].0 != s.last().0 by {
            assert(init[j] == s[j]);
        }
        lemma_map_of_absent(init, s.last().0);
    }
}

} // verus!
