//! The flat `key → value` settings map every native config file lowers to.

use vstd::prelude::*;

use crate::strs::{seq_eq, chars_of, string_of};

verus! {

/// The map a sequence of `(key, value)` writes denote: each write replaces any earlier value of
/// its key.
pub open spec fn map_of(writes: Seq<(Seq<char>, Seq<char>)>) -> Map<Seq<char>, Seq<char>>
    decreases writes.len(),
{
    if writes.len() == 0 {
        Map::empty()
    } else {
        map_of(writes.drop_last()).insert(writes.last().0, writes.last().1)
    }
}

/// A flat `key → value` map of string settings, kept as the writes that built it.
///
/// A later write of a key replaces an earlier one, as `BTreeMap::insert` does.
pub struct KvMap {
    writes: Vec<(Vec<char>, Vec<char>)>,
}

impl View for KvMap {
    type V = Map<Seq<char>, Seq<char>>;

    open spec fn view(&self) -> Map<Seq<char>, Seq<char>> {
        map_of(self.writes_view())
    }
}

impl KvMap {
    /// The writes, as sequences.
    pub closed spec fn writes_view(&self) -> Seq<(Seq<char>, Seq<char>)> {
        self.writes@.map_values(|w: (Vec<char>, Vec<char>)| (w.0@, w.1@))
    }

    /// An empty map.
    pub fn new() -> (m: Self)
        ensures
            m@ == Map::<Seq<char>, Seq<char>>::empty(),
            m.writes_view().len() == 0,
    {
        let m = KvMap { writes: Vec::new() };
        assert(m.writes_view().len() == 0);
        m
    }

    /// Set `key` to `value`, replacing any earlier value.
    pub fn insert_chars(&mut self, key: Vec<char>, value: Vec<char>)
        ensures
            final(self)@ == old(self)@.insert(key@, value@),
            final(self).writes_view() == old(self).writes_view().push((key@, value@)),
    {
        let ghost before = self.writes_view();
        self.writes.push((key, value));
        assert(self.writes_view().drop_last() =~= before);
    }

    /// Set `key` to `value`, replacing any earlier value.
    pub fn insert(&mut self, key: &str, value: &str)
        ensures
            final(self)@ == old(self)@.insert(key@, value@),
    {
        self.insert_chars(chars_of(key), chars_of(value));
    }

    /// The number of writes made.
    pub fn write_count(&self) -> (n: usize)
        ensures
            n == self.writes_view().len(),
    {
        self.writes.len()
    }

    /// The `i`-th write, as `(key, value)`.
    pub fn write_at(&self, i: usize) -> (w: (&Vec<char>, &Vec<char>))
        requires
            i < self.writes_view().len(),
        ensures
            (w.0@, w.1@) == self.writes_view()[i as int],
    {
        let w = &self.writes[i];
        (&w.0, &w.1)
    }

    /// The value of `key`, if the map holds one.
    pub fn get(&self, key: &[char]) -> (r: Option<&Vec<char>>)
        ensures
            match r {
                Some(v) => self@.contains_key(key@) && self@[key@] == v@,
                None => !self@.contains_key(key@),
            },
    {
        let ghost ws = self.writes_view();
        let mut i = self.writes.len();
        while i > 0
            invariant
                i <= self.writes@.len(),
                ws == self.writes_view(),
                forall|j: int| i <= j < ws.len() ==> ws[j].0 != key@,
            decreases i,
        {
            i -= 1;
            if seq_eq(&self.writes[i].0, key) {
                proof {
                    lemma_map_of_last(ws, key@, i as int);
                }
                return Some(&self.writes[i].1);
            }
        }
        proof {
            lemma_map_of_absent(ws, key@);
        }
        None
    }

    /// The value of `key`, if the map holds one.
    pub fn get_str(&self, key: &str) -> (r: Option<&Vec<char>>)
        ensures
            match r {
                Some(v) => self@.contains_key(key@) && self@[key@] == v@,
                None => !self@.contains_key(key@),
            },
    {
        let k = chars_of(key);
        self.get(&k)
    }

    /// The value of `key` as a `String`, if the map holds one.
    pub fn get_string(&self, key: &str) -> (r: Option<String>)
        ensures
            match r {
                Some(v) => self@.contains_key(key@) && self@[key@] == v@,
                None => !self@.contains_key(key@),
            },
    {
        match self.get_str(key) {
            Some(v) => Some(string_of(v)),
            None => None,
        }
    }
}

/// The last write of a key decides its value.
pub proof fn lemma_map_of_last(ws: Seq<(Seq<char>, Seq<char>)>, k: Seq<char>, i: int)
    requires
        0 <= i < ws.len(),
        ws[i].0 == k,
        forall|j: int| i < j < ws.len() ==> ws[j].0 != k,
    ensures
        map_of(ws).contains_key(k),
        map_of(ws)[k] == ws[i].1,
    decreases ws.len(),
{
    if i < ws.len() - 1 {
        lemma_map_of_last(ws.drop_last(), k, i);
    }
}

/// A key no write names is absent.
pub proof fn lemma_map_of_absent(ws: Seq<(Seq<char>, Seq<char>)>, k: Seq<char>)
    requires
        forall|j: int| 0 <= j < ws.len() ==> ws[j].0 != k,
    ensures
        !map_of(ws).contains_key(k),
    decreases ws.len(),
{
    if ws.len() > 0 {
        lemma_map_of_absent(ws.drop_last(), k);
    }
}

} // verus!
