//! Error context: a small map of text keys to text values, kept in the order
//! the keys were first added, with the source location and time of an error.

use vstd::prelude::*;
use crate::text::str_eq;

verus! {

/// Pairs by key; a later pair of a key replaces an earlier one.
pub open spec fn pairs_map(e: Seq<(String, String)>) -> Map<Seq<char>, Seq<char>>
    decreases e.len(),
{
    if e.len() == 0 {
        Map::empty()
    } else {
        pairs_map(e.drop_last()).insert(e.last().0@, e.last().1@)
    }
}

/// No two pairs share a key.
pub open spec fn keys_distinct(e: Seq<(String, String)>) -> bool {
    forall|i: int, j: int| 0 <= i < j < e.len() ==> e[i].0@ != e[j].0@
}

proof fn lemma_pair_at(e: Seq<(String, String)>, i: int)
    requires
        keys_distinct(e),
        0 <= i < e.len(),
    ensures
        pairs_map(e).contains_key(e[i].0@),
        pairs_map(e)[e[i].0@] == e[i].1@,
    decreases e.len(),
{
    if i < e.len() - 1 {
        lemma_pair_at(e.drop_last(), i);
    }
}

proof fn lemma_pair_absent(e: Seq<(String, String)>, k: Seq<char>)
    requires
        forall|i: int| 0 <= i < e.len() ==> #[trigger] e[i].0@ != k,
    ensures
        !pairs_map(e).contains_key(k),
    decreases e.len(),
{
    if e.len() > 0 {
        let d = e.drop_last();
        assert forall|i: int| 0 <= i < d.len() implies #[trigger] d[i].0@ != k by {
            assert(d[i] == e[i]);
        }
        lemma_pair_absent(d, k);
    }
}

proof fn lemma_pair_replace(e: Seq<(String, String)>, i: int, p: (String, String))
    requires
        keys_distinct(e),
        0 <= i < e.len(),
        p.0@ == e[i].0@,
    ensures
        pairs_map(e.update(i, p)) =~= pairs_map(e).insert(p.0@, p.1@),
        keys_distinct(e.update(i, p)),
    decreases e.len(),
{
    let u = e.update(i, p);
    if i == e.len() - 1 {
        assert(u.drop_last() =~= e.drop_last());
        lemma_pair_absent(e.drop_last(), p.0@);
    } else {
        assert(u.drop_last() =~= e.drop_last().update(i, p));
        lemma_pair_replace(e.drop_last(), i, p);
    }
}

/// Context data of an error: text values by text key, in the order the keys
/// were first added.
#[derive(Debug)]
pub struct ContextMap {
    entries: Vec<(String, String)>,
}

impl View for ContextMap {
    type V = Map<Seq<char>, Seq<char>>;

    closed spec fn view(&self) -> Map<Seq<char>, Seq<char>> {
        pairs_map(self.entries@)
    }
}

/// The `{"key": "value", ...}` listing of pairs.
pub open spec fn pairs_listing(e: Seq<(Seq<char>, Seq<char>)>) -> Seq<char> {
    "{"@ + pairs_body(e) + "}"@
}

/// The comma-separated `"key": "value"` items of pairs.
pub open spec fn pairs_body(e: Seq<(Seq<char>, Seq<char>)>) -> Seq<char>
    decreases e.len(),
{
    if e.len() == 0 {
        seq![]
    } else if e.len() == 1 {
        pair_item(e[0])
    } else {
        pairs_body(e.drop_last()) + ", "@ + pair_item(e.last())
    }
}

/// One `"key": "value"` item.
pub open spec fn pair_item(p: (Seq<char>, Seq<char>)) -> Seq<char> {
    "\""@ + p.0 + "\": \""@ + p.1 + "\""@
}

impl ContextMap {
    #[verifier::type_invariant]
    spec fn distinct(&self) -> bool {
        keys_distinct(self.entries@)
    }

    /// The pairs, in the order their keys were first added.
    pub closed spec fn pairs(&self) -> Seq<(Seq<char>, Seq<char>)> {
        self.entries@.map_values(|p: (String, String)| (p.0@, p.1@))
    }

    /// An empty map.
    pub fn new() -> (r: Self)
        ensures
            r@ =~= Map::empty(),
            r.pairs().len() == 0,
    {
        ContextMap { entries: Vec::new() }
    }

    /// Sets the value of a key, replacing an earlier value of it in place.
    pub fn insert(&mut self, key: String, value: String)
        ensures
            final(self)@ == old(self)@.insert(key@, value@),
    {
        proof {
            use_type_invariant(&*self);
        }
        let n = self.entries.len();
        let mut i: usize = 0;
        while i < n
            invariant
                n == self.entries@.len(),
                0 <= i <= n,
                keys_distinct(self.entries@),
                self.entries@ == old(self).entries@,
                forall|j: int| 0 <= j < i ==> #[trigger] self.entries@[j].0@ != key@,
            decreases n - i,
        {
            if str_eq(self.entries[i].0.as_str(), key.as_str()) {
                let p = (key, value);
                proof {
                    lemma_pair_replace(self.entries@, i as int, p);
                }
                let mut all: Vec<(String, String)> = Vec::new();
                std::mem::swap(&mut all, &mut self.entries);
                all.set(i, p);
                self.entries = all;
                return;
            }
            i = i + 1;
        }
        let p = (key, value);
        proof {
            lemma_pair_absent(self.entries@, p.0@);
            let e = self.entries@.push(p);
            assert(e.drop_last() =~= self.entries@);
            assert forall|a: int, b: int| 0 <= a < b < e.len() implies e[a].0@ != e[b].0@ by {
                if b == e.len() - 1 {
                    assert(e[a] == self.entries@[a]);
                }
            }
        }
        let mut all: Vec<(String, String)> = Vec::new();
        std::mem::swap(&mut all, &mut self.entries);
        all.push(p);
        self.entries = all;
    }

    /// The value of a key.
    pub fn get(&self, key: &str) -> (r: Option<&String>)
        ensures
            match r {
                Some(v) => self@.contains_key(key@) && v@ == self@[key@],
                None => !self@.contains_key(key@),
            },
    {
        proof {
            use_type_invariant(self);
        }
        let n = self.entries.len();
        let mut i: usize = 0;
        while i < n
            invariant
                n == self.entries@.len(),
                0 <= i <= n,
                keys_distinct(self.entries@),
                forall|j: int| 0 <= j < i ==> #[trigger] self.entries@[j].0@ != key@,
            decreases n - i,
        {
            if str_eq(self.entries[i].0.as_str(), key) {
                proof {
                    lemma_pair_at(self.entries@, i as int);
                }
                return Some(&self.entries[i].1);
            }
            i = i + 1;
        }
        proof {
            lemma_pair_absent(self.entries@, key@);
        }
        None
    }

    /// Whether the map holds no key.
    pub fn is_empty(&self) -> (r: bool)
        ensures
            r == (self.pairs().len() == 0),
            r ==> self@ =~= Map::empty(),
    {
        proof {
            if self.entries@.len() == 0 {
                assert(self@ =~= Map::empty());
            }
        }
        self.entries.len() == 0
    }

    /// The `{"key": "value", ...}` listing of the pairs.
    pub fn listing(&self) -> (r: String)
        ensures
            r@ == pairs_listing(self.pairs()),
    {
        let ghost ps = self.pairs();
        let n = self.entries.len();
        let mut s = String::from_str("{");
        let mut i: usize = 0;
        proof {
            assert(ps.take(0) =~= Seq::<(Seq<char>, Seq<char>)>::empty());
        }
        while i < n
            invariant
                n == self.entries@.len(),
                ps == self.pairs(),
                ps.len() == n,
                0 <= i <= n,
                s@ == "{"@ + pairs_body(ps.take(i as int)),
            decreases n - i,
        {
            let k = self.entries[i].0.as_str();
            let v = self.entries[i].1.as_str();
            proof {
                assert(ps.take(i as int + 1).drop_last() =~= ps.take(i as int));
                assert(ps[i as int] == (k@, v@));
            }
            if i > 0 {
                s.append(", ");
            }
            s.append("\"");
            s.append(k);
            s.append("\": \"");
            s.append(v);
            s.append("\"");
            proof {
                if i == 0 {
                    assert(ps.take(1)[0] == ps[0]);
                }
                assert(s@ =~= "{"@ + pairs_body(ps.take(i as int + 1)));
            }
            i = i + 1;
        }
        s.append("}");
        proof {
            assert(ps.take(n as int) =~= ps);
        }
        s
    }
}

impl Clone for ContextMap {
    fn clone(&self) -> (r: Self)
        ensures
            r@ == self@,
            r.pairs() == self.pairs(),
    {
        proof {
            use_type_invariant(self);
        }
        let n = self.entries.len();
        let mut entries: Vec<(String, String)> = Vec::new();
        let mut i: usize = 0;
        while i < n
            invariant
                n == self.entries@.len(),
                0 <= i <= n,
                entries@ == self.entries@.take(i as int),
            decreases n - i,
        {
            let k = self.entries[i].0.clone();
            let v = self.entries[i].1.clone();
            entries.push((k, v));
            proof {
                assert(entries@ =~= self.entries@.take(i as int + 1));
            }
            i = i + 1;
        }
        proof {
            assert(entries@ =~= self.entries@);
        }
        ContextMap { entries }
    }
}

} // verus!
