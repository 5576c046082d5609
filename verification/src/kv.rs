//! Lists of distinct keys with text values, standing for a map from text to text.

use vstd::prelude::*;
use vstd::string::*;
use crate::utils::str_eq;

verus! {

/// The map that a list of pairs stands for; a later pair wins over an earlier one.
pub open spec fn pairs_map(s: Seq<(Seq<char>, Seq<char>)>) -> Map<Seq<char>, Seq<char>>
    decreases s.len(),
{
    if s.len() == 0 {
        Map::empty()
    } else {
        pairs_map(s.drop_last()).insert(s.last().0, s.last().1)
    }
}

/// No key occurs twice.
pub open spec fn distinct_keys(s: Seq<(Seq<char>, Seq<char>)>) -> bool {
    forall|i: int, j: int| 0 <= i < j < s.len() ==> #[trigger] s[i].0 != #[trigger] s[j].0
}

pub open spec fn pairs_view(v: Seq<(String, String)>) -> Seq<(Seq<char>, Seq<char>)> {
    v.map_values(|p: (String, String)| (p.0@, p.1@))
}

proof fn lemma_distinct_prefix(s: Seq<(Seq<char>, Seq<char>)>)
    requires
        s.len() > 0,
        distinct_keys(s),
    ensures
        distinct_keys(s.drop_last()),
        forall|i: int| 0 <= i < s.len() - 1 ==> (#[trigger] s[i]).0 != s.last().0,
{
    let t = s.drop_last();
    assert forall|i: int, j: int| 0 <= i < j < t.len() implies #[trigger] t[i].0 != #[trigger] t[j].0 by {
        assert(t[i] == s[i] && t[j] == s[j]);
    }
    assert forall|i: int| 0 <= i < s.len() - 1 implies (#[trigger] s[i]).0 != s.last().0 by {
        assert(s[i].0 != s[s.len() - 1].0);
    }
}

/// With distinct keys, the map has one key per pair and each pair's value at its key.
pub proof fn lemma_pairs_map_shape(s: Seq<(Seq<char>, Seq<char>)>)
    requires
        distinct_keys(s),
    ensures
        pairs_map(s).dom().finite(),
        pairs_map(s).dom().len() == s.len(),
        forall|k: Seq<char>| #[trigger] pairs_map(s).contains_key(k) <==> exists|i: int| 0 <= i < s.len() && s[i].0 == k,
        forall|i: int| 0 <= i < s.len() ==> pairs_map(s)[(#[trigger] s[i]).0] == s[i].1,
    decreases s.len(),
{
    if s.len() > 0 {
        let t = s.drop_last();
        lemma_distinct_prefix(s);
        lemma_pairs_map_shape(t);
        let m = pairs_map(t);
        assert(!m.contains_key(s.last().0)) by {
            if m.contains_key(s.last().0) {
                let i = choose|i: int| 0 <= i < t.len() && t[i].0 == s.last().0;
                assert(s[i] == t[i]);
            }
        }
        assert forall|k: Seq<char>| #[trigger] pairs_map(s).contains_key(k) <==> exists|i: int| 0 <= i < s.len() && s[i].0 == k by {
            if pairs_map(s).contains_key(k) && k != s.last().0 {
                assert(m.contains_key(k));
                let i = choose|i: int| 0 <= i < t.len() && t[i].0 == k;
                assert(s[i] == t[i]);
            }
            if exists|i: int| 0 <= i < s.len() && s[i].0 == k {
                let i = choose|i: int| 0 <= i < s.len() && s[i].0 == k;
                if i < t.len() {
                    assert(t[i] == s[i]);
                    assert(m.contains_key(k));
                }
            }
        }
        assert forall|i: int| 0 <= i < s.len() implies pairs_map(s)[(#[trigger] s[i]).0] == s[i].1 by {
            if i < t.len() {
                assert(t[i] == s[i]);
            }
        }
    }
}

/// A map from text to text, kept as a list of pairs without repeated keys.
#[derive(Debug)]
pub struct KeyValues {
    entries: Vec<(String, String)>,
}

impl View for KeyValues {
    type V = Map<Seq<char>, Seq<char>>;

    closed spec fn view(&self) -> Map<Seq<char>, Seq<char>> {
        pairs_map(pairs_view(self.entries@))
    }
}

/// The position of `key` among the pairs' keys.
fn find_key(pairs: &Vec<(String, String)>, key: &str) -> (r: Option<usize>)
    ensures
        match r {
            Some(i) => i < pairs@.len() && pairs@[i as int].0@ == key@,
            None => forall|j: int| 0 <= j < pairs@.len() ==> (#[trigger] pairs@[j]).0@ != key@,
        },
{
    let mut i: usize = 0;
    while i < pairs.len()
        invariant
            i <= pairs.len(),
            forall|j: int| 0 <= j < i ==> (#[trigger] pairs@[j]).0@ != key@,
        decreases pairs.len() - i,
    {
        if str_eq(pairs[i].0.as_str(), key) {
            return Some(i);
        }
        i += 1;
    }
    None
}

/// Replacing the value of a key that occurs once updates the map at that key.
proof fn lemma_pairs_map_update(s: Seq<(Seq<char>, Seq<char>)>, k: int, v: Seq<char>)
    requires
        0 <= k < s.len(),
        distinct_keys(s),
    ensures
        pairs_map(s.update(k, (s[k].0, v))) == pairs_map(s).insert(s[k].0, v),
    decreases s.len(),
{
    let u = s.update(k, (s[k].0, v));
    if k == s.len() - 1 {
        assert(u.drop_last() =~= s.drop_last());
        assert(pairs_map(u) =~= pairs_map(s).insert(s[k].0, v));
    } else {
        let t = s.drop_last();
        lemma_distinct_prefix(s);
        lemma_pairs_map_update(t, k, v);
        assert(u.drop_last() =~= t.update(k, (t[k].0, v)));
        assert(s[k].0 != s.last().0);
        assert(pairs_map(u) =~= pairs_map(s).insert(s[k].0, v));
    }
}

impl KeyValues {
    #[verifier::type_invariant]
    spec fn keys_distinct(self) -> bool {
        distinct_keys(pairs_view(self.entries@))
    }

    /// The empty map.
    pub fn new() -> (r: KeyValues)
        ensures
            r@ == Map::<Seq<char>, Seq<char>>::empty(),
    {
        let r = KeyValues { entries: Vec::new() };
        assert(pairs_view(r.entries@) =~= Seq::empty());
        r
    }

    /// The stored pairs, in the order their keys were first set.
    pub closed spec fn pairs(&self) -> Seq<(Seq<char>, Seq<char>)> {
        pairs_view(self.entries@)
    }

    /// The map is the one its pairs make.
    pub proof fn lemma_view_of_pairs(&self)
        ensures
            self@ == pairs_map(self.pairs()),
    {
    }

    /// The pairs, each key once, in the order the keys were first set.
    pub fn entries(&self) -> (r: &Vec<(String, String)>)
        ensures
            pairs_view(r@) == self.pairs(),
            distinct_keys(pairs_view(r@)),
            pairs_map(pairs_view(r@)) == self@,
    {
        proof {
            use_type_invariant(self);
        }
        &self.entries
    }

    /// The number of keys.
    pub fn len(&self) -> (r: usize)
        ensures
            self@.dom().finite(),
            r == self@.dom().len(),
    {
        proof {
            use_type_invariant(self);
            lemma_pairs_map_shape(pairs_view(self.entries@));
        }
        self.entries.len()
    }

    /// Whether there is no key.
    pub fn is_empty(&self) -> (r: bool)
        ensures
            r == (self@ == Map::<Seq<char>, Seq<char>>::empty()),
    {
        let n = self.len();
        proof {
            if n == 0 {
                assert(self@.dom() =~= Set::empty());
                assert(self@ =~= Map::<Seq<char>, Seq<char>>::empty());
            } else {
                assert(self@.dom() != Set::<Seq<char>>::empty());
            }
        }
        n == 0
    }

    /// The value at `key`.
    pub fn get(&self, key: &str) -> (r: Option<&String>)
        ensures
            match r {
                Some(v) => self@.contains_key(key@) && self@[key@] == v@,
                None => !self@.contains_key(key@),
            },
    {
        proof {
            use_type_invariant(self);
            lemma_pairs_map_shape(pairs_view(self.entries@));
        }
        match find_key(&self.entries, key) {
            Some(i) => {
                assert(pairs_view(self.entries@)[i as int] == (self.entries@[i as int].0@, self.entries@[i as int].1@));
                Some(&self.entries[i].1)
            },
            None => {
                proof {
                    if self@.contains_key(key@) {
                        let j = choose|j: int| 0 <= j < pairs_view(self.entries@).len() && pairs_view(self.entries@)[j].0 == key@;
                        assert(self.entries@[j].0@ == key@);
                    }
                }
                None
            },
        }
    }

    /// Sets `key` to `value`, replacing an earlier value of that key.
    pub fn insert(&mut self, key: &str, value: &str)
        ensures
            final(self)@ == old(self)@.insert(key@, value@),
    {
        proof {
            use_type_invariant(&*self);
        }
        let ghost old_pairs = pairs_view(self.entries@);
        let mut entries = Vec::new();
        std::mem::swap(&mut entries, &mut self.entries);
        match find_key(&entries, key) {
            Some(i) => {
                entries.set(i, (String::from_str(key), String::from_str(value)));
                proof {
                    lemma_pairs_map_update(old_pairs, i as int, value@);
                    let now = pairs_view(entries@);
                    assert(now =~= old_pairs.update(i as int, (old_pairs[i as int].0, value@)));
                    assert forall|a: int, b: int| 0 <= a < b < now.len() implies #[trigger] now[a].0 != #[trigger] now[b].0 by {
                        assert(now[a].0 == old_pairs[a].0 && now[b].0 == old_pairs[b].0);
                    }
                }
            },
            None => {
                entries.push((String::from_str(key), String::from_str(value)));
                proof {
                    let now = pairs_view(entries@);
                    assert(now =~= old_pairs.push((key@, value@)));
                    assert(now.drop_last() =~= old_pairs);
                    assert forall|a: int, b: int| 0 <= a < b < now.len() implies #[trigger] now[a].0 != #[trigger] now[b].0 by {
                        if b == now.len() - 1 {
                            assert(now[a] == old_pairs[a]);
                        } else {
                            assert(now[a] == old_pairs[a] && now[b] == old_pairs[b]);
                        }
                    }
                }
            },
        }
        self.entries = entries;
    }

    /// The map of a list of pairs; a later pair wins over an earlier one.
    pub fn from_pairs(pairs: &Vec<(String, String)>) -> (r: KeyValues)
        ensures
            r@ == pairs_map(pairs_view(pairs@)),
    {
        let mut r = KeyValues::new();
        let mut i: usize = 0;
        while i < pairs.len()
            invariant
                i <= pairs.len(),
                r@ == pairs_map(pairs_view(pairs@).take(i as int)),
            decreases pairs.len() - i,
        {
            r.insert(pairs[i].0.as_str(), pairs[i].1.as_str());
            assert(pairs_view(pairs@).take(i + 1).drop_last() =~= pairs_view(pairs@).take(i as int));
            i += 1;
        }
        assert(pairs_view(pairs@).take(pairs.len() as int) =~= pairs_view(pairs@));
        r
    }

    /// Whether both hold the same keys with the same values.
    pub fn same(&self, other: &KeyValues) -> (r: bool)
        ensures
            r == (self@ == other@),
    {
        proof {
            use_type_invariant(self);
            use_type_invariant(other);
            lemma_pairs_map_shape(pairs_view(self.entries@));
            lemma_pairs_map_shape(pairs_view(other.entries@));
        }
        if self.entries.len() != other.entries.len() {
            return false;
        }
        let mut i: usize = 0;
        while i < self.entries.len()
            invariant
                i <= self.entries.len(),
                self.entries.len() == other.entries.len(),
                distinct_keys(pairs_view(self.entries@)),
                forall|j: int| 0 <= j < i ==> #[trigger] other@.contains_key(pairs_view(self.entries@)[j].0)
                    && other@[pairs_view(self.entries@)[j].0] == pairs_view(self.entries@)[j].1,
            decreases self.entries.len() - i,
        {
            let key = self.entries[i].0.as_str();
            match other.get(key) {
                Some(v) => {
                    if !str_eq(v.as_str(), self.entries[i].1.as_str()) {
                        proof {
                            lemma_pairs_map_shape(pairs_view(self.entries@));
                            let p = pairs_view(self.entries@);
                            assert(p[i as int] == (self.entries@[i as int].0@, self.entries@[i as int].1@));
                            assert(self@[p[i as int].0] == p[i as int].1);
                        }
                        return false;
                    }
                },
                None => {
                    proof {
                        lemma_pairs_map_shape(pairs_view(self.entries@));
                        let p = pairs_view(self.entries@);
                        assert(p[i as int] == (self.entries@[i as int].0@, self.entries@[i as int].1@));
                        assert(self@.contains_key(p[i as int].0));
                    }
                    return false;
                },
            }
            assert(pairs_view(self.entries@)[i as int] == (self.entries@[i as int].0@, self.entries@[i as int].1@));
            i += 1;
        }
        proof {
            let p = pairs_view(self.entries@);
            assert(self@.dom().subset_of(other@.dom())) by {
                assert forall|k: Seq<char>| self@.contains_key(k) implies other@.contains_key(k) by {
                    let j = choose|j: int| 0 <= j < p.len() && p[j].0 == k;
                    assert(other@.contains_key(p[j].0));
                }
            }
            vstd::set_lib::lemma_subset_equality(self@.dom(), other@.dom());
            assert forall|k: Seq<char>| self@.contains_key(k) implies self@[k] == other@[k] by {
                let j = choose|j: int| 0 <= j < p.len() && p[j].0 == k;
                assert(self@[p[j].0] == p[j].1);
            }
            assert(self@ =~= other@);
        }
        true
    }
}

} // verus!
