use crate::text::same_text;
use vstd::prelude::*;

verus! {

/// The map that a sequence of key-value pairs denotes: a later pair replaces
/// an earlier one that has the same key.
pub open spec fn pairs_to_map(s: Seq<(Seq<char>, Seq<char>)>) -> Map<Seq<char>, Seq<char>>
    decreases s.len(),
{
    if s.len() == 0 {
        Map::empty()
    } else {
        pairs_to_map(s.drop_last()).insert(s.last().0, s.last().1)
    }
}

/// No key occurs twice in the sequence.
pub open spec fn distinct_keys(s: Seq<(Seq<char>, Seq<char>)>) -> bool {
    forall|i: int, j: int| 0 <= i < j < s.len() ==> s[i].0 != s[j].0
}

/// The texts of a vector of string pairs.
pub open spec fn pair_views(v: Seq<(String, String)>) -> Seq<(Seq<char>, Seq<char>)> {
    Seq::new(v.len(), |i: int| (v[i].0@, v[i].1@))
}

/// A key is in the denoted map exactly when some pair carries it.
pub proof fn lemma_pairs_contains(s: Seq<(Seq<char>, Seq<char>)>, k: Seq<char>)
    ensures
        pairs_to_map(s).contains_key(k) <==> exists|i: int|
            0 <= i < s.len() && #[trigger] s[i].0 == k,
    decreases s.len(),
{
    if s.len() > 0 {
        let t = s.drop_last();
        lemma_pairs_contains(t, k);
        if pairs_to_map(s).contains_key(k) {
            if s.last().0 == k {
                assert(s[s.len() - 1].0 == k);
            } else {
                let i = choose|i: int| 0 <= i < t.len() && #[trigger] t[i].0 == k;
            }
        }
        if exists|i: int| 0 <= i < s.len() && #[trigger] s[i].0 == k {
            let i = choose|i: int| 0 <= i < s.len() && #[trigger] s[i].0 == k;
            if i < s.len() - 1 {
                assert(t[i].0 == k);
            }
        }
    }
}

/// With distinct keys, each pair's value is the one that the map holds for its key.
pub proof fn lemma_pairs_value(s: Seq<(Seq<char>, Seq<char>)>, i: int)
    requires
        distinct_keys(s),
        0 <= i < s.len(),
    ensures
        pairs_to_map(s).contains_key(s[i].0),
        pairs_to_map(s)[s[i].0] == s[i].1,
    decreases s.len(),
{
    if i < s.len() - 1 {
        let t = s.drop_last();
        assert forall|a: int, b: int| 0 <= a < b < t.len() implies t[a].0 != t[b].0 by {
            assert(t[a] == s[a] && t[b] == s[b]);
        }
        lemma_pairs_value(t, i);
    }
}

/// With distinct keys, replacing the value of the pair at `i` is an insertion
/// under that pair's key.
pub proof fn lemma_pairs_replace(s: Seq<(Seq<char>, Seq<char>)>, i: int, v: Seq<char>)
    requires
        distinct_keys(s),
        0 <= i < s.len(),
    ensures
        pairs_to_map(s.update(i, (s[i].0, v))) == pairs_to_map(s).insert(s[i].0, v),
        distinct_keys(s.update(i, (s[i].0, v))),
    decreases s.len(),
{
    let u = s.update(i, (s[i].0, v));
    let t = s.drop_last();
    if i == s.len() - 1 {
        assert(u.drop_last() == t);
    } else {
        assert forall|a: int, b: int| 0 <= a < b < t.len() implies t[a].0 != t[b].0 by {
            assert(t[a] == s[a] && t[b] == s[b]);
        }
        lemma_pairs_replace(t, i, v);
        assert(u.drop_last() == t.update(i, (t[i].0, v)));
    }
}

/// With distinct keys, the map has as many keys as there are pairs.
pub proof fn lemma_pairs_len(s: Seq<(Seq<char>, Seq<char>)>)
    requires
        distinct_keys(s),
    ensures
        pairs_to_map(s).dom().finite(),
        pairs_to_map(s).len() == s.len(),
    decreases s.len(),
{
    if s.len() > 0 {
        let t = s.drop_last();
        assert forall|a: int, b: int| 0 <= a < b < t.len() implies t[a].0 != t[b].0 by {
            assert(t[a] == s[a] && t[b] == s[b]);
        }
        lemma_pairs_len(t);
        lemma_pairs_contains(t, s.last().0);
        if pairs_to_map(t).contains_key(s.last().0) {
            let i = choose|i: int| 0 <= i < t.len() && #[trigger] t[i].0 == s.last().0;
            assert(s[i].0 == s[s.len() - 1].0);
        }
    }
}

/// The pairs after `key` was set to `value`: the pair of that key is
/// replaced where it stands, or the new pair goes to the end.
pub open spec fn pairs_with(
    s: Seq<(Seq<char>, Seq<char>)>,
    key: Seq<char>,
    value: Seq<char>,
) -> Seq<(Seq<char>, Seq<char>)> {
    if exists|i: int| 0 <= i < s.len() && #[trigger] s[i].0 == key {
        s.update(choose|i: int| 0 <= i < s.len() && #[trigger] s[i].0 == key, (key, value))
    } else {
        s.push((key, value))
    }
}

/// The pairs after every pair of `other` was set, in the order of `other`.
pub open spec fn pairs_with_all(
    s: Seq<(Seq<char>, Seq<char>)>,
    other: Seq<(Seq<char>, Seq<char>)>,
) -> Seq<(Seq<char>, Seq<char>)>
    decreases other.len(),
{
    if other.len() == 0 {
        s
    } else {
        pairs_with(pairs_with_all(s, other.drop_last()), other.last().0, other.last().1)
    }
}

/// A map from strings to strings, held as pairs in the order in which their
/// keys first came.
#[derive(Debug)]
pub struct StringMap {
    entries: Vec<(String, String)>,
}

impl View for StringMap {
    type V = Map<Seq<char>, Seq<char>>;

    open spec fn view(&self) -> Map<Seq<char>, Seq<char>> {
        pairs_to_map(self.pairs())
    }
}

impl DeepView for StringMap {
    type V = Map<Seq<char>, Seq<char>>;

    open spec fn deep_view(&self) -> Map<Seq<char>, Seq<char>> {
        self@
    }
}

impl StringMap {
    /// The pairs, as texts, in the order in which they are held.
    pub closed spec fn pairs(&self) -> Seq<(Seq<char>, Seq<char>)> {
        pair_views(self.entries@)
    }

    #[verifier::type_invariant]
    spec fn keys_are_distinct(&self) -> bool {
        distinct_keys(self.pairs())
    }

    /// The empty map.
    pub fn new() -> (r: Self)
        ensures
            r@ == Map::<Seq<char>, Seq<char>>::empty(),
            r.pairs() == Seq::<(Seq<char>, Seq<char>)>::empty(),
    {
        StringMap { entries: Vec::new() }
    }

    /// Whether the map has no key.
    pub fn is_empty(&self) -> (r: bool)
        ensures
            r == self@.is_empty(),
            r == (self.pairs().len() == 0),
    {
        proof {
            if self.entries.len() > 0 {
                assert(self@.contains_key(self.pairs().last().0));
            }
        }
        self.entries.len() == 0
    }

    /// The number of keys, which is the number of pairs.
    pub fn len(&self) -> (r: usize)
        ensures
            r == self@.len(),
            r == self.pairs().len(),
            distinct_keys(self.pairs()),
    {
        proof {
            use_type_invariant(self);
            lemma_pairs_len(self.pairs());
        }
        self.entries.len()
    }

    /// The pair at position `i`, or `None` where `i` is not below the number
    /// of pairs.
    pub fn entry(&self, i: usize) -> (r: Option<(&String, &String)>)
        ensures
            match r {
                Some((key, value)) => i < self.pairs().len() && (key@, value@)
                    == self.pairs()[i as int],
                None => i >= self.pairs().len(),
            },
    {
        if i < self.entries.len() {
            let e = &self.entries[i];
            Some((&e.0, &e.1))
        } else {
            None
        }
    }

    /// The value held for `key`, if there is one.
    pub fn get(&self, key: &str) -> (r: Option<&String>)
        ensures
            match r {
                Some(v) => self@.contains_key(key@) && self@[key@] == v@,
                None => !self@.contains_key(key@),
            },
    {
        proof {
            use_type_invariant(self);
            lemma_pairs_contains(self.pairs(), key@);
        }
        let mut i: usize = 0;
        while i < self.entries.len()
            invariant
                i <= self.entries.len(),
                distinct_keys(self.pairs()),
                forall|j: int| 0 <= j < i ==> (#[trigger] self.pairs()[j]).0 != key@,
            decreases self.entries.len() - i,
        {
            if same_text(self.entries[i].0.as_str(), key) {
                proof {
                    lemma_pairs_value(self.pairs(), i as int);
                }
                return Some(&self.entries[i].1);
            }
            i += 1;
        }
        None
    }

    /// Sets the value for `key`, in place where the key is present and at the
    /// end where it is new.
    pub fn insert(&mut self, key: String, value: String)
        ensures
            final(self)@ == old(self)@.insert(key@, value@),
            final(self).pairs() == pairs_with(old(self).pairs(), key@, value@),
    {
        proof {
            use_type_invariant(&*self);
            lemma_pairs_contains(self.pairs(), key@);
        }
        let mut i: usize = 0;
        while i < self.entries.len()
            invariant
                i <= self.entries.len(),
                self.entries == old(self).entries,
                distinct_keys(self.pairs()),
                forall|j: int| 0 <= j < i ==> (#[trigger] self.pairs()[j]).0 != key@,
            decreases self.entries.len() - i,
        {
            if same_text(self.entries[i].0.as_str(), key.as_str()) {
                proof {
                    lemma_pairs_replace(self.pairs(), i as int, value@);
                    let p = choose|p: int|
                        0 <= p < self.pairs().len() && #[trigger] self.pairs()[p].0 == key@;
                    if p < i {
                        assert(self.pairs()[p].0 != self.pairs()[i as int].0);
                    } else if i < p {
                        assert(self.pairs()[i as int].0 != self.pairs()[p].0);
                    }
                }
                let ghost before = self.pairs();
                let mut entries: Vec<(String, String)> = Vec::new();
                core::mem::swap(&mut entries, &mut self.entries);
                entries.set(i, (key, value));
                assert(pair_views(entries@) =~= before.update(
                    i as int,
                    (before[i as int].0, value@),
                ));
                core::mem::swap(&mut entries, &mut self.entries);
                return ;
            }
            i += 1;
        }
        let ghost before = self.pairs();
        let mut entries: Vec<(String, String)> = Vec::new();
        core::mem::swap(&mut entries, &mut self.entries);
        entries.push((key, value));
        assert(pair_views(entries@) =~= before.push((key@, value@)));
        core::mem::swap(&mut entries, &mut self.entries);
        assert(self.pairs().drop_last() =~= before);
    }

    /// Lays `other` over this map: every pair of `other` is inserted, so a
    /// key of both takes the value of `other`.
    pub fn extend(&mut self, other: &StringMap)
        ensures
            final(self)@ == old(self)@.union_prefer_right(other@),
            final(self).pairs() == pairs_with_all(old(self).pairs(), other.pairs()),
    {
        let mut i: usize = 0;
        while i < other.entries.len()
            invariant
                i <= other.entries.len(),
                self@ == old(self)@.union_prefer_right(pairs_to_map(other.pairs().take(i as int))),
                self.pairs() == pairs_with_all(old(self).pairs(), other.pairs().take(i as int)),
            decreases other.entries.len() - i,
        {
            let key = other.entries[i].0.clone();
            let value = other.entries[i].1.clone();
            let ghost prev = other.pairs().take(i as int);
            let ghost next = other.pairs().take(i + 1);
            assert(next.drop_last() =~= prev);
            self.insert(key, value);
            i += 1;
        }
        assert(other.pairs().take(i as int) =~= other.pairs());
    }
}

impl Clone for StringMap {
    fn clone(&self) -> (r: Self)
        ensures
            r@ == self@,
            r.pairs() == self.pairs(),
    {
        proof {
            use_type_invariant(self);
        }
        let mut entries: Vec<(String, String)> = Vec::new();
        let mut i: usize = 0;
        while i < self.entries.len()
            invariant
                i <= self.entries.len(),
                pair_views(entries@) == self.pairs().take(i as int),
            decreases self.entries.len() - i,
        {
            let key = self.entries[i].0.clone();
            let value = self.entries[i].1.clone();
            entries.push((key, value));
            assert(self.pairs().take(i + 1) =~= self.pairs().take(i as int).push(
                self.pairs()[i as int],
            ));
            i += 1;
        }
        assert(self.pairs().take(i as int) =~= self.pairs());
        StringMap { entries }
    }
}

} // verus!
