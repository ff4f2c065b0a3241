//! The header map of a response: header names to header values, where the
//! last write to a name wins.

use vstd::prelude::*;

verus! {

/// The map that a list of name/value pairs stands for: each pair in turn is
/// written into the map, so a later pair overrides an earlier one of the same
/// name.
pub open spec fn pairs_to_map(pairs: Seq<(String, String)>) -> Map<Seq<char>, Seq<char>>
    decreases pairs.len(),
{
    if pairs.len() == 0 {
        Map::empty()
    } else {
        pairs_to_map(pairs.drop_last()).insert(pairs.last().0@, pairs.last().1@)
    }
}

/// No two pairs of the list carry the same name.
pub open spec fn distinct_names(pairs: Seq<(String, String)>) -> bool {
    forall|i: int, j: int| 0 <= i < j < pairs.len() ==> pairs[i].0@ != pairs[j].0@
}

/// The name occurs in none of the pairs.
pub open spec fn name_absent(pairs: Seq<(String, String)>, name: Seq<char>) -> bool {
    forall|i: int| 0 <= i < pairs.len() ==> (#[trigger] pairs[i]).0@ != name
}

/// A map has exactly the names that occur in the list it was made from.
pub proof fn lemma_pairs_names(pairs: Seq<(String, String)>)
    ensures
        forall|i: int|
            0 <= i < pairs.len() ==> pairs_to_map(pairs).contains_key((#[trigger] pairs[i]).0@),
        forall|name: Seq<char>| #[trigger]
            pairs_to_map(pairs).contains_key(name) ==> !name_absent(pairs, name),
        pairs_to_map(pairs).dom().finite(),
        pairs_to_map(pairs).dom().len() <= pairs.len(),
    decreases pairs.len(),
{
    if pairs.len() > 0 {
        let front = pairs.drop_last();
        lemma_pairs_names(front);
        assert forall|i: int| 0 <= i < pairs.len() implies pairs_to_map(pairs).contains_key(
            (#[trigger] pairs[i]).0@,
        ) by {
            if i < pairs.len() - 1 {
                assert(front[i] == pairs[i]);
            }
        }
        assert forall|name: Seq<char>| #[trigger]
            pairs_to_map(pairs).contains_key(name) implies !name_absent(pairs, name) by {
            if name != pairs.last().0@ {
                let i = choose|i: int| 0 <= i < front.len() && (#[trigger] front[i]).0@ == name;
                assert(pairs[i].0@ == name);
            }
        }
    }
}

/// Where no name occurs twice, each pair of the list is an entry of the map,
/// and the map has as many entries as the list has pairs.
pub proof fn lemma_distinct_pairs(pairs: Seq<(String, String)>)
    requires
        distinct_names(pairs),
    ensures
        forall|i: int|
            0 <= i < pairs.len() ==> pairs_to_map(pairs).contains_key((#[trigger] pairs[i]).0@)
                && pairs_to_map(pairs)[pairs[i].0@] == pairs[i].1@,
        pairs_to_map(pairs).dom().finite(),
        pairs_to_map(pairs).dom().len() == pairs.len(),
    decreases pairs.len(),
{
    if pairs.len() > 0 {
        let front = pairs.drop_last();
        let last = pairs.len() - 1;
        assert(distinct_names(front));
        lemma_distinct_pairs(front);
        lemma_pairs_names(front);
        assert(name_absent(front, pairs[last].0@));
        assert forall|i: int| 0 <= i < pairs.len() implies pairs_to_map(pairs).contains_key(
            (#[trigger] pairs[i]).0@,
        ) && pairs_to_map(pairs)[pairs[i].0@] == pairs[i].1@ by {
            if i < last {
                assert(front[i] == pairs[i]);
            }
        }
    }
}

/// Replacing the value of one pair, in a list where no name occurs twice,
/// writes that value under the pair's name and leaves the other entries.
pub proof fn lemma_replace_pair(pairs: Seq<(String, String)>, at: int, pair: (String, String))
    requires
        distinct_names(pairs),
        0 <= at < pairs.len(),
        pair.0@ == pairs[at].0@,
    ensures
        distinct_names(pairs.update(at, pair)),
        pairs_to_map(pairs.update(at, pair)) == pairs_to_map(pairs).insert(pair.0@, pair.1@),
{
    let after = pairs.update(at, pair);
    assert(distinct_names(after));
    lemma_distinct_pairs(pairs);
    lemma_distinct_pairs(after);
    lemma_pairs_names(pairs);
    lemma_pairs_names(after);
    let old_map = pairs_to_map(pairs);
    let new_map = pairs_to_map(after);
    assert forall|name: Seq<char>| new_map.contains_key(name) implies #[trigger] old_map.insert(
        pair.0@,
        pair.1@,
    ).contains_key(name) && new_map[name] == old_map.insert(pair.0@, pair.1@)[name] by {
        let i = choose|i: int| 0 <= i < after.len() && (#[trigger] after[i]).0@ == name;
        assert(i != at ==> after[i] == pairs[i]);
    }
    assert forall|name: Seq<char>| #[trigger]
        old_map.insert(pair.0@, pair.1@).contains_key(name) implies new_map.contains_key(name) by {
        if name == pair.0@ {
            assert(after[at].0@ == name);
        } else {
            let i = choose|i: int| 0 <= i < pairs.len() && (#[trigger] pairs[i]).0@ == name;
            assert(after[i] == pairs[i]);
        }
    }
}

/// A header map. Names are compared as they are written: what case means is
/// left to the layer that puts the headers on the wire.
#[derive(Debug)]
pub struct Headers {
    entries: Vec<(String, String)>,
}

impl View for Headers {
    type V = Map<Seq<char>, Seq<char>>;

    closed spec fn view(&self) -> Map<Seq<char>, Seq<char>> {
        pairs_to_map(self.entries@)
    }
}

impl Headers {
    #[verifier::type_invariant]
    spec fn well_formed(self) -> bool {
        distinct_names(self.entries@)
    }

    /// A header map without entries.
    pub fn new() -> (headers: Headers)
        ensures
            headers@ == Map::<Seq<char>, Seq<char>>::empty(),
    {
        Headers { entries: Vec::new() }
    }

    /// The number of entries.
    pub fn len(&self) -> (n: usize)
        ensures
            self@.dom().finite(),
            n == self@.len(),
    {
        proof {
            use_type_invariant(self);
            lemma_distinct_pairs(self.entries@);
        }
        self.entries.len()
    }

    /// Where the name stands in the list, if it has an entry.
    fn position(&self, name: &String) -> (at: Option<usize>)
        ensures
            match at {
                Some(i) => i < self.entries@.len() && self.entries@[i as int].0@ == name@,
                None => name_absent(self.entries@, name@),
            },
    {
        let n = self.entries.len();
        let mut i: usize = 0;
        while i < n
            invariant
                i <= n,
                n == self.entries@.len(),
                name_absent(self.entries@.subrange(0, i as int), name@),
            decreases n - i,
        {
            if self.entries[i].0 == *name {
                return Some(i);
            }
            proof {
                let before = self.entries@.subrange(0, i as int);
                let through = self.entries@.subrange(0, i + 1);
                assert forall|j: int| 0 <= j < through.len() implies (#[trigger] through[j]).0@
                    != name@ by {
                    if j < i {
                        assert(before[j] == through[j]);
                    }
                }
            }
            i += 1;
        }
        assert(self.entries@.subrange(0, n as int) == self.entries@);
        None
    }

    /// Whether the name has an entry.
    pub fn contains_key(&self, name: &str) -> (found: bool)
        ensures
            found == self@.contains_key(name@),
    {
        self.get(name).is_some()
    }

    /// The value written under the name, if it has an entry.
    pub fn get(&self, name: &str) -> (value: Option<&String>)
        ensures
            match value {
                Some(v) => self@.contains_key(name@) && v@ == self@[name@],
                None => !self@.contains_key(name@),
            },
    {
        proof {
            use_type_invariant(self);
            lemma_distinct_pairs(self.entries@);
            lemma_pairs_names(self.entries@);
        }
        let owned = name.to_owned();
        match self.position(&owned) {
            Some(i) => Some(&self.entries[i].1),
            None => None,
        }
    }

    /// Writes the value under the name, in place of any value that the name
    /// had before.
    pub fn insert(&mut self, name: String, value: String)
        ensures
            final(self)@ == old(self)@.insert(name@, value@),
    {
        proof {
            use_type_invariant(&*self);
        }
        let found = self.position(&name);
        let mut entries: Vec<(String, String)> = Vec::new();
        std::mem::swap(&mut entries, &mut self.entries);
        let ghost before = entries@;
        match found {
            Some(i) => {
                proof {
                    lemma_replace_pair(before, i as int, (name, value));
                }
                entries.set(i, (name, value));
            },
            None => {
                entries.push((name, value));
                proof {
                    assert(entries@.drop_last() == before);
                    assert(distinct_names(entries@));
                }
            },
        }
        self.entries = entries;
    }

    /// The entries as a list of name/value pairs, each name once.
    pub fn to_vec(&self) -> (pairs: Vec<(String, String)>)
        ensures
            distinct_names(pairs@),
            pairs_to_map(pairs@) == self@,
    {
        proof {
            use_type_invariant(self);
        }
        let n = self.entries.len();
        let mut pairs: Vec<(String, String)> = Vec::new();
        let mut i: usize = 0;
        while i < n
            invariant
                i <= n,
                n == self.entries@.len(),
                pairs@ == self.entries@.subrange(0, i as int),
            decreases n - i,
        {
            let name = self.entries[i].0.clone();
            let value = self.entries[i].1.clone();
            pairs.push((name, value));
            i += 1;
        }
        assert(pairs@ == self.entries@);
        pairs
    }
}

impl Clone for Headers {
    /// A copy with the same entries.
    fn clone(&self) -> (copy: Self)
        ensures
            copy@ == self@,
    {
        Headers { entries: self.to_vec() }
    }
}

} // verus!
