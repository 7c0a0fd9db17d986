//! Label sets: maps from names to values, as they come with an alert.
use vstd::prelude::*;
use vstd::string::*;
use crate::text::text_eq;

verus! {

/// The value that the first entry named `key` gives, if there is one.
pub open spec fn lookup(entries: Seq<(Seq<char>, Seq<char>)>, key: Seq<char>) -> Option<Seq<char>>
    decreases entries.len(),
{
    if entries.len() == 0 {
        None
    } else if entries[0].0 == key {
        Some(entries[0].1)
    } else {
        lookup(entries.drop_first(), key)
    }
}

/// The entries as pairs of texts.
pub open spec fn entries_view(entries: Seq<(String, String)>) -> Seq<(Seq<char>, Seq<char>)> {
    Seq::new(entries.len(), |i: int| (entries[i].0@, entries[i].1@))
}

/// Looking up from position `from` on: the entries before it do not count.
proof fn lemma_lookup_skip(entries: Seq<(Seq<char>, Seq<char>)>, key: Seq<char>, n: int)
    requires
        0 <= n <= entries.len(),
        forall|j: int| 0 <= j < n ==> (#[trigger] entries[j]).0 != key,
    ensures
        lookup(entries, key) == lookup(entries.subrange(n, entries.len() as int), key),
    decreases n,
{
    if n == 0 {
        assert(entries.subrange(0, entries.len() as int) =~= entries);
    } else {
        assert(entries[0].0 != key);
        let rest = entries.drop_first();
        assert forall|j: int| 0 <= j < n - 1 implies (#[trigger] rest[j]).0 != key by {
            assert(rest[j] == entries[j + 1]);
        }
        lemma_lookup_skip(rest, key, n - 1);
        assert(rest.subrange(n - 1, rest.len() as int) =~= entries.subrange(
            n,
            entries.len() as int,
        ));
    }
}

/// Replacing the value of the first entry named `key` changes what `key`
/// gives and nothing else.
proof fn lemma_lookup_update(
    entries: Seq<(Seq<char>, Seq<char>)>,
    n: int,
    key: Seq<char>,
    value: Seq<char>,
    other: Seq<char>,
)
    requires
        0 <= n < entries.len(),
        entries[n].0 == key,
        forall|j: int| 0 <= j < n ==> (#[trigger] entries[j]).0 != key,
    ensures
        lookup(entries.update(n, (key, value)), other) == if other == key {
            Some(value)
        } else {
            lookup(entries, other)
        },
    decreases n,
{
    let changed = entries.update(n, (key, value));
    if n == 0 {
        assert(changed.drop_first() =~= entries.drop_first());
    } else {
        assert(entries[0].0 != key);
        assert(changed[0] == entries[0]);
        let rest = entries.drop_first();
        assert forall|j: int| 0 <= j < n - 1 implies (#[trigger] rest[j]).0 != key by {
            assert(rest[j] == entries[j + 1]);
        }
        lemma_lookup_update(rest, n - 1, key, value, other);
        assert(changed.drop_first() =~= rest.update(n - 1, (key, value)));
    }
}

/// Appending an entry under a name that no entry has adds that name and
/// changes nothing else.
proof fn lemma_lookup_push(
    entries: Seq<(Seq<char>, Seq<char>)>,
    key: Seq<char>,
    value: Seq<char>,
    other: Seq<char>,
)
    requires
        forall|j: int| 0 <= j < entries.len() ==> (#[trigger] entries[j]).0 != key,
    ensures
        lookup(entries.push((key, value)), other) == if other == key {
            Some(value)
        } else {
            lookup(entries, other)
        },
    decreases entries.len(),
{
    let grown = entries.push((key, value));
    if entries.len() == 0 {
        assert(grown.drop_first() =~= Seq::<(Seq<char>, Seq<char>)>::empty());
    } else {
        assert(entries[0].0 != key);
        assert(grown[0] == entries[0]);
        let rest = entries.drop_first();
        assert forall|j: int| 0 <= j < rest.len() implies (#[trigger] rest[j]).0 != key by {
            assert(rest[j] == entries[j + 1]);
        }
        lemma_lookup_push(rest, key, value, other);
        assert(grown.drop_first() =~= rest.push((key, value)));
    }
}

/// The entries that are not named `key`, in their order.
pub open spec fn without(entries: Seq<(Seq<char>, Seq<char>)>, key: Seq<char>) -> Seq<
    (Seq<char>, Seq<char>),
>
    decreases entries.len(),
{
    if entries.len() == 0 {
        entries
    } else if entries.last().0 == key {
        without(entries.drop_last(), key)
    } else {
        without(entries.drop_last(), key).push(entries.last())
    }
}

/// Looking up in entries with one more at the end: the earlier entries
/// count first.
proof fn lemma_lookup_last(entries: Seq<(Seq<char>, Seq<char>)>, other: Seq<char>)
    requires
        entries.len() > 0,
    ensures
        lookup(entries, other) == match lookup(entries.drop_last(), other) {
            Some(v) => Some(v),
            None => if entries.last().0 == other {
                Some(entries.last().1)
            } else {
                None
            },
        },
    decreases entries.len(),
{
    if entries.len() == 1 {
        assert(entries.drop_last() =~= Seq::<(Seq<char>, Seq<char>)>::empty());
        assert(entries.drop_first() =~= Seq::<(Seq<char>, Seq<char>)>::empty());
    } else {
        assert(entries.drop_last()[0] == entries[0]);
        if entries[0].0 != other {
            lemma_lookup_last(entries.drop_first(), other);
            assert(entries.drop_first().drop_last() =~= entries.drop_last().drop_first());
        }
    }
}

/// Leaving out the entries named `key` leaves `key` without a value and
/// every other name with the value it had.
proof fn lemma_lookup_without(entries: Seq<(Seq<char>, Seq<char>)>, key: Seq<char>, other: Seq<char>)
    ensures
        lookup(without(entries, key), other) == if other == key {
            None
        } else {
            lookup(entries, other)
        },
    decreases entries.len(),
{
    if entries.len() > 0 {
        lemma_lookup_without(entries.drop_last(), key, other);
        lemma_lookup_last(entries, other);
        if entries.last().0 != key {
            let kept = without(entries.drop_last(), key).push(entries.last());
            lemma_lookup_last(kept, other);
            assert(kept.drop_last() =~= without(entries.drop_last(), key));
        }
    }
}

/// A set of labels: each name has at most one value.
#[derive(Debug)]
pub struct Labels {
    entries: Vec<(String, String)>,
}

impl View for Labels {
    type V = Map<Seq<char>, Seq<char>>;

    closed spec fn view(&self) -> Map<Seq<char>, Seq<char>> {
        Map::new(
            |k: Seq<char>| lookup(entries_view(self.entries@), k) is Some,
            |k: Seq<char>| lookup(entries_view(self.entries@), k)->0,
        )
    }
}

impl Labels {
    /// The empty label set.
    pub fn new() -> (labels: Labels)
        ensures
            labels@ == Map::<Seq<char>, Seq<char>>::empty(),
    {
        let labels = Labels { entries: Vec::new() };
        assert(labels@ =~= Map::<Seq<char>, Seq<char>>::empty());
        labels
    }

    fn position(&self, key: &str) -> (found: Option<usize>)
        ensures
            found matches Some(i) ==> {
                &&& i < self.entries.len()
                &&& self.entries[i as int].0@ == key@
                &&& forall|j: int| 0 <= j < i ==> (#[trigger] self.entries[j]).0@ != key@
            },
            found is None ==> forall|j: int|
                0 <= j < self.entries.len() ==> (#[trigger] self.entries[j]).0@ != key@,
    {
        let mut i: usize = 0;
        while i < self.entries.len()
            invariant
                i <= self.entries.len(),
                forall|j: int| 0 <= j < i ==> (#[trigger] self.entries[j]).0@ != key@,
            decreases self.entries.len() - i,
        {
            if text_eq(self.entries[i].0.as_str(), key) {
                return Some(i);
            }
            i += 1;
        }
        None
    }

    /// Gives `key` the value `value`, in place of any value it had.
    pub fn insert(&mut self, key: String, value: String)
        ensures
            final(self)@ == old(self)@.insert(key@, value@),
    {
        let ghost before = entries_view(self.entries@);
        match self.position(key.as_str()) {
            Some(i) => {
                self.entries.set(i, (key, value));
                proof {
                    assert(entries_view(self.entries@) =~= before.update(i as int, (key@, value@)));
                    assert forall|j: int| 0 <= j < i implies (#[trigger] before[j]).0 != key@ by {
                        assert(old(self).entries[j].0@ != key@);
                    }
                    assert forall|other: Seq<char>|
                        lookup(entries_view(self.entries@), other) == if other == key@ {
                            Some(value@)
                        } else {
                            lookup(before, other)
                        } by {
                        lemma_lookup_update(before, i as int, key@, value@, other);
                    }
                }
            },
            None => {
                self.entries.push((key, value));
                proof {
                    assert(entries_view(self.entries@) =~= before.push((key@, value@)));
                    assert forall|j: int| 0 <= j < before.len() implies (#[trigger] before[j]).0
                        != key@ by {
                        assert(old(self).entries[j].0@ != key@);
                    }
                    assert forall|other: Seq<char>|
                        lookup(entries_view(self.entries@), other) == if other == key@ {
                            Some(value@)
                        } else {
                            lookup(before, other)
                        } by {
                        lemma_lookup_push(before, key@, value@, other);
                    }
                }
            },
        }
        assert(self@ =~= old(self)@.insert(key@, value@));
    }

    /// The label set that holds each pair in turn; of two pairs with one
    /// name the later one counts.
    pub fn from_pairs(pairs: Vec<(String, String)>) -> (labels: Labels)
        ensures
            labels@ == pairs_map(entries_view(pairs@)),
    {
        let mut labels = Labels::new();
        let mut pairs = pairs;
        let ghost all = entries_view(pairs@);
        let mut rest: Vec<(String, String)> = Vec::new();
        // Take the pairs from the back, so that each can be moved out.
        while pairs.len() > 0
            invariant
                entries_view(pairs@) + entries_view(rest@).reverse() == all,
            decreases pairs.len(),
        {
            let ghost before_pairs = entries_view(pairs@);
            let ghost before_rest = entries_view(rest@);
            let pair = pairs.pop().unwrap();
            rest.push(pair);
            proof {
                let p = before_pairs.last();
                assert(entries_view(pairs@) =~= before_pairs.drop_last());
                assert(entries_view(rest@) =~= before_rest.push(p));
                assert(before_rest.push(p).reverse() =~= seq![p] + before_rest.reverse());
                assert(before_pairs.drop_last() + (seq![p] + before_rest.reverse()) =~= before_pairs
                    + before_rest.reverse());
            }
        }
        assert(entries_view(rest@).reverse() =~= all);
        let ghost mut done: Seq<(Seq<char>, Seq<char>)> = Seq::empty();
        while rest.len() > 0
            invariant
                done + entries_view(rest@).reverse() == all,
                labels@ == pairs_map(done),
            decreases rest.len(),
        {
            let ghost before_rest = entries_view(rest@);
            let pair = rest.pop().unwrap();
            let ghost p = (pair.0@, pair.1@);
            labels.insert(pair.0, pair.1);
            proof {
                assert(entries_view(rest@) =~= before_rest.drop_last());
                assert(p == before_rest.last());
                assert(before_rest.reverse() =~= seq![p] + before_rest.drop_last().reverse());
                assert(done.push(p) + before_rest.drop_last().reverse() =~= done + (seq![p]
                    + before_rest.drop_last().reverse()));
                assert(done.push(p).drop_last() =~= done);
                done = done.push(p);
            }
        }
        assert(done =~= all);
        labels
    }

    /// The labels as pairs of name and value. A name with a value is the
    /// name of exactly the pairs that carry it, and the first of them holds
    /// the value; a name without a value names no pair.
    pub fn to_pairs(&self) -> (pairs: Vec<(String, String)>)
        ensures
            forall|key: Seq<char>|
                #[trigger] lookup(entries_view(pairs@), key) == if self@.contains_key(key) {
                    Some(self@[key])
                } else {
                    None
                },
    {
        let mut pairs: Vec<(String, String)> = Vec::new();
        let mut i: usize = 0;
        while i < self.entries.len()
            invariant
                i <= self.entries.len(),
                pairs@ == self.entries@.subrange(0, i as int),
            decreases self.entries.len() - i,
        {
            let pair = &self.entries[i];
            pairs.push((pair.0.clone(), pair.1.clone()));
            assert(pairs@ =~= self.entries@.subrange(0, i + 1));
            i += 1;
        }
        assert(pairs@ =~= self.entries@);
        pairs
    }

    /// Takes `key` out of the set and gives the value it had, if any.
    pub fn remove(&mut self, key: &str) -> (value: Option<String>)
        ensures
            final(self)@ == old(self)@.remove(key@),
            value is Some <==> old(self)@.contains_key(key@),
            value matches Some(v) ==> v@ == old(self)@[key@],
    {
        let value: Option<String> = match self.get(key) {
            Some(v) => Some(v.to_owned()),
            None => None,
        };
        let ghost all = entries_view(self.entries@);
        let mut kept: Vec<(String, String)> = Vec::new();
        let mut i: usize = 0;
        while i < self.entries.len()
            invariant
                i <= self.entries.len(),
                self.entries == old(self).entries,
                all == entries_view(self.entries@),
                entries_view(kept@) == without(all.subrange(0, i as int), key@),
            decreases self.entries.len() - i,
        {
            let ghost before = entries_view(kept@);
            let pair = &self.entries[i];
            proof {
                assert(all.subrange(0, i + 1).drop_last() =~= all.subrange(0, i as int));
                assert(all.subrange(0, i + 1).last() == (pair.0@, pair.1@));
            }
            if !text_eq(pair.0.as_str(), key) {
                kept.push((pair.0.clone(), pair.1.clone()));
                assert(entries_view(kept@) =~= before.push((pair.0@, pair.1@)));
            }
            i += 1;
        }
        proof {
            assert(all.subrange(0, self.entries.len() as int) =~= all);
            assert forall|other: Seq<char>|
                lookup(entries_view(kept@), other) == if other == key@ {
                    None
                } else {
                    lookup(all, other)
                } by {
                lemma_lookup_without(all, key@, other);
            }
        }
        self.entries = kept;
        assert(self@ =~= old(self)@.remove(key@));
        value
    }

    /// The value of `key`, if it has one.
    pub fn get(&self, key: &str) -> (value: Option<&str>)
        ensures
            value is Some <==> self@.contains_key(key@),
            value matches Some(v) ==> v@ == self@[key@],
    {
        let ghost entries = entries_view(self.entries@);
        match self.position(key) {
            Some(i) => {
                proof {
                    assert forall|j: int| 0 <= j < i implies (#[trigger] entries[j]).0 != key@ by {
                        assert(self.entries[j].0@ != key@);
                    }
                    lemma_lookup_skip(entries, key@, i as int);
                    assert(entries.subrange(i as int, entries.len() as int)[0] == entries[i as int]);
                }
                Some(self.entries[i].1.as_str())
            },
            None => {
                proof {
                    assert forall|j: int| 0 <= j < entries.len() implies (#[trigger] entries[j]).0
                        != key@ by {
                        assert(self.entries[j].0@ != key@);
                    }
                    lemma_lookup_skip(entries, key@, entries.len() as int);
                }
                None
            },
        }
    }
}

/// The map that holds each pair in turn; of two pairs with one name the
/// later one counts.
pub open spec fn pairs_map(pairs: Seq<(Seq<char>, Seq<char>)>) -> Map<Seq<char>, Seq<char>>
    decreases pairs.len(),
{
    if pairs.len() == 0 {
        Map::empty()
    } else {
        pairs_map(pairs.drop_last()).insert(pairs.last().0, pairs.last().1)
    }
}

impl Clone for Labels {
    fn clone(&self) -> (copy: Labels)
        ensures
            copy@ == self@,
    {
        let entries: Vec<(String, String)> = self.to_pairs();
        let copy = Labels { entries };
        assert(copy@ =~= self@);
        copy
    }
}

} // verus!
