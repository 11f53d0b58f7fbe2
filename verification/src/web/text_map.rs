//! A map from texts to texts that keeps its keys in the order in which they came.
use vstd::prelude::*;
use vstd::string::*;
use crate::text;
use crate::text::opt_text;

verus! {

/// A map from texts to texts.
#[derive(Debug)]
pub struct TextMap {
    pub entries: Vec<(String, String)>,
}

/// The pairs of texts that a list holds.
pub open spec fn pairs_of(v: Seq<(String, String)>) -> Seq<(Seq<char>, Seq<char>)> {
    v.map_values(|p: (String, String)| (p.0@, p.1@))
}

/// The value that a list of pairs gives a key: that of the first pair with it.
pub open spec fn found(pairs: Seq<(Seq<char>, Seq<char>)>, key: Seq<char>) -> Option<Seq<char>>
    decreases pairs.len(),
{
    if pairs.len() == 0 {
        None
    } else if pairs[0].0 == key {
        Some(pairs[0].1)
    } else {
        found(pairs.drop_first(), key)
    }
}

/// A pair at the end is found where its key does not stand before it.
proof fn lemma_found_push(
    pairs: Seq<(Seq<char>, Seq<char>)>,
    last: (Seq<char>, Seq<char>),
    key: Seq<char>,
)
    ensures
        found(pairs.push(last), key) == match found(pairs, key) {
            Some(v) => Some(v),
            None => if last.0 == key {
                Some(last.1)
            } else {
                None
            },
        },
    decreases pairs.len(),
{
    if pairs.len() == 0 {
        assert(pairs.push(last)[0] == last);
        assert(pairs.push(last).drop_first() =~= pairs);
        assert(found(pairs, key) is None);
    } else {
        assert(pairs.push(last)[0] == pairs[0]);
        assert(pairs.push(last).drop_first() =~= pairs.drop_first().push(last));
        lemma_found_push(pairs.drop_first(), last, key);
    }
}

impl TextMap {
    pub open spec fn view(&self) -> Seq<(Seq<char>, Seq<char>)> {
        pairs_of(self.entries@)
    }

    /// The value of a key.
    pub open spec fn at(&self, key: Seq<char>) -> Option<Seq<char>> {
        found(self@, key)
    }

    /// A map with nothing in it.
    pub fn new() -> (r: TextMap)
        ensures
            forall|k: Seq<char>| #[trigger] r.at(k) is None,
    {
        TextMap { entries: Vec::new() }
    }

    /// The value of a key.
    pub fn get(&self, key: &str) -> (r: Option<String>)
        ensures
            opt_text(r) == self.at(key@),
    {
        let mut i: usize = 0;
        proof {
            assert(self@.subrange(0, self@.len() as int) =~= self@);
        }
        while i < self.entries.len()
            invariant
                i <= self.entries@.len(),
                found(self@, key@) == found(self@.subrange(i as int, self@.len() as int), key@),
            decreases self.entries@.len() - i,
        {
            let ghost rest = self@.subrange(i as int, self@.len() as int);
            proof {
                assert(rest[0] == (self.entries@[i as int].0@, self.entries@[i as int].1@));
                assert(rest.drop_first() =~= self@.subrange(i + 1, self@.len() as int));
            }
            if text::same(self.entries[i].0.as_str(), key) {
                return Some(self.entries[i].1.clone());
            }
            i += 1;
        }
        None
    }

    /// Takes a key out.
    pub fn remove(&mut self, key: &str)
        ensures
            final(self).at(key@) is None,
            forall|k: Seq<char>| k != key@ ==> #[trigger] final(self).at(k) == old(self).at(k),
    {
        let mut out: Vec<(String, String)> = Vec::new();
        let ghost all = self@;
        let mut i: usize = 0;
        proof {
            assert(all.take(0) =~= Seq::<(Seq<char>, Seq<char>)>::empty());
        }
        while i < self.entries.len()
            invariant
                i <= self.entries@.len(),
                *self == *old(self),
                all == self@,
                found(pairs_of(out@), key@) is None,
                forall|k: Seq<char>|
                    k != key@ ==> #[trigger] found(pairs_of(out@), k) == found(
                        all.take(i as int),
                        k,
                    ),
            decreases self.entries@.len() - i,
        {
            let ghost before = pairs_of(out@);
            let ghost pair = (self.entries@[i as int].0@, self.entries@[i as int].1@);
            proof {
                assert(all[i as int] == pair);
                assert(all.take(i + 1) =~= all.take(i as int).push(pair));
                assert forall|k: Seq<char>| #[trigger]
                    found(all.take(i + 1), k) == found(all.take(i as int).push(pair), k) by {}
            }
            if !text::same(self.entries[i].0.as_str(), key) {
                out.push((self.entries[i].0.clone(), self.entries[i].1.clone()));
                proof {
                    assert(pairs_of(out@) =~= before.push(pair));
                    assert forall|k: Seq<char>| k != key@ implies #[trigger] found(
                        pairs_of(out@),
                        k,
                    ) == found(all.take(i + 1), k) by {
                        lemma_found_push(before, pair, k);
                        lemma_found_push(all.take(i as int), pair, k);
                    }
                    lemma_found_push(before, pair, key@);
                }
            } else {
                proof {
                    assert forall|k: Seq<char>| k != key@ implies #[trigger] found(
                        pairs_of(out@),
                        k,
                    ) == found(all.take(i + 1), k) by {
                        lemma_found_push(all.take(i as int), pair, k);
                    }
                }
            }
            i += 1;
        }
        proof {
            assert(all.take(i as int) =~= all);
        }
        self.entries = out;
    }

    /// Gives a key a value, in place of the one it had.
    pub fn insert(&mut self, key: &str, value: &str)
        ensures
            final(self).at(key@) == Some(value@),
            forall|k: Seq<char>| k != key@ ==> #[trigger] final(self).at(k) == old(self).at(k),
    {
        self.remove(key);
        let ghost removed = *self;
        let ghost before = self@;
        self.entries.push((key.to_string(), value.to_string()));
        proof {
            assert(self@ =~= before.push((key@, value@)));
            assert forall|k: Seq<char>| k != key@ implies #[trigger] self.at(k) == old(self).at(
                k,
            ) by {
                assert(removed.at(k) == old(self).at(k));
                lemma_found_push(before, (key@, value@), k);
            }
            assert(removed.at(key@) is None);
            lemma_found_push(before, (key@, value@), key@);
        }
    }
}

// ── Laws ─────────────────────────────────────────────────────────────────────

/// A map gives a key the value of its first entry, and none where no entry has it.
pub proof fn law_first_entry_counts(m: TextMap, key: &str, i: int, r: Option<String>)
    requires
        call_ensures(TextMap::get, (&m, key), r),
    ensures
        0 <= i < m.entries@.len() && m.entries@[i].0@ == key@ && (forall|j: int|
            0 <= j < i ==> (#[trigger] m.entries@[j]).0@ != key@) ==> r is Some && r->0@
            == m.entries@[i].1@,
        (forall|j: int| 0 <= j < m.entries@.len() ==> (#[trigger] m.entries@[j]).0@ != key@)
            ==> r is None,
{
    if 0 <= i < m.entries@.len() && m.entries@[i].0@ == key@ && (forall|j: int|
        0 <= j < i ==> (#[trigger] m.entries@[j]).0@ != key@) {
        assert forall|j: int| 0 <= j < i implies (#[trigger] m@[j]).0 != key@ by {
            assert(m.entries@[j].0@ != key@);
        }
        lemma_found_at(m@, key@, i);
    }
    if forall|j: int| 0 <= j < m.entries@.len() ==> (#[trigger] m.entries@[j]).0@ != key@ {
        assert forall|j: int| 0 <= j < m@.len() implies (#[trigger] m@[j]).0 != key@ by {
            assert(m.entries@[j].0@ != key@);
        }
        lemma_found_none(m@, key@);
    }
}

proof fn lemma_found_at(pairs: Seq<(Seq<char>, Seq<char>)>, key: Seq<char>, i: int)
    requires
        0 <= i < pairs.len(),
        pairs[i].0 == key,
        forall|j: int| 0 <= j < i ==> (#[trigger] pairs[j]).0 != key,
    ensures
        found(pairs, key) == Some(pairs[i].1),
    decreases i,
{
    if i > 0 {
        assert(pairs[0].0 != key);
        let rest = pairs.drop_first();
        assert forall|j: int| 0 <= j < i - 1 implies (#[trigger] rest[j]).0 != key by {
            assert(rest[j] == pairs[j + 1]);
        }
        lemma_found_at(rest, key, i - 1);
    }
}

proof fn lemma_found_none(pairs: Seq<(Seq<char>, Seq<char>)>, key: Seq<char>)
    requires
        forall|j: int| 0 <= j < pairs.len() ==> (#[trigger] pairs[j]).0 != key,
    ensures
        found(pairs, key) is None,
    decreases pairs.len(),
{
    if pairs.len() > 0 {
        assert(pairs[0].0 != key);
        let rest = pairs.drop_first();
        assert forall|j: int| 0 <= j < rest.len() implies (#[trigger] rest[j]).0 != key by {
            assert(rest[j] == pairs[j + 1]);
        }
        lemma_found_none(rest, key);
    }
}

} // verus!
