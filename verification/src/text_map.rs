//! Values and texts by key.

use vstd::prelude::*;

use crate::text::str_eq;

verus! {

broadcast use vstd::string::group_string_axioms;

/// Keeps one value for each key.
#[derive(Debug)]
pub struct KeyedList<V> {
    entries: Vec<(String, V)>,
}

spec fn entries_map<V>(entries: Seq<(String, V)>) -> Map<Seq<char>, V>
    decreases entries.len(),
{
    if entries.len() == 0 {
        Map::empty()
    } else {
        entries_map(entries.drop_last()).insert(entries.last().0@, entries.last().1)
    }
}

/// Whether no key occurs twice.
spec fn keys_distinct<V>(entries: Seq<(String, V)>) -> bool {
    forall|i: int, j: int|
        0 <= i < j < entries.len() ==> (#[trigger] entries[i]).0@ != (#[trigger] entries[j]).0@
}

impl<V> View for KeyedList<V> {
    type V = Map<Seq<char>, V>;

    closed spec fn view(&self) -> Map<Seq<char>, V> {
        entries_map(self.entries@)
    }
}

proof fn lemma_entry_found<V>(entries: Seq<(String, V)>, i: int)
    requires
        keys_distinct(entries),
        0 <= i < entries.len(),
    ensures
        entries_map(entries).contains_key(entries[i].0@),
        entries_map(entries)[entries[i].0@] == entries[i].1,
    decreases entries.len(),
{
    if i < entries.len() - 1 {
        lemma_entry_found(entries.drop_last(), i);
        assert(entries[i].0@ != entries[entries.len() - 1].0@);
    }
}

proof fn lemma_entry_absent<V>(entries: Seq<(String, V)>, key: Seq<char>)
    requires
        forall|i: int| 0 <= i < entries.len() ==> (#[trigger] entries[i]).0@ != key,
    ensures
        !entries_map(entries).contains_key(key),
    decreases entries.len(),
{
    if entries.len() > 0 {
        let front = entries.drop_last();
        assert forall|i: int| 0 <= i < front.len() implies (#[trigger] front[i]).0@ != key by {
            assert(front[i] == entries[i]);
        }
        lemma_entry_absent(front, key);
        assert(entries[entries.len() - 1].0@ != key);
    }
}

proof fn lemma_entry_replaced<V>(entries: Seq<(String, V)>, i: int, entry: (String, V))
    requires
        keys_distinct(entries),
        0 <= i < entries.len(),
        entries[i].0@ == entry.0@,
    ensures
        keys_distinct(entries.update(i, entry)),
        entries_map(entries.update(i, entry)) == entries_map(entries).insert(entry.0@, entry.1),
    decreases entries.len(),
{
    let after = entries.update(i, entry);
    if i == entries.len() - 1 {
        assert(after.drop_last() =~= entries.drop_last());
        assert(entries_map(after) =~= entries_map(entries).insert(entry.0@, entry.1));
    } else {
        let last = entries[entries.len() - 1];
        lemma_entry_replaced(entries.drop_last(), i, entry);
        assert(after.drop_last() =~= entries.drop_last().update(i, entry));
        assert(entries[i].0@ != last.0@);
        assert(entries_map(after) =~= entries_map(entries).insert(entry.0@, entry.1));
    }
}

impl<V> KeyedList<V> {
    #[verifier::type_invariant]
    spec fn well_formed(self) -> bool {
        keys_distinct(self.entries@)
    }

    pub fn new() -> (r: KeyedList<V>)
        ensures
            r@ == Map::<Seq<char>, V>::empty(),
    {
        KeyedList { entries: Vec::new() }
    }

    fn position(&self, key: &str) -> (r: Option<usize>)
        ensures
            match r {
                Some(i) => i < self.entries@.len() && self.entries@[i as int].0@ == key@,
                None => forall|k: int|
                    0 <= k < self.entries@.len() ==> (#[trigger] self.entries@[k]).0@ != key@,
            },
    {
        let mut i: usize = 0;
        while i < self.entries.len()
            invariant
                i <= self.entries@.len(),
                forall|k: int| 0 <= k < i ==> (#[trigger] self.entries@[k]).0@ != key@,
            decreases self.entries@.len() - i,
        {
            if str_eq(self.entries[i].0.as_str(), key) {
                return Some(i);
            }
            i += 1;
        }
        None
    }

    /// Sets the value of a key, in place of the one it has.
    pub fn insert(&mut self, key: &str, value: V)
        ensures
            final(self)@ == old(self)@.insert(key@, value),
    {
        proof {
            use_type_invariant(&*self);
        }
        let found: Option<usize> = self.position(key);
        let entry = (key.to_owned(), value);
        let mut entries: Vec<(String, V)> = Vec::new();
        core::mem::swap(&mut entries, &mut self.entries);
        let ghost before = entries@;
        match found {
            Some(i) => {
                proof {
                    lemma_entry_replaced(before, i as int, entry);
                }
                entries.set(i, entry);
            },
            None => {
                entries.push(entry);
                assert(entries@.drop_last() =~= before);
            },
        }
        self.entries = entries;
    }

    /// The value of a key: the one that was set last.
    pub fn get(&self, key: &str) -> (r: Option<&V>)
        ensures
            match r {
                Some(v) => self@.contains_key(key@) && self@[key@] == *v,
                None => !self@.contains_key(key@),
            },
    {
        proof {
            use_type_invariant(self);
        }
        match self.position(key) {
            Some(i) => {
                proof {
                    lemma_entry_found(self.entries@, i as int);
                }
                Some(&self.entries[i].1)
            },
            None => {
                proof {
                    lemma_entry_absent(self.entries@, key@);
                }
                None
            },
        }
    }
}

/// Keeps one text for each key.
#[derive(Debug)]
pub struct TextMap {
    texts: KeyedList<String>,
}

spec fn text_views(texts: Map<Seq<char>, String>) -> Map<Seq<char>, Seq<char>> {
    texts.map_values(|t: String| t@)
}

impl View for TextMap {
    type V = Map<Seq<char>, Seq<char>>;

    closed spec fn view(&self) -> Map<Seq<char>, Seq<char>> {
        text_views(self.texts@)
    }
}

impl TextMap {
    pub fn new() -> (r: TextMap)
        ensures
            r@ == Map::<Seq<char>, Seq<char>>::empty(),
    {
        let r = TextMap { texts: KeyedList::new() };
        assert(r@ =~= Map::<Seq<char>, Seq<char>>::empty());
        r
    }

    /// Sets the text of a key, in place of the one it has.
    pub fn insert(&mut self, key: &str, text: &str)
        ensures
            final(self)@ == old(self)@.insert(key@, text@),
    {
        self.texts.insert(key, text.to_owned());
        assert(self@ =~= old(self)@.insert(key@, text@));
    }

    /// The text of a key: the one that was set last.
    pub fn get(&self, key: &str) -> (r: Option<&str>)
        ensures
            match r {
                Some(t) => self@.contains_key(key@) && self@[key@] == t@,
                None => !self@.contains_key(key@),
            },
    {
        match self.texts.get(key) {
            Some(t) => Some(t.as_str()),
            None => None,
        }
    }
}

impl Clone for TextMap {
    fn clone(&self) -> (r: TextMap)
        ensures
            r@ == self@,
    {
        let mut r = TextMap::new();
        let entries = &self.texts.entries;
        let mut i: usize = 0;
        assert(entries@.take(0) =~= seq![]);
        assert(r@ =~= text_views(entries_map(entries@.take(0))));
        while i < entries.len()
            invariant
                i <= entries@.len(),
                r@ == text_views(entries_map(entries@.take(i as int))),
            decreases entries@.len() - i,
        {
            let ghost next = entries@.take(i as int + 1);
            assert(next.drop_last() =~= entries@.take(i as int));
            r.insert(entries[i].0.as_str(), entries[i].1.as_str());
            assert(r@ =~= text_views(entries_map(next)));
            i += 1;
        }
        assert(entries@.take(entries@.len() as int) =~= entries@);
        r
    }
}

} // verus!
