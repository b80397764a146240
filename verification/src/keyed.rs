//! Small text-keyed collections that remember insertion order.
//!
//! The aggregates key their state by zone code or by aggregate id. These
//! collections hold such keys in a vector in which no two keys spell the same
//! text, and are viewed as a mathematical map or set over the keys' texts.

use vstd::prelude::*;

verus! {

#[derive(Debug, Clone, PartialEq, Eq)]
struct Entry<V> {
    key: String,
    value: V,
}

/// Map from text to `V`, viewed as `Map<Seq<char>, V>`.
#[derive(Debug, Clone, PartialEq, Eq)]
pub struct TextMap<V> {
    entries: Vec<Entry<V>>,
}

/// The texts of a sequence of strings, in order.
pub open spec fn texts(strings: Seq<String>) -> Seq<Seq<char>> {
    strings.map_values(|s: String| s@)
}

/// `keys` without the entries that spell `text`, the others in their order.
pub open spec fn without(keys: Seq<Seq<char>>, text: Seq<char>) -> Seq<Seq<char>> {
    keys.filter(|k: Seq<char>| k != text)
}

spec fn entry_keys<V>(entries: Seq<Entry<V>>) -> Seq<Seq<char>> {
    entries.map_values(|e: Entry<V>| e.key@)
}

impl<V> View for TextMap<V> {
    type V = Map<Seq<char>, V>;

    closed spec fn view(&self) -> Map<Seq<char>, V> {
        Map::new(
            |k: Seq<char>| self.keys().contains(k),
            |k: Seq<char>| self.entries[self.keys().index_of(k)].value,
        )
    }
}

impl<V> TextMap<V> {
    /// Well-formedness: no two stored keys spell the same text.
    pub closed spec fn wf(&self) -> bool {
        entry_keys(self.entries@).no_duplicates()
    }

    /// The keys in the order in which they were first inserted. In a
    /// well-formed map no key occurs twice, and the keys are exactly the
    /// domain of the view.
    pub closed spec fn keys(&self) -> Seq<Seq<char>> {
        entry_keys(self.entries@)
    }

    /// What `keys` promises: it lists the view's domain without repetition.
    pub proof fn lemma_keys(self)
        requires
            self.wf(),
        ensures
            self.keys().no_duplicates(),
            self@.dom() =~= self.keys().to_set(),
            self@.dom().finite(),
            self@.dom().len() == self.keys().len(),
            forall|i: int| 0 <= i < self.keys().len() ==> self@.contains_key(#[trigger] self.keys()[i]),
    {
        self.keys().unique_seq_to_set();
    }

    /// The empty map.
    pub fn new() -> (res: Self)
        ensures
            res.wf(),
            res@ == Map::<Seq<char>, V>::empty(),
            res.keys() == Seq::<Seq<char>>::empty(),
    {
        let res = TextMap { entries: Vec::new() };
        res
    }

    /// Number of keys.
    pub fn len(&self) -> (res: usize)
        requires
            self.wf(),
        ensures
            res == self.keys().len(),
    {
        self.entries.len()
    }

    /// True when the map holds no key.
    pub fn is_empty(&self) -> (res: bool)
        requires
            self.wf(),
        ensures
            res == (self.keys().len() == 0),
            res == (self@ == Map::<Seq<char>, V>::empty()),
    {
        proof {
            self.lemma_keys();
            if self.keys().len() == 0 {
                assert(self@ =~= Map::<Seq<char>, V>::empty());
            }
        }
        self.entries.len() == 0
    }

    /// The key at position `i` of `keys`.
    pub fn key_at(&self, i: usize) -> (res: &String)
        requires
            self.wf(),
            i < self.keys().len(),
        ensures
            res@ == self.keys()[i as int],
    {
        &self.entries[i].key
    }

    /// The value stored under the key at position `i` of `keys`.
    pub fn value_at(&self, i: usize) -> (res: &V)
        requires
            self.wf(),
            i < self.keys().len(),
        ensures
            self@.contains_key(self.keys()[i as int]),
            *res == self@[self.keys()[i as int]],
    {
        proof {
            let keys = self.keys();
            lemma_index_of(keys, keys[i as int]);
        }
        &self.entries[i].value
    }

    /// Position of `key` in `keys`, if the map holds it.
    pub fn position(&self, key: &String) -> (res: Option<usize>)
        requires
            self.wf(),
        ensures
            match res {
                Some(i) => i < self.keys().len() && self.keys()[i as int] == key@,
                None => !self.keys().contains(key@),
            },
            res is Some <==> self@.contains_key(key@),
    {
        let mut i: usize = 0;
        while i < self.entries.len()
            invariant
                i <= self.entries.len(),
                self.keys() == entry_keys(self.entries@),
                forall|j: int| 0 <= j < i ==> self.keys()[j] != key@,
            decreases self.entries.len() - i,
        {
            if self.entries[i].key == *key {
                proof {
                    assert(self.keys()[i as int] == key@);
                }
                return Some(i);
            }
            i += 1;
        }
        None
    }

    /// True when the map holds `key`.
    pub fn contains_key(&self, key: &String) -> (res: bool)
        requires
            self.wf(),
        ensures
            res == self@.contains_key(key@),
    {
        self.position(key).is_some()
    }

    /// The value stored under `key`, if any.
    pub fn get(&self, key: &String) -> (res: Option<&V>)
        requires
            self.wf(),
        ensures
            match res {
                Some(v) => self@.contains_key(key@) && *v == self@[key@],
                None => !self@.contains_key(key@),
            },
    {
        match self.position(key) {
            Some(i) => Some(self.value_at(i)),
            None => None,
        }
    }

    /// Stores `value` under `key`. A key that the map already holds keeps its
    /// place in `keys`; a new key goes to the end.
    pub fn insert(&mut self, key: String, value: V)
        requires
            old(self).wf(),
        ensures
            final(self).wf(),
            final(self)@ == old(self)@.insert(key@, value),
            final(self).keys() == if old(self)@.contains_key(key@) {
                old(self).keys()
            } else {
                old(self).keys().push(key@)
            },
    {
        let ghost before = *self;
        match self.position(&key) {
            Some(i) => {
                let ghost text = key@;
                self.entries.set(i, Entry { key, value });
                proof {
                    assert(entry_keys(self.entries@) =~= entry_keys(before.entries@));
                    assert(self.keys() == before.keys());
                    let keys = self.keys();
                    lemma_index_of(keys, text);
                    assert(keys.index_of(text) == i);
                    assert forall|k: Seq<char>| (#[trigger] self@.contains_key(k)) implies self@[k]
                        == before@.insert(text, value)[k] by {
                        lemma_index_of(keys, k);
                    }
                    assert(self@ =~= before@.insert(text, value));
                }
            },
            None => {
                let ghost text = key@;
                self.entries.push(Entry { key, value });
                proof {
                    let old_keys = before.keys();
                    assert(entry_keys(self.entries@) =~= old_keys.push(text));
                    assert(old_keys.push(text).no_duplicates());
                    let keys = self.keys();
                    assert(keys == old_keys.push(text));
                    assert forall|k: Seq<char>| keys.contains(k) <==> (old_keys.contains(k) || k
                        == text) by {
                        if old_keys.contains(k) {
                            let j = old_keys.index_of(k);
                            lemma_index_of(old_keys, k);
                            assert(keys[j] == k);
                        }
                        if k == text {
                            assert(keys[old_keys.len() as int] == k);
                        }
                    }
                    assert forall|k: Seq<char>| (#[trigger] self@.contains_key(k)) implies self@[k]
                        == before@.insert(text, value)[k] by {
                        lemma_index_of(keys, k);
                        if k != text {
                            lemma_index_of(old_keys, k);
                            let j = old_keys.index_of(k);
                            assert(keys[j] == k);
                            assert(keys.index_of(k) == j);
                        } else {
                            assert(keys[old_keys.len() as int] == k);
                            assert(keys.index_of(k) == old_keys.len());
                        }
                    }
                    assert(self@ =~= before@.insert(text, value));
                }
            },
        }
    }

    /// Removes `key` and what is stored under it; says whether the map held it.
    /// The other keys keep their order.
    pub fn remove(&mut self, key: &String) -> (res: bool)
        requires
            old(self).wf(),
        ensures
            final(self).wf(),
            res == old(self)@.contains_key(key@),
            final(self)@ == old(self)@.remove(key@),
            final(self).keys() == without(old(self).keys(), key@),
    {
        let ghost before = *self;
        let ghost text = key@;
        match self.position(key) {
            Some(i) => {
                let _ = self.entries.remove(i);
                proof {
                    let old_keys = before.keys();
                    assert(entry_keys(self.entries@) =~= old_keys.remove(i as int));
                    lemma_remove_distinct(old_keys, i as int);
                    let keys = self.keys();
                    assert forall|k: Seq<char>| keys.contains(k) <==> (old_keys.contains(k) && k
                        != text) by {
                        if keys.contains(k) {
                            let j = keys.index_of(k);
                            lemma_index_of(keys, k);
                            if j < i {
                                assert(old_keys[j] == k);
                            } else {
                                assert(old_keys[j + 1] == k);
                            }
                        }
                        if old_keys.contains(k) && k != text {
                            lemma_index_of(old_keys, k);
                        }
                    }
                    assert forall|k: Seq<char>| (#[trigger] self@.contains_key(k)) implies self@[k]
                        == before@.remove(text)[k] by {
                        lemma_index_of(keys, k);
                        lemma_index_of(old_keys, k);
                    }
                }
                true
            },
            None => {
                proof {
                    lemma_without_absent(before.keys(), text);
                }
                false
            },
        }
    }

    /// Removes every key.
    pub fn clear(&mut self)
        requires
            old(self).wf(),
        ensures
            final(self).wf(),
            final(self)@ == Map::<Seq<char>, V>::empty(),
            final(self).keys() == Seq::<Seq<char>>::empty(),
    {
        self.entries.clear();
    }
}

proof fn lemma_index_of(keys: Seq<Seq<char>>, k: Seq<char>)
    ensures
        keys.contains(k) ==> 0 <= keys.index_of(k) < keys.len() && keys[keys.index_of(k)] == k,
{
}

proof fn lemma_remove_distinct(keys: Seq<Seq<char>>, i: int)
    requires
        keys.no_duplicates(),
        0 <= i < keys.len(),
    ensures
        keys.remove(i).no_duplicates(),
        keys.remove(i) == without(keys, keys[i]),
    decreases keys.len(),
{
    let rest = keys.remove(i);
    assert forall|a: int, b: int| 0 <= a < rest.len() && 0 <= b < rest.len() && a != b implies rest[a]
        != rest[b] by {}
    let last = keys.len() - 1;
    reveal(Seq::filter);
    if i == last {
        lemma_without_absent(rest, keys[i]);
    } else {
        lemma_remove_distinct(keys.drop_last(), i);
    }
}

proof fn lemma_without_absent(keys: Seq<Seq<char>>, text: Seq<char>)
    requires
        forall|j: int| 0 <= j < keys.len() ==> keys[j] != text,
    ensures
        without(keys, text) == keys,
    decreases keys.len(),
{
    reveal(Seq::filter);
    if keys.len() > 0 {
        lemma_without_absent(keys.drop_last(), text);
    }
}

/// Set of texts, viewed as `Set<Seq<char>>`.
#[derive(Debug, Clone, PartialEq, Eq)]
pub struct TextSet {
    members: TextMap<()>,
}

impl View for TextSet {
    type V = Set<Seq<char>>;

    closed spec fn view(&self) -> Set<Seq<char>> {
        self.members@.dom()
    }
}

impl TextSet {
    /// Well-formedness: no member is stored twice.
    pub closed spec fn wf(&self) -> bool {
        self.members.wf()
    }

    /// The members in the order in which they were first inserted, each once.
    pub closed spec fn elements(&self) -> Seq<Seq<char>> {
        self.members.keys()
    }

    /// What `elements` promises: it lists the view without repetition.
    pub proof fn lemma_elements(self)
        requires
            self.wf(),
        ensures
            self.elements().no_duplicates(),
            self@ =~= self.elements().to_set(),
            self@.finite(),
            self@.len() == self.elements().len(),
    {
        self.members.lemma_keys();
    }

    /// The empty set.
    pub fn new() -> (res: Self)
        ensures
            res.wf(),
            res@ == Set::<Seq<char>>::empty(),
            res.elements() == Seq::<Seq<char>>::empty(),
    {
        let res = TextSet { members: TextMap::new() };
        res
    }

    /// Number of members.
    pub fn len(&self) -> (res: usize)
        requires
            self.wf(),
        ensures
            res == self.elements().len(),
            res == self@.len(),
    {
        proof {
            self.lemma_elements();
        }
        self.members.len()
    }

    /// True when the set has no member.
    pub fn is_empty(&self) -> (res: bool)
        requires
            self.wf(),
        ensures
            res == (self@ == Set::<Seq<char>>::empty()),
            res == (self.elements().len() == 0),
    {
        let res = self.members.is_empty();
        proof {
            self.lemma_elements();
        }
        res
    }

    /// The member at position `i` of `elements`.
    pub fn element_at(&self, i: usize) -> (res: &String)
        requires
            self.wf(),
            i < self.elements().len(),
        ensures
            res@ == self.elements()[i as int],
            self@.contains(res@),
    {
        proof {
            self.members.lemma_keys();
        }
        self.members.key_at(i)
    }

    /// True when `text` is a member.
    pub fn contains(&self, text: &String) -> (res: bool)
        requires
            self.wf(),
        ensures
            res == self@.contains(text@),
    {
        self.members.contains_key(text)
    }

    /// Adds `text`; says whether it was new. A member keeps its place in
    /// `elements`; a new one goes to the end.
    pub fn insert(&mut self, text: String) -> (res: bool)
        requires
            old(self).wf(),
        ensures
            final(self).wf(),
            res == !old(self)@.contains(text@),
            final(self)@ == old(self)@.insert(text@),
            final(self).elements() == if old(self)@.contains(text@) {
                old(self).elements()
            } else {
                old(self).elements().push(text@)
            },
    {
        let fresh = !self.members.contains_key(&text);
        let ghost before = self.members@;
        let ghost t = text@;
        self.members.insert(text, ());
        proof {
            assert(self.members@.dom() =~= before.dom().insert(t));
        }
        fresh
    }

    /// Removes `text`; says whether it was a member.
    pub fn remove(&mut self, text: &String) -> (res: bool)
        requires
            old(self).wf(),
        ensures
            final(self).wf(),
            res == old(self)@.contains(text@),
            final(self)@ == old(self)@.remove(text@),
            final(self).elements() == without(old(self).elements(), text@),
    {
        let res = self.members.remove(text);
        res
    }

    /// Removes every member.
    pub fn clear(&mut self)
        requires
            old(self).wf(),
        ensures
            final(self).wf(),
            final(self)@ == Set::<Seq<char>>::empty(),
            final(self).elements() == Seq::<Seq<char>>::empty(),
    {
        self.members.clear();
    }
}

} // verus!
