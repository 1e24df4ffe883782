//! Lists of strings in ascending order without repetition: what an
//! ordered set of strings is when it is written down.

use vstd::prelude::*;
use crate::text::{
    lemma_lex_irreflexive, lemma_lex_total, lemma_lex_transitive, lex_lt, same_text, text_less,
    texts,
};

verus! {

/// Every item comes before every later item.
pub open spec fn strictly_sorted(s: Seq<Seq<char>>) -> bool {
    forall|i: int, j: int| 0 <= i < j < s.len() ==> lex_lt(#[trigger] s[i], #[trigger] s[j])
}

/// A list in ascending order holds nothing twice.
pub proof fn lemma_sorted_no_duplicates(s: Seq<Seq<char>>)
    requires
        strictly_sorted(s),
    ensures
        s.no_duplicates(),
{
    assert forall|i: int, j: int| 0 <= i < s.len() && 0 <= j < s.len() && i != j implies s[i]
        != s[j] by {
        lemma_lex_irreflexive(s[i]);
        if i < j {
            assert(lex_lt(s[i], s[j]));
        } else {
            assert(lex_lt(s[j], s[i]));
        }
    }
}

/// Two lists in ascending order that hold the same strings are the same
/// list.
pub proof fn lemma_sorted_unique(a: Seq<Seq<char>>, b: Seq<Seq<char>>)
    requires
        strictly_sorted(a),
        strictly_sorted(b),
        a.to_set() == b.to_set(),
    ensures
        a == b,
    decreases a.len(),
{
    if a.len() == 0 {
        if b.len() > 0 {
            assert(b.to_set().contains(b[0]));
            assert(a.to_set().contains(b[0]));
        }
        assert(a =~= b);
    } else {
        assert(a.to_set().contains(a[0]));
        assert(b.to_set().contains(a[0]));
        let jb = choose|j: int| 0 <= j < b.len() && b[j] == a[0];
        assert(b.to_set().contains(b[0]));
        assert(a.to_set().contains(b[0]));
        let ja = choose|j: int| 0 <= j < a.len() && a[j] == b[0];
        if a[0] != b[0] {
            assert(lex_lt(b[0], b[jb]));
            assert(lex_lt(a[0], a[ja]));
            lemma_lex_total(a[0], b[0]);
        }
        let ta = a.drop_first();
        let tb = b.drop_first();
        lemma_sorted_no_duplicates(a);
        lemma_sorted_no_duplicates(b);
        assert forall|x: Seq<char>| ta.to_set().contains(x) == tb.to_set().contains(x) by {
            if ta.to_set().contains(x) {
                let i = choose|i: int| 0 <= i < ta.len() && ta[i] == x;
                assert(a[i + 1] == x);
                assert(a.to_set().contains(x));
                assert(b.to_set().contains(x));
                let j = choose|j: int| 0 <= j < b.len() && b[j] == x;
                assert(j != 0);
                assert(tb[j - 1] == x);
            }
            if tb.to_set().contains(x) {
                let i = choose|i: int| 0 <= i < tb.len() && tb[i] == x;
                assert(b[i + 1] == x);
                assert(b.to_set().contains(x));
                assert(a.to_set().contains(x));
                let j = choose|j: int| 0 <= j < a.len() && a[j] == x;
                assert(j != 0);
                assert(ta[j - 1] == x);
            }
        }
        assert(ta.to_set() =~= tb.to_set());
        assert(strictly_sorted(ta)) by {
            assert forall|i: int, j: int| 0 <= i < j < ta.len() implies lex_lt(
                #[trigger] ta[i],
                #[trigger] ta[j],
            ) by {
                assert(lex_lt(a[i + 1], a[j + 1]));
            }
        }
        assert(strictly_sorted(tb)) by {
            assert forall|i: int, j: int| 0 <= i < j < tb.len() implies lex_lt(
                #[trigger] tb[i],
                #[trigger] tb[j],
            ) by {
                assert(lex_lt(b[i + 1], b[j + 1]));
            }
        }
        lemma_sorted_unique(ta, tb);
        assert(a =~= seq![a[0]] + ta);
        assert(b =~= seq![b[0]] + tb);
    }
}

/// The strings of `set` in ascending order.
pub open spec fn ascending(set: Set<Seq<char>>) -> Seq<Seq<char>> {
    choose|s: Seq<Seq<char>>| strictly_sorted(s) && s.to_set() == set
}

/// The items in ascending order, each once.
pub fn sorted_distinct(items: &Vec<String>) -> (r: Vec<String>)
    ensures
        strictly_sorted(texts(r@)),
        texts(r@).to_set() == texts(items@).to_set(),
        texts(r@) == ascending(texts(items@).to_set()),
{
    let mut r: Vec<String> = Vec::new();
    let mut i: usize = 0;
    while i < items.len()
        invariant
            i <= items.len(),
            strictly_sorted(texts(r@)),
            texts(r@).to_set() =~= texts(items@).take(i as int).to_set(),
        decreases items.len() - i,
    {
        let item: &String = &items[i];
        let ghost before = texts(r@);
        let ghost seen = texts(items@).take(i as int);
        let ghost seen_next = texts(items@).take(i as int + 1);
        proof {
            assert(seen_next =~= seen.push(item@));
        }
        // the first place whose string does not come before the item
        let mut k: usize = 0;
        while k < r.len() && text_less(r[k].as_str(), item.as_str())
            invariant
                k <= r.len(),
                texts(r@) == before,
                forall|j: int| 0 <= j < k ==> lex_lt(#[trigger] before[j], item@),
            decreases r.len() - k,
        {
            assert(before[k as int] == r@[k as int]@);
            k += 1;
        }
        if k < r.len() && same_text(r[k].as_str(), item.as_str()) {
            proof {
                assert(before[k as int] == item@);
                assert forall|x: Seq<char>| seen_next.to_set().contains(x) implies before.to_set().contains(
                    x,
                ) by {
                    let j = choose|j: int| 0 <= j < seen_next.len() && seen_next[j] == x;
                    if j < seen.len() {
                        assert(seen[j] == x);
                        assert(seen.to_set().contains(x));
                    }
                }
                assert forall|x: Seq<char>| before.to_set().contains(x) implies seen_next.to_set().contains(
                    x,
                ) by {
                    assert(seen.to_set().contains(x));
                    let j = choose|j: int| 0 <= j < seen.len() && seen[j] == x;
                    assert(seen_next[j] == x);
                }
            }
        } else {
            proof {
                if k < r.len() {
                    assert(before[k as int] == r@[k as int]@);
                    lemma_lex_total(before[k as int], item@);
                    assert(lex_lt(item@, before[k as int]));
                }
            }
            r.insert(k, item.clone());
            proof {
                let after = texts(r@);
                assert(after =~= before.take(k as int).push(item@) + before.skip(k as int));
                assert forall|a: int, b: int| 0 <= a < b < after.len() implies lex_lt(
                    #[trigger] after[a],
                    #[trigger] after[b],
                ) by {
                    if b < k {
                        assert(lex_lt(before[a], before[b]));
                    } else if b == k {
                        assert(lex_lt(before[a], item@));
                    } else if a < k {
                        assert(lex_lt(before[a], before[b - 1]));
                    } else if a == k {
                        assert(after[b] == before[b - 1]);
                        if b - 1 > k {
                            assert(lex_lt(before[k as int], before[b - 1]));
                            lemma_lex_transitive(item@, before[k as int], before[b - 1]);
                        }
                    } else {
                        assert(lex_lt(before[a - 1], before[b - 1]));
                    }
                }
                assert forall|x: Seq<char>| seen_next.to_set().contains(x) implies after.to_set().contains(
                    x,
                ) by {
                    let j = choose|j: int| 0 <= j < seen_next.len() && seen_next[j] == x;
                    if j < seen.len() {
                        assert(seen[j] == x);
                        assert(seen.to_set().contains(x));
                        assert(before.to_set().contains(x));
                        let m = choose|m: int| 0 <= m < before.len() && before[m] == x;
                        if m < k {
                            assert(after[m] == x);
                        } else {
                            assert(after[m + 1] == x);
                        }
                    } else {
                        assert(after[k as int] == x);
                    }
                }
                assert forall|x: Seq<char>| after.to_set().contains(x) implies seen_next.to_set().contains(
                    x,
                ) by {
                    let m = choose|m: int| 0 <= m < after.len() && after[m] == x;
                    if m == k {
                        assert(seen_next[i as int] == x);
                    } else {
                        let n = if m < k {
                            m
                        } else {
                            m - 1
                        };
                        assert(before[n] == x);
                        assert(before.to_set().contains(x));
                        assert(seen.to_set().contains(x));
                        let j = choose|j: int| 0 <= j < seen.len() && seen[j] == x;
                        assert(seen_next[j] == x);
                    }
                }
            }
        }
        proof {
            assert(texts(r@).to_set() =~= seen_next.to_set());
        }
        i += 1;
    }
    proof {
        assert(texts(items@).take(items.len() as int) =~= texts(items@));
        let set = texts(items@).to_set();
        let chosen = ascending(set);
        assert(strictly_sorted(texts(r@)) && texts(r@).to_set() == set);
        lemma_sorted_unique(texts(r@), chosen);
    }
    r
}

/// A map from strings to values that is held in the ascending order of
/// its keys, so that it is walked in that order.
pub struct OrderedMap<T> {
    keys: Vec<String>,
    values: Vec<T>,
}

impl<T> View for OrderedMap<T> {
    type V = Map<Seq<char>, T>;

    /// The map as a mathematical map.
    open spec fn view(&self) -> Map<Seq<char>, T> {
        Map::new(
            |k: Seq<char>| self.keys().contains(k),
            |k: Seq<char>| self.values()[self.keys().index_of(k)],
        )
    }
}

impl<T> OrderedMap<T> {
    /// The keys in the order in which the map is walked.
    pub closed spec fn keys(&self) -> Seq<Seq<char>> {
        texts(self.keys@)
    }

    /// The values in the order in which the map is walked.
    pub closed spec fn values(&self) -> Seq<T> {
        self.values@
    }

    /// Every key has its value, and the keys ascend.
    pub open spec fn wf(&self) -> bool {
        self.keys().len() == self.values().len() && strictly_sorted(self.keys())
    }

    /// The value at a place is the value of the key at that place.
    pub proof fn lemma_entry(&self, i: int)
        requires
            self.wf(),
            0 <= i < self.keys().len(),
        ensures
            self@.dom().contains(self.keys()[i]),
            self@[self.keys()[i]] == self.values()[i],
            self.keys().index_of(self.keys()[i]) == i,
    {
        let k = self.keys()[i];
        lemma_sorted_no_duplicates(self.keys());
        let j = self.keys().index_of(k);
        assert(self.keys().contains(k));
        assert(0 <= j < self.keys().len() && self.keys()[j] == k);
    }

    /// The keys are the domain of the map.
    pub proof fn lemma_keys_are_domain(&self)
        requires
            self.wf(),
        ensures
            self.keys().to_set() == self@.dom(),
            self.keys() == ascending(self@.dom()),
    {
        assert(self.keys().to_set() =~= self@.dom());
        lemma_sorted_unique(self.keys(), ascending(self@.dom()));
    }

    /// The empty map.
    pub fn new() -> (map: OrderedMap<T>)
        ensures
            map.wf(),
            map.keys().len() == 0,
            map@ == Map::<Seq<char>, T>::empty(),
    {
        let map = OrderedMap { keys: Vec::new(), values: Vec::new() };
        assert(map@ =~= Map::<Seq<char>, T>::empty());
        map
    }

    /// The number of entries.
    pub fn len(&self) -> (n: usize)
        requires
            self.wf(),
        ensures
            n == self.keys().len(),
    {
        self.keys.len()
    }

    /// The place of `key`: where it is, or where it would have to go.
    pub fn position(&self, key: &str) -> (place: Result<usize, usize>)
        requires
            self.wf(),
        ensures
            match place {
                Ok(i) => i < self.keys().len() && self.keys()[i as int] == key@,
                Err(i) => {
                    &&& i <= self.keys().len()
                    &&& !self.keys().contains(key@)
                    &&& forall|j: int| 0 <= j < i ==> lex_lt(#[trigger] self.keys()[j], key@)
                    &&& forall|j: int|
                        i <= j < self.keys().len() ==> lex_lt(key@, #[trigger] self.keys()[j])
                },
            },
    {
        let mut k: usize = 0;
        while k < self.keys.len() && text_less(self.keys[k].as_str(), key)
            invariant
                k <= self.keys.len(),
                forall|j: int| 0 <= j < k ==> lex_lt(#[trigger] self.keys()[j], key@),
            decreases self.keys.len() - k,
        {
            k += 1;
        }
        if k < self.keys.len() && same_text(self.keys[k].as_str(), key) {
            return Ok(k);
        }
        proof {
            let keys = self.keys();
            if k < keys.len() {
                lemma_lex_total(keys[k as int], key@);
            }
            assert forall|j: int| k <= j < keys.len() implies lex_lt(key@, #[trigger] keys[j]) by {
                if j > k {
                    assert(lex_lt(keys[k as int], keys[j]));
                    lemma_lex_transitive(key@, keys[k as int], keys[j]);
                }
            }
            assert forall|j: int| 0 <= j < keys.len() implies keys[j] != key@ by {
                lemma_lex_irreflexive(key@);
            }
        }
        Err(k)
    }

    /// Whether the map has the key.
    pub fn contains_key(&self, key: &str) -> (found: bool)
        requires
            self.wf(),
        ensures
            found == self@.dom().contains(key@),
    {
        self.position(key).is_ok()
    }

    /// The value of `key`, if the map has the key.
    pub fn get(&self, key: &str) -> (value: Option<&T>)
        requires
            self.wf(),
        ensures
            match value {
                Some(v) => self@.dom().contains(key@) && *v == self@[key@],
                None => !self@.dom().contains(key@),
            },
    {
        match self.position(key) {
            Ok(i) => {
                proof {
                    self.lemma_entry(i as int);
                }
                Some(&self.values[i])
            },
            Err(_) => None,
        }
    }

    /// The key at a place.
    pub fn key_at(&self, i: usize) -> (key: &String)
        requires
            self.wf(),
            i < self.keys().len(),
        ensures
            key@ == self.keys()[i as int],
    {
        &self.keys[i]
    }

    /// The value at a place.
    pub fn value_at(&self, i: usize) -> (value: &T)
        requires
            self.wf(),
            i < self.keys().len(),
        ensures
            *value == self.values()[i as int],
    {
        &self.values[i]
    }

    /// Puts `value` at a place and gives back what was there.
    pub fn replace_at(&mut self, i: usize, value: T) -> (before: T)
        requires
            old(self).wf(),
            i < old(self).keys().len(),
        ensures
            final(self).wf(),
            final(self).keys() == old(self).keys(),
            final(self).values() == old(self).values().update(i as int, value),
            before == old(self).values()[i as int],
            final(self)@ == old(self)@.insert(old(self).keys()[i as int], value),
    {
        let before = self.values.remove(i);
        self.values.insert(i, value);
        proof {
            assert(self.values@ =~= old(self).values@.update(i as int, value));
            let key = self.keys()[i as int];
            old(self).lemma_entry(i as int);
            assert forall|k: Seq<char>| self@.dom().contains(k) implies #[trigger] self@[k]
                == old(self)@.insert(key, value)[k] by {
                let j = self.keys().index_of(k);
                self.lemma_entry(j);
                old(self).lemma_entry(j);
            }
            assert(self@ =~= old(self)@.insert(key, value));
        }
        before
    }

    /// Gives `key` the value `value`. Where the key had a value before,
    /// that value comes back.
    pub fn insert(&mut self, key: String, value: T) -> (before: Option<T>)
        requires
            old(self).wf(),
        ensures
            final(self).wf(),
            final(self)@ == old(self)@.insert(key@, value),
            match before {
                Some(v) => old(self)@.dom().contains(key@) && v == old(self)@[key@]
                    && final(self).keys() == old(self).keys(),
                None => !old(self)@.dom().contains(key@) && final(self).keys().len() == old(
                    self,
                ).keys().len() + 1,
            },
    {
        match self.position(key.as_str()) {
            Ok(i) => {
                proof {
                    self.lemma_entry(i as int);
                }
                Some(self.replace_at(i, value))
            },
            Err(i) => {
                let ghost old_keys = self.keys();
                let ghost old_values = self.values();
                self.keys.insert(i, key);
                self.values.insert(i, value);
                proof {
                    let keys = self.keys();
                    let values = self.values();
                    assert(keys =~= old_keys.insert(i as int, key@));
                    assert(values =~= old_values.insert(i as int, value));
                    assert forall|a: int, b: int| 0 <= a < b < keys.len() implies lex_lt(
                        #[trigger] keys[a],
                        #[trigger] keys[b],
                    ) by {
                        if b < i {
                            assert(lex_lt(old_keys[a], old_keys[b]));
                        } else if b == i {
                            assert(lex_lt(old_keys[a], key@));
                        } else if a < i {
                            assert(lex_lt(old_keys[a], old_keys[b - 1]));
                        } else if a == i {
                            assert(lex_lt(key@, old_keys[b - 1]));
                        } else {
                            assert(lex_lt(old_keys[a - 1], old_keys[b - 1]));
                        }
                    }
                    assert forall|k: Seq<char>| self@.dom().contains(k) == old(self)@.insert(
                        key@,
                        value,
                    ).dom().contains(k) by {
                        if keys.contains(k) {
                            let j = choose|j: int| 0 <= j < keys.len() && keys[j] == k;
                            if j < i {
                                assert(old_keys[j] == k);
                            } else if j > i {
                                assert(old_keys[j - 1] == k);
                            }
                        }
                        if old_keys.contains(k) {
                            let j = choose|j: int| 0 <= j < old_keys.len() && old_keys[j] == k;
                            if j < i {
                                assert(keys[j] == k);
                            } else {
                                assert(keys[j + 1] == k);
                            }
                        }
                        if k == key@ {
                            assert(keys[i as int] == k);
                        }
                    }
                    assert forall|k: Seq<char>| self@.dom().contains(k) implies #[trigger] self@[k]
                        == old(self)@.insert(key@, value)[k] by {
                        let j = self.keys().index_of(k);
                        self.lemma_entry(j);
                        if j < i {
                            old(self).lemma_entry(j);
                        } else if j > i {
                            old(self).lemma_entry(j - 1);
                        }
                    }
                    assert(self@ =~= old(self)@.insert(key@, value));
                }
                None
            },
        }
    }

    /// Takes the entry at a place out of the map.
    pub fn remove_at(&mut self, i: usize) -> (entry: (String, T))
        requires
            old(self).wf(),
            i < old(self).keys().len(),
        ensures
            final(self).wf(),
            entry.0@ == old(self).keys()[i as int],
            entry.1 == old(self).values()[i as int],
            final(self).keys() == old(self).keys().remove(i as int),
            final(self).values() == old(self).values().remove(i as int),
            final(self)@ == old(self)@.remove(entry.0@),
    {
        let ghost old_keys = self.keys();
        let key = self.keys.remove(i);
        let value = self.values.remove(i);
        proof {
            let keys = self.keys();
            assert(key@ == old_keys[i as int]);
            assert(keys =~= old_keys.remove(i as int));
            lemma_sorted_no_duplicates(old_keys);
            assert forall|a: int, b: int| 0 <= a < b < keys.len() implies lex_lt(
                #[trigger] keys[a],
                #[trigger] keys[b],
            ) by {
                let x = if a < i {
                    a
                } else {
                    a + 1
                };
                let y = if b < i {
                    b
                } else {
                    b + 1
                };
                assert(lex_lt(old_keys[x], old_keys[y]));
            }
            assert forall|k: Seq<char>| self@.dom().contains(k) == old(self)@.remove(
                key@,
            ).dom().contains(k) by {
                if keys.contains(k) {
                    let j = choose|j: int| 0 <= j < keys.len() && keys[j] == k;
                    let x = if j < i {
                        j
                    } else {
                        j + 1
                    };
                    assert(old_keys[x] == k);
                    assert(x != i);
                }
                if old_keys.contains(k) && k != key@ {
                    let j = choose|j: int| 0 <= j < old_keys.len() && old_keys[j] == k;
                    if j < i {
                        assert(keys[j] == k);
                    } else {
                        assert(keys[j - 1] == k);
                    }
                }
            }
            assert forall|k: Seq<char>| self@.dom().contains(k) implies #[trigger] self@[k]
                == old(self)@.remove(key@)[k] by {
                let j = self.keys().index_of(k);
                self.lemma_entry(j);
                if j < i {
                    old(self).lemma_entry(j);
                } else {
                    old(self).lemma_entry(j + 1);
                }
            }
            assert(self@ =~= old(self)@.remove(key@));
        }
        (key, value)
    }

    /// The values in the ascending order of their keys.
    pub fn into_values(self) -> (values: Vec<T>)
        requires
            self.wf(),
        ensures
            values@ == self.values(),
    {
        self.values
    }
}

} // verus!
