//! A map from text to values, small enough to be searched from the front.

use vstd::prelude::*;

use crate::text::same;

verus! {

/// A key and its value.
pub struct Entry<V> {
    pub key: Seq<char>,
    pub value: V,
}

/// A map from text to values. Its entries stand in the order in which their keys
/// came, and no key stands twice: see `distinct`.
pub struct Keyed<V> {
    texts: Vec<String>,
    items: Vec<V>,
}

/// The value of the first entry with the key.
pub open spec fn found<V>(entries: Seq<Entry<V>>, key: Seq<char>) -> Option<V>
    decreases entries.len(),
{
    if entries.len() == 0 {
        None
    } else if entries[0].key == key {
        Some(entries[0].value)
    } else {
        found(entries.skip(1), key)
    }
}

/// The map that a row of entries stands for.
pub open spec fn map_of<V>(entries: Seq<Entry<V>>) -> Map<Seq<char>, V> {
    Map::new(|k: Seq<char>| found(entries, k) is Some, |k: Seq<char>| found(entries, k)->0)
}

/// The entries made of some keys and as many values.
spec fn paired<V>(texts: Seq<String>, items: Seq<V>) -> Seq<Entry<V>> {
    Seq::new(texts.len(), |i: int| Entry { key: texts[i]@, value: items[i] })
}

spec fn keys_of<V>(entries: Seq<Entry<V>>) -> Seq<Seq<char>> {
    entries.map_values(|e: Entry<V>| e.key)
}

spec fn values_of<V>(entries: Seq<Entry<V>>) -> Seq<V> {
    entries.map_values(|e: Entry<V>| e.value)
}

impl<V> View for Keyed<V> {
    type V = Map<Seq<char>, V>;

    closed spec fn view(&self) -> Map<Seq<char>, V> {
        map_of(self.entries())
    }
}

impl<V> Keyed<V> {
    spec fn entries(&self) -> Seq<Entry<V>> {
        paired(self.texts@, self.items@)
    }

    /// The keys in the order in which they came, one for each entry.
    pub closed spec fn keys(&self) -> Seq<Seq<char>> {
        keys_of(self.entries())
    }

    /// The values, one for each entry.
    pub closed spec fn values(&self) -> Seq<V> {
        values_of(self.entries())
    }

    /// Each key has its value, and no key stands twice. This holds of every map
    /// at all times.
    #[verifier::type_invariant]
    pub closed spec fn distinct(&self) -> bool {
        &&& self.texts@.len() == self.items@.len()
        &&& self.keys().no_duplicates()
    }

    /// The keys of the entries are the keys of the map.
    pub proof fn lemma_keys(&self)
        ensures
            self.keys().len() == self.values().len(),
            forall|k: Seq<char>| #[trigger] self@.contains_key(k) == self.keys().contains(k),
    {
        assert forall|k: Seq<char>| #[trigger] self@.contains_key(k) == self.keys().contains(k) by {
            if self.keys().contains(k) {
                let i = choose|i: int| 0 <= i < self.keys().len() && self.keys()[i] == k;
                assert(self.entries()[i].key == k);
                lemma_some_found(self.entries(), i);
            } else {
                assert forall|i: int| 0 <= i < self.entries().len() implies (
                #[trigger] self.entries()[i]).key != k by {
                    assert(self.keys()[i] == self.entries()[i].key);
                }
                lemma_not_found(self.entries(), k);
            }
        }
    }
}

/// Two maps over the same entries, the values of one made from those of the
/// other, agree key by key.
pub proof fn lemma_values_mapped<V>(a: Keyed<V>, b: Keyed<V>, f: spec_fn(V) -> V)
    requires
        a.keys() == b.keys(),
        b.values() == a.values().map_values(f),
    ensures
        b@ == a@.map_values(f),
{
    assert(a.keys().len() == a.entries().len());
    assert(b.keys().len() == b.entries().len());
    assert forall|k: Seq<char>| #[trigger] found(b.entries(), k) == (match found(a.entries(), k) {
        Some(v) => Some(f(v)),
        None => None,
    }) by {
        assert forall|i: int| 0 <= i < a.entries().len() implies (#[trigger] a.entries()[i]).key
            == b.entries()[i].key && b.entries()[i].value == f(a.entries()[i].value) by {
            assert(a.keys()[i] == a.entries()[i].key);
            assert(b.keys()[i] == b.entries()[i].key);
            assert(b.values()[i] == b.entries()[i].value);
            assert(a.values()[i] == a.entries()[i].value);
        }
        lemma_found_mapped(a.entries(), b.entries(), f, k);
    }
    assert(b@ =~= a@.map_values(f));
}

proof fn lemma_found_mapped<V>(a: Seq<Entry<V>>, b: Seq<Entry<V>>, f: spec_fn(V) -> V, k: Seq<char>)
    requires
        a.len() == b.len(),
        forall|i: int|
            0 <= i < a.len() ==> (#[trigger] a[i]).key == b[i].key && b[i].value == f(a[i].value),
    ensures
        found(b, k) == (match found(a, k) {
            Some(v) => Some(f(v)),
            None => None,
        }),
    decreases a.len(),
{
    if a.len() > 0 {
        assert(a[0].key == b[0].key);
        let ra = a.skip(1);
        let rb = b.skip(1);
        assert forall|i: int| 0 <= i < ra.len() implies (#[trigger] ra[i]).key == rb[i].key
            && rb[i].value == f(ra[i].value) by {
            assert(ra[i] == a[i + 1]);
            assert(rb[i] == b[i + 1]);
        }
        lemma_found_mapped(ra, rb, f, k);
    }
}

/// Two maps over the same keys, whose values are related entry by entry, are
/// related key by key.
pub proof fn lemma_values_related<V>(a: Keyed<V>, b: Keyed<V>, related: spec_fn(V, V) -> bool)
    requires
        a.keys() == b.keys(),
        a.values().len() == b.values().len(),
        forall|i: int|
            0 <= i < a.values().len() ==> #[trigger] related(a.values()[i], b.values()[i]),
    ensures
        a@.dom() =~= b@.dom(),
        forall|k: Seq<char>| #[trigger] a@.contains_key(k) ==> related(a@[k], b@[k]),
{
    assert forall|k: Seq<char>|
        (found(a.entries(), k) is Some <==> found(b.entries(), k) is Some) && (#[trigger] found(
            a.entries(),
            k,
        ) is Some ==> related(found(a.entries(), k)->0, found(b.entries(), k)->0)) by {
        assert forall|i: int| 0 <= i < a.entries().len() implies (#[trigger] a.entries()[i]).key
            == b.entries()[i].key && related(a.entries()[i].value, b.entries()[i].value) by {
            assert(a.keys()[i] == a.entries()[i].key);
            assert(b.keys()[i] == b.entries()[i].key);
            assert(related(a.values()[i], b.values()[i]));
        }
        lemma_found_related(a.entries(), b.entries(), related, k);
    }
    assert forall|k: Seq<char>| a@.contains_key(k) == b@.contains_key(k) by {
        assert(found(a.entries(), k) is Some <==> found(b.entries(), k) is Some);
    }
    assert forall|k: Seq<char>| #[trigger] a@.contains_key(k) implies related(a@[k], b@[k]) by {
        assert(found(a.entries(), k) is Some);
    }
}

proof fn lemma_found_related<V>(
    a: Seq<Entry<V>>,
    b: Seq<Entry<V>>,
    related: spec_fn(V, V) -> bool,
    k: Seq<char>,
)
    requires
        a.len() == b.len(),
        forall|i: int|
            0 <= i < a.len() ==> (#[trigger] a[i]).key == b[i].key && related(
                a[i].value,
                b[i].value,
            ),
    ensures
        found(a, k) is Some <==> found(b, k) is Some,
        found(a, k) is Some ==> related(found(a, k)->0, found(b, k)->0),
    decreases a.len(),
{
    if a.len() > 0 {
        assert(a[0].key == b[0].key);
        let ra = a.skip(1);
        let rb = b.skip(1);
        assert forall|i: int| 0 <= i < ra.len() implies (#[trigger] ra[i]).key == rb[i].key
            && related(ra[i].value, rb[i].value) by {
            assert(ra[i] == a[i + 1]);
            assert(rb[i] == b[i + 1]);
        }
        lemma_found_related(ra, rb, related, k);
    }
}

/// Where the key first stands.
spec fn first_at<V>(entries: Seq<Entry<V>>, key: Seq<char>, i: int) -> bool {
    &&& 0 <= i < entries.len()
    &&& entries[i].key == key
    &&& forall|k: int| 0 <= k < i ==> (#[trigger] entries[k]).key != key
}

proof fn lemma_found_at<V>(entries: Seq<Entry<V>>, key: Seq<char>, i: int)
    requires
        first_at(entries, key, i),
    ensures
        found(entries, key) == Some(entries[i].value),
    decreases entries.len(),
{
    if i > 0 {
        assert(entries[0].key != key);
        let rest = entries.skip(1);
        assert forall|k: int| 0 <= k < i - 1 implies (#[trigger] rest[k]).key != key by {
            assert(rest[k] == entries[k + 1]);
        }
        lemma_found_at(rest, key, i - 1);
    }
}

proof fn lemma_not_found<V>(entries: Seq<Entry<V>>, key: Seq<char>)
    requires
        forall|k: int| 0 <= k < entries.len() ==> (#[trigger] entries[k]).key != key,
    ensures
        found(entries, key) is None,
    decreases entries.len(),
{
    if entries.len() > 0 {
        assert(entries[0].key != key);
        let rest = entries.skip(1);
        assert forall|k: int| 0 <= k < rest.len() implies (#[trigger] rest[k]).key != key by {
            assert(rest[k] == entries[k + 1]);
        }
        lemma_not_found(rest, key);
    }
}

/// Entries that differ only behind one key look the same under any other key.
proof fn lemma_found_elsewhere<V>(a: Seq<Entry<V>>, b: Seq<Entry<V>>, key: Seq<char>, other: Seq<char>)
    requires
        a.len() == b.len(),
        forall|k: int|
            0 <= k < a.len() ==> (#[trigger] a[k]).key == b[k].key && (a[k].key != key ==> a[k]
                == b[k]),
        other != key,
    ensures
        found(a, other) == found(b, other),
    decreases a.len(),
{
    if a.len() > 0 {
        assert(a[0].key == b[0].key);
        let ra = a.skip(1);
        let rb = b.skip(1);
        assert forall|k: int| 0 <= k < ra.len() implies (#[trigger] ra[k]).key == rb[k].key && (
        ra[k].key != key ==> ra[k] == rb[k]) by {
            assert(ra[k] == a[k + 1]);
            assert(rb[k] == b[k + 1]);
        }
        lemma_found_elsewhere(ra, rb, key, other);
    }
}

proof fn lemma_found_push<V>(a: Seq<Entry<V>>, e: Entry<V>, other: Seq<char>)
    ensures
        found(a.push(e), other) == (if found(a, other) is Some {
            found(a, other)
        } else if e.key == other {
            Some(e.value)
        } else {
            None
        }),
    decreases a.len(),
{
    if a.len() == 0 {
        assert(a.push(e).skip(1) =~= Seq::<Entry<V>>::empty());
        assert(a.push(e)[0] == e);
        reveal_with_fuel(found, 2);
    } else {
        assert(a.push(e)[0] == a[0]);
        assert(a.push(e).skip(1) =~= a.skip(1).push(e));
        lemma_found_push(a.skip(1), e, other);
    }
}

impl<V> Keyed<V> {
    /// The empty map.
    pub fn new() -> (r: Self)
        ensures
            r@ == Map::<Seq<char>, V>::empty(),
            r.keys() == Seq::<Seq<char>>::empty(),
            r.distinct(),
    {
        let r = Keyed { texts: Vec::new(), items: Vec::new() };
        proof {
            assert(r.keys() =~= Seq::<Seq<char>>::empty());
            assert(r@ =~= Map::<Seq<char>, V>::empty());
        }
        r
    }

    fn position(&self, key: &str) -> (r: Option<usize>)
        ensures
            self.texts@.len() == self.items@.len(),
            match r {
                Some(i) => first_at(self.entries(), key@, i as int) && self@.contains_key(key@)
                    && self@[key@] == self.items@[i as int],
                None => !self@.contains_key(key@) && forall|k: int|
                    0 <= k < self.entries().len() ==> (#[trigger] self.entries()[k]).key != key@,
            },
    {
        proof {
            use_type_invariant(self);
        }
        let mut i: usize = 0;
        while i < self.texts.len()
            invariant
                i <= self.texts@.len(),
                self.texts@.len() == self.items@.len(),
                forall|k: int| 0 <= k < i ==> (#[trigger] self.entries()[k]).key != key@,
            decreases self.texts.len() - i,
        {
            proof {
                assert(self.entries()[i as int].key == self.texts@[i as int]@);
            }
            if same(self.texts[i].as_str(), key) {
                proof {
                    lemma_found_at(self.entries(), key@, i as int);
                }
                return Some(i);
            }
            i += 1;
        }
        proof {
            lemma_not_found(self.entries(), key@);
        }
        None
    }

    /// The value of a key.
    pub fn get(&self, key: &str) -> (r: Option<&V>)
        ensures
            match r {
                Some(v) => self@.contains_key(key@) && *v == self@[key@],
                None => !self@.contains_key(key@),
            },
    {
        match self.position(key) {
            Some(i) => Some(&self.items[i]),
            None => None,
        }
    }

    /// Whether the key has a value.
    pub fn contains_key(&self, key: &str) -> (r: bool)
        ensures
            r == self@.contains_key(key@),
    {
        self.position(key).is_some()
    }

    /// The value of a key, to be changed in place.
    pub fn get_mut(&mut self, key: &str) -> (r: &mut V)
        requires
            old(self)@.contains_key(key@),
        ensures
            *r == old(self)@[key@],
            final(self)@ == old(self)@.insert(key@, *final(r)),
            final(self).keys() == old(self).keys(),
            final(self).distinct(),
    {
        let at = self.position(key);
        let i: usize = at.unwrap();
        let ghost texts = self.texts@;
        let ghost items = self.items@;
        let ghost before = self.entries();
        proof {
            use_type_invariant(&*self);
            assert forall|value: V| #[trigger]
                map_of(paired(texts, items.update(i as int, value))) == map_of(before).insert(
                    key@,
                    value,
                ) by {
                let after = paired(texts, items.update(i as int, value));
                assert forall|k: int| 0 <= k < i implies (#[trigger] after[k]).key != key@ by {
                    assert(after[k].key == before[k].key);
                }
                assert(after[i as int].key == before[i as int].key);
                lemma_found_at(after, key@, i as int);
                assert forall|other: Seq<char>| other != key@ implies found(after, other) == found(
                    before,
                    other,
                ) by {
                    assert forall|k: int| 0 <= k < after.len() implies (#[trigger] after[k]).key
                        == before[k].key && (after[k].key != key@ ==> after[k] == before[k]) by {
                        if k != i {
                            assert(after[k] == before[k]);
                        }
                    }
                    lemma_found_elsewhere(after, before, key@, other);
                }
                assert(map_of(after) =~= map_of(before).insert(key@, value));
            }
            assert forall|value: V| #[trigger]
                keys_of(paired(texts, items.update(i as int, value))) == keys_of(before) by {
                assert(keys_of(paired(texts, items.update(i as int, value))) =~= keys_of(before));
            }
        }
        &mut self.items[i]
    }

    /// Gives a key a value.
    pub fn insert(&mut self, key: String, value: V)
        ensures
            final(self)@ == old(self)@.insert(key@, value),
            final(self).keys() == (if old(self)@.contains_key(key@) {
                old(self).keys()
            } else {
                old(self).keys().push(key@)
            }),
            final(self).distinct(),
    {
        proof {
            use_type_invariant(&*self);
            self.lemma_keys();
        }
        if self.contains_key(key.as_str()) {
            let slot = self.get_mut(key.as_str());
            *slot = value;
        } else {
            let ghost before = self.entries();
            let ghost e = Entry { key: key@, value };
            let mut whole: Keyed<V> = Keyed::new();
            std::mem::swap(self, &mut whole);
            let Keyed { mut texts, mut items } = whole;
            texts.push(key);
            items.push(value);
            proof {
                assert(paired(texts@, items@) =~= before.push(e));
                assert forall|other: Seq<char>|
                    found(before.push(e), other) == (if found(before, other) is Some {
                        found(before, other)
                    } else if e.key == other {
                        Some(e.value)
                    } else {
                        None
                    }) by {
                    lemma_found_push(before, e, other);
                }
                assert(map_of(before.push(e)) =~= old(self)@.insert(key@, value));
                assert(keys_of(before.push(e)) =~= old(self).keys().push(key@));
                assert(keys_of(before.push(e)).no_duplicates());
            }
            *self = Keyed { texts, items };
        }
    }

    /// Takes a key out, with its value.
    pub fn remove(&mut self, key: &str)
        ensures
            final(self)@ == old(self)@.remove(key@),
            final(self).keys() == old(self).keys().filter(|k: Seq<char>| k != key@),
            final(self).distinct(),
    {
        let ghost other_than = |k: Seq<char>| k != key@;
        proof {
            use_type_invariant(&*self);
        }
        let ghost before = self.entries();
        let mut whole: Keyed<V> = Keyed::new();
        std::mem::swap(self, &mut whole);
        let Keyed { mut texts, mut items } = whole;
        let mut kept_texts: Vec<String> = Vec::new();
        let mut kept_items: Vec<V> = Vec::new();
        proof {
            assert(paired(texts@, items@) =~= before.skip(0));
            lemma_not_found(paired(kept_texts@, kept_items@), key@);
            assert forall|other: Seq<char>| #[trigger]
                found(paired(kept_texts@, kept_items@), other) is None by {
            }
            assert(before.skip(0) =~= before);
            assert(keys_of(before).take(0) =~= Seq::<Seq<char>>::empty());
            reveal(Seq::filter);
            assert(keys_of(paired(kept_texts@, kept_items@)) =~= keys_of(before).take(0).filter(
                other_than,
            ));
        }
        while texts.len() > 0
            invariant
                texts@.len() <= before.len(),
                texts@.len() == items@.len(),
                kept_texts@.len() == kept_items@.len(),
                paired(texts@, items@) == before.skip(before.len() - texts@.len()),
                found(paired(kept_texts@, kept_items@), key@) is None,
                other_than == (|k: Seq<char>| k != key@),
                keys_of(paired(kept_texts@, kept_items@)) == keys_of(before).take(
                    before.len() - texts@.len(),
                ).filter(other_than),
                forall|other: Seq<char>|
                    other != key@ ==> #[trigger] found(before, other) == (if found(
                        paired(kept_texts@, kept_items@),
                        other,
                    ) is Some {
                        found(paired(kept_texts@, kept_items@), other)
                    } else {
                        found(paired(texts@, items@), other)
                    }),
            decreases texts.len(),
        {
            let ghost was = paired(texts@, items@);
            let ghost had = paired(kept_texts@, kept_items@);
            let ghost e = was[0];
            let text = texts.remove(0);
            let item = items.remove(0);
            proof {
                assert(paired(texts@, items@) =~= was.skip(1));
                assert(paired(texts@, items@) =~= before.skip(before.len() - texts@.len()));
                let keys = keys_of(before);
                let n = before.len() - was.len();
                assert(was[0] == before[n]);
                assert(keys[n] == e.key);
                assert(keys.take(n + 1) =~= keys.take(n).push(keys[n]));
                keys.take(n).lemma_filter_push(keys[n], other_than);
            }
            if !same(text.as_str(), key) {
                kept_texts.push(text);
                kept_items.push(item);
                proof {
                    assert(paired(kept_texts@, kept_items@) =~= had.push(e));
                    assert(keys_of(had.push(e)) =~= keys_of(had).push(e.key));
                    assert forall|other: Seq<char>| #[trigger]
                        found(had.push(e), other) == (if found(had, other) is Some {
                            found(had, other)
                        } else if e.key == other {
                            Some(e.value)
                        } else {
                            None
                        }) by {
                        lemma_found_push(had, e, other);
                    }
                }
            }
        }
        proof {
            assert(keys_of(before).take(before.len() as int) =~= keys_of(before));
            lemma_filter_distinct(keys_of(before), other_than);
            assert(map_of(paired(kept_texts@, kept_items@)) =~= map_of(before).remove(key@));
        }
        *self = Keyed { texts: kept_texts, items: kept_items };
    }

    /// How many entries there are.
    pub fn count(&self) -> (r: usize)
        ensures
            r == self.keys().len(),
            r == self.values().len(),
            self.distinct(),
    {
        proof {
            use_type_invariant(self);
        }
        self.texts.len()
    }

    /// The key of an entry.
    pub fn key(&self, i: usize) -> (r: &String)
        requires
            i < self.keys().len(),
        ensures
            r@ == self.keys()[i as int],
            self@.contains_key(r@),
    {
        proof {
            self.lemma_keys();
            assert(self.keys().contains(self.keys()[i as int]));
        }
        &self.texts[i]
    }

    /// The value of an entry, to be changed in place.
    pub fn value_mut(&mut self, i: usize) -> (r: &mut V)
        requires
            i < old(self).values().len(),
        ensures
            *r == old(self).values()[i as int],
            final(self).keys() == old(self).keys(),
            final(self).values() == old(self).values().update(i as int, *final(r)),
            final(self).distinct(),
    {
        let ghost texts = self.texts@;
        let ghost items = self.items@;
        let ghost before = self.entries();
        proof {
            use_type_invariant(&*self);
            assert forall|value: V| #[trigger]
                keys_of(paired(texts, items.update(i as int, value))) == keys_of(before) by {
                assert(keys_of(paired(texts, items.update(i as int, value))) =~= keys_of(before));
            }
            assert forall|value: V| #[trigger]
                values_of(paired(texts, items.update(i as int, value))) == values_of(before).update(
                    i as int,
                    value,
                ) by {
                assert(values_of(paired(texts, items.update(i as int, value))) =~= values_of(
                    before,
                ).update(i as int, value));
            }
        }
        &mut self.items[i]
    }
}

proof fn lemma_filter_distinct(s: Seq<Seq<char>>, p: spec_fn(Seq<char>) -> bool)
    requires
        s.no_duplicates(),
    ensures
        s.filter(p).no_duplicates(),
        forall|k: Seq<char>| #[trigger] s.filter(p).contains(k) ==> s.contains(k),
    decreases s.len(),
{
    reveal(Seq::filter);
    if s.len() > 0 {
        let rest = s.drop_last();
        lemma_filter_distinct(rest, p);
        assert forall|k: Seq<char>| rest.contains(k) implies s.contains(k) && k != s.last() by {
            let i = choose|i: int| 0 <= i < rest.len() && rest[i] == k;
            assert(s[i] == k);
        }
        assert(s.contains(s.last()));
        assert forall|k: Seq<char>| #[trigger] s.filter(p).contains(k) implies s.contains(k) by {
            let i = choose|i: int| 0 <= i < s.filter(p).len() && s.filter(p)[i] == k;
            if i < rest.filter(p).len() {
                assert(rest.filter(p)[i] == k);
                assert(rest.filter(p).contains(k));
            }
        }
        if p(s.last()) {
            assert forall|i: int| 0 <= i < rest.filter(p).len() implies rest.filter(p)[i]
                != s.last() by {
                assert(rest.filter(p).contains(rest.filter(p)[i]));
            }
        }
    }
}

/// Of a map in which no key stands twice, the entries are the map: one for each
/// key, with the value of the key.
pub proof fn law_a_key_has_one_entry<V>(m: Keyed<V>)
    requires
        m.distinct(),
    ensures
        m.keys().no_duplicates(),
        m@.dom() == m.keys().to_set(),
        m@.dom().finite(),
        m@.dom().len() == m.keys().len(),
        m.values().len() == m.keys().len(),
        forall|i: int| 0 <= i < m.keys().len() ==> m@[#[trigger] m.keys()[i]] == m.values()[i],
{
    m.lemma_keys();
    m.keys().unique_seq_to_set();
    assert(m@.dom() =~= m.keys().to_set());
    assert forall|i: int| 0 <= i < m.keys().len() implies m@[#[trigger] m.keys()[i]]
        == m.values()[i] by {
        let key = m.keys()[i];
        assert forall|k: int| 0 <= k < i implies (#[trigger] m.entries()[k]).key != key by {
            assert(m.keys()[k] == m.entries()[k].key);
        }
        assert(m.entries()[i].key == key);
        lemma_found_at(m.entries(), key, i);
    }
}

proof fn lemma_some_found<V>(entries: Seq<Entry<V>>, i: int)
    requires
        0 <= i < entries.len(),
    ensures
        found(entries, entries[i].key) is Some,
    decreases entries.len(),
{
    if entries[0].key != entries[i].key {
        assert(entries.skip(1)[i - 1] == entries[i]);
        lemma_some_found(entries.skip(1), i - 1);
    }
}

} // verus!
