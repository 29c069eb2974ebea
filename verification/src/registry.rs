//! A keyed collection of entities, addressed by string identifier.
//!
//! A `Registry<T>` is modelled as a `Map<Seq<char>, T>`: at most one value per
//! identifier. Entries are kept in a vector and found by comparing keys, which
//! suits the handful of seasons, episodes or scenes that one parent holds.
//!
//! It stands where a `std::collections::HashMap<String, T>` would. vstd's
//! contracts for `HashMap` hold only for a key type that is known to obey its
//! hash-table model (`obeys_key_model`), and it knows that of integers,
//! `bool` and boxes of them, not of `String`: with string keys nothing could
//! be proved of an insert or a lookup. Here every operation is proved.

use vstd::prelude::*;

verus! {

#[derive(Debug)]
struct Entry<T> {
    key: String,
    value: T,
}

/// Entities keyed by identifier; no identifier occurs twice.
#[derive(Debug)]
pub struct Registry<T> {
    entries: Vec<Entry<T>>,
}

spec fn key_at<T>(entries: Seq<Entry<T>>, key: Seq<char>, i: int) -> bool {
    0 <= i < entries.len() && entries[i].key@ == key
}

spec fn distinct_keys<T>(entries: Seq<Entry<T>>) -> bool {
    forall|i: int, j: int|
        0 <= i < entries.len() && 0 <= j < entries.len() && i != j ==> entries[i].key@
            != entries[j].key@
}

spec fn absent<T>(entries: Seq<Entry<T>>, key: Seq<char>) -> bool {
    forall|i: int| 0 <= i < entries.len() ==> entries[i].key@ != key
}

spec fn model<T>(entries: Seq<Entry<T>>) -> Map<Seq<char>, T> {
    Map::new(
        |k: Seq<char>| exists|i: int| key_at(entries, k, i),
        |k: Seq<char>| entries[choose|i: int| key_at(entries, k, i)].value,
    )
}

/// The model of a registry of entities: each value replaced by its own model.
pub open spec fn views<T: View>(m: Map<Seq<char>, T>) -> Map<Seq<char>, T::V> {
    Map::new(|k: Seq<char>| m.contains_key(k), |k: Seq<char>| m[k]@)
}

/// The model of a sequence of entities: each element replaced by its own model.
pub open spec fn seq_views<T: View>(s: Seq<T>) -> Seq<T::V> {
    Seq::new(s.len(), |i: int| s[i]@)
}

/// Storing a value changes the model by storing the value's model.
pub proof fn lemma_views_insert<T: View>(m: Map<Seq<char>, T>, key: Seq<char>, value: T)
    ensures
        views(m.insert(key, value)) == views(m).insert(key, value@),
{
    assert(views(m.insert(key, value)) =~= views(m).insert(key, value@));
}

/// Removing an entry removes it from the model; removing what is not there
/// leaves the model as it was.
pub proof fn lemma_views_remove<T: View>(m: Map<Seq<char>, T>, key: Seq<char>)
    ensures
        views(m.remove(key)) == views(m).remove(key),
        !m.contains_key(key) ==> views(m.remove(key)) == views(m),
{
    assert(views(m.remove(key)) =~= views(m).remove(key));
    if !m.contains_key(key) {
        assert(m.remove(key) =~= m);
    }
}

/// Putting back, under its own key, a value whose model is the one that the
/// registry holds there leaves the registry's model as it was.
pub proof fn lemma_views_put_back<T: View>(m: Map<Seq<char>, T>, key: Seq<char>, value: T)
    requires
        m.contains_key(key),
        value@ == m[key]@,
    ensures
        views(m.insert(key, value)) == views(m),
{
    assert(views(m.insert(key, value)) =~= views(m));
}

/// Registries with the same identifiers and, under each, values with the same
/// model have the same model.
pub proof fn lemma_views_equal<T: View>(a: Map<Seq<char>, T>, b: Map<Seq<char>, T>)
    requires
        a.dom() == b.dom(),
        forall|k: Seq<char>| a.contains_key(k) ==> (#[trigger] a[k])@ == b[k]@,
    ensures
        views(a) == views(b),
{
    assert(views(a) =~= views(b));
}

proof fn lemma_model_lookup<T>(entries: Seq<Entry<T>>, i: int)
    requires
        distinct_keys(entries),
        0 <= i < entries.len(),
    ensures
        model(entries).contains_key(entries[i].key@),
        model(entries)[entries[i].key@] == entries[i].value,
{
    assert(key_at(entries, entries[i].key@, i));
}

proof fn lemma_model_absent<T>(entries: Seq<Entry<T>>, key: Seq<char>)
    ensures
        absent(entries, key) <==> !model(entries).contains_key(key),
{
    if !absent(entries, key) {
        let i = choose|i: int| 0 <= i < entries.len() && entries[i].key@ == key;
        assert(key_at(entries, key, i));
    }
}

proof fn lemma_model_update<T>(entries: Seq<Entry<T>>, i: int, e: Entry<T>)
    requires
        distinct_keys(entries),
        0 <= i < entries.len(),
        e.key@ == entries[i].key@,
    ensures
        distinct_keys(entries.update(i, e)),
        model(entries.update(i, e)) == model(entries).insert(e.key@, e.value),
{
    let after = entries.update(i, e);
    let a = model(after);
    let b = model(entries).insert(e.key@, e.value);
    assert(key_at(entries, e.key@, i));
    assert(key_at(after, e.key@, i));
    assert forall|k: Seq<char>| a.contains_key(k) <==> b.contains_key(k) by {
        if a.contains_key(k) {
            let j = choose|j: int| key_at(after, k, j);
            assert(key_at(entries, k, j));
        }
        if b.contains_key(k) && k != e.key@ {
            let j = choose|j: int| key_at(entries, k, j);
            assert(key_at(after, k, j));
        }
    }
    assert forall|k: Seq<char>| a.contains_key(k) implies #[trigger] a[k] == b[k] by {
        let j = choose|j: int| key_at(after, k, j);
        if k != e.key@ {
            let j2 = choose|j2: int| key_at(entries, k, j2);
            assert(key_at(entries, k, j));
            assert(j == j2);
        } else {
            assert(j == i);
        }
    }
    assert(a =~= b);
}

proof fn lemma_model_push<T>(entries: Seq<Entry<T>>, e: Entry<T>)
    requires
        distinct_keys(entries),
        absent(entries, e.key@),
    ensures
        distinct_keys(entries.push(e)),
        model(entries.push(e)) == model(entries).insert(e.key@, e.value),
{
    let after = entries.push(e);
    let a = model(after);
    let b = model(entries).insert(e.key@, e.value);
    let n = entries.len() as int;
    assert(key_at(after, e.key@, n));
    assert forall|k: Seq<char>| a.contains_key(k) <==> b.contains_key(k) by {
        if a.contains_key(k) {
            let j = choose|j: int| key_at(after, k, j);
            if j < n {
                assert(key_at(entries, k, j));
            }
        }
        if b.contains_key(k) && k != e.key@ {
            let j = choose|j: int| key_at(entries, k, j);
            assert(key_at(after, k, j));
        }
    }
    assert forall|k: Seq<char>| a.contains_key(k) implies #[trigger] a[k] == b[k] by {
        let j = choose|j: int| key_at(after, k, j);
        if k != e.key@ {
            let j2 = choose|j2: int| key_at(entries, k, j2);
            assert(key_at(entries, k, j));
            assert(j == j2);
        } else {
            assert(j == n);
        }
    }
    assert(a =~= b);
}

proof fn lemma_model_remove<T>(entries: Seq<Entry<T>>, i: int)
    requires
        distinct_keys(entries),
        0 <= i < entries.len(),
    ensures
        distinct_keys(entries.remove(i)),
        model(entries.remove(i)) == model(entries).remove(entries[i].key@),
{
    let after = entries.remove(i);
    let gone = entries[i].key@;
    let a = model(after);
    let b = model(entries).remove(gone);
    assert forall|p: int, q: int|
        0 <= p < after.len() && 0 <= q < after.len() && p != q implies after[p].key@
        != after[q].key@ by {
        let p0 = if p < i { p } else { p + 1 };
        let q0 = if q < i { q } else { q + 1 };
        assert(after[p] == entries[p0] && after[q] == entries[q0]);
    }
    assert forall|k: Seq<char>| a.contains_key(k) <==> b.contains_key(k) by {
        if a.contains_key(k) {
            let j = choose|j: int| key_at(after, k, j);
            let j0 = if j < i { j } else { j + 1 };
            assert(key_at(entries, k, j0));
        }
        if b.contains_key(k) {
            let j = choose|j: int| key_at(entries, k, j);
            let j1 = if j < i { j } else { j - 1 };
            assert(key_at(after, k, j1));
        }
    }
    assert forall|k: Seq<char>| a.contains_key(k) implies #[trigger] a[k] == b[k] by {
        let j = choose|j: int| key_at(after, k, j);
        let j0 = if j < i { j } else { j + 1 };
        let j2 = choose|j2: int| key_at(entries, k, j2);
        assert(key_at(entries, k, j0));
        assert(j0 == j2);
    }
    assert(a =~= b);
}

proof fn lemma_model_len<T>(entries: Seq<Entry<T>>)
    requires
        distinct_keys(entries),
    ensures
        model(entries).dom().finite(),
        model(entries).dom().len() == entries.len(),
    decreases entries.len(),
{
    if entries.len() == 0 {
        assert(model(entries).dom() =~= Set::<Seq<char>>::empty());
    } else {
        let front = entries.drop_last();
        let last = entries.last();
        assert(entries =~= front.push(last));
        assert(distinct_keys(front));
        assert(absent(front, last.key@));
        lemma_model_len(front);
        lemma_model_push(front, last);
        lemma_model_absent(front, last.key@);
    }
}

/// A place to write the value of entry `i`, leaving its key as it is.
fn value_slot<T>(entries: &mut Vec<Entry<T>>, i: usize) -> (slot: &mut T)
    requires
        i < old(entries)@.len(),
    ensures
        *slot == old(entries)@[i as int].value,
        final(entries)@ == old(entries)@.update(
            i as int,
            Entry { key: old(entries)@[i as int].key, value: *final(slot) },
        ),
    no_unwind
{
    &mut entries[i].value
}

impl<T> Registry<T> {
    #[verifier::type_invariant]
    spec fn keys_are_distinct(self) -> bool {
        distinct_keys(self.entries@)
    }

    /// The registry as a map from identifier to entity.
    pub closed spec fn view(self) -> Map<Seq<char>, T> {
        model(self.entries@)
    }

    /// An empty registry.
    pub fn new() -> (r: Self)
        ensures
            r@ == Map::<Seq<char>, T>::empty(),
    {
        let r = Registry { entries: Vec::new() };
        assert(r@ =~= Map::<Seq<char>, T>::empty());
        r
    }

    /// Number of entries, which is the number of distinct identifiers.
    pub fn len(&self) -> (n: usize)
        ensures
            self@.dom().finite(),
            n == self@.len(),
    {
        proof {
            use_type_invariant(self);
            lemma_model_len(self.entries@);
        }
        self.entries.len()
    }

    fn position(&self, key: &String) -> (r: Option<usize>)
        ensures
            match r {
                Some(i) => key_at(self.entries@, key@, i as int),
                None => absent(self.entries@, key@),
            },
    {
        let mut i: usize = 0;
        while i < self.entries.len()
            invariant
                i <= self.entries.len(),
                forall|j: int| 0 <= j < i ==> self.entries@[j].key@ != key@,
            decreases self.entries.len() - i,
        {
            if self.entries[i].key == *key {
                return Some(i);
            }
            i += 1;
        }
        None
    }

    /// Whether an entity is stored under `key`.
    pub fn contains_key(&self, key: &String) -> (r: bool)
        ensures
            r == self@.contains_key(key@),
    {
        proof {
            lemma_model_absent(self.entries@, key@);
        }
        match self.position(key) {
            Some(i) => {
                assert(key_at(self.entries@, key@, i as int));
                true
            },
            None => false,
        }
    }

    /// The entity stored under `key`, if any.
    pub fn get(&self, key: &String) -> (r: Option<&T>)
        ensures
            match r {
                Some(v) => self@.contains_key(key@) && *v == self@[key@],
                None => !self@.contains_key(key@),
            },
    {
        proof {
            use_type_invariant(self);
            lemma_model_absent(self.entries@, key@);
        }
        match self.position(key) {
            Some(i) => {
                proof {
                    lemma_model_lookup(self.entries@, i as int);
                }
                Some(&self.entries[i].value)
            },
            None => None,
        }
    }

    /// The entity stored under `key`, to be changed in place. Whatever is
    /// written through the reference is what the registry then holds under
    /// `key`; no other entry is touched.
    pub fn get_mut(&mut self, key: &String) -> (r: Option<&mut T>)
        ensures
            match r {
                Some(v) => old(self)@.contains_key(key@) && *v == old(self)@[key@]
                    && final(self)@ == old(self)@.insert(key@, *final(v)),
                None => !old(self)@.contains_key(key@) && final(self)@ == old(self)@,
            },
    {
        proof {
            use_type_invariant(&*self);
            lemma_model_absent(self.entries@, key@);
        }
        match self.position(key) {
            Some(i) => {
                proof {
                    let entries = self.entries@;
                    lemma_model_lookup(entries, i as int);
                    assert forall|v: T|
                        distinct_keys(
                            #[trigger] entries.update(
                                i as int,
                                Entry { key: entries[i as int].key, value: v },
                            ),
                        ) && model(
                            entries.update(i as int, Entry { key: entries[i as int].key, value: v }),
                        ) == model(entries).insert(key@, v) by {
                        lemma_model_update(
                            entries,
                            i as int,
                            Entry { key: entries[i as int].key, value: v },
                        );
                    }
                }
                Some(value_slot(&mut self.entries, i))
            },
            None => None,
        }
    }

    /// Insert-or-replace: stores `value` under `key` and hands back the value
    /// that was stored there before, if there was one.
    pub fn insert(&mut self, key: String, value: T) -> (previous: Option<T>)
        ensures
            final(self)@ == old(self)@.insert(key@, value),
            previous == if old(self)@.contains_key(key@) {
                Some(old(self)@[key@])
            } else {
                None
            },
    {
        proof {
            use_type_invariant(&*self);
            lemma_model_absent(self.entries@, key@);
        }
        match self.position(&key) {
            Some(i) => {
                proof {
                    let entries = self.entries@;
                    lemma_model_lookup(entries, i as int);
                    lemma_model_update(
                        entries,
                        i as int,
                        Entry { key: entries[i as int].key, value },
                    );
                }
                let mut held = value;
                core::mem::swap(value_slot(&mut self.entries, i), &mut held);
                Some(held)
            },
            None => {
                proof {
                    lemma_model_push(self.entries@, Entry { key, value });
                }
                let mut entries = Vec::new();
                core::mem::swap(&mut entries, &mut self.entries);
                entries.push(Entry { key, value });
                self.entries = entries;
                None
            },
        }
    }

    /// Removes the entry stored under `key` and hands back its value; a
    /// registry without such an entry is left as it is.
    pub fn remove(&mut self, key: &String) -> (removed: Option<T>)
        ensures
            final(self)@ == old(self)@.remove(key@),
            removed == if old(self)@.contains_key(key@) {
                Some(old(self)@[key@])
            } else {
                None
            },
    {
        proof {
            use_type_invariant(&*self);
            lemma_model_absent(self.entries@, key@);
        }
        match self.position(key) {
            Some(i) => {
                proof {
                    lemma_model_lookup(self.entries@, i as int);
                    lemma_model_remove(self.entries@, i as int);
                }
                let mut entries = Vec::new();
                core::mem::swap(&mut entries, &mut self.entries);
                let entry = entries.remove(i);
                self.entries = entries;
                Some(entry.value)
            },
            None => {
                assert(self@ =~= self@.remove(key@));
                None
            },
        }
    }

    /// The identifiers in use, each once.
    pub fn keys(&self) -> (ids: Vec<String>)
        ensures
            ids@.len() == self@.len(),
            forall|i: int| 0 <= i < ids@.len() ==> self@.contains_key(#[trigger] ids@[i]@),
            forall|k: Seq<char>|
                self@.contains_key(k) ==> exists|i: int|
                    0 <= i < ids@.len() && #[trigger] ids@[i]@ == k,
            forall|i: int, j: int| 0 <= i < j < ids@.len() ==> ids@[i]@ != ids@[j]@,
    {
        proof {
            use_type_invariant(self);
            lemma_model_len(self.entries@);
        }
        let mut ids: Vec<String> = Vec::new();
        let mut i: usize = 0;
        while i < self.entries.len()
            invariant
                i <= self.entries.len(),
                ids@.len() == i,
                forall|j: int| 0 <= j < i ==> #[trigger] ids@[j]@ == self.entries@[j].key@,
            decreases self.entries.len() - i,
        {
            ids.push(self.entries[i].key.clone());
            i += 1;
        }
        proof {
            assert forall|j: int| 0 <= j < ids@.len() implies self@.contains_key(
                #[trigger] ids@[j]@,
            ) by {
                assert(key_at(self.entries@, ids@[j]@, j));
            }
            assert forall|k: Seq<char>| self@.contains_key(k) implies exists|j: int|
                0 <= j < ids@.len() && #[trigger] ids@[j]@ == k by {
                let j = choose|j: int| key_at(self.entries@, k, j);
                assert(ids@[j]@ == k);
            }
        }
        ids
    }
}

impl<T: Clone> Clone for Registry<T> {
    /// A registry with the same identifiers, each holding a clone of its value.
    fn clone(&self) -> (copy: Self)
        ensures
            copy@.dom() == self@.dom(),
            forall|k: Seq<char>|
                self@.contains_key(k) ==> cloned::<T>(#[trigger] self@[k], copy@[k]),
    {
        proof {
            use_type_invariant(self);
        }
        let mut entries: Vec<Entry<T>> = Vec::new();
        let mut i: usize = 0;
        while i < self.entries.len()
            invariant
                i <= self.entries.len(),
                entries@.len() == i,
                forall|j: int|
                    0 <= j < i ==> (#[trigger] entries@[j]).key@ == self.entries@[j].key@
                        && cloned::<T>(self.entries@[j].value, entries@[j].value),
            decreases self.entries.len() - i,
        {
            let entry = &self.entries[i];
            entries.push(Entry { key: entry.key.clone(), value: entry.value.clone() });
            i += 1;
        }
        proof {
            assert(distinct_keys(entries@));
            assert forall|k: Seq<char>| model(entries@).contains_key(k) <==> model(
                self.entries@,
            ).contains_key(k) by {
                if model(entries@).contains_key(k) {
                    let j = choose|j: int| key_at(entries@, k, j);
                    assert(key_at(self.entries@, k, j));
                }
                if model(self.entries@).contains_key(k) {
                    let j = choose|j: int| key_at(self.entries@, k, j);
                    assert(key_at(entries@, k, j));
                }
            }
            assert(model(entries@).dom() =~= model(self.entries@).dom());
            assert forall|k: Seq<char>| model(self.entries@).contains_key(k) implies cloned::<T>(
                #[trigger] model(self.entries@)[k],
                model(entries@)[k],
            ) by {
                let j = choose|j: int| key_at(self.entries@, k, j);
                assert(key_at(entries@, k, j));
                lemma_model_lookup(self.entries@, j);
                lemma_model_lookup(entries@, j);
            }
        }
        Registry { entries }
    }
}

} // verus!
