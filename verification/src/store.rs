use vstd::prelude::*;

verus! {

/// An association list from string keys to values with unique keys.
/// It backs the swap-order book and the cross-chain message log, and
/// is abstracted as a `Map` from key views to value views.
pub struct StrMap<V> {
    entries: Vec<(String, V)>,
}

impl<V: View> StrMap<V> {
    /// The values in storage order, abstracted.
    pub closed spec fn vals(self) -> Seq<V::V> {
        self.entries@.map_values(|e: (String, V)| e.1@)
    }

    /// Keys are pairwise distinct.
    pub closed spec fn wf(self) -> bool {
        Self::unique_keys(self.entries@)
    }

    spec fn unique_keys(s: Seq<(String, V)>) -> bool {
        forall|i: int, j: int| 0 <= i < j < s.len() ==> s[i].0@ != s[j].0@
    }

    spec fn as_map_of(s: Seq<(String, V)>) -> Map<Seq<char>, V::V>
        decreases s.len(),
    {
        if s.len() == 0 {
            Map::empty()
        } else {
            Self::as_map_of(s.drop_last()).insert(s.last().0@, s.last().1@)
        }
    }

    proof fn lemma_absent(s: Seq<(String, V)>, k: Seq<char>)
        requires
            forall|i: int| 0 <= i < s.len() ==> s[i].0@ != k,
        ensures
            !Self::as_map_of(s).contains_key(k),
        decreases s.len(),
    {
        if s.len() > 0 {
            Self::lemma_absent(s.drop_last(), k);
        }
    }

    proof fn lemma_present(s: Seq<(String, V)>, i: int)
        requires
            Self::unique_keys(s),
            0 <= i < s.len(),
        ensures
            Self::as_map_of(s).contains_key(s[i].0@),
            Self::as_map_of(s)[s[i].0@] == s[i].1@,
        decreases s.len(),
    {
        if i < s.len() - 1 {
            Self::lemma_present(s.drop_last(), i);
        }
    }

    proof fn lemma_update(s: Seq<(String, V)>, i: int, p: (String, V))
        requires
            Self::unique_keys(s),
            0 <= i < s.len(),
            s[i].0@ == p.0@,
        ensures
            Self::as_map_of(s.update(i, p)) =~= Self::as_map_of(s).insert(p.0@, p.1@),
        decreases s.len(),
    {
        let t = s.update(i, p);
        if i == s.len() - 1 {
            assert(t.drop_last() =~= s.drop_last());
        } else {
            assert(t.drop_last() =~= s.drop_last().update(i, p));
            Self::lemma_update(s.drop_last(), i, p);
            assert(s.drop_last()[i].0@ == p.0@);
            assert(t.last() == s.last());
            assert(s.last().0@ != p.0@);
            assert(Self::as_map_of(t) =~= Self::as_map_of(s).insert(p.0@, p.1@));
        }
    }

    proof fn lemma_contains(s: Seq<(String, V)>, k: Seq<char>)
        requires
            Self::as_map_of(s).contains_key(k),
        ensures
            exists|i: int| 0 <= i < s.len() && s[i].0@ == k,
        decreases s.len(),
    {
        if s.len() > 0 && s.last().0@ != k {
            Self::lemma_contains(s.drop_last(), k);
            let i = choose|i: int| 0 <= i < s.drop_last().len() && s.drop_last()[i].0@ == k;
            assert(s[i].0@ == k);
        }
    }

    /// The value at a storage position is a value of the map.
    pub proof fn lemma_val_is_mapped(&self, i: int)
        requires
            self.wf(),
            0 <= i < self.vals().len(),
        ensures
            exists|k: Seq<char>| #![auto] self@.contains_key(k) && self@[k] == self.vals()[i],
    {
        Self::lemma_present(self.entries@, i);
        assert(self@.contains_key(self.entries@[i].0@) && self@[self.entries@[i].0@]
            == self.vals()[i]);
    }

    /// Every value of the map is stored at some position.
    pub proof fn lemma_mapped_is_stored(&self, k: Seq<char>)
        requires
            self.wf(),
            self@.contains_key(k),
        ensures
            self.vals().contains(self@[k]),
    {
        Self::lemma_contains(self.entries@, k);
        let i = choose|i: int| 0 <= i < self.entries@.len() && self.entries@[i].0@ == k;
        Self::lemma_present(self.entries@, i);
        assert(self.vals()[i] == self@[k]);
    }

    /// An empty store.
    pub fn new() -> (r: Self)
        ensures
            r@ == Map::<Seq<char>, V::V>::empty(),
            r.wf(),
            r.vals() == Seq::<V::V>::empty(),
    {
        let r = StrMap { entries: Vec::new() };
        proof {
            assert(r.vals() =~= Seq::<V::V>::empty());
        }
        r
    }

    /// The number of stored entries.
    pub fn len(&self) -> (r: usize)
        ensures
            r == self.vals().len(),
    {
        self.entries.len()
    }

    /// The value at a storage position.
    pub fn value_at(&self, i: usize) -> (r: &V)
        requires
            i < self.vals().len(),
        ensures
            r@ == self.vals()[i as int],
    {
        &self.entries[i].1
    }

    /// Looks a key up.
    pub fn get(&self, key: &String) -> (r: Option<&V>)
        requires
            self.wf(),
        ensures
            match r {
                Some(v) => self@.contains_key(key@) && v@ == self@[key@],
                None => !self@.contains_key(key@),
            },
    {
        let n: usize = self.entries.len();
        let mut i: usize = 0;
        while i < n
            invariant
                self.wf(),
                n == self.entries@.len(),
                0 <= i <= n,
                forall|j: int| 0 <= j < i ==> self.entries@[j].0@ != key@,
            decreases n - i,
        {
            if self.entries[i].0.eq(key) {
                proof {
                    Self::lemma_present(self.entries@, i as int);
                }
                return Some(&self.entries[i].1);
            }
            i = i + 1;
        }
        proof {
            Self::lemma_absent(self.entries@, key@);
        }
        None
    }

    /// Inserts a value under a key, replacing any entry the key had.
    pub fn upsert(&mut self, key: String, value: V)
        requires
            old(self).wf(),
        ensures
            final(self).wf(),
            final(self)@ =~= old(self)@.insert(key@, value@),
            final(self).vals().len() <= old(self).vals().len() + 1,
            forall|i: int|
                0 <= i < final(self).vals().len() ==> (final(self).vals()[i] == value@
                    || old(self).vals().contains(final(self).vals()[i])),
            forall|i: int|
                0 <= i < old(self).vals().len() ==> (old(self).vals()[i] == old(self)@[key@]
                    || final(self).vals().contains(old(self).vals()[i])),
    {
        let n: usize = self.entries.len();
        let mut i: usize = 0;
        while i < n
            invariant
                self.wf(),
                *self == *old(self),
                n == self.entries@.len(),
                0 <= i <= n,
                forall|j: int| 0 <= j < i ==> self.entries@[j].0@ != key@,
            decreases n - i,
        {
            if self.entries[i].0.eq(&key) {
                proof {
                    Self::lemma_present(self.entries@, i as int);
                    Self::lemma_update(self.entries@, i as int, (key, value));
                }
                let ghost prev = self.entries@;
                self.entries[i] = (key, value);
                proof {
                    assert(self.vals() =~= prev.map_values(|e: (String, V)| e.1@).update(
                        i as int,
                        value@,
                    ));
                    assert forall|j: int|
                        0 <= j < old(self).vals().len() implies (old(self).vals()[j] == old(
                        self,
                    )@[key@] || self.vals().contains(old(self).vals()[j])) by {
                        if j != i {
                            assert(self.vals()[j] == old(self).vals()[j]);
                        }
                    }
                }
                return ;
            }
            i = i + 1;
        }
        proof {
            Self::lemma_absent(self.entries@, key@);
        }
        let ghost prev = self.entries@;
        self.entries.push((key, value));
        proof {
            assert(prev.push((key, value)).drop_last() =~= prev);
            assert(self@ =~= old(self)@.insert(key@, value@));
            assert(self.vals() =~= prev.map_values(|e: (String, V)| e.1@).push(value@));
            assert forall|j: int|
                0 <= j < old(self).vals().len() implies (old(self).vals()[j] == old(self)@[key@]
                || self.vals().contains(old(self).vals()[j])) by {
                assert(self.vals()[j] == old(self).vals()[j]);
            }
        }
    }
}

impl<V: View> View for StrMap<V> {
    type V = Map<Seq<char>, V::V>;

    closed spec fn view(&self) -> Map<Seq<char>, V::V> {
        Self::as_map_of(self.entries@)
    }
}

} // verus!
