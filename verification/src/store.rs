use vstd::prelude::*;

use crate::text::same_text;

verus! {

/// Evidence objects held by the executor, keyed by evidence identifier.
/// Each identifier occurs at most once.
pub struct EvidenceStore {
    entries: Vec<(String, Vec<u8>)>,
}

/// Does some entry of `entries` carry the identifier `k`?
pub open spec fn has_key(entries: Seq<(String, Vec<u8>)>, k: Seq<char>) -> bool {
    exists|i: int| 0 <= i < entries.len() && (#[trigger] entries[i]).0@ == k
}

impl EvidenceStore {
    #[verifier::type_invariant]
    spec fn keys_distinct(self) -> bool {
        forall|i: int, j: int|
            0 <= i < self.entries@.len() && 0 <= j < self.entries@.len() && i != j
                ==> (#[trigger] self.entries@[i]).0@ != (#[trigger] self.entries@[j]).0@
    }

    spec fn index_of(self, k: Seq<char>) -> int {
        choose|i: int| 0 <= i < self.entries@.len() && (#[trigger] self.entries@[i]).0@ == k
    }

    /// The held evidence: identifier to bytes.
    pub closed spec fn view(self) -> Map<Seq<char>, Seq<u8>> {
        Map::new(
            |k: Seq<char>| has_key(self.entries@, k),
            |k: Seq<char>| self.entries@[self.index_of(k)].1@,
        )
    }

    proof fn lemma_entry_in_view(self, i: int)
        requires
            self.keys_distinct(),
            0 <= i < self.entries@.len(),
        ensures
            self.view().contains_key(self.entries@[i].0@),
            self.view()[self.entries@[i].0@] == self.entries@[i].1@,
            self.index_of(self.entries@[i].0@) == i,
    {
        let k = self.entries@[i].0@;
        assert(has_key(self.entries@, k));
    }

    /// An empty store.
    pub fn new() -> (s: Self)
        ensures
            s.view() == Map::<Seq<char>, Seq<u8>>::empty(),
    {
        let s = EvidenceStore { entries: Vec::new() };
        assert(s.view() =~= Map::<Seq<char>, Seq<u8>>::empty());
        s
    }

    /// The position of the entry for `key`, if any.
    fn find(&self, key: &str) -> (r: Option<usize>)
        ensures
            match r {
                Some(i) => i < self.entries@.len() && self.entries@[i as int].0@ == key@,
                None => !has_key(self.entries@, key@),
            },
    {
        let mut i: usize = 0;
        while i < self.entries.len()
            invariant
                i <= self.entries@.len(),
                forall|j: int| 0 <= j < i ==> (#[trigger] self.entries@[j]).0@ != key@,
            decreases self.entries@.len() - i,
        {
            if same_text(self.entries[i].0.as_str(), key) {
                return Some(i);
            }
            i = i + 1;
        }
        None
    }

    /// Is evidence held under `key`?
    pub fn contains_key(&self, key: &str) -> (r: bool)
        ensures
            r == self.view().contains_key(key@),
    {
        match self.find(key) {
            Some(i) => true,
            None => false,
        }
    }

    /// The evidence held under `key`, if any.
    pub fn get(&self, key: &str) -> (r: Option<&[u8]>)
        ensures
            match r {
                Some(bytes) => self.view().contains_key(key@) && bytes@ == self.view()[key@],
                None => !self.view().contains_key(key@),
            },
    {
        proof {
            use_type_invariant(self);
        }
        match self.find(key) {
            Some(i) => {
                proof {
                    self.lemma_entry_in_view(i as int);
                }
                Some(self.entries[i].1.as_slice())
            },
            None => None,
        }
    }

    /// Holds `value` under `key`, replacing what was held there.
    pub fn insert(&mut self, key: String, value: Vec<u8>)
        ensures
            final(self).view() == old(self).view().insert(key@, value@),
    {
        proof {
            use_type_invariant(&*self);
        }
        let ghost old_entries = self.entries@;
        let ghost k = key@;
        let ghost v = value@;
        let found = self.find(key.as_str());
        let mut entries: Vec<(String, Vec<u8>)> = Vec::new();
        std::mem::swap(&mut entries, &mut self.entries);
        match found {
            Some(i) => {
                entries.set(i, (key, value));
                proof {
                    assert forall|x: Seq<char>| #[trigger] has_key(entries@, x)
                        == (has_key(old_entries, x) || x == k) by {
                        if has_key(old_entries, x) {
                            let j = choose|j: int| 0 <= j < old_entries.len() && (#[trigger] old_entries[j]).0@ == x;
                            if j != i {
                                assert(entries@[j] == old_entries[j]);
                            }
                        }
                        if has_key(entries@, x) {
                            let j = choose|j: int| 0 <= j < entries@.len() && (#[trigger] entries@[j]).0@ == x;
                            if j != i {
                                assert(old_entries[j] == entries@[j]);
                            }
                        }
                        if x == k {
                            assert(entries@[i as int].0@ == k);
                        }
                    }
                }
            },
            None => {
                entries.push((key, value));
                proof {
                    assert forall|x: Seq<char>| #[trigger] has_key(entries@, x)
                        == (has_key(old_entries, x) || x == k) by {
                        if has_key(old_entries, x) {
                            let j = choose|j: int| 0 <= j < old_entries.len() && (#[trigger] old_entries[j]).0@ == x;
                            assert(entries@[j] == old_entries[j]);
                        }
                        if has_key(entries@, x) {
                            let j = choose|j: int| 0 <= j < entries@.len() && (#[trigger] entries@[j]).0@ == x;
                            if j < old_entries.len() {
                                assert(old_entries[j] == entries@[j]);
                            }
                        }
                        if x == k {
                            assert(entries@[old_entries.len() as int].0@ == k);
                        }
                    }
                }
            },
        }
        self.entries = entries;
        proof {
            use_type_invariant(&*self);
            let new_view = self.view();
            let expected = old(self).view().insert(k, v);
            assert forall|x: Seq<char>| #[trigger] new_view.contains_key(x) implies new_view[x]
                == expected[x] by {
                let j = self.index_of(x);
                self.lemma_entry_in_view(j);
                if x != k {
                    let oi = choose|oi: int| 0 <= oi < old_entries.len() && (#[trigger] old_entries[oi]).0@ == x;
                    old(self).lemma_entry_in_view(oi);
                    assert(self.entries@[oi] == old_entries[oi]);
                    self.lemma_entry_in_view(oi);
                } else {
                }
            }
            assert(new_view =~= expected);
        }
    }

    /// Takes the evidence held under `key` out of the store.
    pub fn remove(&mut self, key: &str) -> (r: Option<Vec<u8>>)
        ensures
            final(self).view() == old(self).view().remove(key@),
            match r {
                Some(bytes) => old(self).view().contains_key(key@) && bytes@ == old(self).view()[key@],
                None => !old(self).view().contains_key(key@),
            },
    {
        proof {
            use_type_invariant(&*self);
        }
        let ghost old_entries = self.entries@;
        let ghost k = key@;
        match self.find(key) {
            None => {
                proof {
                    assert(self.view() =~= old(self).view().remove(k));
                }
                None
            },
            Some(i) => {
                proof {
                    self.lemma_entry_in_view(i as int);
                }
                let mut entries: Vec<(String, Vec<u8>)> = Vec::new();
                std::mem::swap(&mut entries, &mut self.entries);
                let (_removed_key, removed) = entries.remove(i);
                proof {
                    assert(entries@ =~= old_entries.remove(i as int));
                    assert forall|x: Seq<char>| #[trigger] has_key(entries@, x)
                        == (has_key(old_entries, x) && x != k) by {
                        if has_key(old_entries, x) && x != k {
                            let j = choose|j: int| 0 <= j < old_entries.len() && (#[trigger] old_entries[j]).0@ == x;
                            if j < i {
                                assert(entries@[j] == old_entries[j]);
                            } else {
                                assert(entries@[j - 1] == old_entries[j]);
                            }
                        }
                        if has_key(entries@, x) {
                            let j = choose|j: int| 0 <= j < entries@.len() && (#[trigger] entries@[j]).0@ == x;
                            if j < i {
                                assert(entries@[j] == old_entries[j]);
                            } else {
                                assert(entries@[j] == old_entries[j + 1]);
                            }
                        }
                    }
                }
                self.entries = entries;
                proof {
                    use_type_invariant(&*self);
                    let new_view = self.view();
                    let expected = old(self).view().remove(k);
                    assert forall|x: Seq<char>| #[trigger] new_view.contains_key(x) implies new_view[x]
                        == expected[x] by {
                        let j = self.index_of(x);
                        self.lemma_entry_in_view(j);
                        if j < i {
                            assert(self.entries@[j] == old_entries[j]);
                            old(self).lemma_entry_in_view(j);
                        } else {
                            assert(self.entries@[j] == old_entries[j + 1]);
                            old(self).lemma_entry_in_view(j + 1);
                        }
                    }
                    assert(new_view =~= expected);
                }
                Some(removed)
            },
        }
    }
}

/// Permit identifiers that have already executed a deletion.
/// Each identifier occurs at most once.
pub struct PermitLedger {
    permits: Vec<String>,
}

impl PermitLedger {
    #[verifier::type_invariant]
    spec fn permits_distinct(self) -> bool {
        forall|i: int, j: int|
            0 <= i < self.permits@.len() && 0 <= j < self.permits@.len() && i != j
                ==> (#[trigger] self.permits@[i])@ != (#[trigger] self.permits@[j])@
    }

    /// The spent permit identifiers.
    pub closed spec fn view(self) -> Set<Seq<char>> {
        Set::new(|k: Seq<char>| exists|i: int| 0 <= i < self.permits@.len() && (#[trigger] self.permits@[i])@ == k)
    }

    /// A ledger with no spent permit.
    pub fn new() -> (s: Self)
        ensures
            s.view() == Set::<Seq<char>>::empty(),
    {
        let s = PermitLedger { permits: Vec::new() };
        assert(s.view() =~= Set::<Seq<char>>::empty());
        s
    }

    /// Has `permit_id` been spent?
    pub fn contains(&self, permit_id: &str) -> (r: bool)
        ensures
            r == self.view().contains(permit_id@),
    {
        let mut i: usize = 0;
        while i < self.permits.len()
            invariant
                i <= self.permits@.len(),
                forall|j: int| 0 <= j < i ==> (#[trigger] self.permits@[j])@ != permit_id@,
            decreases self.permits@.len() - i,
        {
            if same_text(self.permits[i].as_str(), permit_id) {
                assert(self.view().contains(permit_id@));
                return true;
            }
            i = i + 1;
        }
        false
    }

    /// Records `permit_id` as spent.
    pub fn insert(&mut self, permit_id: String)
        ensures
            final(self).view() == old(self).view().insert(permit_id@),
    {
        proof {
            use_type_invariant(&*self);
        }
        if !self.contains(permit_id.as_str()) {
            let ghost old_permits = self.permits@;
            let mut permits: Vec<String> = Vec::new();
            std::mem::swap(&mut permits, &mut self.permits);
            permits.push(permit_id);
            proof {
                assert forall|i: int, j: int|
                    0 <= i < permits@.len() && 0 <= j < permits@.len() && i != j
                        implies (#[trigger] permits@[i])@ != (#[trigger] permits@[j])@ by {
                    if i < old_permits.len() && j < old_permits.len() {
                        assert(permits@[i] == old_permits[i]);
                        assert(permits@[j] == old_permits[j]);
                    } else if i < old_permits.len() {
                        assert(permits@[i] == old_permits[i]);
                    } else if j < old_permits.len() {
                        assert(permits@[j] == old_permits[j]);
                    }
                }
            }
            self.permits = permits;
            proof {
                assert forall|k: Seq<char>| #[trigger] self.view().contains(k) == old(self).view().insert(permit_id@).contains(k) by {
                    if old(self).view().contains(k) {
                        let j = choose|j: int| 0 <= j < old_permits.len() && (#[trigger] old_permits[j])@ == k;
                        assert(self.permits@[j] == old_permits[j]);
                    }
                    if self.view().contains(k) {
                        let j = choose|j: int| 0 <= j < self.permits@.len() && (#[trigger] self.permits@[j])@ == k;
                        if j < old_permits.len() {
                            assert(self.permits@[j] == old_permits[j]);
                        }
                    }
                    if k == permit_id@ {
                        assert(self.permits@[old_permits.len() as int]@ == k);
                    }
                }
                assert(self.view() =~= old(self).view().insert(permit_id@));
            }
        } else {
            assert(self.view() =~= old(self).view().insert(permit_id@));
        }
    }
}

} // verus!
