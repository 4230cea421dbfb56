use vstd::prelude::*;

verus! {

/// No two entries share a name.
pub open spec fn names_unique(s: Seq<(String, String)>) -> bool {
    forall|i: int, j: int| 0 <= i < j < s.len() ==> s[i].0@ != s[j].0@
}

/// Some entry carries the name `k`.
pub open spec fn has_name(s: Seq<(String, String)>, k: Seq<char>) -> bool {
    exists|i: int| 0 <= i < s.len() && s[i].0@ == k
}

/// The position of an entry named `k`.
pub open spec fn position_of(s: Seq<(String, String)>, k: Seq<char>) -> int {
    choose|i: int| 0 <= i < s.len() && s[i].0@ == k
}

/// The mapping from name to value that a list of entries stands for.
pub open spec fn entries_map(s: Seq<(String, String)>) -> Map<Seq<char>, Seq<char>> {
    Map::new(|k: Seq<char>| has_name(s, k), |k: Seq<char>| s[position_of(s, k)].1@)
}

proof fn lemma_entry_in_map(s: Seq<(String, String)>, i: int)
    requires
        names_unique(s),
        0 <= i < s.len(),
    ensures
        entries_map(s).contains_key(s[i].0@),
        entries_map(s)[s[i].0@] == s[i].1@,
{
    let k = s[i].0@;
    assert(has_name(s, k));
    let j = position_of(s, k);
    if j != i {
        if j < i {
            assert(s[j].0@ != s[i].0@);
        } else {
            assert(s[i].0@ != s[j].0@);
        }
    }
}

/// A set of header fields: a mapping from name to value with unique names.
/// Two sets of headers are equal when they map the same names to the same
/// values, whatever the order in which they were inserted.
#[derive(Debug)]
pub struct Headers {
    entries: Vec<(String, String)>,
}

impl View for Headers {
    type V = Map<Seq<char>, Seq<char>>;

    closed spec fn view(&self) -> Map<Seq<char>, Seq<char>> {
        entries_map(self.entries@)
    }
}

impl Headers {
    #[verifier::type_invariant]
    spec fn inv(&self) -> bool {
        names_unique(self.entries@)
    }

    /// An empty set of headers.
    pub fn new() -> (r: Self)
        ensures
            r@ == Map::<Seq<char>, Seq<char>>::empty(),
    {
        let r = Headers { entries: Vec::new() };
        assert(r@ =~= Map::<Seq<char>, Seq<char>>::empty());
        r
    }

    /// The number of distinct names.
    pub fn len(&self) -> (r: usize)
        ensures
            r == self@.len(),
    {
        proof {
            use_type_invariant(self);
            self.lemma_len();
        }
        self.entries.len()
    }

    /// Whether no header is set.
    pub fn is_empty(&self) -> (r: bool)
        ensures
            r == (self@ == Map::<Seq<char>, Seq<char>>::empty()),
    {
        proof {
            use_type_invariant(self);
            self.lemma_len();
            if self.entries@.len() > 0 {
                lemma_entry_in_map(self.entries@, 0);
            } else {
                assert(self@ =~= Map::<Seq<char>, Seq<char>>::empty());
            }
        }
        self.entries.len() == 0
    }

    /// The value stored under `key`, if any.
    pub fn get(&self, key: &str) -> (r: Option<&String>)
        ensures
            r is Some <==> self@.contains_key(key@),
            r matches Some(v) ==> v@ == self@[key@],
    {
        proof {
            use_type_invariant(self);
        }
        let wanted = key.to_owned();
        let mut i: usize = 0;
        while i < self.entries.len()
            invariant
                0 <= i <= self.entries@.len(),
                names_unique(self.entries@),
                wanted@ == key@,
                forall|j: int| 0 <= j < i ==> self.entries@[j].0@ != key@,
            decreases self.entries@.len() - i,
        {
            if self.entries[i].0.eq(&wanted) {
                proof {
                    lemma_entry_in_map(self.entries@, i as int);
                }
                return Some(&self.entries[i].1);
            }
            i = i + 1;
        }
        None
    }

    /// The same headers with `value` stored under `key`, replacing any earlier
    /// value of that name.
    pub fn insert(self, key: String, value: String) -> (r: Self)
        ensures
            r@ == self@.insert(key@, value@),
    {
        proof {
            use_type_invariant(&self);
        }
        let Headers { mut entries } = self;
        let ghost old_entries = entries@;
        let ghost k = key@;
        let ghost v = value@;
        let mut i: usize = 0;
        while i < entries.len()
            invariant
                0 <= i <= entries@.len(),
                entries@ == old_entries,
                names_unique(old_entries),
                key@ == k,
                value@ == v,
                self@ == entries_map(old_entries),
                forall|j: int| 0 <= j < i ==> entries@[j].0@ != k,
            decreases entries@.len() - i,
        {
            if entries[i].0.eq(&key) {
                entries.set(i, (key, value));
                proof {
                    let s = entries@;
                    assert(names_unique(s)) by {
                        assert forall|a: int, b: int| 0 <= a < b < s.len() implies s[a].0@
                            != s[b].0@ by {
                            assert(old_entries[a].0@ != old_entries[b].0@);
                        }
                    }
                }
                let r = Headers { entries };
                proof {
                    r.lemma_update_view(old_entries, i as int, k, v);
                }
                return r;
            }
            i = i + 1;
        }
        entries.push((key, value));
        proof {
            let s = entries@;
            assert(names_unique(s)) by {
                assert forall|a: int, b: int| 0 <= a < b < s.len() implies s[a].0@ != s[b].0@ by {
                    if b < old_entries.len() {
                        assert(old_entries[a].0@ != old_entries[b].0@);
                    }
                }
            }
        }
        let r = Headers { entries };
        proof {
            r.lemma_push_view(old_entries, k, v);
        }
        r
    }

    proof fn lemma_len(&self)
        requires
            names_unique(self.entries@),
        ensures
            self@.dom().finite(),
            self@.len() == self.entries@.len(),
    {
        let s = self.entries@;
        let keys = s.map_values(|e: (String, String)| e.0@);
        assert forall|i: int, j: int| 0 <= i < j < keys.len() implies keys[i] != keys[j] by {
            assert(s[i].0@ != s[j].0@);
        }
        keys.unique_seq_to_set();
        assert(self@.dom() =~= keys.to_set()) by {
            assert forall|k: Seq<char>| self@.dom().contains(k) implies keys.to_set().contains(
                k,
            ) by {
                let i = position_of(s, k);
                assert(keys[i] == k);
            }
            assert forall|k: Seq<char>| keys.to_set().contains(k) implies self@.dom().contains(
                k,
            ) by {
                let i = choose|i: int| 0 <= i < keys.len() && keys[i] == k;
                assert(s[i].0@ == k);
            }
        }
    }

    proof fn lemma_update_view(
        &self,
        old_entries: Seq<(String, String)>,
        i: int,
        k: Seq<char>,
        v: Seq<char>,
    )
        requires
            0 <= i < old_entries.len(),
            old_entries[i].0@ == k,
            self.entries@ == old_entries.update(i, self.entries@[i]),
            self.entries@[i].0@ == k,
            self.entries@[i].1@ == v,
            names_unique(old_entries),
            names_unique(self.entries@),
        ensures
            self@ == entries_map(old_entries).insert(k, v),
    {
        let s = self.entries@;
        let m = entries_map(old_entries).insert(k, v);
        lemma_entry_in_map(s, i);
        assert forall|kk: Seq<char>| #[trigger] self@.contains_key(kk) <==> m.contains_key(kk) by {
            if has_name(s, kk) {
                let j = position_of(s, kk);
                if j != i {
                    assert(old_entries[j].0@ == kk);
                }
            }
            if has_name(old_entries, kk) {
                let j = position_of(old_entries, kk);
                if j != i {
                    assert(s[j].0@ == kk);
                }
            }
        }
        assert forall|kk: Seq<char>| self@.contains_key(kk) implies #[trigger] self@[kk]
            == m[kk] by {
            if kk != k {
                let j = position_of(s, kk);
                assert(j != i);
                assert(old_entries[j] == s[j]);
                lemma_entry_in_map(s, j);
                lemma_entry_in_map(old_entries, j);
            }
        }
        assert(self@ =~= m);
    }

    proof fn lemma_push_view(&self, old_entries: Seq<(String, String)>, k: Seq<char>, v: Seq<char>)
        requires
            self.entries@ == old_entries.push(self.entries@.last()),
            self.entries@.last().0@ == k,
            self.entries@.last().1@ == v,
            forall|j: int| 0 <= j < old_entries.len() ==> old_entries[j].0@ != k,
            names_unique(old_entries),
            names_unique(self.entries@),
        ensures
            self@ == entries_map(old_entries).insert(k, v),
    {
        let s = self.entries@;
        let n = old_entries.len() as int;
        let m = entries_map(old_entries).insert(k, v);
        lemma_entry_in_map(s, n);
        assert forall|kk: Seq<char>| #[trigger] self@.contains_key(kk) <==> m.contains_key(kk) by {
            if has_name(s, kk) {
                let j = position_of(s, kk);
                if j != n {
                    assert(old_entries[j].0@ == kk);
                }
            }
            if has_name(old_entries, kk) {
                let j = position_of(old_entries, kk);
                assert(s[j].0@ == kk);
            }
        }
        assert forall|kk: Seq<char>| self@.contains_key(kk) implies #[trigger] self@[kk]
            == m[kk] by {
            if kk != k {
                let j = position_of(s, kk);
                assert(j != n);
                assert(old_entries[j] == s[j]);
                lemma_entry_in_map(s, j);
                lemma_entry_in_map(old_entries, j);
            }
        }
        assert(self@ =~= m);
    }
}

impl PartialEq for Headers {
    fn eq(&self, other: &Headers) -> (r: bool) {
        proof {
            use_type_invariant(self);
            use_type_invariant(other);
            self.lemma_len();
            other.lemma_len();
        }
        if self.entries.len() != other.entries.len() {
            return false;
        }
        let mut i: usize = 0;
        while i < self.entries.len()
            invariant
                0 <= i <= self.entries@.len(),
                names_unique(self.entries@),
                forall|j: int|
                    0 <= j < i ==> #[trigger] other@.contains_key(self.entries@[j].0@)
                        && other@[self.entries@[j].0@] == self.entries@[j].1@,
            decreases self.entries@.len() - i,
        {
            proof {
                lemma_entry_in_map(self.entries@, i as int);
            }
            match other.get(self.entries[i].0.as_str()) {
                Some(v) => {
                    if !v.eq(&self.entries[i].1) {
                        return false;
                    }
                },
                None => {
                    return false;
                },
            }
            i = i + 1;
        }
        proof {
            let s = self.entries@;
            assert(self@.dom().subset_of(other@.dom())) by {
                assert forall|k: Seq<char>| self@.dom().contains(k) implies other@.dom().contains(
                    k,
                ) by {
                    let j = position_of(s, k);
                    assert(other@.contains_key(s[j].0@));
                }
            }
            vstd::set_lib::lemma_subset_equality(self@.dom(), other@.dom());
            assert forall|k: Seq<char>| self@.contains_key(k) implies self@[k] == other@[k] by {
                let j = position_of(s, k);
                lemma_entry_in_map(s, j);
                assert(other@.contains_key(s[j].0@));
            }
            assert(self@ =~= other@);
        }
        true
    }
}

impl vstd::std_specs::cmp::PartialEqSpecImpl for Headers {
    open spec fn obeys_eq_spec() -> bool {
        true
    }

    open spec fn eq_spec(&self, other: &Headers) -> bool {
        self@ == other@
    }
}

impl Eq for Headers {

}

} // verus!
