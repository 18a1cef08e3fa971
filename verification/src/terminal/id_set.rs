use vstd::prelude::*;

verus! {

/// The character sequences of a list of identifiers.
pub open spec fn id_views(ids: Seq<String>) -> Seq<Seq<char>> {
    ids.map_values(|s: String| s@)
}

/// A set of stage identifiers, kept as a list without repetitions.
pub struct StageIdSet {
    ids: Vec<String>,
}

impl View for StageIdSet {
    type V = Set<Seq<char>>;

    closed spec fn view(&self) -> Set<Seq<char>> {
        id_views(self.ids@).to_set()
    }
}

impl StageIdSet {
    #[verifier::type_invariant]
    spec fn no_repeats(self) -> bool {
        id_views(self.ids@).no_duplicates()
    }

    /// The view of a set is always finite.
    pub proof fn lemma_finite(&self)
        ensures
            self@.finite(),
    {
        vstd::seq_lib::seq_to_set_is_finite(id_views(self.ids@));
    }

    /// Creates an empty set.
    pub fn new() -> (s: Self)
        ensures
            s@ == Set::<Seq<char>>::empty(),
    {
        let s = StageIdSet { ids: Vec::new() };
        assert(id_views(s.ids@).to_set() =~= Set::<Seq<char>>::empty());
        s
    }

    /// The position of `id` in the list, if it is there.
    fn position(&self, id: &String) -> (r: Option<usize>)
        ensures
            match r {
                Some(i) => i < self.ids@.len() && self.ids@[i as int]@ == id@,
                None => !self@.contains(id@),
            },
    {
        let mut i: usize = 0;
        while i < self.ids.len()
            invariant
                i <= self.ids@.len(),
                forall|j: int| 0 <= j < i ==> self.ids@[j]@ != id@,
            decreases self.ids@.len() - i,
        {
            if self.ids[i] == *id {
                return Some(i);
            }
            i = i + 1;
        }
        proof {
            if self@.contains(id@) {
                let k = choose|k: int| 0 <= k < id_views(self.ids@).len() && id_views(self.ids@)[k] == id@;
                assert(self.ids@[k]@ == id@);
            }
        }
        None
    }

    /// Tells whether `id` is in the set.
    pub fn contains(&self, id: &String) -> (b: bool)
        ensures
            b == self@.contains(id@),
    {
        match self.position(id) {
            Some(i) => {
                assert(id_views(self.ids@)[i as int] == id@);
                true
            },
            None => false,
        }
    }

    /// Adds `id` to the set.
    pub fn insert(&mut self, id: String)
        ensures
            final(self)@ == old(self)@.insert(id@),
    {
        proof { use_type_invariant(&*self); }
        if !self.contains(&id) {
            let ghost old_ids = self.ids@;
            let ghost v = id@;
            let mut ids = self.ids.clone();
            ids.push(id);
            assert(id_views(ids@) =~= id_views(old_ids).push(v));
            assert forall|x: Seq<char>| #[trigger] id_views(ids@).contains(x)
                <==> id_views(old_ids).to_set().insert(v).contains(x) by {
                let ov = id_views(old_ids);
                let nv = id_views(ids@);
                if nv.contains(x) {
                    let k = choose|k: int| 0 <= k < nv.len() && nv[k] == x;
                    if k < ov.len() {
                        assert(ov[k] == x);
                    }
                }
                if ov.to_set().insert(v).contains(x) {
                    if x == v {
                        assert(nv[ov.len() as int] == x);
                    } else {
                        let k = choose|k: int| 0 <= k < ov.len() && ov[k] == x;
                        assert(nv[k] == x);
                    }
                }
            }
            assert(id_views(ids@).to_set() =~= id_views(old_ids).to_set().insert(v));
            assert(id_views(ids@).no_duplicates()) by {
                let ov = id_views(old_ids);
                assert(!ov.contains(v));
                assert forall|a: int, b: int| 0 <= a < b < id_views(ids@).len() implies
                    id_views(ids@)[a] != id_views(ids@)[b] by {
                    if b == ov.len() {
                        assert(id_views(ids@)[a] == ov[a]);
                    } else {
                        assert(id_views(ids@)[a] == ov[a]);
                        assert(id_views(ids@)[b] == ov[b]);
                    }
                }
            }
            *self = StageIdSet { ids };
        }
    }

    /// Takes `id` out of the set.
    pub fn remove(&mut self, id: &String)
        ensures
            final(self)@ == old(self)@.remove(id@),
    {
        proof { use_type_invariant(&*self); }
        match self.position(id) {
            Some(i) => {
                let ghost old_views = id_views(self.ids@);
                let mut ids = self.ids.clone();
                ids.remove(i);
                assert(id_views(ids@) =~= old_views.remove(i as int));
                assert forall|x: Seq<char>| #[trigger] old_views.remove(i as int).contains(x)
                    <==> old_views.to_set().remove(id@).contains(x) by {
                    if old_views.to_set().remove(id@).contains(x) {
                        assert(old_views.contains(x));
                        let k = choose|k: int| 0 <= k < old_views.len() && old_views[k] == x;
                        assert(old_views[i as int] == id@);
                        assert(k != i);
                        if k < i {
                            assert(old_views.remove(i as int)[k] == x);
                        } else {
                            assert(old_views.remove(i as int)[k - 1] == x);
                        }
                    }
                    if old_views.remove(i as int).contains(x) {
                        let k = choose|k: int| 0 <= k < old_views.len() - 1 && old_views.remove(i as int)[k] == x;
                        let k2 = if k < i { k } else { k + 1 };
                        assert(old_views[k2] == x);
                        assert(k2 != i);
                        assert(old_views[i as int] == id@);
                        assert(x != id@);
                        assert(old_views.contains(x));
                    }
                }
                assert(id_views(ids@).to_set() =~= old_views.to_set().remove(id@));
                assert(id_views(ids@).no_duplicates()) by {
                    assert forall|a: int, b: int| 0 <= a < b < id_views(ids@).len() implies
                        id_views(ids@)[a] != id_views(ids@)[b] by {
                        let a2 = if a < i { a } else { a + 1 };
                        let b2 = if b < i { b } else { b + 1 };
                        assert(id_views(ids@)[a] == old_views[a2]);
                        assert(id_views(ids@)[b] == old_views[b2]);
                    }
                }
                *self = StageIdSet { ids };
            },
            None => {
                assert(self@.remove(id@) =~= self@);
            },
        }
    }

    /// The number of identifiers in the set.
    pub fn len(&self) -> (n: usize)
        ensures
            n == self@.len(),
    {
        proof {
            use_type_invariant(self);
            id_views(self.ids@).unique_seq_to_set();
        }
        self.ids.len()
    }

    /// Tells whether the set is empty.
    pub fn is_empty(&self) -> (b: bool)
        ensures
            b == (self@ == Set::<Seq<char>>::empty()),
    {
        proof {
            use_type_invariant(self);
            id_views(self.ids@).unique_seq_to_set();
            self.lemma_finite();
            if self@.len() == 0 {
                self@.lemma_len0_is_empty();
            }
        }
        self.ids.len() == 0
    }
}

} // verus!
