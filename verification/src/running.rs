use vstd::prelude::*;

verus! {

/// No two entries share a UUID.
pub open spec fn ids_distinct<H>(s: Seq<(u128, H)>) -> bool {
    forall|i: int, j: int| #![trigger s[i], s[j]] 0 <= i < j < s.len() ==> s[i].0 != s[j].0
}

/// Some entry is under `k`.
pub open spec fn has_id<H>(s: Seq<(u128, H)>, k: u128) -> bool {
    exists|i: int| 0 <= i < s.len() && #[trigger] s[i].0 == k
}

/// The map a list of entries with distinct UUIDs stands for.
pub open spec fn id_map<H>(s: Seq<(u128, H)>) -> Map<u128, H> {
    Map::new(
        |k: u128| has_id(s, k),
        |k: u128| s[choose|i: int| 0 <= i < s.len() && #[trigger] s[i].0 == k].1,
    )
}

/// In a list with distinct UUIDs, the map gives each entry's own value.
pub proof fn lemma_id_map_entry<H>(s: Seq<(u128, H)>, i: int)
    requires
        ids_distinct(s),
        0 <= i < s.len(),
    ensures
        id_map(s).contains_key(s[i].0),
        id_map(s)[s[i].0] == s[i].1,
{
    let k = s[i].0;
    assert(has_id(s, k));
    let j = choose|j: int| 0 <= j < s.len() && #[trigger] s[j].0 == k;
    if j < i {
        assert(s[j].0 != s[i].0);
    } else if i < j {
        assert(s[i].0 != s[j].0);
    }
}

/// Removing entry `i` of a list with distinct UUIDs removes its UUID from
/// the map.
pub proof fn lemma_id_map_remove<H>(s: Seq<(u128, H)>, i: int)
    requires
        ids_distinct(s),
        0 <= i < s.len(),
    ensures
        ids_distinct(s.remove(i)),
        id_map(s.remove(i)) == id_map(s).remove(s[i].0),
{
    let t = s.remove(i);
    let k = s[i].0;
    assert forall|a: int, b: int| 0 <= a < b < t.len() implies #[trigger] t[a].0 != #[trigger] t[b].0 by {
        let a2 = if a < i { a } else { a + 1 };
        let b2 = if b < i { b } else { b + 1 };
        assert(t[a] == s[a2]);
        assert(t[b] == s[b2]);
        assert(s[a2].0 != s[b2].0);
    }
    assert forall|kk: u128| #[trigger] id_map(t).contains_key(kk) <==> id_map(s).remove(
        k,
    ).contains_key(kk) by {
        if has_id(t, kk) {
            let j = choose|j: int| 0 <= j < t.len() && #[trigger] t[j].0 == kk;
            let j2 = if j < i { j } else { j + 1 };
            assert(s[j2].0 == kk);
            if kk == k {
                if j2 < i {
                    assert(s[j2].0 != s[i].0);
                } else {
                    assert(s[i].0 != s[j2].0);
                }
            }
        }
        if has_id(s, kk) && kk != k {
            let j = choose|j: int| 0 <= j < s.len() && #[trigger] s[j].0 == kk;
            assert(j != i);
            let j2 = if j < i { j } else { j - 1 };
            assert(t[j2].0 == kk);
        }
    }
    assert forall|kk: u128| #[trigger] id_map(t).contains_key(kk) implies id_map(t)[kk] == id_map(
        s,
    ).remove(k)[kk] by {
        let j = choose|j: int| 0 <= j < t.len() && #[trigger] t[j].0 == kk;
        lemma_id_map_entry(t, j);
        let j2 = if j < i { j } else { j + 1 };
        assert(t[j] == s[j2]);
        lemma_id_map_entry(s, j2);
    }
    assert(id_map(t) =~= id_map(s).remove(k));
}

/// The LLMs that are running, by UUID, each with what the caller keeps for
/// it (an actor handle, the activation record...).
pub struct RunningTable<H> {
    entries: Vec<(u128, H)>,
}

impl<H> View for RunningTable<H> {
    type V = Map<u128, H>;

    closed spec fn view(&self) -> Map<u128, H> {
        id_map(self.entries@)
    }
}

impl<H> RunningTable<H> {
    #[verifier::type_invariant]
    closed spec fn wf(&self) -> bool {
        ids_distinct(self.entries@)
    }

    /// The empty table.
    pub fn new() -> (t: RunningTable<H>)
        ensures
            t@ == Map::<u128, H>::empty(),
    {
        let t = RunningTable { entries: Vec::new() };
        assert(t@ =~= Map::<u128, H>::empty());
        t
    }

    fn find(&self, k: u128) -> (r: Option<usize>)
        ensures
            r matches Some(i) ==> i < self.entries@.len() && self.entries@[i as int].0 == k,
            r is None ==> !has_id(self.entries@, k),
    {
        let mut i: usize = 0;
        while i < self.entries.len()
            invariant
                i <= self.entries@.len(),
                forall|j: int| 0 <= j < i ==> self.entries@[j].0 != k,
            decreases self.entries@.len() - i,
        {
            if self.entries[i].0 == k {
                return Some(i);
            }
            i = i + 1;
        }
        None
    }

    /// What is kept for the LLM `k`, if it is running.
    pub fn get(&self, k: u128) -> (r: Option<&H>)
        ensures
            r is Some <==> self@.contains_key(k),
            r matches Some(h) ==> *h == self@[k],
    {
        proof {
            use_type_invariant(self);
        }
        match self.find(k) {
            Some(i) => {
                proof {
                    lemma_id_map_entry(self.entries@, i as int);
                }
                Some(&self.entries[i].1)
            },
            None => None,
        }
    }

    /// Whether the LLM `k` is running.
    pub fn contains_key(&self, k: u128) -> (r: bool)
        ensures
            r == self@.contains_key(k),
    {
        self.get(k).is_some()
    }

    /// The UUIDs of the running LLMs.
    pub fn keys(&self) -> (r: Vec<u128>)
        ensures
            r@.to_set() == self@.dom(),
            r@.no_duplicates(),
    {
        proof {
            use_type_invariant(self);
        }
        let mut r: Vec<u128> = Vec::new();
        let mut i: usize = 0;
        while i < self.entries.len()
            invariant
                i <= self.entries@.len(),
                ids_distinct(self.entries@),
                r@.len() == i,
                forall|j: int| 0 <= j < i ==> r@[j] == self.entries@[j].0,
            decreases self.entries@.len() - i,
        {
            r.push(self.entries[i].0);
            i = i + 1;
        }
        proof {
            let s = self.entries@;
            assert forall|a: int, b: int| 0 <= a < r@.len() && 0 <= b < r@.len() && a != b implies r@[a]
                != r@[b] by {
                if a < b {
                    assert(s[a].0 != s[b].0);
                } else {
                    assert(s[b].0 != s[a].0);
                }
            }
            assert forall|k: u128| r@.to_set().contains(k) <==> self@.dom().contains(k) by {
                if r@.to_set().contains(k) {
                    let j = choose|j: int| 0 <= j < r@.len() && r@[j] == k;
                    assert(s[j].0 == k);
                }
                if self@.dom().contains(k) {
                    let j = choose|j: int| 0 <= j < s.len() && #[trigger] s[j].0 == k;
                    assert(r@[j] == k);
                }
            }
            assert(r@.to_set() =~= self@.dom());
        }
        r
    }

    /// Records what is kept for the LLM `k`, replacing what was there.
    pub fn insert(&mut self, k: u128, h: H)
        ensures
            final(self)@ == old(self)@.insert(k, h),
    {
        proof {
            use_type_invariant(&*self);
        }
        let ghost old_s = self.entries@;
        let found = self.find(k);
        let mut entries: Vec<(u128, H)> = Vec::new();
        std::mem::swap(&mut entries, &mut self.entries);
        match found {
            Some(i) => {
                entries.set(i, (k, h));
                proof {
                    let s = entries@;
                    assert(ids_distinct(s)) by {
                        assert forall|a: int, b: int| 0 <= a < b < s.len() implies #[trigger] s[a].0
                            != #[trigger] s[b].0 by {
                            assert(old_s[a].0 != old_s[b].0);
                        }
                    }
                    assert forall|kk: u128| #[trigger] id_map(s).contains_key(kk) <==> id_map(
                        old_s,
                    ).insert(k, h).contains_key(kk) by {
                        if has_id(s, kk) {
                            let j = choose|j: int| 0 <= j < s.len() && #[trigger] s[j].0 == kk;
                            if j != i {
                                assert(old_s[j].0 == kk);
                            }
                        }
                        if has_id(old_s, kk) {
                            let j = choose|j: int| 0 <= j < old_s.len() && #[trigger] old_s[j].0
                                == kk;
                            assert(s[j].0 == kk);
                        }
                        if kk == k {
                            assert(s[i as int].0 == kk);
                        }
                    }
                    assert forall|kk: u128| #[trigger]
                        id_map(s).contains_key(kk) implies id_map(s)[kk] == id_map(old_s).insert(
                        k,
                        h,
                    )[kk] by {
                        let j = choose|j: int| 0 <= j < s.len() && #[trigger] s[j].0 == kk;
                        lemma_id_map_entry(s, j);
                        if j != i {
                            assert(old_s[j] == s[j]);
                            lemma_id_map_entry(old_s, j);
                        }
                    }
                    assert(id_map(s) =~= id_map(old_s).insert(k, h));
                }
            },
            None => {
                entries.push((k, h));
                proof {
                    let s = entries@;
                    assert(ids_distinct(s)) by {
                        assert forall|a: int, b: int| 0 <= a < b < s.len() implies #[trigger] s[a].0
                            != #[trigger] s[b].0 by {
                            if b == s.len() - 1 {
                                assert(old_s[a].0 != k);
                            } else {
                                assert(old_s[a].0 != old_s[b].0);
                            }
                        }
                    }
                    assert forall|kk: u128| #[trigger] id_map(s).contains_key(kk) <==> id_map(
                        old_s,
                    ).insert(k, h).contains_key(kk) by {
                        if has_id(s, kk) {
                            let j = choose|j: int| 0 <= j < s.len() && #[trigger] s[j].0 == kk;
                            if j < old_s.len() {
                                assert(old_s[j].0 == kk);
                            }
                        }
                        if has_id(old_s, kk) {
                            let j = choose|j: int| 0 <= j < old_s.len() && #[trigger] old_s[j].0
                                == kk;
                            assert(s[j].0 == kk);
                        }
                        if kk == k {
                            assert(s[s.len() - 1].0 == kk);
                        }
                    }
                    assert forall|kk: u128| #[trigger]
                        id_map(s).contains_key(kk) implies id_map(s)[kk] == id_map(old_s).insert(
                        k,
                        h,
                    )[kk] by {
                        let j = choose|j: int| 0 <= j < s.len() && #[trigger] s[j].0 == kk;
                        lemma_id_map_entry(s, j);
                        if j < old_s.len() {
                            assert(old_s[j] == s[j]);
                            lemma_id_map_entry(old_s, j);
                        }
                    }
                    assert(id_map(s) =~= id_map(old_s).insert(k, h));
                }
            },
        }
        self.entries = entries;
    }

    /// Takes out what is kept for the LLM `k`, if it is running.
    pub fn remove(&mut self, k: u128) -> (r: Option<H>)
        ensures
            r is Some <==> old(self)@.contains_key(k),
            r matches Some(h) ==> h == old(self)@[k],
            final(self)@ == old(self)@.remove(k),
    {
        proof {
            use_type_invariant(&*self);
        }
        let ghost old_s = self.entries@;
        match self.find(k) {
            Some(i) => {
                proof {
                    lemma_id_map_entry(old_s, i as int);
                    lemma_id_map_remove(old_s, i as int);
                }
                let mut entries: Vec<(u128, H)> = Vec::new();
                std::mem::swap(&mut entries, &mut self.entries);
                let e = entries.remove(i);
                self.entries = entries;
                Some(e.1)
            },
            None => {
                proof {
                    assert(id_map(old_s).remove(k) =~= id_map(old_s));
                }
                None
            },
        }
    }
}

} // verus!
