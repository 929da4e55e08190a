use vstd::prelude::*;
use crate::text::str_eq;

verus! {

/// A value that can be copied exactly.
pub trait Duplicate: Sized {
    fn duplicate(&self) -> (r: Self)
        ensures
            r == *self,
    ;
}

impl Duplicate for i64 {
    fn duplicate(&self) -> (r: i64) {
        *self
    }
}

impl Duplicate for String {
    fn duplicate(&self) -> (r: String) {
        self.clone()
    }
}

/// A copy of a list of values.
pub fn duplicate_all<T: Duplicate>(v: &Vec<T>) -> (r: Vec<T>)
    ensures
        r@ == v@,
{
    let mut r: Vec<T> = Vec::new();
    let mut i: usize = 0;
    while i < v.len()
        invariant
            i <= v@.len(),
            r@ == v@.take(i as int),
        decreases v@.len() - i,
    {
        r.push(v[i].duplicate());
        i = i + 1;
        assert(r@ =~= v@.take(i as int));
    }
    assert(v@.take(v@.len() as int) =~= v@);
    r
}

/// No two entries share a key.
pub open spec fn keys_distinct<V>(s: Seq<(String, V)>) -> bool {
    forall|i: int, j: int|
        #![trigger s[i], s[j]]
        0 <= i < j < s.len() ==> s[i].0@ != s[j].0@
}

/// Some entry has key `k`.
pub open spec fn has_key<V>(s: Seq<(String, V)>, k: Seq<char>) -> bool {
    exists|i: int| 0 <= i < s.len() && #[trigger] s[i].0@ == k
}

/// The map that a list of entries with distinct keys stands for.
pub open spec fn map_of<V>(s: Seq<(String, V)>) -> Map<Seq<char>, V> {
    Map::new(
        |k: Seq<char>| has_key(s, k),
        |k: Seq<char>| s[choose|i: int| 0 <= i < s.len() && #[trigger] s[i].0@ == k].1,
    )
}

/// In a list with distinct keys, the map gives each entry's own value.
pub proof fn lemma_map_of_entry<V>(s: Seq<(String, V)>, i: int)
    requires
        keys_distinct(s),
        0 <= i < s.len(),
    ensures
        map_of(s).contains_key(s[i].0@),
        map_of(s)[s[i].0@] == s[i].1,
{
    let k = s[i].0@;
    assert(has_key(s, k));
    let j = choose|j: int| 0 <= j < s.len() && #[trigger] s[j].0@ == k;
    if j < i {
        assert(s[j].0@ != s[i].0@);
    } else if i < j {
        assert(s[i].0@ != s[j].0@);
    }
}

/// A map from strings to values, kept as a list of entries whose keys are
/// distinct. It stands in for the `HashMap<String, _>` fields of an LLM.
pub struct StrMap<V> {
    entries: Vec<(String, V)>,
}

impl<V> View for StrMap<V> {
    type V = Map<Seq<char>, V>;

    closed spec fn view(&self) -> Map<Seq<char>, V> {
        map_of(self.entries@)
    }
}

impl<V> StrMap<V> {
    #[verifier::type_invariant]
    closed spec fn wf(&self) -> bool {
        keys_distinct(self.entries@)
    }

    /// The empty map.
    pub fn new() -> (m: StrMap<V>)
        ensures
            m@ == Map::<Seq<char>, V>::empty(),
    {
        let m = StrMap { entries: Vec::new() };
        assert(m@ =~= Map::<Seq<char>, V>::empty());
        m
    }

    /// Number of keys.
    pub fn len(&self) -> (n: usize)
        ensures
            n == self@.dom().len(),
    {
        proof {
            use_type_invariant(self);
            self.lemma_dom_len();
        }
        self.entries.len()
    }

    proof fn lemma_dom_len(&self)
        requires
            keys_distinct(self.entries@),
        ensures
            self@.dom().len() == self.entries@.len(),
            self@.dom().finite(),
    {
        let s = self.entries@;
        let ks = Seq::new(s.len(), |i: int| s[i].0@);
        assert forall|a: int, b: int| 0 <= a < ks.len() && 0 <= b < ks.len() && a != b implies ks[a]
            != ks[b] by {
            if a < b {
                assert(s[a].0@ != s[b].0@);
            } else {
                assert(s[b].0@ != s[a].0@);
            }
        }
        assert(ks.no_duplicates());
        assert forall|k: Seq<char>| self@.dom().contains(k) <==> ks.to_set().contains(k) by {
            if self@.dom().contains(k) {
                let i = choose|i: int| 0 <= i < s.len() && #[trigger] s[i].0@ == k;
                assert(ks[i] == k);
            }
            if ks.to_set().contains(k) {
                let i = choose|i: int| 0 <= i < ks.len() && ks[i] == k;
                assert(s[i].0@ == k);
            }
        }
        assert(self@.dom() =~= ks.to_set());
        ks.unique_seq_to_set();
        vstd::seq_lib::seq_to_set_is_finite(ks);
    }

    /// Position of key `k`, if present.
    fn find(&self, k: &str) -> (r: Option<usize>)
        ensures
            r matches Some(i) ==> i < self.entries@.len() && self.entries@[i as int].0@ == k@,
            r is None ==> !has_key(self.entries@, k@),
    {
        let mut i: usize = 0;
        while i < self.entries.len()
            invariant
                i <= self.entries@.len(),
                forall|j: int| 0 <= j < i ==> self.entries@[j].0@ != k@,
            decreases self.entries@.len() - i,
        {
            if str_eq(self.entries[i].0.as_str(), k) {
                return Some(i);
            }
            i = i + 1;
        }
        None
    }

    /// The value stored under `k`.
    pub fn get(&self, k: &str) -> (r: Option<&V>)
        ensures
            r is Some <==> self@.contains_key(k@),
            r matches Some(v) ==> *v == self@[k@],
    {
        proof {
            use_type_invariant(self);
        }
        match self.find(k) {
            Some(i) => {
                proof {
                    lemma_map_of_entry(self.entries@, i as int);
                }
                Some(&self.entries[i].1)
            },
            None => None,
        }
    }

    /// Whether `k` is a key.
    pub fn contains_key(&self, k: &str) -> (r: bool)
        ensures
            r == self@.contains_key(k@),
    {
        self.get(k).is_some()
    }

    /// The keys, each once.
    pub fn keys(&self) -> (r: Vec<String>)
        ensures
            r@.len() == self@.dom().len(),
            forall|i: int| 0 <= i < r@.len() ==> self@.contains_key(#[trigger] r@[i]@),
            forall|k: Seq<char>| #[trigger] self@.contains_key(k) ==> exists|i: int|
                0 <= i < r@.len() && r@[i]@ == k,
    {
        proof {
            use_type_invariant(self);
            self.lemma_dom_len();
        }
        let mut r: Vec<String> = Vec::new();
        let mut i: usize = 0;
        while i < self.entries.len()
            invariant
                i <= self.entries@.len(),
                keys_distinct(self.entries@),
                r@.len() == i,
                forall|j: int| 0 <= j < i ==> #[trigger] r@[j] == self.entries@[j].0,
            decreases self.entries@.len() - i,
        {
            r.push(self.entries[i].0.clone());
            i = i + 1;
        }
        proof {
            let s = self.entries@;
            assert forall|j: int| 0 <= j < r@.len() implies self@.contains_key(#[trigger] r@[j]@) by {
                assert(r@[j] == s[j].0);
                assert(has_key(s, s[j].0@));
            }
            assert forall|k: Seq<char>| #[trigger] self@.contains_key(k) implies exists|j: int|
                0 <= j < r@.len() && r@[j]@ == k by {
                let j = choose|j: int| 0 <= j < s.len() && #[trigger] s[j].0@ == k;
                assert(r@[j] == s[j].0);
            }
        }
        r
    }

    /// Stores `v` under `k`, replacing what was there.
    pub fn insert(&mut self, k: String, v: V)
        ensures
            final(self)@ == old(self)@.insert(k@, v),
    {
        proof {
            use_type_invariant(&*self);
        }
        let ghost old_s = self.entries@;
        let ghost key = k@;
        let found = self.find(k.as_str());
        let mut entries: Vec<(String, V)> = Vec::new();
        std::mem::swap(&mut entries, &mut self.entries);
        match found {
            Some(i) => {
                entries.set(i, (k, v));
                proof {
                    let s = entries@;
                    assert(s == old_s.update(i as int, s[i as int]));
                    assert(keys_distinct(s)) by {
                        assert forall|a: int, b: int| 0 <= a < b < s.len() implies #[trigger] s[a].0@
                            != #[trigger] s[b].0@ by {
                            assert(old_s[a].0@ != old_s[b].0@);
                        }
                    }
                    assert forall|kk: Seq<char>| #[trigger] map_of(s).contains_key(kk) <==> map_of(
                        old_s,
                    ).insert(key, v).contains_key(kk) by {
                        if has_key(s, kk) {
                            let j = choose|j: int| 0 <= j < s.len() && #[trigger] s[j].0@ == kk;
                            if j != i {
                                assert(old_s[j].0@ == kk);
                            }
                        }
                        if has_key(old_s, kk) {
                            let j = choose|j: int| 0 <= j < old_s.len() && #[trigger] old_s[j].0@
                                == kk;
                            assert(s[j].0@ == kk);
                        }
                        if kk == key {
                            assert(s[i as int].0@ == kk);
                        }
                    }
                    assert forall|kk: Seq<char>| #[trigger]
                        map_of(s).contains_key(kk) implies map_of(s)[kk] == map_of(old_s).insert(
                        key,
                        v,
                    )[kk] by {
                        let j = choose|j: int| 0 <= j < s.len() && #[trigger] s[j].0@ == kk;
                        lemma_map_of_entry(s, j);
                        if j != i {
                            assert(old_s[j] == s[j]);
                            lemma_map_of_entry(old_s, j);
                        }
                    }
                    assert(map_of(s) =~= map_of(old_s).insert(key, v));
                }
            },
            None => {
                entries.push((k, v));
                proof {
                    let s = entries@;
                    assert(s == old_s.push((k, v)));
                    assert(keys_distinct(s)) by {
                        assert forall|a: int, b: int| 0 <= a < b < s.len() implies #[trigger] s[a].0@
                            != #[trigger] s[b].0@ by {
                            if b == s.len() - 1 {
                                assert(old_s[a].0@ != key);
                            } else {
                                assert(old_s[a].0@ != old_s[b].0@);
                            }
                        }
                    }
                    assert forall|kk: Seq<char>| #[trigger] map_of(s).contains_key(kk) <==> map_of(
                        old_s,
                    ).insert(key, v).contains_key(kk) by {
                        if has_key(s, kk) {
                            let j = choose|j: int| 0 <= j < s.len() && #[trigger] s[j].0@ == kk;
                            if j < old_s.len() {
                                assert(old_s[j].0@ == kk);
                            }
                        }
                        if has_key(old_s, kk) {
                            let j = choose|j: int| 0 <= j < old_s.len() && #[trigger] old_s[j].0@
                                == kk;
                            assert(s[j].0@ == kk);
                        }
                        if kk == key {
                            assert(s[s.len() - 1].0@ == kk);
                        }
                    }
                    assert forall|kk: Seq<char>| #[trigger]
                        map_of(s).contains_key(kk) implies map_of(s)[kk] == map_of(old_s).insert(
                        key,
                        v,
                    )[kk] by {
                        let j = choose|j: int| 0 <= j < s.len() && #[trigger] s[j].0@ == kk;
                        lemma_map_of_entry(s, j);
                        if j < old_s.len() {
                            assert(old_s[j] == s[j]);
                            lemma_map_of_entry(old_s, j);
                        }
                    }
                    assert(map_of(s) =~= map_of(old_s).insert(key, v));
                }
            },
        }
        self.entries = entries;
    }
}

impl<V: Duplicate> StrMap<V> {
    /// A copy of the map.
    pub fn duplicate(&self) -> (r: StrMap<V>)
        ensures
            r@ == self@,
    {
        proof {
            use_type_invariant(self);
        }
        let mut entries: Vec<(String, V)> = Vec::new();
        let mut i: usize = 0;
        while i < self.entries.len()
            invariant
                i <= self.entries@.len(),
                entries@ == self.entries@.take(i as int),
            decreases self.entries@.len() - i,
        {
            let e = &self.entries[i];
            entries.push((e.0.clone(), e.1.duplicate()));
            i = i + 1;
            assert(entries@ =~= self.entries@.take(i as int));
        }
        assert(self.entries@.take(self.entries@.len() as int) =~= self.entries@);
        StrMap { entries }
    }
}

} // verus!
