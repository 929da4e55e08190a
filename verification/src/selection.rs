use vstd::prelude::*;
use crate::llm::LLM;
use crate::server::{
    api_error, capability_name, ApiError, CapabilityFilter, CapabilityType, LLMFilter,
    LLMPreference, StatusKind,
};
use crate::text::str_eq;

verus! {

// ---------------------------------------------------------------------
// What the selection means
// ---------------------------------------------------------------------

/// An LLM's score in a capability; -1 when it has not been evaluated.
pub open spec fn capability_score(l: LLM, c: CapabilityType) -> int {
    if l.capabilities@.contains_key(capability_name(c)) {
        l.capabilities@[capability_name(c)] as int
    } else {
        -1
    }
}

/// The LLM has been scored in the capability, at least at the bound.
pub open spec fn meets_minimum(l: LLM, m: CapabilityFilter) -> bool {
    l.capabilities@.contains_key(capability_name(m.capability)) && l.capabilities@[capability_name(
        m.capability,
    )] >= m.value
}

/// The LLM meets every requirement of the filter.
pub open spec fn passes_filter(l: LLM, f: LLMFilter) -> bool {
    &&& (f.llm_uuid matches Some(u) ==> l.uuid == u)
    &&& (f.llm_id matches Some(id) ==> l.id@ == id@)
    &&& (f.family_id matches Some(fam) ==> l.family_id@ == fam@)
    &&& (f.local matches Some(b) ==> l.local == b)
    &&& (f.minimum_capabilities matches Some(ms) ==> forall|i: int|
        0 <= i < ms@.len() ==> meets_minimum(l, #[trigger] ms@[i]))
}

/// The LLM may be picked: it passes the filter, if there is one, and has a
/// model file, if one is needed.
pub open spec fn eligible(l: LLM, filter: Option<LLMFilter>, need_model_path: bool) -> bool {
    &&& (need_model_path ==> l.model_path is Some)
    &&& (filter matches Some(f) ==> passes_filter(l, f))
}

/// The positions, in increasing order, of the first `n` LLMs that may be
/// picked.
pub open spec fn eligible_indices(
    llms: Seq<LLM>,
    n: nat,
    filter: Option<LLMFilter>,
    need_model_path: bool,
) -> Seq<usize>
    decreases n,
{
    if n == 0 {
        Seq::empty()
    } else {
        let rest = eligible_indices(llms, (n - 1) as nat, filter, need_model_path);
        if eligible(llms[n - 1], filter, need_model_path) {
            rest.push((n - 1) as usize)
        } else {
            rest
        }
    }
}

/// One property of an LLM that a preference asks for.
#[derive(Debug, Clone)]
pub enum LlmTest {
    Uuid(u128),
    Id(String),
    Local(bool),
    Family(String),
}

/// Whether the LLM has the property.
pub open spec fn test_holds(l: LLM, t: LlmTest) -> bool {
    match t {
        LlmTest::Uuid(u) => l.uuid == u,
        LlmTest::Id(id) => l.id@ == id@,
        LlmTest::Local(b) => l.local == b,
        LlmTest::Family(fam) => l.family_id@ == fam@,
    }
}

/// The positions in `w`, in order, whose LLM has the property.
pub open spec fn keep(llms: Seq<LLM>, w: Seq<usize>, t: LlmTest) -> Seq<usize>
    decreases w.len(),
{
    if w.len() == 0 {
        w
    } else {
        let rest = keep(llms, w.drop_last(), t);
        if test_holds(llms[w.last() as int], t) {
            rest.push(w.last())
        } else {
            rest
        }
    }
}

/// Narrows `w` to the LLMs with the property, unless none has it.
pub open spec fn narrow(llms: Seq<LLM>, w: Seq<usize>, t: LlmTest) -> Seq<usize> {
    if keep(llms, w, t).len() > 0 {
        keep(llms, w, t)
    } else {
        w
    }
}

/// The candidates left after the preferences for locality and family.
pub open spec fn preferred_pool(llms: Seq<LLM>, w: Seq<usize>, p: LLMPreference) -> Seq<usize> {
    let w1 = match p.local {
        Some(b) => narrow(llms, w, LlmTest::Local(b)),
        None => w,
    };
    match p.family_id {
        Some(fam) => narrow(llms, w1, LlmTest::Family(fam)),
        None => w1,
    }
}

/// The capability to rank by: the preferred one, else `general`.
pub open spec fn ranking_capability(pref: Option<LLMPreference>) -> CapabilityType {
    match pref {
        Some(p) => match p.capability_type {
            Some(c) => c,
            None => CapabilityType::General,
        },
        None => CapabilityType::General,
    }
}

/// Of the candidates, the last one with the highest score: what sorting
/// them by score (stably) and taking the last yields.
pub open spec fn pick_last_max(llms: Seq<LLM>, w: Seq<usize>, c: CapabilityType) -> usize
    decreases w.len(),
{
    if w.len() <= 1 {
        w[0]
    } else {
        let best = pick_last_max(llms, w.drop_last(), c);
        if capability_score(llms[w.last() as int], c) >= capability_score(llms[best as int], c) {
            w.last()
        } else {
            best
        }
    }
}

/// The first candidate with the property, if any has it.
pub open spec fn first_with(llms: Seq<LLM>, w: Seq<usize>, t: LlmTest) -> Option<usize> {
    if keep(llms, w, t).len() > 0 {
        Some(keep(llms, w, t)[0])
    } else {
        None
    }
}

/// The choice among candidates (downloaded LLMs to load, to ask to load or
/// to hand out, or running LLMs to open a session on). With one candidate,
/// that one. Otherwise a preferred UUID, then a preferred id, is taken where
/// a candidate has it: the first such candidate. Failing that, after the
/// preferences for locality and family, the most capable one in the
/// ranking capability (the last of those with the highest score: what a
/// stable sort by score and taking the last yields).
pub open spec fn select_llm(llms: Seq<LLM>, w: Seq<usize>, pref: Option<LLMPreference>) -> Option<usize> {
    if w.len() == 0 {
        None
    } else if w.len() == 1 {
        Some(w[0])
    } else {
        match pref {
            None => Some(pick_last_max(llms, w, CapabilityType::General)),
            Some(p) => {
                let by_uuid = match p.llm_uuid {
                    Some(u) => first_with(llms, w, LlmTest::Uuid(u)),
                    None => None,
                };
                let by_id = match p.llm_id {
                    Some(id) => first_with(llms, w, LlmTest::Id(id)),
                    None => None,
                };
                if by_uuid is Some {
                    by_uuid
                } else if by_id is Some {
                    by_id
                } else {
                    Some(pick_last_max(llms, preferred_pool(llms, w, p), ranking_capability(pref)))
                }
            },
        }
    }
}

/// The error when no LLM is left to pick.
pub open spec fn no_match_message() -> Seq<char> {
    "No running LLM matching requirements."@
}

// ---------------------------------------------------------------------
// Computing it
// ---------------------------------------------------------------------

/// All positions are positions of `llms`.
pub open spec fn in_range(w: Seq<usize>, n: nat) -> bool {
    forall|j: int| 0 <= j < w.len() ==> #[trigger] w[j] < n
}

/// An LLM's score in a capability; -1 when it has not been evaluated.
pub fn score(l: &LLM, c: CapabilityType) -> (r: i64)
    ensures
        r as int == capability_score(*l, c),
{
    match l.capabilities.get(c.name()) {
        Some(v) => *v,
        None => -1,
    }
}

/// Whether the LLM meets every one of the capability bounds.
pub fn meets_all_minimums(l: &LLM, ms: &Vec<CapabilityFilter>) -> (r: bool)
    ensures
        r == (forall|j: int| 0 <= j < ms@.len() ==> meets_minimum(*l, #[trigger] ms@[j])),
{
    let mut i: usize = 0;
    while i < ms.len()
        invariant
            i <= ms@.len(),
            forall|j: int| 0 <= j < i ==> meets_minimum(*l, #[trigger] ms@[j]),
        decreases ms@.len() - i,
    {
        let m = ms[i];
        match l.capabilities.get(m.capability.name()) {
            Some(v) => {
                if *v < m.value as i64 {
                    assert(!meets_minimum(*l, ms@[i as int]));
                    return false;
                }
            },
            None => {
                assert(!meets_minimum(*l, ms@[i as int]));
                return false;
            },
        }
        i = i + 1;
    }
    true
}

/// Whether the LLM meets every requirement of the filter.
pub fn check_filter(l: &LLM, f: &LLMFilter) -> (r: bool)
    ensures
        r == passes_filter(*l, *f),
{
    if let Some(u) = f.llm_uuid {
        if l.uuid != u {
            return false;
        }
    }
    if let Some(id) = &f.llm_id {
        if !str_eq(l.id.as_str(), id.as_str()) {
            return false;
        }
    }
    if let Some(fam) = &f.family_id {
        if !str_eq(l.family_id.as_str(), fam.as_str()) {
            return false;
        }
    }
    if let Some(b) = f.local {
        if l.local != b {
            return false;
        }
    }
    if let Some(ms) = &f.minimum_capabilities {
        if !meets_all_minimums(l, ms) {
            return false;
        }
    }
    true
}

/// Whether the LLM has the property.
pub fn check_test(l: &LLM, t: &LlmTest) -> (r: bool)
    ensures
        r == test_holds(*l, *t),
{
    match t {
        LlmTest::Uuid(u) => l.uuid == *u,
        LlmTest::Id(id) => str_eq(l.id.as_str(), id.as_str()),
        LlmTest::Local(b) => l.local == *b,
        LlmTest::Family(fam) => str_eq(l.family_id.as_str(), fam.as_str()),
    }
}

/// The positions of the LLMs that may be picked, in increasing order.
pub fn eligible_positions(llms: &Vec<LLM>, filter: &Option<LLMFilter>, need_model_path: bool) -> (w:
    Vec<usize>)
    ensures
        w@ == eligible_indices(llms@, llms@.len(), *filter, need_model_path),
        in_range(w@, llms@.len()),
{
    let mut w: Vec<usize> = Vec::new();
    let mut i: usize = 0;
    while i < llms.len()
        invariant
            i <= llms@.len(),
            w@ == eligible_indices(llms@, i as nat, *filter, need_model_path),
            in_range(w@, llms@.len()),
        decreases llms@.len() - i,
    {
        let l = &llms[i];
        let ok = (!need_model_path || l.model_path.is_some()) && match filter {
            Some(f) => check_filter(l, f),
            None => true,
        };
        if ok {
            w.push(i);
        }
        i = i + 1;
    }
    w
}

/// The positions in `w`, in order, whose LLM has the property.
pub fn keep_positions(llms: &Vec<LLM>, w: &Vec<usize>, t: &LlmTest) -> (r: Vec<usize>)
    requires
        in_range(w@, llms@.len()),
    ensures
        r@ == keep(llms@, w@, *t),
        in_range(r@, llms@.len()),
{
    let mut r: Vec<usize> = Vec::new();
    let mut i: usize = 0;
    while i < w.len()
        invariant
            i <= w@.len(),
            in_range(w@, llms@.len()),
            r@ == keep(llms@, w@.take(i as int), *t),
            in_range(r@, llms@.len()),
        decreases w@.len() - i,
    {
        proof {
            assert(w@.take(i + 1).drop_last() == w@.take(i as int));
        }
        if check_test(&llms[w[i]], t) {
            r.push(w[i]);
        }
        i = i + 1;
    }
    proof {
        assert(w@.take(w@.len() as int) == w@);
    }
    r
}

/// Narrows `w` to the LLMs with the property, unless none has it.
pub fn narrow_positions(llms: &Vec<LLM>, w: Vec<usize>, t: &LlmTest) -> (r: Vec<usize>)
    requires
        in_range(w@, llms@.len()),
    ensures
        r@ == narrow(llms@, w@, *t),
        in_range(r@, llms@.len()),
{
    let k = keep_positions(llms, &w, t);
    if k.len() > 0 {
        k
    } else {
        w
    }
}

/// The last candidate with the highest score.
pub fn last_max(llms: &Vec<LLM>, w: &Vec<usize>, c: CapabilityType) -> (r: usize)
    requires
        w@.len() >= 1,
        in_range(w@, llms@.len()),
    ensures
        r == pick_last_max(llms@, w@, c),
        r < llms@.len(),
{
    let mut best = w[0];
    let mut best_score = score(&llms[best], c);
    let mut i: usize = 1;
    proof {
        assert(w@.take(1).len() == 1);
    }
    while i < w.len()
        invariant
            1 <= i <= w@.len(),
            in_range(w@, llms@.len()),
            best < llms@.len(),
            best == pick_last_max(llms@, w@.take(i as int), c),
            best_score as int == capability_score(llms@[best as int], c),
        decreases w@.len() - i,
    {
        proof {
            assert(w@.take(i + 1).drop_last() == w@.take(i as int));
        }
        let s = score(&llms[w[i]], c);
        if s >= best_score {
            best = w[i];
            best_score = s;
        }
        i = i + 1;
    }
    proof {
        assert(w@.take(w@.len() as int) == w@);
    }
    best
}

/// The candidates left after the preferences for locality and family.
pub fn preferred_positions(llms: &Vec<LLM>, w: Vec<usize>, p: &LLMPreference) -> (r: Vec<usize>)
    requires
        in_range(w@, llms@.len()),
    ensures
        r@ == preferred_pool(llms@, w@, *p),
        in_range(r@, llms@.len()),
{
    let w1 = match p.local {
        Some(b) => narrow_positions(llms, w, &LlmTest::Local(b)),
        None => w,
    };
    match &p.family_id {
        Some(fam) => narrow_positions(llms, w1, &LlmTest::Family(fam.clone())),
        None => w1,
    }
}

/// The capability to rank by: the preferred one, else `general`.
pub fn ranking(pref: &Option<LLMPreference>) -> (c: CapabilityType)
    ensures
        c == ranking_capability(*pref),
{
    match pref {
        Some(p) => match p.capability_type {
            Some(c) => c,
            None => CapabilityType::General,
        },
        None => CapabilityType::General,
    }
}

/// The choice among the candidates at positions `w`.
pub fn pick_llm(llms: &Vec<LLM>, w: Vec<usize>, pref: &Option<LLMPreference>) -> (r: Option<usize>)
    requires
        in_range(w@, llms@.len()),
    ensures
        r == select_llm(llms@, w@, *pref),
        r matches Some(i) ==> i < llms@.len(),
{
    if w.len() == 0 {
        return None;
    }
    if w.len() == 1 {
        return Some(w[0]);
    }
    match pref {
        None => Some(last_max(llms, &w, CapabilityType::General)),
        Some(p) => {
            if let Some(u) = p.llm_uuid {
                let hits = keep_positions(llms, &w, &LlmTest::Uuid(u));
                if hits.len() > 0 {
                    return Some(hits[0]);
                }
            }
            if let Some(id) = &p.llm_id {
                let hits = keep_positions(llms, &w, &LlmTest::Id(id.clone()));
                if hits.len() > 0 {
                    return Some(hits[0]);
                }
            }
            let pool = preferred_positions(llms, w, p);
            proof {
                lemma_preferred_pool_nonempty(llms@, w@, *p);
            }
            Some(last_max(llms, &pool, ranking(pref)))
        },
    }
}

/// Narrowing never empties a non-empty pool.
pub proof fn lemma_preferred_pool_nonempty(llms: Seq<LLM>, w: Seq<usize>, p: LLMPreference)
    requires
        w.len() >= 1,
    ensures
        preferred_pool(llms, w, p).len() >= 1,
{
}

/// Picks a downloaded LLM to load, or to ask to load: the position in
/// `llms` of the chosen one, or `NotFound` when none passes the filter.
pub fn choose_downloaded_llm(
    llms: &Vec<LLM>,
    filter: &Option<LLMFilter>,
    preference: &Option<LLMPreference>,
) -> (r: Result<usize, ApiError>)
    ensures
        match r {
            Ok(i) => select_llm(llms@, eligible_indices(llms@, llms@.len(), *filter, false), *preference)
                == Some(i) && i < llms@.len(),
            Err(e) => select_llm(llms@, eligible_indices(llms@, llms@.len(), *filter, false), *preference)
                is None && e.status == StatusKind::NotFound && e.message@ == no_match_message(),
        },
{
    let w = eligible_positions(llms, filter, false);
    match pick_llm(llms, w, preference) {
        Some(i) => Ok(i),
        None => Err(api_error(StatusKind::NotFound, "No running LLM matching requirements.")),
    }
}

/// Picks a downloaded LLM whose model file is handed out: as
/// `choose_downloaded_llm`, among the LLMs that have a model file.
pub fn choose_bare_model(
    llms: &Vec<LLM>,
    filter: &Option<LLMFilter>,
    preference: &Option<LLMPreference>,
) -> (r: Result<usize, ApiError>)
    ensures
        match r {
            Ok(i) => select_llm(llms@, eligible_indices(llms@, llms@.len(), *filter, true), *preference)
                == Some(i) && i < llms@.len() && llms@[i as int].model_path is Some,
            Err(e) => select_llm(llms@, eligible_indices(llms@, llms@.len(), *filter, true), *preference)
                is None && e.status == StatusKind::NotFound && e.message@ == no_match_message(),
        },
{
    let n = llms.len();
    let w = eligible_positions(llms, filter, true);
    let ghost wv = w@;
    match pick_llm(llms, w, preference) {
        Some(i) => {
            proof {
                lemma_select_llm_member(llms@, wv, *preference);
                lemma_eligible_indices_eligible(llms@, llms@.len(), *filter, true);
            }
            Ok(i)
        },
        None => Err(api_error(StatusKind::NotFound, "No running LLM matching requirements.")),
    }
}

/// Picks a running LLM for a new session: the position in
/// `llms` of the chosen one, or `NotFound` when none passes the filter.
pub fn choose_running_llm(
    llms: &Vec<LLM>,
    filter: &Option<LLMFilter>,
    preference: &Option<LLMPreference>,
) -> (r: Result<usize, ApiError>)
    ensures
        match r {
            Ok(i) => select_llm(llms@, eligible_indices(llms@, llms@.len(), *filter, false), *preference)
                == Some(i) && i < llms@.len(),
            Err(e) => select_llm(llms@, eligible_indices(llms@, llms@.len(), *filter, false), *preference)
                is None && e.status == StatusKind::NotFound && e.message@ == no_match_message(),
        },
{
    let w = eligible_positions(llms, filter, false);
    match pick_llm(llms, w, preference) {
        Some(i) => Ok(i),
        None => Err(api_error(StatusKind::NotFound, "No running LLM matching requirements.")),
    }
}

// ---------------------------------------------------------------------
// Membership facts
// ---------------------------------------------------------------------

/// Every position listed is of an LLM that may be picked.
pub proof fn lemma_eligible_indices_eligible(
    llms: Seq<LLM>,
    n: nat,
    filter: Option<LLMFilter>,
    need_model_path: bool,
)
    requires
        n <= llms.len() <= usize::MAX,
    ensures
        forall|j: int|
            0 <= j < eligible_indices(llms, n, filter, need_model_path).len() ==> {
                let i = #[trigger] eligible_indices(llms, n, filter, need_model_path)[j];
                i < n && eligible(llms[i as int], filter, need_model_path)
            },
    decreases n,
{
    if n > 0 {
        let rest = eligible_indices(llms, (n - 1) as nat, filter, need_model_path);
        let full = eligible_indices(llms, n, filter, need_model_path);
        lemma_eligible_indices_eligible(llms, (n - 1) as nat, filter, need_model_path);
        assert forall|j: int| 0 <= j < full.len() implies {
            let i = #[trigger] full[j];
            i < n && eligible(llms[i as int], filter, need_model_path)
        } by {
            if eligible(llms[n - 1], filter, need_model_path) {
                assert(full == rest.push((n - 1) as usize));
                if j < rest.len() {
                    assert(full[j] == rest[j]);
                } else {
                    assert(full[j] == (n - 1) as usize);
                }
            } else {
                assert(full == rest);
            }
        }
    }
}

/// What `keep` lists is a member of the pool, with the property.
pub proof fn lemma_keep_members(llms: Seq<LLM>, w: Seq<usize>, t: LlmTest)
    ensures
        forall|j: int|
            0 <= j < keep(llms, w, t).len() ==> w.contains(#[trigger] keep(llms, w, t)[j])
                && test_holds(llms[keep(llms, w, t)[j] as int], t),
    decreases w.len(),
{
    if w.len() > 0 {
        let rest = keep(llms, w.drop_last(), t);
        let full = keep(llms, w, t);
        lemma_keep_members(llms, w.drop_last(), t);
        assert forall|j: int| 0 <= j < full.len() implies w.contains(#[trigger] full[j])
            && test_holds(llms[full[j] as int], t) by {
            if j < rest.len() {
                assert(full[j] == rest[j]);
                let x = rest[j];
                assert(w.drop_last().contains(x));
                let k = choose|k: int| 0 <= k < w.drop_last().len() && w.drop_last()[k] == x;
                assert(w[k] == x);
            } else {
                assert(full[j] == w.last());
                assert(w[w.len() - 1] == w.last());
            }
        }
    }
}

/// The highest-scoring pick is a member of the pool.
pub proof fn lemma_pick_last_max_member(llms: Seq<LLM>, w: Seq<usize>, c: CapabilityType)
    requires
        w.len() >= 1,
    ensures
        w.contains(pick_last_max(llms, w, c)),
    decreases w.len(),
{
    if w.len() == 1 {
        assert(w[0] == pick_last_max(llms, w, c));
    } else {
        lemma_pick_last_max_member(llms, w.drop_last(), c);
        let x = pick_last_max(llms, w.drop_last(), c);
        let k = choose|k: int| 0 <= k < w.drop_last().len() && w.drop_last()[k] == x;
        assert(w[k] == x);
        assert(w[w.len() - 1] == w.last());
    }
}

/// Narrowing keeps to members of the pool.
pub proof fn lemma_narrow_members(llms: Seq<LLM>, w: Seq<usize>, t: LlmTest)
    ensures
        forall|x: usize| narrow(llms, w, t).contains(x) ==> w.contains(x),
{
    lemma_keep_members(llms, w, t);
    assert forall|x: usize| narrow(llms, w, t).contains(x) implies w.contains(x) by {
        if keep(llms, w, t).len() > 0 {
            let k = choose|k: int|
                0 <= k < keep(llms, w, t).len() && keep(llms, w, t)[k] == x;
            assert(w.contains(keep(llms, w, t)[k]));
        }
    }
}

/// The preferences keep to members of the pool.
pub proof fn lemma_preferred_pool_members(llms: Seq<LLM>, w: Seq<usize>, p: LLMPreference)
    ensures
        forall|x: usize| preferred_pool(llms, w, p).contains(x) ==> w.contains(x),
{
    let w1 = match p.local {
        Some(b) => narrow(llms, w, LlmTest::Local(b)),
        None => w,
    };
    if let Some(b) = p.local {
        lemma_narrow_members(llms, w, LlmTest::Local(b));
    }
    if let Some(fam) = p.family_id {
        lemma_narrow_members(llms, w1, LlmTest::Family(fam));
    }
}

/// Whatever the choice is, it is one of the pool.
pub proof fn lemma_select_llm_member(llms: Seq<LLM>, w: Seq<usize>, pref: Option<LLMPreference>)
    ensures
        select_llm(llms, w, pref) matches Some(i) ==> w.contains(i),
{
    if w.len() >= 2 {
        match pref {
            None => lemma_pick_last_max_member(llms, w, CapabilityType::General),
            Some(p) => {
                if let Some(u) = p.llm_uuid {
                    lemma_keep_members(llms, w, LlmTest::Uuid(u));
                }
                if let Some(id) = p.llm_id {
                    lemma_keep_members(llms, w, LlmTest::Id(id));
                }
                lemma_preferred_pool_nonempty(llms, w, p);
                lemma_pick_last_max_member(llms, preferred_pool(llms, w, p), ranking_capability(pref));
                lemma_preferred_pool_members(llms, w, p);
            },
        }
    } else if w.len() == 1 {
        assert(w[0] == w.first());
    }
}

/// Every LLM among the first `n` that may be picked is listed.
pub proof fn lemma_eligible_indices_complete(
    llms: Seq<LLM>,
    n: nat,
    filter: Option<LLMFilter>,
    need_model_path: bool,
)
    requires
        n <= llms.len() <= usize::MAX,
    ensures
        forall|j: int|
            0 <= j < n && eligible(#[trigger] llms[j], filter, need_model_path)
                ==> eligible_indices(llms, n, filter, need_model_path).contains(j as usize),
    decreases n,
{
    if n > 0 {
        let rest = eligible_indices(llms, (n - 1) as nat, filter, need_model_path);
        let full = eligible_indices(llms, n, filter, need_model_path);
        lemma_eligible_indices_complete(llms, (n - 1) as nat, filter, need_model_path);
        assert forall|j: int|
            0 <= j < n && eligible(#[trigger] llms[j], filter, need_model_path) implies full.contains(
            j as usize,
        ) by {
            if eligible(llms[n - 1], filter, need_model_path) {
                assert(full == rest.push((n - 1) as usize));
                if j < n - 1 {
                    let k = choose|k: int| 0 <= k < rest.len() && rest[k] == j as usize;
                    assert(full[k] == j as usize);
                } else {
                    assert(full[rest.len() as int] == j as usize);
                }
            } else {
                assert(full == rest);
            }
        }
    }
}

/// The highest-scoring pick scores at least as high as every candidate.
pub proof fn lemma_pick_last_max_is_max(llms: Seq<LLM>, w: Seq<usize>, c: CapabilityType)
    requires
        w.len() >= 1,
    ensures
        forall|j: int|
            0 <= j < w.len() ==> capability_score(llms[#[trigger] w[j] as int], c)
                <= capability_score(llms[pick_last_max(llms, w, c) as int], c),
    decreases w.len(),
{
    if w.len() > 1 {
        lemma_pick_last_max_is_max(llms, w.drop_last(), c);
        assert forall|j: int| 0 <= j < w.len() implies capability_score(
            llms[#[trigger] w[j] as int],
            c,
        ) <= capability_score(llms[pick_last_max(llms, w, c) as int], c) by {
            if j < w.len() - 1 {
                assert(w[j] == w.drop_last()[j]);
            } else {
                assert(w[j] == w.last());
            }
        }
    }
}

// ---------------------------------------------------------------------
// What the selection promises
// ---------------------------------------------------------------------

/// Whatever LLM is picked passes the caller's filter (and has a model file
/// where one is needed).
pub proof fn chosen_llm_passes_filter(
    llms: Seq<LLM>,
    filter: Option<LLMFilter>,
    pref: Option<LLMPreference>,
    need_model_path: bool,
)
    requires
        llms.len() <= usize::MAX,
    ensures
        select_llm(llms, eligible_indices(llms, llms.len(), filter, need_model_path), pref) matches Some(i)
            ==> i < llms.len() && eligible(llms[i as int], filter, need_model_path),
{
    let w = eligible_indices(llms, llms.len(), filter, need_model_path);
    lemma_eligible_indices_eligible(llms, llms.len(), filter, need_model_path);
    lemma_select_llm_member(llms, w, pref);
    if let Some(i) = select_llm(llms, w, pref) {
        let k = choose|k: int| 0 <= k < w.len() && w[k] == i;
        assert(w[k] == i);
    }
}

/// No LLM is picked exactly when no LLM passes the filter (the request is
/// then answered Not Found).
pub proof fn nothing_chosen_iff_no_candidate(
    llms: Seq<LLM>,
    filter: Option<LLMFilter>,
    pref: Option<LLMPreference>,
    need_model_path: bool,
)
    requires
        llms.len() <= usize::MAX,
    ensures
        select_llm(llms, eligible_indices(llms, llms.len(), filter, need_model_path), pref) is None
            <==> (forall|j: int| 0 <= j < llms.len() ==> !eligible(#[trigger] llms[j], filter, need_model_path)),
{
    let w = eligible_indices(llms, llms.len(), filter, need_model_path);
    lemma_eligible_indices_eligible(llms, llms.len(), filter, need_model_path);
    lemma_eligible_indices_complete(llms, llms.len(), filter, need_model_path);
    if w.len() > 0 {
        let i = w[0];
        assert(eligible(llms[i as int], filter, need_model_path));
    }
    assert forall|j: int| 0 <= j < llms.len() && w.len() == 0 implies !eligible(
        #[trigger] llms[j],
        filter,
        need_model_path,
    ) by {
        if eligible(llms[j], filter, need_model_path) {
            assert(w.contains(j as usize));
        }
    }
}

/// With a single LLM passing the filter, that LLM is picked whatever the
/// preferences.
pub proof fn only_candidate_is_chosen(
    llms: Seq<LLM>,
    filter: Option<LLMFilter>,
    pref: Option<LLMPreference>,
    need_model_path: bool,
)
    requires
        eligible_indices(llms, llms.len(), filter, need_model_path).len() == 1,
    ensures
        select_llm(llms, eligible_indices(llms, llms.len(), filter, need_model_path), pref)
            == Some(eligible_indices(llms, llms.len(), filter, need_model_path)[0]),
{
}

/// Without preferences, the LLM picked scores at least as high in the
/// `general` capability as every LLM that passes the filter.
pub proof fn choice_is_most_capable(
    llms: Seq<LLM>,
    filter: Option<LLMFilter>,
    need_model_path: bool,
)
    requires
        llms.len() <= usize::MAX,
    ensures
        select_llm(llms, eligible_indices(llms, llms.len(), filter, need_model_path), None)
            matches Some(i) ==> forall|j: int|
            0 <= j < llms.len() && eligible(#[trigger] llms[j], filter, need_model_path)
                ==> capability_score(llms[j], CapabilityType::General) <= capability_score(
                llms[i as int],
                CapabilityType::General,
            ),
{
    let w = eligible_indices(llms, llms.len(), filter, need_model_path);
    lemma_eligible_indices_complete(llms, llms.len(), filter, need_model_path);
    if w.len() >= 1 {
        lemma_pick_last_max_is_max(llms, w, CapabilityType::General);
        let i = select_llm(llms, w, None).unwrap();
        assert forall|j: int|
            0 <= j < llms.len() && eligible(#[trigger] llms[j], filter, need_model_path) implies capability_score(
            llms[j],
            CapabilityType::General,
        ) <= capability_score(llms[i as int], CapabilityType::General) by {
            assert(w.contains(j as usize));
            let k = choose|k: int| 0 <= k < w.len() && w[k] == j as usize;
            assert(capability_score(llms[w[k] as int], CapabilityType::General) <= capability_score(
                llms[pick_last_max(llms, w, CapabilityType::General) as int],
                CapabilityType::General,
            ));
            if w.len() == 1 {
                assert(k == 0);
            }
        }
    }
}

/// Whenever an LLM that passes the filter has the preferred UUID, the LLM
/// picked has it.
pub proof fn choice_honours_uuid(
    llms: Seq<LLM>,
    filter: Option<LLMFilter>,
    need_model_path: bool,
    pref: LLMPreference,
    u: u128,
    j: int,
)
    requires
        llms.len() <= usize::MAX,
        pref.llm_uuid == Some(u),
        0 <= j < llms.len(),
        eligible(llms[j], filter, need_model_path),
        llms[j].uuid == u,
    ensures
        select_llm(llms, eligible_indices(llms, llms.len(), filter, need_model_path), Some(pref))
            matches Some(i) && llms[i as int].uuid == u,
{
    let w = eligible_indices(llms, llms.len(), filter, need_model_path);
    lemma_eligible_indices_complete(llms, llms.len(), filter, need_model_path);
    lemma_eligible_indices_eligible(llms, llms.len(), filter, need_model_path);
    assert(w.contains(j as usize));
    if w.len() == 1 {
        assert(w[0] == j as usize);
    } else {
        let hits = keep(llms, w, LlmTest::Uuid(u));
        lemma_keep_all(llms, w, LlmTest::Uuid(u));
        lemma_keep_members(llms, w, LlmTest::Uuid(u));
        assert(test_holds(llms[j], LlmTest::Uuid(u)));
        assert(hits.len() > 0);
        assert(test_holds(llms[hits[0] as int], LlmTest::Uuid(u)));
    }
}

/// Without a preferred UUID, whenever an LLM that passes the filter has
/// the preferred id, the LLM picked has it.
pub proof fn choice_honours_id(
    llms: Seq<LLM>,
    filter: Option<LLMFilter>,
    need_model_path: bool,
    pref: LLMPreference,
    id: String,
    j: int,
)
    requires
        llms.len() <= usize::MAX,
        pref.llm_uuid is None,
        pref.llm_id == Some(id),
        0 <= j < llms.len(),
        eligible(llms[j], filter, need_model_path),
        llms[j].id@ == id@,
    ensures
        select_llm(llms, eligible_indices(llms, llms.len(), filter, need_model_path), Some(pref))
            matches Some(i) && llms[i as int].id@ == id@,
{
    let w = eligible_indices(llms, llms.len(), filter, need_model_path);
    lemma_eligible_indices_complete(llms, llms.len(), filter, need_model_path);
    lemma_eligible_indices_eligible(llms, llms.len(), filter, need_model_path);
    assert(w.contains(j as usize));
    if w.len() == 1 {
        assert(w[0] == j as usize);
    } else {
        let hits = keep(llms, w, LlmTest::Id(id));
        lemma_keep_all(llms, w, LlmTest::Id(id));
        lemma_keep_members(llms, w, LlmTest::Id(id));
        assert(test_holds(llms[j], LlmTest::Id(id)));
        assert(hits.len() > 0);
        assert(test_holds(llms[hits[0] as int], LlmTest::Id(id)));
    }
}

/// Where a member of the pool has the property, narrowing keeps it, and
/// everything narrowing keeps has the property.
proof fn lemma_narrow_to_holders(llms: Seq<LLM>, w: Seq<usize>, t: LlmTest, x: usize)
    requires
        w.contains(x),
        test_holds(llms[x as int], t),
    ensures
        narrow(llms, w, t).contains(x),
        forall|y: usize| #[trigger] narrow(llms, w, t).contains(y) ==> w.contains(y) && test_holds(llms[y as int], t),
{
    lemma_keep_all(llms, w, t);
    lemma_keep_members(llms, w, t);
    let k = keep(llms, w, t);
    assert(k.contains(x));
    assert(k.len() > 0);
    assert forall|y: usize| narrow(llms, w, t).contains(y) implies w.contains(y) && test_holds(
        llms[y as int],
        t,
    ) by {
        let m = choose|m: int| 0 <= m < k.len() && k[m] == y;
        assert(w.contains(k[m]) && test_holds(llms[k[m] as int], t));
    }
}

/// Where no member of the pool has the property, narrowing keeps the pool.
proof fn lemma_narrow_without_holders(llms: Seq<LLM>, w: Seq<usize>, t: LlmTest)
    requires
        forall|y: usize| w.contains(y) ==> !test_holds(llms[y as int], t),
    ensures
        narrow(llms, w, t) == w,
{
    lemma_keep_members(llms, w, t);
    let k = keep(llms, w, t);
    if k.len() > 0 {
        assert(w.contains(k[0]) && test_holds(llms[k[0] as int], t));
    }
}

/// Where a preferred UUID or id is asked for but no candidate has it, the
/// choice is made as if it had not been asked for.
proof fn lemma_no_named_hit(llms: Seq<LLM>, w: Seq<usize>, p: LLMPreference)
    requires
        p.llm_uuid matches Some(u) ==> forall|y: usize| w.contains(y) ==> llms[y as int].uuid != u,
        p.llm_id matches Some(id) ==> forall|y: usize| w.contains(y) ==> llms[y as int].id@ != id@,
        w.len() >= 2,
    ensures
        select_llm(llms, w, Some(p)) == Some(
            pick_last_max(llms, preferred_pool(llms, w, p), ranking_capability(Some(p))),
        ),
{
    if let Some(u) = p.llm_uuid {
        lemma_keep_members(llms, w, LlmTest::Uuid(u));
        let k = keep(llms, w, LlmTest::Uuid(u));
        if k.len() > 0 {
            assert(w.contains(k[0]) && test_holds(llms[k[0] as int], LlmTest::Uuid(u)));
        }
    }
    if let Some(id) = p.llm_id {
        lemma_keep_members(llms, w, LlmTest::Id(id));
        let k = keep(llms, w, LlmTest::Id(id));
        if k.len() > 0 {
            assert(w.contains(k[0]) && test_holds(llms[k[0] as int], LlmTest::Id(id)));
        }
    }
}

/// Whether an LLM is left after the preference for locality: it is, where
/// no locality is preferred, where it has the preferred one, or where no
/// LLM that passes the filter has it.
pub open spec fn left_after_local(
    llms: Seq<LLM>,
    filter: Option<LLMFilter>,
    need_model_path: bool,
    pref: LLMPreference,
    j: int,
) -> bool {
    match pref.local {
        None => true,
        Some(b) => llms[j].local == b || forall|k: int|
            0 <= k < llms.len() && eligible(#[trigger] llms[k], filter, need_model_path) ==> llms[k].local != b,
    }
}

/// Where no LLM that passes the filter has the preferred UUID or id (or
/// none is asked for), an LLM that passes the filter, is left after the
/// preference for locality and is of the preferred family makes the LLM
/// picked one of that family.
pub proof fn choice_honours_family(
    llms: Seq<LLM>,
    filter: Option<LLMFilter>,
    need_model_path: bool,
    pref: LLMPreference,
    fam: String,
    j: int,
)
    requires
        llms.len() <= usize::MAX,
        pref.family_id == Some(fam),
        pref.llm_uuid matches Some(u) ==> forall|k: int|
            0 <= k < llms.len() && eligible(#[trigger] llms[k], filter, need_model_path) ==> llms[k].uuid != u,
        pref.llm_id matches Some(id) ==> forall|k: int|
            0 <= k < llms.len() && eligible(#[trigger] llms[k], filter, need_model_path) ==> llms[k].id@ != id@,
        0 <= j < llms.len(),
        eligible(llms[j], filter, need_model_path),
        left_after_local(llms, filter, need_model_path, pref, j),
        llms[j].family_id@ == fam@,
    ensures
        select_llm(llms, eligible_indices(llms, llms.len(), filter, need_model_path), Some(pref))
            matches Some(i) && llms[i as int].family_id@ == fam@,
{
    let w = eligible_indices(llms, llms.len(), filter, need_model_path);
    lemma_eligible_indices_complete(llms, llms.len(), filter, need_model_path);
    lemma_eligible_indices_eligible(llms, llms.len(), filter, need_model_path);
    assert(w.contains(j as usize));
    assert forall|y: usize| w.contains(y) implies y < llms.len() && eligible(
        llms[y as int],
        filter,
        need_model_path,
    ) by {
        let m = choose|m: int| 0 <= m < w.len() && w[m] == y;
        assert(w[m] == y);
    }
    if w.len() == 1 {
        assert(w[0] == j as usize);
    } else {
        lemma_no_named_hit(llms, w, pref);
        let w1 = match pref.local {
            Some(b) => narrow(llms, w, LlmTest::Local(b)),
            None => w,
        };
        if let Some(b) = pref.local {
            if llms[j].local == b {
                lemma_narrow_to_holders(llms, w, LlmTest::Local(b), j as usize);
            } else {
                assert forall|y: usize| w.contains(y) implies !test_holds(
                    llms[y as int],
                    LlmTest::Local(b),
                ) by {
                    assert(eligible(llms[y as int], filter, need_model_path));
                }
                lemma_narrow_without_holders(llms, w, LlmTest::Local(b));
            }
        }
        assert(w1.contains(j as usize));
        lemma_narrow_to_holders(llms, w1, LlmTest::Family(fam), j as usize);
        let pool = preferred_pool(llms, w, pref);
        assert(pool == narrow(llms, w1, LlmTest::Family(fam)));
        lemma_pick_last_max_member(llms, pool, ranking_capability(Some(pref)));
        let i = pick_last_max(llms, pool, ranking_capability(Some(pref)));
        assert(pool.contains(i));
        assert(w1.contains(i));
        if let Some(b) = pref.local {
            lemma_narrow_members(llms, w, LlmTest::Local(b));
        }
        assert(w.contains(i));
        assert(test_holds(llms[i as int], LlmTest::Family(fam)));
    }
}

/// Where no LLM that passes the filter has the preferred UUID or id (or
/// none is asked for), and some LLM that passes the filter has the
/// preferred locality, the LLM picked has it.
pub proof fn choice_honours_local(
    llms: Seq<LLM>,
    filter: Option<LLMFilter>,
    need_model_path: bool,
    pref: LLMPreference,
    b: bool,
    j: int,
)
    requires
        llms.len() <= usize::MAX,
        pref.local == Some(b),
        pref.llm_uuid matches Some(u) ==> forall|k: int|
            0 <= k < llms.len() && eligible(#[trigger] llms[k], filter, need_model_path) ==> llms[k].uuid != u,
        pref.llm_id matches Some(id) ==> forall|k: int|
            0 <= k < llms.len() && eligible(#[trigger] llms[k], filter, need_model_path) ==> llms[k].id@ != id@,
        0 <= j < llms.len(),
        eligible(llms[j], filter, need_model_path),
        llms[j].local == b,
    ensures
        select_llm(llms, eligible_indices(llms, llms.len(), filter, need_model_path), Some(pref))
            matches Some(i) && llms[i as int].local == b,
{
    let w = eligible_indices(llms, llms.len(), filter, need_model_path);
    lemma_eligible_indices_complete(llms, llms.len(), filter, need_model_path);
    lemma_eligible_indices_eligible(llms, llms.len(), filter, need_model_path);
    assert(w.contains(j as usize));
    assert forall|y: usize| w.contains(y) implies y < llms.len() && eligible(
        llms[y as int],
        filter,
        need_model_path,
    ) by {
        let m = choose|m: int| 0 <= m < w.len() && w[m] == y;
        assert(w[m] == y);
    }
    if w.len() == 1 {
        assert(w[0] == j as usize);
    } else {
        lemma_no_named_hit(llms, w, pref);
        let w1 = narrow(llms, w, LlmTest::Local(b));
        lemma_narrow_to_holders(llms, w, LlmTest::Local(b), j as usize);
        let pool = preferred_pool(llms, w, pref);
        if let Some(fam) = pref.family_id {
            lemma_narrow_members(llms, w1, LlmTest::Family(fam));
        }
        assert(forall|y: usize| pool.contains(y) ==> w1.contains(y));
        lemma_preferred_pool_nonempty(llms, w, pref);
        lemma_pick_last_max_member(llms, pool, ranking_capability(Some(pref)));
        let i = pick_last_max(llms, pool, ranking_capability(Some(pref)));
        assert(w1.contains(i));
        assert(w.contains(i) && test_holds(llms[i as int], LlmTest::Local(b)));
    }
}

/// Where no LLM that passes the filter has the preferred UUID or id (or
/// none is asked for), and neither locality nor family is preferred, the
/// LLM picked scores at least as high in the preferred capability (else
/// `general`) as every LLM that passes the filter.
pub proof fn choice_ranks_by_preferred_capability(
    llms: Seq<LLM>,
    filter: Option<LLMFilter>,
    need_model_path: bool,
    pref: LLMPreference,
)
    requires
        llms.len() <= usize::MAX,
        pref.local is None,
        pref.family_id is None,
        pref.llm_uuid matches Some(u) ==> forall|k: int|
            0 <= k < llms.len() && eligible(#[trigger] llms[k], filter, need_model_path) ==> llms[k].uuid != u,
        pref.llm_id matches Some(id) ==> forall|k: int|
            0 <= k < llms.len() && eligible(#[trigger] llms[k], filter, need_model_path) ==> llms[k].id@ != id@,
    ensures
        select_llm(llms, eligible_indices(llms, llms.len(), filter, need_model_path), Some(pref))
            matches Some(i) ==> forall|j: int|
            0 <= j < llms.len() && eligible(#[trigger] llms[j], filter, need_model_path)
                ==> capability_score(llms[j], ranking_capability(Some(pref))) <= capability_score(
                llms[i as int],
                ranking_capability(Some(pref)),
            ),
{
    let c = ranking_capability(Some(pref));
    let w = eligible_indices(llms, llms.len(), filter, need_model_path);
    lemma_eligible_indices_complete(llms, llms.len(), filter, need_model_path);
    lemma_eligible_indices_eligible(llms, llms.len(), filter, need_model_path);
    assert forall|y: usize| w.contains(y) implies y < llms.len() && eligible(
        llms[y as int],
        filter,
        need_model_path,
    ) by {
        let m = choose|m: int| 0 <= m < w.len() && w[m] == y;
        assert(w[m] == y);
    }
    if w.len() >= 1 {
        let i = select_llm(llms, w, Some(pref)).unwrap();
        if w.len() >= 2 {
            lemma_no_named_hit(llms, w, pref);
            assert(preferred_pool(llms, w, pref) == w);
        }
        lemma_pick_last_max_is_max(llms, w, c);
        assert forall|j: int|
            0 <= j < llms.len() && eligible(#[trigger] llms[j], filter, need_model_path) implies capability_score(
            llms[j],
            c,
        ) <= capability_score(llms[i as int], c) by {
            assert(w.contains(j as usize));
            let k = choose|k: int| 0 <= k < w.len() && w[k] == j as usize;
            assert(capability_score(llms[w[k] as int], c) <= capability_score(
                llms[pick_last_max(llms, w, c) as int],
                c,
            ));
            if w.len() == 1 {
                assert(k == 0);
            }
        }
    }
}

/// Every member of the pool with the property is kept.
pub proof fn lemma_keep_all(llms: Seq<LLM>, w: Seq<usize>, t: LlmTest)
    ensures
        forall|x: usize| w.contains(x) && test_holds(llms[x as int], t) ==> keep(llms, w, t).contains(x),
    decreases w.len(),
{
    if w.len() > 0 {
        lemma_keep_all(llms, w.drop_last(), t);
        let rest = keep(llms, w.drop_last(), t);
        assert forall|x: usize| w.contains(x) && test_holds(llms[x as int], t) implies keep(
            llms,
            w,
            t,
        ).contains(x) by {
            let k = choose|k: int| 0 <= k < w.len() && w[k] == x;
            if k < w.len() - 1 {
                assert(w.drop_last()[k] == x);
                assert(w.drop_last().contains(x));
                let m = choose|m: int| 0 <= m < rest.len() && rest[m] == x;
                if test_holds(llms[w.last() as int], t) {
                    assert(keep(llms, w, t) == rest.push(w.last()));
                    assert(keep(llms, w, t)[m] == x);
                } else {
                    assert(keep(llms, w, t) == rest);
                }
            } else {
                assert(w.last() == x);
                assert(keep(llms, w, t) == rest.push(w.last()));
                assert(keep(llms, w, t)[rest.len() as int] == x);
            }
        }
    }
}

} // verus!
