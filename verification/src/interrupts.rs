use vstd::prelude::*;
use tokio_util::sync::CancellationToken;
use dashmap::DashMap;
use crate::cancel_log::CancelLog;

verus! {

/// The token type of `tokio_util`, which stops a running inference when
/// cancelled. Verus sees nothing inside it.
#[verifier::external_type_specification]
#[verifier::external_body]
pub struct ExCancellationToken(CancellationToken);

/// Calls `CancellationToken::is_cancelled`. The answer depends on what other
/// tasks did to the token's clones, so nothing is claimed of it.
#[verifier::external_body]
pub(crate) fn token_is_cancelled(token: &CancellationToken) -> (r: bool) {
    token.is_cancelled()
}

/// A session of a user: (session id, user id), as 128-bit UUID values.
pub type SessionKey = (u128, u128);

/// The concurrent map of `dashmap`. Verus sees nothing inside it.
#[verifier::external_type_specification]
#[verifier::external_body]
#[verifier::reject_recursive_types(K)]
#[verifier::reject_recursive_types(V)]
#[verifier::reject_recursive_types(S)]
pub struct ExDashMap<K, V, S>(DashMap<K, V, S>);

/// The cancellation tokens on record for each session. `DashMap` changes
/// through shared references; the wrappers below that change it take it by
/// `&mut`, so that each change shows in the map's contents as Verus sees
/// them.
pub type TokenMap = DashMap<SessionKey, Vec<CancellationToken>>;

/// The token lists a map of sessions holds, each list as a sequence.
pub uninterp spec fn session_token_lists(m: TokenMap) -> Map<
    SessionKey,
    Seq<CancellationToken>,
>;

/// Calls `DashMap::remove` on the key and hands out the list it removed.
/// Claimed: the key leaves the map and every other entry stays as it was;
/// a list comes back exactly when the key was present, and it is the list
/// the key had.
#[verifier::external_body]
fn take_list(map: &mut TokenMap, key: SessionKey) -> (r: Option<Vec<CancellationToken>>)
    ensures
        session_token_lists(*final(map)) == session_token_lists(*old(map)).remove(key),
        r is Some <==> session_token_lists(*old(map)).contains_key(key),
        r matches Some(list) ==> list@ == session_token_lists(*old(map))[key],
{
    map.remove(&key).map(|(_, list)| list)
}

/// Calls `DashMap::insert`. Claimed: the key now holds the list and every
/// other entry stays as it was; the list it replaced, if the key was
/// present, comes back.
#[verifier::external_body]
fn put_list(map: &mut TokenMap, key: SessionKey, list: Vec<CancellationToken>) -> (r: Option<
    Vec<CancellationToken>,
>)
    ensures
        session_token_lists(*final(map)) == session_token_lists(*old(map)).insert(key, list@),
        r is Some <==> session_token_lists(*old(map)).contains_key(key),
        r matches Some(prev) ==> prev@ == session_token_lists(*old(map))[key],
{
    map.insert(key, list)
}

/// Calls `DashMap::get` and gives the length of the list it finds.
/// Claimed: a length comes back exactly when the key is present, and it is
/// that of the key's list.
#[verifier::external_body]
fn list_len(map: &TokenMap, key: SessionKey) -> (r: Option<usize>)
    ensures
        r is Some <==> session_token_lists(*map).contains_key(key),
        r matches Some(n) ==> n == session_token_lists(*map)[key].len(),
{
    map.get(&key).map(|entry| entry.len())
}

/// Calls `DashMap::new`. Claimed: the new map holds nothing.
#[verifier::external_body]
fn new_token_map() -> (map: TokenMap)
    ensures
        session_token_lists(map).dom() == Set::<SessionKey>::empty(),
{
    DashMap::new()
}

/// Interrupting a session with no token on record.
#[derive(Debug, Clone, Copy, PartialEq, Eq)]
pub enum InterruptError {
    TokenMissing,
}

impl InterruptError {
    /// What a caller is told of the error.
    pub fn display_text(&self) -> (r: &'static str)
        ensures
            r@ == "Other Error: \"Cancellation token missing\""@,
    {
        "Other Error: \"Cancellation token missing\""
    }
}

/// The table after a token is recorded for a session: appended to the
/// session's list, or starting one.
pub open spec fn after_register(
    m: Map<SessionKey, Seq<CancellationToken>>,
    key: SessionKey,
    token: CancellationToken,
) -> Map<SessionKey, Seq<CancellationToken>> {
    if m.contains_key(key) {
        m.insert(key, m[key].push(token))
    } else {
        m.insert(key, seq![token])
    }
}

/// What interrupting a session answers: an error when no list is on
/// record, else whether the list held any token.
pub open spec fn interrupt_outcome(m: Map<SessionKey, Seq<CancellationToken>>, key: SessionKey) -> Result<
    bool,
    InterruptError,
> {
    if !m.contains_key(key) {
        Err(InterruptError::TokenMissing)
    } else {
        Ok(m[key].len() > 0)
    }
}

/// The tokens on record for a session; none when it has no list.
pub open spec fn tokens_of(m: Map<SessionKey, Seq<CancellationToken>>, key: SessionKey) -> Seq<
    CancellationToken,
> {
    if m.contains_key(key) {
        m[key]
    } else {
        Seq::empty()
    }
}

/// The table after interrupting a session: its list emptied, if it had one.
pub open spec fn after_interrupt(m: Map<SessionKey, Seq<CancellationToken>>, key: SessionKey) -> Map<
    SessionKey,
    Seq<CancellationToken>,
> {
    if m.contains_key(key) {
        m.insert(key, Seq::empty())
    } else {
        m
    }
}

/// The cancellation tokens of the inferences running for each session of
/// each user, so that a user can stop them.
pub struct InterruptTable {
    tokens: TokenMap,
    log: CancelLog,
}

impl View for InterruptTable {
    type V = Map<SessionKey, Seq<CancellationToken>>;

    closed spec fn view(&self) -> Map<SessionKey, Seq<CancellationToken>> {
        session_token_lists(self.tokens)
    }
}

impl InterruptTable {
    /// Every token this table has cancelled, in the order it cancelled them.
    pub closed spec fn cancelled(&self) -> Seq<CancellationToken> {
        self.log.tokens()
    }

    /// The empty table.
    pub fn new() -> (t: InterruptTable)
        ensures
            t@ == Map::<SessionKey, Seq<CancellationToken>>::empty(),
            t.cancelled() == Seq::<CancellationToken>::empty(),
    {
        let t = InterruptTable { tokens: new_token_map(), log: CancelLog::new() };
        assert(t@ =~= Map::<SessionKey, Seq<CancellationToken>>::empty());
        t
    }

    /// The number of tokens on record for a session, if it has a list.
    pub fn token_count(&self, key: SessionKey) -> (r: Option<usize>)
        ensures
            r is Some <==> self@.contains_key(key),
            r matches Some(n) ==> n == self@[key].len(),
    {
        list_len(&self.tokens, key)
    }

    /// Records the token of an inference started in a session.
    pub fn register(&mut self, key: SessionKey, token: CancellationToken)
        ensures
            final(self)@ == after_register(old(self)@, key, token),
            final(self).cancelled() == old(self).cancelled(),
    {
        let ghost before = self@;
        let list = match take_list(&mut self.tokens, key) {
            Some(list) => {
                let mut list = list;
                list.push(token);
                list
            },
            None => {
                let mut list: Vec<CancellationToken> = Vec::new();
                list.push(token);
                proof {
                    assert(list@ =~= seq![token]);
                }
                list
            },
        };
        let _ = put_list(&mut self.tokens, key, list);
        proof {
            assert(self@ =~= after_register(before, key, token));
        }
    }

    /// Cancels every token on record for a session and empties its list.
    /// Answers whether there was any token; a session with no list on
    /// record is an error, and the table stays as it was.
    pub fn interrupt(&mut self, key: SessionKey) -> (r: Result<bool, InterruptError>)
        ensures
            r == interrupt_outcome(old(self)@, key),
            final(self)@ == after_interrupt(old(self)@, key),
            final(self).cancelled() == old(self).cancelled() + tokens_of(old(self)@, key),
    {
        let ghost before = self@;
        match take_list(&mut self.tokens, key) {
            None => {
                proof {
                    assert(self@ =~= before);
                    assert(self.cancelled() =~= self.cancelled() + tokens_of(before, key));
                }
                Err(InterruptError::TokenMissing)
            },
            Some(list) => {
                let n = list.len();
                let mut j: usize = 0;
                while j < n
                    invariant
                        j <= n,
                        n == list@.len(),
                        list@ == before[key],
                        self@ == before.remove(key),
                        self.cancelled() == old(self).cancelled() + list@.take(j as int),
                    decreases n - j,
                {
                    self.log.cancel(&list[j]);
                    proof {
                        assert(list@.take(j + 1) == list@.take(j as int).push(list@[j as int]));
                    }
                    j = j + 1;
                }
                proof {
                    assert(list@.take(n as int) == list@);
                }
                let _ = put_list(&mut self.tokens, key, Vec::new());
                proof {
                    assert(self@ =~= after_interrupt(before, key));
                }
                Ok(n > 0)
            },
        }
    }
}

/// Interrupting a session right after an inference was started in it stops
/// that inference: the answer is `true`, its token is among those the
/// interrupt cancels, and the session's list is left empty.
pub proof fn interrupt_after_start(
    m: Map<SessionKey, Seq<CancellationToken>>,
    key: SessionKey,
    token: CancellationToken,
)
    ensures
        interrupt_outcome(after_register(m, key, token), key) == Ok::<bool, InterruptError>(true),
        tokens_of(after_register(m, key, token), key).contains(token),
        after_interrupt(after_register(m, key, token), key)[key] == Seq::<CancellationToken>::empty(),
{
    let list = tokens_of(after_register(m, key, token), key);
    assert(list[list.len() - 1] == token);
}

/// Interrupting a session a second time stops nothing: the answer is
/// `false` where the first found tokens on record, and the table stays as
/// the first interrupt left it.
pub proof fn interrupt_twice(m: Map<SessionKey, Seq<CancellationToken>>, key: SessionKey)
    ensures
        m.contains_key(key) ==> interrupt_outcome(after_interrupt(m, key), key) == Ok::<
            bool,
            InterruptError,
        >(false),
        !m.contains_key(key) ==> interrupt_outcome(after_interrupt(m, key), key) == Err::<
            bool,
            InterruptError,
        >(InterruptError::TokenMissing),
        after_interrupt(after_interrupt(m, key), key) == after_interrupt(m, key),
{
    if m.contains_key(key) {
        assert(after_interrupt(after_interrupt(m, key), key) =~= after_interrupt(m, key));
    }
}

/// Starting or interrupting inferences in one session leaves the tokens of
/// every other session as they were.
pub proof fn other_sessions_untouched(
    m: Map<SessionKey, Seq<CancellationToken>>,
    key: SessionKey,
    token: CancellationToken,
    other: SessionKey,
)
    requires
        other != key,
    ensures
        after_register(m, key, token).contains_key(other) == m.contains_key(other),
        after_interrupt(m, key).contains_key(other) == m.contains_key(other),
        m.contains_key(other) ==> after_register(m, key, token)[other] == m[other]
            && after_interrupt(m, key)[other] == m[other],
{
}

} // verus!
