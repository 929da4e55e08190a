use vstd::prelude::*;
use crate::connectors::LLMConnectorType;
use crate::interrupts::{
    after_interrupt, after_register, interrupt_outcome, tokens_of, InterruptError, InterruptTable,
};
use crate::string_map::{duplicate_all, Duplicate, StrMap};
use crate::user::User;
use tokio_util::sync::CancellationToken;

verus! {

/// A parameter value. `Text` holds the contents of a JSON string; `Json`
/// holds the JSON text of any other value (numbers, booleans, arrays...).
#[derive(Debug, Clone, PartialEq, Eq)]
pub enum ParamValue {
    Text(String),
    Json(String),
}

impl Duplicate for ParamValue {
    fn duplicate(&self) -> (r: ParamValue) {
        match self {
            ParamValue::Text(s) => ParamValue::Text(s.clone()),
            ParamValue::Json(s) => ParamValue::Json(s.clone()),
        }
    }
}

impl ParamValue {
    /// The string inside, for a JSON string value.
    pub fn as_text(&self) -> (r: Option<&String>)
        ensures
            r matches Some(s) ==> *self == ParamValue::Text(*s),
            r is None <==> !(*self is Text),
    {
        match self {
            ParamValue::Text(s) => Some(s),
            ParamValue::Json(_) => None,
        }
    }
}

/// A downloaded LLM as stored in the database. Times are microseconds
/// since the Unix epoch; `uuid` is the 128-bit value of the LLM's UUID.
pub struct LLM {
    pub id: String,
    pub family_id: String,
    pub organization: String,
    pub name: String,
    pub homepage: String,
    pub description: String,
    pub license: String,
    pub downloaded_reason: String,
    pub downloaded_date: i64,
    pub last_called: Option<i64>,
    /// 0 is not capable, -1 is not evaluated.
    pub capabilities: StrMap<i64>,
    pub tags: Vec<String>,
    pub requirements: String,
    pub uuid: u128,
    pub url: String,
    pub local: bool,
    pub connector_type: LLMConnectorType,
    pub config: StrMap<ParamValue>,
    pub model_path: Option<String>,
    /// Parameters fixed by the LLM's author, sent with every prompt.
    pub parameters: StrMap<ParamValue>,
    /// Names of the parameters a caller may override per prompt.
    pub user_parameters: Vec<String>,
    /// Parameters fixed by the LLM's author, sent when a session starts.
    pub session_parameters: StrMap<ParamValue>,
    /// Names of the session parameters a caller may override.
    pub user_session_parameters: Vec<String>,
}

impl LLM {
    /// A copy of the LLM's record.
    pub fn duplicate(&self) -> (r: LLM)
        ensures
            r.id == self.id,
            r.family_id == self.family_id,
            r.organization == self.organization,
            r.name == self.name,
            r.homepage == self.homepage,
            r.description == self.description,
            r.license == self.license,
            r.downloaded_reason == self.downloaded_reason,
            r.downloaded_date == self.downloaded_date,
            r.last_called == self.last_called,
            r.capabilities@ == self.capabilities@,
            r.tags@ == self.tags@,
            r.requirements == self.requirements,
            r.uuid == self.uuid,
            r.url == self.url,
            r.local == self.local,
            r.connector_type == self.connector_type,
            r.config@ == self.config@,
            r.model_path == self.model_path,
            r.parameters@ == self.parameters@,
            r.user_parameters@ == self.user_parameters@,
            r.session_parameters@ == self.session_parameters@,
            r.user_session_parameters@ == self.user_session_parameters@,
    {
        LLM {
            id: self.id.clone(),
            family_id: self.family_id.clone(),
            organization: self.organization.clone(),
            name: self.name.clone(),
            homepage: self.homepage.clone(),
            description: self.description.clone(),
            license: self.license.clone(),
            downloaded_reason: self.downloaded_reason.clone(),
            downloaded_date: self.downloaded_date,
            last_called: self.last_called,
            capabilities: self.capabilities.duplicate(),
            tags: duplicate_all(&self.tags),
            requirements: self.requirements.clone(),
            uuid: self.uuid,
            url: self.url.clone(),
            local: self.local,
            connector_type: self.connector_type,
            config: self.config.duplicate(),
            model_path: match &self.model_path {
                Some(p) => Some(p.clone()),
                None => None,
            },
            parameters: self.parameters.duplicate(),
            user_parameters: duplicate_all(&self.user_parameters),
            session_parameters: self.session_parameters.duplicate(),
            user_session_parameters: duplicate_all(&self.user_session_parameters),
        }
    }
}

/// The names in a list of strings.
pub open spec fn name_set(names: Seq<String>) -> Set<Seq<char>> {
    Set::new(|k: Seq<char>| exists|i: int| 0 <= i < names.len() && #[trigger] names[i]@ == k)
}

/// The parameters a call runs with: the fixed ones, with every name that
/// callers may override and that the caller supplied taken from the caller.
pub open spec fn armed_parameters(
    fixed: Map<Seq<char>, ParamValue>,
    overridable: Seq<String>,
    supplied: Map<Seq<char>, ParamValue>,
) -> Map<Seq<char>, ParamValue> {
    fixed.union_prefer_right(supplied.restrict(name_set(overridable)))
}

/// A parameter that callers may not override keeps its fixed value,
/// whatever they supply.
pub proof fn fixed_parameters_stay(
    fixed: Map<Seq<char>, ParamValue>,
    overridable: Seq<String>,
    supplied: Map<Seq<char>, ParamValue>,
    k: Seq<char>,
)
    requires
        fixed.contains_key(k),
        !name_set(overridable).contains(k),
    ensures
        armed_parameters(fixed, overridable, supplied).contains_key(k),
        armed_parameters(fixed, overridable, supplied)[k] == fixed[k],
{
}

/// An overridable parameter the caller supplies takes the caller's value.
pub proof fn supplied_parameters_win(
    fixed: Map<Seq<char>, ParamValue>,
    overridable: Seq<String>,
    supplied: Map<Seq<char>, ParamValue>,
    k: Seq<char>,
)
    requires
        name_set(overridable).contains(k),
        supplied.contains_key(k),
    ensures
        armed_parameters(fixed, overridable, supplied).contains_key(k),
        armed_parameters(fixed, overridable, supplied)[k] == supplied[k],
{
}

/// A call runs only with fixed parameters and overridable ones the caller
/// supplied; with nothing supplied it runs with the fixed ones exactly.
pub proof fn no_other_parameters(
    fixed: Map<Seq<char>, ParamValue>,
    overridable: Seq<String>,
    supplied: Map<Seq<char>, ParamValue>,
)
    ensures
        forall|k: Seq<char>| #[trigger] armed_parameters(fixed, overridable, supplied).contains_key(k)
            ==> fixed.contains_key(k) || (name_set(overridable).contains(k) && supplied.contains_key(k)),
        armed_parameters(fixed, overridable, Map::empty()) == fixed,
{
    assert(armed_parameters(fixed, overridable, Map::empty()) =~= fixed);
}

/// Merges the parameters a caller supplied into the fixed ones: a supplied
/// value is taken only under a name listed as overridable; other supplied
/// values are dropped.
pub fn arm_parameters(
    fixed: StrMap<ParamValue>,
    overridable: &Vec<String>,
    supplied: &StrMap<ParamValue>,
) -> (r: StrMap<ParamValue>)
    ensures
        r@ == armed_parameters(fixed@, overridable@, supplied@),
{
    let mut armed = fixed;
    let ghost fixed_view = armed@;
    let mut i: usize = 0;
    while i < overridable.len()
        invariant
            i <= overridable@.len(),
            armed@ == fixed_view.union_prefer_right(
                supplied@.restrict(name_set(overridable@.take(i as int))),
            ),
        decreases overridable@.len() - i,
    {
        let name = &overridable[i];
        let ghost before = armed@;
        let ghost prefix = overridable@.take(i as int);
        let ghost next = overridable@.take(i + 1);
        proof {
            assert(next == prefix.push(*name));
            assert(name_set(next) =~= name_set(prefix).insert(name@)) by {
                assert forall|k: Seq<char>| name_set(next).contains(k) implies name_set(
                    prefix,
                ).insert(name@).contains(k) by {
                    let j = choose|j: int| 0 <= j < next.len() && #[trigger] next[j]@ == k;
                    if j < prefix.len() {
                        assert(prefix[j]@ == k);
                    }
                }
                assert forall|k: Seq<char>| name_set(prefix).insert(name@).contains(
                    k,
                ) implies name_set(next).contains(k) by {
                    if k == name@ {
                        assert(next[i as int]@ == k);
                    } else {
                        let j = choose|j: int| 0 <= j < prefix.len() && #[trigger] prefix[j]@ == k;
                        assert(next[j]@ == k);
                    }
                }
            }
        }
        match supplied.get(name.as_str()) {
            Some(v) => {
                armed.insert(name.clone(), v.duplicate());
                proof {
                    assert(armed@ =~= fixed_view.union_prefer_right(
                        supplied@.restrict(name_set(next)),
                    ));
                }
            },
            None => {
                proof {
                    assert(armed@ =~= fixed_view.union_prefer_right(
                        supplied@.restrict(name_set(next)),
                    ));
                }
            },
        }
        i = i + 1;
    }
    proof {
        assert(overridable@.take(overridable@.len() as int) == overridable@);
    }
    armed
}

/// An LLM whose actor is running: the LLM, why and when it was started
/// (microseconds since the Unix epoch), and the tokens that stop the
/// inferences running in its sessions.
pub struct LLMActivated {
    pub llm: LLM,
    pub activated_reason: String,
    pub activated_time: i64,
    pub interrupts: InterruptTable,
}

impl LLMActivated {
    /// The record of an LLM whose actor was just started at the user's
    /// request, with no inference running.
    pub fn activated(llm: LLM, now: i64) -> (r: LLMActivated)
        ensures
            r.llm == llm,
            r.activated_reason@ == "User request"@,
            r.activated_time == now,
            r.interrupts@ == Map::<(u128, u128), Seq<CancellationToken>>::empty(),
            r.interrupts.cancelled() == Seq::<CancellationToken>::empty(),
    {
        LLMActivated {
            llm,
            activated_reason: String::from_str("User request"),
            activated_time: now,
            interrupts: InterruptTable::new(),
        }
    }

    /// A one-line description: the LLM's id, name and description.
    pub fn info_text(&self) -> (r: String)
        ensures
            r@ == "ID: "@ + self.llm.id@ + ", Name: "@ + self.llm.name@ + ", Description: "@
                + self.llm.description@,
    {
        "ID: ".to_owned().concat(self.llm.id.as_str()).concat(", Name: ").concat(
            self.llm.name.as_str(),
        ).concat(", Description: ").concat(self.llm.description.as_str())
    }

    /// The parameters a new session starts with: the LLM's session
    /// parameters, with the overridable ones the caller supplied.
    pub fn session_parameters_for(&self, supplied: &StrMap<ParamValue>) -> (r: StrMap<ParamValue>)
        ensures
            r@ == armed_parameters(
                self.llm.session_parameters@,
                self.llm.user_session_parameters@,
                supplied@,
            ),
    {
        arm_parameters(
            self.llm.session_parameters.duplicate(),
            &self.llm.user_session_parameters,
            supplied,
        )
    }

    /// The parameters a prompt runs with: the LLM's parameters, with the
    /// overridable ones the caller supplied.
    pub fn prompt_parameters_for(&self, supplied: &StrMap<ParamValue>) -> (r: StrMap<ParamValue>)
        ensures
            r@ == armed_parameters(self.llm.parameters@, self.llm.user_parameters@, supplied@),
    {
        arm_parameters(self.llm.parameters.duplicate(), &self.llm.user_parameters, supplied)
    }

    /// Records the token of an inference that `user` started in a session.
    pub fn track_inference(&mut self, session_id: u128, user: &User, token: CancellationToken)
        ensures
            final(self).llm == old(self).llm,
            final(self).activated_reason == old(self).activated_reason,
            final(self).activated_time == old(self).activated_time,
            final(self).interrupts@ == after_register(
                old(self).interrupts@,
                (session_id, user.id),
                token,
            ),
            final(self).interrupts.cancelled() == old(self).interrupts.cancelled(),
    {
        self.interrupts.register((session_id, user.id), token);
    }

    /// Stops every inference `user` started in a session by cancelling each
    /// of its tokens on record: whether there was one, or an error when the
    /// session has no tokens on record.
    pub fn interrupt_session(&mut self, session_id: u128, user: &User) -> (r: Result<
        bool,
        InterruptError,
    >)
        ensures
            r == interrupt_outcome(old(self).interrupts@, (session_id, user.id)),
            final(self).llm == old(self).llm,
            final(self).activated_reason == old(self).activated_reason,
            final(self).activated_time == old(self).activated_time,
            final(self).interrupts@ == after_interrupt(
                old(self).interrupts@,
                (session_id, user.id),
            ),
            final(self).interrupts.cancelled() == old(self).interrupts.cancelled() + tokens_of(
                old(self).interrupts@,
                (session_id, user.id),
            ),
    {
        self.interrupts.interrupt((session_id, user.id))
    }
}

/// A conversation with a running LLM, as recorded. Times are microseconds
/// since the Unix epoch.
pub struct LLMSession {
    pub id: u128,
    pub started: i64,
    pub last_called: i64,
    pub user_id: u128,
    pub llm_uuid: u128,
    pub session_parameters: StrMap<ParamValue>,
}

impl LLMSession {
    /// The record of a session just started by `user_id` on the LLM
    /// `llm_uuid`, with the parameters it runs with.
    pub fn started_now(
        id: u128,
        llm_uuid: u128,
        user_id: u128,
        now: i64,
        session_parameters: StrMap<ParamValue>,
    ) -> (r: LLMSession)
        ensures
            r.id == id,
            r.llm_uuid == llm_uuid,
            r.user_id == user_id,
            r.started == now,
            r.last_called == now,
            r.session_parameters == session_parameters,
    {
        LLMSession { id, started: now, last_called: now, user_id, llm_uuid, session_parameters }
    }
}

/// One prompt of a session and what the LLM has answered so far.
pub struct LLMHistoryItem {
    pub id: u128,
    pub llm_session_id: u128,
    pub updated_timestamp: i64,
    pub call_timestamp: i64,
    pub complete: bool,
    pub parameters: StrMap<ParamValue>,
    pub input: String,
    pub output: String,
}

impl LLMHistoryItem {
    /// The record of a prompt just sent: nothing answered yet.
    pub fn pending(
        id: u128,
        llm_session_id: u128,
        now: i64,
        parameters: StrMap<ParamValue>,
        input: String,
    ) -> (r: LLMHistoryItem)
        ensures
            r.id == id,
            r.llm_session_id == llm_session_id,
            r.updated_timestamp == now,
            r.call_timestamp == now,
            !r.complete,
            r.parameters == parameters,
            r.input == input,
            r.output@ == Seq::<char>::empty(),
    {
        LLMHistoryItem {
            id,
            llm_session_id,
            updated_timestamp: now,
            call_timestamp: now,
            complete: false,
            parameters,
            input,
            output: String::new(),
        }
    }

    /// The record once the LLM produced `token`: the token appended to the
    /// answer, marked complete or not, updated now.
    pub fn with_token(self, token: &str, complete: bool, now: i64) -> (r: LLMHistoryItem)
        ensures
            r.output@ == self.output@ + token@,
            r.complete == complete,
            r.updated_timestamp == now,
            r.id == self.id,
            r.llm_session_id == self.llm_session_id,
            r.call_timestamp == self.call_timestamp,
            r.parameters == self.parameters,
            r.input == self.input,
    {
        let output = self.output.concat(token);
        LLMHistoryItem { output, complete, updated_timestamp: now, ..self }
    }
}

} // verus!
