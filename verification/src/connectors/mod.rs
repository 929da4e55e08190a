use vstd::prelude::*;
use crate::ids::{uuid_text, uuid_to_text};
use crate::llm::{LLMSession, ParamValue};
use crate::string_map::StrMap;
use crate::text::str_eq;

pub mod registry;
pub mod llmrs;
pub mod factory;

verus! {

/// The connector that runs an LLM.
#[derive(Debug, PartialEq, Eq, Clone, Copy)]
pub enum LLMConnectorType {
    GenericAPI,
    LLMrs,
    OpenAI,
}

/// The name under which a connector type is shown and stored.
pub open spec fn connector_type_text(c: LLMConnectorType) -> Seq<char> {
    match c {
        LLMConnectorType::GenericAPI => "GenericAPI"@,
        LLMConnectorType::LLMrs => "LLMrs"@,
        LLMConnectorType::OpenAI => "OpenAI"@,
    }
}

/// The connector type stored under a name, if any.
pub open spec fn connector_type_from_text(s: Seq<char>) -> Option<LLMConnectorType> {
    if s == "GenericAPI"@ {
        Some(LLMConnectorType::GenericAPI)
    } else if s == "LLMrs"@ {
        Some(LLMConnectorType::LLMrs)
    } else if s == "OpenAI"@ {
        Some(LLMConnectorType::OpenAI)
    } else {
        None
    }
}

impl LLMConnectorType {
    /// The display and storage name: `GenericAPI`, `LLMrs` or `OpenAI`.
    pub fn to_text(&self) -> (r: &'static str)
        ensures
            r@ == connector_type_text(*self),
    {
        match self {
            LLMConnectorType::GenericAPI => "GenericAPI",
            LLMConnectorType::LLMrs => "LLMrs",
            LLMConnectorType::OpenAI => "OpenAI",
        }
    }

    /// Reads a stored connector name; an unknown name is refused.
    pub fn from_text(s: &str) -> (r: Option<LLMConnectorType>)
        ensures
            r == connector_type_from_text(s@),
    {
        if str_eq(s, "GenericAPI") {
            Some(LLMConnectorType::GenericAPI)
        } else if str_eq(s, "LLMrs") {
            Some(LLMConnectorType::LLMrs)
        } else if str_eq(s, "OpenAI") {
            Some(LLMConnectorType::OpenAI)
        } else {
            None
        }
    }
}

/// Reading back the name a connector type is stored under gives that type.
pub proof fn connector_type_text_round_trip(c: LLMConnectorType)
    ensures
        connector_type_from_text(connector_type_text(c)) == Some(c),
{
    reveal_strlit("GenericAPI");
    reveal_strlit("LLMrs");
    reveal_strlit("OpenAI");
    match c {
        LLMConnectorType::GenericAPI => {},
        LLMConnectorType::LLMrs => {
            assert("LLMrs"@[0] != "GenericAPI"@[0]);
        },
        LLMConnectorType::OpenAI => {
            assert("OpenAI"@[0] != "GenericAPI"@[0]);
            assert("OpenAI"@[0] != "LLMrs"@[0]);
        },
    }
}

/// A session as the events of an inference report it.
pub struct LLMSessionStatus {
    pub id: u128,
    pub llm_uuid: u128,
    pub user_id: u128,
    pub started: i64,
    pub last_called: i64,
    pub session_parameters: StrMap<ParamValue>,
}

impl LLMSessionStatus {
    /// The report of a session.
    pub fn from(sess: &LLMSession) -> (r: LLMSessionStatus)
        ensures
            r.id == sess.id,
            r.llm_uuid == sess.llm_uuid,
            r.user_id == sess.user_id,
            r.started == sess.started,
            r.last_called == sess.last_called,
            r.session_parameters@ == sess.session_parameters@,
    {
        LLMSessionStatus {
            id: sess.id,
            llm_uuid: sess.llm_uuid,
            user_id: sess.user_id,
            started: sess.started,
            last_called: sess.last_called,
            session_parameters: sess.session_parameters.duplicate(),
        }
    }
}

/// What an inference reports.
pub enum LLMEventInternal {
    /// The next piece of the answer, after what came before.
    PromptProgress { previous: String, next: String },
    /// The answer is finished.
    PromptCompletion { previous: String },
    PromptError { message: String },
    Other,
}

/// One report of an inference, with where it belongs. Times are
/// microseconds since the Unix epoch.
pub struct LLMEvent {
    pub stream_id: u128,
    pub timestamp: i64,
    pub call_timestamp: i64,
    pub parameters: StrMap<ParamValue>,
    pub input: String,
    pub llm_uuid: u128,
    pub session: LLMSessionStatus,
    pub event: LLMEventInternal,
}

/// How an LLM's connector is set up.
pub enum ConnectorPlan {
    GenericAPI,
    OpenAI,
    /// A local model, read from this file.
    LLMrs { model_path: String },
}

/// The connector an LLM runs on. A local model needs its model file.
pub fn connector_plan(connector_type: LLMConnectorType, model_path: Option<String>) -> (r: ConnectorPlan)
    requires
        connector_type == LLMConnectorType::LLMrs ==> model_path is Some,
    ensures
        connector_type == LLMConnectorType::GenericAPI ==> r is GenericAPI,
        connector_type == LLMConnectorType::OpenAI ==> r is OpenAI,
        connector_type == LLMConnectorType::LLMrs ==> (r matches ConnectorPlan::LLMrs { model_path: p }
            && model_path == Some(p)),
{
    match connector_type {
        LLMConnectorType::GenericAPI => ConnectorPlan::GenericAPI,
        LLMConnectorType::OpenAI => ConnectorPlan::OpenAI,
        LLMConnectorType::LLMrs => match model_path {
            Some(p) => ConnectorPlan::LLMrs { model_path: p },
            None => ConnectorPlan::GenericAPI,
        },
    }
}

/// The directory, under the app's data directory, where a connector keeps
/// an LLM's files: `llmrs-` or `openai-` and the LLM's UUID. The generic
/// connector keeps none.
pub fn connector_dir_name(connector_type: LLMConnectorType, uuid: u128) -> (r: Option<String>)
    ensures
        connector_type == LLMConnectorType::LLMrs ==> (r matches Some(d) && d@ == "llmrs-"@ + uuid_text(uuid)),
        connector_type == LLMConnectorType::OpenAI ==> (r matches Some(d) && d@ == "openai-"@ + uuid_text(uuid)),
        connector_type == LLMConnectorType::GenericAPI ==> r is None,
{
    match connector_type {
        LLMConnectorType::LLMrs => Some("llmrs-".to_owned().concat(uuid_to_text(uuid).as_str())),
        LLMConnectorType::OpenAI => Some("openai-".to_owned().concat(uuid_to_text(uuid).as_str())),
        LLMConnectorType::GenericAPI => None,
    }
}

} // verus!
