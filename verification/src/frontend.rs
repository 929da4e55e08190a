use vstd::prelude::*;
use crate::clock::{date_time_display, format_date_time};
use crate::connectors::connector_type_text;
use crate::ids::{uuid_text, uuid_to_text};
use crate::llm::{LLM, LLMActivated, ParamValue};
use crate::registry::{download_stream_id, download_stream_name};
use crate::request::{UserRequest, UserRequestType};
use crate::string_map::{duplicate_all, StrMap};

verus! {

/// The envelope of every answer the desktop panel gets.
pub struct CommandResponse<T> {
    pub data: T,
}

impl<T> CommandResponse<T> {
    /// Wraps an answer.
    pub fn new(data: T) -> (r: CommandResponse<T>)
        ensures
            r.data == data,
    {
        CommandResponse { data }
    }
}

/// Where a download that was just started can be followed: its UUID, and the
/// name of the event stream that reports its progress.
pub struct DownloadResponse {
    pub uuid: String,
    pub stream: String,
}

impl DownloadResponse {
    /// The answer to a download of the registry entry `id` under `uuid`.
    pub fn for_download(id: &str, uuid: u128) -> (r: DownloadResponse)
        ensures
            r.uuid@ == uuid_text(uuid),
            r.stream@ == download_stream_name(id@, uuid),
    {
        DownloadResponse { uuid: uuid_to_text(uuid), stream: download_stream_id(id, uuid) }
    }
}

/// An LLM as the desktop panel shows it.
pub struct LLMInfo {
    pub id: String,
    pub family_id: String,
    pub organization: String,
    pub name: String,
    pub homepage: String,
    pub license: String,
    pub description: String,
    /// 0 is not capable, -1 is not evaluated.
    pub capabilities: StrMap<i64>,
    pub requirements: String,
    pub tags: Vec<String>,
    pub url: String,
    pub local: bool,
    pub connector_type: String,
    pub config: StrMap<ParamValue>,
    pub parameters: StrMap<ParamValue>,
    pub user_parameters: Vec<String>,
    pub session_parameters: StrMap<ParamValue>,
    pub user_session_parameters: Vec<String>,
}

impl LLMInfo {
    /// This record shows the LLM `l`: every field copied, the connector by
    /// its name.
    pub open spec fn shows(self, l: LLM) -> bool {
        &&& self.id@ == l.id@
        &&& self.family_id@ == l.family_id@
        &&& self.organization@ == l.organization@
        &&& self.name@ == l.name@
        &&& self.homepage@ == l.homepage@
        &&& self.license@ == l.license@
        &&& self.description@ == l.description@
        &&& self.capabilities@ == l.capabilities@
        &&& self.requirements@ == l.requirements@
        &&& self.tags@ == l.tags@
        &&& self.url@ == l.url@
        &&& self.local == l.local
        &&& self.connector_type@ == connector_type_text(l.connector_type)
        &&& self.config@ == l.config@
        &&& self.parameters@ == l.parameters@
        &&& self.user_parameters@ == l.user_parameters@
        &&& self.session_parameters@ == l.session_parameters@
        &&& self.user_session_parameters@ == l.user_session_parameters@
    }

    /// The panel's record of an LLM.
    pub fn from(value: &LLM) -> (r: LLMInfo)
        ensures
            r.shows(*value),
    {
        LLMInfo {
            id: value.id.clone(),
            family_id: value.family_id.clone(),
            organization: value.organization.clone(),
            name: value.name.clone(),
            homepage: value.homepage.clone(),
            license: value.license.clone(),
            description: value.description.clone(),
            capabilities: value.capabilities.duplicate(),
            requirements: value.requirements.clone(),
            tags: duplicate_all(&value.tags),
            url: value.url.clone(),
            local: value.local,
            connector_type: value.connector_type.to_text().to_owned(),
            config: value.config.duplicate(),
            parameters: value.parameters.duplicate(),
            user_parameters: duplicate_all(&value.user_parameters),
            session_parameters: value.session_parameters.duplicate(),
            user_session_parameters: duplicate_all(&value.user_session_parameters),
        }
    }
}

/// A downloaded LLM as the desktop panel lists it.
pub struct LLMAvailableInfo {
    pub llm_info: LLMInfo,
    pub downloaded: String,
    pub last_called: Option<i64>,
    pub uuid: String,
}

impl LLMAvailableInfo {
    /// The panel's record of a downloaded LLM.
    pub fn from(value: &LLM) -> (r: LLMAvailableInfo)
        ensures
            r.llm_info.shows(*value),
            r.downloaded@ == value.downloaded_reason@,
            r.last_called == value.last_called,
            r.uuid@ == uuid_text(value.uuid),
    {
        LLMAvailableInfo {
            llm_info: LLMInfo::from(value),
            downloaded: value.downloaded_reason.clone(),
            last_called: value.last_called,
            uuid: uuid_to_text(value.uuid),
        }
    }
}

/// A user request as the desktop panel lists it.
pub struct LLMRequestInfo {
    pub id: String,
    pub user_id: String,
    pub reason: String,
    pub timestamp: i64,
    pub originator: String,
    pub request: UserRequestType,
    pub complete: bool,
    pub accepted: bool,
}

impl LLMRequestInfo {
    /// The panel's record of a request, its UUIDs written out.
    pub fn from(value: UserRequest) -> (r: LLMRequestInfo)
        ensures
            r.id@ == uuid_text(value.id),
            r.user_id@ == uuid_text(value.user_id),
            r.reason == value.reason,
            r.timestamp == value.timestamp,
            r.originator == value.originator,
            r.request == value.request,
            r.complete == value.complete,
            r.accepted == value.accepted,
    {
        LLMRequestInfo {
            id: uuid_to_text(value.id),
            user_id: uuid_to_text(value.user_id),
            reason: value.reason,
            timestamp: value.timestamp,
            originator: value.originator,
            request: value.request,
            complete: value.complete,
            accepted: value.accepted,
        }
    }
}

/// A running LLM as the desktop panel lists it.
pub struct LLMRunningInfo {
    pub llm_info: LLMInfo,
    pub download_reason: String,
    pub downloaded_date: i64,
    pub last_called: Option<i64>,
    pub activated: String,
    pub uuid: String,
}

/// `lead`, the moment as `chrono` writes it, ` for ` and the reason; `None`
/// where the moment is outside `chrono`'s dates.
pub open spec fn dated_reason(lead: Seq<char>, micros: i64, reason: Seq<char>) -> Option<Seq<char>> {
    match date_time_display(micros) {
        Some(d) => Some(lead + d + " for "@ + reason),
        None => None,
    }
}

fn write_dated_reason(lead: &str, micros: i64, reason: &str) -> (r: Option<String>)
    ensures
        match r {
            Some(s) => dated_reason(lead@, micros, reason@) == Some(s@),
            None => dated_reason(lead@, micros, reason@) is None,
        },
{
    match format_date_time(micros) {
        Some(d) => {
            let s = lead.to_owned().concat(d.as_str()).concat(" for ").concat(reason);
            Some(s)
        },
        None => None,
    }
}

impl LLMRunningInfo {
    /// The panel's record of a running LLM, with when and why it was
    /// downloaded and started written out. `None` only where one of those
    /// moments is outside the dates `chrono` can represent.
    pub fn from(value: &LLMActivated) -> (r: Option<LLMRunningInfo>)
        ensures
            r is Some <==> (dated_reason(
                "Downloaded "@,
                value.llm.downloaded_date,
                value.llm.downloaded_reason@,
            ) is Some && dated_reason(
                "Activated "@,
                value.activated_time,
                value.activated_reason@,
            ) is Some),
            r matches Some(info) ==> {
                &&& info.llm_info.shows(value.llm)
                &&& dated_reason(
                    "Downloaded "@,
                    value.llm.downloaded_date,
                    value.llm.downloaded_reason@,
                ) == Some(info.download_reason@)
                &&& info.downloaded_date == value.llm.downloaded_date
                &&& info.last_called == value.llm.last_called
                &&& dated_reason("Activated "@, value.activated_time, value.activated_reason@)
                    == Some(info.activated@)
                &&& info.uuid@ == uuid_text(value.llm.uuid)
            },
    {
        let download_reason = match write_dated_reason(
            "Downloaded ",
            value.llm.downloaded_date,
            value.llm.downloaded_reason.as_str(),
        ) {
            Some(s) => s,
            None => {
                return None;
            },
        };
        let activated = match write_dated_reason(
            "Activated ",
            value.activated_time,
            value.activated_reason.as_str(),
        ) {
            Some(s) => s,
            None => {
                return None;
            },
        };
        Some(
            LLMRunningInfo {
                llm_info: LLMInfo::from(&value.llm),
                download_reason,
                downloaded_date: value.llm.downloaded_date,
                last_called: value.llm.last_called,
                activated,
                uuid: uuid_to_text(value.llm.uuid),
            },
        )
    }
}

/// The desktop panel's answer to a one-shot call: the session it ran in and
/// the parameters it ran with.
pub struct CallLLMResponse {
    pub session_id: String,
    pub parameters: StrMap<ParamValue>,
}

/// The desktop panel's answer to a prompt; the answer itself arrives as
/// events.
pub struct PromptSessionResponse {}

/// The desktop panel's answer to a new session: its parameters and id.
pub struct CreateSessionResponse {
    pub session_parameters: StrMap<ParamValue>,
    pub session_id: String,
}

} // verus!
