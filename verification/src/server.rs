use vstd::prelude::*;
use crate::connectors::connector_type_text;
use crate::ids::{parse_uuid, uuid_parse, uuid_text, uuid_to_text};
use crate::llm::{armed_parameters, LLM, LLMActivated, ParamValue};
use crate::string_map::{duplicate_all, StrMap};
use crate::text::str_eq;
use crate::user::{api_key_hash, hash_api_key, is_stored_form, User};

verus! {

// ---------------------------------------------------------------------
// Errors of the HTTP API
// ---------------------------------------------------------------------

/// The HTTP status that an API error is answered with.
#[derive(Debug, Clone, Copy, PartialEq, Eq)]
pub enum StatusKind {
    BadRequest,
    Unauthorized,
    NotFound,
    InternalServerError,
    InsufficientStorage,
}

/// The numeric HTTP status of each kind.
pub open spec fn status_code(s: StatusKind) -> u16 {
    match s {
        StatusKind::BadRequest => 400,
        StatusKind::Unauthorized => 401,
        StatusKind::NotFound => 404,
        StatusKind::InternalServerError => 500,
        StatusKind::InsufficientStorage => 507,
    }
}

impl StatusKind {
    /// The numeric HTTP status.
    pub fn code(&self) -> (c: u16)
        ensures
            c == status_code(*self),
    {
        match self {
            StatusKind::BadRequest => 400,
            StatusKind::Unauthorized => 401,
            StatusKind::NotFound => 404,
            StatusKind::InternalServerError => 500,
            StatusKind::InsufficientStorage => 507,
        }
    }
}

/// An error answer of the API: a status and a message.
#[derive(Debug, Clone)]
pub struct ApiError {
    pub status: StatusKind,
    pub message: String,
}

/// An error answer with the given status and message.
pub fn api_error(status: StatusKind, message: &str) -> (e: ApiError)
    ensures
        e.status == status,
        e.message@ == message@,
{
    ApiError { status, message: message.to_owned() }
}

// ---------------------------------------------------------------------
// Permissions
// ---------------------------------------------------------------------

/// Whether a user holds the permission of the given name. The empty name
/// asks for nothing; unknown names are never held.
pub open spec fn permission_granted(u: User, required: Seq<char>) -> bool {
    if required == ""@ {
        true
    } else if required == "load_llm"@ {
        u.perm_load_llm
    } else if required == "unload_llm"@ {
        u.perm_unload_llm
    } else if required == "download_llm"@ {
        u.perm_download_llm
    } else if required == "session"@ {
        u.perm_session
    } else if required == "request_download"@ {
        u.perm_request_download
    } else if required == "request_load"@ {
        u.perm_request_load
    } else if required == "request_unload"@ {
        u.perm_request_unload
    } else if required == "view_llms"@ {
        u.perm_view_llms
    } else if required == "bare_model"@ {
        u.perm_bare_model
    } else {
        false
    }
}

/// Why a caller is turned away, if it is: the looked-up user row (none when
/// the id is unknown), the clear API key it gave, and the permission asked
/// for. The row holds the key's hash, so the given key is hashed before it
/// is compared.
pub open spec fn refusal(user: Option<User>, api_key: Seq<char>, required: Seq<char>) -> Option<
    Seq<char>,
> {
    match user {
        None => Some("Not a Valid User {:?}"@),
        Some(u) => if u.api_key@ != api_key_hash(api_key) {
            Some("Incorrect API Key"@)
        } else if u.perm_superuser {
            None
        } else if permission_granted(u, required) {
            None
        } else {
            Some("Incorrect Permissions"@)
        },
    }
}

/// Whether `user` holds the permission named `required`.
pub fn has_permission(user: &User, required: &str) -> (r: bool)
    ensures
        r == permission_granted(*user, required@),
{
    if str_eq(required, "") {
        true
    } else if str_eq(required, "load_llm") {
        user.perm_load_llm
    } else if str_eq(required, "unload_llm") {
        user.perm_unload_llm
    } else if str_eq(required, "download_llm") {
        user.perm_download_llm
    } else if str_eq(required, "session") {
        user.perm_session
    } else if str_eq(required, "request_download") {
        user.perm_request_download
    } else if str_eq(required, "request_load") {
        user.perm_request_load
    } else if str_eq(required, "request_unload") {
        user.perm_request_unload
    } else if str_eq(required, "view_llms") {
        user.perm_view_llms
    } else if str_eq(required, "bare_model") {
        user.perm_bare_model
    } else {
        false
    }
}

/// Lets a caller through, or says why not. `user` is the row that looking
/// up the caller's id found, `api_key` the clear key the caller gave: its
/// hash must be what the row holds. A superuser with the right key passes
/// every check.
pub fn user_permission_check(required: &str, api_key: &str, user: Option<User>) -> (r: Result<
    User,
    ApiError,
>)
    ensures
        match r {
            Ok(u) => refusal(user, api_key@, required@) is None && user == Some(u),
            Err(e) => e.status == StatusKind::Unauthorized && refusal(user, api_key@, required@)
                == Some(e.message@),
        },
{
    match user {
        None => Err(api_error(StatusKind::Unauthorized, "Not a Valid User {:?}")),
        Some(u) => {
            if !str_eq(u.api_key.as_str(), hash_api_key(api_key).as_str()) {
                Err(api_error(StatusKind::Unauthorized, "Incorrect API Key"))
            } else if u.perm_superuser {
                Ok(u)
            } else if has_permission(&u, required) {
                Ok(u)
            } else {
                Err(api_error(StatusKind::Unauthorized, "Incorrect Permissions"))
            }
        },
    }
}

/// A superuser who gives the key it was issued passes the check of every
/// route against the row the user table keeps of it.
pub proof fn superuser_passes_every_route(row: User, u: User, e: Endpoint)
    requires
        is_stored_form(row, u),
        u.perm_superuser,
    ensures
        endpoint_permission(e) matches Some(p) ==> refusal(Some(row), u.api_key@, p) is None,
{
}

/// Against the row the user table keeps of a user, the key that user was
/// issued passes the check exactly when the user is a superuser or holds
/// the permission asked for.
pub proof fn issued_key_opens_stored_row(row: User, u: User, required: Seq<char>)
    requires
        is_stored_form(row, u),
    ensures
        refusal(Some(row), u.api_key@, required) is None <==> (u.perm_superuser
            || permission_granted(u, required)),
{
}

/// A caller whose key does not hash to what the user's row holds is
/// refused, whatever the user may do.
pub proof fn wrong_key_is_refused(u: User, api_key: Seq<char>, required: Seq<char>)
    requires
        u.api_key@ != api_key_hash(api_key),
    ensures
        refusal(Some(u), api_key, required) == Some("Incorrect API Key"@),
{
}

/// A caller whose id names no user is refused.
pub proof fn unknown_user_is_refused(api_key: Seq<char>, required: Seq<char>)
    ensures
        refusal(None, api_key, required) == Some("Not a Valid User {:?}"@),
{
}

/// A user with the key it was issued who holds the permission a route asks
/// for passes it.
pub proof fn granted_permission_passes(row: User, u: User, required: Seq<char>)
    requires
        is_stored_form(row, u),
        permission_granted(u, required),
    ensures
        refusal(Some(row), u.api_key@, required) is None,
{
}

/// The routes that ask for an LLM to be loaded check the request-load
/// permission, and the one that asks for an unload checks the
/// request-unload permission: a user with the key it was issued passes
/// exactly when it is a superuser or holds that permission.
pub proof fn load_requests_check_their_permission(row: User, u: User, e: Endpoint)
    requires
        is_stored_form(row, u),
        e == Endpoint::RequestLoad || e == Endpoint::RequestUnload || e == Endpoint::RequestLoadFlex,
    ensures
        endpoint_permission(e) matches Some(p) && (refusal(Some(row), u.api_key@, p) is None
            <==> (u.perm_superuser || (if e == Endpoint::RequestUnload {
            u.perm_request_unload
        } else {
            u.perm_request_load
        }))),
{
    reveal_strlit("");
    reveal_strlit("load_llm");
    reveal_strlit("unload_llm");
    reveal_strlit("download_llm");
    reveal_strlit("session");
    reveal_strlit("request_download");
    reveal_strlit("request_load");
    reveal_strlit("request_unload");
    reveal_strlit("view_llms");
    reveal_strlit("bare_model");
    assert("request_load"@.len() != ""@.len());
    assert("request_load"@.len() != "load_llm"@.len());
    assert("request_load"@.len() != "unload_llm"@.len());
    assert("request_load"@[0] != "download_llm"@[0]);
    assert("request_load"@.len() != "session"@.len());
    assert("request_load"@.len() != "request_download"@.len());
    assert("request_load"@.len() != "request_unload"@.len());
    assert("request_load"@.len() != "view_llms"@.len());
    assert("request_load"@.len() != "bare_model"@.len());
    assert("request_unload"@.len() != ""@.len());
    assert("request_unload"@.len() != "load_llm"@.len());
    assert("request_unload"@.len() != "unload_llm"@.len());
    assert("request_unload"@.len() != "download_llm"@.len());
    assert("request_unload"@.len() != "session"@.len());
    assert("request_unload"@.len() != "request_download"@.len());
    assert("request_unload"@.len() != "request_load"@.len());
    assert("request_unload"@.len() != "view_llms"@.len());
    assert("request_unload"@.len() != "bare_model"@.len());
}

/// Each permission a route may ask for is checked against its own flag: a
/// user with the key it was issued passes the check for it exactly when it
/// is a superuser or holds that flag. The empty name asks for nothing, and
/// any other name only a superuser passes.
pub proof fn each_permission_checks_its_flag(row: User, u: User, other: Seq<char>)
    requires
        is_stored_form(row, u),
    ensures
        refusal(Some(row), u.api_key@, ""@) is None,
        refusal(Some(row), u.api_key@, "load_llm"@) is None <==> (u.perm_superuser || u.perm_load_llm),
        refusal(Some(row), u.api_key@, "unload_llm"@) is None <==> (u.perm_superuser || u.perm_unload_llm),
        refusal(Some(row), u.api_key@, "download_llm"@) is None <==> (u.perm_superuser || u.perm_download_llm),
        refusal(Some(row), u.api_key@, "session"@) is None <==> (u.perm_superuser || u.perm_session),
        refusal(Some(row), u.api_key@, "request_download"@) is None <==> (u.perm_superuser || u.perm_request_download),
        refusal(Some(row), u.api_key@, "request_load"@) is None <==> (u.perm_superuser || u.perm_request_load),
        refusal(Some(row), u.api_key@, "request_unload"@) is None <==> (u.perm_superuser || u.perm_request_unload),
        refusal(Some(row), u.api_key@, "view_llms"@) is None <==> (u.perm_superuser || u.perm_view_llms),
        refusal(Some(row), u.api_key@, "bare_model"@) is None <==> (u.perm_superuser || u.perm_bare_model),
        other != ""@ && other != "load_llm"@ && other != "unload_llm"@ && other != "download_llm"@ && other != "session"@ && other != "request_download"@ && other != "request_load"@ && other != "request_unload"@ && other != "view_llms"@ && other != "bare_model"@ ==> (refusal(Some(row), u.api_key@, other) is None <==> u.perm_superuser),
{
    reveal_strlit("");
    reveal_strlit("load_llm");
    reveal_strlit("unload_llm");
    reveal_strlit("download_llm");
    reveal_strlit("session");
    reveal_strlit("request_download");
    reveal_strlit("request_load");
    reveal_strlit("request_unload");
    reveal_strlit("view_llms");
    reveal_strlit("bare_model");
    assert(""@.len() != "load_llm"@.len());
    assert(""@.len() != "unload_llm"@.len());
    assert(""@.len() != "download_llm"@.len());
    assert(""@.len() != "session"@.len());
    assert(""@.len() != "request_download"@.len());
    assert(""@.len() != "request_load"@.len());
    assert(""@.len() != "request_unload"@.len());
    assert(""@.len() != "view_llms"@.len());
    assert(""@.len() != "bare_model"@.len());
    assert("load_llm"@.len() != "unload_llm"@.len());
    assert("load_llm"@.len() != "download_llm"@.len());
    assert("load_llm"@.len() != "session"@.len());
    assert("load_llm"@.len() != "request_download"@.len());
    assert("load_llm"@.len() != "request_load"@.len());
    assert("load_llm"@.len() != "request_unload"@.len());
    assert("load_llm"@.len() != "view_llms"@.len());
    assert("load_llm"@.len() != "bare_model"@.len());
    assert("unload_llm"@.len() != "download_llm"@.len());
    assert("unload_llm"@.len() != "session"@.len());
    assert("unload_llm"@.len() != "request_download"@.len());
    assert("unload_llm"@.len() != "request_load"@.len());
    assert("unload_llm"@.len() != "request_unload"@.len());
    assert("unload_llm"@.len() != "view_llms"@.len());
    assert("unload_llm"@[0] != "bare_model"@[0]);
    assert("download_llm"@.len() != "session"@.len());
    assert("download_llm"@.len() != "request_download"@.len());
    assert("download_llm"@[0] != "request_load"@[0]);
    assert("download_llm"@.len() != "request_unload"@.len());
    assert("download_llm"@.len() != "view_llms"@.len());
    assert("download_llm"@.len() != "bare_model"@.len());
    assert("session"@.len() != "request_download"@.len());
    assert("session"@.len() != "request_load"@.len());
    assert("session"@.len() != "request_unload"@.len());
    assert("session"@.len() != "view_llms"@.len());
    assert("session"@.len() != "bare_model"@.len());
    assert("request_download"@.len() != "request_load"@.len());
    assert("request_download"@.len() != "request_unload"@.len());
    assert("request_download"@.len() != "view_llms"@.len());
    assert("request_download"@.len() != "bare_model"@.len());
    assert("request_load"@.len() != "request_unload"@.len());
    assert("request_load"@.len() != "view_llms"@.len());
    assert("request_load"@.len() != "bare_model"@.len());
    assert("request_unload"@.len() != "view_llms"@.len());
    assert("request_unload"@.len() != "bare_model"@.len());
    assert("view_llms"@.len() != "bare_model"@.len());
}

/// The routes of the API.
#[derive(Debug, Clone, Copy, PartialEq, Eq)]
pub enum Endpoint {
    RegisterUser,
    RequestPermissions,
    RequestDownload,
    RequestLoad,
    RequestUnload,
    RequestLoadFlex,
    RequestStatus,
    GetLLMStatus,
    GetAvailableLLMs,
    GetRunningLLMs,
    InterruptSession,
    LoadLLM,
    LoadLLMFlex,
    UnloadLLM,
    DownloadLLM,
    CreateSession,
    PromptSessionStream,
    BareModel,
    BareModelFlex,
}

/// The permission name each route checks; registering checks nothing.
/// The session routes all go through the same check.
pub open spec fn endpoint_permission(e: Endpoint) -> Option<Seq<char>> {
    match e {
        Endpoint::RegisterUser => None,
        Endpoint::RequestPermissions => Some(""@),
        Endpoint::RequestDownload => Some("request_download"@),
        Endpoint::RequestLoad => Some("request_load"@),
        Endpoint::RequestUnload => Some("request_unload"@),
        Endpoint::RequestLoadFlex => Some("request_load"@),
        Endpoint::RequestStatus => Some(""@),
        Endpoint::GetLLMStatus => Some("view_llms"@),
        Endpoint::GetAvailableLLMs => Some("view_llms"@),
        Endpoint::GetRunningLLMs => Some("view_llms"@),
        Endpoint::InterruptSession => Some("session"@),
        Endpoint::LoadLLM => Some("load_llm"@),
        Endpoint::LoadLLMFlex => Some("load_llm"@),
        Endpoint::UnloadLLM => Some("unload_llm"@),
        Endpoint::DownloadLLM => Some("download_llm"@),
        Endpoint::CreateSession => Some("session"@),
        Endpoint::PromptSessionStream => Some("session"@),
        Endpoint::BareModel => Some("bare_model"@),
        Endpoint::BareModelFlex => Some("bare_model"@),
    }
}

impl Endpoint {
    /// The permission name this route checks, if it checks one.
    pub fn required_permission(&self) -> (r: Option<&'static str>)
        ensures
            match r {
                Some(s) => endpoint_permission(*self) == Some(s@),
                None => endpoint_permission(*self) is None,
            },
    {
        match self {
            Endpoint::RegisterUser => None,
            Endpoint::RequestPermissions => Some(""),
            Endpoint::RequestDownload => Some("request_download"),
            Endpoint::RequestLoad => Some("request_load"),
            Endpoint::RequestUnload => Some("request_unload"),
            Endpoint::RequestLoadFlex => Some("request_load"),
            Endpoint::RequestStatus => Some(""),
            Endpoint::GetLLMStatus => Some("view_llms"),
            Endpoint::GetAvailableLLMs => Some("view_llms"),
            Endpoint::GetRunningLLMs => Some("view_llms"),
            Endpoint::InterruptSession => Some("session"),
            Endpoint::LoadLLM => Some("load_llm"),
            Endpoint::LoadLLMFlex => Some("load_llm"),
            Endpoint::UnloadLLM => Some("unload_llm"),
            Endpoint::DownloadLLM => Some("download_llm"),
            Endpoint::CreateSession => Some("session"),
            Endpoint::PromptSessionStream => Some("session"),
            Endpoint::BareModel => Some("bare_model"),
            Endpoint::BareModelFlex => Some("bare_model"),
        }
    }
}


// ---------------------------------------------------------------------
// Filters and preferences for picking an LLM
// ---------------------------------------------------------------------

/// The kinds of capability an LLM is scored on.
#[derive(Debug, Clone, Copy, PartialEq, Eq)]
pub enum CapabilityType {
    General,
    Assistant,
    Writing,
    Coding,
}

/// The key a capability is stored and shown under.
pub open spec fn capability_name(c: CapabilityType) -> Seq<char> {
    match c {
        CapabilityType::General => "general"@,
        CapabilityType::Assistant => "assistant"@,
        CapabilityType::Writing => "writing"@,
        CapabilityType::Coding => "coding"@,
    }
}

impl CapabilityType {
    /// The key this capability is stored and shown under.
    pub fn name(&self) -> (r: &'static str)
        ensures
            r@ == capability_name(*self),
    {
        match self {
            CapabilityType::General => "general",
            CapabilityType::Assistant => "assistant",
            CapabilityType::Writing => "writing",
            CapabilityType::Coding => "coding",
        }
    }
}

/// A lower bound on one capability score.
#[derive(Debug, Clone, Copy, PartialEq, Eq)]
pub struct CapabilityFilter {
    pub capability: CapabilityType,
    pub value: i32,
}

/// Hard requirements: an LLM that fails any of the given ones is out.
#[derive(Debug, Clone)]
pub struct LLMFilter {
    pub llm_uuid: Option<u128>,
    pub llm_id: Option<String>,
    pub family_id: Option<String>,
    pub local: Option<bool>,
    pub minimum_capabilities: Option<Vec<CapabilityFilter>>,
}

/// Soft wishes, used when more than one LLM passes the filter.
#[derive(Debug, Clone)]
pub struct LLMPreference {
    pub llm_uuid: Option<u128>,
    pub llm_id: Option<String>,
    pub local: Option<bool>,
    pub family_id: Option<String>,
    pub capability_type: Option<CapabilityType>,
}

// ---------------------------------------------------------------------
// What the API tells callers of an LLM
// ---------------------------------------------------------------------

/// An LLM as the API reports it to callers.
pub struct LLMStatus {
    pub id: String,
    pub family_id: String,
    pub organization: String,
    pub name: String,
    pub homepage: String,
    pub license: String,
    pub description: String,
    /// 0 is not capable, -1 is not evaluated.
    pub capabilities: StrMap<i64>,
    pub requirements: String,
    pub tags: Vec<String>,
    pub url: String,
    pub local: bool,
    pub connector_type: String,
    pub config: StrMap<ParamValue>,
    pub parameters: StrMap<ParamValue>,
    pub user_parameters: Vec<String>,
    pub session_parameters: StrMap<ParamValue>,
    pub user_session_parameters: Vec<String>,
    pub uuid: String,
    pub running: bool,
}

impl LLMStatus {
    /// This record reports the LLM `l`, running or not: every field
    /// copied, the connector by its name, the UUID written out.
    pub open spec fn reports(self, l: LLM, running: bool) -> bool {
        &&& self.id@ == l.id@
        &&& self.family_id@ == l.family_id@
        &&& self.organization@ == l.organization@
        &&& self.name@ == l.name@
        &&& self.homepage@ == l.homepage@
        &&& self.license@ == l.license@
        &&& self.description@ == l.description@
        &&& self.capabilities@ == l.capabilities@
        &&& self.requirements@ == l.requirements@
        &&& self.tags@ == l.tags@
        &&& self.url@ == l.url@
        &&& self.local == l.local
        &&& self.connector_type@ == connector_type_text(l.connector_type)
        &&& self.config@ == l.config@
        &&& self.parameters@ == l.parameters@
        &&& self.user_parameters@ == l.user_parameters@
        &&& self.session_parameters@ == l.session_parameters@
        &&& self.user_session_parameters@ == l.user_session_parameters@
        &&& self.uuid@ == uuid_text(l.uuid)
        &&& self.running == running
    }

    fn report(llm: &LLM, running: bool) -> (r: LLMStatus)
        ensures
            r.reports(*llm, running),
    {
        LLMStatus {
            id: llm.id.clone(),
            family_id: llm.family_id.clone(),
            organization: llm.organization.clone(),
            name: llm.name.clone(),
            homepage: llm.homepage.clone(),
            license: llm.license.clone(),
            description: llm.description.clone(),
            capabilities: llm.capabilities.duplicate(),
            requirements: llm.requirements.clone(),
            tags: duplicate_all(&llm.tags),
            url: llm.url.clone(),
            local: llm.local,
            connector_type: llm.connector_type.to_text().to_owned(),
            config: llm.config.duplicate(),
            parameters: llm.parameters.duplicate(),
            user_parameters: duplicate_all(&llm.user_parameters),
            session_parameters: llm.session_parameters.duplicate(),
            user_session_parameters: duplicate_all(&llm.user_session_parameters),
            uuid: uuid_to_text(llm.uuid),
            running,
        }
    }

    /// The report of a downloaded LLM that is not running.
    pub fn from_llm(llm: &LLM) -> (r: LLMStatus)
        ensures
            r.reports(*llm, false),
    {
        Self::report(llm, false)
    }

    /// The report of a running LLM.
    pub fn from_activated(llm: &LLMActivated) -> (r: LLMStatus)
        ensures
            r.reports(llm.llm, true),
    {
        Self::report(&llm.llm, true)
    }
}

/// A running LLM as the API reports it.
pub struct LLMRunningStatus {
    pub llm_info: LLMStatus,
    pub uuid: String,
}

impl LLMRunningStatus {
    /// The report of a running LLM.
    pub fn from(llm: &LLMActivated) -> (r: LLMRunningStatus)
        ensures
            r.llm_info.reports(llm.llm, true),
            r.uuid@ == uuid_text(llm.llm.uuid),
    {
        LLMRunningStatus { llm_info: LLMStatus::from_activated(llm), uuid: uuid_to_text(llm.llm.uuid) }
    }
}

/// A downloaded LLM as the API reports it.
pub struct LLMAvailableStatus {
    pub llm_info: LLMStatus,
    pub uuid: String,
}

// ---------------------------------------------------------------------
// Reading the ids in a request
// ---------------------------------------------------------------------

/// A UUID as parsed, or a Bad Request carrying the parser's message.
pub fn id_or_bad_request(parsed: Result<u128, String>) -> (r: Result<u128, ApiError>)
    ensures
        match parsed {
            Ok(v) => r matches Ok(w) && w == v,
            Err(m) => r matches Err(e) && e.status == StatusKind::BadRequest && e.message == m,
        },
{
    match parsed {
        Ok(v) => Ok(v),
        Err(m) => Err(ApiError { status: StatusKind::BadRequest, message: m }),
    }
}

/// Reads a UUID field of a request; a malformed one is a Bad Request
/// carrying the parser's message.
pub fn parse_request_id(text: &str) -> (r: Result<u128, ApiError>)
    ensures
        match uuid_parse(text@) {
            Ok(v) => r matches Ok(w) && w == v,
            Err(m) => r matches Err(e) && e.status == StatusKind::BadRequest && e.message@ == m,
        },
{
    id_or_bad_request(parse_uuid(text))
}

/// The answer to a failed database call.
pub fn database_error() -> (e: ApiError)
    ensures
        e.status == StatusKind::InternalServerError,
        e.message@ == "Database Error"@,
{
    api_error(StatusKind::InternalServerError, "Database Error")
}

/// The answer to unloading an LLM that is not running.
pub fn llm_not_running(llm_id: &str) -> (e: ApiError)
    ensures
        e.status == StatusKind::NotFound,
        e.message@ == "LLM with ID '"@ + llm_id@ + "' not found"@,
{
    let m = "LLM with ID '".to_owned().concat(llm_id).concat("' not found");
    ApiError { status: StatusKind::NotFound, message: m }
}

// ---------------------------------------------------------------------
// Naming the LLM a request is about
// ---------------------------------------------------------------------

/// The filter for `llm_id`, which names an LLM by UUID or else by id.
pub open spec fn id_filter(parsed: Result<u128, Seq<char>>, llm_id: String) -> LLMFilter {
    match parsed {
        Ok(u) => LLMFilter {
            llm_uuid: Some(u),
            llm_id: None,
            family_id: None,
            local: None,
            minimum_capabilities: None,
        },
        Err(_) => LLMFilter {
            llm_uuid: None,
            llm_id: Some(llm_id),
            family_id: None,
            local: None,
            minimum_capabilities: None,
        },
    }
}

/// The filter for an LLM named by `llm_id`: by UUID where `llm_id` parses
/// as one, else by id.
pub fn filter_for_id(parsed: Result<u128, String>, llm_id: String) -> (f: LLMFilter)
    ensures
        f == id_filter(
            match parsed {
                Ok(u) => Ok::<u128, Seq<char>>(u),
                Err(m) => Err::<u128, Seq<char>>(m@),
            },
            llm_id,
        ),
{
    match parsed {
        Ok(u) => LLMFilter {
            llm_uuid: Some(u),
            llm_id: None,
            family_id: None,
            local: None,
            minimum_capabilities: None,
        },
        Err(_) => LLMFilter {
            llm_uuid: None,
            llm_id: Some(llm_id),
            family_id: None,
            local: None,
            minimum_capabilities: None,
        },
    }
}

/// The filter a session is created under when the caller names an LLM:
/// by UUID where the name parses as one, else by id.
pub fn create_session_id_filter(llm_id: String) -> (f: LLMFilter)
    ensures
        f == id_filter(uuid_parse(llm_id@), llm_id),
{
    let parsed = parse_uuid(llm_id.as_str());
    filter_for_id(parsed, llm_id)
}

/// How an LLM to be loaded is looked up.
#[derive(Debug, Clone, PartialEq, Eq)]
pub enum LoadTarget {
    /// By its public id, which exactly one downloaded LLM has.
    ByPublicId(String),
    /// By UUID.
    ByUuid(u128),
}

/// The lookup for `llm_id`, given how many downloaded LLMs have it as
/// their id and, where that is not one, what parsing it as a UUID gave.
pub fn load_target_from(count: i64, llm_id: String, parsed: Option<Result<u128, String>>) -> (r:
    Result<LoadTarget, ApiError>)
    requires
        count != 1 ==> parsed is Some,
    ensures
        count == 1 ==> r == Ok::<LoadTarget, ApiError>(LoadTarget::ByPublicId(llm_id)),
        count != 1 ==> match parsed {
            Some(Ok(u)) => r == Ok::<LoadTarget, ApiError>(LoadTarget::ByUuid(u)),
            Some(Err(m)) => r matches Err(e) && e.status == StatusKind::BadRequest && e.message
                == m,
            None => false,
        },
{
    if count == 1 {
        Ok(LoadTarget::ByPublicId(llm_id))
    } else {
        match parsed {
            Some(Ok(u)) => Ok(LoadTarget::ByUuid(u)),
            Some(Err(m)) => Err(ApiError { status: StatusKind::BadRequest, message: m }),
            None => Err(database_error()),
        }
    }
}

/// The lookup for an LLM to be loaded: by public id when exactly one
/// downloaded LLM has `llm_id` as its id (`count`), else by UUID, where a
/// malformed one is a Bad Request.
pub fn load_target(count: i64, llm_id: String) -> (r: Result<LoadTarget, ApiError>)
    ensures
        count == 1 ==> r == Ok::<LoadTarget, ApiError>(LoadTarget::ByPublicId(llm_id)),
        count != 1 ==> match uuid_parse(llm_id@) {
            Ok(u) => r == Ok::<LoadTarget, ApiError>(LoadTarget::ByUuid(u)),
            Err(m) => r matches Err(e) && e.status == StatusKind::BadRequest && e.message@ == m,
        },
{
    if count == 1 {
        load_target_from(count, llm_id, None)
    } else {
        let parsed = parse_uuid(llm_id.as_str());
        load_target_from(count, llm_id, Some(parsed))
    }
}

/// The answer to looking up an LLM by UUID that failed: Not Found when no
/// such LLM is on record, else a database error.
pub fn lookup_error(not_found: bool) -> (e: ApiError)
    ensures
        not_found ==> e.status == StatusKind::NotFound && e.message@ == "Unable to find LLM"@,
        !not_found ==> e.status == StatusKind::InternalServerError && e.message@
            == "Database Error"@,
{
    if not_found {
        api_error(StatusKind::NotFound, "Unable to find LLM")
    } else {
        database_error()
    }
}

/// What a caller learns of a session it created: its parameters, the LLM
/// it runs on, and its UUID written out.
pub struct CreateSessionResponse {
    pub session_parameters: StrMap<ParamValue>,
    pub llm_status: LLMStatus,
    pub session_id: String,
}

impl CreateSessionResponse {
    /// The answer for a session `session_id` created on `llm` with the
    /// given parameters.
    pub fn new(session_parameters: StrMap<ParamValue>, llm: &LLMActivated, session_id: u128) -> (r:
        CreateSessionResponse)
        ensures
            r.session_parameters == session_parameters,
            r.llm_status.reports(llm.llm, true),
            r.session_id@ == uuid_text(session_id),
    {
        CreateSessionResponse {
            session_parameters,
            llm_status: LLMStatus::from_activated(llm),
            session_id: uuid_to_text(session_id),
        }
    }
}

/// The answer to a request for a session on `llm`. The caller's parameters
/// are armed over the LLM's own; `created` is what the LLM's connector
/// answered when asked for a session with them: the new session's id, or
/// why it failed, which the caller is not told.
pub fn session_answer(
    llm: &LLMActivated,
    supplied: &StrMap<ParamValue>,
    created: Result<u128, String>,
) -> (r: Result<CreateSessionResponse, ApiError>)
    ensures
        match created {
            Ok(id) => r matches Ok(resp) && resp.session_parameters@ == armed_parameters(
                llm.llm.session_parameters@,
                llm.llm.user_session_parameters@,
                supplied@,
            ) && resp.llm_status.reports(llm.llm, true) && resp.session_id@ == uuid_text(id),
            Err(_) => r matches Err(e) && e.status == StatusKind::InternalServerError
                && e.message@ == "Error creating session."@,
        },
{
    match created {
        Ok(id) => Ok(CreateSessionResponse::new(llm.session_parameters_for(supplied), llm, id)),
        Err(_) => Err(api_error(StatusKind::InternalServerError, "Error creating session.")),
    }
}

/// A model file handed out, with the LLM it belongs to.
pub struct BareModelResponse {
    pub model: LLMStatus,
    pub path: String,
}

impl BareModelResponse {
    /// The answer for an LLM with a model file.
    pub fn for_llm(llm: &LLM) -> (r: BareModelResponse)
        requires
            llm.model_path is Some,
        ensures
            r.model.reports(*llm, false),
            r.path@ == llm.model_path->Some_0@,
    {
        let path = match &llm.model_path {
            Some(p) => p.clone(),
            None => String::new(),
        };
        BareModelResponse { model: LLMStatus::from_llm(llm), path }
    }
}

} // verus!
