use vstd::prelude::*;
use crate::clock::now_micros;
use crate::ids::{new_uuid, uuid_text, uuid_to_text};
use crate::llm::LLM;
use crate::registry::LLMRegistryEntry;
use crate::server::{api_error, ApiError, StatusKind};
use crate::user::{Permissions, User};

verus! {

/// A request to download an LLM from a registry.
pub struct DownloadRequest {
    pub llm_registry_entry: LLMRegistryEntry,
}

/// A request for more permissions.
#[derive(Debug, Clone, Copy, PartialEq, Eq)]
pub struct PermissionRequest {
    pub requested_permissions: Permissions,
}

/// A request to load an LLM, by id or UUID.
pub struct LoadRequest {
    pub llm_id: String,
}

impl LoadRequest {
    /// A request to load the LLM `llm`, named by its UUID.
    pub fn for_llm(llm: &LLM) -> (r: LoadRequest)
        ensures
            r.llm_id@ == uuid_text(llm.uuid),
    {
        LoadRequest { llm_id: uuid_to_text(llm.uuid) }
    }
}

/// A request to unload an LLM, by UUID.
pub struct UnloadRequest {
    pub llm_id: String,
}

/// What a user asks the desktop user to allow.
pub enum UserRequestType {
    DownloadRequest(DownloadRequest),
    PermissionRequest(PermissionRequest),
    LoadRequest(LoadRequest),
    UnloadRequest(UnloadRequest),
}

/// A request waiting for, or past, the desktop user's decision. Times are
/// microseconds since the Unix epoch.
pub struct UserRequest {
    pub id: u128,
    pub user_id: u128,
    pub originator: String,
    pub reason: String,
    pub timestamp: i64,
    pub request: UserRequestType,
    pub complete: bool,
    pub accepted: bool,
}

impl UserRequest {
    /// A new, undecided request of `user`.
    pub fn new_pending(id: u128, user: &User, request: UserRequestType, timestamp: i64) -> (r: UserRequest)
        ensures
            r.id == id,
            r.user_id == user.id,
            r.originator == user.name,
            r.reason@ == "reason"@,
            r.timestamp == timestamp,
            r.request == request,
            !r.complete,
            !r.accepted,
    {
        UserRequest {
            id,
            user_id: user.id,
            originator: user.name.clone(),
            reason: String::from_str("reason"),
            timestamp,
            request,
            complete: false,
            accepted: false,
        }
    }

    /// A new, undecided request of `user`, under a fresh UUID, dated now.
    pub fn new_for(user: &User, request: UserRequestType) -> (r: UserRequest)
        ensures
            (r.id >> 76u128) & 0xfu128 == 4u128,
            r.user_id == user.id,
            r.originator == user.name,
            r.reason@ == "reason"@,
            r.request == request,
            !r.complete,
            !r.accepted,
    {
        let id = new_uuid();
        let now = now_micros();
        UserRequest::new_pending(id, user, request, now)
    }

    /// The request once decided: complete, accepted or not.
    pub fn decided(self, accepted: bool) -> (r: UserRequest)
        ensures
            r == (UserRequest { complete: true, accepted, ..self }),
    {
        UserRequest { complete: true, accepted, ..self }
    }
}

/// What a request asks the API to tell its maker.
pub struct UserRequestStatus {
    pub id: u128,
    pub user_id: u128,
    pub timestamp: i64,
    pub request: UserRequestType,
    pub complete: bool,
    pub accepted: bool,
}

impl UserRequestStatus {
    /// The status of a request.
    pub fn from(req: UserRequest) -> (s: UserRequestStatus)
        ensures
            s.id == req.id,
            s.user_id == req.user_id,
            s.timestamp == req.timestamp,
            s.request == req.request,
            s.complete == req.complete,
            s.accepted == req.accepted,
    {
        UserRequestStatus {
            id: req.id,
            user_id: req.user_id,
            timestamp: req.timestamp,
            request: req.request,
            complete: req.complete,
            accepted: req.accepted,
        }
    }
}

/// A request's status, shown only to the user who made it; anyone else is
/// told it does not exist.
pub fn request_status_for(caller: u128, req: UserRequest) -> (r: Result<UserRequestStatus, ApiError>)
    ensures
        (caller == req.user_id) <==> r is Ok,
        r matches Ok(s) ==> s.id == req.id && s.user_id == req.user_id && s.timestamp
            == req.timestamp && s.request == req.request && s.complete == req.complete
            && s.accepted == req.accepted,
        r matches Err(e) ==> e.status == StatusKind::NotFound && e.message@ == "Request Not Found"@,
{
    if caller != req.user_id {
        Err(api_error(StatusKind::NotFound, "Request Not Found"))
    } else {
        Ok(UserRequestStatus::from(req))
    }
}

/// What accepting a request sets off.
pub enum RequestAction {
    /// Download the entry's model.
    Download(LLMRegistryEntry),
    /// Give the user exactly these permissions.
    UpdatePermissions(u128, Permissions),
    /// Load the LLM.
    Load(String),
    /// Unload the LLM.
    Unload(String),
}

/// What accepting a request sets off: its download, permissions (for the
/// user who asked), load or unload.
pub fn accept_action(req: UserRequest) -> (a: RequestAction)
    ensures
        match req.request {
            UserRequestType::DownloadRequest(d) => a == RequestAction::Download(d.llm_registry_entry),
            UserRequestType::PermissionRequest(p) => a == RequestAction::UpdatePermissions(
                req.user_id,
                p.requested_permissions,
            ),
            UserRequestType::LoadRequest(l) => a == RequestAction::Load(l.llm_id),
            UserRequestType::UnloadRequest(u) => a == RequestAction::Unload(u.llm_id),
        },
{
    match req.request {
        UserRequestType::DownloadRequest(d) => RequestAction::Download(d.llm_registry_entry),
        UserRequestType::PermissionRequest(p) => RequestAction::UpdatePermissions(
            req.user_id,
            p.requested_permissions,
        ),
        UserRequestType::LoadRequest(l) => RequestAction::Load(l.llm_id),
        UserRequestType::UnloadRequest(u) => RequestAction::Unload(u.llm_id),
    }
}

} // verus!
