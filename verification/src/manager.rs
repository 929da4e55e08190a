use vstd::prelude::*;
use crate::llm::{LLMActivated, LLM};
use crate::running::RunningTable;
use crate::ids::{uuid_text, uuid_to_text};
use crate::server::{api_error, llm_not_running, ApiError, LLMRunningStatus, StatusKind};
use tokio_util::sync::CancellationToken;

verus! {

/// What stopping the actor of LLM `k` gives back: its handle, or the
/// message for an LLM the manager does not run.
pub open spec fn unload_outcome<H>(m: Map<u128, H>, k: u128) -> Result<H, Seq<char>> {
    if m.contains_key(k) {
        Ok(m[k])
    } else {
        Err("LLM actor not found"@)
    }
}

/// Takes the actor of LLM `uuid` out of the manager's table, to be stopped.
/// An LLM without an actor is an error and the table stays as it was.
pub fn unload_actor<H>(actors: &mut RunningTable<H>, uuid: u128) -> (r: Result<H, String>)
    ensures
        match (r, unload_outcome(old(actors)@, uuid)) {
            (Ok(h), Ok(g)) => h == g,
            (Err(m), Err(n)) => m@ == n,
            _ => false,
        },
        final(actors)@ == old(actors)@.remove(uuid),
{
    match actors.remove(uuid) {
        Some(h) => Ok(h),
        None => Err("LLM actor not found".to_owned()),
    }
}

/// The desktop panel may load an LLM only when it is not running yet.
pub fn check_not_loaded<H>(running: &RunningTable<H>, uuid: u128) -> (r: Result<(), String>)
    ensures
        r is Ok <==> !running@.contains_key(uuid),
        r matches Err(m) ==> m@ == "llm already loaded"@,
{
    if running.contains_key(uuid) {
        Err("llm already loaded".to_owned())
    } else {
        Ok(())
    }
}

/// Takes a running LLM out of the table, as the desktop panel unloads it.
pub fn unload_running<H>(running: &mut RunningTable<H>, uuid: u128) -> (r: Result<H, String>)
    ensures
        r is Ok <==> old(running)@.contains_key(uuid),
        r matches Ok(h) ==> h == old(running)@[uuid],
        r matches Err(m) ==> m@ == "LLM not found or already unloaded"@,
        final(running)@ == old(running)@.remove(uuid),
{
    match running.remove(uuid) {
        Some(h) => Ok(h),
        None => Err("LLM not found or already unloaded".to_owned()),
    }
}

/// A running LLM the API was asked about; Not Found when it is not running.
pub fn running_llm<H>(running: &RunningTable<H>, uuid: u128) -> (r: Result<&H, ApiError>)
    ensures
        r is Ok <==> running@.contains_key(uuid),
        r matches Ok(h) ==> *h == running@[uuid],
        r matches Err(e) ==> e.status == StatusKind::NotFound && e.message@ == "LLM not running"@,
{
    match running.get(uuid) {
        Some(h) => Ok(h),
        None => Err(api_error(StatusKind::NotFound, "LLM not running")),
    }
}

/// Takes a running LLM out of the table, as the API unloads it; `llm_id`
/// is the id the caller gave.
pub fn take_running<H>(running: &mut RunningTable<H>, uuid: u128, llm_id: &str) -> (r: Result<
    H,
    ApiError,
>)
    ensures
        r is Ok <==> old(running)@.contains_key(uuid),
        r matches Ok(h) ==> h == old(running)@[uuid],
        r matches Err(e) ==> e.status == StatusKind::NotFound && e.message@ == "LLM with ID '"@
            + llm_id@ + "' not found"@,
        final(running)@ == old(running)@.remove(uuid),
{
    match running.remove(uuid) {
        Some(h) => Ok(h),
        None => Err(llm_not_running(llm_id)),
    }
}

/// The running LLM a prompt is for; Not Found, naming its UUID, when it is
/// not running.
pub fn running_for_prompt<H>(running: &RunningTable<H>, uuid: u128) -> (r: Result<&H, ApiError>)
    ensures
        r is Ok <==> running@.contains_key(uuid),
        r matches Ok(h) ==> *h == running@[uuid],
        r matches Err(e) ==> e.status == StatusKind::NotFound && e.message@ == "LLM with UUID "@
            + uuid_text(uuid) + " not currently active. Either load it, or create a new session."@,
{
    match running.get(uuid) {
        Some(h) => Ok(h),
        None => {
            let m = "LLM with UUID ".to_owned().concat(uuid_to_text(uuid).as_str()).concat(
                " not currently active. Either load it, or create a new session.",
            );
            Err(ApiError { status: StatusKind::NotFound, message: m })
        },
    }
}

/// Starts an LLM, or reports the one already running under its UUID. A
/// running LLM is reported as it is and the table stays as it was; else the
/// LLM is recorded as started now at the user's request, with no inference
/// running, and reported.
pub fn load_into(running: &mut RunningTable<LLMActivated>, llm: LLM, now: i64) -> (r: LLMRunningStatus)
    ensures
        old(running)@.contains_key(llm.uuid) ==> {
            &&& final(running)@ == old(running)@
            &&& r.llm_info.reports(old(running)@[llm.uuid].llm, true)
            &&& r.uuid@ == uuid_text(old(running)@[llm.uuid].llm.uuid)
        },
        !old(running)@.contains_key(llm.uuid) ==> {
            let a = final(running)@[llm.uuid];
            &&& final(running)@ == old(running)@.insert(llm.uuid, a)
            &&& a.llm == llm
            &&& a.activated_reason@ == "User request"@
            &&& a.activated_time == now
            &&& a.interrupts@ == Map::<(u128, u128), Seq<CancellationToken>>::empty()
            &&& a.interrupts.cancelled() == Seq::<CancellationToken>::empty()
            &&& r.llm_info.reports(llm, true)
            &&& r.uuid@ == uuid_text(llm.uuid)
        },
{
    let uuid = llm.uuid;
    match running.get(uuid) {
        Some(existing) => LLMRunningStatus::from(existing),
        None => {
            let act = LLMActivated::activated(llm, now);
            let status = LLMRunningStatus::from(&act);
            running.insert(uuid, act);
            status
        },
    }
}

/// The answer when an LLM's actor could not be started.
pub fn launch_error() -> (e: ApiError)
    ensures
        e.status == StatusKind::InsufficientStorage,
        e.message@ == "Failed to launch llm: {id}"@,
{
    api_error(StatusKind::InsufficientStorage, "Failed to launch llm: {id}")
}

/// Once an LLM has been started, unloading it gives back what was recorded
/// for it and leaves the table as it was before the start.
pub proof fn unload_after_start<H>(m: Map<u128, H>, k: u128, h: H)
    requires
        !m.contains_key(k),
    ensures
        unload_outcome(m.insert(k, h), k) == Ok::<H, Seq<char>>(h),
        m.insert(k, h).remove(k) == m,
{
    assert(m.insert(k, h).remove(k) =~= m);
}

/// An LLM that was unloaded cannot be unloaded again.
pub proof fn unload_twice_fails<H>(m: Map<u128, H>, k: u128)
    ensures
        unload_outcome(m.remove(k), k) == Err::<H, Seq<char>>("LLM actor not found"@),
        m.remove(k).remove(k) == m.remove(k),
{
    assert(m.remove(k).remove(k) =~= m.remove(k));
}

/// Starting or unloading one LLM leaves every other LLM's record as it was.
pub proof fn other_llms_untouched<H>(m: Map<u128, H>, k: u128, h: H, other: u128)
    requires
        other != k,
    ensures
        m.insert(k, h).contains_key(other) == m.contains_key(other),
        m.remove(k).contains_key(other) == m.contains_key(other),
        m.contains_key(other) ==> m.insert(k, h)[other] == m[other] && m.remove(k)[other]
            == m[other],
{
}

} // verus!
