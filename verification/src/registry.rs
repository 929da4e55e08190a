use vstd::prelude::*;
use crate::connectors::LLMConnectorType;
use crate::ids::{uuid_text, uuid_to_text};
use crate::llm::{LLM, ParamValue};
use crate::string_map::StrMap;
use crate::text::str_eq;

verus! {

/// One step of installing a registry entry.
#[derive(Debug, PartialEq, Eq, Clone, Copy)]
pub enum LLMRegistryEntryInstallStep {
    Download,
}

impl LLMRegistryEntryInstallStep {
    /// Reads an install step; only `download` is known.
    pub fn from_str(input: &str) -> (r: Result<LLMRegistryEntryInstallStep, ()>)
        ensures
            r is Ok <==> input@ == "download"@,
    {
        if str_eq(input, "download") {
            Ok(LLMRegistryEntryInstallStep::Download)
        } else {
            Err(())
        }
    }
}

/// An LLM offered by a registry, before it is downloaded.
pub struct LLMRegistryEntry {
    pub id: String,
    pub family_id: String,
    pub organization: String,
    pub name: String,
    pub license: String,
    pub description: String,
    pub homepage: String,
    pub capabilities: StrMap<i64>,
    pub tags: Vec<String>,
    pub requirements: String,
    pub backend_uuid: String,
    pub url: String,
    pub config: StrMap<ParamValue>,
    pub local: bool,
    pub connector_type: LLMConnectorType,
    pub parameters: StrMap<ParamValue>,
    pub user_parameters: Vec<String>,
    pub session_parameters: StrMap<ParamValue>,
    pub user_session_parameters: Vec<String>,
}

/// The LLM recorded once a registry entry's model is on disk: the entry's
/// description, under the new UUID, at the model path, downloaded now and
/// never called.
pub fn llm_from_registry_entry(entry: LLMRegistryEntry, uuid: u128, model_path: String, now: i64) -> (l: LLM)
    ensures
        l.id == entry.id,
        l.family_id == entry.family_id,
        l.organization == entry.organization,
        l.name == entry.name,
        l.license == entry.license,
        l.description == entry.description,
        l.homepage == entry.homepage,
        l.downloaded_reason@ == "some kind of user input"@,
        l.downloaded_date == now,
        l.last_called is None,
        l.url == entry.url,
        l.uuid == uuid,
        l.capabilities == entry.capabilities,
        l.tags == entry.tags,
        l.requirements == entry.requirements,
        l.local == entry.local,
        l.connector_type == entry.connector_type,
        l.config == entry.config,
        l.parameters == entry.parameters,
        l.user_parameters == entry.user_parameters,
        l.session_parameters == entry.session_parameters,
        l.user_session_parameters == entry.user_session_parameters,
        l.model_path == Some(model_path),
{
    LLM {
        id: entry.id,
        family_id: entry.family_id,
        organization: entry.organization,
        name: entry.name,
        license: entry.license,
        description: entry.description,
        downloaded_reason: String::from_str("some kind of user input"),
        downloaded_date: now,
        last_called: None,
        url: entry.url,
        homepage: entry.homepage,
        uuid,
        capabilities: entry.capabilities,
        tags: entry.tags,
        requirements: entry.requirements,
        local: entry.local,
        connector_type: entry.connector_type,
        config: entry.config,
        parameters: entry.parameters,
        user_parameters: entry.user_parameters,
        session_parameters: entry.session_parameters,
        user_session_parameters: entry.user_session_parameters,
        model_path: Some(model_path),
    }
}

/// The name of the event stream that reports a download: the entry's id, a
/// hyphen, and the download's UUID.
pub open spec fn download_stream_name(id: Seq<char>, uuid: u128) -> Seq<char> {
    id + "-"@ + uuid_text(uuid)
}

/// The name of the event stream that reports a download.
pub fn download_stream_id(id: &str, uuid: u128) -> (r: String)
    ensures
        r@ == download_stream_name(id@, uuid),
{
    let s = id.to_owned().concat("-");
    let u = uuid_to_text(uuid);
    s.concat(u.as_str())
}

/// Progress is reported on the first chunk and then every thousandth.
pub fn should_report_progress(chunks_received: u64) -> (r: bool)
    ensures
        r == (chunks_received % 1000 == 1),
{
    chunks_received % 1000 == 1
}

/// How a download is carried out.
#[derive(Debug, Clone, PartialEq, Eq)]
pub enum DownloadPlan {
    /// The model is already on disk at this path; record it again.
    ReusePath(String),
    /// Fetch the model.
    Fetch,
}

/// Decides whether to fetch a model. With deduplication on and an LLM of the
/// same URL already recorded (`existing_path` is its model path), that
/// model file is reused.
pub fn download_plan(dedup_downloads: bool, existing_path: Option<Option<String>>) -> (r: DownloadPlan)
    requires
        dedup_downloads ==> existing_path != Some(None::<String>),
    ensures
        match (dedup_downloads, existing_path) {
            (true, Some(Some(p))) => r == DownloadPlan::ReusePath(p),
            _ => r == DownloadPlan::Fetch,
        },
{
    if dedup_downloads {
        match existing_path {
            Some(Some(p)) => DownloadPlan::ReusePath(p),
            _ => DownloadPlan::Fetch,
        }
    } else {
        DownloadPlan::Fetch
    }
}

} // verus!
