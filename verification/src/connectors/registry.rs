use vstd::prelude::*;
use crate::text::str_eq;

verus! {

/// Which connector a registry entry asks for.
#[derive(Debug, PartialEq, Eq, Clone, Copy)]
pub enum LLMRegistryEntryConnector {
    Ggml,
    OpenAI,
    GenericAPI,
}

/// The registry's spelling of each connector: `ggml`, `openai`, `api`.
pub open spec fn connector_from_text(s: Seq<char>) -> Option<LLMRegistryEntryConnector> {
    if s == "ggml"@ {
        Some(LLMRegistryEntryConnector::Ggml)
    } else if s == "api"@ {
        Some(LLMRegistryEntryConnector::GenericAPI)
    } else if s == "openai"@ {
        Some(LLMRegistryEntryConnector::OpenAI)
    } else {
        None
    }
}

impl LLMRegistryEntryConnector {
    /// Reads a connector name; anything but the three known names is refused.
    pub fn from_str(input: &str) -> (r: Result<LLMRegistryEntryConnector, ()>)
        ensures
            r is Ok <==> connector_from_text(input@) is Some,
            r matches Ok(c) ==> connector_from_text(input@) == Some(c),
    {
        if str_eq(input, "ggml") {
            Ok(LLMRegistryEntryConnector::Ggml)
        } else if str_eq(input, "api") {
            Ok(LLMRegistryEntryConnector::GenericAPI)
        } else if str_eq(input, "openai") {
            Ok(LLMRegistryEntryConnector::OpenAI)
        } else {
            Err(())
        }
    }
}

/// Where a registry entry's files come from.
#[derive(Debug, PartialEq, Eq, Clone, Copy)]
pub enum LLMRegistryEntrySource {
    GitHub,
    External,
}

/// The registry's spelling of each source: `github`, `external`.
pub open spec fn source_from_text(s: Seq<char>) -> Option<LLMRegistryEntrySource> {
    if s == "github"@ {
        Some(LLMRegistryEntrySource::GitHub)
    } else if s == "external"@ {
        Some(LLMRegistryEntrySource::External)
    } else {
        None
    }
}

impl LLMRegistryEntrySource {
    /// Reads a source name; anything but `github` and `external` is refused.
    pub fn from_str(input: &str) -> (r: Result<LLMRegistryEntrySource, ()>)
        ensures
            r is Ok <==> source_from_text(input@) is Some,
            r matches Ok(c) ==> source_from_text(input@) == Some(c),
    {
        if str_eq(input, "github") {
            Ok(LLMRegistryEntrySource::GitHub)
        } else if str_eq(input, "external") {
            Ok(LLMRegistryEntrySource::External)
        } else {
            Err(())
        }
    }
}

/// One step of installing a registry entry.
#[derive(Debug, PartialEq, Eq, Clone, Copy)]
pub enum LLMRegistryEntryInstallStep {
    Download,
}

impl LLMRegistryEntryInstallStep {
    /// Reads an install step; only `download` is known.
    pub fn from_str(input: &str) -> (r: Result<LLMRegistryEntryInstallStep, ()>)
        ensures
            r is Ok <==> input@ == "download"@,
    {
        if str_eq(input, "download") {
            Ok(LLMRegistryEntryInstallStep::Download)
        } else {
            Err(())
        }
    }
}

} // verus!
