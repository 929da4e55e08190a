use vstd::prelude::*;
use crate::connectors::LLMEvent;

verus! {

/// What the desktop panel is told on an event stream.
pub enum EmitterEventPayload {
    LLMResponse(LLMEvent),
    DownloadProgress { progress: String },
    DownloadCompletion,
    DownloadError { message: String },
    /// Always the last event of a stream.
    ChannelClose,
    Other,
}

/// An event of a stream.
pub struct EmitterEvent {
    pub stream_id: String,
    pub event: EmitterEventPayload,
}

/// How a download ended.
pub enum DownloadOutcome {
    /// The model is on disk and the LLM was recorded.
    Saved,
    /// The model is on disk but the LLM could not be recorded.
    NotSaved,
    /// The download itself failed, for the reason given.
    Failed(String),
}

/// The events that end a download's stream: completion, or an error (the
/// LLM could not be recorded, or the download failed and why); then, in
/// every case, the close.
pub fn download_end_events(stream_id: &str, outcome: DownloadOutcome) -> (r: Vec<EmitterEvent>)
    ensures
        r@.len() == 2,
        r@[0].stream_id@ == stream_id@,
        r@[1].stream_id@ == stream_id@,
        outcome is Saved ==> r@[0].event is DownloadCompletion,
        outcome is NotSaved ==> (r@[0].event matches EmitterEventPayload::DownloadError { message }
            && message@ == "failed to save llm"@),
        outcome matches DownloadOutcome::Failed(why) ==> (r@[0].event matches EmitterEventPayload::DownloadError { message }
            && message == why),
        r@[1].event is ChannelClose,
{
    let first = match outcome {
        DownloadOutcome::Saved => EmitterEventPayload::DownloadCompletion,
        DownloadOutcome::NotSaved => EmitterEventPayload::DownloadError {
            message: "failed to save llm".to_owned(),
        },
        DownloadOutcome::Failed(why) => EmitterEventPayload::DownloadError { message: why },
    };
    let mut r: Vec<EmitterEvent> = Vec::new();
    r.push(EmitterEvent { stream_id: stream_id.to_owned(), event: first });
    r.push(EmitterEvent { stream_id: stream_id.to_owned(), event: EmitterEventPayload::ChannelClose });
    r
}

/// The event that closes a stream.
pub fn channel_close(stream_id: &str) -> (r: EmitterEvent)
    ensures
        r.stream_id@ == stream_id@,
        r.event is ChannelClose,
{
    EmitterEvent { stream_id: stream_id.to_owned(), event: EmitterEventPayload::ChannelClose }
}

} // verus!
