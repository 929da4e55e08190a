use vstd::prelude::*;
use crate::interrupts::token_is_cancelled;
use crate::connectors::LLMEventInternal;
use crate::llm::{LLMHistoryItem, ParamValue};
use crate::string_map::StrMap;
use crate::text::starts_with;
use tokio_util::sync::CancellationToken;

verus! {

/// The text of a string parameter; empty when the parameter is missing or
/// not a string.
pub open spec fn text_param(params: Map<Seq<char>, ParamValue>, name: Seq<char>) -> Option<Seq<char>> {
    if params.contains_key(name) && params[name] is Text {
        Some(params[name]->Text_0@)
    } else {
        None
    }
}

/// The text of an optional piece, empty when absent.
pub open spec fn or_empty(t: Option<Seq<char>>) -> Seq<char> {
    match t {
        Some(s) => s,
        None => Seq::empty(),
    }
}

/// The text of a string parameter, if it is one.
fn string_param<'a>(params: &'a StrMap<ParamValue>, name: &str) -> (r: Option<&'a String>)
    ensures
        match r {
            Some(s) => text_param(params@, name@) == Some(s@),
            None => text_param(params@, name@) is None,
        },
{
    match params.get(name) {
        Some(v) => v.as_text(),
        None => None,
    }
}

/// The prompt an LLM is fed, and the sequence that ends its answer: the
/// `pre_prompt` parameter, the prompt, then the `post_prompt` parameter;
/// the pre-prompt, when given, is also the stop sequence.
pub fn prepare_prompt(prompt: String, params: &StrMap<ParamValue>) -> (r: (String, Option<String>))
    ensures
        r.0@ == or_empty(text_param(params@, "pre_prompt"@)) + prompt@ + or_empty(
            text_param(params@, "post_prompt"@),
        ),
        match r.1 {
            Some(s) => text_param(params@, "pre_prompt"@) == Some(s@),
            None => text_param(params@, "pre_prompt"@) is None,
        },
{
    let mut stop_sequence: Option<String> = None;
    let mut processed = prompt;
    match string_param(params, "pre_prompt") {
        Some(pre) => {
            stop_sequence = Some(pre.clone());
            processed = pre.clone().concat(processed.as_str());
        },
        None => {
            assert(processed@ =~= Seq::<char>::empty() + prompt@);
        },
    }
    let ghost mid = processed@;
    match string_param(params, "post_prompt") {
        Some(post) => {
            processed = processed.concat(post.as_str());
        },
        None => {
            assert(processed@ =~= mid + Seq::<char>::empty());
        },
    }
    (processed, stop_sequence)
}

/// Whether an inferred token ends the answer: the caller cancelled it, or
/// the text buffered so far followed by the token begins with the stop
/// sequence.
pub open spec fn token_stops(
    stop: Option<Seq<char>>,
    buffered: Seq<char>,
    token: Seq<char>,
    cancelled: bool,
) -> bool {
    ||| cancelled
    ||| (stop matches Some(s) && s.is_prefix_of(buffered + token))
}

/// What stays buffered after a token: with a stop sequence, the text seen
/// so far while it is still the start of the stop sequence, and nothing once
/// the stop sequence is reached or ruled out; without one, the buffer as it
/// was.
pub open spec fn buffer_after(stop: Option<Seq<char>>, buffered: Seq<char>, token: Seq<char>) -> Seq<char> {
    match stop {
        Some(s) => if s.is_prefix_of(buffered + token) {
            Seq::empty()
        } else if (buffered + token).is_prefix_of(s) {
            buffered + token
        } else {
            Seq::empty()
        },
        None => buffered,
    }
}

/// A stop sequence that arrives split over two tokens is caught: the first
/// part stays buffered, and the second token halts the inference.
pub proof fn split_stop_sequence_halts(stop: Seq<char>, first: Seq<char>, second: Seq<char>)
    requires
        first.is_prefix_of(stop),
        first.len() < stop.len(),
        stop.is_prefix_of(first + second),
    ensures
        !token_stops(Some(stop), Seq::empty(), first, false),
        buffer_after(Some(stop), Seq::empty(), first) == first,
        token_stops(Some(stop), buffer_after(Some(stop), Seq::empty(), first), second, false),
{
    assert(Seq::<char>::empty() + first =~= first);
}

/// Once the caller has cancelled, the token halts the inference whatever
/// the stop sequence and the text buffered so far; and a step that halts
/// without a cancellation has reached the stop sequence.
pub proof fn cancellation_halts_whatever_the_stop(
    stop: Option<Seq<char>>,
    buffered: Seq<char>,
    token: Seq<char>,
)
    ensures
        token_stops(stop, buffered, token, true),
        token_stops(stop, buffered, token, false) ==> (stop matches Some(s) && s.is_prefix_of(
            buffered + token,
        )),
{
}

/// The stop sequence, as text.
pub open spec fn stop_text(stop: Option<String>) -> Option<Seq<char>> {
    match stop {
        Some(s) => Some(s@),
        None => None,
    }
}

/// Looks at one inferred token, given whether the caller has cancelled.
/// A stop sequence split over several tokens is caught: the text that is
/// still the start of the stop sequence stays buffered. Returns whether to
/// halt.
pub fn stop_sequence_step(stop: &Option<String>, buffer: &mut String, token: &str, cancelled: bool) -> (halt: bool)
    ensures
        halt == token_stops(stop_text(*stop), old(buffer)@, token@, cancelled),
        final(buffer)@ == buffer_after(stop_text(*stop), old(buffer)@, token@),
{
    let mut cancel = false;
    if let Some(stop_seq) = stop {
        let buf = buffer.clone().concat(token);
        if starts_with(buf.as_str(), stop_seq.as_str()) {
            *buffer = String::new();
            cancel = true;
        } else if starts_with(stop_seq.as_str(), buf.as_str()) {
            *buffer = buf;
        } else {
            *buffer = String::new();
        }
    }
    if cancelled {
        cancel = true;
    }
    cancel
}

/// Looks at one inferred token, asking the inference's cancellation token
/// whether the caller has cancelled. Halts at least whenever the stop
/// sequence is reached.
pub fn token_halts_inference(
    stop: &Option<String>,
    buffer: &mut String,
    token: &str,
    cancellation: &CancellationToken,
) -> (halt: bool)
    ensures
        token_stops(stop_text(*stop), old(buffer)@, token@, false) ==> halt,
        final(buffer)@ == buffer_after(stop_text(*stop), old(buffer)@, token@),
{
    let cancelled = token_is_cancelled(cancellation);
    stop_sequence_step(stop, buffer, token, cancelled)
}

/// What one inferred token leaves behind: the prompt's record with the
/// token appended, the progress event, the completion event when the
/// inference halts, and whether it halts.
pub struct TokenReport {
    pub item: LLMHistoryItem,
    pub progress: LLMEventInternal,
    pub completion: Option<LLMEventInternal>,
    pub halt: bool,
}

/// Handles one inferred token of a prompt: decides whether the inference
/// halts (the stop sequence is reached, or the caller cancelled), appends
/// the token to the answer, marking it complete when halting, and reports
/// the token, then the finished answer when halting.
pub fn report_token(
    item: LLMHistoryItem,
    stop: &Option<String>,
    buffer: &mut String,
    token: &str,
    cancellation: &CancellationToken,
    now: i64,
) -> (r: TokenReport)
    ensures
        token_stops(stop_text(*stop), old(buffer)@, token@, false) ==> r.halt,
        final(buffer)@ == buffer_after(stop_text(*stop), old(buffer)@, token@),
        r.item.output@ == item.output@ + token@,
        r.item.complete == r.halt,
        r.item.updated_timestamp == now,
        r.item.id == item.id,
        r.item.llm_session_id == item.llm_session_id,
        r.item.call_timestamp == item.call_timestamp,
        r.item.parameters == item.parameters,
        r.item.input == item.input,
        r.progress matches LLMEventInternal::PromptProgress { previous, next } && previous@
            == item.output@ && next@ == token@,
        r.halt ==> (r.completion matches Some(LLMEventInternal::PromptCompletion { previous })
            && previous@ == r.item.output@),
        !r.halt ==> r.completion is None,
{
    let halt = token_halts_inference(stop, buffer, token, cancellation);
    let progress = LLMEventInternal::PromptProgress {
        previous: item.output.clone(),
        next: token.to_owned(),
    };
    let item = item.with_token(token, halt, now);
    let completion = if halt {
        Some(LLMEventInternal::PromptCompletion { previous: item.output.clone() })
    } else {
        None
    };
    TokenReport { item, progress, completion, halt }
}

/// The prompt's record once the model signals the end of its text: nothing
/// appended, marked complete.
pub fn finish_on_end_of_text(item: LLMHistoryItem, now: i64) -> (r: LLMHistoryItem)
    ensures
        r.output@ == item.output@,
        r.complete,
        r.updated_timestamp == now,
        r.id == item.id,
        r.input == item.input,
{
    let r = item.with_token("", true, now);
    proof {
        reveal_strlit("");
        assert(r.output@ =~= item.output@);
    }
    r
}

/// Of the loaded sessions (id, time last called), the one that upkeep
/// writes to disk: none while at most one is loaded; else the last listed
/// of those called most recently (what sorting by time, stably, and taking
/// the last gives).
pub open spec fn session_to_dehydrate(sessions: Seq<(u128, i64)>) -> Option<u128> {
    if sessions.len() <= 1 {
        None
    } else {
        Some(latest_session(sessions))
    }
}

/// The last listed of the sessions called most recently.
pub open spec fn latest_session(sessions: Seq<(u128, i64)>) -> u128
    decreases sessions.len(),
{
    if sessions.len() <= 1 {
        sessions[0].0
    } else {
        let rest = sessions.drop_last();
        let best = latest_session(rest);
        if sessions.last().1 >= latest_time(rest) {
            sessions.last().0
        } else {
            best
        }
    }
}

/// The most recent call time among the sessions.
pub open spec fn latest_time(sessions: Seq<(u128, i64)>) -> i64
    decreases sessions.len(),
{
    if sessions.len() <= 1 {
        sessions[0].1
    } else {
        let rest = sessions.drop_last();
        if sessions.last().1 >= latest_time(rest) {
            sessions.last().1
        } else {
            latest_time(rest)
        }
    }
}

/// The latest-called session stands in the list, with the latest call
/// time, and no session was called later.
proof fn lemma_latest_session(sessions: Seq<(u128, i64)>)
    requires
        sessions.len() >= 1,
    ensures
        exists|i: int|
            0 <= i < sessions.len() && #[trigger] sessions[i].0 == latest_session(sessions)
                && sessions[i].1 == latest_time(sessions),
        forall|j: int| 0 <= j < sessions.len() ==> #[trigger] sessions[j].1 <= latest_time(sessions),
    decreases sessions.len(),
{
    if sessions.len() <= 1 {
        assert(sessions[0].0 == latest_session(sessions));
    } else {
        let rest = sessions.drop_last();
        lemma_latest_session(rest);
        let k = choose|i: int|
            0 <= i < rest.len() && #[trigger] rest[i].0 == latest_session(rest) && rest[i].1
                == latest_time(rest);
        if sessions.last().1 >= latest_time(rest) {
            assert(sessions[sessions.len() - 1].0 == latest_session(sessions));
        } else {
            assert(sessions[k] == rest[k]);
            assert(sessions[k].0 == latest_session(sessions));
        }
        assert forall|j: int| 0 <= j < sessions.len() implies #[trigger] sessions[j].1 <= latest_time(
            sessions,
        ) by {
            if j < sessions.len() - 1 {
                assert(sessions[j] == rest[j]);
            }
        }
    }
}

/// Upkeep writes a session to disk exactly when more than one is loaded,
/// and the one it writes is loaded and was called no earlier than any
/// other.
pub proof fn dehydrated_session_is_latest_called(sessions: Seq<(u128, i64)>)
    ensures
        session_to_dehydrate(sessions) is None <==> sessions.len() <= 1,
        sessions.len() > 1 ==> exists|i: int|
            0 <= i < sessions.len() && #[trigger] sessions[i].0 == session_to_dehydrate(sessions)->Some_0
                && forall|j: int| 0 <= j < sessions.len() ==> sessions[j].1 <= sessions[i].1,
{
    if sessions.len() > 1 {
        lemma_latest_session(sessions);
        let k = choose|i: int|
            0 <= i < sessions.len() && #[trigger] sessions[i].0 == latest_session(sessions)
                && sessions[i].1 == latest_time(sessions);
        assert(sessions[k].0 == session_to_dehydrate(sessions)->Some_0);
    }
}

/// Picks the loaded session that upkeep writes to disk.
pub fn choose_session_to_dehydrate(sessions: &Vec<(u128, i64)>) -> (r: Option<u128>)
    ensures
        r == session_to_dehydrate(sessions@),
{
    if sessions.len() <= 1 {
        return None;
    }
    let mut best = sessions[0].0;
    let mut best_time = sessions[0].1;
    let mut i: usize = 1;
    proof {
        assert(sessions@.take(1).len() == 1);
    }
    while i < sessions.len()
        invariant
            1 <= i <= sessions@.len(),
            best == latest_session(sessions@.take(i as int)),
            best_time == latest_time(sessions@.take(i as int)),
        decreases sessions@.len() - i,
    {
        proof {
            assert(sessions@.take(i + 1).drop_last() == sessions@.take(i as int));
        }
        if sessions[i].1 >= best_time {
            best = sessions[i].0;
            best_time = sessions[i].1;
        }
        i = i + 1;
    }
    proof {
        assert(sessions@.take(sessions@.len() as int) == sessions@);
    }
    Some(best)
}

/// Where a prompted session comes from.
#[derive(Debug, Clone, Copy, PartialEq, Eq)]
pub enum SessionSource {
    /// It is loaded already.
    Loaded,
    /// It is stored for this LLM and is read back from disk.
    Rehydrate,
    /// It is stored, but for another LLM.
    OtherLLM,
    /// It is not stored.
    Missing,
}

/// Decides where a session comes from: loaded already, or else looked up in
/// the database (`stored_for` is the LLM the stored session belongs to, if
/// the lookup found one) and read back only if it belongs to this LLM.
pub fn session_source(loaded: bool, stored_for: Option<u128>, own_llm: u128) -> (r: SessionSource)
    ensures
        loaded ==> r == SessionSource::Loaded,
        !loaded ==> match stored_for {
            None => r == SessionSource::Missing,
            Some(l) => r == (if l == own_llm {
                SessionSource::Rehydrate
            } else {
                SessionSource::OtherLLM
            }),
        },
{
    if loaded {
        SessionSource::Loaded
    } else {
        match stored_for {
            None => SessionSource::Missing,
            Some(l) => if l == own_llm {
                SessionSource::Rehydrate
            } else {
                SessionSource::OtherLLM
            },
        }
    }
}

/// The system prompt a new session is fed first: the `system_prompt`
/// parameter, when it is a string.
pub fn system_prompt(params: &StrMap<ParamValue>) -> (r: Option<String>)
    ensures
        match r {
            Some(s) => text_param(params@, "system_prompt"@) == Some(s@),
            None => text_param(params@, "system_prompt"@) is None,
        },
{
    match string_param(params, "system_prompt") {
        Some(s) => Some(s.clone()),
        None => None,
    }
}

/// The text a configuration value names: a string's contents, or the JSON
/// text of any other value.
pub open spec fn param_plain_text(v: ParamValue) -> Seq<char> {
    match v {
        ParamValue::Text(s) => s@,
        ParamValue::Json(t) => t@,
    }
}

/// The text a configuration value names.
fn plain_text(v: &ParamValue) -> (r: String)
    ensures
        r@ == param_plain_text(*v),
{
    match v {
        ParamValue::Text(s) => s.clone(),
        ParamValue::Json(t) => t.clone(),
    }
}

/// Where an LLM's tokenizer comes from.
#[derive(Debug, Clone, PartialEq, Eq)]
pub enum TokenizerChoice {
    /// A Hugging Face tokenizer file at this path.
    File(String),
    /// A Hugging Face repository.
    Remote(String),
    /// The one embedded in the model file.
    Embedded,
}

/// The tokenizer an LLM is loaded with: the `vocabulary_path` configuration
/// (a file), else `vocabulary_repository` (a repository), else the embedded
/// one, each named by the configured string. Both together are refused.
pub fn tokenizer_choice(config: &StrMap<ParamValue>) -> (r: TokenizerChoice)
    requires
        !(config@.contains_key("vocabulary_path"@) && config@.contains_key(
            "vocabulary_repository"@,
        )),
    ensures
        config@.contains_key("vocabulary_path"@) ==> (r matches TokenizerChoice::File(p) && p@
            == param_plain_text(config@["vocabulary_path"@])),
        config@.contains_key("vocabulary_repository"@) ==> (r matches TokenizerChoice::Remote(p)
            && p@ == param_plain_text(config@["vocabulary_repository"@])),
        !config@.contains_key("vocabulary_path"@) && !config@.contains_key(
            "vocabulary_repository"@,
        ) ==> r == TokenizerChoice::Embedded,
{
    match config.get("vocabulary_path") {
        Some(path) => TokenizerChoice::File(plain_text(path)),
        None => match config.get("vocabulary_repository") {
            Some(repo) => TokenizerChoice::Remote(plain_text(repo)),
            None => TokenizerChoice::Embedded,
        },
    }
}

/// The model architecture an LLM is loaded as: the name in its
/// `model_architecture` configuration, which is required.
pub fn architecture_text(config: &StrMap<ParamValue>) -> (r: Result<String, String>)
    ensures
        config@.contains_key("model_architecture"@) ==> (r matches Ok(t) && t@ == param_plain_text(
            config@["model_architecture"@],
        )),
        !config@.contains_key("model_architecture"@) ==> (r matches Err(e) && e@
            == "missing model architecture"@),
{
    match config.get("model_architecture") {
        Some(v) => Ok(plain_text(v)),
        None => Err("missing model architecture".to_owned()),
    }
}

} // verus!
