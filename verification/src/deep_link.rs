use vstd::prelude::*;
use crate::text::str_eq;

verus! {

/// What a `pantry://` link asks the desktop app to do.
#[derive(Debug, Clone, PartialEq, Eq)]
pub enum DeepLinkEventPayload {
    URLError { message: String },
    DownloadEvent { base64: String },
    DebugEvent { debug1: String, debug2: String },
}

/// A link, as received, with what it asks for.
#[derive(Debug, Clone, PartialEq, Eq)]
pub struct DeepLinkEvent {
    pub raw: String,
    pub payload: DeepLinkEventPayload,
}

/// What `url::Url::parse` makes of a text: its host and path, or the text
/// of the parse error.
pub uninterp spec fn url_parts(text: Seq<char>) -> Result<(Option<Seq<char>>, Seq<char>), Seq<char>>;

/// The text inside an optional string.
pub open spec fn opt_view(h: Option<String>) -> Option<Seq<char>> {
    match h {
        Some(s) => Some(s@),
        None => None,
    }
}

/// Calls `url::Url::parse` and returns `host_str` and `path` of the URL, or
/// the error's display text. Claimed: the result is `url_parts` of the
/// text, which depends on the text alone.
#[verifier::external_body]
fn parse_url(text: &str) -> (r: Result<(Option<String>, String), String>)
    ensures
        match r {
            Ok((h, p)) => url_parts(text@) == Ok::<(Option<Seq<char>>, Seq<char>), Seq<char>>(
                (opt_view(h), p@),
            ),
            Err(e) => url_parts(text@) == Err::<(Option<Seq<char>>, Seq<char>), Seq<char>>(e@),
        },
{
    match url::Url::parse(text) {
        Ok(u) => {
            let host = match u.host_str() {
                Some(h) => Some(h.to_owned()),
                None => None,
            };
            Ok((host, u.path().to_owned()))
        },
        Err(e) => Err(e.to_string()),
    }
}

/// A download link whose path has no first character to drop as one byte:
/// the path is empty or begins with a character outside ASCII.
pub open spec fn unsliceable_download(parts: Result<(Option<Seq<char>>, Seq<char>), Seq<char>>) -> bool {
    match parts {
        Ok((Some(h), p)) => h == "download"@ && (p.len() == 0 || p[0] as u32 >= 128),
        _ => false,
    }
}

/// The parts of a parsed link, taken by their text.
pub open spec fn parts_view(parts: Result<(Option<String>, String), String>) -> Result<
    (Option<Seq<char>>, Seq<char>),
    Seq<char>,
> {
    match parts {
        Ok((h, p)) => Ok((opt_view(h), p@)),
        Err(e) => Err(e@),
    }
}

/// The event a link makes, from what parsing it gave: a `download` host asks
/// for the download its path names (the path without its leading
/// character), any other host is passed on for debugging with the path, a
/// link without host is an error, and so is one that does not parse.
pub fn deep_link_event_from(raw: String, parts: Result<(Option<String>, String), String>) -> (r:
    DeepLinkEvent)
    requires
        !unsliceable_download(parts_view(parts)),
    ensures
        r.raw == raw,
        match parts {
            Ok((Some(h), p)) => if h@ == "download"@ {
                r.payload matches DeepLinkEventPayload::DownloadEvent { base64 } && base64@
                    == p@.drop_first()
            } else {
                r.payload matches DeepLinkEventPayload::DebugEvent { debug1, debug2 } && debug1@
                    == p@ && debug2@ == h@
            },
            Ok((None, _)) => r.payload matches DeepLinkEventPayload::URLError { message }
                && message@ == "No path"@,
            Err(e) => r.payload matches DeepLinkEventPayload::URLError { message } && message
                == e,
        },
{
    match parts {
        Ok((Some(h), p)) => {
            if str_eq(h.as_str(), "download") {
                let n = p.as_str().unicode_len();
                let rest = p.as_str().substring_char(1, n);
                DeepLinkEvent {
                    raw,
                    payload: DeepLinkEventPayload::DownloadEvent { base64: rest.to_owned() },
                }
            } else {
                DeepLinkEvent {
                    raw,
                    payload: DeepLinkEventPayload::DebugEvent { debug1: p, debug2: h },
                }
            }
        },
        Ok((None, _)) => DeepLinkEvent {
            raw,
            payload: DeepLinkEventPayload::URLError { message: "No path".to_owned() },
        },
        Err(e) => DeepLinkEvent { raw, payload: DeepLinkEventPayload::URLError { message: e } },
    }
}

/// The event a `pantry://` link makes. `None` for a `download` link whose
/// path is empty or begins with a character outside ASCII, where there is
/// no leading byte to drop.
pub fn deep_link_event(raw: String) -> (r: Option<DeepLinkEvent>)
    ensures
        r is None <==> unsliceable_download(url_parts(raw@)),
        r matches Some(ev) ==> ev.raw == raw,
        r matches Some(ev) ==> match url_parts(raw@) {
            Ok((Some(h), p)) => if h == "download"@ {
                ev.payload matches DeepLinkEventPayload::DownloadEvent { base64 } && base64@
                    == p.drop_first()
            } else {
                ev.payload matches DeepLinkEventPayload::DebugEvent { debug1, debug2 } && debug1@
                    == p && debug2@ == h
            },
            Ok((None, _)) => ev.payload matches DeepLinkEventPayload::URLError { message }
                && message@ == "No path"@,
            Err(e) => ev.payload matches DeepLinkEventPayload::URLError { message } && message@
                == e,
        },
{
    let parts = parse_url(raw.as_str());
    let unsliceable = match &parts {
        Ok((Some(h), p)) => str_eq(h.as_str(), "download") && (p.as_str().unicode_len() == 0
            || p.as_str().get_char(0) as u32 >= 128),
        _ => false,
    };
    if unsliceable {
        None
    } else {
        Some(deep_link_event_from(raw, parts))
    }
}

} // verus!
