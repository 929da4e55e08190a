use pantry::connectors::factory::factory_llms;
use pantry::frontend::{DownloadResponse, LLMRunningInfo};
use pantry::llm::LLMActivated;
use pantry::user::{generate_api_key, User};
use pantry::connectors::llmrs::{architecture_text, tokenizer_choice, TokenizerChoice};
use pantry::deep_link::{deep_link_event, deep_link_event_from, DeepLinkEventPayload};
use pantry::llm::ParamValue;
use pantry::server::{create_session_id_filter, load_target, parse_request_id, LoadTarget, StatusKind};
use pantry::string_map::StrMap;

#[test]
fn uuid_text_round_trip() {
    let x: u128 = 0x67e55044_10b1_426f_9247_bb680e5fe0c8;
    let t = DownloadResponse::for_download("m", x).uuid;
    assert_eq!(t, "67e55044-10b1-426f-9247-bb680e5fe0c8");
    assert_eq!(parse_request_id(&t).unwrap(), x);
    assert_eq!(DownloadResponse::for_download("m", 0).uuid, "00000000-0000-0000-0000-000000000000");
}

#[test]
fn malformed_uuid_is_an_error() {
    let e = parse_request_id("nope").unwrap_err();
    assert_eq!(e.status, StatusKind::BadRequest);
    assert!(!e.message.is_empty());
    assert_eq!(parse_request_id("00000000-0000-0000-0000-000000000001").unwrap(), 1);
}

#[test]
fn fresh_uuids_are_version_four() {
    let a = User::new("a".to_string()).id;
    let b = User::new("b".to_string()).id;
    assert_eq!((a >> 76) & 0xf, 4);
    assert_ne!(a, b);
}

#[test]
fn keys_are_unpadded_url_safe_base64() {
    let k = generate_api_key();
    assert_eq!(k.len(), 43);
    assert!(!k.contains('=') && !k.contains('+') && !k.contains('/'));
}

#[test]
fn moments_outside_the_calendar_give_no_record() {
    let mut l = factory_llms().swap_remove(0);
    // factory models are dated now
    assert!(l.downloaded_date > 1_614_834_367_000_000);
    l.downloaded_date = i64::MAX;
    let act = LLMActivated::activated(l, 0);
    assert!(LLMRunningInfo::from(&act).is_none());
}

#[test]
fn session_id_names_by_uuid_or_id() {
    let f = create_session_id_filter("00000000-0000-0000-0000-00000000000a".to_string());
    assert_eq!(f.llm_uuid, Some(10));
    assert_eq!(f.llm_id, None);
    let f = create_session_id_filter("llama-7b".to_string());
    assert_eq!(f.llm_uuid, None);
    assert_eq!(f.llm_id.as_deref(), Some("llama-7b"));
    assert!(f.family_id.is_none() && f.local.is_none() && f.minimum_capabilities.is_none());
}

#[test]
fn load_target_by_public_id_or_uuid() {
    assert_eq!(load_target(1, "llama".to_string()).unwrap(), LoadTarget::ByPublicId("llama".to_string()));
    assert_eq!(
        load_target(0, "00000000-0000-0000-0000-000000000005".to_string()).unwrap(),
        LoadTarget::ByUuid(5)
    );
    let e = load_target(2, "llama".to_string()).unwrap_err();
    assert_eq!(e.status, StatusKind::BadRequest);
}

#[test]
fn download_link_names_the_download() {
    let ev = deep_link_event("pantry://download/eyJpZCI6MX0".to_string()).unwrap();
    assert_eq!(ev.raw, "pantry://download/eyJpZCI6MX0");
    assert_eq!(ev.payload, DeepLinkEventPayload::DownloadEvent { base64: "eyJpZCI6MX0".to_string() });
}

#[test]
fn other_hosts_are_passed_on() {
    let ev = deep_link_event("pantry://settings/open".to_string()).unwrap();
    assert_eq!(
        ev.payload,
        DeepLinkEventPayload::DebugEvent { debug1: "/open".to_string(), debug2: "settings".to_string() }
    );
}

#[test]
fn link_without_host_or_unparsable() {
    let ev = deep_link_event("pantry:download".to_string()).unwrap();
    assert_eq!(ev.payload, DeepLinkEventPayload::URLError { message: "No path".to_string() });
    let ev = deep_link_event("no scheme here".to_string()).unwrap();
    match ev.payload {
        DeepLinkEventPayload::URLError { message } => assert!(!message.is_empty()),
        other => panic!("unexpected {:?}", other),
    }
}

#[test]
fn download_link_with_empty_path_is_refused() {
    assert_eq!(deep_link_event("pantry://download".to_string()), None);
    let ev = deep_link_event_from("x".to_string(), Ok((Some("download".to_string()), "/abc".to_string())));
    assert_eq!(ev.payload, DeepLinkEventPayload::DownloadEvent { base64: "abc".to_string() });
    let ev = deep_link_event_from("x".to_string(), Err("bad".to_string()));
    assert_eq!(ev.payload, DeepLinkEventPayload::URLError { message: "bad".to_string() });
}

#[test]
fn tokenizer_and_architecture() {
    let mut c = StrMap::new();
    assert_eq!(tokenizer_choice(&c), TokenizerChoice::Embedded);
    assert_eq!(architecture_text(&c).unwrap_err(), "missing model architecture");
    c.insert("vocabulary_path".to_string(), ParamValue::Text("/v.json".to_string()));
    c.insert("model_architecture".to_string(), ParamValue::Text("llama".to_string()));
    assert_eq!(tokenizer_choice(&c), TokenizerChoice::File("/v.json".to_string()));
    assert_eq!(architecture_text(&c).unwrap(), "llama");
    let mut d = StrMap::new();
    d.insert("vocabulary_repository".to_string(), ParamValue::Text("org/tok".to_string()));
    assert_eq!(tokenizer_choice(&d), TokenizerChoice::Remote("org/tok".to_string()));
}
