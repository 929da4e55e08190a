use pantry::cli::{cli_credentials, cli_env_lines, cli_subcommand, list_target, CliSubcommand, KeychainOutcome, ListTarget};
use pantry::connectors::factory::factory_llms;
use pantry::connectors::llmrs::{
    choose_session_to_dehydrate, prepare_prompt, session_source, stop_sequence_step, system_prompt, SessionSource,
};
use pantry::connectors::registry::{LLMRegistryEntryConnector, LLMRegistryEntrySource};
use pantry::connectors::{connector_plan, ConnectorPlan, LLMConnectorType, LLMSessionStatus};
use pantry::emitter::{channel_close, download_end_events, DownloadOutcome, EmitterEventPayload};
use pantry::frontend::{CommandResponse, DownloadResponse, LLMAvailableInfo, LLMInfo, LLMRequestInfo, LLMRunningInfo};
use pantry::listeners::{flatten, serve_outcome, ServeEnd, TaskEnd};
use pantry::llm::{LLMActivated, LLMHistoryItem, LLMSession, ParamValue, LLM};
use pantry::registry::{download_plan, download_stream_id, should_report_progress, DownloadPlan, LLMRegistryEntryInstallStep};
use pantry::request::{accept_action, request_status_for, LoadRequest, PermissionRequest, RequestAction, UserRequest, UserRequestStatus, UserRequestType, UnloadRequest};
use pantry::server::{LLMRunningStatus, LLMStatus, StatusKind};
use pantry::state::{SettingEffect, SettingValue, UserSettings, UserSettingsInfo};
use pantry::string_map::StrMap;
use pantry::user::{Permissions, User, UserInfo};
use tokio_util::sync::CancellationToken;

fn uuid_to_text(x: u128) -> String {
    uuid::Uuid::from_u128(x).to_string()
}

fn sample_llm() -> LLM {
    let mut caps = StrMap::new();
    caps.insert("general".to_string(), 5);
    let mut params = StrMap::new();
    params.insert("temperature".to_string(), ParamValue::Json("0.5".to_string()));
    LLM {
        id: "llama".to_string(),
        family_id: "llama".to_string(),
        organization: "meta".to_string(),
        name: "Llama".to_string(),
        homepage: "https://example.org".to_string(),
        description: "a model".to_string(),
        license: "mit".to_string(),
        downloaded_reason: "testing".to_string(),
        downloaded_date: 1_614_834_367_000_000,
        last_called: None,
        capabilities: caps,
        tags: vec!["local".to_string()],
        requirements: "ram".to_string(),
        uuid: 0x10,
        url: "https://example.org/m.bin".to_string(),
        local: true,
        connector_type: LLMConnectorType::LLMrs,
        config: StrMap::new(),
        model_path: Some("/m.bin".to_string()),
        parameters: params,
        user_parameters: vec!["temperature".to_string()],
        session_parameters: StrMap::new(),
        user_session_parameters: vec![],
    }
}

#[test]
fn connector_names_round_trip() {
    for c in [LLMConnectorType::GenericAPI, LLMConnectorType::LLMrs, LLMConnectorType::OpenAI] {
        assert_eq!(LLMConnectorType::from_text(c.to_text()), Some(c));
    }
    assert_eq!(LLMConnectorType::OpenAI.to_text(), "OpenAI");
    assert_eq!(LLMConnectorType::from_text("openai"), None);
}

#[test]
fn registry_names() {
    assert_eq!(LLMRegistryEntryConnector::from_str("ggml"), Ok(LLMRegistryEntryConnector::Ggml));
    assert_eq!(LLMRegistryEntryConnector::from_str("api"), Ok(LLMRegistryEntryConnector::GenericAPI));
    assert_eq!(LLMRegistryEntryConnector::from_str("openai"), Ok(LLMRegistryEntryConnector::OpenAI));
    assert!(LLMRegistryEntryConnector::from_str("GGML").is_err());
    assert_eq!(LLMRegistryEntrySource::from_str("github"), Ok(LLMRegistryEntrySource::GitHub));
    assert_eq!(LLMRegistryEntrySource::from_str("external"), Ok(LLMRegistryEntrySource::External));
    assert!(LLMRegistryEntrySource::from_str("").is_err());
    assert_eq!(LLMRegistryEntryInstallStep::from_str("download"), Ok(LLMRegistryEntryInstallStep::Download));
    assert!(LLMRegistryEntryInstallStep::from_str("install").is_err());
}

#[test]
fn download_bookkeeping() {
    let id = download_stream_id("llama", 1);
    assert_eq!(id, "llama-00000000-0000-0000-0000-000000000001");
    let r = DownloadResponse::for_download("llama", 1);
    assert_eq!(r.uuid, "00000000-0000-0000-0000-000000000001");
    assert_eq!(r.stream, id);
    assert!(should_report_progress(1));
    assert!(should_report_progress(1001));
    assert!(!should_report_progress(0));
    assert!(!should_report_progress(2));
    assert_eq!(download_plan(true, Some(Some("/p".to_string()))), DownloadPlan::ReusePath("/p".to_string()));
    assert_eq!(download_plan(false, Some(Some("/p".to_string()))), DownloadPlan::Fetch);
    assert_eq!(download_plan(true, None), DownloadPlan::Fetch);
    let ev = download_end_events("s", DownloadOutcome::Saved);
    assert!(matches!(ev[0].event, EmitterEventPayload::DownloadCompletion));
    assert!(matches!(ev[1].event, EmitterEventPayload::ChannelClose));
    let ev = download_end_events("s", DownloadOutcome::NotSaved);
    match &ev[0].event {
        EmitterEventPayload::DownloadError { message } => assert_eq!(message, "failed to save llm"),
        _ => panic!("expected an error event"),
    }
    let ev = download_end_events("s", DownloadOutcome::Failed("timed out".to_string()));
    match &ev[0].event {
        EmitterEventPayload::DownloadError { message } => assert_eq!(message, "timed out"),
        _ => panic!("expected an error event"),
    }
    assert!(matches!(ev[1].event, EmitterEventPayload::ChannelClose));
    assert_eq!(channel_close("q").stream_id, "q");
}

#[test]
fn factory_models() {
    let l = factory_llms();
    assert_eq!(l.len(), 2);
    assert_eq!(l[0].id, "openai_ada");
    assert_eq!(l[1].id, "openai_gpt4");
    assert_eq!(l[0].capabilities.get("TEXT_COMPLETION"), Some(&2));
    assert_eq!(l[1].capabilities.get("CONVERSATION"), Some(&10));
    assert_eq!(l[0].parameters.get("temperature"), Some(&ParamValue::Json("0.5".to_string())));
    assert_eq!(l[0].config.get("model"), Some(&ParamValue::Text("text-davinci-ada".to_string())));
    assert_eq!(l[0].connector_type, LLMConnectorType::OpenAI);
    assert!(!l[0].local && l[1].local);
}

#[test]
fn status_records() {
    let l = sample_llm();
    let s = LLMStatus::from_llm(&l);
    assert_eq!(s.uuid, "00000000-0000-0000-0000-000000000010");
    assert_eq!(s.connector_type, "LLMrs");
    assert!(!s.running);
    assert_eq!(s.capabilities.get("general"), Some(&5));
    let info = LLMInfo::from(&l);
    assert_eq!(info.name, "Llama");
    assert_eq!(info.tags, vec!["local".to_string()]);
    let avail = LLMAvailableInfo::from(&l);
    assert_eq!(avail.downloaded, "testing");
    let act = LLMActivated::activated(l, 1_614_834_367_000_000);
    assert_eq!(act.activated_reason, "User request");
    let run = LLMRunningStatus::from(&act);
    assert!(run.llm_info.running);
    assert_eq!(run.uuid, uuid_to_text(0x10));
    let ri = LLMRunningInfo::from(&act).unwrap();
    assert_eq!(ri.download_reason, "Downloaded Mar  4 05:06:07 2021 for testing");
    assert_eq!(ri.activated, "Activated Mar  4 05:06:07 2021 for User request");
    assert_eq!(CommandResponse::new(5).data, 5);
}

#[test]
fn activated_llm_parameters_and_interrupts() {
    let mut act = LLMActivated::activated(sample_llm(), 0);
    let mut supplied = StrMap::new();
    supplied.insert("temperature".to_string(), ParamValue::Json("1".to_string()));
    let p = act.prompt_parameters_for(&supplied);
    assert_eq!(p.get("temperature"), Some(&ParamValue::Json("1".to_string())));
    let s = act.session_parameters_for(&supplied);
    assert_eq!(s.len(), 0);
    let user = User::new("u".to_string());
    let tok = CancellationToken::new();
    act.track_inference(9, &user, tok.clone());
    assert_eq!(act.interrupt_session(9, &user), Ok(true));
    assert!(tok.is_cancelled());
    assert_eq!(act.interrupt_session(9, &user), Ok(false));
}

#[test]
fn prompt_preparation() {
    let mut params = StrMap::new();
    params.insert("pre_prompt".to_string(), ParamValue::Text("User: ".to_string()));
    params.insert("post_prompt".to_string(), ParamValue::Text("\nBot:".to_string()));
    let (p, stop) = prepare_prompt("hi".to_string(), &params);
    assert_eq!(p, "User: hi\nBot:");
    assert_eq!(stop, Some("User: ".to_string()));
    let (p, stop) = prepare_prompt("hi".to_string(), &StrMap::new());
    assert_eq!(p, "hi");
    assert_eq!(stop, None);
    let mut sp = StrMap::new();
    sp.insert("system_prompt".to_string(), ParamValue::Text("be nice".to_string()));
    assert_eq!(system_prompt(&sp), Some("be nice".to_string()));
    sp.insert("system_prompt".to_string(), ParamValue::Json("3".to_string()));
    assert_eq!(system_prompt(&sp), None);
}

#[test]
fn stop_sequence_halts() {
    let stop = Some("User:".to_string());
    let mut buf = String::new();
    assert!(!stop_sequence_step(&stop, &mut buf, "Hello", false));
    assert_eq!(buf, "");
    assert!(stop_sequence_step(&stop, &mut buf, "User: more", false));
    assert_eq!(buf, "");
    // split over two tokens
    assert!(!stop_sequence_step(&stop, &mut buf, "Us", false));
    assert_eq!(buf, "Us");
    assert!(stop_sequence_step(&stop, &mut buf, "er:", false));
    assert_eq!(buf, "");
    // a started stop sequence that goes elsewhere is dropped
    assert!(!stop_sequence_step(&stop, &mut buf, "Use", false));
    assert!(!stop_sequence_step(&stop, &mut buf, "ful", false));
    assert_eq!(buf, "");
    assert!(stop_sequence_step(&None, &mut buf, "x", true));
    assert!(!stop_sequence_step(&None, &mut buf, "x", false));
}

#[test]
fn session_upkeep() {
    assert_eq!(choose_session_to_dehydrate(&vec![(1, 5)]), None);
    assert_eq!(choose_session_to_dehydrate(&vec![(1, 5), (2, 9), (3, 9), (4, 1)]), Some(3));
    assert_eq!(session_source(true, None, 1), SessionSource::Loaded);
    assert_eq!(session_source(false, Some(1), 1), SessionSource::Rehydrate);
    assert_eq!(session_source(false, Some(2), 1), SessionSource::OtherLLM);
    assert_eq!(session_source(false, None, 1), SessionSource::Missing);
}

#[test]
fn sessions_and_history() {
    let mut params = StrMap::new();
    params.insert("k".to_string(), ParamValue::Json("1".to_string()));
    let s = LLMSession::started_now(1, 2, 3, 100, params);
    let st = LLMSessionStatus::from(&s);
    assert_eq!((st.id, st.llm_uuid, st.user_id, st.started, st.last_called), (1, 2, 3, 100, 100));
    assert_eq!(st.session_parameters.len(), 1);
    let h = LLMHistoryItem::pending(4, 1, 100, StrMap::new(), "in".to_string());
    assert_eq!(h.output, "");
    let h = h.with_token("ab", false, 101).with_token("c", true, 102);
    assert_eq!(h.output, "abc");
    assert!(h.complete);
    assert_eq!(h.updated_timestamp, 102);
    assert_eq!(h.call_timestamp, 100);
}

#[test]
fn settings_changes() {
    let mut s = UserSettings::new("/x/user_settings.json".to_string(), "/x".to_string());
    assert_eq!(s.n_thread, 4);
    assert_eq!(s.set_user_setting("n_thread", SettingValue::UInt(8)), Ok(SettingEffect::Updated));
    assert_eq!(s.set_user_setting("use_gpu", SettingValue::Bool(true)), Ok(SettingEffect::Updated));
    let info = UserSettingsInfo::from(&s);
    assert_eq!(info, UserSettingsInfo { use_gpu: true, n_thread: 8, n_batch: 1 });
    assert_eq!(
        s.set_user_setting("n_batch", SettingValue::Bool(true)),
        Err("Invalid value for 'n_batch'".to_string())
    );
    assert_eq!(s.set_user_setting("colour", SettingValue::Other), Err("Unknown setting 'colour'".to_string()));
    assert_eq!(
        s.set_user_setting("openai_key", SettingValue::Text("sk".to_string())),
        Ok(SettingEffect::StoreOpenAIKey("sk".to_string()))
    );
    assert_eq!(s.get_location(), "/x/user_settings.json");
    assert_eq!(UserSettingsInfo::from(&s).n_batch, 1);
}

#[test]
fn requests_and_their_status() {
    let user = User::new("carol".to_string());
    let req = UserRequest::new_pending(11, &user, UserRequestType::LoadRequest(LoadRequest { llm_id: "x".to_string() }), 5);
    assert!(!req.complete && !req.accepted);
    assert_eq!(req.reason, "reason");
    match request_status_for(user.id.wrapping_add(1), req) {
        Err(other) => {
            assert_eq!(other.status, StatusKind::NotFound);
            assert_eq!(other.message, "Request Not Found");
        }
        Ok(_) => panic!("another user must not see the request"),
    }
    let req = UserRequest::new_pending(11, &user, UserRequestType::UnloadRequest(UnloadRequest { llm_id: "y".to_string() }), 5);
    let st: UserRequestStatus = match request_status_for(user.id, req) {
        Ok(s) => s,
        Err(e) => panic!("the owner must see the request: {:?}", e),
    };
    assert_eq!(st.id, 11);
    let fresh = UserRequest::new_for(&user, UserRequestType::PermissionRequest(PermissionRequest {
        requested_permissions: Permissions::from(&user),
    }));
    assert_eq!((fresh.id >> 76) & 0xf, 4);
    let decided = fresh.decided(true);
    assert!(decided.complete && decided.accepted);
    match accept_action(decided) {
        RequestAction::UpdatePermissions(id, _) => assert_eq!(id, user.id),
        _ => panic!("expected a permission change"),
    }
    let req = UserRequest::new_pending(12, &user, UserRequestType::LoadRequest(LoadRequest { llm_id: "z".to_string() }), 5);
    match accept_action(req) {
        RequestAction::Load(id) => assert_eq!(id, "z"),
        _ => panic!("expected a load"),
    }
    let info = LLMRequestInfo::from(UserRequest::new_pending(1, &user, UserRequestType::UnloadRequest(UnloadRequest { llm_id: "q".to_string() }), 7));
    assert_eq!(info.id, "00000000-0000-0000-0000-000000000001");
    assert_eq!(info.user_id, uuid_to_text(user.id));
    assert_eq!(LoadRequest::for_llm(&sample_llm()).llm_id, "00000000-0000-0000-0000-000000000010");
    let ui = UserInfo::from(&user);
    let (a, b) = cli_env_lines(&ui);
    assert_eq!(a, format!("PANTRY_CLI_USER={}", uuid_to_text(user.id)));
    assert_eq!(b, format!("PANTRY_CLI_KEY={}", user.api_key));
}

#[test]
fn command_line() {
    assert_eq!(cli_subcommand("list"), CliSubcommand::List);
    assert_eq!(cli_subcommand("new_cli_user"), CliSubcommand::NewCliUser);
    assert_eq!(cli_subcommand("frobnicate"), CliSubcommand::Unrecognized);
    assert_eq!(list_target("available"), ListTarget::Available);
    assert_eq!(list_target(""), ListTarget::Unnamed);
    assert_eq!(cli_credentials(Ok(5), "k".to_string(), KeychainOutcome::Failed), Ok((5, "k".to_string())));
    assert_eq!(
        cli_credentials(Err("x".to_string()), "".to_string(), KeychainOutcome::Stored("pw".to_string())),
        Ok((0, "pw".to_string()))
    );
    assert_eq!(
        cli_credentials(Err("x".to_string()), "".to_string(), KeychainOutcome::Failed),
        Err("Unable to detect cli user/password".to_string())
    );
}

#[test]
fn serving_and_connectors() {
    assert_eq!(flatten::<u8>(TaskEnd::Aborted), Err("handling failed".to_string()));
    assert_eq!(flatten(TaskEnd::Returned(Ok(3))), Ok(3));
    assert_eq!(serve_outcome(Ok(()), Ok(())), ServeEnd::RemoveSocket);
    assert_eq!(serve_outcome(Err("a".to_string()), Err("b".to_string())), ServeEnd::Failed("a".to_string()));
    assert_eq!(serve_outcome(Ok(()), Err("b".to_string())), ServeEnd::Failed("b".to_string()));
    assert!(matches!(connector_plan(LLMConnectorType::OpenAI, None), ConnectorPlan::OpenAI));
    match connector_plan(LLMConnectorType::LLMrs, Some("/m".to_string())) {
        ConnectorPlan::LLMrs { model_path } => assert_eq!(model_path, "/m"),
        _ => panic!("expected a local model"),
    }
}
