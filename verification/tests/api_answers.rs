use pantry::connectors::{connector_dir_name, LLMConnectorType};
use pantry::interrupts::InterruptError;
use pantry::llm::{LLMActivated, ParamValue, LLM};
use pantry::manager::running_for_prompt;
use pantry::running::RunningTable;
use pantry::server::{
    database_error, filter_for_id, id_or_bad_request, llm_not_running, load_target_from, lookup_error,
    session_answer, BareModelResponse, CreateSessionResponse, LoadTarget, StatusKind,
};
use pantry::string_map::StrMap;

fn model(path: Option<&str>) -> LLM {
    let mut caps = StrMap::new();
    caps.insert("coding".to_string(), 4);
    LLM {
        id: "m".to_string(),
        family_id: "f".to_string(),
        organization: "o".to_string(),
        name: "Model".to_string(),
        homepage: String::new(),
        description: "desc".to_string(),
        license: String::new(),
        downloaded_reason: String::new(),
        downloaded_date: 0,
        last_called: Some(3),
        capabilities: caps,
        tags: vec!["t".to_string()],
        requirements: String::new(),
        uuid: 0xff,
        url: String::new(),
        local: false,
        connector_type: LLMConnectorType::GenericAPI,
        config: StrMap::new(),
        model_path: path.map(|p| p.to_string()),
        parameters: StrMap::new(),
        user_parameters: vec![],
        session_parameters: StrMap::new(),
        user_session_parameters: vec!["a".to_string()],
    }
}

#[test]
fn error_answers() {
    let e = database_error();
    assert_eq!((e.status, e.message.as_str()), (StatusKind::InternalServerError, "Database Error"));
    assert_eq!(e.status.code(), 500);
    let e = lookup_error(true);
    assert_eq!((e.status, e.message.as_str()), (StatusKind::NotFound, "Unable to find LLM"));
    assert_eq!(lookup_error(false).message, "Database Error");
    assert_eq!(llm_not_running("x").message, "LLM with ID 'x' not found");
    let e = id_or_bad_request(Err("bad uuid".to_string())).unwrap_err();
    assert_eq!((e.status, e.message.as_str()), (StatusKind::BadRequest, "bad uuid"));
    assert_eq!(e.status.code(), 400);
    assert_eq!(id_or_bad_request(Ok(7)).unwrap(), 7);
    assert_eq!(InterruptError::TokenMissing.display_text(), "Other Error: \"Cancellation token missing\"");
}

#[test]
fn naming_an_llm() {
    let f = filter_for_id(Ok(3), "x".to_string());
    assert_eq!((f.llm_uuid, f.llm_id), (Some(3), None));
    let f = filter_for_id(Err("no".to_string()), "x".to_string());
    assert_eq!((f.llm_uuid, f.llm_id.as_deref()), (None, Some("x")));
    assert_eq!(load_target_from(1, "x".to_string(), None).unwrap(), LoadTarget::ByPublicId("x".to_string()));
    assert_eq!(load_target_from(3, "x".to_string(), Some(Ok(9))).unwrap(), LoadTarget::ByUuid(9));
    let e = load_target_from(0, "x".to_string(), Some(Err("m".to_string()))).unwrap_err();
    assert_eq!((e.status, e.message.as_str()), (StatusKind::BadRequest, "m"));
}

#[test]
fn prompt_needs_a_running_llm() {
    let mut t: RunningTable<u8> = RunningTable::new();
    let e = running_for_prompt(&t, 1).unwrap_err();
    assert_eq!(e.status, StatusKind::NotFound);
    assert_eq!(
        e.message,
        "LLM with UUID 00000000-0000-0000-0000-000000000001 not currently active. Either load it, or create a new session."
    );
    t.insert(1, 5);
    assert_eq!(*running_for_prompt(&t, 1).unwrap(), 5);
}

#[test]
fn session_and_model_answers() {
    let act = LLMActivated::activated(model(Some("/models/m.bin")), 10);
    let mut params = StrMap::new();
    params.insert("k".to_string(), ParamValue::Text("v".to_string()));
    let r = CreateSessionResponse::new(params, &act, 2);
    assert_eq!(r.session_id, "00000000-0000-0000-0000-000000000002");
    assert!(r.llm_status.running);
    assert_eq!(r.llm_status.connector_type, "GenericAPI");
    assert_eq!(r.session_parameters.get("k"), Some(&ParamValue::Text("v".to_string())));
    let b = BareModelResponse::for_llm(&act.llm);
    assert_eq!(b.path, "/models/m.bin");
    assert!(!b.model.running);
    assert_eq!(b.model.uuid, "00000000-0000-0000-0000-0000000000ff");
    assert_eq!(act.info_text(), "ID: m, Name: Model, Description: desc");
}

#[test]
fn copies_and_directories() {
    let l = model(None);
    let c = l.duplicate();
    assert_eq!(c.id, l.id);
    assert_eq!(c.last_called, Some(3));
    assert_eq!(c.capabilities.get("coding"), Some(&4));
    assert_eq!(c.user_session_parameters, vec!["a".to_string()]);
    assert_eq!(connector_dir_name(LLMConnectorType::LLMrs, 1).unwrap(), "llmrs-00000000-0000-0000-0000-000000000001");
    assert_eq!(connector_dir_name(LLMConnectorType::OpenAI, 1).unwrap(), "openai-00000000-0000-0000-0000-000000000001");
    assert_eq!(connector_dir_name(LLMConnectorType::GenericAPI, 1), None);
}

#[test]
fn session_answer_arms_parameters_or_fails() {
    let mut m = model(None);
    m.session_parameters.insert("a".to_string(), ParamValue::Json("1".to_string()));
    m.session_parameters.insert("b".to_string(), ParamValue::Json("2".to_string()));
    let act = LLMActivated::activated(m, 10);
    let mut supplied = StrMap::new();
    supplied.insert("a".to_string(), ParamValue::Json("7".to_string()));
    supplied.insert("b".to_string(), ParamValue::Json("9".to_string()));
    let r = session_answer(&act, &supplied, Ok(5)).ok().unwrap();
    assert_eq!(r.session_id, "00000000-0000-0000-0000-000000000005");
    assert!(r.llm_status.running);
    // Only the overridable parameter takes the caller's value.
    assert_eq!(r.session_parameters.get("a"), Some(&ParamValue::Json("7".to_string())));
    assert_eq!(r.session_parameters.get("b"), Some(&ParamValue::Json("2".to_string())));
    let e = match session_answer(&act, &supplied, Err("engine down".to_string())) {
        Ok(_) => panic!("a failed creation must not answer with a session"),
        Err(e) => e,
    };
    assert_eq!(e.status, StatusKind::InternalServerError);
    assert_eq!(e.message, "Error creating session.");
}
