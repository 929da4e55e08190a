use pantry::connectors::LLMConnectorType;
use pantry::llm::{ParamValue, LLM};
use pantry::selection::{choose_bare_model, choose_downloaded_llm, choose_running_llm, score};
use pantry::server::{CapabilityFilter, CapabilityType, LLMFilter, LLMPreference, StatusKind};
use pantry::string_map::StrMap;

fn llm(id: &str, uuid: u128, family: &str, local: bool, caps: &[(&str, i64)], model: Option<&str>) -> LLM {
    let mut capabilities = StrMap::new();
    for (k, v) in caps {
        capabilities.insert(k.to_string(), *v);
    }
    LLM {
        id: id.to_string(),
        family_id: family.to_string(),
        organization: "org".to_string(),
        name: format!("{} name", id),
        homepage: String::new(),
        description: String::new(),
        license: String::new(),
        downloaded_reason: String::new(),
        downloaded_date: 0,
        last_called: None,
        capabilities,
        tags: vec![],
        requirements: String::new(),
        uuid,
        url: String::new(),
        local,
        connector_type: LLMConnectorType::LLMrs,
        config: StrMap::<ParamValue>::new(),
        model_path: model.map(|m| m.to_string()),
        parameters: StrMap::new(),
        user_parameters: vec![],
        session_parameters: StrMap::new(),
        user_session_parameters: vec![],
    }
}

fn no_filter() -> LLMFilter {
    LLMFilter { llm_uuid: None, llm_id: None, family_id: None, local: None, minimum_capabilities: None }
}

fn no_pref() -> LLMPreference {
    LLMPreference { llm_uuid: None, llm_id: None, local: None, family_id: None, capability_type: None }
}

fn sample() -> Vec<LLM> {
    vec![
        llm("a", 1, "llama", true, &[("general", 3), ("coding", 9)], Some("/m/a")),
        llm("b", 2, "gpt", false, &[("general", 7), ("coding", 1)], None),
        llm("c", 3, "llama", true, &[("general", 7)], Some("/m/c")),
        llm("d", 4, "mpt", true, &[], Some("/m/d")),
    ]
}

#[test]
fn score_defaults_to_minus_one() {
    let l = sample();
    assert_eq!(score(&l[0], CapabilityType::Coding), 9);
    assert_eq!(score(&l[3], CapabilityType::General), -1);
}

#[test]
fn empty_pool_is_not_found() {
    let r = choose_downloaded_llm(&vec![], &None, &None);
    let e = r.unwrap_err();
    assert_eq!(e.status, StatusKind::NotFound);
    assert_eq!(e.message, "No running LLM matching requirements.");
    assert_eq!(e.status.code(), 404);
    let r = choose_running_llm(&vec![], &None, &None);
    assert!(r.is_err());
}

#[test]
fn filter_with_no_match_is_not_found() {
    let mut f = no_filter();
    f.family_id = Some("falcon".to_string());
    assert_eq!(choose_downloaded_llm(&sample(), &Some(f.clone()), &None).unwrap_err().status, StatusKind::NotFound);
    assert!(choose_running_llm(&sample(), &Some(f), &None).is_err());
}

#[test]
fn downloaded_pick_is_last_most_capable() {
    // b and c tie at general 7; the later one wins.
    assert_eq!(choose_downloaded_llm(&sample(), &None, &None).unwrap(), 2);
}

#[test]
fn running_pick_is_most_capable() {
    // b and c tie at general 7; the later one wins, as for downloaded LLMs.
    assert_eq!(choose_running_llm(&sample(), &None, &None).unwrap(), 2);
    let two = vec![sample()[3].clone_for_test(), sample()[0].clone_for_test()];
    // a (3) beats d (no score, -1).
    assert_eq!(choose_running_llm(&two, &None, &None).unwrap(), 1);
}

trait CloneForTest {
    fn clone_for_test(&self) -> LLM;
}

impl CloneForTest for LLM {
    fn clone_for_test(&self) -> LLM {
        let caps: Vec<(String, i64)> = ["general", "coding", "assistant", "writing"]
            .iter()
            .filter_map(|k| self.capabilities.get(k).map(|v| (k.to_string(), *v)))
            .collect();
        let caps_ref: Vec<(&str, i64)> = caps.iter().map(|(k, v)| (k.as_str(), *v)).collect();
        llm(&self.id, self.uuid, &self.family_id, self.local, &caps_ref, self.model_path.as_deref())
    }
}

#[test]
fn filter_by_uuid_id_family_local() {
    let mut f = no_filter();
    f.llm_uuid = Some(2);
    assert_eq!(choose_downloaded_llm(&sample(), &Some(f), &None).unwrap(), 1);
    let mut f = no_filter();
    f.llm_id = Some("d".to_string());
    assert_eq!(choose_downloaded_llm(&sample(), &Some(f), &None).unwrap(), 3);
    let mut f = no_filter();
    f.family_id = Some("llama".to_string());
    assert_eq!(choose_downloaded_llm(&sample(), &Some(f.clone()), &None).unwrap(), 2);
    assert_eq!(choose_running_llm(&sample(), &Some(f), &None).unwrap(), 2);
    let mut f = no_filter();
    f.local = Some(false);
    assert_eq!(choose_running_llm(&sample(), &Some(f), &None).unwrap(), 1);
}

#[test]
fn minimum_capabilities_require_a_score() {
    let mut f = no_filter();
    f.minimum_capabilities = Some(vec![CapabilityFilter { capability: CapabilityType::Coding, value: 1 }]);
    // a (9) and b (1) qualify; c and d have no coding score.
    assert_eq!(choose_downloaded_llm(&sample(), &Some(f.clone()), &None).unwrap(), 1);
    f.minimum_capabilities = Some(vec![CapabilityFilter { capability: CapabilityType::Coding, value: 2 }]);
    assert_eq!(choose_downloaded_llm(&sample(), &Some(f), &None).unwrap(), 0);
}

#[test]
fn single_candidate_wins_over_preferences() {
    let mut f = no_filter();
    f.llm_id = Some("b".to_string());
    let mut p = no_pref();
    p.llm_uuid = Some(3);
    p.local = Some(true);
    assert_eq!(choose_downloaded_llm(&sample(), &Some(f.clone()), &Some(p.clone())).unwrap(), 1);
    assert_eq!(choose_running_llm(&sample(), &Some(f), &Some(p)).unwrap(), 1);
}

#[test]
fn downloaded_uuid_preference_is_honoured() {
    let mut p = no_pref();
    p.llm_uuid = Some(1);
    assert_eq!(choose_downloaded_llm(&sample(), &None, &Some(p)).unwrap(), 0);
    let mut p = no_pref();
    p.llm_id = Some("b".to_string());
    assert_eq!(choose_downloaded_llm(&sample(), &None, &Some(p.clone())).unwrap(), 1);
    // a preferred UUID nobody has falls back to the preferred id
    p.llm_uuid = Some(99);
    assert_eq!(choose_downloaded_llm(&sample(), &None, &Some(p)).unwrap(), 1);
}

#[test]
fn running_uuid_preference_is_honoured() {
    let mut p = no_pref();
    p.llm_uuid = Some(1);
    assert_eq!(choose_running_llm(&sample(), &None, &Some(p)).unwrap(), 0);
    let mut p = no_pref();
    p.llm_id = Some("c".to_string());
    assert_eq!(choose_running_llm(&sample(), &None, &Some(p)).unwrap(), 2);
}

#[test]
fn local_and_family_preferences_narrow() {
    let mut p = no_pref();
    p.local = Some(false);
    assert_eq!(choose_downloaded_llm(&sample(), &None, &Some(p.clone())).unwrap(), 1);
    p.local = None;
    p.family_id = Some("llama".to_string());
    p.capability_type = Some(CapabilityType::Coding);
    assert_eq!(choose_downloaded_llm(&sample(), &None, &Some(p.clone())).unwrap(), 0);
    // a preference nobody meets changes nothing
    p.family_id = Some("none".to_string());
    p.capability_type = None;
    assert_eq!(choose_downloaded_llm(&sample(), &None, &Some(p)).unwrap(), 2);
}

#[test]
fn bare_model_needs_a_model_file() {
    let mut f = no_filter();
    f.llm_id = Some("b".to_string());
    assert_eq!(choose_bare_model(&sample(), &Some(f), &None).unwrap_err().status, StatusKind::NotFound);
    // b has the top score but no file; c is the last of the rest with the top score
    assert_eq!(choose_bare_model(&sample(), &None, &None).unwrap(), 2);
}
