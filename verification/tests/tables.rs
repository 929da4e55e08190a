use pantry::interrupts::{InterruptError, InterruptTable};
use pantry::llm::{arm_parameters, ParamValue};
use pantry::manager::{check_not_loaded, launch_error, running_llm, take_running, unload_actor, unload_running};
use pantry::running::RunningTable;
use pantry::server::StatusKind;
use pantry::string_map::{duplicate_all, StrMap};
use tokio_util::sync::CancellationToken;

#[test]
fn str_map_read_back_and_replace() {
    let mut m: StrMap<i64> = StrMap::new();
    assert_eq!(m.len(), 0);
    m.insert("a".to_string(), 1);
    m.insert("b".to_string(), 2);
    m.insert("a".to_string(), 3);
    assert_eq!(m.len(), 2);
    assert_eq!(m.get("a"), Some(&3));
    assert_eq!(m.get("b"), Some(&2));
    assert!(!m.contains_key("c"));
    let d = m.duplicate();
    assert_eq!(d.get("a"), Some(&3));
    assert_eq!(d.len(), 2);
}

#[test]
fn duplicate_all_copies() {
    let v = vec!["x".to_string(), "y".to_string()];
    assert_eq!(duplicate_all(&v), v);
}

#[test]
fn arming_parameters() {
    let mut fixed = StrMap::new();
    fixed.insert("temperature".to_string(), ParamValue::Json("0.5".to_string()));
    fixed.insert("color".to_string(), ParamValue::Text("red".to_string()));
    let overridable = vec!["temperature".to_string(), "top_k".to_string()];
    let mut supplied = StrMap::new();
    supplied.insert("temperature".to_string(), ParamValue::Json("0.9".to_string()));
    supplied.insert("color".to_string(), ParamValue::Text("blue".to_string()));
    supplied.insert("top_k".to_string(), ParamValue::Json("40".to_string()));
    supplied.insert("evil".to_string(), ParamValue::Json("1".to_string()));
    let armed = arm_parameters(fixed.duplicate(), &overridable, &supplied);
    assert_eq!(armed.get("temperature"), Some(&ParamValue::Json("0.9".to_string())));
    assert_eq!(armed.get("color"), Some(&ParamValue::Text("red".to_string())));
    assert_eq!(armed.get("top_k"), Some(&ParamValue::Json("40".to_string())));
    assert_eq!(armed.get("evil"), None);
    assert_eq!(armed.len(), 3);
    let plain = arm_parameters(fixed.duplicate(), &overridable, &StrMap::new());
    assert_eq!(plain.len(), 2);
    assert_eq!(plain.get("temperature"), Some(&ParamValue::Json("0.5".to_string())));
}

#[test]
fn running_table_load_and_unload() {
    let mut t: RunningTable<&str> = RunningTable::new();
    assert!(check_not_loaded(&t, 7).is_ok());
    t.insert(7, "seven");
    t.insert(8, "eight");
    assert_eq!(check_not_loaded(&t, 7).unwrap_err(), "llm already loaded");
    assert_eq!(*running_llm(&t, 8).unwrap(), "eight");
    let mut keys = t.keys();
    keys.sort();
    assert_eq!(keys, vec![7, 8]);
    assert_eq!(unload_running(&mut t, 7).unwrap(), "seven");
    assert_eq!(unload_running(&mut t, 7).unwrap_err(), "LLM not found or already unloaded");
    assert_eq!(t.get(8), Some(&"eight"));
    let e = running_llm(&t, 7).unwrap_err();
    assert_eq!(e.status, StatusKind::NotFound);
    assert_eq!(e.message, "LLM not running");
}

#[test]
fn manager_unloads_each_actor_once() {
    let mut actors: RunningTable<u32> = RunningTable::new();
    actors.insert(1, 100);
    assert_eq!(unload_actor(&mut actors, 1), Ok(100));
    assert_eq!(unload_actor(&mut actors, 1), Err("LLM actor not found".to_string()));
    assert!(!actors.contains_key(1));
}

#[test]
fn api_unload_of_missing_llm() {
    let mut t: RunningTable<u8> = RunningTable::new();
    t.insert(3, 9);
    let e = take_running(&mut t, 4, "abc").unwrap_err();
    assert_eq!(e.status, StatusKind::NotFound);
    assert_eq!(e.message, "LLM with ID 'abc' not found");
    assert_eq!(take_running(&mut t, 3, "abc").unwrap(), 9);
    let l = launch_error();
    assert_eq!(l.status.code(), 507);
    assert_eq!(l.message, "Failed to launch llm: {id}");
}

#[test]
fn interrupt_after_start_stops_it() {
    let mut t = InterruptTable::new();
    let tok = CancellationToken::new();
    t.register((1, 2), tok.clone());
    assert_eq!(t.token_count((1, 2)), Some(1));
    assert_eq!(t.interrupt((1, 2)), Ok(true));
    assert!(tok.is_cancelled());
    assert_eq!(t.token_count((1, 2)), Some(0));
    // the second time nothing is left to stop
    assert_eq!(t.interrupt((1, 2)), Ok(false));
}

#[test]
fn interrupt_unknown_session_is_an_error() {
    let mut t = InterruptTable::new();
    assert_eq!(t.interrupt((5, 5)), Err(InterruptError::TokenMissing));
    assert_eq!(t.token_count((5, 5)), None);
}

#[test]
fn interrupt_leaves_other_sessions() {
    let mut t = InterruptTable::new();
    let a = CancellationToken::new();
    let b = CancellationToken::new();
    let c = CancellationToken::new();
    t.register((1, 1), a.clone());
    t.register((1, 1), b.clone());
    t.register((2, 1), c.clone());
    assert_eq!(t.token_count((1, 1)), Some(2));
    assert_eq!(t.interrupt((1, 1)), Ok(true));
    assert!(a.is_cancelled() && b.is_cancelled());
    assert!(!c.is_cancelled());
    assert_eq!(t.token_count((2, 1)), Some(1));
    // same session, another user: a separate key
    assert_eq!(t.interrupt((1, 2)), Err(InterruptError::TokenMissing));
}
