use pantry::server::{user_permission_check, has_permission, Endpoint, StatusKind};
use pantry::user::{get_local_user, hash_api_key, Permissions, User, UserInfo, generate_api_key};
use pantry::cli::{new_cli_user, local_superuser};

fn plain_user() -> User {
    let mut u = User::new("alice".to_string());
    u.api_key = "key".to_string();
    u
}

#[test]
fn unknown_user_is_refused() {
    let e = user_permission_check("view_llms", "key", None).unwrap_err();
    assert_eq!(e.status, StatusKind::Unauthorized);
    assert_eq!(e.message, "Not a Valid User {:?}");
    assert_eq!(e.status.code(), 401);
}

#[test]
fn wrong_key_is_refused_even_for_superuser() {
    let mut u = plain_user();
    u.perm_superuser = true;
    let e = user_permission_check("", "other", Some(u.stored())).unwrap_err();
    assert_eq!(e.message, "Incorrect API Key");
}

#[test]
fn missing_permission_is_refused() {
    let u = plain_user();
    let e = user_permission_check("load_llm", "key", Some(u.stored())).unwrap_err();
    assert_eq!(e.status, StatusKind::Unauthorized);
    assert_eq!(e.message, "Incorrect Permissions");
}

#[test]
fn granted_permission_passes() {
    let mut u = plain_user();
    u.perm_view_llms = true;
    let ok = user_permission_check("view_llms", "key", Some(u.stored())).unwrap();
    assert_eq!(ok.name, "alice");
    assert!(user_permission_check("", "key", Some(plain_user().stored())).is_ok());
}

#[test]
fn superuser_passes_every_route() {
    let mut u = plain_user();
    u.perm_superuser = true;
    let routes = [
        Endpoint::RequestPermissions, Endpoint::RequestDownload, Endpoint::RequestLoad,
        Endpoint::RequestUnload, Endpoint::RequestLoadFlex, Endpoint::RequestStatus,
        Endpoint::GetLLMStatus, Endpoint::GetAvailableLLMs, Endpoint::GetRunningLLMs,
        Endpoint::InterruptSession, Endpoint::LoadLLM, Endpoint::LoadLLMFlex, Endpoint::UnloadLLM,
        Endpoint::DownloadLLM, Endpoint::CreateSession, Endpoint::PromptSessionStream,
        Endpoint::BareModel, Endpoint::BareModelFlex,
    ];
    for r in routes {
        let p = r.required_permission().unwrap();
        assert!(user_permission_check(p, "key", Some(u.stored())).is_ok());
    }
    assert_eq!(Endpoint::RegisterUser.required_permission(), None);
}

#[test]
fn load_requests_check_their_permission() {
    let mut u = plain_user();
    for r in [Endpoint::RequestLoad, Endpoint::RequestUnload, Endpoint::RequestLoadFlex] {
        let p = r.required_permission().unwrap();
        let e = user_permission_check(p, "key", Some(u.stored())).unwrap_err();
        assert_eq!(e.message, "Incorrect Permissions");
    }
    u.perm_request_load = true;
    assert!(user_permission_check(Endpoint::RequestLoad.required_permission().unwrap(), "key", Some(u.stored())).is_ok());
    assert!(user_permission_check(Endpoint::RequestLoadFlex.required_permission().unwrap(), "key", Some(u.stored())).is_ok());
    assert!(user_permission_check(Endpoint::RequestUnload.required_permission().unwrap(), "key", Some(u.stored())).is_err());
    u.perm_request_unload = true;
    assert!(user_permission_check(Endpoint::RequestUnload.required_permission().unwrap(), "key", Some(u.stored())).is_ok());
    assert_eq!(Endpoint::RequestLoad.required_permission(), Some("request_load"));
    assert_eq!(Endpoint::RequestUnload.required_permission(), Some("request_unload"));
    assert_eq!(Endpoint::RequestDownload.required_permission(), Some("request_download"));
}

#[test]
fn permission_names() {
    let mut u = plain_user();
    assert!(has_permission(&u, ""));
    assert!(!has_permission(&u, "session"));
    u.perm_session = true;
    assert!(has_permission(&u, "session"));
    assert!(!has_permission(&u, "nonsense"));
    u.perm_bare_model = true;
    assert!(has_permission(&u, "bare_model"));
}

#[test]
fn new_user_has_no_permissions_and_a_key() {
    let u = User::new("bob".to_string());
    let p = Permissions::from(&u);
    assert!(!p.perm_superuser && !p.perm_load_llm && !p.perm_view_llms && !p.perm_session);
    // 32 bytes in unpadded URL-safe base64
    assert_eq!(u.api_key.len(), 43);
    assert!(u.api_key.chars().all(|c| c.is_ascii_alphanumeric() || c == '-' || c == '_'));
    assert_eq!((u.id >> 76) & 0xf, 4);
    let v = User::new("bob".to_string());
    assert_ne!(u.id, v.id);
    assert_ne!(u.api_key, v.api_key);
}

#[test]
fn generated_keys_differ() {
    let a = generate_api_key();
    let b = generate_api_key();
    assert_eq!(a.len(), 43);
    assert_ne!(a, b);
}

#[test]
fn local_user_is_superuser_only() {
    let u = get_local_user();
    assert_eq!(u.id, 0);
    assert_eq!(u.name, "local");
    assert_eq!(u.api_key, "");
    assert!(u.perm_superuser);
    assert!(!u.perm_load_llm && !u.perm_view_llms);
    let s = local_superuser("secret".to_string());
    assert_eq!(s.api_key, "secret");
    assert!(s.perm_superuser);
    assert!(user_permission_check("load_llm", "secret", Some(s.stored())).is_ok());
}

#[test]
fn cli_user_is_superuser() {
    let u = new_cli_user();
    assert_eq!(u.name, "cli_user");
    assert!(u.perm_superuser);
    assert!(!u.perm_session);
}

#[test]
fn set_permissions_replaces_all() {
    let mut u = plain_user();
    let p = Permissions {
        perm_superuser: false, perm_load_llm: true, perm_unload_llm: false, perm_download_llm: true,
        perm_session: true, perm_request_download: false, perm_request_load: false,
        perm_request_unload: false, perm_view_llms: true, perm_bare_model: false,
    };
    u.set_permissions(p);
    assert_eq!(Permissions::from(&u), p);
    assert_eq!(u.name, "alice");
    let info = UserInfo::from(&u);
    assert!(info.perm_load_llm && info.perm_view_llms && !info.perm_bare_model);
    assert_eq!(info.api_key, "key");
}

#[test]
fn stored_row_keeps_only_the_key_hash() {
    assert_eq!(hash_api_key("key"), "cfc00230-6309-532c-b792-ac940a7e8739");
    assert_eq!(hash_api_key(""), "0a68eb57-c88a-5f34-9e9d-27f85e68af4f");
    let mut u = plain_user();
    u.perm_view_llms = true;
    let row = u.stored();
    assert_eq!(row.api_key, "cfc00230-6309-532c-b792-ac940a7e8739");
    assert_eq!(row.id, u.id);
    assert_eq!(row.name, u.name);
    assert_eq!(Permissions::from(&row), Permissions::from(&u));
    // The clear key opens the row; the stored hash itself does not.
    assert!(user_permission_check("view_llms", "key", Some(row.clone())).is_ok());
    let e = user_permission_check("view_llms", "cfc00230-6309-532c-b792-ac940a7e8739", Some(row.clone())).unwrap_err();
    assert_eq!(e.message, "Incorrect API Key");
    // A row holding the clear key is not opened by it.
    assert!(user_permission_check("view_llms", "key", Some(u)).is_err());
}
