use solostack_core::credentials::{
    delete_sync_provider_secure_auth, get_sync_provider_secure_auth, interpret_auth_read_outcome,
    interpret_auth_store_outcome, interpret_native_delete_outcome,
    normalize_sync_provider_identifier, run_sync_provider_secure_store_self_test,
    run_unsupported_secure_store_self_test, set_sync_provider_secure_auth,
    unsupported_secure_auth_delete, unsupported_secure_auth_get, unsupported_secure_auth_set,
};

#[test]
fn normalize_trims_surrounding_whitespace() {
    assert_eq!(
        normalize_sync_provider_identifier("  github  ").map(|s| s.as_str().to_owned()),
        Ok("github".to_owned())
    );
    assert_eq!(
        normalize_sync_provider_identifier("\u{3000}drive\t").map(|s| s.as_str().to_owned()),
        Ok("drive".to_owned())
    );
}

#[test]
fn normalize_rejects_empty_and_whitespace_only() {
    assert_eq!(normalize_sync_provider_identifier(""), Err("provider is required".to_owned()));
    assert_eq!(normalize_sync_provider_identifier("   "), Err("provider is required".to_owned()));
    assert_eq!(
        normalize_sync_provider_identifier("\t\r\n"),
        Err("provider is required".to_owned())
    );
}

#[test]
fn get_rejects_invalid_provider() {
    assert_eq!(
        get_sync_provider_secure_auth("   "),
        Err("provider is required".to_owned())
    );
}

#[test]
fn set_rejects_empty_auth_before_touching_any_backend() {
    assert_eq!(
        set_sync_provider_secure_auth("github", ""),
        Err("auth payload is required".to_owned())
    );
    assert_eq!(
        set_sync_provider_secure_auth("github", "   \t"),
        Err("auth payload is required".to_owned())
    );
}

#[test]
fn set_rejects_invalid_provider_when_auth_is_present() {
    assert_eq!(
        set_sync_provider_secure_auth("  ", "token"),
        Err("provider is required".to_owned())
    );
}

#[test]
fn delete_rejects_invalid_provider() {
    assert_eq!(
        delete_sync_provider_secure_auth(""),
        Err("provider is required".to_owned())
    );
}

#[test]
fn set_and_delete_succeed_against_the_store() {
    assert_eq!(set_sync_provider_secure_auth("github", " token-1 "), Ok(()));
    assert_eq!(delete_sync_provider_secure_auth("github"), Ok(()));
}

#[test]
fn get_of_unknown_provider_is_absent() {
    assert_eq!(get_sync_provider_secure_auth("never-stored"), Ok(None));
}

#[test]
fn self_test_round_trips_against_the_store() {
    let result = run_sync_provider_secure_store_self_test();
    assert_eq!(result.runtime.as_str(), "tauri");
    assert_eq!(result.backend.as_str(), "keyring");
    assert!(result.available);
    assert!(result.write_ok, "write failed: {:?}", result.detail);
    assert!(result.read_ok, "read failed: {:?}", result.detail);
    assert!(result.delete_ok, "delete failed: {:?}", result.detail);
    assert!(result.roundtrip_ok);
    assert!(result.detail.is_none());
}

#[test]
fn unsupported_backend_is_a_silent_no_op() {
    assert_eq!(unsupported_secure_auth_get("github"), Ok(None));
    assert_eq!(unsupported_secure_auth_set("github", "token"), Ok(()));
    assert_eq!(unsupported_secure_auth_delete("github"), Ok(()));
}

#[test]
fn unsupported_self_test_reports_unavailable_with_detail() {
    let result = run_unsupported_secure_store_self_test();
    assert_eq!(result.runtime.as_str(), "tauri");
    assert_eq!(result.backend.as_str(), "unsupported");
    assert!(!result.available);
    assert!(!result.write_ok && !result.read_ok && !result.delete_ok);
    assert!(!result.roundtrip_ok);
    assert_eq!(
        result.detail.as_deref(),
        Some("secure store self-test is not supported on this platform")
    );
}

#[test]
fn read_outcome_interpretation_is_exact() {
    assert_eq!(interpret_auth_read_outcome(Err("keychain locked".to_owned())), None);
    assert_eq!(interpret_auth_read_outcome(Ok("".to_owned())), None);
    assert_eq!(interpret_auth_read_outcome(Ok("  \t".to_owned())), None);
    assert_eq!(
        interpret_auth_read_outcome(Ok(" token-9 ".to_owned())).as_deref(),
        Some("token-9")
    );
}

#[test]
fn store_write_failure_is_never_swallowed() {
    assert_eq!(interpret_auth_store_outcome(Ok(())), Ok(()));
    assert_eq!(
        interpret_auth_store_outcome(Err("denied".to_owned())),
        Err("store secure auth failed: denied".to_owned())
    );
}

#[test]
fn native_delete_failure_is_swallowed() {
    assert_eq!(interpret_native_delete_outcome(Ok(())), Ok(()));
    assert_eq!(interpret_native_delete_outcome(Err("no such credential".to_owned())), Ok(()));
}
