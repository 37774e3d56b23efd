use solostack_core::bridge::{
    build_bridged_self_test_result, interpret_android_auth_payload, interpret_android_delete_ack,
    interpret_android_write_ack, prepare_bridged_auth_write, resolve_bridged_auth_read,
    resolve_secure_store_bridge_call, BridgeCallOutcome, ANDROID_SECURE_STORE_TIMEOUT_MS,
};
use solostack_core::self_test::{build_secure_store_self_test_result, SelfTestProgress};

#[test]
fn roundtrip_flag_is_derived_from_all_four() {
    let result = build_secure_store_self_test_result("keyring", true, true, true, true, None);
    assert!(result.roundtrip_ok);
    let result = build_secure_store_self_test_result("keyring", true, true, false, true, None);
    assert!(!result.roundtrip_ok);
    let result = build_secure_store_self_test_result("keyring", false, true, true, true, None);
    assert!(!result.roundtrip_ok);
    assert_eq!(result.runtime.as_str(), "tauri");
    assert_eq!(result.backend.as_str(), "keyring");
}

#[test]
fn matching_payload_makes_the_round_trip_succeed() {
    let mut progress = SelfTestProgress::new();
    progress.record_write(Ok(()));
    assert!(progress.should_read());
    progress.record_read(Ok(Some("payload".to_owned())), "payload");
    progress.record_delete(Ok(()));
    let result = progress.into_result("keyring", true);
    assert!(result.write_ok && result.read_ok && result.delete_ok && result.roundtrip_ok);
    assert!(result.detail.is_none());
}

#[test]
fn mismatched_payload_fails_read_independent_of_delete() {
    let mut progress = SelfTestProgress::new();
    progress.record_write(Ok(()));
    progress.record_read(Ok(Some("other".to_owned())), "payload");
    progress.record_delete(Ok(()));
    let result = progress.into_result("keyring", true);
    assert!(!result.read_ok);
    assert!(result.delete_ok);
    assert!(!result.roundtrip_ok);
    assert_eq!(result.detail.as_deref(), Some("read payload mismatch"));

    let mut progress = SelfTestProgress::new();
    progress.record_write(Ok(()));
    progress.record_read(Ok(Some("other".to_owned())), "payload");
    progress.record_delete(Err("delete refused".to_owned()));
    let result = progress.into_result("keyring", true);
    assert!(!result.read_ok && !result.delete_ok && !result.roundtrip_ok);
    assert_eq!(result.detail.as_deref(), Some("read payload mismatch"));
}

#[test]
fn missing_payload_is_its_own_finding() {
    let mut progress = SelfTestProgress::new();
    progress.record_write(Ok(()));
    progress.record_read(Ok(None), "payload");
    progress.record_delete(Ok(()));
    let result = progress.into_result("android_encrypted_shared_prefs", true);
    assert!(!result.read_ok);
    assert_eq!(result.detail.as_deref(), Some("read payload missing"));
}

#[test]
fn write_failure_short_circuits_but_delete_still_runs() {
    let mut progress = SelfTestProgress::new();
    progress.record_write(Err("store rejected write".to_owned()));
    assert!(!progress.should_read());
    progress.record_delete(Ok(()));
    let result = progress.into_result("keyring", true);
    assert!(!result.write_ok && !result.read_ok);
    assert!(result.delete_ok);
    assert!(!result.roundtrip_ok);
    assert_eq!(result.detail.as_deref(), Some("store rejected write"));
}

#[test]
fn delete_failure_never_hides_an_earlier_message() {
    let mut progress = SelfTestProgress::new();
    progress.record_write(Err("write broke".to_owned()));
    progress.record_delete(Err("delete broke".to_owned()));
    let result = progress.into_result("keyring", true);
    assert_eq!(result.detail.as_deref(), Some("write broke"));

    let mut progress = SelfTestProgress::new();
    progress.record_write(Ok(()));
    progress.record_read(Ok(Some("p".to_owned())), "p");
    progress.record_delete(Err("delete broke".to_owned()));
    let result = progress.into_result("keyring", true);
    assert_eq!(result.detail.as_deref(), Some("delete broke"));
}

#[test]
fn bridge_failure_modes_stay_distinguishable() {
    let r: Result<bool, String> =
        resolve_secure_store_bridge_call(BridgeCallOutcome::ScheduleFailed("no webview".to_owned()));
    assert_eq!(r, Err("schedule android secure store call failed: no webview".to_owned()));
    let r: Result<bool, String> = resolve_secure_store_bridge_call(BridgeCallOutcome::TimedOut);
    assert_eq!(r, Err("android secure store call timed out".to_owned()));
    let r: Result<bool, String> =
        resolve_secure_store_bridge_call(BridgeCallOutcome::Completed(Ok(true)));
    assert_eq!(r, Ok(true));
    let r: Result<bool, String> = resolve_secure_store_bridge_call(BridgeCallOutcome::Completed(
        Err("android secure store get failed: boom".to_owned()),
    ));
    assert_eq!(r, Err("android secure store get failed: boom".to_owned()));
    assert_eq!(ANDROID_SECURE_STORE_TIMEOUT_MS, 5000);
}

#[test]
fn android_read_payload_is_normalized() {
    assert_eq!(interpret_android_auth_payload(None), None);
    assert_eq!(interpret_android_auth_payload(Some("  ".to_owned())), None);
    assert_eq!(
        interpret_android_auth_payload(Some(" token ".to_owned())).as_deref(),
        Some("token")
    );
}

#[test]
fn android_acks_translate_to_results() {
    assert_eq!(interpret_android_write_ack(true), Ok(()));
    assert_eq!(
        interpret_android_write_ack(false),
        Err("android secure store rejected auth write".to_owned())
    );
    assert_eq!(interpret_android_delete_ack(true), Ok(()));
    assert_eq!(
        interpret_android_delete_ack(false),
        Err("android secure store rejected delete".to_owned())
    );
}

#[test]
fn bridged_write_validates_provider_before_auth() {
    assert_eq!(
        prepare_bridged_auth_write("  ", "  "),
        Err("provider is required".to_owned())
    );
    assert_eq!(
        prepare_bridged_auth_write("github", "  "),
        Err("auth payload is required".to_owned())
    );
    assert_eq!(
        prepare_bridged_auth_write(" github ", " token "),
        Ok(("github".to_owned(), "token".to_owned()))
    );
}

#[test]
fn bridged_read_failure_counts_as_absent() {
    assert_eq!(
        resolve_bridged_auth_read(Ok(Some("token".to_owned()))).as_deref(),
        Some("token")
    );
    assert_eq!(resolve_bridged_auth_read(Ok(None)), None);
    assert_eq!(resolve_bridged_auth_read(Err("android secure store get failed: x".to_owned())), None);
}

#[test]
fn bridged_self_test_outcome_maps_to_result() {
    let result = build_bridged_self_test_result(Ok((true, true, true, None)));
    assert_eq!(result.runtime.as_str(), "tauri");
    assert_eq!(result.backend.as_str(), "android_encrypted_shared_prefs");
    assert!(result.available && result.roundtrip_ok);
    assert!(result.detail.is_none());

    let result =
        build_bridged_self_test_result(Ok((true, false, true, Some("read payload mismatch".to_owned()))));
    assert!(result.available && result.write_ok && !result.read_ok && result.delete_ok);
    assert!(!result.roundtrip_ok);
    assert_eq!(result.detail.as_deref(), Some("read payload mismatch"));

    let result =
        build_bridged_self_test_result(Err("android secure store call timed out".to_owned()));
    assert!(!result.available);
    assert!(!result.write_ok && !result.read_ok && !result.delete_ok && !result.roundtrip_ok);
    assert_eq!(result.detail.as_deref(), Some("android secure store call timed out"));
}
