//! The cross-runtime call bridge, as seen from this core: a credential
//! operation is marshalled into the execution context that owns the embedded
//! UI runtime and awaited with a bounded wait.  The shell performs the
//! scheduling and the platform calls; the decisions — how each wait outcome
//! resolves, and how the platform's raw answers are interpreted — are
//! verified here.

use vstd::prelude::*;
use vstd::string::*;

use crate::credentials::normalize_sync_provider_identifier;
use crate::self_test::{
    SyncProviderSecureStoreSelfTestResult, build_secure_store_self_test_result, built_result,
};
use crate::text::{concat2, opt_text, trim_spec, trim_str};

verus! {

/// The bounded wait on a bridged call, in milliseconds.
pub const ANDROID_SECURE_STORE_TIMEOUT_MS: u64 = 5000;

/// What became of a unit of work submitted to the UI-owning context: the
/// submission itself failed, no response arrived within the bound, or the
/// work ran and answered.
pub enum BridgeCallOutcome<T> {
    ScheduleFailed(String),
    TimedOut,
    Completed(Result<T, String>),
}

/// Resolves a bridged call's outcome into one result, keeping the three
/// failure modes distinguishable: "not integrated" (scheduling failed),
/// "hung" (timed out) and "rejected" (the call itself failed) each carry a
/// distinct message.
pub fn resolve_secure_store_bridge_call<T>(outcome: BridgeCallOutcome<T>) -> (r: Result<T, String>)
    ensures
        outcome matches BridgeCallOutcome::ScheduleFailed(e) ==> (r matches Err(m) && m@
            == "schedule android secure store call failed: "@ + e@),
        outcome matches BridgeCallOutcome::TimedOut ==> (r matches Err(m) && m@
            == "android secure store call timed out"@),
        outcome matches BridgeCallOutcome::Completed(x) ==> r == x,
{
    match outcome {
        BridgeCallOutcome::ScheduleFailed(e) => Err(
            concat2("schedule android secure store call failed: ", e.as_str()),
        ),
        BridgeCallOutcome::TimedOut => Err(String::from_str("android secure store call timed out")),
        BridgeCallOutcome::Completed(x) => x,
    }
}

/// Interprets the payload the platform's secure store handed back for a
/// read: a null payload is "absent", and a payload that trims to nothing is
/// treated as absent too; otherwise the trimmed payload is the secret.
pub fn interpret_android_auth_payload(raw: Option<String>) -> (r: Option<String>)
    ensures
        match raw {
            None => r is None,
            Some(s) => if trim_spec(s@).len() == 0 {
                r is None
            } else {
                r matches Some(v) && v@ == trim_spec(s@)
            },
        },
{
    match raw {
        None => None,
        Some(s) => {
            let trimmed = trim_str(s.as_str());
            if trimmed.unicode_len() == 0 {
                None
            } else {
                Some(String::from_str(trimmed))
            }
        },
    }
}

/// Interprets the platform's boolean acknowledgement of a write: a false
/// answer means the store rejected the write.
pub fn interpret_android_write_ack(stored: bool) -> (r: Result<(), String>)
    ensures
        stored ==> r is Ok,
        !stored ==> (r matches Err(e) && e@ == "android secure store rejected auth write"@),
{
    if stored {
        Ok(())
    } else {
        Err(String::from_str("android secure store rejected auth write"))
    }
}

/// Validates a bridged write's inputs in the order the bridged backend
/// checks them — the provider first, then the payload — and hands both back
/// trimmed, ready to marshal.
pub fn prepare_bridged_auth_write(provider: &str, auth: &str) -> (r: Result<(String, String), String>)
    ensures
        trim_spec(provider@).len() == 0 ==> (r matches Err(e) && e@ == "provider is required"@),
        trim_spec(provider@).len() > 0 && trim_spec(auth@).len() == 0 ==> (r matches Err(e) && e@
            == "auth payload is required"@),
        trim_spec(provider@).len() > 0 && trim_spec(auth@).len() > 0 ==> (r matches Ok(p) && p.0@
            == trim_spec(provider@) && p.1@ == trim_spec(auth@)),
{
    let normalized_provider = match normalize_sync_provider_identifier(provider) {
        Ok(p) => p,
        Err(e) => {
            return Err(e);
        },
    };
    let normalized_auth = trim_str(auth);
    if normalized_auth.unicode_len() == 0 {
        Err(String::from_str("auth payload is required"))
    } else {
        Ok((normalized_provider, String::from_str(normalized_auth)))
    }
}

/// Resolves a bridged read into the caller's answer: a failed read is
/// deliberately not distinguished from "no credential stored" — the
/// caller's only recourse either way is to prompt for authentication again.
pub fn resolve_bridged_auth_read(outcome: Result<Option<String>, String>) -> (r: Option<String>)
    ensures
        outcome matches Ok(v) ==> r == v,
        outcome is Err ==> r is None,
{
    match outcome {
        Ok(v) => v,
        Err(_) => None,
    }
}

/// Turns a bridged self-test's outcome into the structured result: when the
/// sequence ran, its step flags and first failure message carry over with
/// the backend available; when the bridge itself failed, the backend was
/// unreachable and the bridge's message is the detail.
pub fn build_bridged_self_test_result(
    outcome: Result<(bool, bool, bool, Option<String>), String>,
) -> (r: SyncProviderSecureStoreSelfTestResult)
    ensures
        outcome matches Ok(steps) ==> r@ == built_result(
            "android_encrypted_shared_prefs"@,
            true,
            steps.0,
            steps.1,
            steps.2,
            opt_text(steps.3),
        ),
        outcome matches Err(e) ==> r@ == built_result(
            "android_encrypted_shared_prefs"@,
            false,
            false,
            false,
            false,
            Some(e@),
        ),
{
    match outcome {
        Ok((write_ok, read_ok, delete_ok, detail)) => build_secure_store_self_test_result(
            "android_encrypted_shared_prefs",
            true,
            write_ok,
            read_ok,
            delete_ok,
            detail,
        ),
        Err(e) => build_secure_store_self_test_result(
            "android_encrypted_shared_prefs",
            false,
            false,
            false,
            false,
            Some(e),
        ),
    }
}

/// Interprets the platform's boolean acknowledgement of a delete: a false
/// answer means the store rejected the delete, and unlike the native
/// backend's delete this is surfaced to the caller.
pub fn interpret_android_delete_ack(deleted: bool) -> (r: Result<(), String>)
    ensures
        deleted ==> r is Ok,
        !deleted ==> (r matches Err(e) && e@ == "android secure store rejected delete"@),
{
    if deleted {
        Ok(())
    } else {
        Err(String::from_str("android secure store rejected delete"))
    }
}

} // verus!
