//! The secure credential store: per-provider authentication secrets kept in
//! the operating system's protected storage, addressed by a fixed service
//! identifier and a normalized provider identifier.  The store itself is the
//! keyring facility; every decision around it — validation, account naming,
//! result normalization, the self-test protocol — is verified here.

use vstd::prelude::*;
use vstd::string::*;

use crate::self_test::{
    SelfTestProgress, SyncProviderSecureStoreSelfTestResult, build_secure_store_self_test_result,
    built_result,
};
use crate::text::{concat2, lemma_trim_idempotent, trim_spec, trim_str};

verus! {

/// The service identifier under which all sync-provider secrets are stored.
pub open spec fn sync_provider_auth_service() -> Seq<char> {
    "com.solutionsstudio.solostack.sync-provider-auth"@
}

pub fn sync_provider_auth_service_str() -> (r: &'static str)
    ensures
        r@ == sync_provider_auth_service(),
{
    "com.solutionsstudio.solostack.sync-provider-auth"
}

/// The dedicated, non-user-visible account the self-test writes to.
pub open spec fn self_test_account() -> Seq<char> {
    "sync-provider-secure-store-self-test"@
}

pub fn self_test_account_str() -> (r: &'static str)
    ensures
        r@ == self_test_account(),
{
    "sync-provider-secure-store-self-test"
}

/// The fixed payload the self-test writes and expects to read back.
pub open spec fn self_test_payload() -> Seq<char> {
    "solostack-secure-store-self-test"@
}

pub fn self_test_payload_str() -> (r: &'static str)
    ensures
        r@ == self_test_payload(),
{
    "solostack-secure-store-self-test"
}

/// The account name a normalized provider is stored under.
pub open spec fn sync_provider_account(normalized: Seq<char>) -> Seq<char> {
    "sync-provider::"@ + normalized
}

pub fn sync_provider_account_name(normalized: &str) -> (r: String)
    ensures
        r@ == sync_provider_account(normalized@),
{
    concat2("sync-provider::", normalized)
}

/// Trims the caller-supplied provider identifier; an identifier that trims
/// to nothing is rejected.
pub fn normalize_sync_provider_identifier(provider: &str) -> (r: Result<String, String>)
    ensures
        match r {
            Ok(p) => p@ == trim_spec(provider@) && trim_spec(provider@).len() > 0,
            Err(e) => e@ == "provider is required"@ && trim_spec(provider@).len() == 0,
        },
{
    let trimmed = trim_str(provider);
    if trimmed.unicode_len() == 0 {
        Err(String::from_str("provider is required"))
    } else {
        Ok(String::from_str(trimmed))
    }
}

#[verifier::external_type_specification]
#[verifier::external_body]
pub struct ExEntry(keyring::Entry);

/// Relies on keyring::Entry::new: builds a credential handle for the given
/// service and account in the process's default credential store.  A failure
/// is carried over as its message text.
#[verifier::external_body]
fn keyring_entry_new(service: &str, account: &str) -> (r: Result<keyring::Entry, String>) {
    keyring::Entry::new(service, account).map_err(|error| error.to_string())
}

/// Relies on keyring::Entry::set_password: stores the secret under the
/// entry's credential.  A failure is carried over as its message text.
#[verifier::external_body]
fn keyring_set_password(entry: &keyring::Entry, password: &str) -> (r: Result<(), String>) {
    entry.set_password(password).map_err(|error| error.to_string())
}

/// Relies on keyring::Entry::get_password: retrieves the stored secret; "no
/// entry" and every other failure are carried over as their message text.
#[verifier::external_body]
fn keyring_get_password(entry: &keyring::Entry) -> (r: Result<String, String>) {
    entry.get_password().map_err(|error| error.to_string())
}

/// Relies on keyring::Entry::delete_credential: removes the credential from
/// the store.  A failure is carried over as its message text.
#[verifier::external_body]
fn keyring_delete_credential(entry: &keyring::Entry) -> (r: Result<(), String>) {
    entry.delete_credential().map_err(|error| error.to_string())
}

/// The validation and store error messages never collide: they all differ
/// in length, counting the prefixes at their shortest.
proof fn lemma_distinct_error_texts()
    ensures
        "provider is required"@.len() == 20,
        "auth payload is required"@.len() == 24,
        "create keyring entry failed: "@.len() == 29,
        "store secure auth failed: "@.len() == 26,
{
    reveal_strlit("provider is required");
    reveal_strlit("auth payload is required");
    reveal_strlit("create keyring entry failed: ");
    reveal_strlit("store secure auth failed: ");
}

/// Builds the keyring entry a provider's secret lives under: the provider is
/// normalized first, so an all-whitespace provider never reaches the store,
/// and the account handed over is exactly `sync-provider::<trimmed provider>`.
fn create_sync_provider_auth_entry(provider: &str) -> (r: Result<keyring::Entry, String>)
    ensures
        trim_spec(provider@).len() == 0 ==> (r matches Err(e) && e@ == "provider is required"@),
        r is Ok ==> trim_spec(provider@).len() > 0,
        r matches Err(e) ==> e@ == "provider is required"@ || (exists|m: Seq<char>|
            e@ == "create keyring entry failed: "@ + m),
        r matches Err(e) && e@ == "provider is required"@ ==> trim_spec(provider@).len() == 0,
{
    let normalized = match normalize_sync_provider_identifier(provider) {
        Ok(p) => p,
        Err(e) => {
            return Err(e);
        },
    };
    let account = sync_provider_account_name(normalized.as_str());
    match keyring_entry_new(sync_provider_auth_service_str(), account.as_str()) {
        Ok(entry) => Ok(entry),
        Err(e) => {
            let message = concat2("create keyring entry failed: ", e.as_str());
            proof {
                lemma_distinct_error_texts();
                assert(message@.len() >= 29);
            }
            Err(message)
        },
    }
}

/// What a read from the store yields for the caller: a read failure and a
/// missing credential are deliberately not distinguished from "no credential
/// stored", a stored value comes back trimmed, and one that trims to
/// nothing counts as absent too.
pub fn interpret_auth_read_outcome(outcome: Result<String, String>) -> (r: Option<String>)
    ensures
        match outcome {
            Ok(s) => if trim_spec(s@).len() == 0 {
                r is None
            } else {
                r matches Some(v) && v@ == trim_spec(s@)
            },
            Err(_) => r is None,
        },
        r matches Some(v) ==> v@.len() > 0 && v@ == trim_spec(v@),
{
    match outcome {
        Ok(password) => {
            let normalized = trim_str(password.as_str());
            if normalized.unicode_len() == 0 {
                None
            } else {
                proof {
                    lemma_trim_idempotent(password@);
                }
                Some(String::from_str(normalized))
            }
        },
        Err(_) => None,
    }
}

/// How the store's answer to a write surfaces: success passes through, and
/// a failure is never swallowed — it comes back under the store-failure
/// message.
pub fn interpret_auth_store_outcome(outcome: Result<(), String>) -> (r: Result<(), String>)
    ensures
        outcome is Ok ==> r is Ok,
        outcome matches Err(e) ==> (r matches Err(m) && m@ == "store secure auth failed: "@ + e@),
{
    match outcome {
        Ok(_) => Ok(()),
        Err(e) => Err(concat2("store secure auth failed: ", e.as_str())),
    }
}

/// The native backend's delete policy: whatever the store answered, the
/// caller sees success — deleting an already-absent credential is not an
/// error the caller needs to see.
pub fn interpret_native_delete_outcome(_outcome: Result<(), String>) -> (r: Result<(), String>)
    ensures
        r is Ok,
{
    Ok(())
}

/// Reads the secret stored for a provider.  A stored secret is handed back
/// trimmed; one that trims to nothing, a missing credential and a read
/// failure all come back as "absent", since the caller's only recourse in
/// each case is to prompt for authentication again.
pub fn get_sync_provider_secure_auth(provider: &str) -> (r: Result<Option<String>, String>)
    ensures
        trim_spec(provider@).len() == 0 ==> (r matches Err(e) && e@ == "provider is required"@),
        r matches Err(e) && e@ == "provider is required"@ ==> trim_spec(provider@).len() == 0,
        r matches Ok(Some(s)) ==> s@.len() > 0 && s@ == trim_spec(s@),
        r matches Err(e) ==> e@ == "provider is required"@ || (exists|m: Seq<char>|
            e@ == "create keyring entry failed: "@ + m),
{
    let entry = match create_sync_provider_auth_entry(provider) {
        Ok(e) => e,
        Err(e) => {
            return Err(e);
        },
    };
    Ok(interpret_auth_read_outcome(keyring_get_password(&entry)))
}

/// Stores a secret for a provider.  The secret is trimmed first; one that
/// trims to nothing is rejected before any store is touched, and a store
/// failure is never swallowed.
pub fn set_sync_provider_secure_auth(provider: &str, auth: &str) -> (r: Result<(), String>)
    ensures
        trim_spec(auth@).len() == 0 ==> (r matches Err(e) && e@ == "auth payload is required"@),
        trim_spec(auth@).len() > 0 && trim_spec(provider@).len() == 0 ==> (r matches Err(e) && e@
            == "provider is required"@),
        r matches Err(e) && e@ == "auth payload is required"@ ==> trim_spec(auth@).len() == 0,
        r matches Err(e) && e@ == "provider is required"@ ==> trim_spec(auth@).len() > 0
            && trim_spec(provider@).len() == 0,
        r matches Err(e) ==> e@ == "auth payload is required"@ || e@ == "provider is required"@
            || (exists|m: Seq<char>| e@ == "create keyring entry failed: "@ + m)
            || (exists|m: Seq<char>| e@ == "store secure auth failed: "@ + m),
{
    proof {
        lemma_distinct_error_texts();
    }
    let normalized_auth = trim_str(auth);
    if normalized_auth.unicode_len() == 0 {
        return Err(String::from_str("auth payload is required"));
    }
    let entry = match create_sync_provider_auth_entry(provider) {
        Ok(en) => en,
        Err(e) => {
            return Err(e);
        },
    };
    let stored = interpret_auth_store_outcome(keyring_set_password(&entry, normalized_auth));
    proof {
        assert(stored matches Err(m) ==> m@.len() >= 26);
    }
    stored
}

/// Deletes the secret stored for a provider.  Deleting an already-absent
/// credential is not an error the caller needs to see, so a store failure is
/// swallowed and only an invalid provider or an unavailable store surfaces.
pub fn delete_sync_provider_secure_auth(provider: &str) -> (r: Result<(), String>)
    ensures
        trim_spec(provider@).len() == 0 ==> (r matches Err(e) && e@ == "provider is required"@),
        r matches Err(e) && e@ == "provider is required"@ ==> trim_spec(provider@).len() == 0,
        r is Ok ==> trim_spec(provider@).len() > 0,
        r matches Err(e) ==> e@ == "provider is required"@ || (exists|m: Seq<char>|
            e@ == "create keyring entry failed: "@ + m),
{
    let entry = match create_sync_provider_auth_entry(provider) {
        Ok(en) => en,
        Err(e) => {
            return Err(e);
        },
    };
    interpret_native_delete_outcome(keyring_delete_credential(&entry))
}

/// Runs the write, read-back, delete sequence against the native keyring
/// store.  This never fails: an unavailable store is reported as data, and
/// whatever the store answers, the flags and the derived round-trip verdict
/// describe exactly the steps that succeeded.
pub fn run_native_secure_store_self_test() -> (r: SyncProviderSecureStoreSelfTestResult)
    ensures
        r@.runtime == "tauri"@,
        r@.backend == "keyring"@,
        r@.roundtrip_ok == (r@.available && r@.write_ok && r@.read_ok && r@.delete_ok),
        r@.roundtrip_ok ==> r@.detail is None,
        !r@.available ==> !r@.write_ok && !r@.read_ok && !r@.delete_ok && r@.detail is Some,
{
    let entry = match keyring_entry_new(sync_provider_auth_service_str(), self_test_account_str()) {
        Ok(v) => v,
        Err(e) => {
            return build_secure_store_self_test_result(
                "keyring",
                false,
                false,
                false,
                false,
                Some(concat2("create keyring entry failed: ", e.as_str())),
            );
        },
    };
    let mut progress = SelfTestProgress::new();
    let write_outcome = match keyring_set_password(&entry, self_test_payload_str()) {
        Ok(u) => Ok(u),
        Err(e) => Err(concat2("write failed: ", e.as_str())),
    };
    progress.record_write(write_outcome);
    if progress.should_read() {
        let read_outcome = match keyring_get_password(&entry) {
            Ok(p) => Ok(Some(p)),
            Err(e) => Err(concat2("read failed: ", e.as_str())),
        };
        progress.record_read(read_outcome, self_test_payload_str());
    }
    let delete_outcome = match keyring_delete_credential(&entry) {
        Ok(u) => Ok(u),
        Err(e) => Err(concat2("delete failed: ", e.as_str())),
    };
    progress.record_delete(delete_outcome);
    progress.into_result("keyring", true)
}

/// The self-test as the request surface exposes it on a platform with a
/// native keyring.
pub fn run_sync_provider_secure_store_self_test() -> (r: SyncProviderSecureStoreSelfTestResult)
    ensures
        r@.runtime == "tauri"@,
        r@.backend == "keyring"@,
        r@.roundtrip_ok == (r@.available && r@.write_ok && r@.read_ok && r@.delete_ok),
        r@.roundtrip_ok ==> r@.detail is None,
        !r@.available ==> !r@.write_ok && !r@.read_ok && !r@.delete_ok && r@.detail is Some,
{
    run_native_secure_store_self_test()
}

/// The read operation on a platform with neither a native store nor a
/// bridge: there is never a secret to hand back.
pub fn unsupported_secure_auth_get(_provider: &str) -> (r: Result<Option<String>, String>)
    ensures
        r matches Ok(v) && v is None,
{
    Ok(None)
}

/// The write operation on an unsupported platform: a silent no-op.
pub fn unsupported_secure_auth_set(_provider: &str, _auth: &str) -> (r: Result<(), String>)
    ensures
        r is Ok,
{
    Ok(())
}

/// The delete operation on an unsupported platform: a silent no-op.
pub fn unsupported_secure_auth_delete(_provider: &str) -> (r: Result<(), String>)
    ensures
        r is Ok,
{
    Ok(())
}

/// The self-test on an unsupported platform: unavailable by construction,
/// with a fixed explanation.
pub fn run_unsupported_secure_store_self_test() -> (r: SyncProviderSecureStoreSelfTestResult)
    ensures
        r@ == built_result(
            "unsupported"@,
            false,
            false,
            false,
            false,
            Some("secure store self-test is not supported on this platform"@),
        ),
{
    build_secure_store_self_test_result(
        "unsupported",
        false,
        false,
        false,
        false,
        Some(String::from_str("secure store self-test is not supported on this platform")),
    )
}

} // verus!
