use cove_backup::model::CloudBackupError;
use cove_backup::passkey::{
    authenticate_with_policy, map_discovery_error, DiscoveredPasskey, PasskeyAuthOutcome,
    PasskeyAuthPolicy, PasskeyError, PolicyAuthStep, VerificationSession, PASSKEY_RP_ID,
};

#[test]
fn map_discovery_error_returns_user_cancelled() {
    let outcome = map_discovery_error(PasskeyError::UserCancelled).unwrap();
    assert_eq!(outcome, PasskeyAuthOutcome::UserCancelled);
}

#[test]
fn map_discovery_error_returns_no_credential_found() {
    let outcome = map_discovery_error(PasskeyError::NoCredentialFound).unwrap();
    assert_eq!(outcome, PasskeyAuthOutcome::NoCredentialFound);
}

#[test]
fn map_discovery_error_preserves_unexpected_errors() {
    let error = map_discovery_error(PasskeyError::AuthenticationFailed("boom".into())).unwrap_err();
    assert!(
        matches!(error, CloudBackupError::Passkey(message) if message == "authentication failed: boom")
    );
}

#[test]
fn map_discovery_error_keeps_other_platform_text() {
    let error = map_discovery_error(PasskeyError::Other("timeout".into())).unwrap_err();
    assert!(matches!(error, CloudBackupError::Passkey(message) if message == "timeout"));
}

#[test]
fn stored_then_discover_falls_back_when_no_credential_is_stored() {
    let salt = [7u8; 32];
    let step = authenticate_with_policy(&salt, PasskeyAuthPolicy::StoredThenDiscover);
    let PolicyAuthStep::LoadStoredCredential(w) = step else { panic!("expected a keychain read") };
    match w.on_stored_credential(None) {
        PolicyAuthStep::Discover(_, req) => {
            assert_eq!(req.rp_id, PASSKEY_RP_ID);
            assert_eq!(req.prf_salt, salt.to_vec());
            assert_eq!(req.challenge.len(), 32);
        }
        _ => panic!("expected a discovery"),
    }
}

#[test]
fn stored_only_without_credential_reports_no_credential() {
    let salt = [1u8; 32];
    let PolicyAuthStep::LoadStoredCredential(w) =
        authenticate_with_policy(&salt, PasskeyAuthPolicy::StoredOnly)
    else {
        panic!("expected a keychain read")
    };
    match w.on_stored_credential(None) {
        PolicyAuthStep::Finished(Ok(PasskeyAuthOutcome::NoCredentialFound)) => {}
        _ => panic!("expected no credential"),
    }
}

#[test]
fn stored_assertion_with_32_byte_output_authenticates() {
    let salt = [2u8; 32];
    let PolicyAuthStep::LoadStoredCredential(w) =
        authenticate_with_policy(&salt, PasskeyAuthPolicy::StoredThenDiscover)
    else {
        panic!("expected a keychain read")
    };
    let PolicyAuthStep::AuthenticateStored(w, req) = w.on_stored_credential(Some(vec![9, 9, 9]))
    else {
        panic!("expected an assertion")
    };
    assert_eq!(req.credential_id, vec![9, 9, 9]);
    assert_eq!(req.prf_salt, salt.to_vec());
    match w.on_assertion(Ok(vec![5u8; 32])) {
        PolicyAuthStep::Finished(Ok(PasskeyAuthOutcome::Authenticated(a))) => {
            assert_eq!(a.prf_key, [5u8; 32]);
            assert_eq!(a.credential_id, vec![9, 9, 9]);
            assert!(!a.credential_recovered);
        }
        _ => panic!("expected authentication"),
    }
}

#[test]
fn discovery_with_short_prf_output_is_an_internal_error() {
    let salt = [3u8; 32];
    let PolicyAuthStep::Discover(w, _) = authenticate_with_policy(&salt, PasskeyAuthPolicy::DiscoverOnly)
    else {
        panic!("expected a discovery")
    };
    let step = w.on_discovery(Ok(DiscoveredPasskey { prf_output: vec![1; 31], credential_id: vec![4] }));
    match step {
        PolicyAuthStep::Finished(Err(CloudBackupError::Internal(m))) => {
            assert_eq!(m, "PRF output is not 32 bytes")
        }
        _ => panic!("expected an internal error"),
    }
}

#[test]
fn discovered_credential_is_marked_recovered() {
    let salt = [3u8; 32];
    let PolicyAuthStep::Discover(w, _) = authenticate_with_policy(&salt, PasskeyAuthPolicy::DiscoverOnly)
    else {
        panic!("expected a discovery")
    };
    let step = w.on_discovery(Ok(DiscoveredPasskey { prf_output: vec![8; 32], credential_id: vec![4] }));
    match step {
        PolicyAuthStep::Finished(Ok(PasskeyAuthOutcome::Authenticated(a))) => {
            assert!(a.credential_recovered);
            assert_eq!(a.credential_id, vec![4]);
        }
        _ => panic!("expected authentication"),
    }
}

#[test]
fn forced_session_discovers_at_once() {
    let session = VerificationSession { force_discoverable: true };
    assert!(matches!(session.authenticate_with_fallback(&[0u8; 32]), PolicyAuthStep::Discover(..)));
    let session = VerificationSession { force_discoverable: false };
    assert!(matches!(
        session.authenticate_with_fallback(&[0u8; 32]),
        PolicyAuthStep::LoadStoredCredential(..)
    ));
}
