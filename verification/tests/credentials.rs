use cove_backup::credentials::{
    authenticate_with_fallback, create_prf_key_without_persisting, obtain_prf_key, CreatePrfStep, CREDENTIAL_ID_KEY,
    FallbackAuthStep, ObtainPrfStep,
};
use cove_backup::credentials::hex_write;
use cove_backup::entropy::{sync_time_from_seconds, sync_time_now};
use cove_backup::model::CloudBackupError;
use cove_backup::passkey::{DiscoveredPasskey, PasskeyError, PASSKEY_RP_ID};

fn stored(hex: Option<&str>) -> FallbackAuthStep {
    let FallbackAuthStep::LoadStoredCredential(w) = authenticate_with_fallback(&[5u8; 32]) else {
        panic!("expected a keychain read")
    };
    w.on_stored_credential(hex.map(|h| h.to_string()))
}

#[test]
fn stored_credential_is_decoded_from_hex() {
    match stored(Some("0a0B")) {
        FallbackAuthStep::AuthenticateStored(_, req) => {
            assert_eq!(req.credential_id, vec![0x0a, 0x0b]);
            assert_eq!(req.prf_salt, vec![5u8; 32]);
            assert_eq!(req.rp_id, PASSKEY_RP_ID);
        }
        _ => panic!("expected an assertion"),
    }
}

#[test]
fn undecodable_or_missing_credential_goes_to_discovery() {
    assert!(matches!(stored(Some("xyz")), FallbackAuthStep::Discover(..)));
    assert!(matches!(stored(Some("abc")), FallbackAuthStep::Discover(..)));
    assert!(matches!(stored(None), FallbackAuthStep::Discover(..)));
}

#[test]
fn stored_assertion_cancel_and_fallback() {
    let FallbackAuthStep::AuthenticateStored(w, _) = stored(Some("01")) else { panic!() };
    assert!(matches!(
        w.on_assertion(Err(PasskeyError::UserCancelled)),
        FallbackAuthStep::Finished(Err(CloudBackupError::Passkey(m))) if m == "user cancelled"
    ));
    let FallbackAuthStep::AuthenticateStored(w, _) = stored(Some("01")) else { panic!() };
    let FallbackAuthStep::Discover(w, _) = w.on_assertion(Err(PasskeyError::NoCredentialFound)) else {
        panic!("expected a fallback to discovery")
    };
    match w.on_discovery(Ok(DiscoveredPasskey { prf_output: vec![3; 32], credential_id: vec![8] })) {
        FallbackAuthStep::Finished(Ok((key, id, recovered))) => {
            assert_eq!(key, [3u8; 32]);
            assert_eq!(id, vec![8]);
            assert!(recovered);
        }
        _ => panic!("expected authentication"),
    }
}

#[test]
fn discovery_failures_keep_their_text() {
    let FallbackAuthStep::Discover(w, _) = stored(None) else { panic!() };
    assert!(matches!(
        w.on_discovery(Err(PasskeyError::NoCredentialFound)),
        FallbackAuthStep::Finished(Err(CloudBackupError::Passkey(m))) if m == "no credential found"
    ));
    let FallbackAuthStep::Discover(w, _) = stored(None) else { panic!() };
    assert!(matches!(
        w.on_discovery(Err(PasskeyError::AuthenticationFailed("nope".into()))),
        FallbackAuthStep::Finished(Err(CloudBackupError::Passkey(m))) if m == "authentication failed: nope"
    ));
}

#[test]
fn new_passkey_requests_are_random_and_sized() {
    let CreatePrfStep::CreatePasskey(_, a) = create_prf_key_without_persisting() else { panic!() };
    let CreatePrfStep::CreatePasskey(_, b) = create_prf_key_without_persisting() else { panic!() };
    assert_eq!(a.rp_id, PASSKEY_RP_ID);
    assert_eq!(a.user_id.len(), 16);
    assert_eq!(a.challenge.len(), 32);
    assert_ne!(a.challenge, b.challenge);
}

#[test]
fn obtained_prf_key_is_persisted_credential_first() {
    let ObtainPrfStep::ClearStaleCredentials(w) = obtain_prf_key() else { panic!() };
    let ObtainPrfStep::Create(w, CreatePrfStep::CreatePasskey(c, _)) = w.on_cleared() else { panic!() };
    let CreatePrfStep::Authenticate(a, req) = c.on_created(Ok(vec![0xbe, 0xef])) else { panic!() };
    assert_eq!(req.credential_id, vec![0xbe, 0xef]);
    let salt = req.prf_salt.clone();
    let CreatePrfStep::Finished(created) = a.on_assertion(Ok(vec![4u8; 32])) else { panic!() };
    let ObtainPrfStep::SaveCredential(w, write) = w.on_created(created) else { panic!() };
    assert_eq!((write.key.as_str(), write.value.as_str()), ("cspp::v1::credential_id", "beef"));
    let ObtainPrfStep::SaveSalt(w, write) = w.on_saved(Ok(())) else { panic!() };
    assert_eq!(write.key, "cspp::v1::prf_salt");
    assert_eq!(write.value.len(), 64);
    match w.on_saved(Ok(())) {
        ObtainPrfStep::Finished(Ok((key, s))) => {
            assert_eq!(key, [4u8; 32]);
            assert_eq!(s.to_vec(), salt);
        }
        _ => panic!("expected the key"),
    }
}

#[test]
fn failed_passkey_creation_persists_nothing() {
    let ObtainPrfStep::ClearStaleCredentials(w) = obtain_prf_key() else { panic!() };
    let ObtainPrfStep::Create(w, CreatePrfStep::CreatePasskey(c, _)) = w.on_cleared() else { panic!() };
    let CreatePrfStep::Finished(created) = c.on_created(Err(PasskeyError::UserCancelled)) else { panic!() };
    assert!(matches!(
        w.on_created(created),
        ObtainPrfStep::Finished(Err(CloudBackupError::Passkey(m))) if m == "user cancelled"
    ));
}

#[test]
fn short_prf_output_of_a_new_passkey_is_refused() {
    let CreatePrfStep::CreatePasskey(c, _) = create_prf_key_without_persisting() else { panic!() };
    let CreatePrfStep::Authenticate(a, _) = c.on_created(Ok(vec![1])) else { panic!() };
    assert!(matches!(
        a.on_assertion(Ok(vec![1; 16])),
        CreatePrfStep::Finished(Err(CloudBackupError::Internal(m))) if m == "PRF output is not 32 bytes"
    ));
}

#[test]
fn failed_salt_write_has_context() {
    let ObtainPrfStep::ClearStaleCredentials(w) = obtain_prf_key() else { panic!() };
    let ObtainPrfStep::Create(w, CreatePrfStep::CreatePasskey(c, _)) = w.on_cleared() else { panic!() };
    let CreatePrfStep::Authenticate(a, _) = c.on_created(Ok(vec![1])) else { panic!() };
    let CreatePrfStep::Finished(created) = a.on_assertion(Ok(vec![4u8; 32])) else { panic!() };
    let ObtainPrfStep::SaveCredential(w, _) = w.on_created(created) else { panic!() };
    assert!(matches!(
        w.on_saved(Err("denied".into())),
        ObtainPrfStep::Finished(Err(CloudBackupError::Internal(m))) if m == "save credential: denied"
    ));
}

#[test]
fn saved_credential_reads_back_unchanged() {
    let id = vec![0xde, 0xad, 0x00, 0x7f];
    let write = hex_write(CREDENTIAL_ID_KEY, &id);
    let FallbackAuthStep::LoadStoredCredential(w) = authenticate_with_fallback(&[0u8; 32]) else { panic!() };
    match w.on_stored_credential(Some(write.value)) {
        FallbackAuthStep::AuthenticateStored(_, req) => assert_eq!(req.credential_id, id),
        _ => panic!("expected the stored credential"),
    }
}

#[test]
fn sync_time_is_the_current_clock() {
    assert!(sync_time_now() > 1_577_836_800);
    assert_eq!(sync_time_from_seconds(-5), 0);
    assert_eq!(sync_time_from_seconds(42), 42);
}

#[test]
fn obtaining_a_key_first_deletes_the_stale_credential_and_salt() {
    let ObtainPrfStep::ClearStaleCredentials(w) = obtain_prf_key() else { panic!() };
    assert_eq!(w.stale_entries(), vec!["cspp::v1::credential_id".to_string(), "cspp::v1::prf_salt".to_string()]);
}

#[test]
fn fallback_reads_the_stored_credential_entry() {
    let FallbackAuthStep::LoadStoredCredential(w) = authenticate_with_fallback(&[5u8; 32]) else { panic!() };
    assert_eq!(w.entry(), CREDENTIAL_ID_KEY);
}
