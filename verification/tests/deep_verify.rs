use cove_backup::cloud_storage::CloudStorageError;
use cove_backup::credentials::FallbackAuthStep;
use cove_backup::deep_verify::{do_deep_verify_cloud_backup, DeepVerifyStep};
use cove_backup::inventory::LocalWallet;
use cove_backup::master_key::{MasterKeyFetch, SaveCredentialsStep};
use cove_backup::model::{
    CloudBackup, CloudBackupError, DeepVerificationFailure, DeepVerificationResult, Network, WalletMode,
    WalletType,
};
use cove_backup::repair::{do_repair_passkey_wrapper, RepairStep};
use cove_backup::wallet_checks::{KeyProofStep, LocalKeyProof, TallyStep};

fn wallet(id: &str) -> LocalWallet {
    LocalWallet {
        id: id.into(),
        name: id.into(),
        network: Network::Bitcoin,
        wallet_mode: WalletMode::Main,
        wallet_type: WalletType::Hot,
        fingerprint: None,
        record_id: format!("rec-{id}"),
    }
}

/// Runs a verification up to the fetch of the wrapped master key, with the
/// listing `ids` and a local key.
fn to_master_fetch(local_key: Option<Vec<u8>>, ids: Vec<&str>) -> DeepVerifyStep {
    let DeepVerifyStep::LoadLocalMasterKey(w) = do_deep_verify_cloud_backup(Some("ns".into())) else { panic!() };
    let DeepVerifyStep::ListWallets(w, ns) = w.on_local_master_key(Ok(local_key)) else { panic!() };
    assert_eq!(ns, "ns");
    let DeepVerifyStep::LoadSnapshot(w) = w.on_listed(Ok(ids.iter().map(|s| s.to_string()).collect())) else {
        panic!()
    };
    let setting = CloudBackup::Enabled { last_sync: Some(3), wallet_count: Some(1) };
    let DeepVerifyStep::FetchMasterKey(w, ns) = w.on_snapshot(setting, vec![wallet("a")]) else { panic!() };
    assert_eq!(ns, "ns");
    w.on_master_key_fetched(MasterKeyFetch::Envelope { version: 1, prf_salt: [1u8; 32] })
}

#[test]
fn verification_needs_a_namespace() {
    assert!(matches!(
        do_deep_verify_cloud_backup(None),
        DeepVerifyStep::Finished(Err(CloudBackupError::Internal(m))) if m == "namespace_id not found in keychain"
    ));
}

#[test]
fn newer_master_key_format_is_reported() {
    let DeepVerifyStep::LoadLocalMasterKey(w) = do_deep_verify_cloud_backup(Some("ns".into())) else { panic!() };
    let DeepVerifyStep::ListWallets(w, _) = w.on_local_master_key(Ok(None)) else { panic!() };
    let DeepVerifyStep::FetchMasterKey(w, _) = w.on_listed(Err(CloudStorageError::NotFound("x".into()))) else {
        panic!("a missing listing goes on to the master key")
    };
    match w.on_master_key_fetched(MasterKeyFetch::Envelope { version: 4, prf_salt: [0; 32] }) {
        DeepVerifyStep::Finished(Ok(DeepVerificationResult::Failed(DeepVerificationFailure::UnsupportedVersion {
            message,
            ..
        }))) => assert_eq!(message, "master key backup version 4 is not supported"),
        _ => panic!("expected an unsupported version"),
    }
}

#[test]
fn failed_listing_is_a_retry() {
    let DeepVerifyStep::LoadLocalMasterKey(w) = do_deep_verify_cloud_backup(Some("ns".into())) else { panic!() };
    let DeepVerifyStep::ListWallets(w, _) = w.on_local_master_key(Ok(None)) else { panic!() };
    match w.on_listed(Err(CloudStorageError::NotAvailable("offline".into()))) {
        DeepVerifyStep::Finished(Ok(DeepVerificationResult::Failed(DeepVerificationFailure::Retry { message, detail }))) => {
            assert_eq!(message, "failed to list wallet backups: not available: offline");
            assert!(detail.is_none());
        }
        _ => panic!("expected a retry"),
    }
}

#[test]
fn cancelled_authentication_keeps_the_detail() {
    let DeepVerifyStep::Authenticate(w, _) = to_master_fetch(None, vec!["rec-a"]) else { panic!() };
    match w.on_authenticated(Err(CloudBackupError::Passkey("user cancelled".into()))) {
        DeepVerifyStep::Finished(Ok(DeepVerificationResult::UserCancelled(Some(d)))) => {
            assert_eq!(d.backed_up.len(), 1);
            assert_eq!(d.last_sync, Some(3));
        }
        _ => panic!("expected a cancellation"),
    }
}

#[test]
fn missing_passkey_without_local_key_needs_reinitializing() {
    let DeepVerifyStep::Authenticate(w, _) = to_master_fetch(None, vec!["rec-a"]) else { panic!() };
    match w.on_authenticated(Err(CloudBackupError::Passkey("no credential found".into()))) {
        DeepVerifyStep::Finished(Ok(DeepVerificationResult::Failed(DeepVerificationFailure::ReinitializeBackup {
            message,
            ..
        }))) => assert_eq!(message, "no passkey found and no local master key"),
        _ => panic!("expected a reinitialization"),
    }
}

#[test]
fn missing_passkey_with_local_key_repairs_the_wrapper() {
    let DeepVerifyStep::Authenticate(w, _) = to_master_fetch(Some(vec![5]), vec!["rec-a"]) else { panic!() };
    match w.on_authenticated(Err(CloudBackupError::Passkey("NoCredentialFound".into()))) {
        DeepVerifyStep::Prove(_, KeyProofStep::Fetch(_, req)) => assert_eq!(req.record_id, "rec-a"),
        _ => panic!("expected the local key to be proven"),
    }
}

#[test]
fn matching_keys_verify_and_tally_the_wallets() {
    let DeepVerifyStep::Authenticate(w, FallbackAuthStep::LoadStoredCredential(_)) =
        to_master_fetch(Some(vec![5, 5]), vec!["rec-a"])
    else {
        panic!()
    };
    let DeepVerifyStep::DecryptMasterKey(w, req) = w.on_authenticated(Ok(([2u8; 32], vec![0x11], false))) else {
        panic!()
    };
    assert_eq!(req.prf_key, [2u8; 32]);
    let DeepVerifyStep::SaveCredentials(w, SaveCredentialsStep::SaveCredential(_, write)) =
        w.on_decrypted(Ok(vec![5, 5]))
    else {
        panic!()
    };
    assert_eq!((write.key.as_str(), write.value.as_str()), ("cspp::v1::credential_id", "11"));
    let DeepVerifyStep::Tally(w, TallyStep::Fetch(_, req)) = w.on_saved(Ok(())) else {
        panic!("equal keys need no repair")
    };
    assert_eq!(req.record_id, "rec-a");
    assert_eq!(w.listed_count(), 1);
    let DeepVerifyStep::LoadLocalWallets(w) = w.on_tallied((1, 0, 0)) else { panic!() };
    match w.on_local_wallets(vec![wallet("a")]) {
        DeepVerifyStep::Finished(Ok(DeepVerificationResult::Verified(r))) => {
            assert_eq!((r.wallets_verified, r.wallets_failed, r.wallets_unsupported), (1, 0, 0));
            assert!(!r.local_master_key_repaired);
            assert!(!r.master_key_wrapper_repaired);
            assert!(!r.credential_recovered);
        }
        _ => panic!("expected verification"),
    }
}

#[test]
fn different_local_key_is_repaired_from_the_cloud() {
    let DeepVerifyStep::Authenticate(w, _) = to_master_fetch(Some(vec![9]), vec!["rec-a"]) else { panic!() };
    let DeepVerifyStep::DecryptMasterKey(w, _) = w.on_authenticated(Ok(([2u8; 32], vec![1], true))) else {
        panic!()
    };
    let DeepVerifyStep::SaveCredentials(w, _) = w.on_decrypted(Ok(vec![5, 5])) else { panic!() };
    let DeepVerifyStep::SaveMasterKey(w, req) = w.on_saved(Ok(())) else { panic!("expected a repair") };
    assert_eq!(req.master_key, vec![5, 5]);
    let DeepVerifyStep::ResetMasterKeyCache(w) = w.on_saved(Ok(())) else { panic!() };
    let DeepVerifyStep::Tally(w, _) = w.on_reset() else { panic!() };
    let DeepVerifyStep::LoadLocalWallets(w) = w.on_tallied((0, 1, 0)) else { panic!() };
    match w.on_local_wallets(vec![wallet("a")]) {
        DeepVerifyStep::Finished(Ok(DeepVerificationResult::Verified(r))) => {
            assert!(r.local_master_key_repaired);
            assert!(r.credential_recovered);
            assert_eq!(r.wallets_failed, 1);
        }
        _ => panic!("expected verification"),
    }
}

#[test]
fn repair_refuses_a_wrong_local_key() {
    let RepairStep::LoadLocalMasterKey(w) = do_repair_passkey_wrapper(Some("ns".into())) else { panic!() };
    let RepairStep::ListWallets(w, _) = w.on_local_master_key(Ok(Some(vec![1]))) else { panic!() };
    let RepairStep::Prove(w, _) = w.on_listed(Ok(vec!["rec-a".into()])) else { panic!() };
    assert!(matches!(
        w.on_proved(LocalKeyProof::WrongKey),
        RepairStep::Finished(Err(CloudBackupError::Crypto(m)))
            if m == "local master key cannot decrypt existing cloud wallet backups"
    ));
}

#[test]
fn repair_without_local_key_fails() {
    let RepairStep::LoadLocalMasterKey(w) = do_repair_passkey_wrapper(Some("ns".into())) else { panic!() };
    assert!(matches!(
        w.on_local_master_key(Ok(None)),
        RepairStep::Finished(Err(CloudBackupError::Internal(m))) if m == "no local master key"
    ));
}

#[test]
fn repair_of_an_empty_namespace_creates_a_passkey() {
    let RepairStep::LoadLocalMasterKey(w) = do_repair_passkey_wrapper(Some("ns".into())) else { panic!() };
    let RepairStep::ListWallets(w, _) = w.on_local_master_key(Ok(Some(vec![1]))) else { panic!() };
    assert!(matches!(
        w.on_listed(Err(CloudStorageError::NotFound("ns".into()))),
        RepairStep::CreatePasskey(..)
    ));
}
