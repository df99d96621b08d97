use cove_backup::cloud_restore::{do_restore_from_cloud_backup, AwaitWalletRestore, CloudRestoreStep};
use cove_backup::cloud_storage::CloudStorageError;
use cove_backup::master_key::MasterKeyFetch;
use cove_backup::model::{
    CloudBackup, CloudBackupError, CloudBackupReconcileMessage, CloudBackupState,
};
use cove_backup::passkey::{DiscoveredPasskey, PasskeyError};
use cove_backup::restore::RestoreWalletStep;

fn after_notice(step: CloudRestoreStep) -> (CloudBackupReconcileMessage, CloudRestoreStep) {
    match step {
        CloudRestoreStep::Notify(w, m) => (m, w.on_sent()),
        _ => panic!("expected a message"),
    }
}

fn listed(namespaces: Result<Vec<String>, CloudStorageError>) -> CloudRestoreStep {
    let (m, step) = after_notice(do_restore_from_cloud_backup());
    assert!(matches!(m, CloudBackupReconcileMessage::StateChanged(CloudBackupState::Restoring)));
    let CloudRestoreStep::ListNamespaces(w) = step else { panic!("expected the namespace listing") };
    w.on_listed(namespaces)
}

fn discovered(namespaces: Vec<&str>) -> CloudRestoreStep {
    let ns: Vec<String> = namespaces.iter().map(|s| s.to_string()).collect();
    let CloudRestoreStep::FetchFirstMasterKey(w, first) = listed(Ok(ns)) else {
        panic!("expected the first master key")
    };
    assert_eq!(first, namespaces[0]);
    let CloudRestoreStep::Discover(w, req) =
        w.on_fetched(MasterKeyFetch::Envelope { version: 1, prf_salt: [6u8; 32] })
    else {
        panic!("expected a discovery")
    };
    assert_eq!(req.prf_salt, vec![6u8; 32]);
    assert_eq!(req.challenge.len(), 32);
    w.on_discovered(Ok(DiscoveredPasskey { prf_output: vec![9u8; 32], credential_id: vec![0xca, 0xfe] }))
}

fn error_of(step: CloudRestoreStep) -> CloudBackupError {
    match step {
        CloudRestoreStep::Finished(Err(e)) => e,
        _ => panic!("expected a failure"),
    }
}

/// Unwraps the first namespace, on a device with (`has_key`) or without a
/// master key, and lists `ids` in it.
fn restoring(has_key: bool, ids: Vec<&str>) -> CloudRestoreStep {
    let CloudRestoreStep::UnwrapMasterKey(w, req) = discovered(vec!["ns-a"]) else {
        panic!("expected an unwrap")
    };
    assert_eq!(req.namespace, "ns-a");
    assert_eq!(req.prf_key, [9u8; 32]);
    let CloudRestoreStep::LoadLocalMasterKey(w) = w.on_unwrapped(Ok(vec![1, 1, 1])) else {
        panic!("expected the local key check")
    };
    let list = if has_key {
        w.on_local_key(Ok(Some(vec![2])))
    } else {
        let CloudRestoreStep::SaveMasterKey(w, req) = w.on_local_key(Ok(None)) else {
            panic!("expected the key to be saved")
        };
        assert_eq!(req.master_key, vec![1, 1, 1]);
        w.on_saved(Ok(()))
    };
    let CloudRestoreStep::ListWallets(w, ns) = list else { panic!("expected the wallet listing") };
    assert_eq!(ns, "ns-a");
    let CloudRestoreStep::LoadKnownFingerprints(w) =
        w.on_listed(Ok(ids.iter().map(|s| s.to_string()).collect()))
    else {
        panic!("expected the known fingerprints")
    };
    w.on_known(Ok(Vec::new()))
}

fn wallet(step: CloudRestoreStep, record: &str) -> AwaitWalletRestore {
    match step {
        CloudRestoreStep::RestoreWallet(w, RestoreWalletStep::Fetch(_, req)) => {
            assert_eq!(req.record_id, record);
            assert_eq!(req.namespace, "ns-a");
            w
        }
        _ => panic!("expected a wallet restore"),
    }
}

fn progress(step: CloudRestoreStep, completed: u32, total: u32) -> CloudRestoreStep {
    let (m, next) = after_notice(step);
    match m {
        CloudBackupReconcileMessage::ProgressUpdated { completed: c, total: t } => {
            assert_eq!((c, t), (completed, total))
        }
        _ => panic!("expected progress"),
    }
    next
}

#[test]
fn listing_failures() {
    assert!(matches!(
        error_of(listed(Err(CloudStorageError::NotAvailable("icloud".into())))),
        CloudBackupError::Cloud(m) if m == "not available: icloud"
    ));
    assert!(matches!(
        error_of(listed(Ok(Vec::new()))),
        CloudBackupError::Internal(m) if m == "no cloud backup namespaces found"
    ));
}

#[test]
fn first_master_key_must_be_readable() {
    let CloudRestoreStep::FetchFirstMasterKey(w, _) = listed(Ok(vec!["a".into()])) else { panic!() };
    assert!(matches!(
        error_of(w.on_fetched(MasterKeyFetch::Envelope { version: 3, prf_salt: [0; 32] })),
        CloudBackupError::Internal(m) if m == "unsupported master key backup version: 3"
    ));
    let CloudRestoreStep::FetchFirstMasterKey(w, _) = listed(Ok(vec!["a".into()])) else { panic!() };
    assert!(matches!(
        error_of(w.on_fetched(MasterKeyFetch::Unreadable("eof".into()))),
        CloudBackupError::Internal(m) if m == "eof"
    ));
}

#[test]
fn cancelled_discovery_is_a_passkey_error() {
    let CloudRestoreStep::FetchFirstMasterKey(w, _) = listed(Ok(vec!["a".into()])) else { panic!() };
    let CloudRestoreStep::Discover(w, _) =
        w.on_fetched(MasterKeyFetch::Envelope { version: 1, prf_salt: [0; 32] })
    else {
        panic!()
    };
    assert!(matches!(
        error_of(w.on_discovered(Err(PasskeyError::UserCancelled))),
        CloudBackupError::Passkey(m) if m == "user cancelled"
    ));
}

#[test]
fn namespaces_are_tried_in_order_until_one_unwraps() {
    let CloudRestoreStep::UnwrapMasterKey(w, req) = discovered(vec!["ns-a", "ns-b", "ns-c"]) else {
        panic!("expected an unwrap of the first namespace")
    };
    assert_eq!(req.namespace, "ns-a");
    let CloudRestoreStep::FetchCandidateMasterKey(w, ns) = w.on_unwrapped(Err("wrong key".into())) else {
        panic!("expected the second namespace")
    };
    assert_eq!(ns, "ns-b");
    let CloudRestoreStep::FetchCandidateMasterKey(w, ns) =
        w.on_fetched(MasterKeyFetch::Envelope { version: 2, prf_salt: [0; 32] })
    else {
        panic!("a newer format is skipped")
    };
    assert_eq!(ns, "ns-c");
    let CloudRestoreStep::UnwrapMasterKey(w, req) =
        w.on_fetched(MasterKeyFetch::Envelope { version: 1, prf_salt: [0; 32] })
    else {
        panic!("expected an unwrap")
    };
    assert_eq!(req.namespace, "ns-c");
    assert!(matches!(
        error_of(w.on_unwrapped(Err("wrong key".into()))),
        CloudBackupError::Crypto(m) if m == "no namespace matched the passkey"
    ));
}

#[test]
fn fresh_device_restores_and_persists_everything() {
    let step = restoring(false, vec!["r1", "r2"]);
    let w = wallet(step, "r1");
    let step = progress(w.on_wallet_restored(Ok(()), Vec::new()), 1, 2);
    let w = wallet(step, "r2");
    let step = progress(
        w.on_wallet_restored(Err(CloudBackupError::Crypto("decrypt wallet: tag".into())), Vec::new()),
        2,
        2,
    );
    let CloudRestoreStep::WriteKeychain(w, write) = step else { panic!("expected the namespace write") };
    assert_eq!((write.key.as_str(), write.value.as_str()), ("cspp::v1::namespace_id", "ns-a"));
    let CloudRestoreStep::WriteKeychain(w, write) = w.on_written(Ok(())) else { panic!() };
    assert_eq!((write.key.as_str(), write.value.as_str()), ("cspp::v1::credential_id", "cafe"));
    let CloudRestoreStep::WriteKeychain(w, write) = w.on_written(Ok(())) else { panic!() };
    assert_eq!(write.key, "cspp::v1::prf_salt");
    assert_eq!(write.value, "06".repeat(32));
    let CloudRestoreStep::PersistSetting(w, setting) = w.on_written(Ok(())) else { panic!() };
    assert!(matches!(setting, CloudBackup::Enabled { last_sync: Some(_), wallet_count: Some(1) }));
    let (m, step) = after_notice(w.on_persisted(Ok(())));
    match m {
        CloudBackupReconcileMessage::RestoreComplete(r) => {
            assert_eq!(r.wallets_restored, 1);
            assert_eq!(r.wallets_failed, 1);
            assert_eq!(r.failed_wallet_errors, vec!["crypto error: decrypt wallet: tag".to_string()]);
        }
        _ => panic!("expected the report"),
    }
    let (m, step) = after_notice(step);
    assert!(matches!(m, CloudBackupReconcileMessage::StateChanged(CloudBackupState::Enabled)));
    assert!(matches!(step, CloudRestoreStep::Finished(Ok(()))));
}

#[test]
fn device_with_a_key_persists_only_the_setting() {
    let step = restoring(true, vec!["r1"]);
    let w = wallet(step, "r1");
    let step = progress(w.on_wallet_restored(Ok(()), Vec::new()), 1, 1);
    assert!(matches!(step, CloudRestoreStep::PersistSetting(..)));
}

#[test]
fn every_wallet_failing_fails_the_restore_without_persisting() {
    let step = restoring(false, vec!["r1"]);
    let w = wallet(step, "r1");
    let step = progress(
        w.on_wallet_restored(Err(CloudBackupError::Cloud("download r1: gone".into())), Vec::new()),
        1,
        1,
    );
    let (m, step) = after_notice(step);
    match m {
        CloudBackupReconcileMessage::RestoreComplete(r) => {
            assert_eq!((r.wallets_restored, r.wallets_failed), (0, 1))
        }
        _ => panic!("expected the report"),
    }
    assert!(matches!(
        error_of(step),
        CloudBackupError::Internal(m) if m == "all wallets failed to restore"
    ));
}

#[test]
fn empty_namespace_still_enables_the_backup() {
    let step = restoring(true, Vec::new());
    let CloudRestoreStep::PersistSetting(_, setting) = step else { panic!("expected the setting") };
    assert!(matches!(setting, CloudBackup::Enabled { wallet_count: Some(0), .. }));
}

#[test]
fn failed_keychain_write_names_the_entry() {
    let step = restoring(false, vec![]);
    let CloudRestoreStep::WriteKeychain(w, _) = step else { panic!() };
    let CloudRestoreStep::WriteKeychain(w, _) = w.on_written(Ok(())) else { panic!() };
    assert!(matches!(
        error_of(w.on_written(Err("locked".into()))),
        CloudBackupError::Internal(m) if m == "save credential_id: locked"
    ));
}
