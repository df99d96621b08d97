use cove_backup::cloud_only::{do_fetch_cloud_only_wallets, CloudOnlyStep, OrphanOpening, OrphanWallet};
use cove_backup::cloud_storage::CloudStorageError;
use cove_backup::enable::{do_enable_cloud_backup, failure_state, EnableStep, NamespacedMasterKey};
use cove_backup::inventory::LocalWallet;
use cove_backup::maintenance::{
    backup_new_wallet, deep_verify_cloud_backup, is_wallet_store_file, join_texts,
    local_database_files, refresh_cloud_backup_detail, verify_backup_integrity, IntegrityStep,
    KeychainSnapshot, NewWalletBackupStep, RefreshStep, VerificationRunStep,
};
use cove_backup::model::{
    CloudBackup, CloudBackupDetailResult, CloudBackupError, CloudBackupReconcileMessage,
    CloudBackupState, CloudBackupWalletStatus, DeepVerificationResult, Network, WalletMode, WalletType,
};
use cove_backup::wallet_checks::WalletFetch;

fn wallet(id: &str) -> LocalWallet {
    LocalWallet {
        id: id.into(),
        name: id.into(),
        network: Network::Bitcoin,
        wallet_mode: WalletMode::Main,
        wallet_type: WalletType::Hot,
        fingerprint: None,
        record_id: format!("rec-{id}"),
    }
}

#[test]
fn enable_refuses_a_device_without_prf() {
    let EnableStep::Notify(w, m) = do_enable_cloud_backup() else { panic!("expected a message") };
    assert!(matches!(m, CloudBackupReconcileMessage::StateChanged(CloudBackupState::Enabling)));
    let EnableStep::CheckPrfSupport(w) = w.on_sent() else { panic!("expected the PRF check") };
    match w.on_prf_support(false) {
        EnableStep::Finished(Err(CloudBackupError::NotSupported(m))) => {
            assert_eq!(m, "PRF extension not supported on this device")
        }
        _ => panic!("expected not supported"),
    }
}

#[test]
fn enable_saves_the_namespace_only_after_all_uploads() {
    let EnableStep::Notify(w, _) = do_enable_cloud_backup() else { panic!() };
    let EnableStep::CheckPrfSupport(w) = w.on_sent() else { panic!() };
    let EnableStep::LoadMasterKey(w) = w.on_prf_support(true) else { panic!() };
    let key = NamespacedMasterKey { master_key: vec![1, 2], namespace_id: "ns-9".into() };
    let EnableStep::ObtainPrf(w, _) = w.on_master_key(Ok(key)) else { panic!() };
    let EnableStep::WrapAndUpload(w, _) = w.on_prf(Ok(([3u8; 32], [4u8; 32]))) else { panic!() };
    let EnableStep::LoadLocalWallets(w) = w.on_uploaded(Ok(())) else { panic!() };
    let EnableStep::UploadAll(w, _) = w.on_local_wallets(vec![wallet("a")]) else { panic!() };
    let failed = w.on_uploaded(Err(CloudBackupError::Cloud("quota exceeded".into())));
    assert!(matches!(failed, EnableStep::Finished(Err(CloudBackupError::Cloud(_)))));

    let EnableStep::Notify(w, _) = do_enable_cloud_backup() else { panic!() };
    let EnableStep::CheckPrfSupport(w) = w.on_sent() else { panic!() };
    let EnableStep::LoadMasterKey(w) = w.on_prf_support(true) else { panic!() };
    let key = NamespacedMasterKey { master_key: vec![1, 2], namespace_id: "ns-9".into() };
    let EnableStep::ObtainPrf(w, _) = w.on_master_key(Ok(key)) else { panic!() };
    let EnableStep::WrapAndUpload(w, _) = w.on_prf(Ok(([3u8; 32], [4u8; 32]))) else { panic!() };
    let EnableStep::LoadLocalWallets(w) = w.on_uploaded(Ok(())) else { panic!() };
    let EnableStep::UploadAll(w, _) = w.on_local_wallets(vec![]) else { panic!() };
    let EnableStep::SaveNamespace(w, write) = w.on_uploaded(Ok(())) else { panic!() };
    assert_eq!((write.key.as_str(), write.value.as_str()), ("cspp::v1::namespace_id", "ns-9"));
    let EnableStep::Notify(w, m) = w.on_saved(Ok(())) else { panic!() };
    assert!(matches!(m, CloudBackupReconcileMessage::EnableComplete));
    let EnableStep::Notify(w, m) = w.on_sent() else { panic!() };
    assert!(matches!(m, CloudBackupReconcileMessage::StateChanged(CloudBackupState::Enabled)));
    assert!(matches!(w.on_sent(), EnableStep::Finished(Ok(()))));
}

#[test]
fn enable_master_key_failure_has_context() {
    let EnableStep::Notify(w, _) = do_enable_cloud_backup() else { panic!() };
    let EnableStep::CheckPrfSupport(w) = w.on_sent() else { panic!() };
    let EnableStep::LoadMasterKey(w) = w.on_prf_support(true) else { panic!() };
    assert!(matches!(
        w.on_master_key(Err("locked".into())),
        EnableStep::Finished(Err(CloudBackupError::Internal(m))) if m == "master key: locked"
    ));
}

#[test]
fn failure_state_shows_the_error() {
    let s = failure_state(&CloudBackupError::Passkey("user cancelled".into()));
    assert_eq!(s, CloudBackupState::Error("passkey error: user cancelled".into()));
}

#[test]
fn new_wallet_backup_falls_back_to_a_sync() {
    assert!(matches!(backup_new_wallet(&CloudBackupState::Restoring, wallet("a")), NewWalletBackupStep::Done));
    let NewWalletBackupStep::Backup(w, _) = backup_new_wallet(&CloudBackupState::Enabled, wallet("a")) else {
        panic!("expected a backup")
    };
    let NewWalletBackupStep::Sync(w, _) = w.on_backed_up(Err(CloudBackupError::Cloud("x".into()))) else {
        panic!("expected a sync")
    };
    match w.on_synced(Err(CloudBackupError::Cloud("y".into()))) {
        NewWalletBackupStep::Report(CloudBackupReconcileMessage::SyncFailed(m)) => {
            assert_eq!(m, "cloud storage error: y")
        }
        _ => panic!("expected a report"),
    }
}

#[test]
fn texts_are_joined_with_the_separator() {
    assert_eq!(join_texts(&vec![], "; "), "");
    assert_eq!(join_texts(&vec!["a".into()], "; "), "a");
    assert_eq!(join_texts(&vec!["a".into(), "b".into(), "c".into()], "; "), "a; b; c");
}

#[test]
fn integrity_reports_missing_keychain_entries() {
    assert!(matches!(verify_backup_integrity(&CloudBackupState::Disabled), IntegrityStep::Finished(None)));
    let IntegrityStep::ReadKeychain(w) = verify_backup_integrity(&CloudBackupState::Enabled) else { panic!() };
    let k = KeychainSnapshot { has_master_key: false, has_credential: true, has_prf_salt: false, namespace: None };
    match w.on_keychain(k) {
        IntegrityStep::Finished(Some(m)) => assert_eq!(
            m,
            "master key not found in keychain; passkey salt not found — open Cloud Backup in Settings to re-verify; namespace_id not found in keychain"
        ),
        _ => panic!("expected issues"),
    }
}

#[test]
fn integrity_syncs_when_the_cloud_lacks_wallets() {
    let IntegrityStep::ReadKeychain(w) = verify_backup_integrity(&CloudBackupState::Enabled) else { panic!() };
    assert_eq!(w.entries(), ("cspp::v1::credential_id", "cspp::v1::prf_salt", "cspp::v1::namespace_id"));
    let k = KeychainSnapshot { has_master_key: true, has_credential: true, has_prf_salt: true, namespace: Some("ns".into()) };
    let IntegrityStep::ListWallets(w, ns) = w.on_keychain(k) else { panic!("expected a listing") };
    assert_eq!(ns, "ns");
    let IntegrityStep::LoadLocalWallets(w) = w.on_listed(Ok(vec!["rec-a".into()])) else { panic!() };
    let IntegrityStep::Sync(w, _) = w.on_local_wallets(&vec![wallet("a"), wallet("b")]) else {
        panic!("expected a sync")
    };
    match w.on_synced(Err(CloudBackupError::Cloud("x".into()))) {
        IntegrityStep::Finished(Some(m)) => assert_eq!(m, "some wallets are not backed up"),
        _ => panic!("expected an issue"),
    }
}

#[test]
fn refresh_reuploads_an_empty_namespace() {
    assert!(matches!(refresh_cloud_backup_detail(&CloudBackupState::Enabling), RefreshStep::Finished(None)));
    let RefreshStep::LoadNamespace(w) = refresh_cloud_backup_detail(&CloudBackupState::Enabled) else { panic!() };
    let RefreshStep::ListWallets(w, _) = w.on_namespace(Some("ns".into())) else { panic!() };
    let RefreshStep::Reupload(w, _) = w.on_listed(Err(CloudStorageError::NotFound("ns".into()))) else {
        panic!("expected a re-upload")
    };
    match w.on_reuploaded(Err(CloudBackupError::Internal("x".into()))) {
        RefreshStep::Finished(Some(CloudBackupDetailResult::AccessError(m))) => {
            assert_eq!(m, "Failed to re-upload wallets: internal error: x")
        }
        _ => panic!("expected an access error"),
    }
}

#[test]
fn refresh_builds_the_detail() {
    let RefreshStep::LoadNamespace(w) = refresh_cloud_backup_detail(&CloudBackupState::Enabled) else { panic!() };
    let RefreshStep::ListWallets(w, _) = w.on_namespace(Some("ns".into())) else { panic!() };
    let RefreshStep::LoadDetailInputs(w) = w.on_listed(Ok(vec!["rec-a".into(), "rec-q".into()])) else {
        panic!()
    };
    let setting = CloudBackup::Enabled { last_sync: Some(42), wallet_count: Some(2) };
    match w.on_detail_inputs(setting, &vec![wallet("a"), wallet("b")]) {
        RefreshStep::Finished(Some(CloudBackupDetailResult::Success(d))) => {
            assert_eq!(d.last_sync, Some(42));
            assert_eq!(d.backed_up.len(), 1);
            assert_eq!(d.not_backed_up.len(), 1);
            assert_eq!(d.cloud_only_count, 1);
        }
        _ => panic!("expected a detail"),
    }
    let RefreshStep::LoadNamespace(w) = refresh_cloud_backup_detail(&CloudBackupState::Enabled) else { panic!() };
    match w.on_namespace(None) {
        RefreshStep::Finished(Some(CloudBackupDetailResult::AccessError(m))) => {
            assert_eq!(m, "internal error: namespace_id not found in keychain")
        }
        _ => panic!("expected an access error"),
    }
}

#[test]
fn deep_verification_needs_an_enabled_backup() {
    assert!(matches!(
        deep_verify_cloud_backup(&CloudBackupState::Disabled),
        VerificationRunStep::Finished(DeepVerificationResult::NotEnabled, None)
    ));
    let VerificationRunStep::LoadNamespace(w) = deep_verify_cloud_backup(&CloudBackupState::Enabled) else { panic!() };
    let VerificationRunStep::Verify(w, _) = w.on_namespace(None) else { panic!() };
    let VerificationRunStep::LoadSetting(w) = w.on_verified(Err(CloudBackupError::Cloud("x".into()))) else {
        panic!()
    };
    match w.on_setting(CloudBackup::Enabled { last_sync: None, wallet_count: Some(1) }) {
        VerificationRunStep::Finished(DeepVerificationResult::Failed(_), Some(s)) => {
            assert_eq!(s, CloudBackup::Unverified { last_sync: None, wallet_count: Some(1) })
        }
        _ => panic!("expected a failure to persist"),
    }
}

#[test]
fn wipe_targets() {
    assert_eq!(local_database_files(), vec!["cove.encrypted.db", "cove.db"]);
    assert!(is_wallet_store_file("bdk_wallet_abc.sqlite"));
    assert!(is_wallet_store_file("bdk_wallet"));
    assert!(!is_wallet_store_file("bdk_walle"));
    assert!(!is_wallet_store_file("my_bdk_wallet"));
}

#[test]
fn cloud_only_wallets_skip_unreadable_backups() {
    let CloudOnlyStep::LoadNamespace(w) = do_fetch_cloud_only_wallets() else { panic!() };
    let CloudOnlyStep::ListWallets(w, ns) = w.on_namespace(Some("ns".into())) else { panic!() };
    assert_eq!(ns, "ns");
    let CloudOnlyStep::LoadLocalWallets(w) =
        w.on_listed(Ok(vec!["rec-a".into(), "rec-x".into(), "rec-y".into()]))
    else {
        panic!()
    };
    let CloudOnlyStep::LoadMasterKey(w) = w.on_local_wallets(vec![wallet("a")]) else { panic!() };
    let CloudOnlyStep::Fetch(w, req) = w.on_master_key(Ok(vec![7])) else { panic!() };
    assert_eq!(req.record_id, "rec-x");
    let CloudOnlyStep::Fetch(w, req) = w.on_fetched(WalletFetch::DownloadFailed("x".into())) else { panic!() };
    assert_eq!(req.record_id, "rec-y");
    let CloudOnlyStep::Open(w, req) = w.on_fetched(WalletFetch::Envelope { version: 5 }) else { panic!() };
    assert_eq!(req.master_key, vec![7]);
    let opened = OrphanWallet {
        name: "Old".into(),
        network: Network::Signet,
        wallet_mode: WalletMode::Decoy,
        wallet_type: WalletType::WatchOnly,
        fingerprint: Some("ABCDEF01".into()),
    };
    match w.on_opened(OrphanOpening::Opened(opened)) {
        CloudOnlyStep::Finished(Ok(items)) => {
            assert_eq!(items.len(), 1);
            assert_eq!(items[0].name, "Old");
            assert_eq!(items[0].status, CloudBackupWalletStatus::DeletedFromDevice);
            assert_eq!(items[0].record_id, Some("rec-y".to_string()));
        }
        _ => panic!("expected the list"),
    }
}

#[test]
fn no_cloud_only_wallets_needs_no_key() {
    let CloudOnlyStep::LoadNamespace(w) = do_fetch_cloud_only_wallets() else { panic!() };
    let CloudOnlyStep::ListWallets(w, _) = w.on_namespace(Some("ns".into())) else { panic!() };
    let CloudOnlyStep::LoadLocalWallets(w) = w.on_listed(Ok(vec!["rec-a".into()])) else { panic!() };
    assert!(matches!(w.on_local_wallets(vec![wallet("a")]), CloudOnlyStep::Finished(Ok(v)) if v.is_empty()));
}

#[test]
fn integrity_warns_when_the_backups_cannot_be_listed() {
    let IntegrityStep::ReadKeychain(w) = verify_backup_integrity(&CloudBackupState::Enabled) else { panic!() };
    let k = KeychainSnapshot { has_master_key: true, has_credential: true, has_prf_salt: true, namespace: Some("ns".into()) };
    let IntegrityStep::ListWallets(w, _) = w.on_keychain(k) else { panic!("expected a listing") };
    match w.on_listed(Err(CloudStorageError::NotFound("ns".into()))) {
        IntegrityStep::Finished(Some(m)) => assert_eq!(m, "could not list wallet backups: not found: ns"),
        _ => panic!("expected a warning"),
    }
}
