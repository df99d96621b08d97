use cove_backup::cloud_storage::CloudStorageError;
use cove_backup::inventory::LocalWallet;
use cove_backup::model::{CloudBackup, CloudBackupError, Network, WalletMode, WalletType};
use cove_backup::uploads::{
    backup_wallets, delete_cloud_wallet, reupload_all_wallets, sync_unsynced_wallets, BackupStep,
    DeleteStep, PreparedWallet, ReuploadStep, SyncStep, UploadAllStep, UploadStep,
};

fn wallet(id: &str) -> LocalWallet {
    LocalWallet {
        id: id.into(),
        name: id.into(),
        network: Network::Bitcoin,
        wallet_mode: WalletMode::Main,
        wallet_type: WalletType::Hot,
        fingerprint: None,
        record_id: format!("rec-{id}"),
    }
}

#[test]
fn backing_up_nothing_succeeds_at_once() {
    assert!(matches!(backup_wallets(vec![]), BackupStep::Finished(Ok(()))));
}

#[test]
fn backup_uploads_each_wallet_then_records_the_listing() {
    let BackupStep::LoadNamespace(w) = backup_wallets(vec![wallet("a"), wallet("b")]) else { panic!() };
    let BackupStep::LoadMasterKey(w) = w.on_namespace(Some("ns".into())) else { panic!() };
    let BackupStep::Uploading(bw, up) = w.on_master_key(Ok(vec![7, 7])) else { panic!() };
    let UploadStep::Prepare(w, req) = up else { panic!() };
    assert_eq!(req.wallet.id, "a");
    assert_eq!(req.master_key, vec![7, 7]);
    let UploadStep::Upload(w, req) = w.on_prepared(PreparedWallet::Ready(vec![1])) else { panic!() };
    assert_eq!((req.namespace.as_str(), req.record_id.as_str()), ("ns", "rec-a"));
    assert_eq!(req.data, vec![1]);
    let UploadStep::Prepare(w, req) = w.on_uploaded(Ok(())) else { panic!() };
    assert_eq!(req.wallet.id, "b");
    let UploadStep::Upload(w, req) = w.on_prepared(PreparedWallet::Ready(vec![2])) else { panic!() };
    assert_eq!(req.record_id, "rec-b");
    let UploadStep::Finished(done) = w.on_uploaded(Ok(())) else { panic!() };
    assert!(matches!(done, Ok(2)));
    let BackupStep::ListWallets(w, ns) = bw.on_uploaded(done) else { panic!() };
    assert_eq!(ns, "ns");
    let BackupStep::SaveSetting(w, setting) = w.on_listed(Ok(vec!["x".into(), "y".into(), "z".into()])) else {
        panic!()
    };
    assert!(matches!(setting, CloudBackup::Enabled { last_sync: Some(_), wallet_count: Some(3) }));
    assert!(matches!(w.on_saved(Ok(())), BackupStep::Finished(Ok(()))));
}

#[test]
fn failed_preparation_stops_the_uploads() {
    let BackupStep::LoadNamespace(w) = backup_wallets(vec![wallet("a"), wallet("b")]) else { panic!() };
    let BackupStep::LoadMasterKey(w) = w.on_namespace(Some("ns".into())) else { panic!() };
    let BackupStep::Uploading(_, UploadStep::Prepare(w, _)) = w.on_master_key(Ok(vec![7])) else { panic!() };
    assert!(matches!(
        w.on_prepared(PreparedWallet::EncryptFailed("bad key".into())),
        UploadStep::Finished(Err(CloudBackupError::Crypto(m))) if m == "bad key"
    ));
}

#[test]
fn failed_upload_is_a_cloud_error() {
    let BackupStep::LoadNamespace(w) = backup_wallets(vec![wallet("a")]) else { panic!() };
    let BackupStep::LoadMasterKey(w) = w.on_namespace(Some("ns".into())) else { panic!() };
    let BackupStep::Uploading(_, UploadStep::Prepare(w, _)) = w.on_master_key(Ok(vec![7])) else { panic!() };
    let UploadStep::Upload(w, _) = w.on_prepared(PreparedWallet::Ready(vec![1])) else { panic!() };
    assert!(matches!(
        w.on_uploaded(Err(CloudStorageError::QuotaExceeded)),
        UploadStep::Finished(Err(CloudBackupError::Cloud(m))) if m == "quota exceeded"
    ));
}

#[test]
fn backup_without_namespace_fails() {
    let BackupStep::LoadNamespace(w) = backup_wallets(vec![wallet("a")]) else { panic!() };
    assert_eq!(w.entry(), "cspp::v1::namespace_id");
    assert!(matches!(
        w.on_namespace(None),
        BackupStep::Finished(Err(CloudBackupError::Internal(m))) if m == "namespace_id not found in keychain"
    ));
}

#[test]
fn sync_backs_up_only_the_missing_wallets() {
    let SyncStep::LoadNamespace(w) = sync_unsynced_wallets() else { panic!() };
    let SyncStep::ListWallets(w, ns) = w.on_namespace(Some("ns".into())) else { panic!() };
    assert_eq!(ns, "ns");
    let SyncStep::LoadLocalWallets(w) = w.on_listed(Ok(vec!["rec-a".into()])) else { panic!() };
    let SyncStep::Backup(_, BackupStep::LoadNamespace(_)) = w.on_local_wallets(vec![wallet("a"), wallet("b")])
    else {
        panic!("expected a backup")
    };
    let SyncStep::LoadNamespace(w) = sync_unsynced_wallets() else { panic!() };
    let SyncStep::ListWallets(w, _) = w.on_namespace(Some("ns".into())) else { panic!() };
    let SyncStep::LoadLocalWallets(w) = w.on_listed(Ok(vec!["rec-a".into()])) else { panic!() };
    assert!(matches!(w.on_local_wallets(vec![wallet("a")]), SyncStep::Finished(Ok(()))));
}

#[test]
fn reupload_uploads_all_local_wallets() {
    let ReuploadStep::LoadNamespace(w) = reupload_all_wallets() else { panic!() };
    let ReuploadStep::LoadMasterKey(w) = w.on_namespace(Some("ns".into())) else { panic!() };
    let ReuploadStep::LoadLocalWallets(w) = w.on_master_key(Ok(vec![1])) else { panic!() };
    let ReuploadStep::UploadAll(rw, UploadAllStep::Uploading(aw, UploadStep::Finished(done))) =
        w.on_local_wallets(vec![])
    else {
        panic!("no wallets upload at once")
    };
    let UploadAllStep::SaveSetting(sw, setting) = aw.on_uploaded(done) else { panic!() };
    assert!(matches!(setting, CloudBackup::Enabled { wallet_count: Some(0), .. }));
    let UploadAllStep::Finished(r) = sw.on_saved(Err("disk".into())) else { panic!() };
    assert!(matches!(&r, Err(CloudBackupError::Internal(m)) if m == "persist cloud backup state: disk"));
    assert!(matches!(rw.on_uploaded(r), ReuploadStep::Finished(Err(_))));
}

#[test]
fn deleting_a_cloud_wallet_recounts_the_listing() {
    let DeleteStep::LoadNamespace(w) = delete_cloud_wallet("rec-z".into()) else { panic!() };
    let DeleteStep::Delete(w, ns, rid) = w.on_namespace(Some("ns".into())) else { panic!() };
    assert_eq!((ns.as_str(), rid.as_str()), ("ns", "rec-z"));
    let DeleteStep::ListWallets(w, _) = w.on_deleted(Ok(())) else { panic!() };
    let DeleteStep::LoadSetting(w) = w.on_listed(Ok(vec!["a".into(), "b".into()])) else { panic!() };
    match w.on_setting(CloudBackup::Unverified { last_sync: Some(11), wallet_count: Some(3) }) {
        DeleteStep::SaveSetting(s) => {
            assert_eq!(s, CloudBackup::Enabled { last_sync: Some(11), wallet_count: Some(2) })
        }
        _ => panic!("expected the setting"),
    }
}
