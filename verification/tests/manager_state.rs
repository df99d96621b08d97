use cove_backup::inventory::{
    build_detail_from_wallet_ids, cloud_only_record_ids, count_all_wallets, unsynced_wallets,
    wallet_scopes, LocalWallet,
};
use cove_backup::manager::{
    backfilled_setting, current_namespace_id, debug_reset_cloud_backup_state,
    may_start_enable_or_restore, persist_verification_result, record_message, stored_wallet_count,
    sync_persisted_state, verification_from_error, StoredWalletCount,
};
use cove_backup::model::{
    CloudBackup, CloudBackupError, CloudBackupReconcileMessage, CloudBackupState,
    CloudBackupWalletStatus, DeepVerificationFailure, DeepVerificationResult, Network, WalletMode,
    WalletType,
};

#[test]
fn state_reads_back_the_last_state_sent() {
    let mut state = CloudBackupState::Disabled;
    record_message(&mut state, &CloudBackupReconcileMessage::StateChanged(CloudBackupState::Restoring));
    record_message(&mut state, &CloudBackupReconcileMessage::ProgressUpdated { completed: 1, total: 2 });
    record_message(&mut state, &CloudBackupReconcileMessage::SyncFailed("x".into()));
    assert_eq!(state, CloudBackupState::Restoring);
    record_message(&mut state, &CloudBackupReconcileMessage::StateChanged(CloudBackupState::Enabled));
    assert_eq!(state, CloudBackupState::Enabled);
}

#[test]
fn enable_and_restore_do_not_overlap() {
    assert!(!may_start_enable_or_restore(&CloudBackupState::Enabling));
    assert!(!may_start_enable_or_restore(&CloudBackupState::Restoring));
    assert!(may_start_enable_or_restore(&CloudBackupState::Disabled));
    assert!(may_start_enable_or_restore(&CloudBackupState::Error("x".into())));
}

#[test]
fn persisted_state_is_applied_only_to_the_initial_state() {
    let on = CloudBackup::Unverified { last_sync: None, wallet_count: None };
    assert_eq!(sync_persisted_state(&CloudBackupState::Disabled, on), Some(CloudBackupState::Enabled));
    assert_eq!(sync_persisted_state(&CloudBackupState::Disabled, CloudBackup::Disabled), None);
    assert_eq!(sync_persisted_state(&CloudBackupState::Restoring, on), None);
}

#[test]
fn wallet_count_is_read_or_backfilled() {
    assert_eq!(
        stored_wallet_count(CloudBackup::Enabled { last_sync: None, wallet_count: Some(4) }),
        StoredWalletCount::Known(4)
    );
    assert_eq!(
        stored_wallet_count(CloudBackup::Unverified { last_sync: Some(9), wallet_count: None }),
        StoredWalletCount::Missing { last_sync: Some(9) }
    );
    assert_eq!(stored_wallet_count(CloudBackup::Disabled), StoredWalletCount::Disabled);
    assert_eq!(
        backfilled_setting(Some(9), 3),
        CloudBackup::Enabled { last_sync: Some(9), wallet_count: Some(3) }
    );
}

#[test]
fn verification_outcome_is_persisted_once() {
    let current = CloudBackup::Enabled { last_sync: Some(1), wallet_count: Some(2) };
    let failed = DeepVerificationResult::Failed(DeepVerificationFailure::Retry { message: "x".into(), detail: None });
    let next = persist_verification_result(current, &failed);
    assert_eq!(next, Some(CloudBackup::Unverified { last_sync: Some(1), wallet_count: Some(2) }));
    assert_eq!(persist_verification_result(next.unwrap(), &failed), None);
    assert_eq!(persist_verification_result(CloudBackup::Disabled, &failed), None);
    assert_eq!(persist_verification_result(current, &DeepVerificationResult::NotEnabled), None);
}

#[test]
fn verification_error_becomes_a_retry() {
    match verification_from_error(Err(CloudBackupError::Cloud("offline".into()))) {
        DeepVerificationResult::Failed(DeepVerificationFailure::Retry { message, detail }) => {
            assert_eq!(message, "cloud storage error: offline");
            assert!(detail.is_none());
        }
        _ => panic!("expected a retry"),
    }
}

#[test]
fn namespace_comes_from_the_keychain() {
    assert_eq!(current_namespace_id(Some("ns".into())).unwrap(), "ns");
    assert!(matches!(
        current_namespace_id(None),
        Err(CloudBackupError::Internal(m)) if m == "namespace_id not found in keychain"
    ));
}

#[test]
fn debug_reset_forgets_the_backup_locally() {
    let plan = debug_reset_cloud_backup_state();
    assert_eq!(
        plan.deleted_keys,
        vec!["cspp::v1::namespace_id", "cspp::v1::credential_id", "cspp::v1::prf_salt"]
    );
    assert_eq!(plan.setting, CloudBackup::Disabled);
    assert!(matches!(plan.message, CloudBackupReconcileMessage::StateChanged(CloudBackupState::Disabled)));
}

fn wallet(id: &str) -> LocalWallet {
    LocalWallet {
        id: id.into(),
        name: format!("Wallet {id}"),
        network: Network::Bitcoin,
        wallet_mode: WalletMode::Main,
        wallet_type: WalletType::Cold,
        fingerprint: Some("ABCD1234".into()),
        record_id: format!("rec-{id}"),
    }
}

#[test]
fn detail_lists_every_local_wallet_once() {
    let local = vec![wallet("a"), wallet("b"), wallet("c")];
    let cloud = vec!["rec-b".to_string(), "rec-x".to_string(), "rec-x".to_string(), "rec-y".to_string()];
    let d = build_detail_from_wallet_ids(Some(77), &local, &cloud);
    assert_eq!(d.last_sync, Some(77));
    assert_eq!(d.backed_up.len() + d.not_backed_up.len(), local.len());
    assert_eq!(d.backed_up.len(), 1);
    assert_eq!(d.backed_up[0].name, "Wallet b");
    assert_eq!(d.backed_up[0].status, CloudBackupWalletStatus::BackedUp);
    assert_eq!(d.not_backed_up[1].name, "Wallet c");
    assert_eq!(d.not_backed_up[1].status, CloudBackupWalletStatus::NotBackedUp);
    assert_eq!(d.cloud_only_count, 2);
}

#[test]
fn unsynced_and_orphan_records() {
    let local = vec![wallet("a"), wallet("b")];
    let cloud = vec!["rec-b".to_string(), "rec-z".to_string()];
    let unsynced = unsynced_wallets(&local, &cloud);
    assert_eq!(unsynced.len(), 1);
    assert_eq!(unsynced[0].id, "a");
    assert_eq!(cloud_only_record_ids(&cloud, &local), vec!["rec-z".to_string()]);
    assert_eq!(count_all_wallets(&local), 2);
}

#[test]
fn wallets_are_read_from_every_scope() {
    let scopes = wallet_scopes();
    assert_eq!(scopes.len(), 8);
    assert_eq!(scopes[0], (Network::Bitcoin, WalletMode::Main));
    assert_eq!(scopes[1], (Network::Bitcoin, WalletMode::Decoy));
    assert_eq!(scopes[7], (Network::Signet, WalletMode::Decoy));
}
