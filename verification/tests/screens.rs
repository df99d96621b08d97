use cove_backup::detail::{
    cloud_only_messages, dispatch as detail_dispatch, opening_messages, recovery_messages,
    recovery_operation, refresh_messages, sync_messages, verification_messages,
    CloudBackupDetailAction, CloudBackupDetailReconcileMessage, CloudOnlyState, DetailTask,
    RecoveryAction, RecoveryOperation, RecoveryState, SyncState, VerificationState,
};
use cove_backup::model::{
    CloudBackupDetail, CloudBackupDetailResult, CloudBackupError, DeepVerificationFailure,
    DeepVerificationResult,
};
use cove_backup::onboarding::{
    dispatch as onboarding_dispatch, OnboardingAction, OnboardingReconcileMessage, OnboardingStep,
};

#[test]
fn onboarding_starts_on_the_terms() {
    assert_eq!(OnboardingStep::default(), OnboardingStep::Terms);
}

#[test]
fn accepting_terms_moves_to_the_cloud_check() {
    let d = onboarding_dispatch(OnboardingAction::AcceptTerms);
    assert!(d.accept_terms);
    assert_eq!(d.messages.len(), 1);
    assert!(matches!(d.messages[0], OnboardingReconcileMessage::StepChanged(OnboardingStep::CloudCheck)));
}

#[test]
fn cloud_check_offers_restore_only_with_a_backup() {
    let d = onboarding_dispatch(OnboardingAction::CloudCheckComplete { has_backup: true });
    assert!(!d.accept_terms);
    assert!(matches!(d.messages[0], OnboardingReconcileMessage::StepChanged(OnboardingStep::RestoreOffer)));
    let d = onboarding_dispatch(OnboardingAction::CloudCheckComplete { has_backup: false });
    assert!(matches!(d.messages[0], OnboardingReconcileMessage::Complete));
}

#[test]
fn failed_restore_reports_and_returns_to_the_offer() {
    let d = onboarding_dispatch(OnboardingAction::RestoreFailed { error: "no passkey".into() });
    assert_eq!(d.messages.len(), 2);
    assert!(matches!(&d.messages[0], OnboardingReconcileMessage::RestoreError(e) if e == "no passkey"));
    assert!(matches!(d.messages[1], OnboardingReconcileMessage::StepChanged(OnboardingStep::RestoreOffer)));
}

#[test]
fn restore_steps_of_onboarding() {
    let d = onboarding_dispatch(OnboardingAction::StartRestore);
    assert!(matches!(d.messages[0], OnboardingReconcileMessage::StepChanged(OnboardingStep::Restoring)));
    assert!(matches!(
        onboarding_dispatch(OnboardingAction::RestoreComplete).messages[0],
        OnboardingReconcileMessage::Complete
    ));
    assert!(matches!(
        onboarding_dispatch(OnboardingAction::SkipRestore).messages[0],
        OnboardingReconcileMessage::Complete
    ));
}

#[test]
fn detail_actions_map_to_tasks() {
    assert_eq!(detail_dispatch(CloudBackupDetailAction::SyncUnsynced), DetailTask::Sync);
    assert_eq!(
        detail_dispatch(CloudBackupDetailAction::RepairPasskey),
        DetailTask::Recovery(RecoveryAction::RepairPasskey)
    );
    assert_eq!(
        detail_dispatch(CloudBackupDetailAction::DeleteCloudWallet { record_id: "r".into() }),
        DetailTask::DeleteCloudWallet("r".into())
    );
    assert_eq!(recovery_operation(RecoveryAction::RecreateManifest), RecoveryOperation::ReuploadAllWallets);
    assert_eq!(recovery_operation(RecoveryAction::ReinitializeBackup), RecoveryOperation::EnableCloudBackup);
    assert_eq!(recovery_operation(RecoveryAction::RepairPasskey), RecoveryOperation::RepairPasskeyWrapper);
}

#[test]
fn opening_messages_show_work_in_progress() {
    let m = opening_messages(&DetailTask::StartVerification);
    assert!(matches!(m[0], CloudBackupDetailReconcileMessage::VerificationChanged(VerificationState::Verifying)));
    let m = opening_messages(&DetailTask::Sync);
    assert!(matches!(m[0], CloudBackupDetailReconcileMessage::SyncChanged(SyncState::Syncing)));
    assert!(opening_messages(&DetailTask::RefreshDetail).is_empty());
}

fn detail() -> CloudBackupDetail {
    CloudBackupDetail { last_sync: Some(1), backed_up: vec![], not_backed_up: vec![], cloud_only_count: 2 }
}

#[test]
fn failed_verification_sends_its_detail_first() {
    let m = verification_messages(DeepVerificationResult::Failed(DeepVerificationFailure::Retry {
        message: "x".into(),
        detail: Some(detail()),
    }));
    assert_eq!(m.len(), 2);
    assert!(matches!(&m[0], CloudBackupDetailReconcileMessage::DetailUpdated(d) if d.cloud_only_count == 2));
    assert!(matches!(m[1], CloudBackupDetailReconcileMessage::VerificationChanged(VerificationState::Failed(_))));
    assert!(verification_messages(DeepVerificationResult::NotEnabled).is_empty());
    let m = verification_messages(DeepVerificationResult::UserCancelled(None));
    assert_eq!(m.len(), 1);
    assert!(matches!(m[0], CloudBackupDetailReconcileMessage::VerificationChanged(VerificationState::Cancelled)));
}

#[test]
fn recovery_outcomes() {
    let p = recovery_messages(RecoveryAction::RepairPasskey, Ok(()));
    assert!(matches!(p.messages[0], CloudBackupDetailReconcileMessage::RecoveryChanged(RecoveryState::Idle)));
    assert_eq!(p.next_task, Some(DetailTask::StartVerification));
    let p = recovery_messages(RecoveryAction::RepairPasskey, Err(CloudBackupError::Cloud("x".into())));
    assert!(matches!(
        &p.messages[0],
        CloudBackupDetailReconcileMessage::RecoveryChanged(RecoveryState::Failed { action: RecoveryAction::RepairPasskey, error })
            if error == "cloud storage error: x"
    ));
    assert_eq!(p.next_task, None);
}

#[test]
fn sync_and_listing_outcomes() {
    let p = sync_messages(Err(CloudBackupError::Internal("x".into())));
    assert!(matches!(&p.messages[0], CloudBackupDetailReconcileMessage::SyncChanged(SyncState::Failed(e)) if e == "internal error: x"));
    let m = cloud_only_messages(Ok(vec![]));
    assert!(matches!(&m[0], CloudBackupDetailReconcileMessage::CloudOnlyChanged(CloudOnlyState::Loaded { wallets }) if wallets.is_empty()));
    let m = refresh_messages(Some(CloudBackupDetailResult::Success(detail())));
    assert_eq!(m.len(), 1);
    assert!(refresh_messages(Some(CloudBackupDetailResult::AccessError("x".into()))).is_empty());
    assert!(refresh_messages(None).is_empty());
}
