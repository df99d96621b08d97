//! The backup detail screen: which work an action starts, and the messages
//! that its outcome sends to the UI.

use vstd::prelude::*;
use crate::model::{
    copy_opt_detail, opt_detail_view, CloudBackupDetail, CloudBackupDetailResult,
    CloudBackupDetailView, CloudBackupError, CloudBackupWalletItem, DeepVerificationFailure,
    DeepVerificationReport, DeepVerificationResult,
};

verus! {

/// A recovery offered after a failed verification.
#[derive(Debug, Clone, Copy, PartialEq, Eq, Structural)]
pub enum RecoveryAction {
    RecreateManifest,
    ReinitializeBackup,
    RepairPasskey,
}

#[derive(Debug, Clone)]
pub enum VerificationState {
    Idle,
    Verifying,
    Verified(DeepVerificationReport),
    Failed(DeepVerificationFailure),
    Cancelled,
}

#[derive(Debug, Clone)]
pub enum SyncState {
    Idle,
    Syncing,
    Failed(String),
}

#[derive(Debug, Clone)]
pub enum RecoveryState {
    Idle,
    Recovering(RecoveryAction),
    Failed { action: RecoveryAction, error: String },
}

#[derive(Debug, Clone)]
pub enum CloudOnlyState {
    NotFetched,
    Loading,
    Loaded { wallets: Vec<CloudBackupWalletItem> },
}

#[derive(Debug, Clone)]
pub enum CloudOnlyOperation {
    Idle,
    Operating { record_id: String },
    Failed { error: String },
}

/// What the user asks of the backup detail screen.
#[derive(Debug, Clone)]
pub enum CloudBackupDetailAction {
    StartVerification,
    RecreateManifest,
    ReinitializeBackup,
    RepairPasskey,
    SyncUnsynced,
    FetchCloudOnly,
    RestoreCloudWallet { record_id: String },
    DeleteCloudWallet { record_id: String },
    RefreshDetail,
}

/// Messages from the backup detail screen's manager to the UI.
#[derive(Debug, Clone)]
pub enum CloudBackupDetailReconcileMessage {
    DetailUpdated(CloudBackupDetail),
    VerificationChanged(VerificationState),
    SyncChanged(SyncState),
    RecoveryChanged(RecoveryState),
    CloudOnlyChanged(CloudOnlyState),
    CloudOnlyWalletRemoved(String),
    CloudOnlyOperationChanged(CloudOnlyOperation),
}

/// The UI side that receives detail messages, implemented by the host.
pub trait CloudBackupDetailManagerReconciler: Send + Sync {
    fn reconcile(&self, message: CloudBackupDetailReconcileMessage);

    fn reconcile_many(&self, messages: Vec<CloudBackupDetailReconcileMessage>);
}

/// The work that an action of the detail screen starts.
#[derive(Debug, Clone, PartialEq, Eq)]
pub enum DetailTask {
    StartVerification,
    Recovery(RecoveryAction),
    Sync,
    FetchCloudOnly,
    RestoreCloudWallet(String),
    DeleteCloudWallet(String),
    RefreshDetail,
}

/// The backup operation that a recovery runs.
#[derive(Debug, Clone, Copy, PartialEq, Eq, Structural)]
pub enum RecoveryOperation {
    /// Re-upload all local wallets.
    ReuploadAllWallets,
    /// Enable the cloud backup from scratch.
    EnableCloudBackup,
    /// Wrap the master key with a new passkey.
    RepairPasskeyWrapper,
}

/// The task of each action.
pub open spec fn spec_task(action: CloudBackupDetailAction) -> DetailTask {
    match action {
        CloudBackupDetailAction::StartVerification => DetailTask::StartVerification,
        CloudBackupDetailAction::RecreateManifest => DetailTask::Recovery(
            RecoveryAction::RecreateManifest,
        ),
        CloudBackupDetailAction::ReinitializeBackup => DetailTask::Recovery(
            RecoveryAction::ReinitializeBackup,
        ),
        CloudBackupDetailAction::RepairPasskey => DetailTask::Recovery(RecoveryAction::RepairPasskey),
        CloudBackupDetailAction::SyncUnsynced => DetailTask::Sync,
        CloudBackupDetailAction::FetchCloudOnly => DetailTask::FetchCloudOnly,
        CloudBackupDetailAction::RestoreCloudWallet { record_id } => DetailTask::RestoreCloudWallet(
            record_id,
        ),
        CloudBackupDetailAction::DeleteCloudWallet { record_id } => DetailTask::DeleteCloudWallet(
            record_id,
        ),
        CloudBackupDetailAction::RefreshDetail => DetailTask::RefreshDetail,
    }
}

/// Each action of the detail screen starts the task of the same name (a
/// restore or a delete of the wallet it names), and no two actions start the
/// same task.
pub proof fn lemma_each_action_starts_its_own_task(a: CloudBackupDetailAction, b: CloudBackupDetailAction)
    ensures
        a is RecreateManifest <==> spec_task(a) == DetailTask::Recovery(RecoveryAction::RecreateManifest),
        a is ReinitializeBackup <==> spec_task(a) == DetailTask::Recovery(
            RecoveryAction::ReinitializeBackup,
        ),
        a is RepairPasskey <==> spec_task(a) == DetailTask::Recovery(RecoveryAction::RepairPasskey),
        a is StartVerification <==> spec_task(a) is StartVerification,
        a is SyncUnsynced <==> spec_task(a) is Sync,
        a is FetchCloudOnly <==> spec_task(a) is FetchCloudOnly,
        a is RefreshDetail <==> spec_task(a) is RefreshDetail,
        a matches CloudBackupDetailAction::RestoreCloudWallet { record_id } ==> spec_task(a)
            == DetailTask::RestoreCloudWallet(record_id),
        a matches CloudBackupDetailAction::DeleteCloudWallet { record_id } ==> spec_task(a)
            == DetailTask::DeleteCloudWallet(record_id),
        spec_task(a) == spec_task(b) ==> a == b,
{
}

/// The task that an action of the detail screen starts.
pub fn dispatch(action: CloudBackupDetailAction) -> (t: DetailTask)
    ensures
        t == spec_task(action),
{
    match action {
        CloudBackupDetailAction::StartVerification => DetailTask::StartVerification,
        CloudBackupDetailAction::RecreateManifest => DetailTask::Recovery(
            RecoveryAction::RecreateManifest,
        ),
        CloudBackupDetailAction::ReinitializeBackup => DetailTask::Recovery(
            RecoveryAction::ReinitializeBackup,
        ),
        CloudBackupDetailAction::RepairPasskey => DetailTask::Recovery(RecoveryAction::RepairPasskey),
        CloudBackupDetailAction::SyncUnsynced => DetailTask::Sync,
        CloudBackupDetailAction::FetchCloudOnly => DetailTask::FetchCloudOnly,
        CloudBackupDetailAction::RestoreCloudWallet { record_id } => DetailTask::RestoreCloudWallet(
            record_id,
        ),
        CloudBackupDetailAction::DeleteCloudWallet { record_id } => DetailTask::DeleteCloudWallet(
            record_id,
        ),
        CloudBackupDetailAction::RefreshDetail => DetailTask::RefreshDetail,
    }
}

/// The operation that a recovery runs: recreating the manifest re-uploads
/// all wallets, reinitializing enables the backup anew, a passkey repair
/// re-wraps the master key.
pub fn recovery_operation(action: RecoveryAction) -> (op: RecoveryOperation)
    ensures
        action is RecreateManifest ==> op is ReuploadAllWallets,
        action is ReinitializeBackup ==> op is EnableCloudBackup,
        action is RepairPasskey ==> op is RepairPasskeyWrapper,
{
    match action {
        RecoveryAction::RecreateManifest => RecoveryOperation::ReuploadAllWallets,
        RecoveryAction::ReinitializeBackup => RecoveryOperation::EnableCloudBackup,
        RecoveryAction::RepairPasskey => RecoveryOperation::RepairPasskeyWrapper,
    }
}

/// The messages sent when a task starts, before its work.
pub open spec fn spec_opening_messages(task: DetailTask) -> Seq<CloudBackupDetailReconcileMessage> {
    match task {
        DetailTask::StartVerification => seq![
            CloudBackupDetailReconcileMessage::VerificationChanged(VerificationState::Verifying),
        ],
        DetailTask::Recovery(a) => seq![
            CloudBackupDetailReconcileMessage::RecoveryChanged(RecoveryState::Recovering(a)),
        ],
        DetailTask::Sync => seq![CloudBackupDetailReconcileMessage::SyncChanged(SyncState::Syncing)],
        DetailTask::FetchCloudOnly => seq![
            CloudBackupDetailReconcileMessage::CloudOnlyChanged(CloudOnlyState::Loading),
        ],
        DetailTask::RestoreCloudWallet(id) => seq![
            CloudBackupDetailReconcileMessage::CloudOnlyOperationChanged(
                CloudOnlyOperation::Operating { record_id: id },
            ),
        ],
        DetailTask::DeleteCloudWallet(id) => seq![
            CloudBackupDetailReconcileMessage::CloudOnlyOperationChanged(
                CloudOnlyOperation::Operating { record_id: id },
            ),
        ],
        DetailTask::RefreshDetail => Seq::empty(),
    }
}

/// The messages sent when a task starts: verifying, recovering, syncing,
/// loading, or operating on the cloud wallet; a refresh sends none.
pub fn opening_messages(task: &DetailTask) -> (m: Vec<CloudBackupDetailReconcileMessage>)
    ensures
        m@ == spec_opening_messages(*task),
{
    let mut m: Vec<CloudBackupDetailReconcileMessage> = Vec::new();
    match task {
        DetailTask::StartVerification => m.push(
            CloudBackupDetailReconcileMessage::VerificationChanged(VerificationState::Verifying),
        ),
        DetailTask::Recovery(a) => m.push(
            CloudBackupDetailReconcileMessage::RecoveryChanged(RecoveryState::Recovering(*a)),
        ),
        DetailTask::Sync => m.push(CloudBackupDetailReconcileMessage::SyncChanged(SyncState::Syncing)),
        DetailTask::FetchCloudOnly => m.push(
            CloudBackupDetailReconcileMessage::CloudOnlyChanged(CloudOnlyState::Loading),
        ),
        DetailTask::RestoreCloudWallet(id) => m.push(
            CloudBackupDetailReconcileMessage::CloudOnlyOperationChanged(
                CloudOnlyOperation::Operating { record_id: id.clone() },
            ),
        ),
        DetailTask::DeleteCloudWallet(id) => m.push(
            CloudBackupDetailReconcileMessage::CloudOnlyOperationChanged(
                CloudOnlyOperation::Operating { record_id: id.clone() },
            ),
        ),
        DetailTask::RefreshDetail => {},
    }
    assert(m@ =~= spec_opening_messages(*task));
    m
}

/// The message updates the detail to one equal to `d`.
pub open spec fn updates_detail(m: CloudBackupDetailReconcileMessage, d: CloudBackupDetailView) -> bool {
    m matches CloudBackupDetailReconcileMessage::DetailUpdated(d2) && d2@ == d
}

/// The messages announce `detail` first, if there is one, then `last`.
pub open spec fn detail_then(
    m: Seq<CloudBackupDetailReconcileMessage>,
    detail: Option<CloudBackupDetail>,
    last: CloudBackupDetailReconcileMessage,
) -> bool {
    match detail {
        Some(d) => m.len() == 2 && updates_detail(m[0], d@) && m[1] == last,
        None => m == seq![last],
    }
}

fn push_detail(m: &mut Vec<CloudBackupDetailReconcileMessage>, detail: &Option<CloudBackupDetail>)
    ensures
        match *detail {
            Some(d) => final(m)@.len() == old(m)@.len() + 1 && final(m)@.subrange(
                0,
                old(m)@.len() as int,
            ) == old(m)@ && updates_detail(final(m)@[old(m)@.len() as int], d@),
            None => final(m)@ == old(m)@,
        },
{
    match copy_opt_detail(detail) {
        Some(d) => {
            m.push(CloudBackupDetailReconcileMessage::DetailUpdated(d));
            assert(m@.subrange(0, old(m)@.len() as int) =~= old(m)@);
        },
        None => {},
    }
}

/// The messages of a finished verification: the detail it found, if any,
/// then the verification state; nothing when the backup is not enabled.
pub fn verification_messages(result: DeepVerificationResult) -> (m: Vec<
    CloudBackupDetailReconcileMessage,
>)
    ensures
        match result {
            DeepVerificationResult::Verified(report) => detail_then(
                m@,
                report.detail,
                CloudBackupDetailReconcileMessage::VerificationChanged(
                    VerificationState::Verified(report),
                ),
            ),
            DeepVerificationResult::UserCancelled(detail) => detail_then(
                m@,
                detail,
                CloudBackupDetailReconcileMessage::VerificationChanged(VerificationState::Cancelled),
            ),
            DeepVerificationResult::NotEnabled => m@.len() == 0,
            DeepVerificationResult::Failed(failure) => detail_then(
                m@,
                failure.spec_detail(),
                CloudBackupDetailReconcileMessage::VerificationChanged(
                    VerificationState::Failed(failure),
                ),
            ),
        },
{
    let mut m: Vec<CloudBackupDetailReconcileMessage> = Vec::new();
    match result {
        DeepVerificationResult::Verified(report) => {
            push_detail(&mut m, &report.detail);
            m.push(
                CloudBackupDetailReconcileMessage::VerificationChanged(
                    VerificationState::Verified(report),
                ),
            );
        },
        DeepVerificationResult::UserCancelled(detail) => {
            push_detail(&mut m, &detail);
            m.push(CloudBackupDetailReconcileMessage::VerificationChanged(VerificationState::Cancelled));
        },
        DeepVerificationResult::NotEnabled => {},
        DeepVerificationResult::Failed(failure) => {
            let detail = match &failure {
                DeepVerificationFailure::Retry { detail, .. } => copy_opt_detail(detail),
                DeepVerificationFailure::RecreateManifest { detail, .. } => copy_opt_detail(detail),
                DeepVerificationFailure::ReinitializeBackup { detail, .. } => copy_opt_detail(detail),
                DeepVerificationFailure::UnsupportedVersion { detail, .. } => copy_opt_detail(detail),
            };
            match detail {
                Some(d) => m.push(CloudBackupDetailReconcileMessage::DetailUpdated(d)),
                None => {},
            }
            m.push(
                CloudBackupDetailReconcileMessage::VerificationChanged(
                    VerificationState::Failed(failure),
                ),
            );
        },
    }
    m
}

/// The messages of a finished task, the task it runs next (if any), and the
/// messages sent after that task.
pub struct DetailPlan {
    pub messages: Vec<CloudBackupDetailReconcileMessage>,
    pub next_task: Option<DetailTask>,
    pub after: Vec<CloudBackupDetailReconcileMessage>,
}

/// The outcome of a recovery: back to idle and a new verification, or the
/// failure with the error's text.
pub fn recovery_messages(action: RecoveryAction, result: Result<(), CloudBackupError>) -> (p:
    DetailPlan)
    ensures
        result is Ok ==> p.messages@ == seq![
            CloudBackupDetailReconcileMessage::RecoveryChanged(RecoveryState::Idle),
        ] && p.next_task == Some(DetailTask::StartVerification) && p.after@.len() == 0,
        result matches Err(e) ==> (p.messages@[0] matches CloudBackupDetailReconcileMessage::RecoveryChanged(
            RecoveryState::Failed { action: a, error },
        ) && a == action && error@ == e.spec_message() && p.messages@.len() == 1 && p.next_task is None && p.after@.len() == 0),
{
    let mut messages: Vec<CloudBackupDetailReconcileMessage> = Vec::new();
    match result {
        Ok(()) => {
            messages.push(CloudBackupDetailReconcileMessage::RecoveryChanged(RecoveryState::Idle));
            DetailPlan { messages, next_task: Some(DetailTask::StartVerification), after: Vec::new() }
        },
        Err(e) => {
            messages.push(
                CloudBackupDetailReconcileMessage::RecoveryChanged(
                    RecoveryState::Failed { action, error: e.message() },
                ),
            );
            DetailPlan { messages, next_task: None, after: Vec::new() }
        },
    }
}

/// The outcome of a sync: a refresh of the detail, then back to idle; or the
/// failure with the error's text.
pub fn sync_messages(result: Result<(), CloudBackupError>) -> (p: DetailPlan)
    ensures
        result is Ok ==> p.messages@.len() == 0 && p.next_task == Some(DetailTask::RefreshDetail)
            && p.after@ == seq![CloudBackupDetailReconcileMessage::SyncChanged(SyncState::Idle)],
        result matches Err(e) ==> (p.messages@[0] matches CloudBackupDetailReconcileMessage::SyncChanged(
            SyncState::Failed(error),
        ) && error@ == e.spec_message() && p.messages@.len() == 1 && p.next_task is None && p.after@.len() == 0),
{
    match result {
        Ok(()) => {
            let mut after: Vec<CloudBackupDetailReconcileMessage> = Vec::new();
            after.push(CloudBackupDetailReconcileMessage::SyncChanged(SyncState::Idle));
            DetailPlan { messages: Vec::new(), next_task: Some(DetailTask::RefreshDetail), after }
        },
        Err(e) => {
            let mut messages: Vec<CloudBackupDetailReconcileMessage> = Vec::new();
            messages.push(CloudBackupDetailReconcileMessage::SyncChanged(SyncState::Failed(e.message())));
            DetailPlan { messages, next_task: None, after: Vec::new() }
        },
    }
}

/// The outcome of fetching the cloud-only wallets: the wallets, or an empty
/// list when the fetch failed.
pub fn cloud_only_messages(result: Result<Vec<CloudBackupWalletItem>, CloudBackupError>) -> (m: Vec<
    CloudBackupDetailReconcileMessage,
>)
    ensures
        m@.len() == 1,
        result matches Ok(items) ==> (m@[0] matches CloudBackupDetailReconcileMessage::CloudOnlyChanged(
            CloudOnlyState::Loaded { wallets },
        ) && wallets@ == items@),
        result is Err ==> (m@[0] matches CloudBackupDetailReconcileMessage::CloudOnlyChanged(
            CloudOnlyState::Loaded { wallets },
        ) && wallets@.len() == 0),
{
    let wallets = match result {
        Ok(items) => items,
        Err(_) => Vec::new(),
    };
    let mut m: Vec<CloudBackupDetailReconcileMessage> = Vec::new();
    m.push(CloudBackupDetailReconcileMessage::CloudOnlyChanged(CloudOnlyState::Loaded { wallets }));
    m
}

/// The outcome of restoring or deleting a cloud-only wallet: back to idle,
/// the wallet leaves the cloud-only list, and the detail is refreshed; or the
/// failure with the error's text.
pub fn cloud_wallet_operation_messages(record_id: String, result: Result<(), CloudBackupError>) -> (p:
    DetailPlan)
    ensures
        result is Ok ==> p.messages@ == seq![
            CloudBackupDetailReconcileMessage::CloudOnlyOperationChanged(CloudOnlyOperation::Idle),
            CloudBackupDetailReconcileMessage::CloudOnlyWalletRemoved(record_id),
        ] && p.next_task == Some(DetailTask::RefreshDetail) && p.after@.len() == 0,
        result matches Err(e) ==> (p.messages@[0] matches CloudBackupDetailReconcileMessage::CloudOnlyOperationChanged(
            CloudOnlyOperation::Failed { error },
        ) && error@ == e.spec_message() && p.messages@.len() == 1 && p.next_task is None && p.after@.len() == 0),
{
    let mut messages: Vec<CloudBackupDetailReconcileMessage> = Vec::new();
    match result {
        Ok(()) => {
            messages.push(
                CloudBackupDetailReconcileMessage::CloudOnlyOperationChanged(CloudOnlyOperation::Idle),
            );
            messages.push(CloudBackupDetailReconcileMessage::CloudOnlyWalletRemoved(record_id));
            assert(messages@ =~= seq![
                CloudBackupDetailReconcileMessage::CloudOnlyOperationChanged(CloudOnlyOperation::Idle),
                CloudBackupDetailReconcileMessage::CloudOnlyWalletRemoved(record_id),
            ]);
            DetailPlan { messages, next_task: Some(DetailTask::RefreshDetail), after: Vec::new() }
        },
        Err(e) => {
            messages.push(
                CloudBackupDetailReconcileMessage::CloudOnlyOperationChanged(
                    CloudOnlyOperation::Failed { error: e.message() },
                ),
            );
            DetailPlan { messages, next_task: None, after: Vec::new() }
        },
    }
}

/// The outcome of a refresh: the new detail on success; nothing when the
/// backup is not enabled or could not be read.
pub fn refresh_messages(result: Option<CloudBackupDetailResult>) -> (m: Vec<
    CloudBackupDetailReconcileMessage,
>)
    ensures
        result matches Some(CloudBackupDetailResult::Success(d)) ==> m@ == seq![
            CloudBackupDetailReconcileMessage::DetailUpdated(d),
        ],
        !(result matches Some(CloudBackupDetailResult::Success(_))) ==> m@.len() == 0,
{
    let mut m: Vec<CloudBackupDetailReconcileMessage> = Vec::new();
    match result {
        Some(CloudBackupDetailResult::Success(detail)) => m.push(
            CloudBackupDetailReconcileMessage::DetailUpdated(detail),
        ),
        _ => {},
    }
    assert(result matches Some(CloudBackupDetailResult::Success(d)) ==> m@ =~= seq![
        CloudBackupDetailReconcileMessage::DetailUpdated(d),
    ]);
    m
}

} // verus!
