//! The state of the cloud backup manager and the decisions it makes without
//! doing any work: which flows may start, what the database should record,
//! and how a verification is reported.

use vstd::prelude::*;
use vstd::string::*;
use crate::credentials::{CREDENTIAL_ID_KEY, NAMESPACE_ID_KEY, PRF_SALT_KEY};
use crate::model::{
    CloudBackup, CloudBackupError, CloudBackupReconcileMessage, CloudBackupState,
    DeepVerificationFailure, DeepVerificationResult,
};

verus! {

/// The UI side that receives backup manager messages, implemented by the host.
pub trait CloudBackupManagerReconciler: Send + Sync {
    fn reconcile(&self, message: CloudBackupReconcileMessage);
}

/// A copy of a backup state.
pub fn copy_state(state: &CloudBackupState) -> (r: CloudBackupState)
    ensures
        r == *state,
{
    match state {
        CloudBackupState::Disabled => CloudBackupState::Disabled,
        CloudBackupState::Enabling => CloudBackupState::Enabling,
        CloudBackupState::Restoring => CloudBackupState::Restoring,
        CloudBackupState::Enabled => CloudBackupState::Enabled,
        CloudBackupState::Error(e) => CloudBackupState::Error(e.clone()),
    }
}

/// The state that the manager holds after sending `message`.
pub open spec fn state_after(state: CloudBackupState, message: CloudBackupReconcileMessage) -> CloudBackupState {
    match message {
        CloudBackupReconcileMessage::StateChanged(s) => s,
        _ => state,
    }
}

/// Records a message that the manager sends: a state change becomes the
/// manager's state; other messages leave it as it was.
pub fn record_message(state: &mut CloudBackupState, message: &CloudBackupReconcileMessage)
    ensures
        *final(state) == state_after(*old(state), *message),
{
    match message {
        CloudBackupReconcileMessage::StateChanged(s) => {
            *state = copy_state(s);
        },
        _ => {},
    }
}

/// What the manager reports as its state after a sequence of messages.
pub open spec fn state_after_all(state: CloudBackupState, messages: Seq<CloudBackupReconcileMessage>) -> CloudBackupState
    decreases messages.len(),
{
    if messages.len() == 0 {
        state
    } else {
        state_after_all(state_after(state, messages[0]), messages.drop_first())
    }
}

/// The manager's state is the last state it sent: after a state change and
/// any messages that change no state, the state read back is the one sent.
pub proof fn lemma_state_reads_back_last_sent(
    state: CloudBackupState,
    sent: CloudBackupState,
    later: Seq<CloudBackupReconcileMessage>,
)
    requires
        forall|i: int| 0 <= i < later.len() ==> !(#[trigger] later[i] is StateChanged),
    ensures
        state_after_all(state, seq![CloudBackupReconcileMessage::StateChanged(sent)] + later) == sent,
    decreases later.len(),
{
    let all = seq![CloudBackupReconcileMessage::StateChanged(sent)] + later;
    assert(all.drop_first() =~= later);
    lemma_unchanged_by_other_messages(sent, later);
}

proof fn lemma_unchanged_by_other_messages(state: CloudBackupState, later: Seq<CloudBackupReconcileMessage>)
    requires
        forall|i: int| 0 <= i < later.len() ==> !(#[trigger] later[i] is StateChanged),
    ensures
        state_after_all(state, later) == state,
    decreases later.len(),
{
    if later.len() > 0 {
        assert(!(later[0] is StateChanged));
        assert forall|i: int| 0 <= i < later.drop_first().len() implies !(
        #[trigger] later.drop_first()[i] is StateChanged) by {
            assert(later.drop_first()[i] == later[i + 1]);
        }
        lemma_unchanged_by_other_messages(state, later.drop_first());
    }
}

/// Enabling or restoring may start unless one of them is already running.
pub fn may_start_enable_or_restore(state: &CloudBackupState) -> (b: bool)
    ensures
        b == !(*state is Enabling || *state is Restoring),
{
    match state {
        CloudBackupState::Enabling | CloudBackupState::Restoring => false,
        _ => true,
    }
}

/// Work that needs an enabled backup (verification, detail refresh, new
/// wallet backup, integrity check) runs only in the `Enabled` state.
pub fn is_enabled_state(state: &CloudBackupState) -> (b: bool)
    ensures
        b == (*state is Enabled),
{
    match state {
        CloudBackupState::Enabled => true,
        _ => false,
    }
}

/// The state the UI should show for the persisted setting when the manager
/// still holds its initial `Disabled` state: `Some(Enabled)` when the setting
/// is on, else nothing changes.
pub fn sync_persisted_state(state: &CloudBackupState, persisted: CloudBackup) -> (r: Option<
    CloudBackupState,
>)
    ensures
        r == if *state is Disabled && persisted.spec_is_on() {
            Some(CloudBackupState::Enabled)
        } else {
            None::<CloudBackupState>
        },
{
    if matches!(state, CloudBackupState::Disabled) {
        let new_state = if persisted.is_on() {
            CloudBackupState::Enabled
        } else {
            CloudBackupState::Disabled
        };
        if !matches!(new_state, CloudBackupState::Disabled) {
            return Some(new_state);
        }
    }
    None
}

/// What the persisted setting says of the number of backed-up wallets.
#[derive(Debug, Clone, Copy, PartialEq, Eq, Structural)]
pub enum StoredWalletCount {
    /// The backup is off.
    Disabled,
    Known(u32),
    /// The setting predates the count: count the local wallets and store it.
    Missing { last_sync: Option<u64> },
}

/// Reads the number of backed-up wallets from the persisted setting.
pub fn stored_wallet_count(persisted: CloudBackup) -> (r: StoredWalletCount)
    ensures
        r == match persisted {
            CloudBackup::Disabled => StoredWalletCount::Disabled,
            CloudBackup::Enabled { last_sync, wallet_count: Some(c) } => StoredWalletCount::Known(c),
            CloudBackup::Unverified { last_sync, wallet_count: Some(c) } => StoredWalletCount::Known(
                c,
            ),
            CloudBackup::Enabled { last_sync, wallet_count: None } => StoredWalletCount::Missing {
                last_sync,
            },
            CloudBackup::Unverified { last_sync, wallet_count: None } => StoredWalletCount::Missing {
                last_sync,
            },
        },
{
    match persisted {
        CloudBackup::Enabled { wallet_count: Some(count), .. }
        | CloudBackup::Unverified { wallet_count: Some(count), .. } => StoredWalletCount::Known(count),
        CloudBackup::Enabled { wallet_count: None, last_sync }
        | CloudBackup::Unverified { wallet_count: None, last_sync } => StoredWalletCount::Missing {
            last_sync,
        },
        CloudBackup::Disabled => StoredWalletCount::Disabled,
    }
}

/// The setting that backfills a missing count: enabled, with the last sync
/// kept and the local count stored.
pub fn backfilled_setting(last_sync: Option<u64>, local_count: u32) -> (r: CloudBackup)
    ensures
        r == (CloudBackup::Enabled { last_sync, wallet_count: Some(local_count) }),
{
    CloudBackup::Enabled { last_sync, wallet_count: Some(local_count) }
}

/// The outcome of a deep verification that returned an error: a retryable
/// failure with the error's text and no detail.
pub fn verification_from_error(result: Result<DeepVerificationResult, CloudBackupError>) -> (r:
    DeepVerificationResult)
    ensures
        result matches Ok(v) ==> r == v,
        result matches Err(e) ==> (r matches DeepVerificationResult::Failed(
            DeepVerificationFailure::Retry { message, detail },
        ) && message@ == e.spec_message() && detail is None),
{
    match result {
        Ok(result) => result,
        Err(e) => DeepVerificationResult::Failed(
            DeepVerificationFailure::Retry { message: e.message(), detail: None },
        ),
    }
}

/// The setting that a verification result should leave persisted: verified
/// means enabled, cancelled or failed means unverified, with the last sync
/// and wallet count kept. Nothing is written when the backup is off, when
/// the backup was not enabled, or when the setting already says so.
pub open spec fn spec_verified_setting(current: CloudBackup, result: DeepVerificationResult) -> Option<CloudBackup> {
    match current {
        CloudBackup::Disabled => None,
        CloudBackup::Enabled { last_sync, wallet_count } | CloudBackup::Unverified {
            last_sync,
            wallet_count,
        } => {
            let new_state = match result {
                DeepVerificationResult::Verified(_) => Some(
                    CloudBackup::Enabled { last_sync, wallet_count },
                ),
                DeepVerificationResult::UserCancelled(_) | DeepVerificationResult::Failed(_) => Some(
                    CloudBackup::Unverified { last_sync, wallet_count },
                ),
                DeepVerificationResult::NotEnabled => None,
            };
            match new_state {
                Some(s) => if s != current {
                    Some(s)
                } else {
                    None
                },
                None => None,
            }
        },
    }
}

/// The setting to persist after a verification, if any; see
/// [`spec_verified_setting`].
pub fn persist_verification_result(current: CloudBackup, result: &DeepVerificationResult) -> (r:
    Option<CloudBackup>)
    ensures
        r == spec_verified_setting(current, *result),
{
    let (last_sync, wallet_count) = match current {
        CloudBackup::Enabled { last_sync, wallet_count }
        | CloudBackup::Unverified { last_sync, wallet_count } => (last_sync, wallet_count),
        CloudBackup::Disabled => return None,
    };
    let new_state = match result {
        DeepVerificationResult::Verified(_) => CloudBackup::Enabled { last_sync, wallet_count },
        DeepVerificationResult::UserCancelled(_) | DeepVerificationResult::Failed(_) => {
            CloudBackup::Unverified { last_sync, wallet_count }
        },
        DeepVerificationResult::NotEnabled => return None,
    };
    if current != new_state {
        Some(new_state)
    } else {
        None
    }
}

/// Persisting a verification result never turns the backup on or off, and
/// keeps the last sync and the wallet count; writing it twice changes
/// nothing the second time.
pub proof fn lemma_verification_persistence(current: CloudBackup, result: DeepVerificationResult)
    ensures
        spec_verified_setting(current, result) matches Some(s) ==> s.spec_is_on()
            && current.spec_is_on() && s.spec_last_sync() == current.spec_last_sync(),
        spec_verified_setting(current, result) matches Some(s) ==> spec_verified_setting(
            s,
            result,
        ) is None,
{
}

/// The state a backup is left in after a verification: the persisted
/// setting, or the current one when nothing is written.
pub open spec fn state_after_verification(current: CloudBackup, result: DeepVerificationResult) -> CloudBackup {
    match spec_verified_setting(current, result) {
        Some(s) => s,
        None => current,
    }
}

/// A successful deep verification leaves an on backup `Enabled`, and a failed
/// or cancelled one leaves it `Unverified`, each with its last sync and wallet
/// count unchanged; a setting is written only when it differs from the
/// current one, and a disabled backup, or a verification of a backup that is
/// not enabled, writes nothing.
pub proof fn lemma_verification_marks_the_backup(current: CloudBackup, result: DeepVerificationResult)
    ensures
        current matches CloudBackup::Enabled { last_sync, wallet_count } ==> (result is Verified
            ==> state_after_verification(current, result) == CloudBackup::Enabled {
            last_sync,
            wallet_count,
        }),
        current matches CloudBackup::Unverified { last_sync, wallet_count } ==> (result is Verified
            ==> state_after_verification(current, result) == CloudBackup::Enabled {
            last_sync,
            wallet_count,
        }),
        current matches CloudBackup::Enabled { last_sync, wallet_count } ==> (result is Failed
            || result is UserCancelled ==> state_after_verification(current, result)
            == CloudBackup::Unverified { last_sync, wallet_count }),
        current matches CloudBackup::Unverified { last_sync, wallet_count } ==> (result is Failed
            || result is UserCancelled ==> state_after_verification(current, result)
            == CloudBackup::Unverified { last_sync, wallet_count }),
        spec_verified_setting(current, result) matches Some(s) ==> s != current,
        current is Disabled || result is NotEnabled ==> spec_verified_setting(current, result) is None,
{
}

/// The error when no namespace is stored in the keychain.
pub open spec fn is_missing_namespace_error(e: CloudBackupError) -> bool {
    e matches CloudBackupError::Internal(m) && m@ == "namespace_id not found in keychain"@
}

/// The error when no namespace is stored in the keychain.
pub fn missing_namespace_error() -> (e: CloudBackupError)
    ensures
        e matches CloudBackupError::Internal(m) && m@ == "namespace_id not found in keychain"@,
{
    CloudBackupError::Internal(String::from_str("namespace_id not found in keychain"))
}

/// The namespace of the backup, from the value of the keychain entry
/// `NAMESPACE_ID_KEY`.
pub fn current_namespace_id(stored: Option<String>) -> (r: Result<String, CloudBackupError>)
    ensures
        stored matches Some(ns) ==> r == Ok::<String, CloudBackupError>(ns),
        stored is None ==> (r matches Err(e) && is_missing_namespace_error(e)),
{
    match stored {
        Some(ns) => Ok(ns),
        None => Err(missing_namespace_error()),
    }
}

/// What resetting the local backup state does (a debugging aid that leaves
/// the cloud untouched).
#[derive(Debug)]
pub struct ResetPlan {
    /// The keychain entries to delete.
    pub deleted_keys: Vec<String>,
    /// The setting to persist.
    pub setting: CloudBackup,
    /// The message to send to the UI.
    pub message: CloudBackupReconcileMessage,
}

/// Resets the local backup state: the namespace, credential and salt
/// entries are deleted, the setting is disabled and the UI learns it.
pub fn debug_reset_cloud_backup_state() -> (p: ResetPlan)
    ensures
        p.deleted_keys@.map_values(|k: String| k@) == seq![
            NAMESPACE_ID_KEY@,
            CREDENTIAL_ID_KEY@,
            PRF_SALT_KEY@,
        ],
        p.setting == CloudBackup::Disabled,
        p.message == CloudBackupReconcileMessage::StateChanged(CloudBackupState::Disabled),
{
    let mut deleted_keys: Vec<String> = Vec::new();
    deleted_keys.push(String::from_str(NAMESPACE_ID_KEY));
    deleted_keys.push(String::from_str(CREDENTIAL_ID_KEY));
    deleted_keys.push(String::from_str(PRF_SALT_KEY));
    assert(deleted_keys@.map_values(|k: String| k@) =~= seq![
        NAMESPACE_ID_KEY@,
        CREDENTIAL_ID_KEY@,
        PRF_SALT_KEY@,
    ]);
    ResetPlan {
        deleted_keys,
        setting: CloudBackup::Disabled,
        message: CloudBackupReconcileMessage::StateChanged(CloudBackupState::Disabled),
    }
}

} // verus!
