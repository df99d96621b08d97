//! Upkeep of an enabled backup: backing up a new wallet, the startup
//! integrity check, refreshing the detail screen and running a deep
//! verification.

use vstd::prelude::*;
use vstd::string::*;
use crate::cloud_storage::CloudStorageError;
use crate::credentials::{CREDENTIAL_ID_KEY, NAMESPACE_ID_KEY, PRF_SALT_KEY};
use crate::deep_verify::{do_deep_verify_cloud_backup, DeepVerifyStep};
use crate::inventory::{built_detail, build_detail_from_wallet_ids, count_all_wallets, LocalWallet};
use crate::manager::{is_missing_namespace_error, persist_verification_result, spec_verified_setting, verification_from_error};
use crate::model::{
    CloudBackup, CloudBackupDetailResult, CloudBackupError, CloudBackupReconcileMessage,
    CloudBackupState, DeepVerificationFailure, DeepVerificationResult,
};
use crate::text::{starts_with_bytes, starts_with_text};
use crate::uploads::{backup_wallets, reupload_all_wallets, sync_unsynced_wallets, BackupStep, ReuploadStep, SyncStep};

verus! {

broadcast use vstd::seq::group_seq_axioms;

// ---------------------------------------------------------------------------
// Backing up a new wallet
// ---------------------------------------------------------------------------

pub enum NewWalletBackupStep {
    Backup(AwaitNewWalletBackup, BackupStep),
    /// The backup failed: sync every unsynced wallet instead.
    Sync(AwaitRetrySync, SyncStep),
    /// Send the message to the UI; nothing follows.
    Report(CloudBackupReconcileMessage),
    Done,
}

pub struct AwaitNewWalletBackup {}

pub struct AwaitRetrySync {}

/// Backs up a newly created wallet when the backup is enabled (not, for
/// instance, during a restore); a failure falls back to a full sync.
pub fn backup_new_wallet(state: &CloudBackupState, wallet: LocalWallet) -> (s: NewWalletBackupStep)
    ensures
        !(*state is Enabled) ==> s is Done,
        *state is Enabled ==> (s matches NewWalletBackupStep::Backup(_, BackupStep::LoadNamespace(w))
            && w.spec_wallets() == seq![wallet]),
{
    match state {
        CloudBackupState::Enabled => {
            let ghost w = wallet;
            let wallets = vec![wallet];
            assert(wallets@ =~= seq![w]);
            NewWalletBackupStep::Backup(AwaitNewWalletBackup {}, backup_wallets(wallets))
        },
        _ => NewWalletBackupStep::Done,
    }
}

impl AwaitNewWalletBackup {
    pub fn on_backed_up(self, result: Result<(), CloudBackupError>) -> (s: NewWalletBackupStep)
        ensures
            result is Ok ==> s is Done,
            result is Err ==> (s matches NewWalletBackupStep::Sync(_, sync) && sync is LoadNamespace),
    {
        match result {
            Ok(()) => NewWalletBackupStep::Done,
            Err(_) => NewWalletBackupStep::Sync(AwaitRetrySync {}, sync_unsynced_wallets()),
        }
    }
}

impl AwaitRetrySync {
    /// A failed retry is reported to the UI with its text.
    pub fn on_synced(self, result: Result<(), CloudBackupError>) -> (s: NewWalletBackupStep)
        ensures
            result is Ok ==> s is Done,
            result matches Err(e) ==> (s matches NewWalletBackupStep::Report(
                CloudBackupReconcileMessage::SyncFailed(m),
            ) && m@ == e.spec_message()),
    {
        match result {
            Ok(()) => NewWalletBackupStep::Done,
            Err(e) => NewWalletBackupStep::Report(CloudBackupReconcileMessage::SyncFailed(e.message())),
        }
    }
}

// ---------------------------------------------------------------------------
// The startup integrity check
// ---------------------------------------------------------------------------

/// Parts joined with a separator between each two.
pub open spec fn joined(parts: Seq<Seq<char>>, sep: Seq<char>) -> Seq<char>
    decreases parts.len(),
{
    if parts.len() == 0 {
        Seq::empty()
    } else if parts.len() == 1 {
        parts[0]
    } else {
        joined(parts.drop_last(), sep) + sep + parts.last()
    }
}

/// The texts joined with `sep` (as `[String]::join`).
pub fn join_texts(parts: &Vec<String>, sep: &str) -> (r: String)
    ensures
        r@ == joined(parts@.map_values(|p: String| p@), sep@),
{
    let ghost views = parts@.map_values(|p: String| p@);
    let mut r = String::new();
    let mut i: usize = 0;
    while i < parts.len()
        invariant
            0 <= i <= parts.len(),
            views == parts@.map_values(|p: String| p@),
            r@ == joined(views.subrange(0, i as int), sep@),
        decreases parts.len() - i,
    {
        let ghost sub = views.subrange(0, i + 1);
        assert(sub.drop_last() =~= views.subrange(0, i as int));
        if i == 0 {
            r = parts[0].clone();
            assert(sub.len() == 1);
        } else {
            r = r.concat(sep).concat(parts[i].as_str());
        }
        i = i + 1;
    }
    assert(views.subrange(0, parts.len() as int) =~= views);
    r
}

/// What the keychain holds of the backup.
#[derive(Debug)]
pub struct KeychainSnapshot {
    pub has_master_key: bool,
    pub has_credential: bool,
    pub has_prf_salt: bool,
    pub namespace: Option<String>,
}

/// The keychain entries that are missing, as texts for the user, in order.
pub open spec fn keychain_issues(k: KeychainSnapshot) -> Seq<Seq<char>> {
    let a = if k.has_master_key {
        Seq::empty()
    } else {
        seq!["master key not found in keychain"@]
    };
    let b = if k.has_credential {
        a
    } else {
        a.push("passkey credential not found — open Cloud Backup in Settings to re-verify"@)
    };
    if k.has_prf_salt {
        b
    } else {
        b.push("passkey salt not found — open Cloud Backup in Settings to re-verify"@)
    }
}

pub enum IntegrityStep {
    /// Read the keychain.
    ReadKeychain(AwaitIntegrityKeychain),
    ListWallets(AwaitIntegrityListing, String),
    LoadLocalWallets(AwaitIntegrityLocals),
    /// More wallets on the device than in the cloud: sync them.
    Sync(AwaitIntegritySync, SyncStep),
    /// A warning for the user, or nothing when all is well.
    Finished(Option<String>),
}

pub struct AwaitIntegrityKeychain {}

pub struct AwaitIntegrityListing {}

pub struct AwaitIntegrityLocals {
    cloud_count: u32,
}

pub struct AwaitIntegritySync {}

impl AwaitIntegrityLocals {
    pub closed spec fn spec_cloud_count(&self) -> u32 {
        self.cloud_count
    }
}

/// Checks at startup that an enabled backup is intact: its keychain
/// entries exist, its wallet backups can be listed in the cloud, and the
/// cloud has every local wallet.
pub fn verify_backup_integrity(state: &CloudBackupState) -> (s: IntegrityStep)
    ensures
        !(*state is Enabled) ==> s == IntegrityStep::Finished(None),
        *state is Enabled ==> s is ReadKeychain,
{
    match state {
        CloudBackupState::Enabled => IntegrityStep::ReadKeychain(AwaitIntegrityKeychain {}),
        _ => IntegrityStep::Finished(None),
    }
}

fn keychain_issue_texts(k: &KeychainSnapshot) -> (r: Vec<String>)
    ensures
        r@.map_values(|p: String| p@) == keychain_issues(*k),
{
    let mut r: Vec<String> = Vec::new();
    if !k.has_master_key {
        r.push(String::from_str("master key not found in keychain"));
    }
    if !k.has_credential {
        r.push(
            String::from_str("passkey credential not found — open Cloud Backup in Settings to re-verify"),
        );
    }
    if !k.has_prf_salt {
        r.push(String::from_str("passkey salt not found — open Cloud Backup in Settings to re-verify"));
    }
    assert(r@.map_values(|p: String| p@) =~= keychain_issues(*k));
    r
}

impl AwaitIntegrityKeychain {
    /// The keychain entries that the snapshot reports on: the credential,
    /// the PRF salt and the namespace (besides the master key).
    pub fn entries(&self) -> (e: (&'static str, &'static str, &'static str))
        ensures
            e.0@ == CREDENTIAL_ID_KEY@,
            e.1@ == PRF_SALT_KEY@,
            e.2@ == NAMESPACE_ID_KEY@,
    {
        (CREDENTIAL_ID_KEY, PRF_SALT_KEY, NAMESPACE_ID_KEY)
    }

    /// Missing entries are reported at once (a missing namespace last, and
    /// without asking the cloud); when all entries exist the cloud listing
    /// is compared with the local wallets.
    pub fn on_keychain(self, k: KeychainSnapshot) -> (s: IntegrityStep)
        ensures
            k.namespace is None ==> (s matches IntegrityStep::Finished(Some(m)) && m@ == joined(
                keychain_issues(k).push("namespace_id not found in keychain"@),
                "; "@,
            )),
            k.namespace is Some && keychain_issues(k).len() > 0 ==> (s matches IntegrityStep::Finished(
                Some(m),
            ) && m@ == joined(keychain_issues(k), "; "@)),
            k.namespace matches Some(ns) ==> (keychain_issues(k).len() == 0 ==> (
            s matches IntegrityStep::ListWallets(_, listed) && listed@ == ns@)),
    {
        let mut issues = keychain_issue_texts(&k);
        match k.namespace {
            None => {
                let ghost before = issues@;
                issues.push(String::from_str("namespace_id not found in keychain"));
                assert(issues@.map_values(|p: String| p@) =~= before.map_values(|p: String| p@).push(
                    "namespace_id not found in keychain"@,
                ));
                IntegrityStep::Finished(Some(join_texts(&issues, "; ")))
            },
            Some(ns) => {
                if issues.len() > 0 {
                    IntegrityStep::Finished(Some(join_texts(&issues, "; ")))
                } else {
                    IntegrityStep::ListWallets(AwaitIntegrityListing {}, ns)
                }
            },
        }
    }
}

impl AwaitIntegrityListing {
    /// A listing that fails means the backup files cannot be confirmed in
    /// the cloud: that is an issue, with the listing's error. A listing is
    /// compared with the local wallets.
    pub fn on_listed(self, listing: Result<Vec<String>, CloudStorageError>) -> (s: IntegrityStep)
        ensures
            listing matches Err(c) ==> (s matches IntegrityStep::Finished(Some(m)) && m@
                == "could not list wallet backups: "@ + c.spec_message()),
            listing matches Ok(ids) ==> (s matches IntegrityStep::LoadLocalWallets(w)
                && w.spec_cloud_count() == #[verifier::truncate] (ids@.len() as u32)),
    {
        match listing {
            Err(c) => IntegrityStep::Finished(
                Some(String::from_str("could not list wallet backups: ").concat(c.message().as_str())),
            ),
            Ok(ids) => IntegrityStep::LoadLocalWallets(
                AwaitIntegrityLocals { cloud_count: #[verifier::truncate] (ids.len() as u32) },
            ),
        }
    }
}

impl AwaitIntegrityLocals {
    /// More local wallets than cloud ones start a sync; otherwise all is well.
    pub fn on_local_wallets(self, local: &Vec<LocalWallet>) -> (s: IntegrityStep)
        ensures
            #[verifier::truncate] (local@.len() as u32) > self.spec_cloud_count() ==> (
            s matches IntegrityStep::Sync(_, sync) && sync is LoadNamespace),
            #[verifier::truncate] (local@.len() as u32) <= self.spec_cloud_count() ==> s
                == IntegrityStep::Finished(None),
    {
        let local_count = count_all_wallets(local);
        if local_count > self.cloud_count {
            IntegrityStep::Sync(AwaitIntegritySync {}, sync_unsynced_wallets())
        } else {
            IntegrityStep::Finished(None)
        }
    }
}

impl AwaitIntegritySync {
    pub fn on_synced(self, result: Result<(), CloudBackupError>) -> (s: IntegrityStep)
        ensures
            result is Ok ==> s == IntegrityStep::Finished(None),
            result is Err ==> (s matches IntegrityStep::Finished(Some(m)) && m@
                == "some wallets are not backed up"@),
    {
        match result {
            Ok(()) => IntegrityStep::Finished(None),
            Err(_) => IntegrityStep::Finished(Some(String::from_str("some wallets are not backed up"))),
        }
    }
}

// ---------------------------------------------------------------------------
// Refreshing the detail screen
// ---------------------------------------------------------------------------

pub enum RefreshStep {
    LoadNamespace(AwaitRefreshNamespace),
    ListWallets(AwaitRefreshListing, String),
    /// The namespace has no wallet backups: re-upload every wallet.
    Reupload(AwaitRefreshReupload, ReuploadStep),
    /// Read the namespace again after the re-upload.
    ReloadNamespace(AwaitRefreshRenamespace),
    ListAgain(AwaitRefreshRelisting, String),
    /// Read the persisted setting and the local wallets for the detail.
    LoadDetailInputs(AwaitRefreshDetail),
    /// The result, or nothing when the backup is not enabled.
    Finished(Option<CloudBackupDetailResult>),
}

pub struct AwaitRefreshNamespace {}

pub struct AwaitRefreshListing {}

pub struct AwaitRefreshReupload {}

pub struct AwaitRefreshRenamespace {}

pub struct AwaitRefreshRelisting {}

pub struct AwaitRefreshDetail {
    record_ids: Vec<String>,
}

impl AwaitRefreshDetail {
    pub closed spec fn spec_record_ids(&self) -> Seq<String> {
        self.record_ids@
    }
}

/// The step ends with an access error of the given text.
pub open spec fn refresh_fails_with(s: RefreshStep, text: Seq<char>) -> bool {
    s matches RefreshStep::Finished(Some(CloudBackupDetailResult::AccessError(m))) && m@ == text
}

/// Lists the wallet backups of the current namespace and builds the detail
/// of the backup; nothing when the backup is not enabled.
pub fn refresh_cloud_backup_detail(state: &CloudBackupState) -> (s: RefreshStep)
    ensures
        !(*state is Enabled) ==> s == RefreshStep::Finished(None),
        *state is Enabled ==> s is LoadNamespace,
{
    match state {
        CloudBackupState::Enabled => RefreshStep::LoadNamespace(AwaitRefreshNamespace {}),
        _ => RefreshStep::Finished(None),
    }
}

impl AwaitRefreshNamespace {
    /// The keychain entry whose value `on_namespace` takes: the namespace.
    pub fn entry(&self) -> (k: &'static str)
        ensures
            k@ == NAMESPACE_ID_KEY@,
    {
        NAMESPACE_ID_KEY
    }

    pub fn on_namespace(self, stored: Option<String>) -> (s: RefreshStep)
        ensures
            stored is None ==> refresh_fails_with(
                s,
                "internal error: "@ + "namespace_id not found in keychain"@,
            ),
            stored matches Some(ns) ==> (s matches RefreshStep::ListWallets(_, listed) && listed == ns),
    {
        match stored {
            None => {
                let e = crate::manager::missing_namespace_error();
                RefreshStep::Finished(Some(CloudBackupDetailResult::AccessError(e.message())))
            },
            Some(ns) => RefreshStep::ListWallets(AwaitRefreshListing {}, ns),
        }
    }
}

impl AwaitRefreshListing {
    /// A namespace without backups re-uploads every wallet; any other
    /// failure is an access error with its text.
    pub fn on_listed(self, listing: Result<Vec<String>, CloudStorageError>) -> (s: RefreshStep)
        ensures
            listing matches Ok(ids) ==> (s matches RefreshStep::LoadDetailInputs(w)
                && w.spec_record_ids() == ids@),
            listing matches Err(c) ==> (c is NotFound ==> (s matches RefreshStep::Reupload(_, r)
                && r is LoadNamespace)),
            listing matches Err(c) ==> (!(c is NotFound) ==> refresh_fails_with(s, c.spec_message())),
    {
        match listing {
            Ok(record_ids) => RefreshStep::LoadDetailInputs(AwaitRefreshDetail { record_ids }),
            Err(c) => {
                if c.is_not_found() {
                    RefreshStep::Reupload(AwaitRefreshReupload {}, reupload_all_wallets())
                } else {
                    RefreshStep::Finished(Some(CloudBackupDetailResult::AccessError(c.message())))
                }
            },
        }
    }
}

impl AwaitRefreshReupload {
    pub fn on_reuploaded(self, result: Result<(), CloudBackupError>) -> (s: RefreshStep)
        ensures
            result matches Err(e) ==> refresh_fails_with(
                s,
                "Failed to re-upload wallets: "@ + e.spec_message(),
            ),
            result is Ok ==> s is ReloadNamespace,
    {
        match result {
            Err(e) => RefreshStep::Finished(
                Some(
                    CloudBackupDetailResult::AccessError(
                        String::from_str("Failed to re-upload wallets: ").concat(e.message().as_str()),
                    ),
                ),
            ),
            Ok(()) => RefreshStep::ReloadNamespace(AwaitRefreshRenamespace {}),
        }
    }
}

impl AwaitRefreshRenamespace {
    /// The keychain entry whose value `on_namespace` takes: the namespace.
    pub fn entry(&self) -> (k: &'static str)
        ensures
            k@ == NAMESPACE_ID_KEY@,
    {
        NAMESPACE_ID_KEY
    }

    /// The listing is retried in the namespace, or in the empty one if the
    /// keychain no longer has it.
    pub fn on_namespace(self, stored: Option<String>) -> (s: RefreshStep)
        ensures
            stored matches Some(ns) ==> (s matches RefreshStep::ListAgain(_, listed) && listed == ns),
            stored is None ==> (s matches RefreshStep::ListAgain(_, listed) && listed@.len() == 0),
    {
        let ns = match stored {
            Some(ns) => ns,
            None => String::new(),
        };
        RefreshStep::ListAgain(AwaitRefreshRelisting {}, ns)
    }
}

impl AwaitRefreshRelisting {
    pub fn on_listed(self, listing: Result<Vec<String>, CloudStorageError>) -> (s: RefreshStep)
        ensures
            listing matches Ok(ids) ==> (s matches RefreshStep::LoadDetailInputs(w)
                && w.spec_record_ids() == ids@),
            listing matches Err(c) ==> refresh_fails_with(s, c.spec_message()),
    {
        match listing {
            Ok(record_ids) => RefreshStep::LoadDetailInputs(AwaitRefreshDetail { record_ids }),
            Err(c) => RefreshStep::Finished(Some(CloudBackupDetailResult::AccessError(c.message()))),
        }
    }
}

impl AwaitRefreshDetail {
    /// The detail compares the listing with the local wallets, with the last
    /// sync of the persisted setting.
    pub fn on_detail_inputs(self, persisted: CloudBackup, local: &Vec<LocalWallet>) -> (s: RefreshStep)
        ensures
            s matches RefreshStep::Finished(Some(CloudBackupDetailResult::Success(d))) && d@
                == built_detail(persisted.spec_last_sync(), local@, self.spec_record_ids()),
    {
        let detail = build_detail_from_wallet_ids(persisted.last_sync(), local, &self.record_ids);
        RefreshStep::Finished(Some(CloudBackupDetailResult::Success(detail)))
    }
}

// ---------------------------------------------------------------------------
// Running a deep verification
// ---------------------------------------------------------------------------

pub enum VerificationRunStep {
    LoadNamespace(AwaitVerificationNamespace),
    Verify(AwaitVerification, DeepVerifyStep),
    /// Read the persisted setting.
    LoadSetting(AwaitVerificationSetting),
    /// The result; the setting to persist first, if any (a failure to
    /// persist it is only logged).
    Finished(DeepVerificationResult, Option<CloudBackup>),
}

pub struct AwaitVerificationNamespace {}

pub struct AwaitVerification {}

pub struct AwaitVerificationSetting {
    result: DeepVerificationResult,
}

impl AwaitVerificationSetting {
    pub closed spec fn spec_result(&self) -> DeepVerificationResult {
        self.result
    }
}

/// Runs a deep verification of an enabled backup; any error becomes a
/// retryable failure, and the result is persisted.
pub fn deep_verify_cloud_backup(state: &CloudBackupState) -> (s: VerificationRunStep)
    ensures
        !(*state is Enabled) ==> s == VerificationRunStep::Finished(
            DeepVerificationResult::NotEnabled,
            None,
        ),
        *state is Enabled ==> s is LoadNamespace,
{
    match state {
        CloudBackupState::Enabled => VerificationRunStep::LoadNamespace(AwaitVerificationNamespace {}),
        _ => VerificationRunStep::Finished(DeepVerificationResult::NotEnabled, None),
    }
}

impl AwaitVerificationNamespace {
    /// The keychain entry whose value `on_namespace` takes: the namespace.
    pub fn entry(&self) -> (k: &'static str)
        ensures
            k@ == NAMESPACE_ID_KEY@,
    {
        NAMESPACE_ID_KEY
    }

    pub fn on_namespace(self, stored: Option<String>) -> (s: VerificationRunStep)
        ensures
            stored matches Some(ns) ==> (s matches VerificationRunStep::Verify(
                _,
                DeepVerifyStep::LoadLocalMasterKey(w),
            ) && w.spec_namespace() == ns@),
            stored is None ==> (s matches VerificationRunStep::Verify(_, DeepVerifyStep::Finished(Err(e)))
                && is_missing_namespace_error(e)),
    {
        VerificationRunStep::Verify(AwaitVerification {}, do_deep_verify_cloud_backup(stored))
    }
}

/// The result is the retryable failure that reports `e`.
pub open spec fn is_retry_of(r: DeepVerificationResult, e: CloudBackupError) -> bool {
    r matches DeepVerificationResult::Failed(DeepVerificationFailure::Retry { message, detail })
        && message@ == e.spec_message() && detail is None
}

impl AwaitVerification {
    pub fn on_verified(self, result: Result<DeepVerificationResult, CloudBackupError>) -> (s:
        VerificationRunStep)
        ensures
            s matches VerificationRunStep::LoadSetting(w) && match result {
                Ok(v) => w.spec_result() == v,
                Err(e) => is_retry_of(w.spec_result(), e),
            },
    {
        VerificationRunStep::LoadSetting(
            AwaitVerificationSetting { result: verification_from_error(result) },
        )
    }
}

impl AwaitVerificationSetting {
    pub fn on_setting(self, current: CloudBackup) -> (s: VerificationRunStep)
        ensures
            s == VerificationRunStep::Finished(
                self.spec_result(),
                spec_verified_setting(current, self.spec_result()),
            ),
    {
        let persist = persist_verification_result(current, &self.result);
        VerificationRunStep::Finished(self.result, persist)
    }
}

// ---------------------------------------------------------------------------
// Wiping the local data
// ---------------------------------------------------------------------------

/// The database files of the data directory that a wipe removes: the
/// current encrypted one and a leftover plaintext one.
pub fn local_database_files() -> (r: Vec<String>)
    ensures
        r@.map_values(|f: String| f@) == seq!["cove.encrypted.db"@, "cove.db"@],
{
    let mut r: Vec<String> = Vec::new();
    r.push(String::from_str("cove.encrypted.db"));
    r.push(String::from_str("cove.db"));
    assert(r@.map_values(|f: String| f@) =~= seq!["cove.encrypted.db"@, "cove.db"@]);
    r
}

/// Whether a file of the data directory is a wallet store that a wipe
/// removes: its name begins with `bdk_wallet`.
pub fn is_wallet_store_file(name: &str) -> (b: bool)
    ensures
        b == starts_with_bytes(name.spec_bytes(), "bdk_wallet".spec_bytes()),
{
    starts_with_text(name, "bdk_wallet")
}

} // verus!
