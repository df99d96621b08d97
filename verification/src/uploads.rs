//! Uploading wallets to the cloud backup, and the flows built on it: backing
//! up some wallets, re-uploading all of them, syncing the ones the cloud
//! lacks, and deleting a cloud wallet.

use vstd::prelude::*;
use vstd::string::*;
use crate::cloud_storage::CloudStorageError;
use crate::credentials::{internal_with_prefix, prefixed, NAMESPACE_ID_KEY};
use crate::entropy::sync_time_now;
use crate::inventory::{texts, unsynced, unsynced_wallets, LocalWallet};
use crate::manager::{current_namespace_id, is_missing_namespace_error};
use crate::model::{copy_bytes, CloudBackup, CloudBackupError};

verus! {

/// What preparing a wallet for upload gave: its entry was built, encrypted
/// with the master key and serialized, or one of these failed.
#[derive(Debug)]
pub enum PreparedWallet {
    /// Building the entry failed, with its error.
    EntryFailed(CloudBackupError),
    EncryptFailed(String),
    SerializeFailed(String),
    /// The serialized encrypted entry.
    Ready(Vec<u8>),
}

/// A wallet to prepare for upload under a master key, for the platform.
#[derive(Debug)]
pub struct PrepareWallet {
    pub wallet: LocalWallet,
    pub master_key: Vec<u8>,
}

/// A wallet backup to upload, for the platform to perform.
#[derive(Debug)]
pub struct UploadWallet {
    pub namespace: String,
    pub record_id: String,
    pub data: Vec<u8>,
}

/// The error of a failed preparation.
pub open spec fn prepare_error(p: PreparedWallet) -> Option<CloudBackupError> {
    match p {
        PreparedWallet::EntryFailed(e) => Some(e),
        PreparedWallet::EncryptFailed(m) => Some(CloudBackupError::Crypto(m)),
        PreparedWallet::SerializeFailed(m) => Some(CloudBackupError::Internal(m)),
        PreparedWallet::Ready(_) => None,
    }
}

/// The error is a cloud error with the storage error's text.
pub open spec fn is_cloud_error(e: CloudBackupError, cause: CloudStorageError) -> bool {
    e matches CloudBackupError::Cloud(m) && m@ == cause.spec_message()
}

pub fn cloud_error(cause: &CloudStorageError) -> (e: CloudBackupError)
    ensures
        is_cloud_error(e, *cause),
{
    CloudBackupError::Cloud(cause.message())
}

// ---------------------------------------------------------------------------
// Uploading a list of wallets
// ---------------------------------------------------------------------------

pub enum UploadStep {
    Prepare(AwaitPrepared, PrepareWallet),
    Upload(AwaitWalletUpload, UploadWallet),
    /// The number of wallets uploaded, or the first error.
    Finished(Result<u32, CloudBackupError>),
}

/// The wallets to upload, the namespace and key, and how many are done.
pub struct WalletUploads {
    namespace: String,
    wallets: Vec<LocalWallet>,
    master_key: Vec<u8>,
    next: usize,
}

impl WalletUploads {
    #[verifier::type_invariant]
    closed spec fn wf(&self) -> bool {
        self.next < self.wallets.len() <= u32::MAX
    }

    pub closed spec fn spec_namespace(&self) -> Seq<char> {
        self.namespace@
    }

    pub closed spec fn spec_wallets(&self) -> Seq<LocalWallet> {
        self.wallets@
    }

    pub closed spec fn spec_master_key(&self) -> Seq<u8> {
        self.master_key@
    }

    /// The index of the wallet being uploaded.
    pub closed spec fn spec_next(&self) -> int {
        self.next as int
    }
}

pub struct AwaitPrepared {
    uploads: WalletUploads,
}

pub struct AwaitWalletUpload {
    uploads: WalletUploads,
}

impl AwaitPrepared {
    pub closed spec fn spec_uploads(&self) -> WalletUploads {
        self.uploads
    }
}

impl AwaitWalletUpload {
    pub closed spec fn spec_uploads(&self) -> WalletUploads {
        self.uploads
    }
}

/// The step prepares wallet `i` of the uploads `u` (same wallets, namespace
/// and key).
pub open spec fn prepares(s: UploadStep, u: WalletUploads, i: int) -> bool {
    s matches UploadStep::Prepare(w, req) && w.spec_uploads().spec_wallets() == u.spec_wallets()
        && w.spec_uploads().spec_namespace() == u.spec_namespace()
        && w.spec_uploads().spec_master_key() == u.spec_master_key() && w.spec_uploads().spec_next()
        == i && req.wallet == u.spec_wallets()[i] && req.master_key@ == u.spec_master_key()
}

fn prepare_step(uploads: WalletUploads) -> (s: UploadStep)
    ensures
        prepares(s, uploads, uploads.spec_next()),
{
    proof {
        use_type_invariant(&uploads);
    }
    let req = PrepareWallet {
        wallet: uploads.wallets[uploads.next].duplicate(),
        master_key: copy_bytes(&uploads.master_key),
    };
    UploadStep::Prepare(AwaitPrepared { uploads }, req)
}

/// Uploads `wallets` to `namespace`, each encrypted under `master_key`, in
/// order; the first failure stops the uploads.
pub fn upload_wallets(namespace: &String, wallets: Vec<LocalWallet>, master_key: &Vec<u8>) -> (s:
    UploadStep)
    requires
        wallets.len() <= u32::MAX,
    ensures
        wallets.len() == 0 ==> s == UploadStep::Finished(Ok::<u32, CloudBackupError>(0)),
        wallets.len() > 0 ==> (s matches UploadStep::Prepare(w, req) && w.spec_uploads().spec_wallets()
            == wallets@ && w.spec_uploads().spec_namespace() == namespace@
            && w.spec_uploads().spec_master_key() == master_key@ && w.spec_uploads().spec_next() == 0
            && req.wallet == wallets@[0] && req.master_key@ == master_key@),
{
    if wallets.len() == 0 {
        return UploadStep::Finished(Ok(0));
    }
    let uploads = WalletUploads {
        namespace: namespace.clone(),
        wallets,
        master_key: copy_bytes(master_key),
        next: 0,
    };
    prepare_step(uploads)
}

impl AwaitPrepared {
    /// A prepared wallet is uploaded under its record ID; a failed
    /// preparation stops the uploads: an entry error as it is, an encryption
    /// error as a crypto error, a serialization error as an internal error.
    pub fn on_prepared(self, prepared: PreparedWallet) -> (s: UploadStep)
        ensures
            prepared matches PreparedWallet::Ready(data) ==> (s matches UploadStep::Upload(w, req)
                && w.spec_uploads() == self.spec_uploads() && req.namespace@
                == self.spec_uploads().spec_namespace() && req.record_id
                == self.spec_uploads().spec_wallets()[self.spec_uploads().spec_next()].record_id
                && req.data@ == data@),
            prepare_error(prepared) matches Some(e) ==> s == UploadStep::Finished(
                Err::<u32, CloudBackupError>(e),
            ),
    {
        proof {
            use_type_invariant(&self.uploads);
        }
        match prepared {
            PreparedWallet::Ready(data) => {
                let req = UploadWallet {
                    namespace: self.uploads.namespace.clone(),
                    record_id: self.uploads.wallets[self.uploads.next].record_id.clone(),
                    data,
                };
                UploadStep::Upload(AwaitWalletUpload { uploads: self.uploads }, req)
            },
            PreparedWallet::EntryFailed(e) => UploadStep::Finished(Err(e)),
            PreparedWallet::EncryptFailed(m) => UploadStep::Finished(Err(CloudBackupError::Crypto(m))),
            PreparedWallet::SerializeFailed(m) => UploadStep::Finished(
                Err(CloudBackupError::Internal(m)),
            ),
        }
    }
}

impl AwaitWalletUpload {
    /// After an upload the next wallet is prepared, or, after the last one,
    /// the uploads end with the number of wallets; a failed upload stops them
    /// with a cloud error.
    pub fn on_uploaded(self, result: Result<(), CloudStorageError>) -> (s: UploadStep)
        ensures
            result is Ok && self.spec_uploads().spec_next() + 1 < self.spec_uploads().spec_wallets().len()
                ==> prepares(s, self.spec_uploads(), self.spec_uploads().spec_next() + 1),
            result is Ok && self.spec_uploads().spec_next() + 1 == self.spec_uploads().spec_wallets().len()
                ==> s == UploadStep::Finished(
                Ok::<u32, CloudBackupError>(self.spec_uploads().spec_wallets().len() as u32),
            ),
            result matches Err(c) ==> (s matches UploadStep::Finished(Err(e)) && is_cloud_error(e, c)),
    {
        proof {
            use_type_invariant(&self.uploads);
        }
        match result {
            Err(c) => UploadStep::Finished(Err(cloud_error(&c))),
            Ok(()) => {
                let next = self.uploads.next + 1;
                if next == self.uploads.wallets.len() {
                    return UploadStep::Finished(Ok(next as u32));
                }
                let uploads = WalletUploads {
                    namespace: self.uploads.namespace,
                    wallets: self.uploads.wallets,
                    master_key: self.uploads.master_key,
                    next,
                };
                prepare_step(uploads)
            },
        }
    }
}

/// The step begins uploading `wallets` to `namespace` under `master_key`, as
/// [`upload_wallets`] does.
pub open spec fn starts_uploads(
    s: UploadStep,
    namespace: Seq<char>,
    wallets: Seq<LocalWallet>,
    master_key: Seq<u8>,
) -> bool {
    &&& wallets.len() == 0 ==> s == UploadStep::Finished(Ok::<u32, CloudBackupError>(0))
    &&& wallets.len() > 0 ==> (s matches UploadStep::Prepare(w, req) && w.spec_uploads().spec_wallets()
        == wallets && w.spec_uploads().spec_namespace() == namespace
        && w.spec_uploads().spec_master_key() == master_key && w.spec_uploads().spec_next() == 0
        && req.wallet == wallets[0] && req.master_key@ == master_key)
}

/// The error that a failed step adds its context to, as an internal error.
pub open spec fn is_prefixed_internal(e: CloudBackupError, prefix: Seq<char>, cause: Seq<char>) -> bool {
    e matches CloudBackupError::Internal(m) && m@ == prefixed(prefix, cause)
}

/// The setting that a successful backup persists: enabled, synced at some
/// time, with the given wallet count.
pub open spec fn is_synced_setting(s: CloudBackup, wallet_count: u32) -> bool {
    s matches CloudBackup::Enabled { last_sync: Some(_), wallet_count: Some(c) } && c == wallet_count
}

fn synced_setting(wallet_count: u32) -> (s: CloudBackup)
    ensures
        is_synced_setting(s, wallet_count),
{
    CloudBackup::Enabled { last_sync: Some(sync_time_now()), wallet_count: Some(wallet_count) }
}

// ---------------------------------------------------------------------------
// Backing up some wallets
// ---------------------------------------------------------------------------

pub enum BackupStep {
    /// Read the namespace from the keychain.
    LoadNamespace(AwaitBackupNamespace),
    /// Get the master key from the keychain, creating it if there is none.
    LoadMasterKey(AwaitBackupMasterKey),
    /// Run the uploads to their end.
    Uploading(AwaitBackupUploads, UploadStep),
    /// List the wallet backups of the namespace.
    ListWallets(AwaitBackupListing, String),
    /// Persist the setting.
    SaveSetting(AwaitBackupSaved, CloudBackup),
    Finished(Result<(), CloudBackupError>),
}

pub struct AwaitBackupNamespace {
    wallets: Vec<LocalWallet>,
}

pub struct AwaitBackupMasterKey {
    wallets: Vec<LocalWallet>,
    namespace: String,
}

pub struct AwaitBackupUploads {
    namespace: String,
}

pub struct AwaitBackupListing {}

pub struct AwaitBackupSaved {}

impl AwaitBackupNamespace {
    #[verifier::type_invariant]
    closed spec fn wf(&self) -> bool {
        self.wallets.len() <= u32::MAX
    }

    pub closed spec fn spec_wallets(&self) -> Seq<LocalWallet> {
        self.wallets@
    }
}

impl AwaitBackupMasterKey {
    #[verifier::type_invariant]
    closed spec fn wf(&self) -> bool {
        self.wallets.len() <= u32::MAX
    }

    pub closed spec fn spec_wallets(&self) -> Seq<LocalWallet> {
        self.wallets@
    }

    pub closed spec fn spec_namespace(&self) -> Seq<char> {
        self.namespace@
    }
}

impl AwaitBackupUploads {
    pub closed spec fn spec_namespace(&self) -> Seq<char> {
        self.namespace@
    }
}

/// Uploads `wallets` to the cloud and records the sync: nothing to do for no
/// wallets; else the namespace and master key are read first.
pub fn backup_wallets(wallets: Vec<LocalWallet>) -> (s: BackupStep)
    requires
        wallets.len() <= u32::MAX,
    ensures
        wallets.len() == 0 ==> s == BackupStep::Finished(Ok::<(), CloudBackupError>(())),
        wallets.len() > 0 ==> (s matches BackupStep::LoadNamespace(w) && w.spec_wallets() == wallets@),
{
    if wallets.len() == 0 {
        return BackupStep::Finished(Ok(()));
    }
    BackupStep::LoadNamespace(AwaitBackupNamespace { wallets })
}

impl AwaitBackupNamespace {
    /// The keychain entry whose value `on_namespace` takes: the namespace.
    pub fn entry(&self) -> (k: &'static str)
        ensures
            k@ == NAMESPACE_ID_KEY@,
    {
        NAMESPACE_ID_KEY
    }

    /// Without a namespace the backup fails; with one the master key comes
    /// next.
    pub fn on_namespace(self, stored: Option<String>) -> (s: BackupStep)
        ensures
            stored matches Some(ns) ==> (s matches BackupStep::LoadMasterKey(w) && w.spec_wallets()
                == self.spec_wallets() && w.spec_namespace() == ns@),
            stored is None ==> (s matches BackupStep::Finished(Err(e)) && is_missing_namespace_error(e)),
    {
        proof {
            use_type_invariant(&self);
        }
        match current_namespace_id(stored) {
            Ok(namespace) => BackupStep::LoadMasterKey(
                AwaitBackupMasterKey { wallets: self.wallets, namespace },
            ),
            Err(e) => BackupStep::Finished(Err(e)),
        }
    }
}

impl AwaitBackupMasterKey {
    /// With the master key the wallets are uploaded; without it the backup
    /// fails with "master key: ..." .
    pub fn on_master_key(self, master_key: Result<Vec<u8>, String>) -> (s: BackupStep)
        ensures
            master_key matches Ok(mk) ==> (s matches BackupStep::Uploading(w, up)
                && w.spec_namespace() == self.spec_namespace() && starts_uploads(
                up,
                self.spec_namespace(),
                self.spec_wallets(),
                mk@,
            )),
            master_key matches Err(e) ==> (s matches BackupStep::Finished(Err(err))
                && is_prefixed_internal(err, "master key"@, e@)),
    {
        proof {
            use_type_invariant(&self);
        }
        match master_key {
            Ok(mk) => {
                let up = upload_wallets(&self.namespace, self.wallets, &mk);
                BackupStep::Uploading(AwaitBackupUploads { namespace: self.namespace }, up)
            },
            Err(e) => BackupStep::Finished(Err(internal_with_prefix("master key", &e))),
        }
    }
}

impl AwaitBackupUploads {
    /// After all uploads the namespace is listed to count the backups; a
    /// failed upload ends the backup with its error.
    pub fn on_uploaded(self, result: Result<u32, CloudBackupError>) -> (s: BackupStep)
        ensures
            result is Ok ==> (s matches BackupStep::ListWallets(_, ns) && ns@ == self.spec_namespace()),
            result matches Err(e) ==> s == BackupStep::Finished(Err::<(), CloudBackupError>(e)),
    {
        match result {
            Ok(_) => BackupStep::ListWallets(AwaitBackupListing {}, self.namespace),
            Err(e) => BackupStep::Finished(Err(e)),
        }
    }
}

impl AwaitBackupListing {
    /// The number of listed backups is persisted with the sync time; a
    /// failed listing is a cloud error.
    pub fn on_listed(self, result: Result<Vec<String>, CloudStorageError>) -> (s: BackupStep)
        ensures
            result matches Ok(ids) ==> (s matches BackupStep::SaveSetting(_, setting)
                && is_synced_setting(setting, ids@.len() as u32)),
            result matches Err(c) ==> (s matches BackupStep::Finished(Err(e)) && is_cloud_error(e, c)),
    {
        match result {
            Ok(ids) => BackupStep::SaveSetting(
                AwaitBackupSaved {},
                synced_setting(#[verifier::truncate] (ids.len() as u32)),
            ),
            Err(c) => BackupStep::Finished(Err(cloud_error(&c))),
        }
    }
}

impl AwaitBackupSaved {
    /// The backup succeeds once the setting is persisted.
    pub fn on_saved(self, result: Result<(), String>) -> (s: BackupStep)
        ensures
            result is Ok ==> s == BackupStep::Finished(Ok::<(), CloudBackupError>(())),
            result matches Err(e) ==> (s matches BackupStep::Finished(Err(err))
                && is_prefixed_internal(err, "persist cloud backup state"@, e@)),
    {
        match result {
            Ok(()) => BackupStep::Finished(Ok(())),
            Err(e) => BackupStep::Finished(Err(internal_with_prefix("persist cloud backup state", &e))),
        }
    }
}

// ---------------------------------------------------------------------------
// Uploading all local wallets
// ---------------------------------------------------------------------------

pub enum UploadAllStep {
    Uploading(AwaitAllUploads, UploadStep),
    SaveSetting(AwaitAllSaved, CloudBackup),
    Finished(Result<(), CloudBackupError>),
}

pub struct AwaitAllUploads {}

pub struct AwaitAllSaved {}

/// Encrypts and uploads all local wallets to `namespace`, then persists the
/// enabled state with the number uploaded.
pub fn upload_all_wallets(namespace: &String, master_key: &Vec<u8>, wallets: Vec<LocalWallet>) -> (s:
    UploadAllStep)
    requires
        wallets.len() <= u32::MAX,
    ensures
        s matches UploadAllStep::Uploading(_, up) && starts_uploads(
            up,
            namespace@,
            wallets@,
            master_key@,
        ),
{
    UploadAllStep::Uploading(AwaitAllUploads {}, upload_wallets(namespace, wallets, master_key))
}

impl AwaitAllUploads {
    /// The count of uploaded wallets is persisted with the sync time; a
    /// failed upload ends with its error.
    pub fn on_uploaded(self, result: Result<u32, CloudBackupError>) -> (s: UploadAllStep)
        ensures
            result matches Ok(n) ==> (s matches UploadAllStep::SaveSetting(_, setting)
                && is_synced_setting(setting, n)),
            result matches Err(e) ==> s == UploadAllStep::Finished(Err::<(), CloudBackupError>(e)),
    {
        match result {
            Ok(n) => UploadAllStep::SaveSetting(AwaitAllSaved {}, synced_setting(n)),
            Err(e) => UploadAllStep::Finished(Err(e)),
        }
    }
}

impl AwaitAllSaved {
    pub fn on_saved(self, result: Result<(), String>) -> (s: UploadAllStep)
        ensures
            result is Ok ==> s == UploadAllStep::Finished(Ok::<(), CloudBackupError>(())),
            result matches Err(e) ==> (s matches UploadAllStep::Finished(Err(err))
                && is_prefixed_internal(err, "persist cloud backup state"@, e@)),
    {
        match result {
            Ok(()) => UploadAllStep::Finished(Ok(())),
            Err(e) => UploadAllStep::Finished(
                Err(internal_with_prefix("persist cloud backup state", &e)),
            ),
        }
    }
}

// ---------------------------------------------------------------------------
// Re-uploading all local wallets
// ---------------------------------------------------------------------------

pub enum ReuploadStep {
    LoadNamespace(AwaitReuploadNamespace),
    LoadMasterKey(AwaitReuploadMasterKey),
    /// Read all local wallets from the database.
    LoadLocalWallets(AwaitReuploadWallets),
    UploadAll(AwaitReuploaded, UploadAllStep),
    Finished(Result<(), CloudBackupError>),
}

pub struct AwaitReuploadNamespace {}

pub struct AwaitReuploadMasterKey {
    namespace: String,
}

pub struct AwaitReuploadWallets {
    namespace: String,
    master_key: Vec<u8>,
}

pub struct AwaitReuploaded {}

impl AwaitReuploadMasterKey {
    pub closed spec fn spec_namespace(&self) -> Seq<char> {
        self.namespace@
    }
}

impl AwaitReuploadWallets {
    pub closed spec fn spec_namespace(&self) -> Seq<char> {
        self.namespace@
    }

    pub closed spec fn spec_master_key(&self) -> Seq<u8> {
        self.master_key@
    }
}

/// Re-uploads all local wallets with the master key of the keychain (no
/// passkey is needed).
pub fn reupload_all_wallets() -> (s: ReuploadStep)
    ensures
        s is LoadNamespace,
{
    ReuploadStep::LoadNamespace(AwaitReuploadNamespace {})
}

impl AwaitReuploadNamespace {
    /// The keychain entry whose value `on_namespace` takes: the namespace.
    pub fn entry(&self) -> (k: &'static str)
        ensures
            k@ == NAMESPACE_ID_KEY@,
    {
        NAMESPACE_ID_KEY
    }

    pub fn on_namespace(self, stored: Option<String>) -> (s: ReuploadStep)
        ensures
            stored matches Some(ns) ==> (s matches ReuploadStep::LoadMasterKey(w) && w.spec_namespace()
                == ns@),
            stored is None ==> (s matches ReuploadStep::Finished(Err(e)) && is_missing_namespace_error(e)),
    {
        match current_namespace_id(stored) {
            Ok(namespace) => ReuploadStep::LoadMasterKey(AwaitReuploadMasterKey { namespace }),
            Err(e) => ReuploadStep::Finished(Err(e)),
        }
    }
}

impl AwaitReuploadMasterKey {
    pub fn on_master_key(self, master_key: Result<Vec<u8>, String>) -> (s: ReuploadStep)
        ensures
            master_key matches Ok(mk) ==> (s matches ReuploadStep::LoadLocalWallets(w)
                && w.spec_namespace() == self.spec_namespace() && w.spec_master_key() == mk@),
            master_key matches Err(e) ==> (s matches ReuploadStep::Finished(Err(err))
                && is_prefixed_internal(err, "master key"@, e@)),
    {
        match master_key {
            Ok(master_key) => ReuploadStep::LoadLocalWallets(
                AwaitReuploadWallets { namespace: self.namespace, master_key },
            ),
            Err(e) => ReuploadStep::Finished(Err(internal_with_prefix("master key", &e))),
        }
    }
}

impl AwaitReuploadWallets {
    pub fn on_local_wallets(self, wallets: Vec<LocalWallet>) -> (s: ReuploadStep)
        requires
            wallets.len() <= u32::MAX,
        ensures
            s matches ReuploadStep::UploadAll(_, UploadAllStep::Uploading(_, up)) && starts_uploads(
                up,
                self.spec_namespace(),
                wallets@,
                self.spec_master_key(),
            ),
    {
        ReuploadStep::UploadAll(
            AwaitReuploaded {},
            upload_all_wallets(&self.namespace, &self.master_key, wallets),
        )
    }
}

impl AwaitReuploaded {
    pub fn on_uploaded(self, result: Result<(), CloudBackupError>) -> (s: ReuploadStep)
        ensures
            s == ReuploadStep::Finished(result),
    {
        ReuploadStep::Finished(result)
    }
}

// ---------------------------------------------------------------------------
// Syncing the wallets that the cloud lacks
// ---------------------------------------------------------------------------

pub enum SyncStep {
    LoadNamespace(AwaitSyncNamespace),
    ListWallets(AwaitSyncListing, String),
    LoadLocalWallets(AwaitSyncWallets),
    /// Run the backup of the unsynced wallets to its end.
    Backup(AwaitSyncBackup, BackupStep),
    Finished(Result<(), CloudBackupError>),
}

pub struct AwaitSyncNamespace {}

pub struct AwaitSyncListing {}

pub struct AwaitSyncWallets {
    cloud_ids: Vec<String>,
}

pub struct AwaitSyncBackup {}

impl AwaitSyncWallets {
    pub closed spec fn spec_cloud_ids(&self) -> Seq<String> {
        self.cloud_ids@
    }
}

/// Backs up the local wallets that the cloud listing of the namespace lacks.
pub fn sync_unsynced_wallets() -> (s: SyncStep)
    ensures
        s is LoadNamespace,
{
    SyncStep::LoadNamespace(AwaitSyncNamespace {})
}

impl AwaitSyncNamespace {
    /// The keychain entry whose value `on_namespace` takes: the namespace.
    pub fn entry(&self) -> (k: &'static str)
        ensures
            k@ == NAMESPACE_ID_KEY@,
    {
        NAMESPACE_ID_KEY
    }

    pub fn on_namespace(self, stored: Option<String>) -> (s: SyncStep)
        ensures
            stored matches Some(ns) ==> (s matches SyncStep::ListWallets(_, n) && n == ns),
            stored is None ==> (s matches SyncStep::Finished(Err(e)) && is_missing_namespace_error(e)),
    {
        match current_namespace_id(stored) {
            Ok(namespace) => SyncStep::ListWallets(AwaitSyncListing {}, namespace),
            Err(e) => SyncStep::Finished(Err(e)),
        }
    }
}

impl AwaitSyncListing {
    pub fn on_listed(self, result: Result<Vec<String>, CloudStorageError>) -> (s: SyncStep)
        ensures
            result matches Ok(ids) ==> (s matches SyncStep::LoadLocalWallets(w) && w.spec_cloud_ids()
                == ids@),
            result matches Err(c) ==> (s matches SyncStep::Finished(Err(e)) && is_cloud_error(e, c)),
    {
        match result {
            Ok(cloud_ids) => SyncStep::LoadLocalWallets(AwaitSyncWallets { cloud_ids }),
            Err(c) => SyncStep::Finished(Err(cloud_error(&c))),
        }
    }
}

impl AwaitSyncWallets {
    /// Nothing is done when every local wallet is listed; else the unlisted
    /// ones are backed up.
    pub fn on_local_wallets(self, wallets: Vec<LocalWallet>) -> (s: SyncStep)
        requires
            wallets.len() <= u32::MAX,
        ensures
            unsynced(wallets@, texts(self.spec_cloud_ids())).len() == 0 ==> s == SyncStep::Finished(
                Ok::<(), CloudBackupError>(()),
            ),
            unsynced(wallets@, texts(self.spec_cloud_ids())).len() > 0 ==> (s matches SyncStep::Backup(
                _,
                BackupStep::LoadNamespace(w),
            ) && w.spec_wallets() == unsynced(wallets@, texts(self.spec_cloud_ids()))),
    {
        let pending = unsynced_wallets(&wallets, &self.cloud_ids);
        proof {
            wallets@.lemma_filter_len(|w: LocalWallet| !texts(self.cloud_ids@).contains(w.record_id@));
        }
        if pending.len() == 0 {
            return SyncStep::Finished(Ok(()));
        }
        SyncStep::Backup(AwaitSyncBackup {}, backup_wallets(pending))
    }
}

impl AwaitSyncBackup {
    pub fn on_backed_up(self, result: Result<(), CloudBackupError>) -> (s: SyncStep)
        ensures
            s == SyncStep::Finished(result),
    {
        SyncStep::Finished(result)
    }
}

// ---------------------------------------------------------------------------
// Deleting a cloud wallet
// ---------------------------------------------------------------------------

pub enum DeleteStep {
    LoadNamespace(AwaitDeleteNamespace),
    /// Delete the wallet backup `record_id` of the namespace.
    Delete(AwaitDeleted, String, String),
    ListWallets(AwaitDeleteListing, String),
    /// Read the persisted setting.
    LoadSetting(AwaitDeleteSetting),
    /// Persist the setting; its outcome is not awaited.
    SaveSetting(CloudBackup),
    Finished(Result<(), CloudBackupError>),
}

pub struct AwaitDeleteNamespace {
    record_id: String,
}

pub struct AwaitDeleted {
    namespace: String,
}

pub struct AwaitDeleteListing {}

pub struct AwaitDeleteSetting {
    wallet_count: u32,
}

impl AwaitDeleteNamespace {
    pub closed spec fn spec_record_id(&self) -> String {
        self.record_id
    }
}

impl AwaitDeleted {
    pub closed spec fn spec_namespace(&self) -> Seq<char> {
        self.namespace@
    }
}

impl AwaitDeleteSetting {
    pub closed spec fn spec_wallet_count(&self) -> u32 {
        self.wallet_count
    }
}

/// Deletes a wallet backup from the cloud and updates the persisted count
/// from the listing that follows.
pub fn delete_cloud_wallet(record_id: String) -> (s: DeleteStep)
    ensures
        s matches DeleteStep::LoadNamespace(w) && w.spec_record_id() == record_id,
{
    DeleteStep::LoadNamespace(AwaitDeleteNamespace { record_id })
}

impl AwaitDeleteNamespace {
    /// The keychain entry whose value `on_namespace` takes: the namespace.
    pub fn entry(&self) -> (k: &'static str)
        ensures
            k@ == NAMESPACE_ID_KEY@,
    {
        NAMESPACE_ID_KEY
    }

    pub fn on_namespace(self, stored: Option<String>) -> (s: DeleteStep)
        ensures
            stored matches Some(ns) ==> (s matches DeleteStep::Delete(w, n, rid) && n == ns
                && rid == self.spec_record_id() && w.spec_namespace() == ns@),
            stored is None ==> (s matches DeleteStep::Finished(Err(e)) && is_missing_namespace_error(e)),
    {
        match current_namespace_id(stored) {
            Ok(namespace) => {
                let ns = namespace.clone();
                DeleteStep::Delete(AwaitDeleted { namespace: ns }, namespace, self.record_id)
            },
            Err(e) => DeleteStep::Finished(Err(e)),
        }
    }
}

impl AwaitDeleted {
    pub fn on_deleted(self, result: Result<(), CloudStorageError>) -> (s: DeleteStep)
        ensures
            result is Ok ==> (s matches DeleteStep::ListWallets(_, ns) && ns@ == self.spec_namespace()),
            result matches Err(c) ==> (s matches DeleteStep::Finished(Err(e)) && is_cloud_error(e, c)),
    {
        match result {
            Ok(()) => DeleteStep::ListWallets(AwaitDeleteListing {}, self.namespace),
            Err(c) => DeleteStep::Finished(Err(cloud_error(&c))),
        }
    }
}

impl AwaitDeleteListing {
    pub fn on_listed(self, result: Result<Vec<String>, CloudStorageError>) -> (s: DeleteStep)
        ensures
            result matches Ok(ids) ==> (s matches DeleteStep::LoadSetting(w) && w.spec_wallet_count()
                == ids@.len() as u32),
            result matches Err(c) ==> (s matches DeleteStep::Finished(Err(e)) && is_cloud_error(e, c)),
    {
        match result {
            Ok(ids) => DeleteStep::LoadSetting(
                AwaitDeleteSetting { wallet_count: #[verifier::truncate] (ids.len() as u32) },
            ),
            Err(c) => DeleteStep::Finished(Err(cloud_error(&c))),
        }
    }
}

impl AwaitDeleteSetting {
    /// The count of the listing is persisted as enabled, with the last sync
    /// of the current setting kept.
    pub fn on_setting(self, current: CloudBackup) -> (s: DeleteStep)
        ensures
            s == DeleteStep::SaveSetting(
                CloudBackup::Enabled {
                    last_sync: current.spec_last_sync(),
                    wallet_count: Some(self.spec_wallet_count()),
                },
            ),
    {
        DeleteStep::SaveSetting(
            CloudBackup::Enabled { last_sync: current.last_sync(), wallet_count: Some(self.wallet_count) },
        )
    }
}

} // verus!
