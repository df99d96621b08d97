//! The cloud backup model: states, messages, reports and errors.

use vstd::prelude::*;
use vstd::string::*;

verus! {

/// State of the cloud backup feature, as the UI sees it.
#[derive(Debug, Clone, Hash, PartialEq, Eq)]
pub enum CloudBackupState {
    Disabled,
    Enabling,
    Restoring,
    Enabled,
    Error(String),
}

/// Outcome of restoring every wallet of a cloud backup.
#[derive(Debug, Clone)]
pub struct CloudBackupRestoreReport {
    pub wallets_restored: u32,
    pub wallets_failed: u32,
    pub failed_wallet_errors: Vec<String>,
}

/// Messages from the backup manager to the UI.
#[derive(Debug, Clone)]
pub enum CloudBackupReconcileMessage {
    StateChanged(CloudBackupState),
    ProgressUpdated { completed: u32, total: u32 },
    EnableComplete,
    RestoreComplete(CloudBackupRestoreReport),
    SyncFailed(String),
}

/// Where a wallet stands with respect to the cloud backup.
#[derive(Debug, Clone, Copy, Hash, PartialEq, Eq, Structural)]
pub enum CloudBackupWalletStatus {
    BackedUp,
    NotBackedUp,
    DeletedFromDevice,
}

/// The bitcoin network a wallet belongs to.
#[derive(Debug, Clone, Copy, Hash, PartialEq, Eq, Structural)]
pub enum Network {
    Bitcoin,
    Testnet,
    Testnet4,
    Signet,
}

/// Main wallets, or decoy wallets shown under the decoy PIN.
#[derive(Debug, Clone, Copy, Hash, PartialEq, Eq, Structural)]
pub enum WalletMode {
    Main,
    Decoy,
}

/// How the keys of a wallet are held.
#[derive(Debug, Clone, Copy, Hash, PartialEq, Eq, Structural)]
pub enum WalletType {
    Hot,
    Cold,
    XpubOnly,
    WatchOnly,
}

/// One wallet as the backup detail screen lists it.
#[derive(Debug, Clone, Hash, PartialEq, Eq)]
pub struct CloudBackupWalletItem {
    pub name: String,
    pub network: Network,
    pub wallet_mode: WalletMode,
    pub wallet_type: WalletType,
    pub fingerprint: Option<String>,
    pub status: CloudBackupWalletStatus,
    /// Cloud record ID, only set for cloud-only wallets
    pub record_id: Option<String>,
}

/// Result of refreshing the backup detail.
#[derive(Debug, Clone)]
pub enum CloudBackupDetailResult {
    Success(CloudBackupDetail),
    AccessError(String),
}

/// What is backed up and what is not.
#[derive(Debug, Clone)]
pub struct CloudBackupDetail {
    pub last_sync: Option<u64>,
    pub backed_up: Vec<CloudBackupWalletItem>,
    pub not_backed_up: Vec<CloudBackupWalletItem>,
    /// Number of wallets in the cloud that aren't on this device
    pub cloud_only_count: u32,
}

/// The mathematical value of a [`CloudBackupDetail`].
pub struct CloudBackupDetailView {
    pub last_sync: Option<u64>,
    pub backed_up: Seq<CloudBackupWalletItem>,
    pub not_backed_up: Seq<CloudBackupWalletItem>,
    pub cloud_only_count: u32,
}

impl View for CloudBackupDetail {
    type V = CloudBackupDetailView;

    open spec fn view(&self) -> CloudBackupDetailView {
        CloudBackupDetailView {
            last_sync: self.last_sync,
            backed_up: self.backed_up@,
            not_backed_up: self.not_backed_up@,
            cloud_only_count: self.cloud_only_count,
        }
    }
}

/// The view of an optional detail.
pub open spec fn opt_detail_view(d: Option<CloudBackupDetail>) -> Option<CloudBackupDetailView> {
    match d {
        Some(d) => Some(d@),
        None => None,
    }
}

impl CloudBackupWalletItem {
    /// A copy of the item, field by field.
    pub fn duplicate(&self) -> (r: CloudBackupWalletItem)
        ensures
            r == *self,
    {
        CloudBackupWalletItem {
            name: self.name.clone(),
            network: self.network,
            wallet_mode: self.wallet_mode,
            wallet_type: self.wallet_type,
            fingerprint: copy_opt_string(&self.fingerprint),
            status: self.status,
            record_id: copy_opt_string(&self.record_id),
        }
    }
}

/// A copy of an optional string.
pub fn copy_opt_string(s: &Option<String>) -> (r: Option<String>)
    ensures
        r == *s,
{
    match s {
        Some(s) => Some(s.clone()),
        None => None,
    }
}

/// A copy of a list of wallet items.
pub fn copy_items(items: &Vec<CloudBackupWalletItem>) -> (r: Vec<CloudBackupWalletItem>)
    ensures
        r@ == items@,
{
    let mut r: Vec<CloudBackupWalletItem> = Vec::new();
    for i in 0..items.len()
        invariant
            r@ == items@.subrange(0, i as int),
    {
        r.push(items[i].duplicate());
        assert(r@ =~= items@.subrange(0, i + 1));
    }
    assert(r@ =~= items@);
    r
}

impl CloudBackupDetail {
    /// A copy of the detail.
    pub fn duplicate(&self) -> (r: CloudBackupDetail)
        ensures
            r@ == self@,
    {
        CloudBackupDetail {
            last_sync: self.last_sync,
            backed_up: copy_items(&self.backed_up),
            not_backed_up: copy_items(&self.not_backed_up),
            cloud_only_count: self.cloud_only_count,
        }
    }
}

/// A copy of an optional detail.
pub fn copy_opt_detail(d: &Option<CloudBackupDetail>) -> (r: Option<CloudBackupDetail>)
    ensures
        opt_detail_view(r) == opt_detail_view(*d),
{
    match d {
        Some(d) => Some(d.duplicate()),
        None => None,
    }
}

/// Outcome of a deep verification of the cloud backup.
#[derive(Debug, Clone)]
pub enum DeepVerificationResult {
    Verified(DeepVerificationReport),
    UserCancelled(Option<CloudBackupDetail>),
    NotEnabled,
    Failed(DeepVerificationFailure),
}

/// What a successful deep verification found and repaired.
#[derive(Debug, Clone)]
pub struct DeepVerificationReport {
    /// Cloud master key PRF wrapping was repaired
    pub master_key_wrapper_repaired: bool,
    /// Local keychain was repaired from verified cloud master key
    pub local_master_key_repaired: bool,
    /// credential_id was recovered via discoverable auth
    pub credential_recovered: bool,
    pub wallets_verified: u32,
    pub wallets_failed: u32,
    /// Wallet backups with unsupported version (newer format, skipped)
    pub wallets_unsupported: u32,
    /// May be None if wallet list was missing but master key verified
    pub detail: Option<CloudBackupDetail>,
}

/// Why a deep verification failed, and what the user may do about it.
#[derive(Debug, Clone)]
pub enum DeepVerificationFailure {
    /// Transient iCloud/network/passkey error — safe to retry
    Retry { message: String, detail: Option<CloudBackupDetail> },
    /// Manifest missing, master key verified intact — recreate from local wallets
    RecreateManifest { message: String, detail: Option<CloudBackupDetail>, warning: String },
    /// No verified cloud or local master key available — full re-enable needed
    ReinitializeBackup { message: String, detail: Option<CloudBackupDetail>, warning: String },
    /// Backup uses a newer format — do not overwrite
    UnsupportedVersion { message: String, detail: Option<CloudBackupDetail> },
}

impl DeepVerificationFailure {
    /// The detail that the failure carries.
    pub open spec fn spec_detail(&self) -> Option<CloudBackupDetail> {
        match self {
            DeepVerificationFailure::Retry { detail, .. } => *detail,
            DeepVerificationFailure::RecreateManifest { detail, .. } => *detail,
            DeepVerificationFailure::ReinitializeBackup { detail, .. } => *detail,
            DeepVerificationFailure::UnsupportedVersion { detail, .. } => *detail,
        }
    }
}

/// Errors of the cloud backup operations.
#[derive(Debug, Clone, PartialEq, Eq)]
pub enum CloudBackupError {
    NotSupported(String),
    Passkey(String),
    Crypto(String),
    Cloud(String),
    Internal(String),
}

impl CloudBackupError {
    /// The human-readable text of the error.
    pub open spec fn spec_message(&self) -> Seq<char> {
        match self {
            CloudBackupError::NotSupported(s) => "not supported: "@ + s@,
            CloudBackupError::Passkey(s) => "passkey error: "@ + s@,
            CloudBackupError::Crypto(s) => "crypto error: "@ + s@,
            CloudBackupError::Cloud(s) => "cloud storage error: "@ + s@,
            CloudBackupError::Internal(s) => "internal error: "@ + s@,
        }
    }

    /// The human-readable text of the error (what `Display` shows).
    pub fn message(&self) -> (s: String)
        ensures
            s@ == self.spec_message(),
    {
        match self {
            CloudBackupError::NotSupported(s) => String::from_str("not supported: ").concat(s.as_str()),
            CloudBackupError::Passkey(s) => String::from_str("passkey error: ").concat(s.as_str()),
            CloudBackupError::Crypto(s) => String::from_str("crypto error: ").concat(s.as_str()),
            CloudBackupError::Cloud(s) => String::from_str("cloud storage error: ").concat(s.as_str()),
            CloudBackupError::Internal(s) => String::from_str("internal error: ").concat(s.as_str()),
        }
    }
}

/// The persisted cloud backup setting of the database.
#[derive(Debug, Clone, Copy, PartialEq, Eq, Structural)]
pub enum CloudBackup {
    Disabled,
    Enabled { last_sync: Option<u64>, wallet_count: Option<u32> },
    Unverified { last_sync: Option<u64>, wallet_count: Option<u32> },
}

impl CloudBackup {
    /// The persisted setting is `Enabled` or `Unverified`.
    pub open spec fn spec_is_on(&self) -> bool {
        !(self is Disabled)
    }

    /// The last sync time of an enabled or unverified setting.
    pub open spec fn spec_last_sync(&self) -> Option<u64> {
        match self {
            CloudBackup::Enabled { last_sync, .. } => *last_sync,
            CloudBackup::Unverified { last_sync, .. } => *last_sync,
            CloudBackup::Disabled => None,
        }
    }

    /// Check if cloud backup is enabled, used as nav guard.
    pub fn is_on(&self) -> (b: bool)
        ensures
            b == self.spec_is_on(),
    {
        match self {
            CloudBackup::Disabled => false,
            _ => true,
        }
    }

    /// Whether the persisted cloud backup state is unverified.
    pub fn is_unverified(&self) -> (b: bool)
        ensures
            b == (*self is Unverified),
    {
        match self {
            CloudBackup::Unverified { .. } => true,
            _ => false,
        }
    }

    /// The last sync time, `None` when disabled.
    pub fn last_sync(&self) -> (r: Option<u64>)
        ensures
            r == self.spec_last_sync(),
    {
        match self {
            CloudBackup::Enabled { last_sync, .. } => *last_sync,
            CloudBackup::Unverified { last_sync, .. } => *last_sync,
            CloudBackup::Disabled => None,
        }
    }
}

/// The secret of a wallet as the cloud backup format stores it.
#[derive(Debug, Clone, PartialEq, Eq)]
pub enum CloudWalletSecret {
    Mnemonic(String),
    TapSignerBackup(Vec<u8>),
    Descriptor(String),
    WatchOnly,
}

/// The secret of a wallet as the local backup import expects it.
#[derive(Debug, Clone, PartialEq, Eq)]
pub enum LocalWalletSecret {
    Mnemonic(String),
    TapSignerBackup(Vec<u8>),
    NoSecret,
}

/// A copy of a byte vector.
pub fn copy_bytes(v: &Vec<u8>) -> (r: Vec<u8>)
    ensures
        r@ == v@,
{
    let mut r: Vec<u8> = Vec::new();
    for i in 0..v.len()
        invariant
            r@ == v@.subrange(0, i as int),
    {
        r.push(v[i]);
        assert(r@ =~= v@.subrange(0, i + 1));
    }
    assert(r@ =~= v@);
    r
}

/// Converts a cloud wallet secret into the local import format: a mnemonic
/// and a TAPSIGNER backup carry over, a descriptor or a watch-only wallet
/// carry no secret.
pub fn convert_cloud_secret(secret: &CloudWalletSecret) -> (r: LocalWalletSecret)
    ensures
        match *secret {
            CloudWalletSecret::Mnemonic(m) => r matches LocalWalletSecret::Mnemonic(m2) && m2@ == m@,
            CloudWalletSecret::TapSignerBackup(b) => r matches LocalWalletSecret::TapSignerBackup(b2)
                && b2@ == b@,
            CloudWalletSecret::Descriptor(_) => r is NoSecret,
            CloudWalletSecret::WatchOnly => r is NoSecret,
        },
{
    match secret {
        CloudWalletSecret::Mnemonic(m) => LocalWalletSecret::Mnemonic(m.clone()),
        CloudWalletSecret::TapSignerBackup(b) => LocalWalletSecret::TapSignerBackup(copy_bytes(b)),
        CloudWalletSecret::Descriptor(_) | CloudWalletSecret::WatchOnly => LocalWalletSecret::NoSecret,
    }
}

} // verus!
