//! Access to the platform's cloud storage (iCloud Drive on iOS).

use vstd::prelude::*;
use vstd::string::*;

verus! {

/// Errors reported by the platform's cloud storage.
#[derive(Debug, Clone, Hash, PartialEq, Eq)]
pub enum CloudStorageError {
    NotAvailable(String),
    UploadFailed(String),
    DownloadFailed(String),
    NotFound(String),
    QuotaExceeded,
}

impl CloudStorageError {
    /// The human-readable text of the error.
    pub open spec fn spec_message(&self) -> Seq<char> {
        match self {
            CloudStorageError::NotAvailable(s) => "not available: "@ + s@,
            CloudStorageError::UploadFailed(s) => "upload failed: "@ + s@,
            CloudStorageError::DownloadFailed(s) => "download failed: "@ + s@,
            CloudStorageError::NotFound(s) => "not found: "@ + s@,
            CloudStorageError::QuotaExceeded => "quota exceeded"@,
        }
    }

    /// The human-readable text of the error (what `Display` shows).
    pub fn message(&self) -> (s: String)
        ensures
            s@ == self.spec_message(),
    {
        match self {
            CloudStorageError::NotAvailable(s) => String::from_str("not available: ").concat(s.as_str()),
            CloudStorageError::UploadFailed(s) => String::from_str("upload failed: ").concat(s.as_str()),
            CloudStorageError::DownloadFailed(s) => String::from_str("download failed: ").concat(s.as_str()),
            CloudStorageError::NotFound(s) => String::from_str("not found: ").concat(s.as_str()),
            CloudStorageError::QuotaExceeded => String::from_str("quota exceeded"),
        }
    }

    /// Whether the error says that the requested item does not exist.
    pub fn is_not_found(&self) -> (b: bool)
        ensures
            b == (self is NotFound),
    {
        match self {
            CloudStorageError::NotFound(_) => true,
            _ => false,
        }
    }
}

/// The storage operations that the host platform implements.
///
/// Nothing is promised of what an implementation returns: every caller in
/// this crate is verified for every outcome.
pub trait CloudStorageAccess: Send + Sync {
    fn upload_master_key_backup(&self, namespace: String, data: Vec<u8>) -> Result<(), CloudStorageError>;

    fn upload_wallet_backup(
        &self,
        namespace: String,
        record_id: String,
        data: Vec<u8>,
    ) -> Result<(), CloudStorageError>;

    fn download_master_key_backup(&self, namespace: String) -> Result<Vec<u8>, CloudStorageError>;

    fn download_wallet_backup(&self, namespace: String, record_id: String) -> Result<Vec<u8>, CloudStorageError>;

    fn delete_wallet_backup(&self, namespace: String, record_id: String) -> Result<(), CloudStorageError>;

    /// List all namespace IDs (subdirectories of cspp-namespaces/)
    fn list_namespaces(&self) -> Result<Vec<String>, CloudStorageError>;

    /// List wallet backup record IDs within a namespace (excludes master key file)
    fn list_wallet_backups(&self, namespace: String) -> Result<Vec<String>, CloudStorageError>;

    /// Check if any cloud backup namespaces exist
    fn has_any_cloud_backup(&self) -> Result<bool, CloudStorageError>;

    /// Delete all flat-format files directly in Data/ (legacy cleanup)
    fn delete_all_flat_files(&self) -> Result<(), CloudStorageError>;
}

/// Shared handle on the platform's cloud storage.
pub struct CloudStorage(pub std::sync::Arc<Box<dyn CloudStorageAccess>>);

impl CloudStorage {
    pub fn upload_master_key_backup(&self, namespace: String, data: Vec<u8>) -> (r: Result<(), CloudStorageError>) {
        self.0.upload_master_key_backup(namespace, data)
    }

    pub fn upload_wallet_backup(
        &self,
        namespace: String,
        record_id: String,
        data: Vec<u8>,
    ) -> (r: Result<(), CloudStorageError>) {
        self.0.upload_wallet_backup(namespace, record_id, data)
    }

    pub fn download_master_key_backup(&self, namespace: String) -> (r: Result<Vec<u8>, CloudStorageError>) {
        self.0.download_master_key_backup(namespace)
    }

    pub fn download_wallet_backup(&self, namespace: String, record_id: String) -> (r: Result<Vec<u8>, CloudStorageError>) {
        self.0.download_wallet_backup(namespace, record_id)
    }

    pub fn delete_wallet_backup(&self, namespace: String, record_id: String) -> (r: Result<(), CloudStorageError>) {
        self.0.delete_wallet_backup(namespace, record_id)
    }

    pub fn list_namespaces(&self) -> (r: Result<Vec<String>, CloudStorageError>) {
        self.0.list_namespaces()
    }

    pub fn list_wallet_backups(&self, namespace: String) -> (r: Result<Vec<String>, CloudStorageError>) {
        self.0.list_wallet_backups(namespace)
    }

    pub fn has_any_cloud_backup(&self) -> (r: Result<bool, CloudStorageError>) {
        self.0.has_any_cloud_backup()
    }

    pub fn delete_all_flat_files(&self) -> (r: Result<(), CloudStorageError>) {
        self.0.delete_all_flat_files()
    }
}

} // verus!
