//! The master key in the cloud: fetching its wrapped backup, wrapping it
//! with a PRF key and uploading it, and persisting the passkey that wraps it.

use vstd::prelude::*;
use vstd::string::*;
use crate::cloud_storage::CloudStorageError;
use crate::credentials::{
    hex_write, internal_with_prefix, is_hex_write, prefixed, KeychainWrite, CREDENTIAL_ID_KEY,
    PRF_SALT_KEY,
};
use crate::model::{copy_bytes, CloudBackupError};
use crate::uploads::{cloud_error, is_cloud_error, is_prefixed_internal};

verus! {

/// What fetching and parsing the wrapped master key gave.
#[derive(Debug, Clone, PartialEq, Eq)]
pub enum MasterKeyFetch {
    /// The download failed.
    Failed(CloudStorageError),
    /// The bytes are not a master key backup, with the parser's text.
    Unreadable(String),
    /// A master key backup of the given format version, wrapped under a PRF
    /// key derived with `prf_salt`.
    Envelope { version: u32, prf_salt: [u8; 32] },
}

/// The master key backup just fetched is to be unwrapped with this PRF key.
#[derive(Debug)]
pub struct DecryptMasterKey {
    pub prf_key: [u8; 32],
}

/// A master key to wrap under a PRF key and serialize, for the platform.
#[derive(Debug)]
pub struct EncryptMasterKey {
    pub master_key: Vec<u8>,
    pub prf_key: [u8; 32],
    pub prf_salt: [u8; 32],
}

/// What wrapping and serializing the master key gave.
#[derive(Debug)]
pub enum MasterKeyEncryption {
    Encrypted(Vec<u8>),
    EncryptFailed(String),
    SerializeFailed(String),
}

/// A wrapped master key to upload to a namespace, for the platform.
#[derive(Debug)]
pub struct UploadMasterKey {
    pub namespace: String,
    pub data: Vec<u8>,
}

/// A master key to save in the keychain, for the platform.
#[derive(Debug)]
pub struct SaveMasterKey {
    pub master_key: Vec<u8>,
}

/// The only master key backup format this version reads.
pub open spec fn supported_master_version() -> u32 {
    1
}

/// Whether two keys are the same bytes.
pub fn same_bytes(a: &Vec<u8>, b: &Vec<u8>) -> (r: bool)
    ensures
        r == (a@ == b@),
{
    if a.len() != b.len() {
        return false;
    }
    let mut i: usize = 0;
    while i < a.len()
        invariant
            a@.len() == b@.len(),
            0 <= i <= a@.len(),
            forall|k: int| 0 <= k < i ==> a@[k] == b@[k],
        decreases a.len() - i,
    {
        if a[i] != b[i] {
            return false;
        }
        i = i + 1;
    }
    assert(a@ =~= b@);
    true
}

// ---------------------------------------------------------------------------
// Wrapping the master key and uploading it
// ---------------------------------------------------------------------------

pub enum WrapUploadStep {
    Encrypt(AwaitWrapped, EncryptMasterKey),
    Upload(AwaitWrappedUpload, UploadMasterKey),
    Finished(Result<(), CloudBackupError>),
}

pub struct AwaitWrapped {
    namespace: String,
}

pub struct AwaitWrappedUpload {}

impl AwaitWrapped {
    pub closed spec fn spec_namespace(&self) -> Seq<char> {
        self.namespace@
    }
}

/// Wraps `master_key` under `prf_key` (derived with `prf_salt`) and uploads
/// it to `namespace`.
pub fn wrap_and_upload(namespace: &String, master_key: &Vec<u8>, prf_key: &[u8; 32], prf_salt: &[u8; 32]) -> (s:
    WrapUploadStep)
    ensures
        s matches WrapUploadStep::Encrypt(w, req) && w.spec_namespace() == namespace@
            && req.master_key@ == master_key@ && req.prf_key == *prf_key && req.prf_salt
            == *prf_salt,
{
    let req = EncryptMasterKey {
        master_key: copy_bytes(master_key),
        prf_key: *prf_key,
        prf_salt: *prf_salt,
    };
    WrapUploadStep::Encrypt(AwaitWrapped { namespace: namespace.clone() }, req)
}

impl AwaitWrapped {
    /// The wrapped key is uploaded; a failed wrap is a crypto error, a failed
    /// serialization an internal error.
    pub fn on_wrapped(self, result: MasterKeyEncryption) -> (s: WrapUploadStep)
        ensures
            result matches MasterKeyEncryption::Encrypted(data) ==> (s matches WrapUploadStep::Upload(
                _,
                req,
            ) && req.namespace@ == self.spec_namespace() && req.data@ == data@),
            result matches MasterKeyEncryption::EncryptFailed(m) ==> s == WrapUploadStep::Finished(
                Err::<(), CloudBackupError>(CloudBackupError::Crypto(m)),
            ),
            result matches MasterKeyEncryption::SerializeFailed(m) ==> s == WrapUploadStep::Finished(
                Err::<(), CloudBackupError>(CloudBackupError::Internal(m)),
            ),
    {
        match result {
            MasterKeyEncryption::Encrypted(data) => WrapUploadStep::Upload(
                AwaitWrappedUpload {},
                UploadMasterKey { namespace: self.namespace, data },
            ),
            MasterKeyEncryption::EncryptFailed(m) => WrapUploadStep::Finished(
                Err(CloudBackupError::Crypto(m)),
            ),
            MasterKeyEncryption::SerializeFailed(m) => WrapUploadStep::Finished(
                Err(CloudBackupError::Internal(m)),
            ),
        }
    }
}

impl AwaitWrappedUpload {
    /// A failed upload is a cloud error.
    pub fn on_uploaded(self, result: Result<(), CloudStorageError>) -> (s: WrapUploadStep)
        ensures
            result is Ok ==> s == WrapUploadStep::Finished(Ok::<(), CloudBackupError>(())),
            result matches Err(c) ==> (s matches WrapUploadStep::Finished(Err(e)) && is_cloud_error(
                e,
                c,
            )),
    {
        match result {
            Ok(()) => WrapUploadStep::Finished(Ok(())),
            Err(c) => WrapUploadStep::Finished(Err(cloud_error(&c))),
        }
    }
}

// ---------------------------------------------------------------------------
// Persisting the passkey that wraps the master key
// ---------------------------------------------------------------------------

pub enum SaveCredentialsStep {
    SaveCredential(AwaitCredentialWritten, KeychainWrite),
    SaveSalt(AwaitSaltWritten, KeychainWrite),
    Finished(Result<(), CloudBackupError>),
}

pub struct AwaitCredentialWritten {
    prf_salt: [u8; 32],
    credential_context: String,
}

pub struct AwaitSaltWritten {}

impl AwaitCredentialWritten {
    pub closed spec fn spec_prf_salt(&self) -> Seq<u8> {
        self.prf_salt@
    }

    pub closed spec fn spec_credential_context(&self) -> Seq<char> {
        self.credential_context@
    }
}

/// Persists the credential ID and then the PRF salt, each as hex; a failed
/// write of the credential is reported with `credential_context`.
pub fn save_credentials(credential_id: &Vec<u8>, prf_salt: &[u8; 32], credential_context: &str) -> (s:
    SaveCredentialsStep)
    ensures
        s matches SaveCredentialsStep::SaveCredential(w, write) && is_hex_write(
            write,
            CREDENTIAL_ID_KEY@,
            credential_id@,
        ) && w.spec_prf_salt() == prf_salt@ && w.spec_credential_context() == credential_context@,
{
    let write = hex_write(CREDENTIAL_ID_KEY, credential_id.as_slice());
    SaveCredentialsStep::SaveCredential(
        AwaitCredentialWritten {
            prf_salt: *prf_salt,
            credential_context: String::from_str(credential_context),
        },
        write,
    )
}

impl AwaitCredentialWritten {
    pub fn on_saved(self, result: Result<(), String>) -> (s: SaveCredentialsStep)
        ensures
            result is Ok ==> (s matches SaveCredentialsStep::SaveSalt(_, write) && is_hex_write(
                write,
                PRF_SALT_KEY@,
                self.spec_prf_salt(),
            )),
            result matches Err(e) ==> (s matches SaveCredentialsStep::Finished(Err(err))
                && is_prefixed_internal(err, self.spec_credential_context(), e@)),
    {
        match result {
            Ok(()) => SaveCredentialsStep::SaveSalt(
                AwaitSaltWritten {},
                hex_write(PRF_SALT_KEY, self.prf_salt.as_slice()),
            ),
            Err(e) => SaveCredentialsStep::Finished(
                Err(internal_with_prefix(self.credential_context.as_str(), &e)),
            ),
        }
    }
}

impl AwaitSaltWritten {
    pub fn on_saved(self, result: Result<(), String>) -> (s: SaveCredentialsStep)
        ensures
            result is Ok ==> s == SaveCredentialsStep::Finished(Ok::<(), CloudBackupError>(())),
            result matches Err(e) ==> (s matches SaveCredentialsStep::Finished(Err(err))
                && is_prefixed_internal(err, "save prf_salt"@, e@)),
    {
        match result {
            Ok(()) => SaveCredentialsStep::Finished(Ok(())),
            Err(e) => SaveCredentialsStep::Finished(Err(internal_with_prefix("save prf_salt", &e))),
        }
    }
}

} // verus!
