//! Repair of the wrapper of the cloud master key: the local master key is
//! proven against the wallet backups, wrapped with a new passkey and
//! uploaded, and only then is the new passkey persisted.

use vstd::prelude::*;
use vstd::string::*;
use crate::cloud_storage::CloudStorageError;
use crate::credentials::{
    create_prf_key_without_persisting, internal_with_prefix, CreatePrfStep, UnpersistedPrfKey,
};
use crate::deep_verify::{saves_credential, starts_proof, wraps};
use crate::entropy::{bytes_32, random_32};
use crate::manager::{current_namespace_id, is_missing_namespace_error};
use crate::master_key::{save_credentials, wrap_and_upload, SaveCredentialsStep, WrapUploadStep};
use crate::model::{copy_bytes, CloudBackupError};
use crate::passkey::{
    bad_prf_size_error, is_bad_prf_size_error, is_prf_request, prf_request, PasskeyError, PrfRequest,
};
use crate::credentials::passkey_error;
use crate::uploads::is_prefixed_internal;
use crate::wallet_checks::{prove_local_key, KeyProofStep, LocalKeyProof, WrapperRepairError};

verus! {

/// The error of a refuted local key.
pub open spec fn is_wrong_key_error(e: CloudBackupError) -> bool {
    e matches CloudBackupError::Crypto(m) && m@
        == "local master key cannot decrypt existing cloud wallet backups"@
}

/// The error of a proof that found nothing.
pub open spec fn is_inconclusive_error(e: CloudBackupError) -> bool {
    e matches CloudBackupError::Cloud(m) && m@ == "could not download any wallet to verify local key"@
}

pub enum RepairStep {
    LoadLocalMasterKey(AwaitRepairLocalKey),
    ListWallets(AwaitRepairListing, String),
    Prove(AwaitRepairProof, KeyProofStep),
    CreatePasskey(AwaitRepairPasskey, CreatePrfStep),
    WrapAndUpload(AwaitRepairUpload, WrapUploadStep),
    SaveCredentials(AwaitRepairSaved, SaveCredentialsStep),
    Finished(Result<(), CloudBackupError>),
}

pub struct AwaitRepairLocalKey {
    namespace: String,
}

pub struct AwaitRepairListing {
    namespace: String,
    local_key: Vec<u8>,
}

pub struct AwaitRepairProof {
    namespace: String,
    local_key: Vec<u8>,
}

pub struct AwaitRepairPasskey {
    namespace: String,
    local_key: Vec<u8>,
}

pub struct AwaitRepairUpload {
    new_prf: UnpersistedPrfKey,
}

pub struct AwaitRepairSaved {}

impl AwaitRepairLocalKey {
    pub closed spec fn spec_namespace(&self) -> Seq<char> {
        self.namespace@
    }
}

impl AwaitRepairListing {
    pub closed spec fn spec_namespace(&self) -> Seq<char> {
        self.namespace@
    }

    pub closed spec fn spec_local_key(&self) -> Seq<u8> {
        self.local_key@
    }
}

impl AwaitRepairProof {
    pub closed spec fn spec_namespace(&self) -> Seq<char> {
        self.namespace@
    }

    pub closed spec fn spec_local_key(&self) -> Seq<u8> {
        self.local_key@
    }
}

impl AwaitRepairPasskey {
    pub closed spec fn spec_namespace(&self) -> Seq<char> {
        self.namespace@
    }

    pub closed spec fn spec_local_key(&self) -> Seq<u8> {
        self.local_key@
    }
}

impl AwaitRepairUpload {
    pub closed spec fn spec_new_salt(&self) -> Seq<u8> {
        self.new_prf.prf_salt@
    }

    pub closed spec fn spec_new_credential(&self) -> Seq<u8> {
        self.new_prf.credential_id@
    }
}

/// The step creates a new passkey for the repair of `namespace` with `key`.
pub open spec fn repair_creates_passkey(s: RepairStep, namespace: Seq<char>, key: Seq<u8>) -> bool {
    s matches RepairStep::CreatePasskey(w, cp) && w.spec_namespace() == namespace
        && w.spec_local_key() == key && cp is CreatePasskey
}

fn repair_create(namespace: String, local_key: Vec<u8>) -> (s: RepairStep)
    ensures
        repair_creates_passkey(s, namespace@, local_key@),
{
    RepairStep::CreatePasskey(
        AwaitRepairPasskey { namespace, local_key },
        create_prf_key_without_persisting(),
    )
}

/// Starts the repair of the master key wrapper in the namespace that the
/// keychain entry `NAMESPACE_ID_KEY` holds, given as `stored_namespace`.
pub fn do_repair_passkey_wrapper(stored_namespace: Option<String>) -> (s: RepairStep)
    ensures
        stored_namespace matches Some(ns) ==> (s matches RepairStep::LoadLocalMasterKey(w)
            && w.spec_namespace() == ns@),
        stored_namespace is None ==> (s matches RepairStep::Finished(Err(e))
            && is_missing_namespace_error(e)),
{
    match current_namespace_id(stored_namespace) {
        Ok(namespace) => RepairStep::LoadLocalMasterKey(AwaitRepairLocalKey { namespace }),
        Err(e) => RepairStep::Finished(Err(e)),
    }
}

impl AwaitRepairLocalKey {
    /// The repair needs the local key: without one it fails.
    pub fn on_local_master_key(self, result: Result<Option<Vec<u8>>, String>) -> (s: RepairStep)
        ensures
            result matches Ok(Some(k)) ==> (s matches RepairStep::ListWallets(w, ns) && ns@
                == self.spec_namespace() && w.spec_namespace() == self.spec_namespace()
                && w.spec_local_key() == k@),
            result matches Ok(None) ==> (s matches RepairStep::Finished(Err(CloudBackupError::Internal(m)))
                && m@ == "no local master key"@),
            result matches Err(e) ==> (s matches RepairStep::Finished(Err(err))
                && is_prefixed_internal(err, "load local master key"@, e@)),
    {
        match result {
            Ok(Some(local_key)) => {
                let ns = self.namespace.clone();
                RepairStep::ListWallets(AwaitRepairListing { namespace: self.namespace, local_key }, ns)
            },
            Ok(None) => RepairStep::Finished(
                Err(CloudBackupError::Internal(String::from_str("no local master key"))),
            ),
            Err(e) => RepairStep::Finished(Err(internal_with_prefix("load local master key", &e))),
        }
    }
}

impl AwaitRepairListing {
    /// Listed wallets must first prove the local key; with none (or no
    /// listing at all) the new passkey is created right away; other listing
    /// errors stop the repair.
    pub fn on_listed(self, result: Result<Vec<String>, CloudStorageError>) -> (s: RepairStep)
        ensures
            result matches Ok(ids) ==> (ids.len() > 0 ==> (s matches RepairStep::Prove(w, p)
                && w.spec_namespace() == self.spec_namespace() && w.spec_local_key()
                == self.spec_local_key() && starts_proof(
                p,
                self.spec_namespace(),
                ids@,
                self.spec_local_key(),
            ))),
            result matches Ok(ids) ==> (ids.len() == 0 ==> repair_creates_passkey(
                s,
                self.spec_namespace(),
                self.spec_local_key(),
            )),
            result matches Err(e) ==> (e is NotFound ==> repair_creates_passkey(
                s,
                self.spec_namespace(),
                self.spec_local_key(),
            )),
            result matches Err(e) ==> (!(e is NotFound) ==> (s matches RepairStep::Finished(
                Err(CloudBackupError::Cloud(m)),
            ) && m@ == "list wallet backups: "@ + e.spec_message())),
    {
        let ids = match result {
            Ok(ids) => ids,
            Err(CloudStorageError::NotFound(_)) => Vec::new(),
            Err(e) => {
                return RepairStep::Finished(
                    Err(
                        CloudBackupError::Cloud(
                            String::from_str("list wallet backups: ").concat(e.message().as_str()),
                        ),
                    ),
                );
            },
        };
        if ids.len() == 0 {
            return repair_create(self.namespace, self.local_key);
        }
        let p = prove_local_key(&self.namespace, ids, &self.local_key);
        RepairStep::Prove(AwaitRepairProof { namespace: self.namespace, local_key: self.local_key }, p)
    }
}

impl AwaitRepairProof {
    /// Only a proven key is re-wrapped.
    pub fn on_proved(self, proof_result: LocalKeyProof) -> (s: RepairStep)
        ensures
            proof_result is Verified ==> repair_creates_passkey(
                s,
                self.spec_namespace(),
                self.spec_local_key(),
            ),
            proof_result is WrongKey ==> (s matches RepairStep::Finished(Err(e)) && is_wrong_key_error(e)),
            proof_result is Inconclusive ==> (s matches RepairStep::Finished(Err(e))
                && is_inconclusive_error(e)),
    {
        match proof_result {
            LocalKeyProof::Verified => repair_create(self.namespace, self.local_key),
            LocalKeyProof::WrongKey => RepairStep::Finished(
                Err(WrapperRepairError::WrongKey.into_cloud_backup_error()),
            ),
            LocalKeyProof::Inconclusive => RepairStep::Finished(
                Err(WrapperRepairError::Inconclusive.into_cloud_backup_error()),
            ),
        }
    }
}

impl AwaitRepairPasskey {
    /// The local key is wrapped under the new PRF key and uploaded.
    pub fn on_created(self, result: Result<UnpersistedPrfKey, CloudBackupError>) -> (s: RepairStep)
        ensures
            result matches Ok(k) ==> (s matches RepairStep::WrapAndUpload(w, wu) && w.spec_new_salt()
                == k.prf_salt@ && w.spec_new_credential() == k.credential_id@ && wraps(
                wu,
                self.spec_namespace(),
                self.spec_local_key(),
                k,
            )),
            result matches Err(e) ==> s == RepairStep::Finished(Err::<(), CloudBackupError>(e)),
    {
        match result {
            Ok(new_prf) => {
                let wu = wrap_and_upload(
                    &self.namespace,
                    &self.local_key,
                    &new_prf.prf_key,
                    &new_prf.prf_salt,
                );
                RepairStep::WrapAndUpload(AwaitRepairUpload { new_prf }, wu)
            },
            Err(e) => RepairStep::Finished(Err(e)),
        }
    }
}

impl AwaitRepairUpload {
    /// Only after the upload is the new passkey persisted.
    pub fn on_uploaded(self, result: Result<(), CloudBackupError>) -> (s: RepairStep)
        ensures
            result is Ok ==> (s matches RepairStep::SaveCredentials(_, sc) && saves_credential(
                sc,
                self.spec_new_credential(),
                self.spec_new_salt(),
                "save credential"@,
            )),
            result matches Err(e) ==> s == RepairStep::Finished(Err::<(), CloudBackupError>(e)),
    {
        match result {
            Ok(()) => RepairStep::SaveCredentials(
                AwaitRepairSaved {},
                save_credentials(&self.new_prf.credential_id, &self.new_prf.prf_salt, "save credential"),
            ),
            Err(e) => RepairStep::Finished(Err(e)),
        }
    }
}

impl AwaitRepairSaved {
    pub fn on_saved(self, result: Result<(), CloudBackupError>) -> (s: RepairStep)
        ensures
            s == RepairStep::Finished(result),
    {
        RepairStep::Finished(result)
    }
}

// ---------------------------------------------------------------------------
// The repair operation of a verification session
// ---------------------------------------------------------------------------

/// Where the passkey of a wrapper repair comes from.
#[derive(Debug)]
pub enum WrapperRepairStrategy {
    CreateNew,
    DiscoverOrCreate,
    /// The credential of an existing passkey.
    ReuseExisting(Vec<u8>),
}

/// The passkey that wraps the master key, to persist in the keychain.
#[derive(Debug)]
pub struct SaveCsppPasskey {
    pub credential_id: Vec<u8>,
    pub prf_salt: [u8; 32],
}

pub enum WrapperRepairStep {
    Prove(AwaitOpProof, KeyProofStep),
    CreatePasskey(AwaitOpCredentials, CreatePrfStep),
    /// Discover a passkey, or create one, without persisting it.
    DiscoverOrCreate(AwaitOpCredentials),
    AuthenticateExisting(AwaitOpReuse, PrfRequest),
    WrapAndUpload(AwaitOpUpload, WrapUploadStep),
    SavePasskey(AwaitOpSaved, SaveCsppPasskey),
    /// Queue the master key record of the namespace for upload.
    EnqueueMasterKeyUpload(AwaitOpEnqueued, String),
    Finished(Result<(), WrapperRepairError>),
}

/// Repairs the wrapper of the master key of a namespace.
pub struct WrapperRepairOperation {
    pub namespace: String,
}

pub struct AwaitOpProof {
    namespace: String,
    local_key: Vec<u8>,
    strategy: WrapperRepairStrategy,
}

pub struct AwaitOpCredentials {
    namespace: String,
    local_key: Vec<u8>,
}

pub struct AwaitOpReuse {
    namespace: String,
    local_key: Vec<u8>,
    prf_salt: [u8; 32],
    credential_id: Vec<u8>,
}

pub struct AwaitOpUpload {
    namespace: String,
    credentials: UnpersistedPrfKey,
}

pub struct AwaitOpSaved {
    namespace: String,
}

pub struct AwaitOpEnqueued {}

impl AwaitOpProof {
    pub closed spec fn spec_namespace(&self) -> Seq<char> {
        self.namespace@
    }

    pub closed spec fn spec_local_key(&self) -> Seq<u8> {
        self.local_key@
    }

    pub closed spec fn spec_strategy(&self) -> WrapperRepairStrategy {
        self.strategy
    }
}

impl AwaitOpCredentials {
    pub closed spec fn spec_namespace(&self) -> Seq<char> {
        self.namespace@
    }

    pub closed spec fn spec_local_key(&self) -> Seq<u8> {
        self.local_key@
    }
}

impl AwaitOpReuse {
    pub closed spec fn spec_namespace(&self) -> Seq<char> {
        self.namespace@
    }

    pub closed spec fn spec_local_key(&self) -> Seq<u8> {
        self.local_key@
    }

    pub closed spec fn spec_prf_salt(&self) -> Seq<u8> {
        self.prf_salt@
    }

    pub closed spec fn spec_credential_id(&self) -> Seq<u8> {
        self.credential_id@
    }
}

impl AwaitOpUpload {
    pub closed spec fn spec_namespace(&self) -> Seq<char> {
        self.namespace@
    }

    pub closed spec fn spec_credential_id(&self) -> Seq<u8> {
        self.credentials.credential_id@
    }

    pub closed spec fn spec_prf_salt(&self) -> Seq<u8> {
        self.credentials.prf_salt@
    }
}

impl AwaitOpSaved {
    pub closed spec fn spec_namespace(&self) -> Seq<char> {
        self.namespace@
    }
}

/// The step obtains the credentials of `strategy` for the repair of
/// `namespace` with `key`.
pub open spec fn obtains_credentials(
    s: WrapperRepairStep,
    strategy: WrapperRepairStrategy,
    namespace: Seq<char>,
    key: Seq<u8>,
) -> bool {
    match strategy {
        WrapperRepairStrategy::CreateNew => s matches WrapperRepairStep::CreatePasskey(w, cp)
            && w.spec_namespace() == namespace && w.spec_local_key() == key && cp is CreatePasskey,
        WrapperRepairStrategy::DiscoverOrCreate => s matches WrapperRepairStep::DiscoverOrCreate(w)
            && w.spec_namespace() == namespace && w.spec_local_key() == key,
        WrapperRepairStrategy::ReuseExisting(id) => s matches WrapperRepairStep::AuthenticateExisting(
            w,
            req,
        ) && w.spec_namespace() == namespace && w.spec_local_key() == key && w.spec_credential_id()
            == id@ && is_prf_request(req, id@, w.spec_prf_salt()),
    }
}

/// The step wraps `key` under `k` and uploads it to `namespace`.
pub open spec fn op_wraps(s: WrapperRepairStep, namespace: Seq<char>, key: Seq<u8>, k: UnpersistedPrfKey) -> bool {
    s matches WrapperRepairStep::WrapAndUpload(w, wu) && w.spec_namespace() == namespace
        && w.spec_credential_id() == k.credential_id@ && w.spec_prf_salt() == k.prf_salt@ && wraps(
        wu,
        namespace,
        key,
        k,
    )
}

fn credentials(namespace: String, local_key: Vec<u8>, strategy: WrapperRepairStrategy) -> (s:
    WrapperRepairStep)
    ensures
        obtains_credentials(s, strategy, namespace@, local_key@),
{
    match strategy {
        WrapperRepairStrategy::CreateNew => WrapperRepairStep::CreatePasskey(
            AwaitOpCredentials { namespace, local_key },
            create_prf_key_without_persisting(),
        ),
        WrapperRepairStrategy::DiscoverOrCreate => WrapperRepairStep::DiscoverOrCreate(
            AwaitOpCredentials { namespace, local_key },
        ),
        WrapperRepairStrategy::ReuseExisting(credential_id) => {
            let prf_salt = random_32();
            let req = prf_request(&credential_id, &prf_salt);
            WrapperRepairStep::AuthenticateExisting(
                AwaitOpReuse { namespace, local_key, prf_salt, credential_id },
                req,
            )
        },
    }
}

fn op_wrap(namespace: String, local_key: Vec<u8>, k: UnpersistedPrfKey) -> (s: WrapperRepairStep)
    ensures
        op_wraps(s, namespace@, local_key@, k),
{
    let wu = wrap_and_upload(&namespace, &local_key, &k.prf_key, &k.prf_salt);
    WrapperRepairStep::WrapAndUpload(AwaitOpUpload { namespace, credentials: k }, wu)
}

impl WrapperRepairOperation {
    pub fn new(namespace: String) -> (op: WrapperRepairOperation)
        ensures
            op.namespace == namespace,
    {
        WrapperRepairOperation { namespace }
    }

    /// Repairs the wrapper with `local_master_key`: the key must open one of
    /// the listed wallet backups (when there are any); then the strategy
    /// gives a passkey, the key is wrapped under it and uploaded, the passkey
    /// is persisted and the master key record is queued for upload.
    pub fn run(&self, local_master_key: &Vec<u8>, wallet_record_ids: Vec<String>, strategy: WrapperRepairStrategy) -> (s:
        WrapperRepairStep)
        ensures
            wallet_record_ids.len() > 0 ==> (s matches WrapperRepairStep::Prove(w, p)
                && w.spec_namespace() == self.namespace@ && w.spec_local_key() == local_master_key@
                && w.spec_strategy() == strategy && starts_proof(
                p,
                self.namespace@,
                wallet_record_ids@,
                local_master_key@,
            )),
            wallet_record_ids.len() == 0 ==> obtains_credentials(
                s,
                strategy,
                self.namespace@,
                local_master_key@,
            ),
    {
        if wallet_record_ids.len() == 0 {
            return credentials(self.namespace.clone(), copy_bytes(local_master_key), strategy);
        }
        let p = prove_local_key(&self.namespace, wallet_record_ids, local_master_key);
        WrapperRepairStep::Prove(
            AwaitOpProof {
                namespace: self.namespace.clone(),
                local_key: copy_bytes(local_master_key),
                strategy,
            },
            p,
        )
    }
}

impl AwaitOpProof {
    /// A proven key goes on to its credentials; a refuted or unproven key
    /// stops the repair.
    pub fn on_proved(self, proof_result: LocalKeyProof) -> (s: WrapperRepairStep)
        ensures
            proof_result is Verified ==> obtains_credentials(
                s,
                self.spec_strategy(),
                self.spec_namespace(),
                self.spec_local_key(),
            ),
            proof_result is WrongKey ==> s == WrapperRepairStep::Finished(
                Err::<(), WrapperRepairError>(WrapperRepairError::WrongKey),
            ),
            proof_result is Inconclusive ==> s == WrapperRepairStep::Finished(
                Err::<(), WrapperRepairError>(WrapperRepairError::Inconclusive),
            ),
    {
        match proof_result {
            LocalKeyProof::Verified => credentials(self.namespace, self.local_key, self.strategy),
            LocalKeyProof::WrongKey => WrapperRepairStep::Finished(Err(WrapperRepairError::WrongKey)),
            LocalKeyProof::Inconclusive => WrapperRepairStep::Finished(
                Err(WrapperRepairError::Inconclusive),
            ),
        }
    }
}

impl AwaitOpCredentials {
    pub fn on_credentials(self, result: Result<UnpersistedPrfKey, CloudBackupError>) -> (s:
        WrapperRepairStep)
        ensures
            result matches Ok(k) ==> op_wraps(s, self.spec_namespace(), self.spec_local_key(), k),
            result matches Err(e) ==> s == WrapperRepairStep::Finished(
                Err::<(), WrapperRepairError>(WrapperRepairError::Operation(e)),
            ),
    {
        match result {
            Ok(k) => op_wrap(self.namespace, self.local_key, k),
            Err(e) => WrapperRepairStep::Finished(Err(WrapperRepairError::Operation(e))),
        }
    }
}

impl AwaitOpReuse {
    /// The existing passkey gives the PRF key for the fresh salt; a failure
    /// is a passkey error, an output of the wrong size an internal error.
    pub fn on_assertion(self, result: Result<Vec<u8>, PasskeyError>) -> (s: WrapperRepairStep)
        ensures
            result matches Ok(out) ==> (out@.len() == 32 ==> (s matches WrapperRepairStep::WrapAndUpload(
                w,
                _,
            ) && w.spec_namespace() == self.spec_namespace() && w.spec_credential_id()
                == self.spec_credential_id() && w.spec_prf_salt() == self.spec_prf_salt())),
            result matches Ok(out) ==> (out@.len() != 32 ==> (s matches WrapperRepairStep::Finished(
                Err(WrapperRepairError::Operation(e)),
            ) && is_bad_prf_size_error(e))),
            result matches Err(pe) ==> (s matches WrapperRepairStep::Finished(
                Err(WrapperRepairError::Operation(CloudBackupError::Passkey(m))),
            ) && m@ == pe.spec_message()),
    {
        match result {
            Ok(out) => {
                if out.len() != 32 {
                    return WrapperRepairStep::Finished(
                        Err(WrapperRepairError::Operation(bad_prf_size_error())),
                    );
                }
                let k = UnpersistedPrfKey {
                    prf_key: bytes_32(&out),
                    prf_salt: self.prf_salt,
                    credential_id: self.credential_id,
                };
                op_wrap(self.namespace, self.local_key, k)
            },
            Err(pe) => WrapperRepairStep::Finished(Err(WrapperRepairError::Operation(passkey_error(&pe)))),
        }
    }
}

impl AwaitOpUpload {
    /// Only after the upload is the passkey persisted.
    pub fn on_uploaded(self, result: Result<(), CloudBackupError>) -> (s: WrapperRepairStep)
        ensures
            result is Ok ==> (s matches WrapperRepairStep::SavePasskey(w, req) && w.spec_namespace()
                == self.spec_namespace() && req.credential_id@ == self.spec_credential_id()
                && req.prf_salt@ == self.spec_prf_salt()),
            result matches Err(e) ==> s == WrapperRepairStep::Finished(
                Err::<(), WrapperRepairError>(WrapperRepairError::Operation(e)),
            ),
    {
        match result {
            Ok(()) => WrapperRepairStep::SavePasskey(
                AwaitOpSaved { namespace: self.namespace },
                SaveCsppPasskey {
                    credential_id: self.credentials.credential_id,
                    prf_salt: self.credentials.prf_salt,
                },
            ),
            Err(e) => WrapperRepairStep::Finished(Err(WrapperRepairError::Operation(e))),
        }
    }
}

impl AwaitOpSaved {
    pub fn on_saved(self, result: Result<(), String>) -> (s: WrapperRepairStep)
        ensures
            result is Ok ==> (s matches WrapperRepairStep::EnqueueMasterKeyUpload(_, ns) && ns@
                == self.spec_namespace()),
            result matches Err(e) ==> (s matches WrapperRepairStep::Finished(
                Err(WrapperRepairError::Operation(err)),
            ) && is_prefixed_internal(err, "save cspp credentials"@, e@)),
    {
        match result {
            Ok(()) => WrapperRepairStep::EnqueueMasterKeyUpload(AwaitOpEnqueued {}, self.namespace),
            Err(e) => WrapperRepairStep::Finished(
                Err(WrapperRepairError::Operation(internal_with_prefix("save cspp credentials", &e))),
            ),
        }
    }
}

impl AwaitOpEnqueued {
    pub fn on_enqueued(self, result: Result<(), CloudBackupError>) -> (s: WrapperRepairStep)
        ensures
            result is Ok ==> s == WrapperRepairStep::Finished(Ok::<(), WrapperRepairError>(())),
            result matches Err(e) ==> s == WrapperRepairStep::Finished(
                Err::<(), WrapperRepairError>(WrapperRepairError::Operation(e)),
            ),
    {
        match result {
            Ok(()) => WrapperRepairStep::Finished(Ok(())),
            Err(e) => WrapperRepairStep::Finished(Err(WrapperRepairError::Operation(e))),
        }
    }
}

} // verus!
