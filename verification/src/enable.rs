//! Enabling the cloud backup: a fresh passkey wraps the master key, the
//! wrapped key and every wallet are uploaded, and only then is the
//! namespace saved on the device.

use vstd::prelude::*;
use vstd::string::*;
use crate::credentials::{internal_with_prefix, obtain_prf_key, KeychainWrite, ObtainPrfStep, NAMESPACE_ID_KEY};
use crate::inventory::LocalWallet;
use crate::master_key::{wrap_and_upload, WrapUploadStep};
use crate::model::{CloudBackupError, CloudBackupReconcileMessage, CloudBackupState};
use crate::uploads::{is_prefixed_internal, starts_uploads, upload_all_wallets, UploadAllStep};

verus! {

/// The keychain's master key, with the namespace it names.
#[derive(Debug)]
pub struct NamespacedMasterKey {
    pub master_key: Vec<u8>,
    pub namespace_id: String,
}

pub enum EnableStep {
    /// Send the message to the UI, then go on.
    Notify(AwaitEnableSent, CloudBackupReconcileMessage),
    /// Whether the device's passkeys support the PRF extension.
    CheckPrfSupport(AwaitPrfSupport),
    /// Get the keychain's master key, creating one if there is none.
    LoadMasterKey(AwaitEnableMasterKey),
    ObtainPrf(AwaitEnablePrf, ObtainPrfStep),
    WrapAndUpload(AwaitEnableMasterUpload, WrapUploadStep),
    LoadLocalWallets(AwaitEnableLocals),
    UploadAll(AwaitEnableWallets, UploadAllStep),
    SaveNamespace(AwaitEnableNamespaceSaved, KeychainWrite),
    Finished(Result<(), CloudBackupError>),
}

pub struct AwaitEnableSent {
    next: Box<EnableStep>,
}

impl AwaitEnableSent {
    /// The step after the message is sent.
    pub closed spec fn spec_next(&self) -> EnableStep {
        *self.next
    }

    pub fn on_sent(self) -> (s: EnableStep)
        ensures
            s == self.spec_next(),
    {
        *self.next
    }
}

fn notify(message: CloudBackupReconcileMessage, next: EnableStep) -> (s: EnableStep)
    ensures
        s matches EnableStep::Notify(w, m) && m == message && w.spec_next() == next,
{
    EnableStep::Notify(AwaitEnableSent { next: Box::new(next) }, message)
}

pub struct AwaitPrfSupport {}

pub struct AwaitEnableMasterKey {}

/// The master key being backed up and its namespace.
pub struct EnableKey {
    pub master_key: Vec<u8>,
    pub namespace: String,
}

pub struct AwaitEnablePrf {
    key: EnableKey,
}

pub struct AwaitEnableMasterUpload {
    key: EnableKey,
}

pub struct AwaitEnableLocals {
    key: EnableKey,
}

pub struct AwaitEnableWallets {
    namespace: String,
}

pub struct AwaitEnableNamespaceSaved {}

impl AwaitEnablePrf {
    pub closed spec fn spec_key(&self) -> EnableKey {
        self.key
    }
}

impl AwaitEnableMasterUpload {
    pub closed spec fn spec_key(&self) -> EnableKey {
        self.key
    }
}

impl AwaitEnableLocals {
    pub closed spec fn spec_key(&self) -> EnableKey {
        self.key
    }
}

impl AwaitEnableWallets {
    pub closed spec fn spec_namespace(&self) -> Seq<char> {
        self.namespace@
    }
}

/// The error of a device whose passkeys lack the PRF extension.
pub open spec fn is_prf_unsupported_error(e: CloudBackupError) -> bool {
    e matches CloudBackupError::NotSupported(m) && m@ == "PRF extension not supported on this device"@
}

/// The step announces the enabled backup: the completion, then the enabled
/// state, then success.
pub open spec fn announces_enabled(s: EnableStep) -> bool {
    s matches EnableStep::Notify(w, m) && m == CloudBackupReconcileMessage::EnableComplete
        && announces_enabled_state(w.spec_next())
}

pub open spec fn announces_enabled_state(s: EnableStep) -> bool {
    s matches EnableStep::Notify(w, m) && m == CloudBackupReconcileMessage::StateChanged(
        CloudBackupState::Enabled,
    ) && w.spec_next() == EnableStep::Finished(Ok::<(), CloudBackupError>(()))
}

/// Enables the cloud backup (idempotent, safe to retry): the UI learns that
/// the backup is being enabled, then PRF support is checked.
pub fn do_enable_cloud_backup() -> (s: EnableStep)
    ensures
        s matches EnableStep::Notify(w, m) && m == CloudBackupReconcileMessage::StateChanged(
            CloudBackupState::Enabling,
        ) && w.spec_next() is CheckPrfSupport,
{
    notify(
        CloudBackupReconcileMessage::StateChanged(CloudBackupState::Enabling),
        EnableStep::CheckPrfSupport(AwaitPrfSupport {}),
    )
}

impl AwaitPrfSupport {
    pub fn on_prf_support(self, supported: bool) -> (s: EnableStep)
        ensures
            !supported ==> (s matches EnableStep::Finished(Err(e)) && is_prf_unsupported_error(e)),
            supported ==> s is LoadMasterKey,
    {
        if !supported {
            return EnableStep::Finished(
                Err(
                    CloudBackupError::NotSupported(
                        String::from_str("PRF extension not supported on this device"),
                    ),
                ),
            );
        }
        EnableStep::LoadMasterKey(AwaitEnableMasterKey {})
    }
}

impl AwaitEnableMasterKey {
    /// A fresh passkey is obtained for the master key and its namespace.
    pub fn on_master_key(self, key: Result<NamespacedMasterKey, String>) -> (s: EnableStep)
        ensures
            key matches Err(e) ==> (s matches EnableStep::Finished(Err(err)) && is_prefixed_internal(
                err,
                "master key"@,
                e@,
            )),
            key matches Ok(k) ==> (s matches EnableStep::ObtainPrf(w, o) && o is ClearStaleCredentials
                && w.spec_key().master_key@ == k.master_key@ && w.spec_key().namespace@
                == k.namespace_id@),
    {
        match key {
            Err(e) => EnableStep::Finished(Err(internal_with_prefix("master key", &e))),
            Ok(k) => EnableStep::ObtainPrf(
                AwaitEnablePrf { key: EnableKey { master_key: k.master_key, namespace: k.namespace_id } },
                obtain_prf_key(),
            ),
        }
    }
}

impl AwaitEnablePrf {
    /// The master key is wrapped with the new PRF key and uploaded.
    pub fn on_prf(self, result: Result<([u8; 32], [u8; 32]), CloudBackupError>) -> (s: EnableStep)
        ensures
            result matches Err(e) ==> s == EnableStep::Finished(Err(e)),
            result matches Ok(r) ==> (s matches EnableStep::WrapAndUpload(
                w,
                WrapUploadStep::Encrypt(u, req),
            ) && w.spec_key() == self.spec_key() && u.spec_namespace()
                == self.spec_key().namespace@ && req.master_key@ == self.spec_key().master_key@
                && req.prf_key == r.0 && req.prf_salt == r.1),
    {
        match result {
            Err(e) => EnableStep::Finished(Err(e)),
            Ok((prf_key, prf_salt)) => {
                let step = wrap_and_upload(&self.key.namespace, &self.key.master_key, &prf_key, &prf_salt);
                EnableStep::WrapAndUpload(AwaitEnableMasterUpload { key: self.key }, step)
            },
        }
    }
}

impl AwaitEnableMasterUpload {
    /// Once the wrapped key is in the cloud, the local wallets are uploaded.
    pub fn on_uploaded(self, result: Result<(), CloudBackupError>) -> (s: EnableStep)
        ensures
            result matches Err(e) ==> s == EnableStep::Finished(Err(e)),
            result is Ok ==> (s matches EnableStep::LoadLocalWallets(w) && w.spec_key()
                == self.spec_key()),
    {
        match result {
            Err(e) => EnableStep::Finished(Err(e)),
            Ok(()) => EnableStep::LoadLocalWallets(AwaitEnableLocals { key: self.key }),
        }
    }
}

impl AwaitEnableLocals {
    pub fn on_local_wallets(self, wallets: Vec<LocalWallet>) -> (s: EnableStep)
        requires
            wallets.len() <= u32::MAX,
        ensures
            s matches EnableStep::UploadAll(w, UploadAllStep::Uploading(_, up)) && starts_uploads(
                up,
                self.spec_key().namespace@,
                wallets@,
                self.spec_key().master_key@,
            ) && w.spec_namespace() == self.spec_key().namespace@,
    {
        let step = upload_all_wallets(&self.key.namespace, &self.key.master_key, wallets);
        EnableStep::UploadAll(AwaitEnableWallets { namespace: self.key.namespace }, step)
    }
}

impl AwaitEnableWallets {
    /// Only after every upload succeeded is the namespace saved.
    pub fn on_uploaded(self, result: Result<(), CloudBackupError>) -> (s: EnableStep)
        ensures
            result matches Err(e) ==> s == EnableStep::Finished(Err(e)),
            result is Ok ==> (s matches EnableStep::SaveNamespace(_, write) && write.key@
                == NAMESPACE_ID_KEY@ && write.value@ == self.spec_namespace()),
    {
        match result {
            Err(e) => EnableStep::Finished(Err(e)),
            Ok(()) => EnableStep::SaveNamespace(
                AwaitEnableNamespaceSaved {},
                KeychainWrite { key: String::from_str(NAMESPACE_ID_KEY), value: self.namespace },
            ),
        }
    }
}

impl AwaitEnableNamespaceSaved {
    pub fn on_saved(self, result: Result<(), String>) -> (s: EnableStep)
        ensures
            result matches Err(e) ==> (s matches EnableStep::Finished(Err(err)) && is_prefixed_internal(
                err,
                "save namespace_id"@,
                e@,
            )),
            result is Ok ==> announces_enabled(s),
    {
        match result {
            Err(e) => EnableStep::Finished(Err(internal_with_prefix("save namespace_id", &e))),
            Ok(()) => notify(
                CloudBackupReconcileMessage::EnableComplete,
                notify(
                    CloudBackupReconcileMessage::StateChanged(CloudBackupState::Enabled),
                    EnableStep::Finished(Ok(())),
                ),
            ),
        }
    }
}

/// The state the UI is left in when enabling or restoring fails: an error
/// with the failure's text.
pub fn failure_state(e: &CloudBackupError) -> (s: CloudBackupState)
    ensures
        s matches CloudBackupState::Error(m) && m@ == e.spec_message(),
{
    CloudBackupState::Error(e.message())
}

} // verus!
