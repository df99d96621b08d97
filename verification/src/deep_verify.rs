//! Deep verification of the cloud backup: the master key in the cloud is
//! unwrapped with the passkey and reconciled with the local one, a broken
//! wrapper is repaired with the local key once it is proven, and every
//! wallet backup is checked.

use vstd::prelude::*;
use vstd::string::*;
use crate::cloud_storage::CloudStorageError;
use crate::credentials::{
    create_prf_key_without_persisting, internal_with_prefix, CreatePrfStep, FallbackAuthStep,
    authenticate_with_fallback, PrfAuthentication, UnpersistedPrfKey,
};
use crate::inventory::{build_detail_from_wallet_ids, unsynced, unsynced_wallets, texts, LocalWallet};
use crate::manager::{current_namespace_id, is_missing_namespace_error};
use crate::master_key::{
    same_bytes, save_credentials, wrap_and_upload, DecryptMasterKey, MasterKeyFetch, SaveCredentialsStep,
    SaveMasterKey, WrapUploadStep,
};
use crate::model::{
    copy_bytes, copy_opt_detail, opt_detail_view, CloudBackup, CloudBackupDetail,
    CloudBackupDetailView, CloudBackupError, DeepVerificationFailure, DeepVerificationReport,
    DeepVerificationResult,
};
use crate::text::{contains_bytes, contains_text, decimal, decimal_text};
use vstd::utf8::encode_utf8;
use crate::uploads::{backup_wallets, is_prefixed_internal, BackupStep};
use crate::wallet_checks::{prove_local_key, verify_wallet_backups, KeyProofStep, LocalKeyProof, TallyStep};

verus! {

/// Warning of a failure that only a full re-enable repairs.
pub const REINITIALIZE_WARNING: &'static str = "This will replace your entire cloud backup set. Wallets that only exist in the cloud backup will be lost";

/// Warning of a failure that recreating the wallet list repairs.
pub const RECREATE_WARNING: &'static str = "Recreating from this device will remove references to wallets that only exist in the cloud backup";

/// What a deep verification knows so far.
pub struct DeepCtxView {
    pub namespace: Seq<char>,
    pub local_master_key: Option<Seq<u8>>,
    pub wallets_missing: bool,
    pub wallet_ids: Option<Seq<String>>,
    pub credential_recovered: bool,
    pub master_key_wrapper_repaired: bool,
    pub local_master_key_repaired: bool,
    pub detail: Option<CloudBackupDetailView>,
    pub counts: (u32, u32, u32),
}

/// The state of a deep verification.
pub struct DeepCtx {
    namespace: String,
    local_master_key: Option<Vec<u8>>,
    wallets_missing: bool,
    wallet_ids: Option<Vec<String>>,
    credential_recovered: bool,
    master_key_wrapper_repaired: bool,
    local_master_key_repaired: bool,
    detail: Option<CloudBackupDetail>,
    counts: (u32, u32, u32),
}

pub open spec fn opt_bytes_view(k: Option<Vec<u8>>) -> Option<Seq<u8>> {
    match k {
        Some(k) => Some(k@),
        None => None,
    }
}

pub open spec fn opt_ids_view(ids: Option<Vec<String>>) -> Option<Seq<String>> {
    match ids {
        Some(ids) => Some(ids@),
        None => None,
    }
}

impl View for DeepCtx {
    type V = DeepCtxView;

    closed spec fn view(&self) -> DeepCtxView {
        DeepCtxView {
            namespace: self.namespace@,
            local_master_key: opt_bytes_view(self.local_master_key),
            wallets_missing: self.wallets_missing,
            wallet_ids: opt_ids_view(self.wallet_ids),
            credential_recovered: self.credential_recovered,
            master_key_wrapper_repaired: self.master_key_wrapper_repaired,
            local_master_key_repaired: self.local_master_key_repaired,
            detail: opt_detail_view(self.detail),
            counts: self.counts,
        }
    }
}

impl DeepCtx {
    #[verifier::type_invariant]
    closed spec fn wf(&self) -> bool {
        match self.wallet_ids {
            Some(ids) => ids.len() <= u32::MAX,
            None => true,
        }
    }

    fn report(self) -> (r: DeepVerificationReport)
        ensures
            report_matches(r, self@),
    {
        DeepVerificationReport {
            master_key_wrapper_repaired: self.master_key_wrapper_repaired,
            local_master_key_repaired: self.local_master_key_repaired,
            credential_recovered: self.credential_recovered,
            wallets_verified: self.counts.0,
            wallets_failed: self.counts.1,
            wallets_unsupported: self.counts.2,
            detail: self.detail,
        }
    }
}

/// The report says what the verification `c` found.
pub open spec fn report_matches(r: DeepVerificationReport, c: DeepCtxView) -> bool {
    &&& r.master_key_wrapper_repaired == c.master_key_wrapper_repaired
    &&& r.local_master_key_repaired == c.local_master_key_repaired
    &&& r.credential_recovered == c.credential_recovered
    &&& (r.wallets_verified, r.wallets_failed, r.wallets_unsupported) == c.counts
    &&& opt_detail_view(r.detail) == c.detail
}

/// The verification ends verified, reporting what `c` found.
pub open spec fn ends_verified(s: DeepVerifyStep, c: DeepCtxView) -> bool {
    s matches DeepVerifyStep::Finished(Ok(DeepVerificationResult::Verified(r))) && report_matches(r, c)
}

/// The verification ends with a failure, to be retried, of the given text.
pub open spec fn ends_retry(s: DeepVerifyStep, message: Seq<char>, detail: Option<CloudBackupDetailView>) -> bool {
    s matches DeepVerifyStep::Finished(
        Ok(DeepVerificationResult::Failed(DeepVerificationFailure::Retry { message: m, detail: d })),
    ) && m@ == message && opt_detail_view(d) == detail
}

/// The verification ends with a failure that only re-enabling repairs.
pub open spec fn ends_reinitialize(
    s: DeepVerifyStep,
    message: Seq<char>,
    detail: Option<CloudBackupDetailView>,
) -> bool {
    s matches DeepVerifyStep::Finished(
        Ok(
            DeepVerificationResult::Failed(
                DeepVerificationFailure::ReinitializeBackup { message: m, detail: d, warning: w },
            ),
        ),
    ) && m@ == message && opt_detail_view(d) == detail && w@ == REINITIALIZE_WARNING@
}

/// The verification ends with a failure that recreating the list repairs:
/// the wallet backups are missing though the master key is sound.
pub open spec fn ends_recreate(s: DeepVerifyStep, detail: Option<CloudBackupDetailView>) -> bool {
    s matches DeepVerifyStep::Finished(
        Ok(
            DeepVerificationResult::Failed(
                DeepVerificationFailure::RecreateManifest { message: m, detail: d, warning: w },
            ),
        ),
    ) && m@ == "wallet backups not found in iCloud namespace"@ && opt_detail_view(d) == detail
        && w@ == RECREATE_WARNING@
}

/// The verification ends with an error.
pub open spec fn ends_error(s: DeepVerifyStep, e: CloudBackupError) -> bool {
    s == DeepVerifyStep::Finished(Err::<DeepVerificationResult, CloudBackupError>(e))
}

/// The next thing a deep verification needs, or its outcome.
pub enum DeepVerifyStep {
    /// Load the local master key from the keychain, bypassing any cache.
    LoadLocalMasterKey(AwaitDeepLocalKey),
    ListWallets(AwaitDeepListing, String),
    /// Read the persisted setting and the local wallets.
    LoadSnapshot(AwaitDeepSnapshot),
    /// Download and parse the wrapped master key of the namespace.
    FetchMasterKey(AwaitDeepMaster, String),
    /// Run the authentication to its end.
    Authenticate(AwaitDeepAuth, FallbackAuthStep),
    DecryptMasterKey(AwaitDeepDecrypt, DecryptMasterKey),
    /// Persist the credential that unwrapped the cloud master key.
    SaveCredentials(AwaitDeepCredentialsSaved, SaveCredentialsStep),
    /// Save the cloud master key as the local one.
    SaveMasterKey(AwaitDeepLocalRepair, SaveMasterKey),
    /// Drop any cached master key.
    ResetMasterKeyCache(AwaitDeepCacheReset),
    /// Run the proof that the local key opens the wallet backups.
    Prove(AwaitDeepProof, KeyProofStep),
    /// Run the creation of a new passkey to its end.
    CreatePasskey(AwaitDeepNewPasskey, CreatePrfStep),
    /// Run the wrap and upload of the local key to its end.
    WrapAndUpload(AwaitDeepRewrapped, WrapUploadStep),
    /// Persist the new passkey, once the wrapped key is uploaded.
    SaveNewCredentials(AwaitDeepNewCredentialsSaved, SaveCredentialsStep),
    /// Run the tally of the wallet backups to its end.
    Tally(AwaitDeepTally, TallyStep),
    /// Read the local wallets.
    LoadLocalWallets(AwaitDeepLocalWallets),
    /// Run the backup of the local wallets that the cloud lacks.
    BackupUnsynced(AwaitDeepBackup, BackupStep),
    ListWalletsAgain(AwaitDeepRelist, String),
    /// Read the persisted setting and the local wallets again.
    LoadRefreshedSnapshot(AwaitDeepRefreshed),
    Finished(Result<DeepVerificationResult, CloudBackupError>),
}

pub struct AwaitDeepLocalKey {
    namespace: String,
}

pub struct AwaitDeepListing {
    ctx: DeepCtx,
}

pub struct AwaitDeepSnapshot {
    ctx: DeepCtx,
}

pub struct AwaitDeepMaster {
    ctx: DeepCtx,
}

pub struct AwaitDeepAuth {
    ctx: DeepCtx,
    prf_salt: [u8; 32],
}

pub struct AwaitDeepDecrypt {
    ctx: DeepCtx,
    prf_salt: [u8; 32],
    credential_id: Vec<u8>,
}

pub struct AwaitDeepCredentialsSaved {
    ctx: DeepCtx,
    master_key: Vec<u8>,
}

pub struct AwaitDeepLocalRepair {
    ctx: DeepCtx,
    master_key: Vec<u8>,
}

pub struct AwaitDeepCacheReset {
    ctx: DeepCtx,
    master_key: Vec<u8>,
}

pub struct AwaitDeepProof {
    ctx: DeepCtx,
    local_key: Vec<u8>,
}

pub struct AwaitDeepNewPasskey {
    ctx: DeepCtx,
    local_key: Vec<u8>,
}

pub struct AwaitDeepRewrapped {
    ctx: DeepCtx,
    local_key: Vec<u8>,
    new_prf: UnpersistedPrfKey,
}

pub struct AwaitDeepNewCredentialsSaved {
    ctx: DeepCtx,
    local_key: Vec<u8>,
}

pub struct AwaitDeepTally {
    ctx: DeepCtx,
}

pub struct AwaitDeepLocalWallets {
    ctx: DeepCtx,
}

pub struct AwaitDeepBackup {
    ctx: DeepCtx,
}

pub struct AwaitDeepRelist {
    ctx: DeepCtx,
}

pub struct AwaitDeepRefreshed {
    ctx: DeepCtx,
    wallet_ids: Vec<String>,
}

impl AwaitDeepLocalKey {
    pub closed spec fn spec_namespace(&self) -> Seq<char> {
        self.namespace@
    }
}

impl AwaitDeepListing {
    pub closed spec fn spec_ctx(&self) -> DeepCtxView {
        self.ctx@
    }
}

impl AwaitDeepSnapshot {
    #[verifier::type_invariant]
    closed spec fn wf(&self) -> bool {
        self.ctx.wallet_ids is Some
    }

    pub closed spec fn spec_ctx(&self) -> DeepCtxView {
        self.ctx@
    }
}

impl AwaitDeepMaster {
    pub closed spec fn spec_ctx(&self) -> DeepCtxView {
        self.ctx@
    }
}

impl AwaitDeepAuth {
    pub closed spec fn spec_ctx(&self) -> DeepCtxView {
        self.ctx@
    }

    pub closed spec fn spec_prf_salt(&self) -> Seq<u8> {
        self.prf_salt@
    }
}

impl AwaitDeepDecrypt {
    pub closed spec fn spec_ctx(&self) -> DeepCtxView {
        self.ctx@
    }

    pub closed spec fn spec_prf_salt(&self) -> Seq<u8> {
        self.prf_salt@
    }

    pub closed spec fn spec_credential_id(&self) -> Seq<u8> {
        self.credential_id@
    }
}

impl AwaitDeepCredentialsSaved {
    pub closed spec fn spec_ctx(&self) -> DeepCtxView {
        self.ctx@
    }

    pub closed spec fn spec_master_key(&self) -> Seq<u8> {
        self.master_key@
    }
}

impl AwaitDeepLocalRepair {
    pub closed spec fn spec_ctx(&self) -> DeepCtxView {
        self.ctx@
    }

    pub closed spec fn spec_master_key(&self) -> Seq<u8> {
        self.master_key@
    }
}

impl AwaitDeepCacheReset {
    pub closed spec fn spec_ctx(&self) -> DeepCtxView {
        self.ctx@
    }

    pub closed spec fn spec_master_key(&self) -> Seq<u8> {
        self.master_key@
    }
}

impl AwaitDeepProof {
    pub closed spec fn spec_ctx(&self) -> DeepCtxView {
        self.ctx@
    }

    pub closed spec fn spec_local_key(&self) -> Seq<u8> {
        self.local_key@
    }
}

impl AwaitDeepNewPasskey {
    pub closed spec fn spec_ctx(&self) -> DeepCtxView {
        self.ctx@
    }

    pub closed spec fn spec_local_key(&self) -> Seq<u8> {
        self.local_key@
    }
}

impl AwaitDeepRewrapped {
    pub closed spec fn spec_ctx(&self) -> DeepCtxView {
        self.ctx@
    }

    pub closed spec fn spec_local_key(&self) -> Seq<u8> {
        self.local_key@
    }

    pub closed spec fn spec_new_salt(&self) -> Seq<u8> {
        self.new_prf.prf_salt@
    }

    pub closed spec fn spec_new_credential(&self) -> Seq<u8> {
        self.new_prf.credential_id@
    }
}

impl AwaitDeepNewCredentialsSaved {
    pub closed spec fn spec_ctx(&self) -> DeepCtxView {
        self.ctx@
    }

    pub closed spec fn spec_local_key(&self) -> Seq<u8> {
        self.local_key@
    }
}

impl AwaitDeepTally {
    #[verifier::type_invariant]
    closed spec fn wf(&self) -> bool {
        self.ctx.wallet_ids is Some
    }

    pub closed spec fn spec_ctx(&self) -> DeepCtxView {
        self.ctx@
    }
}

impl AwaitDeepLocalWallets {
    #[verifier::type_invariant]
    closed spec fn wf(&self) -> bool {
        self.ctx.wallet_ids is Some
    }

    pub closed spec fn spec_ctx(&self) -> DeepCtxView {
        self.ctx@
    }
}

impl AwaitDeepBackup {
    pub closed spec fn spec_ctx(&self) -> DeepCtxView {
        self.ctx@
    }
}

impl AwaitDeepRelist {
    pub closed spec fn spec_ctx(&self) -> DeepCtxView {
        self.ctx@
    }
}

impl AwaitDeepRefreshed {
    pub closed spec fn spec_ctx(&self) -> DeepCtxView {
        self.ctx@
    }

    pub closed spec fn spec_wallet_ids(&self) -> Seq<String> {
        self.wallet_ids@
    }
}

/// The tally `t` starts over the wallets `ids` of `namespace` under `key`.
pub open spec fn starts_tally(t: TallyStep, namespace: Seq<char>, ids: Seq<String>, key: Seq<u8>) -> bool {
    &&& ids.len() == 0 ==> t == TallyStep::Finished((0u32, 0u32, 0u32))
    &&& ids.len() > 0 ==> (t matches TallyStep::Fetch(w, req) && w.spec_tally().spec_record_ids()
        == ids && w.spec_tally().spec_master_key() == key && w.spec_tally().spec_namespace()
        == namespace && w.spec_tally().spec_verdicts().len() == 0 && req.namespace@ == namespace
        && req.record_id == ids[0])
}

/// The proof `p` starts over the wallets `ids` of `namespace` under `key`.
pub open spec fn starts_proof(p: KeyProofStep, namespace: Seq<char>, ids: Seq<String>, key: Seq<u8>) -> bool {
    p matches KeyProofStep::Fetch(w, req) && w.spec_proof().spec_record_ids() == ids
        && w.spec_proof().spec_master_key() == key && w.spec_proof().spec_namespace() == namespace
        && w.spec_proof().spec_verdicts().len() == 0 && req.namespace@ == namespace
        && req.record_id == ids[0]
}

/// Once the master key `key` is settled: missing wallet backups end the
/// verification with a recreate failure; listed ones are tallied under the
/// key; without a listing the verification is done.
pub open spec fn continues_with_master(s: DeepVerifyStep, c: DeepCtxView, key: Seq<u8>) -> bool {
    if c.wallets_missing {
        ends_recreate(s, c.detail)
    } else {
        match c.wallet_ids {
            Some(ids) => s matches DeepVerifyStep::Tally(w, t) && w.spec_ctx() == c && starts_tally(
                t,
                c.namespace,
                ids,
                key,
            ),
            None => ends_verified(s, c),
        }
    }
}

/// With the cloud master key `key` unwrapped: a local key that is missing or
/// differs is replaced by it (the cloud is authoritative); else the
/// verification continues.
pub open spec fn reconciles(s: DeepVerifyStep, c: DeepCtxView, key: Seq<u8>) -> bool {
    if c.local_master_key != Some(key) {
        s matches DeepVerifyStep::SaveMasterKey(w, req) && w.spec_ctx() == c && w.spec_master_key()
            == key && req.master_key@ == key
    } else {
        continues_with_master(s, c, key)
    }
}

/// The wrapper of the cloud master key is repaired with the local key: its
/// proof comes first when there are listed wallets, then a new passkey.
pub open spec fn starts_repair(s: DeepVerifyStep, c: DeepCtxView) -> bool {
    match c.local_master_key {
        Some(local) => match c.wallet_ids {
            Some(ids) => if ids.len() > 0 {
                s matches DeepVerifyStep::Prove(w, p) && w.spec_ctx() == c && w.spec_local_key()
                    == local && starts_proof(p, c.namespace, ids, local)
            } else {
                s matches DeepVerifyStep::CreatePasskey(w, cp) && w.spec_ctx() == c
                    && w.spec_local_key() == local && cp is CreatePasskey
            },
            None => s matches DeepVerifyStep::CreatePasskey(w, cp) && w.spec_ctx() == c
                && w.spec_local_key() == local && cp is CreatePasskey,
        },
        None => false,
    }
}

/// The authentication starts by reading the stored credential, for `salt`.
pub open spec fn auth_started(a: FallbackAuthStep, salt: Seq<u8>) -> bool {
    a matches FallbackAuthStep::LoadStoredCredential(x) && x.spec_prf_salt() == salt
}

/// The step persists `credential_id` as hex, then `salt`; a failed write of
/// the credential is reported with `context`.
pub open spec fn saves_credential(
    sc: SaveCredentialsStep,
    credential_id: Seq<u8>,
    salt: Seq<u8>,
    context: Seq<char>,
) -> bool {
    sc matches SaveCredentialsStep::SaveCredential(x, write) && crate::credentials::is_hex_write(
        write,
        crate::credentials::CREDENTIAL_ID_KEY@,
        credential_id,
    ) && x.spec_prf_salt() == salt && x.spec_credential_context() == context
}

/// The step wraps `key` under the new PRF key `k` and uploads it to
/// `namespace`.
pub open spec fn wraps(wu: WrapUploadStep, namespace: Seq<char>, key: Seq<u8>, k: UnpersistedPrfKey) -> bool {
    wu matches WrapUploadStep::Encrypt(x, req) && x.spec_namespace() == namespace
        && req.master_key@ == key && req.prf_key == k.prf_key && req.prf_salt == k.prf_salt
}

/// The text says that no passkey credential was found.
pub open spec fn says_no_credential(m: Seq<char>) -> bool {
    contains_bytes(encode_utf8(m), encode_utf8("no credential found"@)) || contains_bytes(
        encode_utf8(m),
        encode_utf8("NoCredentialFound"@),
    )
}

fn retry(message: String, detail: &Option<CloudBackupDetail>) -> (s: DeepVerifyStep)
    ensures
        ends_retry(s, message@, opt_detail_view(*detail)),
{
    DeepVerifyStep::Finished(
        Ok(
            DeepVerificationResult::Failed(
                DeepVerificationFailure::Retry { message, detail: copy_opt_detail(detail) },
            ),
        ),
    )
}

fn reinitialize(message: &str, detail: &Option<CloudBackupDetail>) -> (s: DeepVerifyStep)
    ensures
        ends_reinitialize(s, message@, opt_detail_view(*detail)),
{
    DeepVerifyStep::Finished(
        Ok(
            DeepVerificationResult::Failed(
                DeepVerificationFailure::ReinitializeBackup {
                    message: String::from_str(message),
                    detail: copy_opt_detail(detail),
                    warning: String::from_str(REINITIALIZE_WARNING),
                },
            ),
        ),
    )
}

fn recreate(detail: &Option<CloudBackupDetail>) -> (s: DeepVerifyStep)
    ensures
        ends_recreate(s, opt_detail_view(*detail)),
{
    DeepVerifyStep::Finished(
        Ok(
            DeepVerificationResult::Failed(
                DeepVerificationFailure::RecreateManifest {
                    message: String::from_str("wallet backups not found in iCloud namespace"),
                    detail: copy_opt_detail(detail),
                    warning: String::from_str(RECREATE_WARNING),
                },
            ),
        ),
    )
}

fn verified(ctx: DeepCtx) -> (s: DeepVerifyStep)
    ensures
        ends_verified(s, ctx@),
{
    DeepVerifyStep::Finished(Ok(DeepVerificationResult::Verified(ctx.report())))
}

fn continue_with_master(ctx: DeepCtx, key: Vec<u8>) -> (s: DeepVerifyStep)
    ensures
        continues_with_master(s, ctx@, key@),
{
    proof {
        use_type_invariant(&ctx);
    }
    if ctx.wallets_missing {
        return recreate(&ctx.detail);
    }
    match &ctx.wallet_ids {
        Some(ids) => {
            let ids_copy = copy_ids(ids);
            let t = verify_wallet_backups(&ctx.namespace, ids_copy, &key);
            DeepVerifyStep::Tally(AwaitDeepTally { ctx }, t)
        },
        None => verified(ctx),
    }
}

fn copy_ids(ids: &Vec<String>) -> (r: Vec<String>)
    ensures
        r@ == ids@,
{
    let mut r: Vec<String> = Vec::new();
    for i in 0..ids.len()
        invariant
            r@ == ids@.subrange(0, i as int),
    {
        r.push(ids[i].clone());
        assert(r@ =~= ids@.subrange(0, i + 1));
    }
    assert(r@ =~= ids@);
    r
}

fn reconcile(ctx: DeepCtx, key: Vec<u8>) -> (s: DeepVerifyStep)
    ensures
        reconciles(s, ctx@, key@),
{
    let same = match &ctx.local_master_key {
        Some(local) => same_bytes(local, &key),
        None => false,
    };
    if !same {
        let req = SaveMasterKey { master_key: copy_bytes(&key) };
        return DeepVerifyStep::SaveMasterKey(AwaitDeepLocalRepair { ctx, master_key: key }, req);
    }
    continue_with_master(ctx, key)
}

fn start_repair(ctx: DeepCtx) -> (s: DeepVerifyStep)
    requires
        ctx@.local_master_key is Some,
    ensures
        starts_repair(s, ctx@),
{
    let local = match &ctx.local_master_key {
        Some(k) => copy_bytes(k),
        None => Vec::new(),
    };
    let n = match &ctx.wallet_ids {
        Some(ids) => ids.len(),
        None => 0,
    };
    if n > 0 {
        let ids = match &ctx.wallet_ids {
            Some(ids) => copy_ids(ids),
            None => Vec::new(),
        };
        let p = prove_local_key(&ctx.namespace, ids, &local);
        return DeepVerifyStep::Prove(AwaitDeepProof { ctx, local_key: local }, p);
    }
    DeepVerifyStep::CreatePasskey(
        AwaitDeepNewPasskey { ctx, local_key: local },
        create_prf_key_without_persisting(),
    )
}

/// Starts a deep verification of the backup in the namespace that the
/// keychain entry `NAMESPACE_ID_KEY` holds, given as `stored_namespace`.
pub fn do_deep_verify_cloud_backup(stored_namespace: Option<String>) -> (s: DeepVerifyStep)
    ensures
        stored_namespace matches Some(ns) ==> (s matches DeepVerifyStep::LoadLocalMasterKey(w)
            && w.spec_namespace() == ns@),
        stored_namespace is None ==> (s matches DeepVerifyStep::Finished(Err(e))
            && is_missing_namespace_error(e)),
{
    match current_namespace_id(stored_namespace) {
        Ok(namespace) => DeepVerifyStep::LoadLocalMasterKey(AwaitDeepLocalKey { namespace }),
        Err(e) => DeepVerifyStep::Finished(Err(e)),
    }
}

impl AwaitDeepLocalKey {
    /// The local key (or its absence) is remembered and the wallet backups
    /// are listed; an error reading it ends the verification.
    pub fn on_local_master_key(self, result: Result<Option<Vec<u8>>, String>) -> (s: DeepVerifyStep)
        ensures
            result matches Ok(k) ==> (s matches DeepVerifyStep::ListWallets(w, ns) && ns@
                == self.spec_namespace() && w.spec_ctx() == (DeepCtxView {
                namespace: self.spec_namespace(),
                local_master_key: opt_bytes_view(k),
                wallets_missing: false,
                wallet_ids: None,
                credential_recovered: false,
                master_key_wrapper_repaired: false,
                local_master_key_repaired: false,
                detail: None,
                counts: (0u32, 0u32, 0u32),
            })),
            result matches Err(e) ==> (s matches DeepVerifyStep::Finished(Err(err))
                && is_prefixed_internal(err, "load local master key"@, e@)),
    {
        match result {
            Ok(local_master_key) => {
                let ns = self.namespace.clone();
                let ctx = DeepCtx {
                    namespace: self.namespace,
                    local_master_key,
                    wallets_missing: false,
                    wallet_ids: None,
                    credential_recovered: false,
                    master_key_wrapper_repaired: false,
                    local_master_key_repaired: false,
                    detail: None,
                    counts: (0, 0, 0),
                };
                DeepVerifyStep::ListWallets(AwaitDeepListing { ctx }, ns)
            },
            Err(e) => DeepVerifyStep::Finished(Err(internal_with_prefix("load local master key", &e))),
        }
    }
}

impl AwaitDeepListing {
    /// A listing is remembered and described; a namespace without wallet
    /// backups is remembered as missing; any other error is to be retried.
    pub fn on_listed(self, result: Result<Vec<String>, CloudStorageError>) -> (s: DeepVerifyStep)
        requires
            result matches Ok(ids) ==> ids.len() <= u32::MAX,
        ensures
            result matches Ok(ids) ==> (s matches DeepVerifyStep::LoadSnapshot(w) && w.spec_ctx()
                == (DeepCtxView { wallet_ids: Some(ids@), ..self.spec_ctx() })),
            result matches Err(e) ==> (e is NotFound ==> (s matches DeepVerifyStep::FetchMasterKey(
                w,
                ns,
            ) && ns@ == self.spec_ctx().namespace && w.spec_ctx() == (DeepCtxView {
                wallets_missing: true,
                ..self.spec_ctx()
            }))),
            result matches Err(e) ==> (!(e is NotFound) ==> ends_retry(
                s,
                "failed to list wallet backups: "@ + e.spec_message(),
                None,
            )),
    {
        let mut ctx = self.ctx;
        proof {
            use_type_invariant(&ctx);
        }
        match result {
            Ok(ids) => {
                ctx.wallet_ids = Some(ids);
                DeepVerifyStep::LoadSnapshot(AwaitDeepSnapshot { ctx })
            },
            Err(CloudStorageError::NotFound(_)) => {
                ctx.wallets_missing = true;
                let ns = ctx.namespace.clone();
                DeepVerifyStep::FetchMasterKey(AwaitDeepMaster { ctx }, ns)
            },
            Err(e) => retry(String::from_str("failed to list wallet backups: ").concat(e.message().as_str()), &None),
        }
    }
}

impl AwaitDeepSnapshot {
    /// The detail of the listing against the local wallets is remembered and
    /// the wrapped master key is fetched.
    pub fn on_snapshot(self, setting: CloudBackup, local: Vec<LocalWallet>) -> (s: DeepVerifyStep)
        ensures
            s matches DeepVerifyStep::FetchMasterKey(w, ns) && ns@ == self.spec_ctx().namespace
                && w.spec_ctx() == (DeepCtxView {
                detail: Some(
                    crate::inventory::built_detail(
                        setting.spec_last_sync(),
                        local@,
                        self.spec_ctx().wallet_ids->Some_0,
                    ),
                ),
                ..self.spec_ctx()
            }),
    {
        proof {
            use_type_invariant(&self);
        }
        let mut ctx = self.ctx;
        proof {
            use_type_invariant(&ctx);
        }
        let detail = match &ctx.wallet_ids {
            Some(ids) => build_detail_from_wallet_ids(setting.last_sync(), &local, ids),
            None => build_detail_from_wallet_ids(setting.last_sync(), &local, &Vec::new()),
        };
        ctx.detail = Some(detail);
        let ns = ctx.namespace.clone();
        DeepVerifyStep::FetchMasterKey(AwaitDeepMaster { ctx }, ns)
    }
}

impl AwaitDeepMaster {
    /// A wrapped key of the supported version is unwrapped after passkey
    /// authentication with its salt; another version is never touched; a
    /// missing key is repaired from the local key, or needs a re-enable
    /// without one; an unreadable key is an error; other failures are to be
    /// retried.
    pub fn on_master_key_fetched(self, fetch: MasterKeyFetch) -> (s: DeepVerifyStep)
        ensures
            fetch matches MasterKeyFetch::Unreadable(e) ==> ends_error(
                s,
                CloudBackupError::Internal(e),
            ),
            fetch matches MasterKeyFetch::Envelope { version, prf_salt } ==> (version != 1 ==> (
            s matches DeepVerifyStep::Finished(
                Ok(
                    DeepVerificationResult::Failed(
                        DeepVerificationFailure::UnsupportedVersion { message: m, detail: d },
                    ),
                ),
            ) && m@ == "master key backup version "@ + decimal(version as nat)
                + " is not supported"@ && opt_detail_view(d) == self.spec_ctx().detail)),
            fetch matches MasterKeyFetch::Envelope { version, prf_salt } ==> (version == 1 ==> (
            s matches DeepVerifyStep::Authenticate(w, a) && w.spec_ctx() == self.spec_ctx()
                && w.spec_prf_salt() == prf_salt@ && auth_started(a, prf_salt@))),
            fetch matches MasterKeyFetch::Failed(e) ==> (e is NotFound
                && self.spec_ctx().local_master_key is Some ==> starts_repair(s, self.spec_ctx())),
            fetch matches MasterKeyFetch::Failed(e) ==> (e is NotFound
                && self.spec_ctx().local_master_key is None ==> ends_reinitialize(
                s,
                "master key backup not found in iCloud and no local key"@,
                self.spec_ctx().detail,
            )),
            fetch matches MasterKeyFetch::Failed(e) ==> (!(e is NotFound) ==> ends_retry(
                s,
                "failed to download master key backup: "@ + e.spec_message(),
                self.spec_ctx().detail,
            )),
    {
        let ctx = self.ctx;
        match fetch {
            MasterKeyFetch::Unreadable(e) => DeepVerifyStep::Finished(Err(CloudBackupError::Internal(e))),
            MasterKeyFetch::Envelope { version, prf_salt } => {
                if version != 1 {
                    let message = String::from_str("master key backup version ").concat(
                        decimal_text(version).as_str(),
                    ).concat(" is not supported");
                    return DeepVerifyStep::Finished(
                        Ok(
                            DeepVerificationResult::Failed(
                                DeepVerificationFailure::UnsupportedVersion {
                                    message,
                                    detail: copy_opt_detail(&ctx.detail),
                                },
                            ),
                        ),
                    );
                }
                let a = authenticate_with_fallback(&prf_salt);
                DeepVerifyStep::Authenticate(AwaitDeepAuth { ctx, prf_salt }, a)
            },
            MasterKeyFetch::Failed(CloudStorageError::NotFound(_)) => {
                if ctx.local_master_key.is_some() {
                    start_repair(ctx)
                } else {
                    reinitialize("master key backup not found in iCloud and no local key", &ctx.detail)
                }
            },
            MasterKeyFetch::Failed(e) => retry(
                String::from_str("failed to download master key backup: ").concat(e.message().as_str()),
                &ctx.detail,
            ),
        }
    }
}

impl AwaitDeepAuth {
    /// An authenticated passkey unwraps the cloud key; a cancellation ends
    /// the verification as cancelled; a missing credential repairs the
    /// wrapper from the local key, or needs a re-enable without one; any
    /// other failure is to be retried.
    pub fn on_authenticated(self, result: Result<PrfAuthentication, CloudBackupError>) -> (s:
        DeepVerifyStep)
        ensures
            result matches Ok(a) ==> (s matches DeepVerifyStep::DecryptMasterKey(w, req) && req.prf_key
                == a.0 && w.spec_credential_id() == a.1@ && w.spec_prf_salt() == self.spec_prf_salt()
                && w.spec_ctx() == (DeepCtxView { credential_recovered: a.2, ..self.spec_ctx() })),
            result matches Err(e) ==> (e matches CloudBackupError::Passkey(m) && m@
                == "user cancelled"@ ==> (s matches DeepVerifyStep::Finished(
                Ok(DeepVerificationResult::UserCancelled(d)),
            ) && opt_detail_view(d) == self.spec_ctx().detail)),
            result matches Err(e) ==> (e matches CloudBackupError::Passkey(m) && m@
                != "user cancelled"@ && says_no_credential(m@) ==> (
            if self.spec_ctx().local_master_key is Some {
                starts_repair(s, self.spec_ctx())
            } else {
                ends_reinitialize(s, "no passkey found and no local master key"@, self.spec_ctx().detail)
            })),
            result matches Err(e) ==> (!(e matches CloudBackupError::Passkey(m) && (m@
                == "user cancelled"@ || says_no_credential(m@))) ==> ends_retry(
                s,
                "passkey authentication failed: "@ + e.spec_message(),
                self.spec_ctx().detail,
            )),
    {
        let mut ctx = self.ctx;
        proof {
            use_type_invariant(&ctx);
            reveal_strlit("user cancelled");
        }
        match result {
            Ok((prf_key, credential_id, recovered)) => {
                ctx.credential_recovered = recovered;
                DeepVerifyStep::DecryptMasterKey(
                    AwaitDeepDecrypt { ctx, prf_salt: self.prf_salt, credential_id },
                    DecryptMasterKey { prf_key },
                )
            },
            Err(e) => {
                let (cancelled, no_credential) = match &e {
                    CloudBackupError::Passkey(m) => {
                        let cancelled = *m == String::from_str("user cancelled");
                        let no_credential = contains_text(m.as_str(), "no credential found")
                            || contains_text(m.as_str(), "NoCredentialFound");
                        (cancelled, no_credential)
                    },
                    _ => (false, false),
                };
                if cancelled {
                    return DeepVerifyStep::Finished(Ok(DeepVerificationResult::UserCancelled(ctx.detail)));
                }
                if no_credential {
                    if ctx.local_master_key.is_some() {
                        return start_repair(ctx);
                    }
                    return reinitialize("no passkey found and no local master key", &ctx.detail);
                }
                retry(
                    String::from_str("passkey authentication failed: ").concat(e.message().as_str()),
                    &ctx.detail,
                )
            },
        }
    }
}

impl AwaitDeepDecrypt {
    /// An unwrapped cloud key first persists the credential and salt that
    /// unwrapped it; a failed unwrap repairs the wrapper from the local key,
    /// or needs a re-enable without one.
    pub fn on_decrypted(self, result: Result<Vec<u8>, String>) -> (s: DeepVerifyStep)
        ensures
            result matches Ok(key) ==> (s matches DeepVerifyStep::SaveCredentials(w, sc)
                && w.spec_ctx() == self.spec_ctx() && w.spec_master_key() == key@
                && saves_credential(
                sc,
                self.spec_credential_id(),
                self.spec_prf_salt(),
                "save credential_id"@,
            )),
            result is Err && self.spec_ctx().local_master_key is Some ==> starts_repair(
                s,
                self.spec_ctx(),
            ),
            result is Err && self.spec_ctx().local_master_key is None ==> ends_reinitialize(
                s,
                "could not decrypt cloud master key and no local key available"@,
                self.spec_ctx().detail,
            ),
    {
        let ctx = self.ctx;
        match result {
            Ok(master_key) => {
                let sc = save_credentials(&self.credential_id, &self.prf_salt, "save credential_id");
                DeepVerifyStep::SaveCredentials(AwaitDeepCredentialsSaved { ctx, master_key }, sc)
            },
            Err(_) => {
                if ctx.local_master_key.is_some() {
                    start_repair(ctx)
                } else {
                    reinitialize(
                        "could not decrypt cloud master key and no local key available",
                        &ctx.detail,
                    )
                }
            },
        }
    }
}

impl AwaitDeepCredentialsSaved {
    /// With the credential persisted, the local key is reconciled with the
    /// cloud key.
    pub fn on_saved(self, result: Result<(), CloudBackupError>) -> (s: DeepVerifyStep)
        ensures
            result is Ok ==> reconciles(s, self.spec_ctx(), self.spec_master_key()),
            result matches Err(e) ==> ends_error(s, e),
    {
        match result {
            Ok(()) => reconcile(self.ctx, self.master_key),
            Err(e) => DeepVerifyStep::Finished(Err(e)),
        }
    }
}

impl AwaitDeepLocalRepair {
    /// A saved local key is followed by dropping the cached one.
    pub fn on_saved(self, result: Result<(), String>) -> (s: DeepVerifyStep)
        ensures
            result is Ok ==> (s matches DeepVerifyStep::ResetMasterKeyCache(w) && w.spec_ctx()
                == self.spec_ctx() && w.spec_master_key() == self.spec_master_key()),
            result matches Err(e) ==> (s matches DeepVerifyStep::Finished(Err(err))
                && is_prefixed_internal(err, "repair local master key"@, e@)),
    {
        match result {
            Ok(()) => DeepVerifyStep::ResetMasterKeyCache(
                AwaitDeepCacheReset { ctx: self.ctx, master_key: self.master_key },
            ),
            Err(e) => DeepVerifyStep::Finished(Err(internal_with_prefix("repair local master key", &e))),
        }
    }
}

impl AwaitDeepCacheReset {
    /// The local key is reported repaired and the verification continues.
    pub fn on_reset(self) -> (s: DeepVerifyStep)
        ensures
            continues_with_master(
                s,
                DeepCtxView { local_master_key_repaired: true, ..self.spec_ctx() },
                self.spec_master_key(),
            ),
    {
        let mut ctx = self.ctx;
        proof {
            use_type_invariant(&ctx);
        }
        ctx.local_master_key_repaired = true;
        continue_with_master(ctx, self.master_key)
    }
}

impl AwaitDeepProof {
    /// A proven local key is wrapped with a new passkey; a refuted one needs
    /// a re-enable; an inconclusive proof is to be retried.
    pub fn on_proved(self, proof_result: LocalKeyProof) -> (s: DeepVerifyStep)
        ensures
            proof_result is Verified ==> (s matches DeepVerifyStep::CreatePasskey(w, cp)
                && w.spec_ctx() == self.spec_ctx() && w.spec_local_key() == self.spec_local_key()
                && cp is CreatePasskey),
            proof_result is WrongKey ==> ends_reinitialize(
                s,
                "local master key cannot decrypt existing cloud wallet backups"@,
                self.spec_ctx().detail,
            ),
            proof_result is Inconclusive ==> ends_retry(
                s,
                "could not download any wallet to verify local key"@,
                self.spec_ctx().detail,
            ),
    {
        match proof_result {
            LocalKeyProof::Verified => DeepVerifyStep::CreatePasskey(
                AwaitDeepNewPasskey { ctx: self.ctx, local_key: self.local_key },
                create_prf_key_without_persisting(),
            ),
            LocalKeyProof::WrongKey => reinitialize(
                "local master key cannot decrypt existing cloud wallet backups",
                &self.ctx.detail,
            ),
            LocalKeyProof::Inconclusive => retry(
                String::from_str("could not download any wallet to verify local key"),
                &self.ctx.detail,
            ),
        }
    }
}

impl AwaitDeepNewPasskey {
    /// The local key is wrapped under the new PRF key and uploaded, before
    /// anything about the new passkey is persisted.
    pub fn on_created(self, result: Result<UnpersistedPrfKey, CloudBackupError>) -> (s: DeepVerifyStep)
        ensures
            result matches Ok(k) ==> (s matches DeepVerifyStep::WrapAndUpload(w, wu) && w.spec_ctx()
                == self.spec_ctx() && w.spec_local_key() == self.spec_local_key()
                && w.spec_new_salt() == k.prf_salt@ && w.spec_new_credential() == k.credential_id@
                && wraps(wu, self.spec_ctx().namespace, self.spec_local_key(), k)),
            result matches Err(e) ==> ends_error(s, e),
    {
        match result {
            Ok(new_prf) => {
                let wu = wrap_and_upload(
                    &self.ctx.namespace,
                    &self.local_key,
                    &new_prf.prf_key,
                    &new_prf.prf_salt,
                );
                DeepVerifyStep::WrapAndUpload(
                    AwaitDeepRewrapped { ctx: self.ctx, local_key: self.local_key, new_prf },
                    wu,
                )
            },
            Err(e) => DeepVerifyStep::Finished(Err(e)),
        }
    }
}

impl AwaitDeepRewrapped {
    /// Only once the wrapped key is uploaded is the new passkey persisted.
    pub fn on_uploaded(self, result: Result<(), CloudBackupError>) -> (s: DeepVerifyStep)
        ensures
            result is Ok ==> (s matches DeepVerifyStep::SaveNewCredentials(w, sc) && w.spec_ctx()
                == self.spec_ctx() && w.spec_local_key() == self.spec_local_key()
                && saves_credential(
                sc,
                self.spec_new_credential(),
                self.spec_new_salt(),
                "save credential"@,
            )),
            result matches Err(e) ==> ends_error(s, e),
    {
        match result {
            Ok(()) => {
                let sc = save_credentials(
                    &self.new_prf.credential_id,
                    &self.new_prf.prf_salt,
                    "save credential",
                );
                DeepVerifyStep::SaveNewCredentials(
                    AwaitDeepNewCredentialsSaved { ctx: self.ctx, local_key: self.local_key },
                    sc,
                )
            },
            Err(e) => DeepVerifyStep::Finished(Err(e)),
        }
    }
}

impl AwaitDeepNewCredentialsSaved {
    /// The wrapper is reported repaired and the verification continues with
    /// the local key.
    pub fn on_saved(self, result: Result<(), CloudBackupError>) -> (s: DeepVerifyStep)
        ensures
            result is Ok ==> continues_with_master(
                s,
                DeepCtxView { master_key_wrapper_repaired: true, ..self.spec_ctx() },
                self.spec_local_key(),
            ),
            result matches Err(e) ==> ends_error(s, e),
    {
        match result {
            Ok(()) => {
                let mut ctx = self.ctx;
                proof {
                    use_type_invariant(&ctx);
                }
                ctx.master_key_wrapper_repaired = true;
                continue_with_master(ctx, self.local_key)
            },
            Err(e) => DeepVerifyStep::Finished(Err(e)),
        }
    }
}

impl AwaitDeepTally {
    /// The number of listed wallets that the tally examines.
    pub fn listed_count(&self) -> (n: usize)
        ensures
            n == self.spec_ctx().wallet_ids->Some_0.len(),
    {
        proof {
            use_type_invariant(self);
        }
        match &self.ctx.wallet_ids {
            Some(ids) => ids.len(),
            None => 0,
        }
    }

    /// The counts of the tally, one per listed wallet, are reported and the
    /// local wallets are read.
    pub fn on_tallied(self, counts: (u32, u32, u32)) -> (s: DeepVerifyStep)
        requires
            counts.0 + counts.1 + counts.2 == self.spec_ctx().wallet_ids->Some_0.len(),
        ensures
            s matches DeepVerifyStep::LoadLocalWallets(w) && w.spec_ctx() == (DeepCtxView {
                counts,
                ..self.spec_ctx()
            }),
    {
        proof {
            use_type_invariant(&self);
        }
        let mut ctx = self.ctx;
        proof {
            use_type_invariant(&ctx);
        }
        ctx.counts = counts;
        DeepVerifyStep::LoadLocalWallets(AwaitDeepLocalWallets { ctx })
    }
}

impl AwaitDeepLocalWallets {
    /// Local wallets that the listing lacks are backed up; when there are
    /// none, the backup is verified.
    pub fn on_local_wallets(self, local: Vec<LocalWallet>) -> (s: DeepVerifyStep)
        requires
            local.len() <= u32::MAX,
        ensures
            unsynced(local@, texts(self.spec_ctx().wallet_ids->Some_0)).len() == 0 ==> ends_verified(
                s,
                self.spec_ctx(),
            ),
            unsynced(local@, texts(self.spec_ctx().wallet_ids->Some_0)).len() > 0 ==> (
            s matches DeepVerifyStep::BackupUnsynced(w, BackupStep::LoadNamespace(b))
                && w.spec_ctx() == self.spec_ctx() && b.spec_wallets() == unsynced(
                local@,
                texts(self.spec_ctx().wallet_ids->Some_0),
            )),
    {
        proof {
            use_type_invariant(&self);
        }
        let ctx = self.ctx;
        let pending = match &ctx.wallet_ids {
            Some(ids) => unsynced_wallets(&local, ids),
            None => Vec::new(),
        };
        proof {
            local@.lemma_filter_len(
                |w: LocalWallet| !texts(ctx@.wallet_ids->Some_0).contains(w.record_id@),
            );
        }
        if pending.len() == 0 {
            return verified(ctx);
        }
        DeepVerifyStep::BackupUnsynced(AwaitDeepBackup { ctx }, backup_wallets(pending))
    }
}

impl AwaitDeepBackup {
    /// After a successful backup the listing is read again; a failed one
    /// leaves the backup verified as it was.
    pub fn on_backed_up(self, result: Result<(), CloudBackupError>) -> (s: DeepVerifyStep)
        ensures
            result is Ok ==> (s matches DeepVerifyStep::ListWalletsAgain(w, ns) && ns@
                == self.spec_ctx().namespace && w.spec_ctx() == self.spec_ctx()),
            result is Err ==> ends_verified(s, self.spec_ctx()),
    {
        match result {
            Ok(()) => {
                let ns = self.ctx.namespace.clone();
                DeepVerifyStep::ListWalletsAgain(AwaitDeepRelist { ctx: self.ctx }, ns)
            },
            Err(_) => verified(self.ctx),
        }
    }
}

impl AwaitDeepRelist {
    /// A new listing is described again; a failed one leaves the detail as
    /// it was.
    pub fn on_relisted(self, result: Result<Vec<String>, CloudStorageError>) -> (s: DeepVerifyStep)
        ensures
            result matches Ok(ids) ==> (s matches DeepVerifyStep::LoadRefreshedSnapshot(w)
                && w.spec_ctx() == self.spec_ctx() && w.spec_wallet_ids() == ids@),
            result is Err ==> ends_verified(s, self.spec_ctx()),
    {
        match result {
            Ok(wallet_ids) => DeepVerifyStep::LoadRefreshedSnapshot(
                AwaitDeepRefreshed { ctx: self.ctx, wallet_ids },
            ),
            Err(_) => verified(self.ctx),
        }
    }
}

impl AwaitDeepRefreshed {
    /// The backup is verified, with the detail of the new listing.
    pub fn on_snapshot(self, setting: CloudBackup, local: Vec<LocalWallet>) -> (s: DeepVerifyStep)
        ensures
            ends_verified(
                s,
                DeepCtxView {
                    detail: Some(
                        crate::inventory::built_detail(
                            setting.spec_last_sync(),
                            local@,
                            self.spec_wallet_ids(),
                        ),
                    ),
                    ..self.spec_ctx()
                },
            ),
    {
        let mut ctx = self.ctx;
        proof {
            use_type_invariant(&ctx);
        }
        ctx.detail = Some(build_detail_from_wallet_ids(setting.last_sync(), &local, &self.wallet_ids));
        verified(ctx)
    }
}

} // verus!
