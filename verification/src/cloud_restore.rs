//! Restoring a device from the cloud backup: the passkey finds the
//! namespace whose master key it wraps, every wallet of that namespace is
//! restored, and the backup is enabled on the device unless every wallet
//! failed.

use vstd::prelude::*;
use vstd::string::*;
use crate::cloud_storage::CloudStorageError;
use crate::credentials::{
    hex_write, internal_with_prefix, is_hex_write, passkey_error, KeychainWrite, CREDENTIAL_ID_KEY,
    NAMESPACE_ID_KEY, PRF_SALT_KEY,
};
use crate::entropy::{bytes_32, sync_time_now};
use crate::inventory::texts;
use crate::master_key::{supported_master_version, MasterKeyFetch, SaveMasterKey};
use crate::model::{
    copy_bytes, CloudBackup, CloudBackupError, CloudBackupReconcileMessage, CloudBackupRestoreReport,
    CloudBackupState,
};
use crate::passkey::{
    bad_prf_size_error, discovery_request, is_bad_prf_size_error, is_discovery_request,
    DiscoveredPasskey, DiscoveryRequest, PasskeyError,
};
use crate::restore::{restore_single_wallet, KnownFingerprint, RestoreWalletStep};
use crate::text::{decimal, decimal_text};
use crate::uploads::{cloud_error, is_cloud_error, is_prefixed_internal};

verus! {

broadcast use vstd::seq::group_seq_axioms;

// ---------------------------------------------------------------------------
// The report of a restore
// ---------------------------------------------------------------------------

/// How many of the wallet outcomes are successes.
pub open spec fn restored_count(outcomes: Seq<Result<(), CloudBackupError>>) -> nat
    decreases outcomes.len(),
{
    if outcomes.len() == 0 {
        0
    } else {
        restored_count(outcomes.drop_last()) + if outcomes.last() is Ok {
            1nat
        } else {
            0nat
        }
    }
}

/// The texts of the failed wallet outcomes, in order.
pub open spec fn failure_texts(outcomes: Seq<Result<(), CloudBackupError>>) -> Seq<Seq<char>>
    decreases outcomes.len(),
{
    if outcomes.len() == 0 {
        Seq::empty()
    } else {
        match outcomes.last() {
            Ok(()) => failure_texts(outcomes.drop_last()),
            Err(e) => failure_texts(outcomes.drop_last()).push(e.spec_message()),
        }
    }
}

/// The report tells the outcomes of the wallets: how many were restored,
/// how many failed, and the text of each failure in order.
pub open spec fn report_matches(r: CloudBackupRestoreReport, outcomes: Seq<Result<(), CloudBackupError>>) -> bool {
    &&& r.wallets_restored == restored_count(outcomes)
    &&& r.wallets_failed == failure_texts(outcomes).len()
    &&& texts(r.failed_wallet_errors@) == failure_texts(outcomes)
}

/// Every wallet of a restore is counted once: as restored or as failed.
pub proof fn lemma_every_wallet_counted(outcomes: Seq<Result<(), CloudBackupError>>)
    ensures
        restored_count(outcomes) + failure_texts(outcomes).len() == outcomes.len(),
    decreases outcomes.len(),
{
    if outcomes.len() > 0 {
        lemma_every_wallet_counted(outcomes.drop_last());
    }
}

// ---------------------------------------------------------------------------
// Steps
// ---------------------------------------------------------------------------

/// A wrapped master key to unwrap with a PRF key, for the platform: the
/// backup fetched for `namespace`.
#[derive(Debug)]
pub struct UnwrapMasterKey {
    pub namespace: String,
    pub prf_key: [u8; 32],
}

pub enum CloudRestoreStep {
    /// Send the message to the UI, then go on.
    Notify(AwaitSent, CloudBackupReconcileMessage),
    ListNamespaces(AwaitNamespaceList),
    /// Download and parse the master key backup of the first namespace.
    FetchFirstMasterKey(AwaitFirstMasterKey, String),
    Discover(AwaitRestoreDiscovery, DiscoveryRequest),
    /// Download and parse the master key backup of another namespace.
    FetchCandidateMasterKey(AwaitCandidateMasterKey, String),
    UnwrapMasterKey(AwaitUnwrapped, UnwrapMasterKey),
    /// Whether the keychain already holds a master key.
    LoadLocalMasterKey(AwaitLocalKeyPresence),
    /// Save the cloud master key in the keychain (and forget any cached
    /// one).
    SaveMasterKey(AwaitRestoredKeySaved, SaveMasterKey),
    ListWallets(AwaitRestoreWalletList, String),
    /// The fingerprints of the wallets already on the device.
    LoadKnownFingerprints(AwaitKnownFingerprints),
    RestoreWallet(AwaitWalletRestore, RestoreWalletStep),
    WriteKeychain(AwaitRestoreKeychain, KeychainWrite),
    PersistSetting(AwaitSettingPersisted, CloudBackup),
    Finished(Result<(), CloudBackupError>),
}

pub struct AwaitSent {
    next: Box<CloudRestoreStep>,
}

impl AwaitSent {
    /// The step after the message is sent.
    pub closed spec fn spec_next(&self) -> CloudRestoreStep {
        *self.next
    }

    pub fn on_sent(self) -> (s: CloudRestoreStep)
        ensures
            s == self.spec_next(),
    {
        *self.next
    }
}

fn notify(message: CloudBackupReconcileMessage, next: CloudRestoreStep) -> (s: CloudRestoreStep)
    ensures
        s matches CloudRestoreStep::Notify(w, m) && m == message && w.spec_next() == next,
{
    CloudRestoreStep::Notify(AwaitSent { next: Box::new(next) }, message)
}

pub struct AwaitNamespaceList {}

pub struct AwaitFirstMasterKey {
    namespaces: Vec<String>,
}

pub struct AwaitRestoreDiscovery {
    namespaces: Vec<String>,
    prf_salt: [u8; 32],
}

/// What the passkey gave: the PRF key that may unwrap a master key, the
/// salt it was derived with and the credential that produced it, with the
/// namespaces to search.
pub struct PasskeyMatch {
    pub namespaces: Vec<String>,
    pub prf_key: [u8; 32],
    pub prf_salt: [u8; 32],
    pub credential_id: Vec<u8>,
}

pub struct AwaitCandidateMasterKey {
    found: PasskeyMatch,
    next: usize,
}

pub struct AwaitUnwrapped {
    found: PasskeyMatch,
    next: usize,
}

impl AwaitFirstMasterKey {
    #[verifier::type_invariant]
    closed spec fn wf(&self) -> bool {
        self.namespaces.len() > 0
    }

    pub closed spec fn spec_namespaces(&self) -> Seq<String> {
        self.namespaces@
    }
}

impl AwaitRestoreDiscovery {
    #[verifier::type_invariant]
    closed spec fn wf(&self) -> bool {
        self.namespaces.len() > 0
    }

    pub closed spec fn spec_namespaces(&self) -> Seq<String> {
        self.namespaces@
    }

    pub closed spec fn spec_prf_salt(&self) -> Seq<u8> {
        self.prf_salt@
    }
}

impl AwaitCandidateMasterKey {
    #[verifier::type_invariant]
    closed spec fn wf(&self) -> bool {
        self.next < self.found.namespaces.len()
    }

    pub closed spec fn spec_found(&self) -> PasskeyMatch {
        self.found
    }

    /// The index of the namespace under examination.
    pub closed spec fn spec_next(&self) -> int {
        self.next as int
    }
}

impl AwaitUnwrapped {
    #[verifier::type_invariant]
    closed spec fn wf(&self) -> bool {
        self.next < self.found.namespaces.len()
    }

    pub closed spec fn spec_found(&self) -> PasskeyMatch {
        self.found
    }

    /// The index of the namespace under examination.
    pub closed spec fn spec_next(&self) -> int {
        self.next as int
    }
}

/// The error when the cloud holds no backup namespace.
pub open spec fn is_no_namespaces_error(e: CloudBackupError) -> bool {
    e matches CloudBackupError::Internal(m) && m@ == "no cloud backup namespaces found"@
}

/// The error when no namespace's master key opens with the passkey.
pub open spec fn is_no_match_error(e: CloudBackupError) -> bool {
    e matches CloudBackupError::Crypto(m) && m@ == "no namespace matched the passkey"@
}

/// The error of a master key backup in a format this version cannot read.
pub open spec fn is_unsupported_master_error(e: CloudBackupError, version: u32) -> bool {
    e matches CloudBackupError::Internal(m) && m@ == "unsupported master key backup version: "@
        + decimal(version as nat)
}

/// Restores this device from the cloud backup: the UI learns that a restore
/// is under way, then the namespaces are listed.
pub fn do_restore_from_cloud_backup() -> (s: CloudRestoreStep)
    ensures
        s matches CloudRestoreStep::Notify(w, m) && m == CloudBackupReconcileMessage::StateChanged(
            CloudBackupState::Restoring,
        ) && w.spec_next() is ListNamespaces,
{
    notify(
        CloudBackupReconcileMessage::StateChanged(CloudBackupState::Restoring),
        CloudRestoreStep::ListNamespaces(AwaitNamespaceList {}),
    )
}

impl AwaitNamespaceList {
    /// A failed listing is a cloud error and no namespace an internal error;
    /// else the master key backup of the first namespace is fetched.
    pub fn on_listed(self, listing: Result<Vec<String>, CloudStorageError>) -> (s: CloudRestoreStep)
        ensures
            listing matches Err(c) ==> (s matches CloudRestoreStep::Finished(Err(e)) && is_cloud_error(
                e,
                c,
            )),
            listing matches Ok(ns) ==> (ns.len() == 0 ==> (s matches CloudRestoreStep::Finished(
                Err(e),
            ) && is_no_namespaces_error(e))),
            listing matches Ok(ns) ==> (ns.len() > 0 ==> (
            s matches CloudRestoreStep::FetchFirstMasterKey(w, first) && first == ns@[0]
                && w.spec_namespaces() == ns@)),
    {
        match listing {
            Err(c) => CloudRestoreStep::Finished(Err(cloud_error(&c))),
            Ok(namespaces) => {
                if namespaces.len() == 0 {
                    CloudRestoreStep::Finished(
                        Err(CloudBackupError::Internal(String::from_str("no cloud backup namespaces found"))),
                    )
                } else {
                    let first = namespaces[0].clone();
                    CloudRestoreStep::FetchFirstMasterKey(AwaitFirstMasterKey { namespaces }, first)
                }
            },
        }
    }
}

impl AwaitFirstMasterKey {
    /// The first namespace's backup gives the salt of the passkey assertion;
    /// a failed download is a cloud error, an unreadable backup an internal
    /// error, another format version an internal error naming it.
    pub fn on_fetched(self, fetch: MasterKeyFetch) -> (s: CloudRestoreStep)
        ensures
            fetch matches MasterKeyFetch::Failed(c) ==> (s matches CloudRestoreStep::Finished(Err(e))
                && is_cloud_error(e, c)),
            fetch matches MasterKeyFetch::Unreadable(m) ==> s == CloudRestoreStep::Finished(
                Err::<(), CloudBackupError>(CloudBackupError::Internal(m)),
            ),
            fetch matches MasterKeyFetch::Envelope { version, prf_salt } ==> (version
                != supported_master_version() ==> (s matches CloudRestoreStep::Finished(Err(e))
                && is_unsupported_master_error(e, version))),
            fetch matches MasterKeyFetch::Envelope { version, prf_salt } ==> (version
                == supported_master_version() ==> (s matches CloudRestoreStep::Discover(w, req)
                && is_discovery_request(req, prf_salt@) && w.spec_namespaces()
                == self.spec_namespaces() && w.spec_prf_salt() == prf_salt@)),
    {
        match fetch {
            MasterKeyFetch::Failed(c) => CloudRestoreStep::Finished(Err(cloud_error(&c))),
            MasterKeyFetch::Unreadable(m) => CloudRestoreStep::Finished(Err(CloudBackupError::Internal(m))),
            MasterKeyFetch::Envelope { version, prf_salt } => {
                if version != 1 {
                    let m = String::from_str("unsupported master key backup version: ").concat(
                        decimal_text(version).as_str(),
                    );
                    CloudRestoreStep::Finished(Err(CloudBackupError::Internal(m)))
                } else {
                    proof {
                        use_type_invariant(&self);
                    }
                    let req = discovery_request(&prf_salt);
                    CloudRestoreStep::Discover(
                        AwaitRestoreDiscovery { namespaces: self.namespaces, prf_salt },
                        req,
                    )
                }
            },
        }
    }
}

/// The step examines namespace `i` of the match: one equal to the first
/// namespace reuses its fetched backup and is unwrapped at once, another is
/// fetched first; past the last namespace, nothing matched.
pub open spec fn searches(s: CloudRestoreStep, found: PasskeyMatch, i: int) -> bool {
    if i >= found.namespaces@.len() {
        s matches CloudRestoreStep::Finished(Err(e)) && is_no_match_error(e)
    } else if found.namespaces@[i]@ == found.namespaces@[0]@ {
        s matches CloudRestoreStep::UnwrapMasterKey(w, req) && w.spec_found() == found
            && w.spec_next() == i && req.namespace@ == found.namespaces@[i]@ && req.prf_key
            == found.prf_key
    } else {
        s matches CloudRestoreStep::FetchCandidateMasterKey(w, ns) && w.spec_found() == found
            && w.spec_next() == i && ns@ == found.namespaces@[i]@
    }
}

fn search_from(found: PasskeyMatch, i: usize) -> (s: CloudRestoreStep)
    requires
        found.namespaces.len() > 0,
    ensures
        searches(s, found, i as int),
{
    if i >= found.namespaces.len() {
        return CloudRestoreStep::Finished(
            Err(CloudBackupError::Crypto(String::from_str("no namespace matched the passkey"))),
        );
    }
    let ns = found.namespaces[i].clone();
    if ns == found.namespaces[0] {
        let req = UnwrapMasterKey { namespace: ns, prf_key: found.prf_key };
        CloudRestoreStep::UnwrapMasterKey(AwaitUnwrapped { found, next: i }, req)
    } else {
        CloudRestoreStep::FetchCandidateMasterKey(AwaitCandidateMasterKey { found, next: i }, ns)
    }
}

impl AwaitRestoreDiscovery {
    /// A failed assertion is a passkey error and a PRF output of the wrong
    /// size an internal error; else each namespace is tried in order, from
    /// the first.
    pub fn on_discovered(self, result: Result<DiscoveredPasskey, PasskeyError>) -> (s: CloudRestoreStep)
        ensures
            result matches Err(e) ==> (s matches CloudRestoreStep::Finished(
                Err(CloudBackupError::Passkey(m)),
            ) && m@ == e.spec_message()),
            result matches Ok(d) ==> (d.prf_output@.len() != 32 ==> (
            s matches CloudRestoreStep::Finished(Err(e)) && is_bad_prf_size_error(e))),
            result matches Ok(d) ==> (d.prf_output@.len() == 32 ==> exists|found: PasskeyMatch|
                searches(s, found, 0) && found.namespaces@ == self.spec_namespaces()
                    && found.prf_key@ == d.prf_output@ && found.prf_salt@ == self.spec_prf_salt()
                    && found.credential_id@ == d.credential_id@),
    {
        proof {
            use_type_invariant(&self);
        }
        match result {
            Err(e) => CloudRestoreStep::Finished(Err(passkey_error(&e))),
            Ok(d) => {
                if d.prf_output.len() != 32 {
                    return CloudRestoreStep::Finished(Err(bad_prf_size_error()));
                }
                let found = PasskeyMatch {
                    namespaces: self.namespaces,
                    prf_key: bytes_32(&d.prf_output),
                    prf_salt: self.prf_salt,
                    credential_id: d.credential_id,
                };
                let ghost g = found;
                let s = search_from(found, 0);
                assert(searches(s, g, 0));
                s
            },
        }
    }
}

impl AwaitCandidateMasterKey {
    /// A readable backup of the supported format is unwrapped; anything
    /// else skips to the next namespace.
    pub fn on_fetched(self, fetch: MasterKeyFetch) -> (s: CloudRestoreStep)
        ensures
            fetch matches MasterKeyFetch::Envelope { version, prf_salt } && version
                == supported_master_version() ==> (s matches CloudRestoreStep::UnwrapMasterKey(w, req)
                && w.spec_found() == self.spec_found() && w.spec_next() == self.spec_next()
                && req.namespace@ == self.spec_found().namespaces@[self.spec_next()]@ && req.prf_key
                == self.spec_found().prf_key),
            !(fetch matches MasterKeyFetch::Envelope { version, prf_salt } && version
                == supported_master_version()) ==> searches(
                s,
                self.spec_found(),
                self.spec_next() + 1,
            ),
    {
        proof {
            use_type_invariant(&self);
        }
        match fetch {
            MasterKeyFetch::Envelope { version, prf_salt } => {
                if version == 1 {
                    let req = UnwrapMasterKey {
                        namespace: self.found.namespaces[self.next].clone(),
                        prf_key: self.found.prf_key,
                    };
                    return CloudRestoreStep::UnwrapMasterKey(
                        AwaitUnwrapped { found: self.found, next: self.next },
                        req,
                    );
                }
            },
            _ => {},
        }
        search_from(self.found, self.next + 1)
    }
}

/// The namespace whose master key the passkey unwrapped.
pub struct MatchedBackup {
    pub namespace: String,
    pub master_key: Vec<u8>,
    pub credential_id: Vec<u8>,
    pub prf_salt: [u8; 32],
}

pub struct AwaitLocalKeyPresence {
    matched: MatchedBackup,
}

pub struct AwaitRestoredKeySaved {
    matched: MatchedBackup,
}

pub struct AwaitRestoreWalletList {
    matched: MatchedBackup,
    fresh: bool,
}

impl AwaitLocalKeyPresence {
    pub closed spec fn spec_matched(&self) -> MatchedBackup {
        self.matched
    }
}

impl AwaitRestoredKeySaved {
    pub closed spec fn spec_matched(&self) -> MatchedBackup {
        self.matched
    }
}

impl AwaitRestoreWalletList {
    pub closed spec fn spec_matched(&self) -> MatchedBackup {
        self.matched
    }

    /// Whether the device had no master key of its own.
    pub closed spec fn spec_fresh(&self) -> bool {
        self.fresh
    }
}

/// The match of namespace `i` with master key `mk`.
pub open spec fn matched_at(m: MatchedBackup, found: PasskeyMatch, i: int, mk: Seq<u8>) -> bool {
    &&& m.namespace@ == found.namespaces@[i]@
    &&& m.master_key@ == mk
    &&& m.credential_id@ == found.credential_id@
    &&& m.prf_salt == found.prf_salt
}

impl AwaitUnwrapped {
    /// The first master key that unwraps decides the namespace; a failure
    /// skips to the next namespace.
    pub fn on_unwrapped(self, result: Result<Vec<u8>, String>) -> (s: CloudRestoreStep)
        ensures
            result matches Ok(mk) ==> (s matches CloudRestoreStep::LoadLocalMasterKey(w) && matched_at(
                w.spec_matched(),
                self.spec_found(),
                self.spec_next(),
                mk@,
            )),
            result is Err ==> searches(s, self.spec_found(), self.spec_next() + 1),
    {
        proof {
            use_type_invariant(&self);
        }
        match result {
            Ok(master_key) => {
                let matched = MatchedBackup {
                    namespace: self.found.namespaces[self.next].clone(),
                    master_key,
                    credential_id: self.found.credential_id,
                    prf_salt: self.found.prf_salt,
                };
                CloudRestoreStep::LoadLocalMasterKey(AwaitLocalKeyPresence { matched })
            },
            Err(_) => search_from(self.found, self.next + 1),
        }
    }
}

impl AwaitLocalKeyPresence {
    /// A device without a master key takes the cloud's; one with a key keeps
    /// it. The wallets of the matched namespace are listed either way.
    pub fn on_local_key(self, local: Result<Option<Vec<u8>>, String>) -> (s: CloudRestoreStep)
        ensures
            local matches Err(e) ==> (s matches CloudRestoreStep::Finished(Err(err))
                && is_prefixed_internal(err, "load local master key"@, e@)),
            local == Ok::<Option<Vec<u8>>, String>(None) ==> (
            s matches CloudRestoreStep::SaveMasterKey(w, req) && req.master_key@
                == self.spec_matched().master_key@ && w.spec_matched() == self.spec_matched()),
            local matches Ok(Some(_)) ==> (s matches CloudRestoreStep::ListWallets(w, ns) && ns@
                == self.spec_matched().namespace@ && w.spec_matched() == self.spec_matched()
                && !w.spec_fresh()),
    {
        match local {
            Err(e) => CloudRestoreStep::Finished(Err(internal_with_prefix("load local master key", &e))),
            Ok(None) => {
                let req = SaveMasterKey { master_key: copy_bytes(&self.matched.master_key) };
                CloudRestoreStep::SaveMasterKey(AwaitRestoredKeySaved { matched: self.matched }, req)
            },
            Ok(Some(_)) => {
                let ns = self.matched.namespace.clone();
                CloudRestoreStep::ListWallets(
                    AwaitRestoreWalletList { matched: self.matched, fresh: false },
                    ns,
                )
            },
        }
    }
}

impl AwaitRestoredKeySaved {
    pub fn on_saved(self, result: Result<(), String>) -> (s: CloudRestoreStep)
        ensures
            result matches Err(e) ==> (s matches CloudRestoreStep::Finished(Err(err))
                && is_prefixed_internal(err, "save master key"@, e@)),
            result is Ok ==> (s matches CloudRestoreStep::ListWallets(w, ns) && ns@
                == self.spec_matched().namespace@ && w.spec_matched() == self.spec_matched()
                && w.spec_fresh()),
    {
        match result {
            Err(e) => CloudRestoreStep::Finished(Err(internal_with_prefix("save master key", &e))),
            Ok(()) => {
                let ns = self.matched.namespace.clone();
                CloudRestoreStep::ListWallets(
                    AwaitRestoreWalletList { matched: self.matched, fresh: true },
                    ns,
                )
            },
        }
    }
}

// ---------------------------------------------------------------------------
// Restoring the wallets one by one
// ---------------------------------------------------------------------------

/// A restore under way: the matched backup, whether the device is fresh,
/// the wallets to restore, and the outcomes so far with their report.
pub struct RestoreRun {
    matched: MatchedBackup,
    fresh: bool,
    record_ids: Vec<String>,
    next: usize,
    report: CloudBackupRestoreReport,
    outcomes: Ghost<Seq<Result<(), CloudBackupError>>>,
}

impl RestoreRun {
    #[verifier::type_invariant]
    closed spec fn wf(&self) -> bool {
        &&& self.next <= self.record_ids.len() <= u32::MAX
        &&& self.outcomes@.len() == self.next
        &&& report_matches(self.report, self.outcomes@)
    }

    pub closed spec fn spec_matched(&self) -> MatchedBackup {
        self.matched
    }

    pub closed spec fn spec_fresh(&self) -> bool {
        self.fresh
    }

    pub closed spec fn spec_record_ids(&self) -> Seq<String> {
        self.record_ids@
    }

    /// The outcome of each wallet restored so far, in order.
    pub closed spec fn spec_outcomes(&self) -> Seq<Result<(), CloudBackupError>> {
        self.outcomes@
    }

    pub closed spec fn spec_report(&self) -> CloudBackupRestoreReport {
        self.report
    }
}

pub struct AwaitKnownFingerprints {
    run: RestoreRun,
}

pub struct AwaitWalletRestore {
    run: RestoreRun,
}

impl AwaitKnownFingerprints {
    pub closed spec fn spec_run(&self) -> RestoreRun {
        self.run
    }
}

impl AwaitWalletRestore {
    #[verifier::type_invariant]
    closed spec fn wf(&self) -> bool {
        self.run.next < self.run.record_ids.len()
    }

    pub closed spec fn spec_run(&self) -> RestoreRun {
        self.run
    }
}

/// The run has just started on `record_ids` for the match `m`.
pub open spec fn starts_run(r: RestoreRun, m: MatchedBackup, fresh: bool, record_ids: Seq<String>) -> bool {
    &&& r.spec_matched() == m
    &&& r.spec_fresh() == fresh
    &&& r.spec_record_ids() == record_ids
    &&& r.spec_outcomes() == Seq::<Result<(), CloudBackupError>>::empty()
}

impl AwaitRestoreWalletList {
    /// A failed listing is a cloud error; else the known fingerprints are
    /// loaded before the wallets are restored.
    pub fn on_listed(self, listing: Result<Vec<String>, CloudStorageError>) -> (s: CloudRestoreStep)
        requires
            listing matches Ok(ids) ==> ids.len() <= u32::MAX,
        ensures
            listing matches Err(c) ==> (s matches CloudRestoreStep::Finished(Err(e)) && is_cloud_error(
                e,
                c,
            )),
            listing matches Ok(ids) ==> (s matches CloudRestoreStep::LoadKnownFingerprints(w)
                && starts_run(w.spec_run(), self.spec_matched(), self.spec_fresh(), ids@)),
    {
        match listing {
            Err(c) => CloudRestoreStep::Finished(Err(cloud_error(&c))),
            Ok(record_ids) => {
                let report = CloudBackupRestoreReport {
                    wallets_restored: 0,
                    wallets_failed: 0,
                    failed_wallet_errors: Vec::new(),
                };
                proof {
                    assert(texts(report.failed_wallet_errors@) =~= Seq::<Seq<char>>::empty());
                }
                let run = RestoreRun {
                    matched: self.matched,
                    fresh: self.fresh,
                    record_ids,
                    next: 0,
                    report,
                    outcomes: Ghost(Seq::empty()),
                };
                CloudRestoreStep::LoadKnownFingerprints(AwaitKnownFingerprints { run })
            },
        }
    }
}

/// The error when every wallet of a restore failed.
pub open spec fn is_all_failed_error(e: CloudBackupError) -> bool {
    e matches CloudBackupError::Internal(m) && m@ == "all wallets failed to restore"@
}

/// No wallet was restored and some failed.
pub open spec fn all_failed(r: CloudBackupRestoreReport) -> bool {
    r.wallets_restored == 0 && r.wallets_failed > 0
}

/// The step goes on with the wallet after those restored so far, or ends
/// the run when none is left.
pub open spec fn continues_run(s: CloudRestoreStep, run: RestoreRun, known: Seq<KnownFingerprint>) -> bool {
    let i = run.spec_outcomes().len() as int;
    if i < run.spec_record_ids().len() {
        s matches CloudRestoreStep::RestoreWallet(w, RestoreWalletStep::Fetch(fw, req))
            && w.spec_run() == run && req.namespace@ == run.spec_matched().namespace@
            && req.record_id@ == run.spec_record_ids()[i]@ && fw.spec_record_id()
            == run.spec_record_ids()[i]@ && fw.spec_master_key() == run.spec_matched().master_key@
            && fw.spec_known() == known
    } else {
        &&& run.spec_report().wallets_restored + run.spec_report().wallets_failed
            == run.spec_record_ids().len()
        &&& ends_run(s, run)
    }
}

/// The step ends a run whose wallets are all done: when every wallet
/// failed, the UI gets the report and the restore fails; else a fresh
/// device first saves the namespace, and the backup is marked enabled.
pub open spec fn ends_run(s: CloudRestoreStep, run: RestoreRun) -> bool {
    let report = run.spec_report();
    if all_failed(report) {
        s matches CloudRestoreStep::Notify(w, m) && m == CloudBackupReconcileMessage::RestoreComplete(
            report,
        ) && fails_all(w.spec_next())
    } else if run.spec_fresh() {
        s matches CloudRestoreStep::WriteKeychain(w, write) && write.key@ == NAMESPACE_ID_KEY@
            && write.value@ == run.spec_matched().namespace@ && w.spec_stage() == 0
            && w.spec_report() == report && w.spec_credential_id()
            == run.spec_matched().credential_id@ && w.spec_prf_salt()
            == run.spec_matched().prf_salt@
    } else {
        persists(s, report)
    }
}

/// The step ends the restore because every wallet failed.
pub open spec fn fails_all(s: CloudRestoreStep) -> bool {
    s matches CloudRestoreStep::Finished(Err(e)) && is_all_failed_error(e)
}

/// The setting is enabled, with some sync time and the given wallet count.
pub open spec fn enabled_with_count(setting: CloudBackup, count: u32) -> bool {
    setting matches CloudBackup::Enabled { last_sync: Some(_), wallet_count: Some(c) } && c == count
}

/// The step announces the enabled state and then ends the restore with
/// success.
pub open spec fn announces_enabled(s: CloudRestoreStep) -> bool {
    s matches CloudRestoreStep::Notify(w, m) && m == CloudBackupReconcileMessage::StateChanged(
        CloudBackupState::Enabled,
    ) && w.spec_next() == CloudRestoreStep::Finished(Ok::<(), CloudBackupError>(()))
}

/// The step persists the backup as enabled, synced now, with the restored
/// wallets as its count, and keeps the report for the UI.
pub open spec fn persists(s: CloudRestoreStep, report: CloudBackupRestoreReport) -> bool {
    s matches CloudRestoreStep::PersistSetting(w, setting) && w.spec_report() == report
        && enabled_with_count(setting, report.wallets_restored)
}

fn continue_run(run: RestoreRun, known: Vec<KnownFingerprint>) -> (s: CloudRestoreStep)
    ensures
        continues_run(s, run, known@),
{
    proof {
        use_type_invariant(&run);
        lemma_every_wallet_counted(run.outcomes@);
    }
    if run.next < run.record_ids.len() {
        let step = restore_single_wallet(
            &run.matched.namespace,
            &run.record_ids[run.next],
            &run.matched.master_key,
            known,
        );
        CloudRestoreStep::RestoreWallet(AwaitWalletRestore { run }, step)
    } else {
        end_run(run)
    }
}

fn end_run(run: RestoreRun) -> (s: CloudRestoreStep)
    ensures
        ends_run(s, run),
{
    if run.report.wallets_restored == 0 && run.report.wallets_failed > 0 {
        return notify(
            CloudBackupReconcileMessage::RestoreComplete(run.report),
            CloudRestoreStep::Finished(
                Err(CloudBackupError::Internal(String::from_str("all wallets failed to restore"))),
            ),
        );
    }
    if run.fresh {
        let write = KeychainWrite {
            key: String::from_str(NAMESPACE_ID_KEY),
            value: run.matched.namespace,
        };
        CloudRestoreStep::WriteKeychain(
            AwaitRestoreKeychain {
                stage: 0,
                credential_id: run.matched.credential_id,
                prf_salt: run.matched.prf_salt,
                report: run.report,
            },
            write,
        )
    } else {
        persist_enabled(run.report)
    }
}

fn persist_enabled(report: CloudBackupRestoreReport) -> (s: CloudRestoreStep)
    ensures
        persists(s, report),
{
    let now = sync_time_now();
    let setting = CloudBackup::Enabled {
        last_sync: Some(now),
        wallet_count: Some(report.wallets_restored),
    };
    CloudRestoreStep::PersistSetting(AwaitSettingPersisted { report }, setting)
}

impl AwaitKnownFingerprints {
    /// With the known fingerprints, the first wallet is restored (or the run
    /// ends at once when there is none).
    pub fn on_known(self, known: Result<Vec<KnownFingerprint>, String>) -> (s: CloudRestoreStep)
        ensures
            known matches Err(e) ==> (s matches CloudRestoreStep::Finished(Err(err))
                && is_prefixed_internal(err, "collect fingerprints"@, e@)),
            known matches Ok(k) ==> continues_run(s, self.spec_run(), k@),
    {
        match known {
            Err(e) => CloudRestoreStep::Finished(Err(internal_with_prefix("collect fingerprints", &e))),
            Ok(k) => continue_run(self.run, k),
        }
    }
}

/// `r` is the run `old` with one more wallet done, with `outcome`.
pub open spec fn advanced(r: RestoreRun, old: RestoreRun, outcome: Result<(), CloudBackupError>) -> bool {
    &&& r.spec_matched() == old.spec_matched()
    &&& r.spec_fresh() == old.spec_fresh()
    &&& r.spec_record_ids() == old.spec_record_ids()
    &&& r.spec_outcomes() == old.spec_outcomes().push(outcome)
}

impl AwaitWalletRestore {
    /// The outcome of a wallet is recorded in the report (a failure with
    /// its text, without stopping the restore), the UI learns the progress,
    /// and the next wallet follows.
    pub fn on_wallet_restored(self, result: Result<(), CloudBackupError>, known: Vec<KnownFingerprint>) -> (s:
        CloudRestoreStep)
        ensures
            s matches CloudRestoreStep::Notify(w, m) && m
                == (CloudBackupReconcileMessage::ProgressUpdated {
                completed: (self.spec_run().spec_outcomes().len() + 1) as u32,
                total: self.spec_run().spec_record_ids().len() as u32,
            }) && exists|r: RestoreRun|
                #[trigger] advanced(r, self.spec_run(), result) && continues_run(
                    w.spec_next(),
                    r,
                    known@,
                ),
    {
        proof {
            use_type_invariant(&self);
        }
        let mut run = self.run;
        proof {
            use_type_invariant(&run);
            lemma_every_wallet_counted(run.outcomes@);
        }
        let ghost old_run = run;
        let ghost outcomes = run.outcomes@.push(result);
        assert(outcomes.drop_last() =~= run.outcomes@);
        match &result {
            Ok(()) => {
                let restored = run.report.wallets_restored + 1;
                let failed = run.report.wallets_failed;
                let errors = run.report.failed_wallet_errors;
                run = RestoreRun {
                    matched: run.matched,
                    fresh: run.fresh,
                    record_ids: run.record_ids,
                    next: run.next + 1,
                    report: CloudBackupRestoreReport {
                        wallets_restored: restored,
                        wallets_failed: failed,
                        failed_wallet_errors: errors,
                    },
                    outcomes: Ghost(outcomes),
                };
            },
            Err(e) => {
                let restored = run.report.wallets_restored;
                let failed = run.report.wallets_failed + 1;
                let mut errors = run.report.failed_wallet_errors;
                let ghost before = errors@;
                errors.push(e.message());
                proof {
                    assert(texts(errors@) =~= texts(before).push(e.spec_message()));
                }
                run = RestoreRun {
                    matched: run.matched,
                    fresh: run.fresh,
                    record_ids: run.record_ids,
                    next: run.next + 1,
                    report: CloudBackupRestoreReport {
                        wallets_restored: restored,
                        wallets_failed: failed,
                        failed_wallet_errors: errors,
                    },
                    outcomes: Ghost(outcomes),
                };
            },
        }
        let completed = run.next as u32;
        let total = run.record_ids.len() as u32;
        let ghost new_run = run;
        let next = continue_run(run, known);
        assert(advanced(new_run, old_run, result) && continues_run(next, new_run, known@));
        let msg = CloudBackupReconcileMessage::ProgressUpdated { completed, total };
        assert(msg == CloudBackupReconcileMessage::ProgressUpdated {
            completed: (old_run.spec_outcomes().len() + 1) as u32,
            total: old_run.spec_record_ids().len() as u32,
        });
        assert(old_run == self.spec_run());
        let s = notify(msg, next);
        assert(exists|r: RestoreRun|
            #[trigger] advanced(r, old_run, result) && continues_run(next, r, known@));
        assert(s matches CloudRestoreStep::Notify(w, m) && m == msg && w.spec_next() == next);
        s
    }
}

// ---------------------------------------------------------------------------
// Ending a restore
// ---------------------------------------------------------------------------

/// Saves the namespace (stage 0), the credential (stage 1) and the salt
/// (stage 2) of a fresh device, then marks the backup enabled.
pub struct AwaitRestoreKeychain {
    stage: u8,
    credential_id: Vec<u8>,
    prf_salt: [u8; 32],
    report: CloudBackupRestoreReport,
}

pub struct AwaitSettingPersisted {
    report: CloudBackupRestoreReport,
}

impl AwaitRestoreKeychain {
    #[verifier::type_invariant]
    closed spec fn wf(&self) -> bool {
        self.stage < 3
    }

    /// Which write is under way: the namespace, the credential or the salt.
    pub closed spec fn spec_stage(&self) -> int {
        self.stage as int
    }

    pub closed spec fn spec_credential_id(&self) -> Seq<u8> {
        self.credential_id@
    }

    pub closed spec fn spec_prf_salt(&self) -> Seq<u8> {
        self.prf_salt@
    }

    pub closed spec fn spec_report(&self) -> CloudBackupRestoreReport {
        self.report
    }
}

impl AwaitSettingPersisted {
    pub closed spec fn spec_report(&self) -> CloudBackupRestoreReport {
        self.report
    }
}

impl AwaitRestoreKeychain {
    /// After the namespace comes the credential as hex, then the salt as
    /// hex, then the setting; a failed write is an internal error naming
    /// the entry.
    pub fn on_written(self, result: Result<(), String>) -> (s: CloudRestoreStep)
        ensures
            result matches Err(e) ==> (s matches CloudRestoreStep::Finished(Err(err))
                && is_prefixed_internal(
                err,
                if self.spec_stage() == 0 {
                    "save namespace_id"@
                } else if self.spec_stage() == 1 {
                    "save credential_id"@
                } else {
                    "save prf_salt"@
                },
                e@,
            )),
            result is Ok && self.spec_stage() == 0 ==> (s matches CloudRestoreStep::WriteKeychain(w, write)
                && is_hex_write(write, CREDENTIAL_ID_KEY@, self.spec_credential_id())
                && w.spec_stage() == 1 && w.spec_credential_id() == self.spec_credential_id()
                && w.spec_prf_salt() == self.spec_prf_salt() && w.spec_report()
                == self.spec_report()),
            result is Ok && self.spec_stage() == 1 ==> (s matches CloudRestoreStep::WriteKeychain(w, write)
                && is_hex_write(write, PRF_SALT_KEY@, self.spec_prf_salt()) && w.spec_stage() == 2
                && w.spec_credential_id() == self.spec_credential_id() && w.spec_prf_salt()
                == self.spec_prf_salt() && w.spec_report() == self.spec_report()),
            result is Ok && self.spec_stage() == 2 ==> persists(s, self.spec_report()),
    {
        proof {
            use_type_invariant(&self);
        }
        match result {
            Err(e) => {
                let err = if self.stage == 0 {
                    internal_with_prefix("save namespace_id", &e)
                } else if self.stage == 1 {
                    internal_with_prefix("save credential_id", &e)
                } else {
                    internal_with_prefix("save prf_salt", &e)
                };
                CloudRestoreStep::Finished(Err(err))
            },
            Ok(()) => {
                if self.stage == 0 {
                    let write = hex_write(CREDENTIAL_ID_KEY, self.credential_id.as_slice());
                    CloudRestoreStep::WriteKeychain(
                        AwaitRestoreKeychain {
                            stage: 1,
                            credential_id: self.credential_id,
                            prf_salt: self.prf_salt,
                            report: self.report,
                        },
                        write,
                    )
                } else if self.stage == 1 {
                    let write = hex_write(PRF_SALT_KEY, self.prf_salt.as_slice());
                    CloudRestoreStep::WriteKeychain(
                        AwaitRestoreKeychain {
                            stage: 2,
                            credential_id: self.credential_id,
                            prf_salt: self.prf_salt,
                            report: self.report,
                        },
                        write,
                    )
                } else {
                    persist_enabled(self.report)
                }
            },
        }
    }
}

impl AwaitSettingPersisted {
    /// Once the setting is persisted, the UI gets the report and then the
    /// enabled state, and the restore succeeds.
    pub fn on_persisted(self, result: Result<(), String>) -> (s: CloudRestoreStep)
        ensures
            result matches Err(e) ==> (s matches CloudRestoreStep::Finished(Err(err))
                && is_prefixed_internal(err, "persist cloud backup state"@, e@)),
            result is Ok ==> (s matches CloudRestoreStep::Notify(w, m) && m
                == CloudBackupReconcileMessage::RestoreComplete(self.spec_report())
                && announces_enabled(w.spec_next())),
    {
        match result {
            Err(e) => CloudRestoreStep::Finished(
                Err(internal_with_prefix("persist cloud backup state", &e)),
            ),
            Ok(()) => notify(
                CloudBackupReconcileMessage::RestoreComplete(self.report),
                notify(
                    CloudBackupReconcileMessage::StateChanged(CloudBackupState::Enabled),
                    CloudRestoreStep::Finished(Ok(())),
                ),
            ),
        }
    }
}

} // verus!
