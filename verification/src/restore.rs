//! Restoring wallets from the cloud backup: one wallet at a time, with
//! duplicate detection by master fingerprint.

use vstd::prelude::*;
use vstd::string::*;
use crate::credentials::{internal_with_prefix, prefixed, NAMESPACE_ID_KEY};
use crate::inventory::LocalWallet;
use crate::manager::{current_namespace_id, is_missing_namespace_error};
use crate::model::{
    convert_cloud_secret, copy_opt_string, CloudBackupError, CloudWalletSecret, LocalWalletSecret,
    Network, WalletMode,
};
use crate::text::{decimal, decimal_text};
use crate::uploads::is_prefixed_internal;
use crate::wallet_checks::{supported_version, DecryptWallet, FetchWallet, WalletFetch};

verus! {

broadcast use vstd::seq::group_seq_axioms;

// ---------------------------------------------------------------------------
// Mnemonics
// ---------------------------------------------------------------------------

/// What `bip39::Mnemonic::from_str` gives for a text: the parsed mnemonic,
/// written back as its words joined by single spaces, or the text of the
/// parse error.
pub uninterp spec fn mnemonic_parse(words: Seq<char>) -> Result<Seq<char>, Seq<char>>;

/// Parses a BIP-39 mnemonic with `bip39::Mnemonic::from_str` (Unicode
/// normalization, language detection, word count and checksum checks).
///
/// Trusted: the contract says only that the result is what the crate gives
/// for these words, the mnemonic written back with its `Display` and an
/// error with its `Display`. The parser does not panic on any text.
#[verifier::external_body]
pub(crate) fn parse_mnemonic(words: &str) -> (r: Result<String, String>)
    ensures
        match r {
            Ok(m) => mnemonic_parse(words@) == Ok::<Seq<char>, Seq<char>>(m@),
            Err(e) => mnemonic_parse(words@) == Err::<Seq<char>, Seq<char>>(e@),
        },
{
    match words.parse::<bip39::Mnemonic>() {
        Ok(m) => Ok(m.to_string()),
        Err(e) => Err(e.to_string()),
    }
}

// ---------------------------------------------------------------------------
// Known fingerprints
// ---------------------------------------------------------------------------

/// A wallet already on the device, as duplicate detection sees it.
#[derive(Debug, Clone)]
pub struct KnownFingerprint {
    pub fingerprint: String,
    pub network: Network,
    pub wallet_mode: WalletMode,
}

/// The entry of a wallet with the given fingerprint.
pub open spec fn known_entry(fingerprint: String, network: Network, wallet_mode: WalletMode) -> KnownFingerprint {
    KnownFingerprint { fingerprint, network, wallet_mode }
}

/// The known fingerprints of the local wallets, in order; wallets without a
/// fingerprint are left out.
pub open spec fn known_of(local: Seq<LocalWallet>) -> Seq<KnownFingerprint>
    decreases local.len(),
{
    if local.len() == 0 {
        Seq::empty()
    } else {
        let w = local.last();
        let rest = known_of(local.drop_last());
        match w.fingerprint {
            Some(fp) => rest.push(known_entry(fp, w.network, w.wallet_mode)),
            None => rest,
        }
    }
}

/// The known fingerprints of the local wallets.
pub fn known_fingerprints(local: &Vec<LocalWallet>) -> (r: Vec<KnownFingerprint>)
    ensures
        r@ == known_of(local@),
{
    let mut r: Vec<KnownFingerprint> = Vec::new();
    let mut i: usize = 0;
    while i < local.len()
        invariant
            0 <= i <= local@.len(),
            r@ == known_of(local@.subrange(0, i as int)),
        decreases local.len() - i,
    {
        let w = &local[i];
        assert(local@.subrange(0, i + 1).drop_last() =~= local@.subrange(0, i as int));
        match &w.fingerprint {
            Some(fp) => {
                r.push(
                    KnownFingerprint {
                        fingerprint: fp.clone(),
                        network: w.network,
                        wallet_mode: w.wallet_mode,
                    },
                );
            },
            None => {},
        }
        i = i + 1;
    }
    assert(local@.subrange(0, local@.len() as int) =~= local@);
    r
}

// ---------------------------------------------------------------------------
// Restoring one wallet
// ---------------------------------------------------------------------------

/// A decrypted wallet backup, with what the restore reads of its metadata.
#[derive(Debug)]
pub struct OpenedWallet {
    pub name: String,
    pub network: Network,
    pub wallet_mode: WalletMode,
    /// The master fingerprint, if the wallet has one.
    pub fingerprint: Option<String>,
    pub secret: CloudWalletSecret,
}

/// What decrypting a wallet backup and parsing its metadata gave.
#[derive(Debug)]
pub enum WalletOpening {
    DecryptFailed(String),
    MetadataUnreadable(String),
    Opened(OpenedWallet),
}

/// Whether a wallet duplicates one on the device, for the platform to
/// answer.
#[derive(Debug)]
pub struct DuplicateCheck {
    pub name: String,
    pub network: Network,
    pub wallet_mode: WalletMode,
    pub fingerprint: Option<String>,
    pub known: Vec<KnownFingerprint>,
}

/// The decrypted wallet is to be written to the device.
#[derive(Debug)]
pub enum RestoreRequest {
    /// A hot wallet from its mnemonic, as the parser wrote it back.
    Mnemonic(String),
    /// A wallet from its descriptors, with the secret it carries.
    Descriptor(LocalWalletSecret),
}

pub enum RestoreWalletStep {
    Fetch(AwaitRestoreFetch, FetchWallet),
    Open(AwaitRestoreOpen, DecryptWallet),
    CheckDuplicate(AwaitDuplicateCheck, DuplicateCheck),
    Restore(AwaitWalletRestored, RestoreRequest),
    /// The outcome, and the known fingerprints for the wallets that follow.
    Finished(Result<(), CloudBackupError>, Vec<KnownFingerprint>),
}

pub struct AwaitRestoreFetch {
    record_id: String,
    master_key: Vec<u8>,
    known: Vec<KnownFingerprint>,
}

pub struct AwaitRestoreOpen {
    known: Vec<KnownFingerprint>,
}

/// The metadata of the wallet under restore that outlives its opening.
pub struct RestoredMetadata {
    pub network: Network,
    pub wallet_mode: WalletMode,
    pub fingerprint: Option<String>,
}

pub struct AwaitDuplicateCheck {
    metadata: RestoredMetadata,
    secret: CloudWalletSecret,
    known: Vec<KnownFingerprint>,
}

pub struct AwaitWalletRestored {
    from_mnemonic: bool,
    metadata: RestoredMetadata,
    known: Vec<KnownFingerprint>,
}

impl AwaitRestoreFetch {
    pub closed spec fn spec_record_id(&self) -> Seq<char> {
        self.record_id@
    }

    pub closed spec fn spec_master_key(&self) -> Seq<u8> {
        self.master_key@
    }

    pub closed spec fn spec_known(&self) -> Seq<KnownFingerprint> {
        self.known@
    }
}

impl AwaitRestoreOpen {
    pub closed spec fn spec_known(&self) -> Seq<KnownFingerprint> {
        self.known@
    }
}

impl AwaitDuplicateCheck {
    pub closed spec fn spec_metadata(&self) -> RestoredMetadata {
        self.metadata
    }

    pub closed spec fn spec_secret(&self) -> CloudWalletSecret {
        self.secret
    }

    pub closed spec fn spec_known(&self) -> Seq<KnownFingerprint> {
        self.known@
    }
}

impl AwaitWalletRestored {
    /// Whether the wallet is restored from its mnemonic.
    pub closed spec fn spec_from_mnemonic(&self) -> bool {
        self.from_mnemonic
    }

    pub closed spec fn spec_metadata(&self) -> RestoredMetadata {
        self.metadata
    }

    pub closed spec fn spec_known(&self) -> Seq<KnownFingerprint> {
        self.known@
    }
}

/// The known fingerprints after a wallet with this metadata is restored:
/// its fingerprint, if it has one, is added.
pub open spec fn known_after(known: Seq<KnownFingerprint>, m: RestoredMetadata) -> Seq<KnownFingerprint> {
    match m.fingerprint {
        Some(fp) => known.push(known_entry(fp, m.network, m.wallet_mode)),
        None => known,
    }
}

/// The error of a crypto step, with its context.
pub open spec fn is_prefixed_crypto(e: CloudBackupError, prefix: Seq<char>, cause: Seq<char>) -> bool {
    e matches CloudBackupError::Crypto(m) && m@ == prefixed(prefix, cause)
}

/// A crypto error with the context of the failed step.
pub fn crypto_with_prefix(prefix: &str, error: &String) -> (e: CloudBackupError)
    ensures
        is_prefixed_crypto(e, prefix@, error@),
{
    CloudBackupError::Crypto(String::from_str(prefix).concat(": ").concat(error.as_str()))
}

/// The error of a wallet backup in a format this version cannot read.
pub open spec fn is_unsupported_wallet_error(e: CloudBackupError, version: u32) -> bool {
    e matches CloudBackupError::Internal(m) && m@ == "unsupported wallet backup version: "@
        + decimal(version as nat)
}

/// Restores the wallet backup `record_id` of `namespace`, encrypted under
/// `master_key`, unless it duplicates a wallet of `known`.
pub fn restore_single_wallet(
    namespace: &String,
    record_id: &String,
    master_key: &Vec<u8>,
    known: Vec<KnownFingerprint>,
) -> (s: RestoreWalletStep)
    ensures
        s matches RestoreWalletStep::Fetch(w, req) && req.namespace@ == namespace@
            && req.record_id@ == record_id@ && w.spec_record_id() == record_id@
            && w.spec_master_key() == master_key@ && w.spec_known() == known@,
{
    RestoreWalletStep::Fetch(
        AwaitRestoreFetch {
            record_id: record_id.clone(),
            master_key: crate::model::copy_bytes(master_key),
            known,
        },
        FetchWallet { namespace: namespace.clone(), record_id: record_id.clone() },
    )
}

impl AwaitRestoreFetch {
    /// A failed download is a cloud error naming the record, an unreadable
    /// backup an internal error, a backup of another format version an
    /// internal error naming the version; a readable one is decrypted.
    pub fn on_fetched(self, fetch: WalletFetch) -> (s: RestoreWalletStep)
        ensures
            fetch matches WalletFetch::DownloadFailed(e) ==> (s matches RestoreWalletStep::Finished(
                Err(CloudBackupError::Cloud(m)),
                k,
            ) && m@ == prefixed("download "@ + self.spec_record_id(), e@) && k@ == self.spec_known()),
            fetch matches WalletFetch::Unreadable(e) ==> (s matches RestoreWalletStep::Finished(
                Err(err),
                k,
            ) && is_prefixed_internal(err, "deserialize wallet"@, e@) && k@ == self.spec_known()),
            fetch matches WalletFetch::Envelope { version } ==> (version != supported_version() ==> (
            s matches RestoreWalletStep::Finished(Err(err), k) && is_unsupported_wallet_error(
                err,
                version,
            ) && k@ == self.spec_known())),
            fetch == (WalletFetch::Envelope { version: supported_version() }) ==> (
            s matches RestoreWalletStep::Open(w, req) && req.master_key@ == self.spec_master_key()
                && w.spec_known() == self.spec_known()),
    {
        match fetch {
            WalletFetch::DownloadFailed(e) => {
                let m = String::from_str("download ").concat(self.record_id.as_str()).concat(
                    ": ",
                ).concat(e.as_str());
                RestoreWalletStep::Finished(Err(CloudBackupError::Cloud(m)), self.known)
            },
            WalletFetch::Unreadable(e) => RestoreWalletStep::Finished(
                Err(internal_with_prefix("deserialize wallet", &e)),
                self.known,
            ),
            WalletFetch::Envelope { version } => {
                if version != 1 {
                    let m = String::from_str("unsupported wallet backup version: ").concat(
                        decimal_text(version).as_str(),
                    );
                    RestoreWalletStep::Finished(Err(CloudBackupError::Internal(m)), self.known)
                } else {
                    RestoreWalletStep::Open(
                        AwaitRestoreOpen { known: self.known },
                        DecryptWallet { master_key: self.master_key },
                    )
                }
            },
        }
    }
}

impl AwaitRestoreOpen {
    /// A failed decryption is a crypto error, unreadable metadata an internal
    /// error; an opened wallet is checked for duplicates.
    pub fn on_opened(self, opening: WalletOpening) -> (s: RestoreWalletStep)
        ensures
            opening matches WalletOpening::DecryptFailed(e) ==> (s matches RestoreWalletStep::Finished(
                Err(err),
                k,
            ) && is_prefixed_crypto(err, "decrypt wallet"@, e@) && k@ == self.spec_known()),
            opening matches WalletOpening::MetadataUnreadable(e) ==> (
            s matches RestoreWalletStep::Finished(Err(err), k) && is_prefixed_internal(
                err,
                "parse wallet metadata"@,
                e@,
            ) && k@ == self.spec_known()),
            opening matches WalletOpening::Opened(o) ==> (s matches RestoreWalletStep::CheckDuplicate(
                w,
                req,
            ) && req.name == o.name && req.network == o.network && req.wallet_mode == o.wallet_mode
                && req.fingerprint == o.fingerprint && req.known@ == self.spec_known()
                && w.spec_metadata() == (RestoredMetadata {
                network: o.network,
                wallet_mode: o.wallet_mode,
                fingerprint: o.fingerprint,
            }) && w.spec_secret() == o.secret && w.spec_known() == self.spec_known()),
    {
        match opening {
            WalletOpening::DecryptFailed(e) => {
                RestoreWalletStep::Finished(Err(crypto_with_prefix("decrypt wallet", &e)), self.known)
            },
            WalletOpening::MetadataUnreadable(e) => RestoreWalletStep::Finished(
                Err(internal_with_prefix("parse wallet metadata", &e)),
                self.known,
            ),
            WalletOpening::Opened(o) => {
                let req = DuplicateCheck {
                    name: o.name,
                    network: o.network,
                    wallet_mode: o.wallet_mode,
                    fingerprint: copy_opt_string(&o.fingerprint),
                    known: copy_known(&self.known),
                };
                let metadata = RestoredMetadata {
                    network: o.network,
                    wallet_mode: o.wallet_mode,
                    fingerprint: o.fingerprint,
                };
                RestoreWalletStep::CheckDuplicate(
                    AwaitDuplicateCheck { metadata, secret: o.secret, known: self.known },
                    req,
                )
            },
        }
    }
}

/// A copy of a list of known fingerprints.
pub fn copy_known(known: &Vec<KnownFingerprint>) -> (r: Vec<KnownFingerprint>)
    ensures
        r@ == known@,
{
    let mut r: Vec<KnownFingerprint> = Vec::new();
    for i in 0..known.len()
        invariant
            r@ == known@.subrange(0, i as int),
    {
        let k = &known[i];
        r.push(
            KnownFingerprint {
                fingerprint: k.fingerprint.clone(),
                network: k.network,
                wallet_mode: k.wallet_mode,
            },
        );
        assert(r@ =~= known@.subrange(0, i + 1));
    }
    assert(r@ =~= known@);
    r
}

/// The step after the duplicate check, given what parsing the mnemonic gave
/// where the wallet has one.
pub open spec fn restores_after_check(
    s: RestoreWalletStep,
    secret: CloudWalletSecret,
    parsed: Result<Seq<char>, Seq<char>>,
    metadata: RestoredMetadata,
    known: Seq<KnownFingerprint>,
) -> bool {
    match secret {
        CloudWalletSecret::Mnemonic(_) => match parsed {
            Ok(m) => s matches RestoreWalletStep::Restore(w, RestoreRequest::Mnemonic(words))
                && words@ == m && w.spec_from_mnemonic() && w.spec_metadata() == metadata
                && w.spec_known() == known,
            Err(e) => s matches RestoreWalletStep::Finished(Err(err), k) && is_prefixed_internal(
                err,
                "invalid mnemonic"@,
                e,
            ) && k@ == known,
        },
        _ => s matches RestoreWalletStep::Restore(w, RestoreRequest::Descriptor(local))
            && !w.spec_from_mnemonic() && w.spec_metadata() == metadata && w.spec_known() == known
            && (secret matches CloudWalletSecret::TapSignerBackup(b) ==> (
        local matches LocalWalletSecret::TapSignerBackup(b2) && b2@ == b@)) && (!(
        secret is TapSignerBackup) ==> local is NoSecret),
    }
}

/// The result of parsing a mnemonic, by its texts.
pub open spec fn parse_view(r: Result<String, String>) -> Result<Seq<char>, Seq<char>> {
    match r {
        Ok(m) => Ok(m@),
        Err(e) => Err(e@),
    }
}

impl AwaitDuplicateCheck {
    /// A duplicate is skipped and nothing is restored; a failed check counts
    /// as no duplicate. A hot wallet is restored from its mnemonic, which
    /// must parse; any other from its descriptors.
    pub fn on_duplicate_checked(self, is_duplicate: Result<bool, String>) -> (s: RestoreWalletStep)
        ensures
            is_duplicate == Ok::<bool, String>(true) ==> (s matches RestoreWalletStep::Finished(
                Ok(()),
                k,
            ) && k@ == self.spec_known()),
            is_duplicate != Ok::<bool, String>(true) ==> match self.spec_secret() {
                CloudWalletSecret::Mnemonic(words) => restores_after_check(
                    s,
                    self.spec_secret(),
                    mnemonic_parse(words@),
                    self.spec_metadata(),
                    self.spec_known(),
                ),
                _ => restores_after_check(
                    s,
                    self.spec_secret(),
                    Err(Seq::empty()),
                    self.spec_metadata(),
                    self.spec_known(),
                ),
            },
    {
        match is_duplicate {
            Ok(true) => {
                return RestoreWalletStep::Finished(Ok(()), self.known);
            },
            _ => {},
        }
        let parsed = match &self.secret {
            CloudWalletSecret::Mnemonic(words) => parse_mnemonic(words.as_str()),
            _ => Err(String::new()),
        };
        self.restore_with(parsed)
    }

    /// Restores the wallet, given what parsing its mnemonic gave (ignored for
    /// a wallet without one).
    pub fn restore_with(self, parsed: Result<String, String>) -> (s: RestoreWalletStep)
        ensures
            restores_after_check(
                s,
                self.spec_secret(),
                parse_view(parsed),
                self.spec_metadata(),
                self.spec_known(),
            ),
    {
        match &self.secret {
            CloudWalletSecret::Mnemonic(_) => match parsed {
                Ok(m) => RestoreWalletStep::Restore(
                    AwaitWalletRestored {
                        from_mnemonic: true,
                        metadata: self.metadata,
                        known: self.known,
                    },
                    RestoreRequest::Mnemonic(m),
                ),
                Err(e) => RestoreWalletStep::Finished(
                    Err(internal_with_prefix("invalid mnemonic", &e)),
                    self.known,
                ),
            },
            _ => {
                let local = convert_cloud_secret(&self.secret);
                RestoreWalletStep::Restore(
                    AwaitWalletRestored {
                        from_mnemonic: false,
                        metadata: self.metadata,
                        known: self.known,
                    },
                    RestoreRequest::Descriptor(local),
                )
            },
        }
    }
}

impl AwaitWalletRestored {
    /// A failed restore is an internal error naming the kind of restore; a
    /// restored wallet adds its fingerprint to the known ones.
    pub fn on_restored(self, result: Result<(), String>) -> (s: RestoreWalletStep)
        ensures
            result is Ok ==> (s matches RestoreWalletStep::Finished(Ok(()), k) && k@ == known_after(
                self.spec_known(),
                self.spec_metadata(),
            )),
            result matches Err(e) ==> (s matches RestoreWalletStep::Finished(Err(err), k)
                && is_prefixed_internal(
                err,
                if self.spec_from_mnemonic() {
                    "restore mnemonic wallet"@
                } else {
                    "restore descriptor wallet"@
                },
                e@,
            ) && k@ == self.spec_known()),
    {
        match result {
            Ok(()) => {
                let mut known = self.known;
                match self.metadata.fingerprint {
                    Some(fp) => {
                        known.push(
                            KnownFingerprint {
                                fingerprint: fp,
                                network: self.metadata.network,
                                wallet_mode: self.metadata.wallet_mode,
                            },
                        );
                    },
                    None => {},
                }
                RestoreWalletStep::Finished(Ok(()), known)
            },
            Err(e) => {
                let err = if self.from_mnemonic {
                    internal_with_prefix("restore mnemonic wallet", &e)
                } else {
                    internal_with_prefix("restore descriptor wallet", &e)
                };
                RestoreWalletStep::Finished(Err(err), self.known)
            },
        }
    }
}

// ---------------------------------------------------------------------------
// Restoring one cloud-only wallet on request
// ---------------------------------------------------------------------------

pub enum CloudWalletRestoreStep {
    LoadNamespace(AwaitCloudWalletNamespace),
    /// Get the keychain's master key, creating one if there is none.
    LoadMasterKey(AwaitCloudWalletKey),
    LoadLocalWallets(AwaitCloudWalletLocals),
    Restore(AwaitCloudWalletRestored, RestoreWalletStep),
    Finished(Result<(), CloudBackupError>),
}

pub struct AwaitCloudWalletNamespace {
    record_id: String,
}

pub struct AwaitCloudWalletKey {
    record_id: String,
    namespace: String,
}

pub struct AwaitCloudWalletLocals {
    record_id: String,
    namespace: String,
    master_key: Vec<u8>,
}

pub struct AwaitCloudWalletRestored {}

impl AwaitCloudWalletNamespace {
    pub closed spec fn spec_record_id(&self) -> Seq<char> {
        self.record_id@
    }
}

impl AwaitCloudWalletKey {
    pub closed spec fn spec_record_id(&self) -> Seq<char> {
        self.record_id@
    }

    pub closed spec fn spec_namespace(&self) -> Seq<char> {
        self.namespace@
    }
}

impl AwaitCloudWalletLocals {
    pub closed spec fn spec_record_id(&self) -> Seq<char> {
        self.record_id@
    }

    pub closed spec fn spec_namespace(&self) -> Seq<char> {
        self.namespace@
    }

    pub closed spec fn spec_master_key(&self) -> Seq<u8> {
        self.master_key@
    }
}

/// Restores the cloud wallet `record_id` of the current namespace to this
/// device, with the keychain's master key.
pub fn do_restore_cloud_wallet(record_id: &String) -> (s: CloudWalletRestoreStep)
    ensures
        s matches CloudWalletRestoreStep::LoadNamespace(w) && w.spec_record_id() == record_id@,
{
    CloudWalletRestoreStep::LoadNamespace(AwaitCloudWalletNamespace { record_id: record_id.clone() })
}

impl AwaitCloudWalletNamespace {
    /// The keychain entry whose value `on_namespace` takes: the namespace.
    pub fn entry(&self) -> (k: &'static str)
        ensures
            k@ == NAMESPACE_ID_KEY@,
    {
        NAMESPACE_ID_KEY
    }

    pub fn on_namespace(self, stored: Option<String>) -> (s: CloudWalletRestoreStep)
        ensures
            stored matches Some(ns) ==> (s matches CloudWalletRestoreStep::LoadMasterKey(w)
                && w.spec_namespace() == ns@ && w.spec_record_id() == self.spec_record_id()),
            stored is None ==> (s matches CloudWalletRestoreStep::Finished(Err(e))
                && is_missing_namespace_error(e)),
    {
        match current_namespace_id(stored) {
            Ok(namespace) => CloudWalletRestoreStep::LoadMasterKey(
                AwaitCloudWalletKey { record_id: self.record_id, namespace },
            ),
            Err(e) => CloudWalletRestoreStep::Finished(Err(e)),
        }
    }
}

impl AwaitCloudWalletKey {
    pub fn on_master_key(self, master_key: Result<Vec<u8>, String>) -> (s: CloudWalletRestoreStep)
        ensures
            master_key matches Ok(mk) ==> (s matches CloudWalletRestoreStep::LoadLocalWallets(w)
                && w.spec_record_id() == self.spec_record_id() && w.spec_namespace()
                == self.spec_namespace() && w.spec_master_key() == mk@),
            master_key matches Err(e) ==> (s matches CloudWalletRestoreStep::Finished(Err(err))
                && is_prefixed_internal(err, "master key"@, e@)),
    {
        match master_key {
            Ok(master_key) => CloudWalletRestoreStep::LoadLocalWallets(
                AwaitCloudWalletLocals {
                    record_id: self.record_id,
                    namespace: self.namespace,
                    master_key,
                },
            ),
            Err(e) => CloudWalletRestoreStep::Finished(Err(internal_with_prefix("master key", &e))),
        }
    }
}

impl AwaitCloudWalletLocals {
    /// The wallet is restored, checked for duplicates against the
    /// fingerprints of the local wallets.
    pub fn on_local_wallets(self, local: Vec<LocalWallet>) -> (s: CloudWalletRestoreStep)
        ensures
            s matches CloudWalletRestoreStep::Restore(_, RestoreWalletStep::Fetch(w, req))
                && req.namespace@ == self.spec_namespace() && req.record_id@ == self.spec_record_id()
                && w.spec_record_id() == self.spec_record_id() && w.spec_master_key()
                == self.spec_master_key() && w.spec_known() == known_of(local@),
    {
        let known = known_fingerprints(&local);
        CloudWalletRestoreStep::Restore(
            AwaitCloudWalletRestored {},
            restore_single_wallet(&self.namespace, &self.record_id, &self.master_key, known),
        )
    }
}

impl AwaitCloudWalletRestored {
    pub fn on_restored(self, result: Result<(), CloudBackupError>) -> (s: CloudWalletRestoreStep)
        ensures
            s == CloudWalletRestoreStep::Finished(result),
    {
        CloudWalletRestoreStep::Finished(result)
    }
}

} // verus!
