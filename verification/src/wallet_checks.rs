//! Checking wallet backups against a master key: the proof that a local key
//! opens the cloud backups, and the tally of a deep verification.

use vstd::prelude::*;
use vstd::string::*;
use crate::model::{copy_bytes, CloudBackupError};

verus! {

/// What fetching and parsing one wallet backup gave.
#[derive(Debug, Clone, PartialEq, Eq)]
pub enum WalletFetch {
    /// The download failed, with the storage's text.
    DownloadFailed(String),
    /// The bytes are not a wallet backup, with the parser's text.
    Unreadable(String),
    /// A wallet backup of the given format version.
    Envelope { version: u32 },
}

/// What decrypting one wallet backup gave.
#[derive(Debug, Clone, PartialEq, Eq)]
pub enum WalletDecrypt {
    Decrypted,
    /// The key is not the one the backup was encrypted with.
    WrongKey,
    /// Any other failure, with its text.
    Failed(String),
}

/// The only wallet backup format this version reads.
pub open spec fn supported_version() -> u32 {
    1
}

/// One wallet backup to download and parse, for the platform to perform.
#[derive(Debug)]
pub struct FetchWallet {
    pub namespace: String,
    pub record_id: String,
}

/// The wallet backup just fetched is to be decrypted with this master key.
#[derive(Debug)]
pub struct DecryptWallet {
    pub master_key: Vec<u8>,
}

// ---------------------------------------------------------------------------
// Proof that a local key opens the cloud backups
// ---------------------------------------------------------------------------

/// What one wallet contributes to the proof of a key.
#[derive(Debug, Clone, Copy, PartialEq, Eq, Structural)]
pub enum ProofVerdict {
    /// Nothing could be learned from this wallet.
    Skipped,
    Opened,
    WrongKey,
}

/// Whether the local master key opens the existing cloud wallet backups.
#[derive(Debug, Clone, Copy, PartialEq, Eq, Structural)]
pub enum LocalKeyProof {
    Verified,
    WrongKey,
    Inconclusive,
}

/// The proof that a sequence of wallet verdicts makes: one opened wallet
/// verifies the key; else one wallet that rejects the key refutes it; else
/// nothing is known.
pub open spec fn proof_of(verdicts: Seq<ProofVerdict>) -> LocalKeyProof {
    if verdicts.contains(ProofVerdict::Opened) {
        LocalKeyProof::Verified
    } else if verdicts.contains(ProofVerdict::WrongKey) {
        LocalKeyProof::WrongKey
    } else {
        LocalKeyProof::Inconclusive
    }
}

/// The verdict of a decryption.
pub open spec fn decrypt_verdict(d: WalletDecrypt) -> ProofVerdict {
    match d {
        WalletDecrypt::Decrypted => ProofVerdict::Opened,
        WalletDecrypt::WrongKey => ProofVerdict::WrongKey,
        WalletDecrypt::Failed(_) => ProofVerdict::Skipped,
    }
}

/// The next thing the proof of a key needs, or its outcome.
pub enum KeyProofStep {
    Fetch(AwaitProofFetch, FetchWallet),
    Decrypt(AwaitProofDecrypt, DecryptWallet),
    Finished(LocalKeyProof),
}

/// The state of a proof: the wallets, the key and the verdicts so far.
pub struct KeyProof {
    namespace: String,
    record_ids: Vec<String>,
    master_key: Vec<u8>,
    next: usize,
    had_wrong_key: bool,
    verdicts: Ghost<Seq<ProofVerdict>>,
}

impl KeyProof {
    #[verifier::type_invariant]
    closed spec fn wf(&self) -> bool {
        &&& self.next < self.record_ids.len()
        &&& self.verdicts@.len() == self.next
        &&& !self.verdicts@.contains(ProofVerdict::Opened)
        &&& self.had_wrong_key == self.verdicts@.contains(ProofVerdict::WrongKey)
    }

    /// The wallets under proof.
    pub closed spec fn spec_record_ids(&self) -> Seq<String> {
        self.record_ids@
    }

    /// The key under proof.
    pub closed spec fn spec_master_key(&self) -> Seq<u8> {
        self.master_key@
    }

    pub closed spec fn spec_namespace(&self) -> Seq<char> {
        self.namespace@
    }

    /// The verdicts of the wallets examined so far, in order.
    pub closed spec fn spec_verdicts(&self) -> Seq<ProofVerdict> {
        self.verdicts@
    }
}

pub struct AwaitProofFetch {
    proof: KeyProof,
}

pub struct AwaitProofDecrypt {
    proof: KeyProof,
}

impl AwaitProofFetch {
    pub closed spec fn spec_proof(&self) -> KeyProof {
        self.proof
    }
}

impl AwaitProofDecrypt {
    pub closed spec fn spec_proof(&self) -> KeyProof {
        self.proof
    }
}

/// The step continues the proof `p` of the same wallets and key, at the
/// wallet after the given verdicts.
pub open spec fn proof_continues(s: KeyProofStep, p: KeyProof, verdicts: Seq<ProofVerdict>) -> bool {
    s matches KeyProofStep::Fetch(w, req) && w.spec_proof().spec_record_ids() == p.spec_record_ids()
        && w.spec_proof().spec_master_key() == p.spec_master_key()
        && w.spec_proof().spec_namespace() == p.spec_namespace()
        && w.spec_proof().spec_verdicts() == verdicts && req.namespace@ == p.spec_namespace()
        && req.record_id == p.spec_record_ids()[verdicts.len() as int]
}

/// The step after the verdict `v` of the current wallet of proof `p`: the
/// next wallet, or the end of the proof when `v` opens or no wallet is left.
pub open spec fn proof_after(s: KeyProofStep, p: KeyProof, v: ProofVerdict) -> bool {
    let verdicts = p.spec_verdicts().push(v);
    if v is Opened {
        s == KeyProofStep::Finished(LocalKeyProof::Verified)
    } else if verdicts.len() == p.spec_record_ids().len() {
        s == KeyProofStep::Finished(proof_of(verdicts))
    } else {
        proof_continues(s, p, verdicts)
    }
}

fn fetch_request(namespace: &String, record_id: &String) -> (r: FetchWallet)
    ensures
        r.namespace@ == namespace@,
        r.record_id == *record_id,
{
    FetchWallet { namespace: namespace.clone(), record_id: record_id.clone() }
}

/// Proves that `master_key` opens the wallet backups `record_ids` of
/// `namespace`: they are examined in order until one opens.
pub fn prove_local_key(namespace: &String, record_ids: Vec<String>, master_key: &Vec<u8>) -> (s:
    KeyProofStep)
    ensures
        record_ids.len() == 0 ==> s == KeyProofStep::Finished(LocalKeyProof::Inconclusive),
        record_ids.len() > 0 ==> (s matches KeyProofStep::Fetch(w, req)
            && w.spec_proof().spec_record_ids() == record_ids@
            && w.spec_proof().spec_master_key() == master_key@
            && w.spec_proof().spec_namespace() == namespace@
            && w.spec_proof().spec_verdicts() == Seq::<ProofVerdict>::empty()
            && req.namespace@ == namespace@ && req.record_id == record_ids@[0]),
{
    if record_ids.len() == 0 {
        return KeyProofStep::Finished(LocalKeyProof::Inconclusive);
    }
    let req = fetch_request(namespace, &record_ids[0]);
    let proof = KeyProof {
        namespace: namespace.clone(),
        record_ids,
        master_key: copy_bytes(master_key),
        next: 0,
        had_wrong_key: false,
        verdicts: Ghost(Seq::empty()),
    };
    KeyProofStep::Fetch(AwaitProofFetch { proof }, req)
}

impl KeyProof {
    /// Moves past the current wallet, whose verdict was `v` (not `Opened`).
    fn advance(self, v: ProofVerdict) -> (s: KeyProofStep)
        requires
            !(v is Opened),
        ensures
            proof_after(s, self, v),
    {
        proof {
            use_type_invariant(&self);
        }
        let ghost verdicts = self.verdicts@.push(v);
        let had_wrong_key = self.had_wrong_key || matches!(v, ProofVerdict::WrongKey);
        let next = self.next + 1;
        proof {
            assert(verdicts.contains(ProofVerdict::WrongKey) <==> (self.verdicts@.contains(
                ProofVerdict::WrongKey,
            ) || v == ProofVerdict::WrongKey)) by {
                if verdicts.contains(ProofVerdict::WrongKey) {
                    let i = choose|i: int|
                        0 <= i < verdicts.len() && verdicts[i] == ProofVerdict::WrongKey;
                    if i < self.verdicts@.len() {
                        assert(self.verdicts@[i] == ProofVerdict::WrongKey);
                    }
                }
                if self.verdicts@.contains(ProofVerdict::WrongKey) {
                    let i = choose|i: int|
                        0 <= i < self.verdicts@.len() && self.verdicts@[i]
                            == ProofVerdict::WrongKey;
                    assert(verdicts[i] == ProofVerdict::WrongKey);
                }
                if v == ProofVerdict::WrongKey {
                    assert(verdicts[verdicts.len() - 1] == ProofVerdict::WrongKey);
                }
            }
            assert(!verdicts.contains(ProofVerdict::Opened)) by {
                if verdicts.contains(ProofVerdict::Opened) {
                    let i = choose|i: int|
                        0 <= i < verdicts.len() && verdicts[i] == ProofVerdict::Opened;
                    if i < self.verdicts@.len() {
                        assert(self.verdicts@[i] == ProofVerdict::Opened);
                    }
                }
            }
        }
        if next == self.record_ids.len() {
            if had_wrong_key {
                return KeyProofStep::Finished(LocalKeyProof::WrongKey);
            }
            return KeyProofStep::Finished(LocalKeyProof::Inconclusive);
        }
        let req = fetch_request(&self.namespace, &self.record_ids[next]);
        let proof = KeyProof {
            namespace: self.namespace,
            record_ids: self.record_ids,
            master_key: self.master_key,
            next,
            had_wrong_key,
            verdicts: Ghost(verdicts),
        };
        KeyProofStep::Fetch(AwaitProofFetch { proof }, req)
    }
}

impl AwaitProofFetch {
    /// A backup of the supported version is decrypted with the key under
    /// proof; a failed download, an unreadable backup or another version
    /// teaches nothing and the proof moves on.
    pub fn on_fetched(self, fetch: WalletFetch) -> (s: KeyProofStep)
        ensures
            fetch matches WalletFetch::Envelope { version } && version == supported_version()
                ==> (s matches KeyProofStep::Decrypt(w, req) && w.spec_proof() == self.spec_proof()
                && req.master_key@ == self.spec_proof().spec_master_key()),
            !(fetch matches WalletFetch::Envelope { version } && version == supported_version())
                ==> proof_after(s, self.spec_proof(), ProofVerdict::Skipped),
    {
        match fetch {
            WalletFetch::Envelope { version } => {
                if version == 1 {
                    let req = DecryptWallet { master_key: copy_bytes(&self.proof.master_key) };
                    return KeyProofStep::Decrypt(AwaitProofDecrypt { proof: self.proof }, req);
                }
                self.proof.advance(ProofVerdict::Skipped)
            },
            _ => self.proof.advance(ProofVerdict::Skipped),
        }
    }
}

impl AwaitProofDecrypt {
    /// A backup that opens verifies the key and ends the proof; one that
    /// rejects the key counts against it; any other failure teaches nothing.
    pub fn on_decrypted(self, outcome: WalletDecrypt) -> (s: KeyProofStep)
        ensures
            proof_after(s, self.spec_proof(), decrypt_verdict(outcome)),
    {
        match outcome {
            WalletDecrypt::Decrypted => KeyProofStep::Finished(LocalKeyProof::Verified),
            WalletDecrypt::WrongKey => self.proof.advance(ProofVerdict::WrongKey),
            WalletDecrypt::Failed(_) => self.proof.advance(ProofVerdict::Skipped),
        }
    }
}

/// A proof that ends at its first opened wallet agrees with the proof of all
/// the verdicts seen: stopping early never changes the outcome.
pub proof fn lemma_early_stop_agrees(verdicts: Seq<ProofVerdict>, v: ProofVerdict)
    requires
        v is Opened,
    ensures
        proof_of(verdicts.push(v)) == LocalKeyProof::Verified,
{
    assert(verdicts.push(v)[verdicts.len() as int] == v);
}

/// Checks the proof of a local master key against the backups of a namespace.
pub struct LocalKeyVerifier {
    pub namespace: String,
}

impl LocalKeyVerifier {
    pub fn new(namespace: String) -> (v: LocalKeyVerifier)
        ensures
            v.namespace == namespace,
    {
        LocalKeyVerifier { namespace }
    }

    /// Starts the proof that `master_key` opens the backups `record_ids`.
    pub fn prove(&self, record_ids: Vec<String>, master_key: &Vec<u8>) -> (s: KeyProofStep)
        ensures
            record_ids.len() == 0 ==> s == KeyProofStep::Finished(LocalKeyProof::Inconclusive),
            record_ids.len() > 0 ==> (s matches KeyProofStep::Fetch(w, req)
                && w.spec_proof().spec_record_ids() == record_ids@
                && w.spec_proof().spec_master_key() == master_key@
                && w.spec_proof().spec_namespace() == self.namespace@
                && w.spec_proof().spec_verdicts() == Seq::<ProofVerdict>::empty()
                && req.namespace@ == self.namespace@ && req.record_id == record_ids@[0]),
    {
        prove_local_key(&self.namespace, record_ids, master_key)
    }
}

// ---------------------------------------------------------------------------
// Tally of a deep verification
// ---------------------------------------------------------------------------

/// What one wallet contributes to the tally.
#[derive(Debug, Clone, Copy, PartialEq, Eq, Structural)]
pub enum TallyVerdict {
    Verified,
    Failed,
    /// A backup of a newer format, skipped.
    Unsupported,
}

/// The number of wallets with verdict `v`.
pub open spec fn count_of(verdicts: Seq<TallyVerdict>, v: TallyVerdict) -> nat
    decreases verdicts.len(),
{
    if verdicts.len() == 0 {
        0
    } else {
        count_of(verdicts.drop_last(), v) + if verdicts.last() == v {
            1nat
        } else {
            0nat
        }
    }
}

/// The tally verdict of a decryption: it verifies or fails the wallet.
pub open spec fn tally_decrypt_verdict(d: WalletDecrypt) -> TallyVerdict {
    if d is Decrypted {
        TallyVerdict::Verified
    } else {
        TallyVerdict::Failed
    }
}

/// The tally verdict of a fetch that ends the examination of a wallet: an
/// unsupported version is skipped, anything else fails.
pub open spec fn tally_fetch_verdict(f: WalletFetch) -> TallyVerdict {
    if f is Envelope {
        TallyVerdict::Unsupported
    } else {
        TallyVerdict::Failed
    }
}

/// Verified, failed and unsupported wallets, in that order.
pub type TallyCounts = (u32, u32, u32);

/// The counts of a sequence of verdicts.
pub open spec fn counts_of(verdicts: Seq<TallyVerdict>) -> (nat, nat, nat) {
    (
        count_of(verdicts, TallyVerdict::Verified),
        count_of(verdicts, TallyVerdict::Failed),
        count_of(verdicts, TallyVerdict::Unsupported),
    )
}

pub enum TallyStep {
    Fetch(AwaitTallyFetch, FetchWallet),
    Decrypt(AwaitTallyDecrypt, DecryptWallet),
    Finished(TallyCounts),
}

/// The state of a tally: the wallets, the key and the verdicts so far.
pub struct WalletTally {
    namespace: String,
    record_ids: Vec<String>,
    master_key: Vec<u8>,
    next: usize,
    verified: u32,
    failed: u32,
    unsupported: u32,
    verdicts: Ghost<Seq<TallyVerdict>>,
}

impl WalletTally {
    #[verifier::type_invariant]
    closed spec fn wf(&self) -> bool {
        &&& self.next < self.record_ids.len() <= u32::MAX
        &&& self.verdicts@.len() == self.next
        &&& self.verified == count_of(self.verdicts@, TallyVerdict::Verified)
        &&& self.failed == count_of(self.verdicts@, TallyVerdict::Failed)
        &&& self.unsupported == count_of(self.verdicts@, TallyVerdict::Unsupported)
    }

    pub closed spec fn spec_record_ids(&self) -> Seq<String> {
        self.record_ids@
    }

    pub closed spec fn spec_master_key(&self) -> Seq<u8> {
        self.master_key@
    }

    pub closed spec fn spec_namespace(&self) -> Seq<char> {
        self.namespace@
    }

    pub closed spec fn spec_verdicts(&self) -> Seq<TallyVerdict> {
        self.verdicts@
    }
}

pub struct AwaitTallyFetch {
    tally: WalletTally,
}

pub struct AwaitTallyDecrypt {
    tally: WalletTally,
}

impl AwaitTallyFetch {
    pub closed spec fn spec_tally(&self) -> WalletTally {
        self.tally
    }
}

impl AwaitTallyDecrypt {
    pub closed spec fn spec_tally(&self) -> WalletTally {
        self.tally
    }
}

/// The step after the verdict `v` of the current wallet of tally `t`: the
/// next wallet, or the counts of all verdicts when none is left.
pub open spec fn tally_after(s: TallyStep, t: WalletTally, v: TallyVerdict) -> bool {
    let verdicts = t.spec_verdicts().push(v);
    if verdicts.len() == t.spec_record_ids().len() {
        s matches TallyStep::Finished(c) && (c.0 as nat, c.1 as nat, c.2 as nat) == counts_of(
            verdicts,
        )
    } else {
        s matches TallyStep::Fetch(w, req) && w.spec_tally().spec_record_ids()
            == t.spec_record_ids() && w.spec_tally().spec_master_key() == t.spec_master_key()
            && w.spec_tally().spec_namespace() == t.spec_namespace()
            && w.spec_tally().spec_verdicts() == verdicts && req.namespace@ == t.spec_namespace()
            && req.record_id == t.spec_record_ids()[verdicts.len() as int]
    }
}

proof fn lemma_count_push(verdicts: Seq<TallyVerdict>, v: TallyVerdict, w: TallyVerdict)
    ensures
        count_of(verdicts.push(v), w) == count_of(verdicts, w) + if v == w {
            1nat
        } else {
            0nat
        },
        count_of(verdicts, w) <= verdicts.len(),
    decreases verdicts.len(),
{
    assert(verdicts.push(v).drop_last() =~= verdicts);
    if verdicts.len() > 0 {
        lemma_count_push(verdicts.drop_last(), verdicts.last(), w);
        assert(verdicts.drop_last().push(verdicts.last()) =~= verdicts);
    }
}

/// Tallies the wallet backups `record_ids` of `namespace` under `master_key`:
/// every wallet is examined.
pub fn verify_wallet_backups(namespace: &String, record_ids: Vec<String>, master_key: &Vec<u8>) -> (s:
    TallyStep)
    requires
        record_ids.len() <= u32::MAX,
    ensures
        record_ids.len() == 0 ==> s == TallyStep::Finished((0u32, 0u32, 0u32)),
        record_ids.len() > 0 ==> (s matches TallyStep::Fetch(w, req)
            && w.spec_tally().spec_record_ids() == record_ids@
            && w.spec_tally().spec_master_key() == master_key@
            && w.spec_tally().spec_namespace() == namespace@
            && w.spec_tally().spec_verdicts() == Seq::<TallyVerdict>::empty()
            && req.namespace@ == namespace@ && req.record_id == record_ids@[0]),
{
    if record_ids.len() == 0 {
        return TallyStep::Finished((0, 0, 0));
    }
    let req = fetch_request(namespace, &record_ids[0]);
    let tally = WalletTally {
        namespace: namespace.clone(),
        record_ids,
        master_key: copy_bytes(master_key),
        next: 0,
        verified: 0,
        failed: 0,
        unsupported: 0,
        verdicts: Ghost(Seq::empty()),
    };
    TallyStep::Fetch(AwaitTallyFetch { tally }, req)
}

impl WalletTally {
    fn advance(self, v: TallyVerdict) -> (s: TallyStep)
        ensures
            tally_after(s, self, v),
    {
        proof {
            use_type_invariant(&self);
            lemma_count_push(self.verdicts@, v, TallyVerdict::Verified);
            lemma_count_push(self.verdicts@, v, TallyVerdict::Failed);
            lemma_count_push(self.verdicts@, v, TallyVerdict::Unsupported);
        }
        let ghost verdicts = self.verdicts@.push(v);
        let mut verified = self.verified;
        let mut failed = self.failed;
        let mut unsupported = self.unsupported;
        match v {
            TallyVerdict::Verified => verified = verified + 1,
            TallyVerdict::Failed => failed = failed + 1,
            TallyVerdict::Unsupported => unsupported = unsupported + 1,
        }
        let next = self.next + 1;
        if next == self.record_ids.len() {
            return TallyStep::Finished((verified, failed, unsupported));
        }
        let req = fetch_request(&self.namespace, &self.record_ids[next]);
        let tally = WalletTally {
            namespace: self.namespace,
            record_ids: self.record_ids,
            master_key: self.master_key,
            next,
            verified,
            failed,
            unsupported,
            verdicts: Ghost(verdicts),
        };
        TallyStep::Fetch(AwaitTallyFetch { tally }, req)
    }
}

impl AwaitTallyFetch {
    /// A backup of the supported version is decrypted; another version is
    /// unsupported; a failed download or an unreadable backup fails.
    pub fn on_fetched(self, fetch: WalletFetch) -> (s: TallyStep)
        ensures
            fetch matches WalletFetch::Envelope { version } && version == supported_version()
                ==> (s matches TallyStep::Decrypt(w, req) && w.spec_tally() == self.spec_tally()
                && req.master_key@ == self.spec_tally().spec_master_key()),
            !(fetch matches WalletFetch::Envelope { version } && version == supported_version())
                ==> tally_after(s, self.spec_tally(), tally_fetch_verdict(fetch)),
    {
        match fetch {
            WalletFetch::Envelope { version } => {
                if version == 1 {
                    let req = DecryptWallet { master_key: copy_bytes(&self.tally.master_key) };
                    return TallyStep::Decrypt(AwaitTallyDecrypt { tally: self.tally }, req);
                }
                self.tally.advance(TallyVerdict::Unsupported)
            },
            _ => self.tally.advance(TallyVerdict::Failed),
        }
    }
}

impl AwaitTallyDecrypt {
    /// A backup that opens is verified; any failure to open it fails it.
    pub fn on_decrypted(self, outcome: WalletDecrypt) -> (s: TallyStep)
        ensures
            tally_after(s, self.spec_tally(), tally_decrypt_verdict(outcome)),
    {
        match outcome {
            WalletDecrypt::Decrypted => self.tally.advance(TallyVerdict::Verified),
            _ => self.tally.advance(TallyVerdict::Failed),
        }
    }
}

/// Every wallet of a tally is counted once: the three counts add up to the
/// number of verdicts.
pub proof fn lemma_tally_counts_every_wallet(verdicts: Seq<TallyVerdict>)
    ensures
        count_of(verdicts, TallyVerdict::Verified) + count_of(verdicts, TallyVerdict::Failed)
            + count_of(verdicts, TallyVerdict::Unsupported) == verdicts.len(),
    decreases verdicts.len(),
{
    if verdicts.len() > 0 {
        lemma_tally_counts_every_wallet(verdicts.drop_last());
    }
}

/// Only a decryption can verify a wallet: a fetch that ends the examination
/// of a wallet (a failed download, an unreadable backup, a backup of another
/// version) never adds to the verified count; a failed download or an
/// unreadable backup adds one failed wallet, another version one unsupported
/// wallet, and a decryption (of a backup of version 1, the only one read)
/// verifies the wallet exactly when it opened.
pub proof fn lemma_only_decryption_verifies(verdicts: Seq<TallyVerdict>, f: WalletFetch, d: WalletDecrypt)
    ensures
        supported_version() == 1,
        count_of(verdicts.push(tally_fetch_verdict(f)), TallyVerdict::Verified) == count_of(
            verdicts,
            TallyVerdict::Verified,
        ),
        f is DownloadFailed || f is Unreadable ==> count_of(
            verdicts.push(tally_fetch_verdict(f)),
            TallyVerdict::Failed,
        ) == count_of(verdicts, TallyVerdict::Failed) + 1,
        f is Envelope ==> count_of(verdicts.push(tally_fetch_verdict(f)), TallyVerdict::Unsupported)
            == count_of(verdicts, TallyVerdict::Unsupported) + 1,
        count_of(verdicts.push(tally_decrypt_verdict(d)), TallyVerdict::Verified) == count_of(
            verdicts,
            TallyVerdict::Verified,
        ) + if d is Decrypted {
            1nat
        } else {
            0nat
        },
{
    lemma_count_push(verdicts, tally_fetch_verdict(f), TallyVerdict::Verified);
    lemma_count_push(verdicts, tally_fetch_verdict(f), TallyVerdict::Failed);
    lemma_count_push(verdicts, tally_fetch_verdict(f), TallyVerdict::Unsupported);
    lemma_count_push(verdicts, tally_decrypt_verdict(d), TallyVerdict::Verified);
}

// ---------------------------------------------------------------------------
// Errors of the wrapper repair
// ---------------------------------------------------------------------------

/// Why the repair of the master key wrapper stopped.
#[derive(Debug)]
pub enum WrapperRepairError {
    WrongKey,
    Inconclusive,
    Operation(CloudBackupError),
}

impl WrapperRepairError {
    /// The backup error that reports this failure: a refuted key is a crypto
    /// error, an inconclusive proof a cloud error, an operation's error is
    /// kept.
    pub fn into_cloud_backup_error(self) -> (e: CloudBackupError)
        ensures
            self is WrongKey ==> (e matches CloudBackupError::Crypto(m) && m@
                == "local master key cannot decrypt existing cloud wallet backups"@),
            self is Inconclusive ==> (e matches CloudBackupError::Cloud(m) && m@
                == "could not download any wallet to verify local key"@),
            self matches WrapperRepairError::Operation(op) ==> e == op,
    {
        match self {
            WrapperRepairError::WrongKey => CloudBackupError::Crypto(
                String::from_str("local master key cannot decrypt existing cloud wallet backups"),
            ),
            WrapperRepairError::Inconclusive => CloudBackupError::Cloud(
                String::from_str("could not download any wallet to verify local key"),
            ),
            WrapperRepairError::Operation(error) => error,
        }
    }
}

} // verus!
