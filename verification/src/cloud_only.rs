//! The wallets that exist only in the cloud: the backups of the current
//! namespace that no local wallet has, read for display without being
//! restored.

use vstd::prelude::*;
use vstd::string::*;
use crate::cloud_storage::CloudStorageError;
use crate::credentials::{internal_with_prefix, NAMESPACE_ID_KEY};
use crate::inventory::{cloud_only_record_ids, local_record_ids, orphans, texts, LocalWallet};
use crate::manager::{current_namespace_id, is_missing_namespace_error};
use crate::model::{
    copy_bytes, CloudBackupError, CloudBackupWalletItem, CloudBackupWalletStatus, Network, WalletMode,
    WalletType,
};
use crate::uploads::{cloud_error, is_cloud_error, is_prefixed_internal};
use crate::wallet_checks::{DecryptWallet, FetchWallet, WalletFetch};

verus! {

broadcast use vstd::seq::group_seq_axioms;

/// What the metadata of a decrypted cloud-only wallet tells.
#[derive(Debug)]
pub struct OrphanWallet {
    pub name: String,
    pub network: Network,
    pub wallet_mode: WalletMode,
    pub wallet_type: WalletType,
    /// The master fingerprint in upper case, if the wallet has one.
    pub fingerprint: Option<String>,
}

/// What decrypting a cloud-only wallet and parsing its metadata gave.
#[derive(Debug)]
pub enum OrphanOpening {
    /// Decryption or the metadata failed, with the text.
    Failed(String),
    Opened(OrphanWallet),
}

/// The item that lists a cloud-only wallet.
pub open spec fn orphan_item(w: OrphanWallet, record_id: String) -> CloudBackupWalletItem {
    CloudBackupWalletItem {
        name: w.name,
        network: w.network,
        wallet_mode: w.wallet_mode,
        wallet_type: w.wallet_type,
        fingerprint: w.fingerprint,
        status: CloudBackupWalletStatus::DeletedFromDevice,
        record_id: Some(record_id),
    }
}

/// The items of the cloud-only wallets that opened, in order: `opened[k]`
/// is what the wallet `record_ids[k]` gave, `None` when it was skipped.
pub open spec fn orphan_items(opened: Seq<Option<OrphanWallet>>, record_ids: Seq<String>) -> Seq<
    CloudBackupWalletItem,
>
    decreases opened.len(),
{
    if opened.len() == 0 {
        Seq::empty()
    } else {
        let rest = orphan_items(opened.drop_last(), record_ids);
        match opened.last() {
            Some(w) => rest.push(orphan_item(w, record_ids[opened.len() - 1])),
            None => rest,
        }
    }
}

pub enum CloudOnlyStep {
    LoadNamespace(AwaitOrphanNamespace),
    ListWallets(AwaitOrphanListing, String),
    LoadLocalWallets(AwaitOrphanLocals),
    /// Get the keychain's master key, creating one if there is none.
    LoadMasterKey(AwaitOrphanKey),
    Fetch(AwaitOrphanFetch, FetchWallet),
    Open(AwaitOrphanOpen, DecryptWallet),
    Finished(Result<Vec<CloudBackupWalletItem>, CloudBackupError>),
}

pub struct AwaitOrphanNamespace {}

pub struct AwaitOrphanListing {
    namespace: String,
}

pub struct AwaitOrphanLocals {
    namespace: String,
    record_ids: Vec<String>,
}

pub struct AwaitOrphanKey {
    namespace: String,
    orphan_ids: Vec<String>,
}

/// A scan of the cloud-only wallets: the records, the key, and what each
/// wallet examined so far gave.
pub struct OrphanScan {
    namespace: String,
    orphan_ids: Vec<String>,
    master_key: Vec<u8>,
    next: usize,
    items: Vec<CloudBackupWalletItem>,
    opened: Ghost<Seq<Option<OrphanWallet>>>,
}

pub struct AwaitOrphanFetch {
    scan: OrphanScan,
}

pub struct AwaitOrphanOpen {
    scan: OrphanScan,
}

impl AwaitOrphanListing {
    pub closed spec fn spec_namespace(&self) -> Seq<char> {
        self.namespace@
    }
}

impl AwaitOrphanLocals {
    pub closed spec fn spec_namespace(&self) -> Seq<char> {
        self.namespace@
    }

    pub closed spec fn spec_record_ids(&self) -> Seq<String> {
        self.record_ids@
    }
}

impl AwaitOrphanKey {
    pub closed spec fn spec_namespace(&self) -> Seq<char> {
        self.namespace@
    }

    pub closed spec fn spec_orphan_ids(&self) -> Seq<String> {
        self.orphan_ids@
    }
}

impl OrphanScan {
    #[verifier::type_invariant]
    closed spec fn wf(&self) -> bool {
        &&& self.next <= self.orphan_ids.len()
        &&& self.opened@.len() == self.next
        &&& self.items@ == orphan_items(self.opened@, self.orphan_ids@)
    }

    pub closed spec fn spec_namespace(&self) -> Seq<char> {
        self.namespace@
    }

    pub closed spec fn spec_orphan_ids(&self) -> Seq<String> {
        self.orphan_ids@
    }

    pub closed spec fn spec_master_key(&self) -> Seq<u8> {
        self.master_key@
    }

    /// What each wallet examined so far gave, in order.
    pub closed spec fn spec_opened(&self) -> Seq<Option<OrphanWallet>> {
        self.opened@
    }
}

impl AwaitOrphanFetch {
    #[verifier::type_invariant]
    closed spec fn wf(&self) -> bool {
        self.scan.next < self.scan.orphan_ids.len()
    }

    pub closed spec fn spec_scan(&self) -> OrphanScan {
        self.scan
    }
}

impl AwaitOrphanOpen {
    #[verifier::type_invariant]
    closed spec fn wf(&self) -> bool {
        self.scan.next < self.scan.orphan_ids.len()
    }

    pub closed spec fn spec_scan(&self) -> OrphanScan {
        self.scan
    }
}

/// The step goes on with the wallet after those examined, or lists the
/// items of the wallets that opened when none is left.
pub open spec fn continues_scan(s: CloudOnlyStep, scan: OrphanScan) -> bool {
    let i = scan.spec_opened().len() as int;
    if i < scan.spec_orphan_ids().len() {
        s matches CloudOnlyStep::Fetch(w, req) && w.spec_scan() == scan && req.namespace@
            == scan.spec_namespace() && req.record_id == scan.spec_orphan_ids()[i]
    } else {
        s matches CloudOnlyStep::Finished(Ok(items)) && items@ == orphan_items(
            scan.spec_opened(),
            scan.spec_orphan_ids(),
        )
    }
}

/// `r` is the scan `old` with one more wallet examined, which gave `opened`.
pub open spec fn scanned(r: OrphanScan, old: OrphanScan, opened: Option<OrphanWallet>) -> bool {
    &&& r.spec_namespace() == old.spec_namespace()
    &&& r.spec_orphan_ids() == old.spec_orphan_ids()
    &&& r.spec_master_key() == old.spec_master_key()
    &&& r.spec_opened() == old.spec_opened().push(opened)
}

/// The step records `opened` for the wallet under examination of `old` and
/// goes on.
pub open spec fn scan_goes_on(s: CloudOnlyStep, old: OrphanScan, opened: Option<OrphanWallet>) -> bool {
    exists|r: OrphanScan| #[trigger] scanned(r, old, opened) && continues_scan(s, r)
}

fn continue_scan(scan: OrphanScan) -> (s: CloudOnlyStep)
    ensures
        continues_scan(s, scan),
{
    proof {
        use_type_invariant(&scan);
    }
    if scan.next < scan.orphan_ids.len() {
        let req = FetchWallet {
            namespace: scan.namespace.clone(),
            record_id: scan.orphan_ids[scan.next].clone(),
        };
        CloudOnlyStep::Fetch(AwaitOrphanFetch { scan }, req)
    } else {
        CloudOnlyStep::Finished(Ok(scan.items))
    }
}

/// Records what the wallet under examination gave and goes on.
fn record_orphan(scan: OrphanScan, opened: Option<OrphanWallet>) -> (s: CloudOnlyStep)
    requires
        scan.spec_opened().len() < scan.spec_orphan_ids().len(),
    ensures
        scan_goes_on(s, scan, opened),
{
    proof {
        use_type_invariant(&scan);
    }
    let ghost old_scan = scan;
    let ghost now = scan.opened@.push(opened);
    let mut items = scan.items;
    proof {
        assert(now.drop_last() =~= scan.opened@);
    }
    match opened {
        Some(w) => {
            items.push(
                CloudBackupWalletItem {
                    name: w.name,
                    network: w.network,
                    wallet_mode: w.wallet_mode,
                    wallet_type: w.wallet_type,
                    fingerprint: w.fingerprint,
                    status: CloudBackupWalletStatus::DeletedFromDevice,
                    record_id: Some(scan.orphan_ids[scan.next].clone()),
                },
            );
        },
        None => {},
    }
    let next_scan = OrphanScan {
        namespace: scan.namespace,
        orphan_ids: scan.orphan_ids,
        master_key: scan.master_key,
        next: scan.next + 1,
        items,
        opened: Ghost(now),
    };
    let ghost g = next_scan;
    let s = continue_scan(next_scan);
    assert(scanned(g, old_scan, opened) && continues_scan(s, g));
    s
}

/// Lists the wallets of the current namespace's backup that are not on this
/// device, read from their backups; a wallet that cannot be downloaded,
/// read or decrypted is left out.
pub fn do_fetch_cloud_only_wallets() -> (s: CloudOnlyStep)
    ensures
        s is LoadNamespace,
{
    CloudOnlyStep::LoadNamespace(AwaitOrphanNamespace {})
}

impl AwaitOrphanNamespace {
    /// The keychain entry whose value `on_namespace` takes: the namespace.
    pub fn entry(&self) -> (k: &'static str)
        ensures
            k@ == NAMESPACE_ID_KEY@,
    {
        NAMESPACE_ID_KEY
    }

    pub fn on_namespace(self, stored: Option<String>) -> (s: CloudOnlyStep)
        ensures
            stored matches Some(ns) ==> (s matches CloudOnlyStep::ListWallets(w, listed) && listed@
                == ns@ && w.spec_namespace() == ns@),
            stored is None ==> (s matches CloudOnlyStep::Finished(Err(e)) && is_missing_namespace_error(e)),
    {
        match current_namespace_id(stored) {
            Ok(namespace) => {
                let listed = namespace.clone();
                CloudOnlyStep::ListWallets(AwaitOrphanListing { namespace }, listed)
            },
            Err(e) => CloudOnlyStep::Finished(Err(e)),
        }
    }
}

impl AwaitOrphanListing {
    pub fn on_listed(self, listing: Result<Vec<String>, CloudStorageError>) -> (s: CloudOnlyStep)
        ensures
            listing matches Err(c) ==> (s matches CloudOnlyStep::Finished(Err(e)) && is_cloud_error(e, c)),
            listing matches Ok(ids) ==> (s matches CloudOnlyStep::LoadLocalWallets(w)
                && w.spec_namespace() == self.spec_namespace() && w.spec_record_ids() == ids@),
    {
        match listing {
            Err(c) => CloudOnlyStep::Finished(Err(cloud_error(&c))),
            Ok(record_ids) => CloudOnlyStep::LoadLocalWallets(
                AwaitOrphanLocals { namespace: self.namespace, record_ids },
            ),
        }
    }
}

impl AwaitOrphanLocals {
    /// Without cloud-only wallets the list is empty and no key is needed.
    pub fn on_local_wallets(self, local: Vec<LocalWallet>) -> (s: CloudOnlyStep)
        ensures
            orphans(texts(self.spec_record_ids()), local_record_ids(local@)).len() == 0 ==> (
            s matches CloudOnlyStep::Finished(Ok(items)) && items@.len() == 0),
            orphans(texts(self.spec_record_ids()), local_record_ids(local@)).len() > 0 ==> (
            s matches CloudOnlyStep::LoadMasterKey(w) && w.spec_namespace() == self.spec_namespace()
                && texts(w.spec_orphan_ids()) == orphans(
                texts(self.spec_record_ids()),
                local_record_ids(local@),
            )),
    {
        let orphan_ids = cloud_only_record_ids(&self.record_ids, &local);
        if orphan_ids.len() == 0 {
            CloudOnlyStep::Finished(Ok(Vec::new()))
        } else {
            CloudOnlyStep::LoadMasterKey(AwaitOrphanKey { namespace: self.namespace, orphan_ids })
        }
    }
}

impl AwaitOrphanKey {
    pub fn on_master_key(self, master_key: Result<Vec<u8>, String>) -> (s: CloudOnlyStep)
        ensures
            master_key matches Err(e) ==> (s matches CloudOnlyStep::Finished(Err(err))
                && is_prefixed_internal(err, "master key"@, e@)),
            master_key matches Ok(mk) ==> exists|scan: OrphanScan|
                #[trigger] scan.spec_master_key() == mk@ && scan.spec_namespace()
                    == self.spec_namespace() && scan.spec_orphan_ids() == self.spec_orphan_ids()
                    && scan.spec_opened().len() == 0 && continues_scan(s, scan),
    {
        match master_key {
            Err(e) => CloudOnlyStep::Finished(Err(internal_with_prefix("master key", &e))),
            Ok(master_key) => {
                let scan = OrphanScan {
                    namespace: self.namespace,
                    orphan_ids: self.orphan_ids,
                    master_key,
                    next: 0,
                    items: Vec::new(),
                    opened: Ghost(Seq::empty()),
                };
                proof {
                    assert(scan.items@ =~= orphan_items(scan.opened@, scan.orphan_ids@));
                }
                let ghost g = scan;
                let s = continue_scan(scan);
                assert(g.spec_master_key() == g.master_key@ && continues_scan(s, g));
                s
            },
        }
    }
}

impl AwaitOrphanFetch {
    /// A backup that downloads and parses is decrypted, whatever its format
    /// version; otherwise the wallet is skipped.
    pub fn on_fetched(self, fetch: WalletFetch) -> (s: CloudOnlyStep)
        ensures
            fetch is Envelope ==> (s matches CloudOnlyStep::Open(w, req) && w.spec_scan()
                == self.spec_scan() && req.master_key@ == self.spec_scan().spec_master_key()),
            !(fetch is Envelope) ==> scan_goes_on(s, self.spec_scan(), None),
    {
        proof {
            use_type_invariant(&self);
            use_type_invariant(&self.scan);
        }
        match fetch {
            WalletFetch::Envelope { .. } => {
                let req = DecryptWallet { master_key: copy_bytes(&self.scan.master_key) };
                CloudOnlyStep::Open(AwaitOrphanOpen { scan: self.scan }, req)
            },
            _ => record_orphan(self.scan, None),
        }
    }
}

impl AwaitOrphanOpen {
    /// An opened wallet is listed as deleted from the device, with its
    /// record; a failure skips it.
    pub fn on_opened(self, opening: OrphanOpening) -> (s: CloudOnlyStep)
        ensures
            opening matches OrphanOpening::Opened(w) ==> scan_goes_on(s, self.spec_scan(), Some(w)),
            opening is Failed ==> scan_goes_on(s, self.spec_scan(), None),
    {
        proof {
            use_type_invariant(&self);
            use_type_invariant(&self.scan);
        }
        match opening {
            OrphanOpening::Opened(w) => record_orphan(self.scan, Some(w)),
            OrphanOpening::Failed(_) => record_orphan(self.scan, None),
        }
    }
}

} // verus!
