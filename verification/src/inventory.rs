//! The local wallets compared with the cloud listing: what is backed up,
//! what is not, and what exists only in the cloud.

use vstd::prelude::*;
use crate::model::{
    copy_opt_string, CloudBackupDetail, CloudBackupDetailView, CloudBackupWalletItem, CloudBackupWalletStatus, Network,
    WalletMode, WalletType,
};

verus! {

broadcast use vstd::seq::group_seq_axioms, vstd::set::group_set_axioms;

/// A wallet of this device, with the record ID of its cloud backup.
#[derive(Debug, Clone)]
pub struct LocalWallet {
    pub id: String,
    pub name: String,
    pub network: Network,
    pub wallet_mode: WalletMode,
    pub wallet_type: WalletType,
    /// The master fingerprint in upper case, if the wallet has one.
    pub fingerprint: Option<String>,
    pub record_id: String,
}

impl LocalWallet {
    /// A copy of the wallet, field by field.
    pub fn duplicate(&self) -> (r: LocalWallet)
        ensures
            r == *self,
    {
        LocalWallet {
            id: self.id.clone(),
            name: self.name.clone(),
            network: self.network,
            wallet_mode: self.wallet_mode,
            wallet_type: self.wallet_type,
            fingerprint: copy_opt_string(&self.fingerprint),
            record_id: self.record_id.clone(),
        }
    }
}

/// The texts of a list of strings.
pub open spec fn texts(ids: Seq<String>) -> Seq<Seq<char>> {
    ids.map_values(|s: String| s@)
}

/// The record IDs of the local wallets.
pub open spec fn local_record_ids(local: Seq<LocalWallet>) -> Seq<Seq<char>> {
    local.map_values(|w: LocalWallet| w.record_id@)
}

/// The item that lists a local wallet with the given status.
pub open spec fn item_of(w: LocalWallet, status: CloudBackupWalletStatus) -> CloudBackupWalletItem {
    CloudBackupWalletItem {
        name: w.name,
        network: w.network,
        wallet_mode: w.wallet_mode,
        wallet_type: w.wallet_type,
        fingerprint: w.fingerprint,
        status,
        record_id: None,
    }
}

/// The items of the local wallets whose backup is (`backed`) or is not
/// (`!backed`) in the cloud listing, in the order of the local wallets.
pub open spec fn listed_items(local: Seq<LocalWallet>, cloud: Seq<Seq<char>>, backed: bool) -> Seq<
    CloudBackupWalletItem,
>
    decreases local.len(),
{
    if local.len() == 0 {
        Seq::empty()
    } else {
        let rest = listed_items(local.drop_last(), cloud, backed);
        let w = local.last();
        if cloud.contains(w.record_id@) == backed {
            rest.push(
                item_of(
                    w,
                    if backed {
                        CloudBackupWalletStatus::BackedUp
                    } else {
                        CloudBackupWalletStatus::NotBackedUp
                    },
                ),
            )
        } else {
            rest
        }
    }
}

/// Every local wallet is listed exactly once in the detail: as backed up
/// when the listing has its record, as not backed up otherwise.
pub proof fn lemma_detail_lists_every_local_wallet(local: Seq<LocalWallet>, cloud: Seq<Seq<char>>)
    ensures
        listed_items(local, cloud, true).len() + listed_items(local, cloud, false).len() == local.len(),
    decreases local.len(),
{
    if local.len() > 0 {
        lemma_detail_lists_every_local_wallet(local.drop_last(), cloud);
    }
}

/// The distinct record IDs of the cloud listing that no local wallet has.
pub open spec fn cloud_only_ids(cloud: Seq<Seq<char>>, local: Seq<Seq<char>>) -> Set<Seq<char>> {
    Set::new(|r: Seq<char>| cloud.contains(r) && !local.contains(r))
}

/// Whether `id` is one of `ids`.
pub fn contains_id(ids: &Vec<String>, id: &String) -> (b: bool)
    ensures
        b == texts(ids@).contains(id@),
{
    let mut i: usize = 0;
    while i < ids.len()
        invariant
            0 <= i <= ids.len(),
            forall|j: int| 0 <= j < i ==> ids@[j]@ != id@,
        decreases ids.len() - i,
    {
        if ids[i] == *id {
            assert(texts(ids@)[i as int] == id@);
            return true;
        }
        i = i + 1;
    }
    assert forall|j: int| 0 <= j < texts(ids@).len() implies texts(ids@)[j] != id@ by {
        assert(texts(ids@)[j] == ids@[j]@);
    }
    false
}

/// Whether some local wallet has the record ID `id`.
pub fn has_local_record(local: &Vec<LocalWallet>, id: &String) -> (b: bool)
    ensures
        b == local_record_ids(local@).contains(id@),
{
    let mut i: usize = 0;
    while i < local.len()
        invariant
            0 <= i <= local.len(),
            forall|j: int| 0 <= j < i ==> local@[j].record_id@ != id@,
        decreases local.len() - i,
    {
        if local[i].record_id == *id {
            assert(local_record_ids(local@)[i as int] == id@);
            return true;
        }
        i = i + 1;
    }
    assert forall|j: int| 0 <= j < local_record_ids(local@).len() implies local_record_ids(
        local@,
    )[j] != id@ by {
        assert(local_record_ids(local@)[j] == local@[j].record_id@);
    }
    false
}

proof fn lemma_cloud_only_push(cloud: Seq<Seq<char>>, x: Seq<char>, local: Seq<Seq<char>>)
    ensures
        !local.contains(x) ==> cloud_only_ids(cloud.push(x), local) == cloud_only_ids(
            cloud,
            local,
        ).insert(x),
        local.contains(x) ==> cloud_only_ids(cloud.push(x), local) == cloud_only_ids(cloud, local),
{
    assert forall|r: Seq<char>| #[trigger] cloud.push(x).contains(r) <==> (cloud.contains(r) || r
        == x) by {
        if cloud.push(x).contains(r) {
            let i = choose|i: int| 0 <= i < cloud.push(x).len() && cloud.push(x)[i] == r;
            if i < cloud.len() {
                assert(cloud[i] == r);
            }
        }
        if cloud.contains(r) {
            let i = choose|i: int| 0 <= i < cloud.len() && cloud[i] == r;
            assert(cloud.push(x)[i] == r);
        }
        if r == x {
            assert(cloud.push(x)[cloud.len() as int] == x);
        }
    }
    if !local.contains(x) {
        assert(cloud_only_ids(cloud.push(x), local) =~= cloud_only_ids(cloud, local).insert(x));
    } else {
        assert(cloud_only_ids(cloud.push(x), local) =~= cloud_only_ids(cloud, local));
    }
}

/// The detail that the cloud listing `cloud` gives for the local wallets.
pub open spec fn built_detail(
    last_sync: Option<u64>,
    local: Seq<LocalWallet>,
    cloud: Seq<String>,
) -> CloudBackupDetailView {
    CloudBackupDetailView {
        last_sync,
        backed_up: listed_items(local, texts(cloud), true),
        not_backed_up: listed_items(local, texts(cloud), false),
        cloud_only_count: #[verifier::truncate] (cloud_only_ids(texts(cloud), local_record_ids(local)).len() as u32),
    }
}

/// Builds the backup detail from the cloud listing: the local wallets whose
/// record is listed are backed up, the others are not; the cloud-only count
/// is the number of distinct listed records that no local wallet has.
pub fn build_detail_from_wallet_ids(
    last_sync: Option<u64>,
    local: &Vec<LocalWallet>,
    wallet_record_ids: &Vec<String>,
) -> (d: CloudBackupDetail)
    ensures
        d@ == built_detail(last_sync, local@, wallet_record_ids@),
        d.last_sync == last_sync,
        d.backed_up@ == listed_items(local@, texts(wallet_record_ids@), true),
        d.not_backed_up@ == listed_items(local@, texts(wallet_record_ids@), false),
        d.cloud_only_count == #[verifier::truncate] (cloud_only_ids(
            texts(wallet_record_ids@),
            local_record_ids(local@),
        ).len() as u32),
{
    let ghost cloud = texts(wallet_record_ids@);
    let mut backed_up: Vec<CloudBackupWalletItem> = Vec::new();
    let mut not_backed_up: Vec<CloudBackupWalletItem> = Vec::new();
    for i in 0..local.len()
        invariant
            cloud == texts(wallet_record_ids@),
            backed_up@ == listed_items(local@.subrange(0, i as int), cloud, true),
            not_backed_up@ == listed_items(local@.subrange(0, i as int), cloud, false),
    {
        let w = &local[i];
        let backed = contains_id(wallet_record_ids, &w.record_id);
        let status = if backed {
            CloudBackupWalletStatus::BackedUp
        } else {
            CloudBackupWalletStatus::NotBackedUp
        };
        let item = CloudBackupWalletItem {
            name: w.name.clone(),
            network: w.network,
            wallet_mode: w.wallet_mode,
            wallet_type: w.wallet_type,
            fingerprint: copy_opt_string(&w.fingerprint),
            status,
            record_id: None,
        };
        assert(local@.subrange(0, i + 1).drop_last() =~= local@.subrange(0, i as int));
        match item.status {
            CloudBackupWalletStatus::BackedUp => backed_up.push(item),
            _ => not_backed_up.push(item),
        }
    }
    assert(local@.subrange(0, local.len() as int) =~= local@);

    let ghost local_ids = local_record_ids(local@);
    let mut count: usize = 0;
    assert(cloud_only_ids(cloud.subrange(0, 0), local_ids) =~= Set::<Seq<char>>::empty());
    for i in 0..wallet_record_ids.len()
        invariant
            cloud == texts(wallet_record_ids@),
            local_ids == local_record_ids(local@),
            cloud_only_ids(cloud.subrange(0, i as int), local_ids).finite(),
            count == cloud_only_ids(cloud.subrange(0, i as int), local_ids).len(),
            count <= i,
    {
        let ghost prefix = cloud.subrange(0, i as int);
        let rid = &wallet_record_ids[i];
        let mut seen = false;
        let mut j: usize = 0;
        while j < i
            invariant
                0 <= j <= i < wallet_record_ids.len(),
                rid == wallet_record_ids@[i as int],
                seen == exists|k: int| 0 <= k < j && wallet_record_ids@[k]@ == rid@,
            decreases i - j,
        {
            if wallet_record_ids[j] == *rid {
                seen = true;
            }
            j = j + 1;
        }
        proof {
            lemma_cloud_only_push(prefix, rid@, local_ids);
            assert(cloud.subrange(0, i + 1) =~= prefix.push(rid@));
            assert(seen == prefix.contains(rid@)) by {
                if seen {
                    let k = choose|k: int| 0 <= k < i && wallet_record_ids@[k]@ == rid@;
                    assert(prefix[k] == rid@);
                }
                if prefix.contains(rid@) {
                    let k = choose|k: int| 0 <= k < prefix.len() && prefix[k] == rid@;
                    assert(wallet_record_ids@[k]@ == rid@);
                }
            }
            assert(cloud_only_ids(prefix, local_ids).contains(rid@) == (prefix.contains(rid@)
                && !local_ids.contains(rid@)));
        }
        if !seen && !has_local_record(local, rid) {
            count = count + 1;
        }
    }
    assert(cloud.subrange(0, wallet_record_ids.len() as int) =~= cloud);
    CloudBackupDetail {
        last_sync,
        backed_up,
        not_backed_up,
        cloud_only_count: #[verifier::truncate] (count as u32),
    }
}

/// The local wallets whose record is not in the cloud listing, in order.
pub open spec fn unsynced(local: Seq<LocalWallet>, cloud: Seq<Seq<char>>) -> Seq<LocalWallet> {
    local.filter(|w: LocalWallet| !cloud.contains(w.record_id@))
}

/// The local wallets that the cloud listing lacks.
pub fn unsynced_wallets(local: &Vec<LocalWallet>, wallet_record_ids: &Vec<String>) -> (r: Vec<
    LocalWallet,
>)
    ensures
        r@ == unsynced(local@, texts(wallet_record_ids@)),
{
    let ghost cloud = texts(wallet_record_ids@);
    let ghost pred = |w: LocalWallet| !cloud.contains(w.record_id@);
    let mut r: Vec<LocalWallet> = Vec::new();
    for i in 0..local.len()
        invariant
            cloud == texts(wallet_record_ids@),
            pred == (|w: LocalWallet| !cloud.contains(w.record_id@)),
            r@ == local@.subrange(0, i as int).filter(pred),
    {
        reveal_with_fuel(Seq::filter, 1);
        let in_cloud = contains_id(wallet_record_ids, &local[i].record_id);
        if !in_cloud {
            r.push(local[i].duplicate());
        }
        assert(local@.subrange(0, i + 1).drop_last() =~= local@.subrange(0, i as int));
    }
    assert(local@.subrange(0, local.len() as int) =~= local@);
    r
}

/// The listed records that no local wallet has, in listing order.
pub open spec fn orphans(cloud: Seq<Seq<char>>, local: Seq<Seq<char>>) -> Seq<Seq<char>> {
    cloud.filter(|r: Seq<char>| !local.contains(r))
}

/// The records of the cloud listing that belong to no local wallet.
pub fn cloud_only_record_ids(wallet_record_ids: &Vec<String>, local: &Vec<LocalWallet>) -> (r: Vec<
    String,
>)
    ensures
        texts(r@) == orphans(texts(wallet_record_ids@), local_record_ids(local@)),
{
    let ghost cloud = texts(wallet_record_ids@);
    let ghost local_ids = local_record_ids(local@);
    let ghost pred = |r: Seq<char>| !local_ids.contains(r);
    let mut r: Vec<String> = Vec::new();
    for i in 0..wallet_record_ids.len()
        invariant
            cloud == texts(wallet_record_ids@),
            local_ids == local_record_ids(local@),
            pred == (|r: Seq<char>| !local_ids.contains(r)),
            texts(r@) == cloud.subrange(0, i as int).filter(pred),
    {
        reveal_with_fuel(Seq::filter, 1);
        let rid = &wallet_record_ids[i];
        if !has_local_record(local, rid) {
            let ghost before = r@;
            r.push(rid.clone());
            assert(texts(r@) =~= texts(before).push(rid@));
        }
        assert(cloud.subrange(0, i + 1).drop_last() =~= cloud.subrange(0, i as int));
    }
    assert(cloud.subrange(0, wallet_record_ids.len() as int) =~= cloud);
    r
}

/// The number of local wallets, as the persisted count stores it.
pub fn count_all_wallets(local: &Vec<LocalWallet>) -> (n: u32)
    ensures
        n == #[verifier::truncate] (local@.len() as u32),
{
    #[verifier::truncate] (local.len() as u32)
}

/// Every pair of network and wallet mode, networks in their declared order
/// and, within each, the main wallets before the decoys: the scopes in which
/// the database keeps wallets.
pub open spec fn all_scopes() -> Seq<(Network, WalletMode)> {
    seq![
        (Network::Bitcoin, WalletMode::Main),
        (Network::Bitcoin, WalletMode::Decoy),
        (Network::Testnet, WalletMode::Main),
        (Network::Testnet, WalletMode::Decoy),
        (Network::Testnet4, WalletMode::Main),
        (Network::Testnet4, WalletMode::Decoy),
        (Network::Signet, WalletMode::Main),
        (Network::Signet, WalletMode::Decoy),
    ]
}

/// The scopes to read all local wallets from, in order.
pub fn wallet_scopes() -> (r: Vec<(Network, WalletMode)>)
    ensures
        r@ == all_scopes(),
{
    let networks = [Network::Bitcoin, Network::Testnet, Network::Testnet4, Network::Signet];
    let modes = [WalletMode::Main, WalletMode::Decoy];
    let mut r: Vec<(Network, WalletMode)> = Vec::new();
    for i in 0..4usize
        invariant
            networks@ == seq![Network::Bitcoin, Network::Testnet, Network::Testnet4, Network::Signet],
            modes@ == seq![WalletMode::Main, WalletMode::Decoy],
            r@ == all_scopes().subrange(0, 2 * i as int),
    {
        r.push((networks[i], modes[0]));
        r.push((networks[i], modes[1]));
        assert(r@ =~= all_scopes().subrange(0, 2 * (i + 1) as int));
    }
    assert(r@ =~= all_scopes());
    r
}

} // verus!
