use cove_backup::model::{CloudBackupError, CloudWalletSecret, LocalWalletSecret, Network, WalletMode};
use cove_backup::restore::{
    known_fingerprints, restore_single_wallet, AwaitDuplicateCheck, KnownFingerprint, OpenedWallet,
    RestoreRequest, RestoreWalletStep, WalletOpening,
};
use cove_backup::inventory::LocalWallet;
use cove_backup::model::WalletType;
use cove_backup::wallet_checks::WalletFetch;

const WORDS: &str = "abandon abandon abandon abandon abandon abandon abandon abandon abandon abandon abandon about";

fn known() -> Vec<KnownFingerprint> {
    vec![KnownFingerprint {
        fingerprint: "AAAA0000".into(),
        network: Network::Bitcoin,
        wallet_mode: WalletMode::Main,
    }]
}

fn start() -> RestoreWalletStep {
    restore_single_wallet(&"ns1".to_string(), &"rec1".to_string(), &vec![1, 2, 3], known())
}

fn fetched(fetch: WalletFetch) -> RestoreWalletStep {
    let RestoreWalletStep::Fetch(w, _) = start() else { panic!("expected a fetch") };
    w.on_fetched(fetch)
}

fn checking(secret: CloudWalletSecret, fingerprint: Option<String>) -> AwaitDuplicateCheck {
    let RestoreWalletStep::Open(w, _) = fetched(WalletFetch::Envelope { version: 1 }) else {
        panic!("expected an opening")
    };
    let opened = OpenedWallet {
        name: "Savings".into(),
        network: Network::Testnet,
        wallet_mode: WalletMode::Main,
        fingerprint,
        secret,
    };
    let RestoreWalletStep::CheckDuplicate(w, req) = w.on_opened(WalletOpening::Opened(opened)) else {
        panic!("expected a duplicate check")
    };
    assert_eq!(req.name, "Savings");
    assert_eq!(req.known.len(), 1);
    w
}

fn internal_error(step: RestoreWalletStep) -> String {
    match step {
        RestoreWalletStep::Finished(Err(CloudBackupError::Internal(m)), k) => {
            assert_eq!(k.len(), 1);
            m
        }
        _ => panic!("expected an internal error"),
    }
}

#[test]
fn restore_starts_with_the_download_of_the_record() {
    let RestoreWalletStep::Fetch(_, req) = start() else { panic!("expected a fetch") };
    assert_eq!(req.namespace, "ns1");
    assert_eq!(req.record_id, "rec1");
}

#[test]
fn failed_download_names_the_record() {
    match fetched(WalletFetch::DownloadFailed("offline".into())) {
        RestoreWalletStep::Finished(Err(CloudBackupError::Cloud(m)), k) => {
            assert_eq!(m, "download rec1: offline");
            assert_eq!(k.len(), 1);
        }
        _ => panic!("expected a cloud error"),
    }
}

#[test]
fn unreadable_backup_is_an_internal_error() {
    assert_eq!(internal_error(fetched(WalletFetch::Unreadable("eof".into()))), "deserialize wallet: eof");
}

#[test]
fn newer_backup_version_is_refused() {
    assert_eq!(
        internal_error(fetched(WalletFetch::Envelope { version: 27 })),
        "unsupported wallet backup version: 27"
    );
}

#[test]
fn supported_backup_is_decrypted_with_the_master_key() {
    let RestoreWalletStep::Open(_, req) = fetched(WalletFetch::Envelope { version: 1 }) else {
        panic!("expected an opening")
    };
    assert_eq!(req.master_key, vec![1, 2, 3]);
}

#[test]
fn decryption_and_metadata_failures() {
    let RestoreWalletStep::Open(w, _) = fetched(WalletFetch::Envelope { version: 1 }) else {
        panic!("expected an opening")
    };
    match w.on_opened(WalletOpening::DecryptFailed("bad tag".into())) {
        RestoreWalletStep::Finished(Err(CloudBackupError::Crypto(m)), _) => {
            assert_eq!(m, "decrypt wallet: bad tag")
        }
        _ => panic!("expected a crypto error"),
    }
    let RestoreWalletStep::Open(w, _) = fetched(WalletFetch::Envelope { version: 1 }) else {
        panic!("expected an opening")
    };
    assert_eq!(
        internal_error(w.on_opened(WalletOpening::MetadataUnreadable("no name".into()))),
        "parse wallet metadata: no name"
    );
}

#[test]
fn duplicate_wallet_is_skipped() {
    let w = checking(CloudWalletSecret::WatchOnly, Some("BBBB1111".into()));
    match w.on_duplicate_checked(Ok(true)) {
        RestoreWalletStep::Finished(Ok(()), k) => {
            assert_eq!(k.len(), 1);
            assert_eq!(k[0].fingerprint, "AAAA0000");
        }
        _ => panic!("expected a skip"),
    }
}

#[test]
fn mnemonic_is_parsed_and_written_back_canonically() {
    let spaced = WORDS.replace(' ', "  ");
    let w = checking(CloudWalletSecret::Mnemonic(spaced), None);
    match w.on_duplicate_checked(Ok(false)) {
        RestoreWalletStep::Restore(_, RestoreRequest::Mnemonic(m)) => assert_eq!(m, WORDS),
        _ => panic!("expected a mnemonic restore"),
    }
}

#[test]
fn failed_duplicate_check_counts_as_no_duplicate() {
    let w = checking(CloudWalletSecret::Mnemonic(WORDS.into()), None);
    assert!(matches!(
        w.on_duplicate_checked(Err("db locked".into())),
        RestoreWalletStep::Restore(_, RestoreRequest::Mnemonic(_))
    ));
}

#[test]
fn invalid_mnemonic_is_an_internal_error() {
    let w = checking(CloudWalletSecret::Mnemonic("abandon".into()), None);
    assert_eq!(
        internal_error(w.on_duplicate_checked(Ok(false))),
        "invalid mnemonic: mnemonic has an invalid word count: 1. Word count must be 12, 15, 18, 21, or 24"
    );
}

#[test]
fn bad_checksum_mnemonic_is_refused() {
    let bad = WORDS.replace("about", "abandon");
    let w = checking(CloudWalletSecret::Mnemonic(bad), None);
    assert_eq!(
        internal_error(w.on_duplicate_checked(Ok(false))),
        "invalid mnemonic: the mnemonic has an invalid checksum"
    );
}

#[test]
fn tap_signer_wallet_is_restored_from_descriptors_with_its_backup() {
    let w = checking(CloudWalletSecret::TapSignerBackup(vec![4, 5]), None);
    match w.on_duplicate_checked(Ok(false)) {
        RestoreWalletStep::Restore(_, RestoreRequest::Descriptor(LocalWalletSecret::TapSignerBackup(b))) => {
            assert_eq!(b, vec![4, 5])
        }
        _ => panic!("expected a descriptor restore"),
    }
}


#[test]
fn restored_wallet_adds_its_fingerprint() {
    let w = checking(CloudWalletSecret::Descriptor("wpkh(...)".into()), Some("BBBB1111".into()));
    let RestoreWalletStep::Restore(w, RestoreRequest::Descriptor(secret)) = w.on_duplicate_checked(Ok(false))
    else {
        panic!("expected a descriptor restore")
    };
    assert!(matches!(secret, LocalWalletSecret::NoSecret));
    match w.on_restored(Ok(())) {
        RestoreWalletStep::Finished(Ok(()), k) => {
            assert_eq!(k.len(), 2);
            assert_eq!(k[1].fingerprint, "BBBB1111");
            assert_eq!(k[1].network, Network::Testnet);
            assert_eq!(k[1].wallet_mode, WalletMode::Main);
        }
        _ => panic!("expected success"),
    }
}

#[test]
fn failed_restore_names_its_kind() {
    let w = checking(CloudWalletSecret::WatchOnly, Some("BBBB1111".into()));
    let RestoreWalletStep::Restore(w, _) = w.on_duplicate_checked(Ok(false)) else {
        panic!("expected a restore")
    };
    assert_eq!(internal_error(w.on_restored(Err("disk full".into()))), "restore descriptor wallet: disk full");

    let w = checking(CloudWalletSecret::Mnemonic(WORDS.into()), None);
    let RestoreWalletStep::Restore(w, _) = w.on_duplicate_checked(Ok(false)) else {
        panic!("expected a restore")
    };
    assert_eq!(internal_error(w.on_restored(Err("exists".into()))), "restore mnemonic wallet: exists");
}

fn local(id: &str, fingerprint: Option<&str>, network: Network) -> LocalWallet {
    LocalWallet {
        id: id.into(),
        name: id.into(),
        network,
        wallet_mode: WalletMode::Main,
        wallet_type: WalletType::Hot,
        fingerprint: fingerprint.map(|f| f.to_string()),
        record_id: format!("rec-{id}"),
    }
}

#[test]
fn known_fingerprints_skip_wallets_without_one() {
    let wallets = vec![
        local("a", Some("F1"), Network::Bitcoin),
        local("b", None, Network::Bitcoin),
        local("c", Some("F3"), Network::Signet),
    ];
    let k = known_fingerprints(&wallets);
    assert_eq!(k.len(), 2);
    assert_eq!(k[0].fingerprint, "F1");
    assert_eq!(k[1].fingerprint, "F3");
    assert_eq!(k[1].network, Network::Signet);
}
