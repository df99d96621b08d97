use cove_backup::inventory::LocalWallet;
use cove_backup::model::{CloudBackupError, CloudWalletSecret, Network, WalletMode, WalletType};
use cove_backup::wallet_entry::{build_wallet_entry, secret_source, SecretLookup, SecretSource};

fn wallet(wallet_type: WalletType) -> LocalWallet {
    LocalWallet {
        id: "w1".into(),
        name: "Spending".into(),
        network: Network::Bitcoin,
        wallet_mode: WalletMode::Decoy,
        wallet_type,
        fingerprint: None,
        record_id: "rec-w1".into(),
    }
}

#[test]
fn secret_source_follows_the_wallet_type() {
    assert_eq!(secret_source(WalletType::Hot, false), SecretSource::Mnemonic);
    assert_eq!(secret_source(WalletType::Cold, true), SecretSource::TapSignerBackup);
    assert_eq!(secret_source(WalletType::Cold, false), SecretSource::NoSecret);
    assert_eq!(secret_source(WalletType::WatchOnly, true), SecretSource::NoSecret);
}

#[test]
fn hot_wallet_entry_carries_its_mnemonic() {
    let w = wallet(WalletType::Hot);
    let entry = build_wallet_entry(
        &w,
        SecretLookup::Mnemonic(Ok(Some("abandon".into()))),
        Ok(Some("xpub1".into())),
        Ok(Some(("ext".into(), "int".into()))),
        Ok(vec![b'{', b'}']),
    )
    .unwrap();
    assert_eq!(entry.wallet_id, "w1");
    assert_eq!(entry.secret, CloudWalletSecret::Mnemonic("abandon".into()));
    assert_eq!(entry.xpub, Some("xpub1".to_string()));
    assert_eq!(entry.descriptors.unwrap().internal, "int");
    assert_eq!(entry.wallet_mode, WalletMode::Decoy);
}

#[test]
fn entry_errors_name_the_wallet() {
    let w = wallet(WalletType::Hot);
    let e = build_wallet_entry(&w, SecretLookup::Mnemonic(Ok(None)), Ok(None), Ok(None), Ok(vec![])).unwrap_err();
    assert!(matches!(e, CloudBackupError::Internal(m) if m == "hot wallet 'Spending' has no mnemonic"));
    let w = wallet(WalletType::Cold);
    let e = build_wallet_entry(&w, SecretLookup::TapSignerBackup(Ok(None)), Err("locked".into()), Ok(None), Ok(vec![]))
        .unwrap_err();
    assert!(matches!(e, CloudBackupError::Internal(m) if m == "failed to read xpub for 'Spending': locked"));
    let e = build_wallet_entry(&w, SecretLookup::NoSecret, Ok(None), Ok(None), Err("bad".into())).unwrap_err();
    assert!(matches!(e, CloudBackupError::Internal(m) if m == "serialize metadata: bad"));
}
