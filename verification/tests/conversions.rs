use cove_backup::cloud_storage::CloudStorageError;
use cove_backup::credentials::{hex_write, CREDENTIAL_ID_KEY};
use cove_backup::model::{
    convert_cloud_secret, CloudBackup, CloudBackupError, CloudWalletSecret, LocalWalletSecret,
};
use cove_backup::passkey::PasskeyError;

#[test]
fn convert_cloud_secret_mnemonic() {
    let secret = CloudWalletSecret::Mnemonic("abandon".into());
    let result = convert_cloud_secret(&secret);
    assert!(matches!(result, LocalWalletSecret::Mnemonic(ref m) if m == "abandon"));
}

#[test]
fn convert_cloud_secret_tap_signer() {
    let secret = CloudWalletSecret::TapSignerBackup(vec![1, 2, 3]);
    let result = convert_cloud_secret(&secret);
    assert!(matches!(result, LocalWalletSecret::TapSignerBackup(ref b) if b == &[1, 2, 3]));
}

#[test]
fn convert_cloud_secret_descriptor_to_none() {
    let secret = CloudWalletSecret::Descriptor("wpkh(...)".into());
    let result = convert_cloud_secret(&secret);
    assert!(matches!(result, LocalWalletSecret::NoSecret));
}

#[test]
fn convert_cloud_secret_watch_only_to_none() {
    let result = convert_cloud_secret(&CloudWalletSecret::WatchOnly);
    assert!(matches!(result, LocalWalletSecret::NoSecret));
}

#[test]
fn error_messages_name_their_kind() {
    assert_eq!(CloudBackupError::NotSupported("x".into()).message(), "not supported: x");
    assert_eq!(CloudBackupError::Passkey("x".into()).message(), "passkey error: x");
    assert_eq!(CloudBackupError::Crypto("x".into()).message(), "crypto error: x");
    assert_eq!(CloudBackupError::Cloud("x".into()).message(), "cloud storage error: x");
    assert_eq!(CloudBackupError::Internal("x".into()).message(), "internal error: x");
}

#[test]
fn storage_and_passkey_error_texts() {
    assert_eq!(CloudStorageError::NotFound("ns".into()).message(), "not found: ns");
    assert_eq!(CloudStorageError::QuotaExceeded.message(), "quota exceeded");
    assert!(CloudStorageError::NotFound("a".into()).is_not_found());
    assert!(!CloudStorageError::UploadFailed("a".into()).is_not_found());
    assert_eq!(PasskeyError::UserCancelled.message(), "user cancelled");
    assert_eq!(PasskeyError::NoCredentialFound.message(), "no credential found");
}

#[test]
fn credential_is_written_as_lowercase_hex() {
    let write = hex_write(CREDENTIAL_ID_KEY, &[0xab, 0x01, 0xff, 0x00]);
    assert_eq!(write.key, "cspp::v1::credential_id");
    assert_eq!(write.value, "ab01ff00");
}

#[test]
fn persisted_setting_queries() {
    let on = CloudBackup::Enabled { last_sync: Some(5), wallet_count: Some(2) };
    let unverified = CloudBackup::Unverified { last_sync: None, wallet_count: None };
    assert!(on.is_on());
    assert!(!on.is_unverified());
    assert!(unverified.is_on());
    assert!(unverified.is_unverified());
    assert!(!CloudBackup::Disabled.is_on());
    assert_eq!(on.last_sync(), Some(5));
    assert_eq!(CloudBackup::Disabled.last_sync(), None);
}
