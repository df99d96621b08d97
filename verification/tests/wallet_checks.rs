use cove_backup::model::CloudBackupError;
use cove_backup::wallet_checks::{
    prove_local_key, verify_wallet_backups, KeyProofStep, LocalKeyProof, LocalKeyVerifier, TallyStep,
    WalletDecrypt, WalletFetch, WrapperRepairError,
};

fn ids(n: usize) -> Vec<String> {
    (0..n).map(|i| format!("rec{i}")).collect()
}

#[test]
fn no_wallets_prove_nothing() {
    assert!(matches!(
        prove_local_key(&"ns".to_string(), vec![], &vec![1]),
        KeyProofStep::Finished(LocalKeyProof::Inconclusive)
    ));
}

#[test]
fn one_opened_wallet_verifies_the_key_at_once() {
    let KeyProofStep::Fetch(w, req) = prove_local_key(&"ns".to_string(), ids(3), &vec![1]) else { panic!() };
    assert_eq!(req.record_id, "rec0");
    let KeyProofStep::Fetch(w, req) = w.on_fetched(WalletFetch::DownloadFailed("x".into())) else { panic!() };
    assert_eq!(req.record_id, "rec1");
    let KeyProofStep::Decrypt(w, req) = w.on_fetched(WalletFetch::Envelope { version: 1 }) else { panic!() };
    assert_eq!(req.master_key, vec![1]);
    let KeyProofStep::Fetch(w, req) = w.on_decrypted(WalletDecrypt::WrongKey) else { panic!() };
    assert_eq!(req.record_id, "rec2");
    let KeyProofStep::Decrypt(w, _) = w.on_fetched(WalletFetch::Envelope { version: 1 }) else { panic!() };
    assert!(matches!(w.on_decrypted(WalletDecrypt::Decrypted), KeyProofStep::Finished(LocalKeyProof::Verified)));
}

#[test]
fn a_rejecting_wallet_without_an_opened_one_refutes_the_key() {
    let verifier = LocalKeyVerifier::new("ns".into());
    let KeyProofStep::Fetch(w, _) = verifier.prove(ids(2), &vec![1]) else { panic!() };
    let KeyProofStep::Decrypt(w, _) = w.on_fetched(WalletFetch::Envelope { version: 1 }) else { panic!() };
    let KeyProofStep::Fetch(w, _) = w.on_decrypted(WalletDecrypt::WrongKey) else { panic!() };
    assert!(matches!(
        w.on_fetched(WalletFetch::Envelope { version: 2 }),
        KeyProofStep::Finished(LocalKeyProof::WrongKey)
    ));
}

#[test]
fn tally_counts_every_wallet_once() {
    let TallyStep::Fetch(w, _) = verify_wallet_backups(&"ns".to_string(), ids(4), &vec![1]) else { panic!() };
    let TallyStep::Decrypt(w, _) = w.on_fetched(WalletFetch::Envelope { version: 1 }) else { panic!() };
    let TallyStep::Fetch(w, _) = w.on_decrypted(WalletDecrypt::Decrypted) else { panic!() };
    let TallyStep::Fetch(w, _) = w.on_fetched(WalletFetch::Envelope { version: 9 }) else { panic!() };
    let TallyStep::Fetch(w, _) = w.on_fetched(WalletFetch::Unreadable("x".into())) else { panic!() };
    let TallyStep::Decrypt(w, _) = w.on_fetched(WalletFetch::Envelope { version: 1 }) else { panic!() };
    match w.on_decrypted(WalletDecrypt::Failed("x".into())) {
        TallyStep::Finished((verified, failed, unsupported)) => {
            assert_eq!((verified, failed, unsupported), (1, 2, 1))
        }
        _ => panic!("expected the counts"),
    }
    assert!(matches!(
        verify_wallet_backups(&"ns".to_string(), vec![], &vec![]),
        TallyStep::Finished((0, 0, 0))
    ));
}

#[test]
fn repair_errors_become_backup_errors() {
    assert!(matches!(
        WrapperRepairError::WrongKey.into_cloud_backup_error(),
        CloudBackupError::Crypto(m) if m == "local master key cannot decrypt existing cloud wallet backups"
    ));
    assert!(matches!(
        WrapperRepairError::Inconclusive.into_cloud_backup_error(),
        CloudBackupError::Cloud(m) if m == "could not download any wallet to verify local key"
    ));
    assert!(matches!(
        WrapperRepairError::Operation(CloudBackupError::Passkey("p".into())).into_cloud_backup_error(),
        CloudBackupError::Passkey(m) if m == "p"
    ));
}
