//! The backup entry of one wallet: its secret, descriptors and metadata as
//! the cloud backup format stores them.

use vstd::prelude::*;
use vstd::string::*;
use crate::inventory::LocalWallet;
use crate::model::{CloudBackupError, CloudWalletSecret, WalletMode, WalletType};

verus! {

/// The public descriptors of a wallet.
#[derive(Debug, Clone, PartialEq, Eq)]
pub struct DescriptorPair {
    pub external: String,
    pub internal: String,
}

/// One wallet, ready to be encrypted and uploaded.
#[derive(Debug)]
pub struct WalletEntry {
    pub wallet_id: String,
    pub secret: CloudWalletSecret,
    /// The wallet's metadata, serialized as JSON.
    pub metadata: Vec<u8>,
    pub descriptors: Option<DescriptorPair>,
    pub xpub: Option<String>,
    pub wallet_mode: WalletMode,
}

/// Where the secret of a wallet is read from.
#[derive(Debug, Clone, Copy, PartialEq, Eq, Structural)]
pub enum SecretSource {
    /// The mnemonic of a hot wallet.
    Mnemonic,
    /// The backup of a TAPSIGNER.
    TapSignerBackup,
    /// The wallet is backed up watch-only.
    NoSecret,
}

/// What reading the secret gave.
#[derive(Debug)]
pub enum SecretLookup {
    Mnemonic(Result<Option<String>, String>),
    TapSignerBackup(Result<Option<Vec<u8>>, String>),
    NoSecret,
}

/// The lookup reads from the source.
pub open spec fn reads_from(lookup: SecretLookup, source: SecretSource) -> bool {
    match source {
        SecretSource::Mnemonic => lookup is Mnemonic,
        SecretSource::TapSignerBackup => lookup is TapSignerBackup,
        SecretSource::NoSecret => lookup is NoSecret,
    }
}

/// The lookup reads the kind of secret that a wallet of this type keeps: the
/// mnemonic of a hot wallet; the TAPSIGNER backup of a cold wallet, or
/// nothing when the cold wallet is no TAPSIGNER; nothing for any other
/// wallet.
pub open spec fn lookup_fits(wallet_type: WalletType, lookup: SecretLookup) -> bool {
    match wallet_type {
        WalletType::Hot => lookup is Mnemonic,
        WalletType::Cold => lookup is TapSignerBackup || lookup is NoSecret,
        _ => lookup is NoSecret,
    }
}

/// A lookup made from the source of a wallet fits the wallet's type.
pub proof fn lemma_source_lookup_fits(wallet_type: WalletType, is_tap_signer: bool, lookup: SecretLookup)
    requires
        reads_from(
            lookup,
            match wallet_type {
                WalletType::Hot => SecretSource::Mnemonic,
                WalletType::Cold => if is_tap_signer {
                    SecretSource::TapSignerBackup
                } else {
                    SecretSource::NoSecret
                },
                _ => SecretSource::NoSecret,
            },
        ),
    ensures
        lookup_fits(wallet_type, lookup),
{
}

/// The source of the secret of a wallet: hot wallets keep a mnemonic, cold
/// wallets of a TAPSIGNER keep its backup, every other wallet is watch-only.
pub fn secret_source(wallet_type: WalletType, is_tap_signer: bool) -> (s: SecretSource)
    ensures
        s == match wallet_type {
            WalletType::Hot => SecretSource::Mnemonic,
            WalletType::Cold => if is_tap_signer {
                SecretSource::TapSignerBackup
            } else {
                SecretSource::NoSecret
            },
            _ => SecretSource::NoSecret,
        },
{
    match wallet_type {
        WalletType::Hot => SecretSource::Mnemonic,
        WalletType::Cold => {
            if is_tap_signer {
                SecretSource::TapSignerBackup
            } else {
                SecretSource::NoSecret
            }
        },
        WalletType::XpubOnly | WalletType::WatchOnly => SecretSource::NoSecret,
    }
}

/// `what 'name'`, then `rest`.
pub open spec fn about_wallet(what: Seq<char>, name: Seq<char>, rest: Seq<char>) -> Seq<char> {
    what + "'"@ + name + "'"@ + rest
}

fn internal_about(what: &str, name: &String, rest: &str) -> (e: CloudBackupError)
    ensures
        e matches CloudBackupError::Internal(m) && m@ == about_wallet(what@, name@, rest@),
{
    CloudBackupError::Internal(
        String::from_str(what).concat("'").concat(name.as_str()).concat("'").concat(rest),
    )
}

fn internal_about_err(what: &str, name: &String, err: &String) -> (e: CloudBackupError)
    ensures
        e matches CloudBackupError::Internal(m) && m@ == about_wallet(what@, name@, ": "@ + err@),
{
    let rest = String::from_str(": ").concat(err.as_str());
    let e = CloudBackupError::Internal(
        String::from_str(what).concat("'").concat(name.as_str()).concat("'").concat(rest.as_str()),
    );
    e
}

/// The secret that a lookup gives, or the error that stops the backup: a hot
/// wallet must have its mnemonic; a TAPSIGNER without a stored backup is
/// exported watch-only.
pub open spec fn spec_secret(name: Seq<char>, lookup: SecretLookup) -> Result<CloudWalletSecret, Seq<char>> {
    match lookup {
        SecretLookup::Mnemonic(Ok(Some(m))) => Ok(CloudWalletSecret::Mnemonic(m)),
        SecretLookup::Mnemonic(Ok(None)) => Err(about_wallet("hot wallet "@, name, " has no mnemonic"@)),
        SecretLookup::Mnemonic(Err(e)) => Err(
            about_wallet("failed to get mnemonic for "@, name, ": "@ + e@),
        ),
        SecretLookup::TapSignerBackup(Ok(Some(b))) => Ok(CloudWalletSecret::TapSignerBackup(b)),
        SecretLookup::TapSignerBackup(Ok(None)) => Ok(CloudWalletSecret::WatchOnly),
        SecretLookup::TapSignerBackup(Err(e)) => Err(
            about_wallet("failed to read tap signer backup for "@, name, ": "@ + e@),
        ),
        SecretLookup::NoSecret => Ok(CloudWalletSecret::WatchOnly),
    }
}

/// A stored secret is carried into the entry unchanged: the mnemonic of a hot
/// wallet, the backup of a TAPSIGNER; an entry is watch-only exactly when no
/// secret is stored for the wallet.
pub proof fn lemma_stored_secret_is_kept(name: Seq<char>, lookup: SecretLookup)
    ensures
        lookup matches SecretLookup::Mnemonic(Ok(Some(m))) ==> spec_secret(name, lookup) == Ok::<
            CloudWalletSecret,
            Seq<char>,
        >(CloudWalletSecret::Mnemonic(m)),
        lookup matches SecretLookup::TapSignerBackup(Ok(Some(b))) ==> spec_secret(name, lookup)
            == Ok::<CloudWalletSecret, Seq<char>>(CloudWalletSecret::TapSignerBackup(b)),
        spec_secret(name, lookup) == Ok::<CloudWalletSecret, Seq<char>>(CloudWalletSecret::WatchOnly)
            <==> (lookup is NoSecret || lookup matches SecretLookup::TapSignerBackup(Ok(None))),
        spec_secret(name, lookup) is Err <==> (lookup matches SecretLookup::Mnemonic(r) && !(r matches Ok(Some(_)))
            || lookup matches SecretLookup::TapSignerBackup(Err(_))),
{
}

/// The entry is that of `wallet` with the given parts.
pub open spec fn entry_of(
    e: WalletEntry,
    wallet: LocalWallet,
    secret: CloudWalletSecret,
    xpub: Option<String>,
    descriptors: Option<(String, String)>,
    metadata: Vec<u8>,
) -> bool {
    &&& e.wallet_id == wallet.id
    &&& e.secret == secret
    &&& e.metadata@ == metadata@
    &&& e.xpub == xpub
    &&& e.wallet_mode == wallet.wallet_mode
    &&& match descriptors {
        Some((ext, inner)) => e.descriptors == Some(DescriptorPair { external: ext, internal: inner }),
        None => e.descriptors is None,
    }
}

/// The error is internal, with the given text.
pub open spec fn is_internal(e: CloudBackupError, text: Seq<char>) -> bool {
    e matches CloudBackupError::Internal(m) && m@ == text
}

/// Builds the backup entry of a wallet from what the keychain gave: the
/// secret, then the xpub, then the descriptors, then the serialized
/// metadata; the first of them that failed stops the backup with its error.
pub fn build_wallet_entry(
    wallet: &LocalWallet,
    secret: SecretLookup,
    xpub: Result<Option<String>, String>,
    descriptors: Result<Option<(String, String)>, String>,
    metadata: Result<Vec<u8>, String>,
) -> (r: Result<WalletEntry, CloudBackupError>)
    requires
        lookup_fits(wallet.wallet_type, secret),
    ensures
        spec_secret(wallet.name@, secret) matches Err(t) ==> (r matches Err(e) && is_internal(e, t)),
        spec_secret(wallet.name@, secret) is Ok ==> (xpub matches Err(x) ==> (r matches Err(e)
            && is_internal(e, about_wallet("failed to read xpub for "@, wallet.name@, ": "@ + x@)))),
        spec_secret(wallet.name@, secret) is Ok && xpub is Ok ==> (descriptors matches Err(x) ==> (
        r matches Err(e) && is_internal(
            e,
            about_wallet("failed to read descriptors for "@, wallet.name@, ": "@ + x@),
        ))),
        spec_secret(wallet.name@, secret) is Ok && xpub is Ok && descriptors is Ok ==> (
        metadata matches Err(x) ==> (r matches Err(e) && is_internal(
            e,
            "serialize metadata"@ + ": "@ + x@,
        ))),
        spec_secret(wallet.name@, secret) is Ok && xpub is Ok && descriptors is Ok
            && metadata is Ok ==> (r matches Ok(e) && entry_of(
            e,
            *wallet,
            spec_secret(wallet.name@, secret)->Ok_0,
            xpub->Ok_0,
            descriptors->Ok_0,
            metadata->Ok_0,
        )),
{
    let name = &wallet.name;
    let secret = match secret {
        SecretLookup::Mnemonic(Ok(Some(m))) => CloudWalletSecret::Mnemonic(m),
        SecretLookup::Mnemonic(Ok(None)) => {
            return Err(internal_about("hot wallet ", name, " has no mnemonic"));
        },
        SecretLookup::Mnemonic(Err(e)) => {
            return Err(internal_about_err("failed to get mnemonic for ", name, &e));
        },
        SecretLookup::TapSignerBackup(Ok(Some(b))) => CloudWalletSecret::TapSignerBackup(b),
        SecretLookup::TapSignerBackup(Ok(None)) => CloudWalletSecret::WatchOnly,
        SecretLookup::TapSignerBackup(Err(e)) => {
            return Err(internal_about_err("failed to read tap signer backup for ", name, &e));
        },
        SecretLookup::NoSecret => CloudWalletSecret::WatchOnly,
    };
    let xpub = match xpub {
        Ok(x) => x,
        Err(e) => {
            return Err(internal_about_err("failed to read xpub for ", name, &e));
        },
    };
    let descriptors = match descriptors {
        Ok(Some((ext, inner))) => Some(DescriptorPair { external: ext, internal: inner }),
        Ok(None) => None,
        Err(e) => {
            return Err(internal_about_err("failed to read descriptors for ", name, &e));
        },
    };
    let metadata = match metadata {
        Ok(m) => m,
        Err(e) => {
            return Err(
                CloudBackupError::Internal(
                    String::from_str("serialize metadata").concat(": ").concat(e.as_str()),
                ),
            );
        },
    };
    Ok(
        WalletEntry {
            wallet_id: wallet.id.clone(),
            secret,
            metadata,
            descriptors,
            xpub,
            wallet_mode: wallet.wallet_mode,
        },
    )
}

} // verus!
