//! Passkey credentials of the cloud backup: authenticating with the stored or
//! a discovered passkey, and creating a fresh passkey with its PRF key.

use vstd::prelude::*;
use vstd::string::*;
use vstd::utf8::encode_utf8;
use crate::entropy::{bytes_32, random_16, random_32, random_challenge, vec_16, vec_32};
use crate::hex_codec::{hex_bytes, hex_decode, hex_encode, hex_text, lemma_hex_round_trip};
use crate::model::{copy_bytes, CloudBackupError};
use crate::passkey::{
    bad_prf_size_error, discovery_request, is_bad_prf_size_error, is_discovery_request,
    is_prf_request, prf_request, DiscoveredPasskey, DiscoveryRequest, PasskeyError, PrfRequest,
    PASSKEY_RP_ID,
};

verus! {

/// Keychain entry of the hex credential ID of the backup passkey.
pub const CREDENTIAL_ID_KEY: &'static str = "cspp::v1::credential_id";

/// Keychain entry of the hex PRF salt of the backup passkey.
pub const PRF_SALT_KEY: &'static str = "cspp::v1::prf_salt";

/// Keychain entry of the backup namespace.
pub const NAMESPACE_ID_KEY: &'static str = "cspp::v1::namespace_id";

/// A keychain entry to write, for the platform to perform.
#[derive(Debug)]
pub struct KeychainWrite {
    pub key: String,
    pub value: String,
}

/// A new passkey to create, for the platform to perform.
#[derive(Debug)]
pub struct CreatePasskeyRequest {
    pub rp_id: String,
    pub user_id: Vec<u8>,
    pub challenge: Vec<u8>,
}

/// The error that a failed step adds its context to: `prefix: error`.
pub open spec fn prefixed(prefix: Seq<char>, error: Seq<char>) -> Seq<char> {
    prefix + ": "@ + error
}

/// An internal error with the context of the failed step.
pub fn internal_with_prefix(prefix: &str, error: &String) -> (e: CloudBackupError)
    ensures
        e matches CloudBackupError::Internal(m) && m@ == prefixed(prefix@, error@),
{
    CloudBackupError::Internal(String::from_str(prefix).concat(": ").concat(error.as_str()))
}

/// A passkey error with the platform's text.
pub fn passkey_error(error: &PasskeyError) -> (e: CloudBackupError)
    ensures
        e matches CloudBackupError::Passkey(m) && m@ == error.spec_message(),
{
    CloudBackupError::Passkey(error.message())
}

/// The keychain write that stores `bytes` as hex under `key`.
pub open spec fn is_hex_write(w: KeychainWrite, key: Seq<char>, bytes: Seq<u8>) -> bool {
    w.key@ == key && w.value@ == hex_text(bytes)
}

pub fn hex_write(key: &str, bytes: &[u8]) -> (w: KeychainWrite)
    ensures
        is_hex_write(w, key@, bytes@),
{
    KeychainWrite { key: String::from_str(key), value: hex_encode(bytes) }
}

// ---------------------------------------------------------------------------
// Authentication with the stored passkey, falling back to discovery
// ---------------------------------------------------------------------------

/// A PRF key, the credential that produced it, and whether that credential
/// was recovered by discovery.
pub type PrfAuthentication = ([u8; 32], Vec<u8>, bool);

/// The next thing an authentication needs, or its outcome.
pub enum FallbackAuthStep {
    /// Read the hex credential ID stored under [`CREDENTIAL_ID_KEY`].
    LoadStoredCredential(AwaitStoredCredentialHex),
    /// Perform the PRF assertion with the stored credential.
    AuthenticateStored(AwaitFallbackAssertion, PrfRequest),
    /// Perform a discoverable PRF assertion.
    Discover(AwaitFallbackDiscovery, DiscoveryRequest),
    Finished(Result<PrfAuthentication, CloudBackupError>),
}

pub struct AwaitStoredCredentialHex {
    prf_salt: [u8; 32],
}

pub struct AwaitFallbackAssertion {
    prf_salt: [u8; 32],
    credential_id: Vec<u8>,
}

pub struct AwaitFallbackDiscovery {
    prf_salt: [u8; 32],
}

impl AwaitStoredCredentialHex {
    pub closed spec fn spec_prf_salt(&self) -> Seq<u8> {
        self.prf_salt@
    }
}

impl AwaitFallbackAssertion {
    pub closed spec fn spec_prf_salt(&self) -> Seq<u8> {
        self.prf_salt@
    }

    pub closed spec fn spec_credential_id(&self) -> Seq<u8> {
        self.credential_id@
    }
}

impl AwaitFallbackDiscovery {
    pub closed spec fn spec_prf_salt(&self) -> Seq<u8> {
        self.prf_salt@
    }
}

/// The step begins a discovery with the given salt.
pub open spec fn fallback_discovers(s: FallbackAuthStep, prf_salt: Seq<u8>) -> bool {
    s matches FallbackAuthStep::Discover(w, req) && w.spec_prf_salt() == prf_salt
        && is_discovery_request(req, prf_salt)
}

/// The step ends with a passkey error of the given text.
pub open spec fn fails_with_passkey(s: FallbackAuthStep, text: Seq<char>) -> bool {
    s matches FallbackAuthStep::Finished(Err(CloudBackupError::Passkey(m))) && m@ == text
}

/// A PRF output gives a 32-byte key for the credential, or an internal error.
pub open spec fn fallback_prf_ok(
    s: FallbackAuthStep,
    prf_output: Seq<u8>,
    credential_id: Seq<u8>,
    recovered: bool,
) -> bool {
    if prf_output.len() == 32 {
        s matches FallbackAuthStep::Finished(Ok(a)) && a.0@ == prf_output && a.1@ == credential_id
            && a.2 == recovered
    } else {
        s matches FallbackAuthStep::Finished(Err(e)) && is_bad_prf_size_error(e)
    }
}

fn fallback_discover(prf_salt: [u8; 32]) -> (s: FallbackAuthStep)
    ensures
        fallback_discovers(s, prf_salt@),
{
    let req = discovery_request(&prf_salt);
    FallbackAuthStep::Discover(AwaitFallbackDiscovery { prf_salt }, req)
}

fn fallback_authenticated(prf_output: Vec<u8>, credential_id: Vec<u8>, recovered: bool) -> (s:
    FallbackAuthStep)
    ensures
        fallback_prf_ok(s, prf_output@, credential_id@, recovered),
{
    if prf_output.len() != 32 {
        return FallbackAuthStep::Finished(Err(bad_prf_size_error()));
    }
    FallbackAuthStep::Finished(Ok((bytes_32(&prf_output), credential_id, recovered)))
}

/// The credential ID that a stored hex text decodes to, if any.
pub open spec fn decoded_credential(stored_hex: Option<String>) -> Option<Seq<u8>> {
    match stored_hex {
        Some(h) => hex_bytes(encode_utf8(h@)),
        None => None,
    }
}

/// A credential ID that is written to the keychain as hex is read back
/// unchanged by the authentication that falls back on it.
pub proof fn lemma_saved_credential_reads_back(write: KeychainWrite, credential_id: Seq<u8>)
    requires
        is_hex_write(write, CREDENTIAL_ID_KEY@, credential_id),
    ensures
        decoded_credential(Some(write.value)) == Some(credential_id),
{
    lemma_hex_round_trip(credential_id);
}

/// Starts an authentication with cascading fallback: the stored credential
/// first, discovery after.
pub fn authenticate_with_fallback(prf_salt: &[u8; 32]) -> (s: FallbackAuthStep)
    ensures
        s matches FallbackAuthStep::LoadStoredCredential(w) && w.spec_prf_salt() == prf_salt@,
{
    FallbackAuthStep::LoadStoredCredential(AwaitStoredCredentialHex { prf_salt: *prf_salt })
}

impl AwaitStoredCredentialHex {
    /// The keychain entry whose value `on_stored_credential` takes: the hex
    /// credential ID.
    pub fn entry(&self) -> (k: &'static str)
        ensures
            k@ == CREDENTIAL_ID_KEY@,
    {
        CREDENTIAL_ID_KEY
    }

    /// A stored credential that decodes from hex is tried first; a missing
    /// or undecodable one sends the authentication to discovery.
    pub fn on_stored_credential(self, stored_hex: Option<String>) -> (s: FallbackAuthStep)
        ensures
            decoded_credential(stored_hex) matches Some(id) ==> (
            s matches FallbackAuthStep::AuthenticateStored(w, req) && w.spec_prf_salt()
                == self.spec_prf_salt() && w.spec_credential_id() == id && is_prf_request(
                req,
                id,
                self.spec_prf_salt(),
            )),
            decoded_credential(stored_hex) is None ==> fallback_discovers(s, self.spec_prf_salt()),
    {
        let stored = match stored_hex {
            Some(h) => {
                let t = h.as_str();
                assert(t.spec_bytes() == encode_utf8(h@));
                hex_decode(t)
            },
            None => None,
        };
        match stored {
            Some(credential_id) => {
                let req = prf_request(&credential_id, &self.prf_salt);
                FallbackAuthStep::AuthenticateStored(
                    AwaitFallbackAssertion { prf_salt: self.prf_salt, credential_id },
                    req,
                )
            },
            None => fallback_discover(self.prf_salt),
        }
    }
}

impl AwaitFallbackAssertion {
    /// A PRF output authenticates the stored credential; a cancellation fails
    /// with "user cancelled"; any other failure sends the authentication to
    /// discovery.
    pub fn on_assertion(self, result: Result<Vec<u8>, PasskeyError>) -> (s: FallbackAuthStep)
        ensures
            result matches Ok(out) ==> fallback_prf_ok(s, out@, self.spec_credential_id(), false),
            result matches Err(e) && e is UserCancelled ==> fails_with_passkey(
                s,
                "user cancelled"@,
            ),
            result matches Err(e) && !(e is UserCancelled) ==> fallback_discovers(
                s,
                self.spec_prf_salt(),
            ),
    {
        match result {
            Ok(prf_output) => fallback_authenticated(prf_output, self.credential_id, false),
            Err(PasskeyError::UserCancelled) => FallbackAuthStep::Finished(
                Err(CloudBackupError::Passkey(String::from_str("user cancelled"))),
            ),
            Err(_) => fallback_discover(self.prf_salt),
        }
    }
}

impl AwaitFallbackDiscovery {
    /// A discovered passkey authenticates as recovered; a cancellation fails
    /// with "user cancelled", a missing credential with "no credential
    /// found", any other failure with the platform's text.
    pub fn on_discovery(self, result: Result<DiscoveredPasskey, PasskeyError>) -> (s: FallbackAuthStep)
        ensures
            result matches Ok(d) ==> fallback_prf_ok(s, d.prf_output@, d.credential_id@, true),
            result matches Err(e) && e is UserCancelled ==> fails_with_passkey(
                s,
                "user cancelled"@,
            ),
            result matches Err(e) && e is NoCredentialFound ==> fails_with_passkey(
                s,
                "no credential found"@,
            ),
            result matches Err(e) ==> (!(e is UserCancelled) && !(e is NoCredentialFound)
                ==> fails_with_passkey(s, e.spec_message())),
    {
        match result {
            Ok(d) => fallback_authenticated(d.prf_output, d.credential_id, true),
            Err(PasskeyError::UserCancelled) => FallbackAuthStep::Finished(
                Err(CloudBackupError::Passkey(String::from_str("user cancelled"))),
            ),
            Err(PasskeyError::NoCredentialFound) => FallbackAuthStep::Finished(
                Err(CloudBackupError::Passkey(String::from_str("no credential found"))),
            ),
            Err(other) => FallbackAuthStep::Finished(Err(passkey_error(&other))),
        }
    }
}

// ---------------------------------------------------------------------------
// A fresh passkey and its PRF key
// ---------------------------------------------------------------------------

/// A PRF key of a new passkey, not yet persisted anywhere.
pub struct UnpersistedPrfKey {
    pub prf_key: [u8; 32],
    pub prf_salt: [u8; 32],
    pub credential_id: Vec<u8>,
}

/// The next thing the creation of a passkey needs, or its outcome.
pub enum CreatePrfStep {
    /// Create a passkey.
    CreatePasskey(AwaitPasskeyCreated, CreatePasskeyRequest),
    /// Perform the PRF assertion with the new passkey.
    Authenticate(AwaitNewPasskeyAssertion, PrfRequest),
    Finished(Result<UnpersistedPrfKey, CloudBackupError>),
}

pub struct AwaitPasskeyCreated {
    prf_salt: [u8; 32],
}

pub struct AwaitNewPasskeyAssertion {
    prf_salt: [u8; 32],
    credential_id: Vec<u8>,
}

impl AwaitPasskeyCreated {
    pub closed spec fn spec_prf_salt(&self) -> Seq<u8> {
        self.prf_salt@
    }
}

impl AwaitNewPasskeyAssertion {
    pub closed spec fn spec_prf_salt(&self) -> Seq<u8> {
        self.prf_salt@
    }

    pub closed spec fn spec_credential_id(&self) -> Seq<u8> {
        self.credential_id@
    }
}

/// The step ends with a passkey error of the given text.
pub open spec fn create_fails_with_passkey(s: CreatePrfStep, text: Seq<char>) -> bool {
    s matches CreatePrfStep::Finished(Err(CloudBackupError::Passkey(m))) && m@ == text
}

/// Creates a passkey and authenticates with PRF without persisting anything:
/// a fresh random salt, user ID and challenge go to the platform.
pub fn create_prf_key_without_persisting() -> (s: CreatePrfStep)
    ensures
        s matches CreatePrfStep::CreatePasskey(w, req) && req.rp_id@ == PASSKEY_RP_ID@
            && req.user_id@.len() == 16 && req.challenge@.len() == 32 && w.spec_prf_salt().len()
            == 32,
{
    let prf_salt = random_32();
    let challenge = random_challenge();
    let user_id = random_16();
    let req = CreatePasskeyRequest {
        rp_id: String::from_str(PASSKEY_RP_ID),
        user_id: vec_16(&user_id),
        challenge,
    };
    CreatePrfStep::CreatePasskey(AwaitPasskeyCreated { prf_salt }, req)
}

impl AwaitPasskeyCreated {
    /// The new credential is asked for its PRF output with the salt drawn at
    /// the start; a failed creation is a passkey error.
    pub fn on_created(self, result: Result<Vec<u8>, PasskeyError>) -> (s: CreatePrfStep)
        ensures
            result matches Ok(id) ==> (s matches CreatePrfStep::Authenticate(w, req)
                && w.spec_prf_salt() == self.spec_prf_salt() && w.spec_credential_id() == id@
                && is_prf_request(req, id@, self.spec_prf_salt())),
            result matches Err(e) ==> create_fails_with_passkey(s, e.spec_message()),
    {
        match result {
            Ok(credential_id) => {
                let req = prf_request(&credential_id, &self.prf_salt);
                CreatePrfStep::Authenticate(
                    AwaitNewPasskeyAssertion { prf_salt: self.prf_salt, credential_id },
                    req,
                )
            },
            Err(e) => CreatePrfStep::Finished(Err(passkey_error(&e))),
        }
    }
}

impl AwaitNewPasskeyAssertion {
    /// A 32-byte PRF output is the new key, with the salt and the credential;
    /// another size is an internal error; a failure is a passkey error.
    pub fn on_assertion(self, result: Result<Vec<u8>, PasskeyError>) -> (s: CreatePrfStep)
        ensures
            result matches Ok(out) ==> (out@.len() == 32 ==> (s matches CreatePrfStep::Finished(
                Ok(k),
            ) && k.prf_key@ == out@ && k.prf_salt@ == self.spec_prf_salt() && k.credential_id@
                == self.spec_credential_id())),
            result matches Ok(out) ==> (out@.len() != 32 ==> (s matches CreatePrfStep::Finished(
                Err(e),
            ) && is_bad_prf_size_error(e))),
            result matches Err(e) ==> create_fails_with_passkey(s, e.spec_message()),
    {
        match result {
            Ok(out) => {
                if out.len() != 32 {
                    return CreatePrfStep::Finished(Err(bad_prf_size_error()));
                }
                CreatePrfStep::Finished(
                    Ok(
                        UnpersistedPrfKey {
                            prf_key: bytes_32(&out),
                            prf_salt: self.prf_salt,
                            credential_id: self.credential_id,
                        },
                    ),
                )
            },
            Err(e) => CreatePrfStep::Finished(Err(passkey_error(&e))),
        }
    }
}

// ---------------------------------------------------------------------------
// A fresh passkey whose credential is persisted once its PRF key is known
// ---------------------------------------------------------------------------

/// The next thing that obtaining a PRF key needs, or its outcome: the key and
/// its salt.
pub enum ObtainPrfStep {
    /// Delete the stale entries [`CREDENTIAL_ID_KEY`] and [`PRF_SALT_KEY`].
    ClearStaleCredentials(AwaitStaleCleared),
    /// Run the creation of a passkey to its end.
    Create(AwaitPrfCreation, CreatePrfStep),
    /// Write the keychain entry.
    SaveCredential(AwaitCredentialSaved, KeychainWrite),
    SaveSalt(AwaitSaltSaved, KeychainWrite),
    Finished(Result<([u8; 32], [u8; 32]), CloudBackupError>),
}

pub struct AwaitStaleCleared {}

pub struct AwaitPrfCreation {}

pub struct AwaitCredentialSaved {
    prf_key: [u8; 32],
    prf_salt: [u8; 32],
}

pub struct AwaitSaltSaved {
    prf_key: [u8; 32],
    prf_salt: [u8; 32],
}

impl AwaitCredentialSaved {
    pub closed spec fn spec_prf_key(&self) -> Seq<u8> {
        self.prf_key@
    }

    pub closed spec fn spec_prf_salt(&self) -> Seq<u8> {
        self.prf_salt@
    }
}

impl AwaitSaltSaved {
    pub closed spec fn spec_prf_key(&self) -> Seq<u8> {
        self.prf_key@
    }

    pub closed spec fn spec_prf_salt(&self) -> Seq<u8> {
        self.prf_salt@
    }
}

/// The step ends with an internal error whose text is `prefix: error`.
pub open spec fn obtain_fails_with(s: ObtainPrfStep, prefix: Seq<char>, error: Seq<char>) -> bool {
    s matches ObtainPrfStep::Finished(Err(CloudBackupError::Internal(m))) && m@ == prefixed(
        prefix,
        error,
    )
}

/// The step creates a passkey for Cove's relying party, with a 16-byte user
/// ID, a 32-byte challenge and a 32-byte PRF salt kept for its assertion.
pub open spec fn starts_passkey_creation(c: CreatePrfStep) -> bool {
    c matches CreatePrfStep::CreatePasskey(w, req) && req.rp_id@ == PASSKEY_RP_ID@
        && req.user_id@.len() == 16 && req.challenge@.len() == 32 && w.spec_prf_salt().len() == 32
}

/// Creates a fresh passkey to wrap the master key: stale credentials of an
/// earlier attempt are cleared first.
pub fn obtain_prf_key() -> (s: ObtainPrfStep)
    ensures
        s is ClearStaleCredentials,
{
    ObtainPrfStep::ClearStaleCredentials(AwaitStaleCleared {})
}

impl AwaitStaleCleared {
    /// The keychain entries to delete before the passkey is created: the
    /// credential ID, then the PRF salt, of any earlier attempt.
    pub fn stale_entries(&self) -> (keys: Vec<String>)
        ensures
            keys@.map_values(|k: String| k@) == seq![CREDENTIAL_ID_KEY@, PRF_SALT_KEY@],
    {
        let mut keys: Vec<String> = Vec::new();
        keys.push(String::from_str(CREDENTIAL_ID_KEY));
        keys.push(String::from_str(PRF_SALT_KEY));
        assert(keys@.map_values(|k: String| k@) =~= seq![CREDENTIAL_ID_KEY@, PRF_SALT_KEY@]);
        keys
    }

    /// Once the stale entries are gone, a passkey is created.
    pub fn on_cleared(self) -> (s: ObtainPrfStep)
        ensures
            s matches ObtainPrfStep::Create(_, c) && starts_passkey_creation(c),
    {
        ObtainPrfStep::Create(AwaitPrfCreation {}, create_prf_key_without_persisting())
    }
}

impl AwaitPrfCreation {
    /// A new PRF key is persisted, the credential first; a failed creation
    /// ends with its error and persists nothing.
    pub fn on_created(self, result: Result<UnpersistedPrfKey, CloudBackupError>) -> (s: ObtainPrfStep)
        ensures
            result matches Ok(k) ==> (s matches ObtainPrfStep::SaveCredential(w, write)
                && w.spec_prf_key() == k.prf_key@ && w.spec_prf_salt() == k.prf_salt@
                && is_hex_write(write, CREDENTIAL_ID_KEY@, k.credential_id@)),
            result matches Err(e) ==> s == ObtainPrfStep::Finished(Err(e)),
    {
        match result {
            Ok(k) => {
                let write = hex_write(CREDENTIAL_ID_KEY, k.credential_id.as_slice());
                ObtainPrfStep::SaveCredential(
                    AwaitCredentialSaved { prf_key: k.prf_key, prf_salt: k.prf_salt },
                    write,
                )
            },
            Err(e) => ObtainPrfStep::Finished(Err(e)),
        }
    }
}

impl AwaitCredentialSaved {
    /// The salt is persisted after the credential.
    pub fn on_saved(self, result: Result<(), String>) -> (s: ObtainPrfStep)
        ensures
            result is Ok ==> (s matches ObtainPrfStep::SaveSalt(w, write) && w.spec_prf_key()
                == self.spec_prf_key() && w.spec_prf_salt() == self.spec_prf_salt() && is_hex_write(
                write,
                PRF_SALT_KEY@,
                self.spec_prf_salt(),
            )),
            result matches Err(e) ==> obtain_fails_with(s, "save credential"@, e@),
    {
        match result {
            Ok(()) => {
                let write = hex_write(PRF_SALT_KEY, self.prf_salt.as_slice());
                ObtainPrfStep::SaveSalt(
                    AwaitSaltSaved { prf_key: self.prf_key, prf_salt: self.prf_salt },
                    write,
                )
            },
            Err(e) => ObtainPrfStep::Finished(Err(internal_with_prefix("save credential", &e))),
        }
    }
}

impl AwaitSaltSaved {
    /// Once both entries are persisted, the key and its salt are the outcome.
    pub fn on_saved(self, result: Result<(), String>) -> (s: ObtainPrfStep)
        ensures
            result is Ok ==> (s matches ObtainPrfStep::Finished(Ok(r)) && r.0@
                == self.spec_prf_key() && r.1@ == self.spec_prf_salt()),
            result matches Err(e) ==> obtain_fails_with(s, "save prf_salt"@, e@),
    {
        match result {
            Ok(()) => ObtainPrfStep::Finished(Ok((self.prf_key, self.prf_salt))),
            Err(e) => ObtainPrfStep::Finished(Err(internal_with_prefix("save prf_salt", &e))),
        }
    }
}

} // verus!
