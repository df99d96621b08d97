//! Passkey authentication with a PRF extension: which credential to try,
//! when to fall back to discovery, and how failures are reported.

use vstd::prelude::*;
use vstd::string::*;
use crate::entropy::{bytes_32, random_challenge, vec_32};
use crate::model::{copy_bytes, CloudBackupError};

verus! {

/// The relying party of Cove's passkeys.
pub const PASSKEY_RP_ID: &'static str = "covebitcoinwallet.com";

/// Errors reported by the platform's passkey service.
#[derive(Debug, Clone, PartialEq, Eq)]
pub enum PasskeyError {
    UserCancelled,
    NoCredentialFound,
    AuthenticationFailed(String),
    /// Any other failure, with the platform's text.
    Other(String),
}

impl PasskeyError {
    /// The human-readable text of the error.
    pub open spec fn spec_message(&self) -> Seq<char> {
        match self {
            PasskeyError::UserCancelled => "user cancelled"@,
            PasskeyError::NoCredentialFound => "no credential found"@,
            PasskeyError::AuthenticationFailed(s) => "authentication failed: "@ + s@,
            PasskeyError::Other(s) => s@,
        }
    }

    /// The human-readable text of the error (what `Display` shows).
    pub fn message(&self) -> (s: String)
        ensures
            s@ == self.spec_message(),
    {
        match self {
            PasskeyError::UserCancelled => String::from_str("user cancelled"),
            PasskeyError::NoCredentialFound => String::from_str("no credential found"),
            PasskeyError::AuthenticationFailed(s) => String::from_str("authentication failed: ").concat(
                s.as_str(),
            ),
            PasskeyError::Other(s) => s.clone(),
        }
    }
}

/// A passkey found by a discoverable assertion.
#[derive(Debug, Clone, PartialEq, Eq)]
pub struct DiscoveredPasskey {
    pub prf_output: Vec<u8>,
    pub credential_id: Vec<u8>,
}

/// A passkey that answered with a usable PRF key.
#[derive(Debug, PartialEq)]
pub struct AuthenticatedPasskey {
    pub prf_key: [u8; 32],
    pub credential_id: Vec<u8>,
    pub credential_recovered: bool,
}

/// How an authentication attempt ended, short of an error.
#[derive(Debug, PartialEq)]
pub enum PasskeyAuthOutcome {
    Authenticated(AuthenticatedPasskey),
    UserCancelled,
    NoCredentialFound,
}

/// Which credentials an authentication may use.
#[derive(Debug, Clone, Copy, PartialEq, Eq, Structural)]
pub enum PasskeyAuthPolicy {
    StoredOnly,
    StoredThenDiscover,
    DiscoverOnly,
}

/// A PRF assertion with a known credential, for the platform to perform.
#[derive(Debug)]
pub struct PrfRequest {
    pub rp_id: String,
    pub credential_id: Vec<u8>,
    pub prf_salt: Vec<u8>,
    pub challenge: Vec<u8>,
}

/// A discoverable PRF assertion, for the platform to perform.
#[derive(Debug)]
pub struct DiscoveryRequest {
    pub rp_id: String,
    pub prf_salt: Vec<u8>,
    pub challenge: Vec<u8>,
}

/// The request carries Cove's relying party, the given credential and salt,
/// and a 32-byte challenge.
pub open spec fn is_prf_request(r: PrfRequest, credential_id: Seq<u8>, prf_salt: Seq<u8>) -> bool {
    &&& r.rp_id@ == PASSKEY_RP_ID@
    &&& r.credential_id@ == credential_id
    &&& r.prf_salt@ == prf_salt
    &&& r.challenge@.len() == 32
}

/// The request carries Cove's relying party, the given salt and a 32-byte
/// challenge.
pub open spec fn is_discovery_request(r: DiscoveryRequest, prf_salt: Seq<u8>) -> bool {
    &&& r.rp_id@ == PASSKEY_RP_ID@
    &&& r.prf_salt@ == prf_salt
    &&& r.challenge@.len() == 32
}

pub fn prf_request(credential_id: &Vec<u8>, prf_salt: &[u8; 32]) -> (r: PrfRequest)
    ensures
        is_prf_request(r, credential_id@, prf_salt@),
{
    PrfRequest {
        rp_id: String::from_str(PASSKEY_RP_ID),
        credential_id: copy_bytes(credential_id),
        prf_salt: vec_32(prf_salt),
        challenge: random_challenge(),
    }
}

pub fn discovery_request(prf_salt: &[u8; 32]) -> (r: DiscoveryRequest)
    ensures
        is_discovery_request(r, prf_salt@),
{
    DiscoveryRequest {
        rp_id: String::from_str(PASSKEY_RP_ID),
        prf_salt: vec_32(prf_salt),
        challenge: random_challenge(),
    }
}

/// The error of a PRF output of the wrong size.
pub open spec fn is_bad_prf_size_error(e: CloudBackupError) -> bool {
    e matches CloudBackupError::Internal(m) && m@ == "PRF output is not 32 bytes"@
}

pub fn bad_prf_size_error() -> (e: CloudBackupError)
    ensures
        is_bad_prf_size_error(e),
{
    CloudBackupError::Internal(String::from_str("PRF output is not 32 bytes"))
}

/// Maps a failed discoverable assertion: a cancellation and a missing
/// credential are outcomes, anything else is a passkey error with the
/// platform's text.
pub fn map_discovery_error(error: PasskeyError) -> (r: Result<PasskeyAuthOutcome, CloudBackupError>)
    ensures
        error is UserCancelled ==> r == Ok::<PasskeyAuthOutcome, CloudBackupError>(
            PasskeyAuthOutcome::UserCancelled,
        ),
        error is NoCredentialFound ==> r == Ok::<PasskeyAuthOutcome, CloudBackupError>(
            PasskeyAuthOutcome::NoCredentialFound,
        ),
        !(error is UserCancelled) && !(error is NoCredentialFound) ==> (r matches Err(
            CloudBackupError::Passkey(m),
        ) && m@ == error.spec_message()),
{
    match error {
        PasskeyError::UserCancelled => Ok(PasskeyAuthOutcome::UserCancelled),
        PasskeyError::NoCredentialFound => Ok(PasskeyAuthOutcome::NoCredentialFound),
        other => Err(CloudBackupError::Passkey(other.message())),
    }
}

/// The outcome of a PRF output: a 32-byte key authenticates the credential,
/// any other size is an internal error.
pub open spec fn prf_outcome_ok(
    r: Result<PasskeyAuthOutcome, CloudBackupError>,
    prf_output: Seq<u8>,
    credential_id: Seq<u8>,
    recovered: bool,
) -> bool {
    if prf_output.len() == 32 {
        r matches Ok(PasskeyAuthOutcome::Authenticated(a)) && a.prf_key@ == prf_output
            && a.credential_id@ == credential_id && a.credential_recovered == recovered
    } else {
        r matches Err(e) && is_bad_prf_size_error(e)
    }
}

fn authenticated(prf_output: Vec<u8>, credential_id: Vec<u8>, recovered: bool) -> (r: Result<
    PasskeyAuthOutcome,
    CloudBackupError,
>)
    ensures
        prf_outcome_ok(r, prf_output@, credential_id@, recovered),
{
    if prf_output.len() != 32 {
        return Err(bad_prf_size_error());
    }
    Ok(
        PasskeyAuthOutcome::Authenticated(
            AuthenticatedPasskey {
                prf_key: bytes_32(&prf_output),
                credential_id,
                credential_recovered: recovered,
            },
        ),
    )
}

/// The next thing an authentication under a policy needs, or its outcome.
pub enum PolicyAuthStep {
    /// Read the stored credential ID from the keychain.
    LoadStoredCredential(AwaitStoredCredential),
    /// Perform the PRF assertion with the stored credential.
    AuthenticateStored(AwaitStoredAssertion, PrfRequest),
    /// Perform a discoverable PRF assertion.
    Discover(AwaitDiscovery, DiscoveryRequest),
    Finished(Result<PasskeyAuthOutcome, CloudBackupError>),
}

/// Waiting for the stored credential ID.
pub struct AwaitStoredCredential {
    policy: PasskeyAuthPolicy,
    prf_salt: [u8; 32],
}

/// Waiting for the PRF assertion of the stored credential.
pub struct AwaitStoredAssertion {
    policy: PasskeyAuthPolicy,
    prf_salt: [u8; 32],
    credential_id: Vec<u8>,
}

/// Waiting for a discoverable PRF assertion.
pub struct AwaitDiscovery {
    prf_salt: [u8; 32],
}

impl AwaitStoredCredential {
    pub closed spec fn spec_policy(&self) -> PasskeyAuthPolicy {
        self.policy
    }

    pub closed spec fn spec_prf_salt(&self) -> Seq<u8> {
        self.prf_salt@
    }
}

impl AwaitStoredAssertion {
    pub closed spec fn spec_policy(&self) -> PasskeyAuthPolicy {
        self.policy
    }

    pub closed spec fn spec_prf_salt(&self) -> Seq<u8> {
        self.prf_salt@
    }

    pub closed spec fn spec_credential_id(&self) -> Seq<u8> {
        self.credential_id@
    }
}

impl AwaitDiscovery {
    pub closed spec fn spec_prf_salt(&self) -> Seq<u8> {
        self.prf_salt@
    }
}

/// The step begins a discovery with the given salt.
pub open spec fn discovers(s: PolicyAuthStep, prf_salt: Seq<u8>) -> bool {
    s matches PolicyAuthStep::Discover(w, req) && w.spec_prf_salt() == prf_salt
        && is_discovery_request(req, prf_salt)
}

/// The step ends with the given outcome.
pub open spec fn finishes_with(s: PolicyAuthStep, o: PasskeyAuthOutcome) -> bool {
    s matches PolicyAuthStep::Finished(Ok(o2)) && o2 == o
}

fn discover(prf_salt: [u8; 32]) -> (s: PolicyAuthStep)
    ensures
        discovers(s, prf_salt@),
{
    let req = discovery_request(&prf_salt);
    PolicyAuthStep::Discover(AwaitDiscovery { prf_salt }, req)
}

/// Starts an authentication: a policy that may use the stored credential
/// reads it first, `DiscoverOnly` goes straight to discovery.
pub fn authenticate_with_policy(prf_salt: &[u8; 32], policy: PasskeyAuthPolicy) -> (s: PolicyAuthStep)
    ensures
        policy is DiscoverOnly ==> discovers(s, prf_salt@),
        !(policy is DiscoverOnly) ==> (s matches PolicyAuthStep::LoadStoredCredential(w)
            && w.spec_policy() == policy && w.spec_prf_salt() == prf_salt@),
{
    match policy {
        PasskeyAuthPolicy::StoredOnly | PasskeyAuthPolicy::StoredThenDiscover => {
            PolicyAuthStep::LoadStoredCredential(AwaitStoredCredential { policy, prf_salt: *prf_salt })
        },
        PasskeyAuthPolicy::DiscoverOnly => discover(*prf_salt),
    }
}

impl AwaitStoredCredential {
    /// With a stored credential, its PRF assertion comes next; without one,
    /// `StoredOnly` finds no credential and the other policies discover.
    pub fn on_stored_credential(self, stored: Option<Vec<u8>>) -> (s: PolicyAuthStep)
        ensures
            stored matches Some(id) ==> (s matches PolicyAuthStep::AuthenticateStored(w, req)
                && w.spec_policy() == self.spec_policy() && w.spec_prf_salt()
                == self.spec_prf_salt() && w.spec_credential_id() == id@ && is_prf_request(
                req,
                id@,
                self.spec_prf_salt(),
            )),
            stored is None && self.spec_policy() is StoredOnly ==> finishes_with(
                s,
                PasskeyAuthOutcome::NoCredentialFound,
            ),
            stored is None && !(self.spec_policy() is StoredOnly) ==> discovers(
                s,
                self.spec_prf_salt(),
            ),
    {
        match stored {
            Some(credential_id) => {
                let req = prf_request(&credential_id, &self.prf_salt);
                PolicyAuthStep::AuthenticateStored(
                    AwaitStoredAssertion {
                        policy: self.policy,
                        prf_salt: self.prf_salt,
                        credential_id,
                    },
                    req,
                )
            },
            None => {
                if matches!(self.policy, PasskeyAuthPolicy::StoredOnly) {
                    return PolicyAuthStep::Finished(Ok(PasskeyAuthOutcome::NoCredentialFound));
                }
                discover(self.prf_salt)
            },
        }
    }
}

impl AwaitStoredAssertion {
    /// A PRF output authenticates the stored credential; a cancellation ends
    /// the attempt; any other failure ends `StoredOnly` with no credential
    /// and sends the other policies to discovery.
    pub fn on_assertion(self, result: Result<Vec<u8>, PasskeyError>) -> (s: PolicyAuthStep)
        ensures
            result matches Ok(out) ==> (s matches PolicyAuthStep::Finished(r) && prf_outcome_ok(
                r,
                out@,
                self.spec_credential_id(),
                false,
            )),
            result matches Err(e) && e is UserCancelled ==> finishes_with(
                s,
                PasskeyAuthOutcome::UserCancelled,
            ),
            result matches Err(e) && !(e is UserCancelled) && self.spec_policy() is StoredOnly
                ==> finishes_with(s, PasskeyAuthOutcome::NoCredentialFound),
            result matches Err(e) && !(e is UserCancelled) && !(self.spec_policy() is StoredOnly)
                ==> discovers(s, self.spec_prf_salt()),
    {
        match result {
            Ok(prf_output) => PolicyAuthStep::Finished(
                authenticated(prf_output, self.credential_id, false),
            ),
            Err(PasskeyError::UserCancelled) => PolicyAuthStep::Finished(
                Ok(PasskeyAuthOutcome::UserCancelled),
            ),
            Err(_) => {
                if matches!(self.policy, PasskeyAuthPolicy::StoredOnly) {
                    return PolicyAuthStep::Finished(Ok(PasskeyAuthOutcome::NoCredentialFound));
                }
                discover(self.prf_salt)
            },
        }
    }
}

impl AwaitDiscovery {
    /// A discovered passkey authenticates with the credential it names, as
    /// recovered; a failure is mapped by [`map_discovery_error`].
    pub fn on_discovery(self, result: Result<DiscoveredPasskey, PasskeyError>) -> (s: PolicyAuthStep)
        ensures
            result matches Ok(d) ==> (s matches PolicyAuthStep::Finished(r) && prf_outcome_ok(
                r,
                d.prf_output@,
                d.credential_id@,
                true,
            )),
            result matches Err(e) ==> (s matches PolicyAuthStep::Finished(r) && ({
                &&& e is UserCancelled ==> r == Ok::<PasskeyAuthOutcome, CloudBackupError>(
                    PasskeyAuthOutcome::UserCancelled,
                )
                &&& e is NoCredentialFound ==> r == Ok::<PasskeyAuthOutcome, CloudBackupError>(
                    PasskeyAuthOutcome::NoCredentialFound,
                )
                &&& !(e is UserCancelled) && !(e is NoCredentialFound) ==> (r matches Err(
                    CloudBackupError::Passkey(m),
                ) && m@ == e.spec_message())
            })),
    {
        match result {
            Ok(discovered) => PolicyAuthStep::Finished(
                authenticated(discovered.prf_output, discovered.credential_id, true),
            ),
            Err(error) => PolicyAuthStep::Finished(map_discovery_error(error)),
        }
    }
}

/// The settings of one verification run of the backup.
pub struct VerificationSession {
    /// Skip the stored credential and use a discoverable assertion.
    pub force_discoverable: bool,
}

impl VerificationSession {
    /// The policy of the session: discovery only when forced, else the stored
    /// credential first and discovery after.
    pub open spec fn spec_policy(&self) -> PasskeyAuthPolicy {
        if self.force_discoverable {
            PasskeyAuthPolicy::DiscoverOnly
        } else {
            PasskeyAuthPolicy::StoredThenDiscover
        }
    }

    /// Starts an authentication under the session's policy.
    pub fn authenticate_with_fallback(&self, prf_salt: &[u8; 32]) -> (s: PolicyAuthStep)
        ensures
            self.force_discoverable ==> discovers(s, prf_salt@),
            !self.force_discoverable ==> (s matches PolicyAuthStep::LoadStoredCredential(w)
                && w.spec_policy() is StoredThenDiscover && w.spec_prf_salt() == prf_salt@),
    {
        let policy = if self.force_discoverable {
            PasskeyAuthPolicy::DiscoverOnly
        } else {
            PasskeyAuthPolicy::StoredThenDiscover
        };
        authenticate_with_policy(prf_salt, policy)
    }
}

} // verus!
