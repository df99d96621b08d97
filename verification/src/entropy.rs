//! Randomness and the clock, the two inputs of the backup flows that no
//! argument determines.

use vstd::prelude::*;
use rand::RngExt;

verus! {

/// 32 random bytes from `rand::rng().random()`, the thread-local CSPRNG.
///
/// Trusted, and nothing is claimed of the bytes: they rest on chance. The
/// call panics only if the operating system's entropy source fails when the
/// generator is first seeded, which no argument can rule out.
#[verifier::external_body]
pub(crate) fn random_32() -> (r: [u8; 32]) {
    rand::rng().random::<[u8; 32]>()
}

/// 16 random bytes from `rand::rng().random()`; see [`random_32`].
///
/// Trusted, and nothing is claimed of the bytes.
#[verifier::external_body]
pub(crate) fn random_16() -> (r: [u8; 16]) {
    rand::rng().random::<[u8; 16]>()
}

/// The current time as whole seconds since the Unix epoch, from
/// `jiff::Timestamp::now().as_second()`.
///
/// Trusted, and nothing is claimed of the value: it is the machine's clock.
#[verifier::external_body]
pub(crate) fn unix_seconds_now() -> (r: i64) {
    jiff::Timestamp::now().as_second()
}

/// The time of a sync as stored: the clock's seconds, or 0 when they do not
/// fit (before 1970).
pub fn sync_time_from_seconds(seconds: i64) -> (r: u64)
    ensures
        seconds >= 0 ==> r == seconds,
        seconds < 0 ==> r == 0,
{
    if seconds >= 0 {
        seconds as u64
    } else {
        0
    }
}

/// The current time of a sync: seconds since the Unix epoch, or 0.
pub fn sync_time_now() -> (r: u64) {
    sync_time_from_seconds(unix_seconds_now())
}

/// An array of 32 bytes holding exactly the bytes of `v`.
pub fn bytes_32(v: &Vec<u8>) -> (r: [u8; 32])
    requires
        v.len() == 32,
    ensures
        r@ == v@,
{
    let r = [
        v[0], v[1], v[2], v[3], v[4], v[5], v[6], v[7], v[8], v[9], v[10], v[11], v[12], v[13],
        v[14], v[15], v[16], v[17], v[18], v[19], v[20], v[21], v[22], v[23], v[24], v[25], v[26],
        v[27], v[28], v[29], v[30], v[31],
    ];
    assert(r@ =~= v@);
    r
}

/// The bytes of a 32-byte array, as a vector.
pub fn vec_32(a: &[u8; 32]) -> (r: Vec<u8>)
    ensures
        r@ == a@,
{
    let mut r: Vec<u8> = Vec::new();
    for i in 0..32usize
        invariant
            r@ == a@.subrange(0, i as int),
    {
        r.push(a[i]);
        assert(r@ =~= a@.subrange(0, i + 1));
    }
    assert(r@ =~= a@);
    r
}

/// The bytes of a 16-byte array, as a vector.
pub fn vec_16(a: &[u8; 16]) -> (r: Vec<u8>)
    ensures
        r@ == a@,
{
    let mut r: Vec<u8> = Vec::new();
    for i in 0..16usize
        invariant
            r@ == a@.subrange(0, i as int),
    {
        r.push(a[i]);
        assert(r@ =~= a@.subrange(0, i + 1));
    }
    assert(r@ =~= a@);
    r
}

/// A fresh challenge of 32 random bytes for a passkey assertion.
pub fn random_challenge() -> (r: Vec<u8>)
    ensures
        r.len() == 32,
{
    let a = random_32();
    vec_32(&a)
}

} // verus!
