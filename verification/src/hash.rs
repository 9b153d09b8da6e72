//! The hash primitive that binds a secret to its public commitment.
//!
//! The digest itself is computed by the Soroban host; this module gives it a
//! name that contracts can speak about and builds the comparisons the swap
//! rules need on top of it.

use vstd::prelude::*;

verus! {

/// The SHA-256 digest of `data`.
///
/// Nothing is assumed about this function beyond what the host call below
/// returns for it: it is a fixed function of the bytes alone.
pub uninterp spec fn sha256_digest(data: Seq<u8>) -> Seq<u8>;

/// Calls `soroban_sdk::crypto::Crypto::sha256` on a fresh host environment.
///
/// Trusted: the returned array holds the SHA-256 digest of exactly the bytes
/// of `data`. The environment is created without snapshot capture and with an
/// unlimited budget, so the call cannot run out of metered resources; the
/// length bound is the largest byte object the host accepts.
#[verifier::external_body]
pub(crate) fn host_sha256(data: &[u8]) -> (digest: [u8; 32])
    requires
        data@.len() <= u32::MAX,
    ensures
        digest@ == sha256_digest(data@),
{
    let config = soroban_sdk::testutils::EnvTestConfig { capture_snapshot_at_drop: false };
    let env = soroban_sdk::Env::new_with_config(config);
    env.cost_estimate().budget().reset_unlimited();
    let bytes = soroban_sdk::Bytes::from_slice(&env, data);
    env.crypto().sha256(&bytes).to_array()
}

/// Whether two 32-byte values hold the same bytes.
pub fn bytes32_eq(a: &[u8; 32], b: &[u8; 32]) -> (same: bool)
    ensures
        same == (a@ == b@),
{
    let mut i: usize = 0;
    while i < 32
        invariant
            i <= 32,
            forall|j: int| 0 <= j < i ==> a@[j] == b@[j],
        decreases 32 - i,
    {
        if a[i] != b[i] {
            return false;
        }
        i += 1;
    }
    assert(a@ =~= b@);
    true
}

/// Whether `preimage` is a secret that opens `hashlock`, that is, whether its
/// SHA-256 digest equals the hashlock byte for byte.
pub fn preimage_opens(preimage: &[u8; 32], hashlock: &[u8; 32]) -> (opens: bool)
    ensures
        opens == (sha256_digest(preimage@) == hashlock@),
{
    let digest = host_sha256(preimage.as_slice());
    bytes32_eq(&digest, hashlock)
}

} // verus!
