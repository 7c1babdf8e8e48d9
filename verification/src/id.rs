//! The deterministic identifier of an attestation: the first 16 bytes of the
//! SHA-256 digest of the XDR encoding of `(issuer, subject, claim_type,
//! timestamp)`.

use crate::types::{Address, Attestation};
use soroban_sdk::xdr::{AccountId, PublicKey, ScAddress, ToXdr, Uint256};
use soroban_sdk::{Env, TryFromVal};
use vstd::prelude::*;

verus! {

/// The host environment that serialises values and computes digests.
#[verifier::external_type_specification]
#[verifier::external_body]
pub struct ExEnv(soroban_sdk::Env);

/// The XDR (`ScVal`) encoding of the tuple
/// `(issuer, subject, claim_type, timestamp)`, as the host serialises it.
pub uninterp spec fn id_preimage(
    issuer: Address,
    subject: Address,
    claim_type: Seq<char>,
    timestamp: u64,
) -> Seq<u8>;

/// The SHA-256 digest of `data`.
pub uninterp spec fn sha256_digest(data: Seq<u8>) -> Seq<u8>;

/// Number of digest bytes kept in an attestation identifier.
pub const ID_LEN: usize = 16;

/// The identifier of the attestation with the given contents: the first
/// [`ID_LEN`] bytes of the SHA-256 digest of their XDR encoding.
pub open spec fn attestation_id(
    issuer: Address,
    subject: Address,
    claim_type: Seq<char>,
    timestamp: u64,
) -> Seq<u8> {
    sha256_digest(id_preimage(issuer, subject, claim_type, timestamp)).take(ID_LEN as int)
}

/// Serialises `(issuer, subject, claim_type, timestamp)` with
/// `soroban_sdk::xdr::ToXdr::to_xdr` on the tuple of the host's `Address`,
/// `Address`, `String` and `u64`, and copies the resulting bytes out.
///
/// Claimed: the bytes are `id_preimage` of the arguments, a function of them
/// alone (the encoding does not depend on `env`). Each address is handed to
/// the host as an `ScAddress` built from its 32 bytes, a conversion that the
/// host accepts for every key. Not stated: the host panics when the
/// environment's resource budget is exhausted, which depends on the work done
/// on `env` before the call, not on the arguments.
#[verifier::external_body]
fn id_preimage_xdr(
    env: &Env,
    issuer: &Address,
    subject: &Address,
    claim_type: &str,
    timestamp: u64,
) -> (bytes: Vec<u8>)
    ensures
        bytes@ == id_preimage(*issuer, *subject, claim_type@, timestamp),
{
    let [issuer, subject] = [issuer, subject].map(|a| match *a {
        Address::Account(k) => ScAddress::Account(AccountId(PublicKey::PublicKeyTypeEd25519(Uint256(k)))),
        Address::Contract(h) => ScAddress::Contract(soroban_sdk::xdr::Hash(h)),
    }).map(|sc| soroban_sdk::Address::try_from_val(env, &sc).unwrap());
    let claim = soroban_sdk::String::from_str(env, claim_type);
    let xdr = (issuer, subject, claim, timestamp).to_xdr(env);
    let mut bytes = vec![0u8; xdr.len() as usize];
    xdr.copy_into_slice(&mut bytes);
    bytes
}

/// Computes `env.crypto().sha256(..)` on a copy of `data` in host bytes and
/// returns the 32-byte digest as an array.
///
/// Claimed: the digest is `sha256_digest(data)`, a function of `data` alone.
/// Not stated: the host panics when the environment's resource budget is
/// exhausted, which depends on the work done on `env` before the call.
#[verifier::external_body]
fn sha256(env: &Env, data: &[u8]) -> (digest: [u8; 32])
    ensures
        digest@ == sha256_digest(data@),
{
    env.crypto().sha256(&soroban_sdk::Bytes::from_slice(env, data)).to_array()
}

/// Keeps the first [`ID_LEN`] bytes of a SHA-256 digest as an identifier.
pub fn id_from_digest(digest: &[u8; 32]) -> (id: Vec<u8>)
    ensures
        id@ == digest@.take(ID_LEN as int),
        id@.len() == ID_LEN,
{
    let mut id: Vec<u8> = Vec::with_capacity(ID_LEN);
    let mut i: usize = 0;
    while i < ID_LEN
        invariant
            i <= ID_LEN,
            digest@.len() == 32,
            id@ == digest@.take(i as int),
        decreases ID_LEN - i,
    {
        id.push(digest[i]);
        i = i + 1;
        assert(id@ =~= digest@.take(i as int));
    }
    id
}

impl Attestation {
    /// Generate a deterministic attestation ID by SHA-256 hashing the tuple
    /// `(issuer, subject, claim_type, timestamp)`.
    ///
    /// The first 16 bytes of the hash are used as the ID to keep it compact
    /// while still being collision-resistant for practical purposes.
    pub fn generate_id(
        env: &Env,
        issuer: &Address,
        subject: &Address,
        claim_type: &String,
        timestamp: u64,
    ) -> (id: Vec<u8>)
        ensures
            id@ == attestation_id(*issuer, *subject, claim_type@, timestamp),
            id@ == sha256_digest(id_preimage(*issuer, *subject, claim_type@, timestamp)).take(
                ID_LEN as int,
            ),
            id@.len() == ID_LEN,
    {
        let data = id_preimage_xdr(env, issuer, subject, claim_type.as_str(), timestamp);
        let digest = sha256(env, data.as_slice());
        id_from_digest(&digest)
    }
}

/// The identifier hashes the encoding of the tuple in its fixed order
/// `(issuer, subject, claim_type, timestamp)`, with the whole claim and
/// whatever kind of address each party is, and keeps the first [`ID_LEN`]
/// bytes of the digest.
pub proof fn lemma_id_hashes_ordered_tuple(
    issuer: Address,
    subject: Address,
    claim_type: Seq<char>,
    timestamp: u64,
)
    ensures
        attestation_id(issuer, subject, claim_type, timestamp) == sha256_digest(
            id_preimage(issuer, subject, claim_type, timestamp),
        ).take(ID_LEN as int),
{
}

/// Two attestations whose tuples `(issuer, subject, claim_type, timestamp)`
/// have the same encoding get the same identifier; the identifier depends on
/// the parts only through that encoding.
pub proof fn lemma_id_determined_by_encoding(
    i1: Address,
    s1: Address,
    c1: Seq<char>,
    t1: u64,
    i2: Address,
    s2: Address,
    c2: Seq<char>,
    t2: u64,
)
    requires
        id_preimage(i1, s1, c1, t1) == id_preimage(i2, s2, c2, t2),
    ensures
        attestation_id(i1, s1, c1, t1) == attestation_id(i2, s2, c2, t2),
{
}

} // verus!
